//! Per-field accessor synthesis and per-field argument-holder synthesis.
//! Required arguments stay unwrapped in the holder, optional ones are wrapped
//! in an optional container, in declared order; an accessor extends the
//! accumulated selection and hands the connection and process handles on.

use vstd::prelude::*;
use vstd::string::*;

use crate::model::{Field, InputValue, field_wf};
use crate::naming::{
    snake_of, type_identifier_spec, render_doc_spec, doc_prefix, member_doc_prefix,
    render_doc, render_doc_with, type_identifier, member_identifier,
};
use crate::typeref::{resolve, resolve_spec};

verus! {

/// One holder (or input-object) member line: the argument under its member
/// identifier, typed by the resolver — so a required argument is bare and an
/// optional one is wrapped.
pub open spec fn member_line_spec(a: InputValue) -> Seq<char> {
    "    pub "@ + snake_of(a.name@) + ": "@ + resolve_spec(a.type_ref) + ",\n"@
}

/// The member lines of the first `n` arguments, in declared order.
pub open spec fn member_lines_upto(args: Seq<InputValue>, n: int) -> Seq<char>
    decreases n,
{
    if n <= 0 {
        Seq::empty()
    } else {
        member_lines_upto(args, n - 1) + member_line_spec(args[n - 1])
    }
}

/// The name of the argument-holder type synthesized for a field.
pub open spec fn holder_name_spec(f: Field) -> Seq<char> {
    type_identifier_spec(f.name@) + "Args"@
}

/// The field's description as a doc comment, at top level of the module.
pub open spec fn field_doc_spec(f: Field) -> Seq<char> {
    match f.description {
        Some(d) => render_doc_spec(d@, doc_prefix()),
        None => Seq::empty(),
    }
}

/// The field's description as a doc comment on a member of a declaration.
pub open spec fn field_member_doc_spec(f: Field) -> Seq<char> {
    match f.description {
        Some(d) => render_doc_spec(d@, member_doc_prefix()),
        None => Seq::empty(),
    }
}

/// The argument-holder declaration of a field with arguments: one member per
/// argument, in declared order, under the field's description.
pub open spec fn holder_spec(f: Field) -> Seq<char> {
    field_doc_spec(f) + "pub struct "@ + holder_name_spec(f) + " {\n"@ + member_lines_upto(
        f.args@,
        f.args@.len() as int,
    ) + "}\n"@
}

/// Deprecation metadata surfaced as documentation only: one doc line, with
/// the reason where one is given; no behavioural difference.
pub open spec fn deprecation_doc_spec(f: Field) -> Seq<char> {
    if f.is_deprecated {
        match f.deprecation_reason {
            Some(r) => "    /// Deprecated: "@ + r@ + "\n"@,
            None => "    /// Deprecated\n"@,
        }
    } else {
        Seq::empty()
    }
}

/// The accessor operation synthesized for a field: it selects the field's
/// name on the accumulated selection, attaches the argument holder where one
/// exists, and returns a new instance of the resolved output type carrying
/// the connection and process handles unchanged and the extended selection.
pub open spec fn accessor_spec(f: Field) -> Seq<char> {
    (if f.args@.len() == 0 {
        field_member_doc_spec(f)
    } else {
        Seq::empty()
    }) + deprecation_doc_spec(f) + "    pub fn "@ + snake_of(f.name@) + "(\n"@ + "        &self,\n"@
        + (if f.args@.len() > 0 {
        "        args: &"@ + holder_name_spec(f) + ",\n"@
    } else {
        Seq::empty()
    }) + "    ) -> "@ + resolve_spec(f.type_ref) + " {\n"@
        + "        let query = self.selection.select(\""@ + f.name@ + "\");\n"@ + (if f.args@.len()
        > 0 {
        "        let query = query.args(args);\n"@
    } else {
        Seq::empty()
    }) + "        "@ + resolve_spec(f.type_ref) + " {\n"@ + "            conn: self.conn.clone(),\n"@
        + "            proc: self.proc.clone(),\n"@ + "            selection: query,\n"@
        + "        }\n"@ + "    }\n"@
}

/// A field's contribution to the holder block: its holder declaration and a
/// separating blank line where it has arguments, nothing where it has none.
pub open spec fn holder_block_spec(f: Field) -> Seq<char> {
    if f.args@.len() == 0 {
        Seq::empty()
    } else {
        holder_spec(f) + "\n"@
    }
}

/// The holder blocks of the first `n` fields, in declared order.
pub open spec fn holders_upto(fs: Seq<Field>, n: int) -> Seq<char>
    decreases n,
{
    if n <= 0 {
        Seq::empty()
    } else {
        holders_upto(fs, n - 1) + holder_block_spec(fs[n - 1])
    }
}

/// The accessors of the first `n` fields, in declared order, separated by
/// one blank line.
pub open spec fn accessors_upto(fs: Seq<Field>, n: int) -> Seq<char>
    decreases n,
{
    if n <= 0 {
        Seq::empty()
    } else if n == 1 {
        accessor_spec(fs[0])
    } else {
        accessors_upto(fs, n - 1) + "\n"@ + accessor_spec(fs[n - 1])
    }
}

/// Render the member lines of an argument list, in declared order.
pub(crate) fn render_members(args: &Vec<InputValue>) -> (r: String)
    requires
        forall|i: int| 0 <= i < args@.len() ==> crate::model::type_ref_wf(
            #[trigger] args@[i].type_ref,
        ),
    ensures
        r@ == member_lines_upto(args@, args@.len() as int),
{
    let mut out = String::new();
    let mut i: usize = 0;
    while i < args.len()
        invariant
            i <= args@.len(),
            out@ == member_lines_upto(args@, i as int),
            forall|k: int| 0 <= k < args@.len() ==> crate::model::type_ref_wf(
                #[trigger] args@[k].type_ref,
            ),
        decreases args@.len() - i,
    {
        let a = &args[i];
        out.append("    pub ");
        let m = member_identifier(a.name.as_str());
        out.append(m.as_str());
        out.append(": ");
        let t = resolve(&a.type_ref);
        out.append(t.as_str());
        out.append(",\n");
        i += 1;
        proof {
            assert(out@ =~= member_lines_upto(args@, i as int));
        }
    }
    out
}

/// Render a field's description, if any, as a top-level doc comment.
fn render_field_doc(f: &Field) -> (r: String)
    ensures
        r@ == field_doc_spec(*f),
{
    match &f.description {
        Some(d) => render_doc(d.as_str()),
        None => String::new(),
    }
}

/// Render the argument-holder declaration of a field with arguments.
fn render_holder(f: &Field) -> (r: String)
    requires
        field_wf(*f),
        f.args@.len() > 0,
    ensures
        r@ == holder_spec(*f),
{
    let mut out = render_field_doc(f);
    out.append("pub struct ");
    let n = type_identifier(f.name.as_str());
    out.append(n.as_str());
    out.append("Args");
    out.append(" {\n");
    let members = render_members(&f.args);
    out.append(members.as_str());
    out.append("}\n");
    proof {
        assert(out@ =~= holder_spec(*f));
    }
    out
}

/// Render the accessor operation of a field.
fn render_accessor(f: &Field) -> (r: String)
    requires
        field_wf(*f),
    ensures
        r@ == accessor_spec(*f),
{
    let mut out = String::new();
    if f.args.len() == 0 {
        match &f.description {
            Some(d) => {
                let doc = render_doc_with(d.as_str(), "    /// ");
                out.append(doc.as_str());
            },
            None => {},
        }
    }
    if f.is_deprecated {
        match &f.deprecation_reason {
            Some(reason) => {
                out.append("    /// Deprecated: ");
                out.append(reason.as_str());
                out.append("\n");
            },
            None => {
                out.append("    /// Deprecated\n");
            },
        }
    }
    out.append("    pub fn ");
    let m = member_identifier(f.name.as_str());
    out.append(m.as_str());
    out.append("(\n");
    out.append("        &self,\n");
    let holder = type_identifier(f.name.as_str());
    if f.args.len() > 0 {
        out.append("        args: &");
        out.append(holder.as_str());
        out.append("Args");
        out.append(",\n");
    }
    out.append("    ) -> ");
    let output = resolve(&f.type_ref);
    out.append(output.as_str());
    out.append(" {\n");
    out.append("        let query = self.selection.select(\"");
    out.append(f.name.as_str());
    out.append("\");\n");
    if f.args.len() > 0 {
        out.append("        let query = query.args(args);\n");
    }
    out.append("        ");
    out.append(output.as_str());
    out.append(" {\n");
    out.append("            conn: self.conn.clone(),\n");
    out.append("            proc: self.proc.clone(),\n");
    out.append("            selection: query,\n");
    out.append("        }\n");
    out.append("    }\n");
    proof {
        assert(out@ =~= accessor_spec(*f));
    }
    out
}

/// Render all fields of an enclosing type: the argument-holder declarations
/// and the accessor operations, both in declared field order.
pub fn render_fields(fields: &Vec<Field>) -> (r: (String, String))
    requires
        forall|i: int| 0 <= i < fields@.len() ==> field_wf(#[trigger] fields@[i]),
    ensures
        r.0@ == holders_upto(fields@, fields@.len() as int),
        r.1@ == accessors_upto(fields@, fields@.len() as int),
{
    let mut holders = String::new();
    let mut accessors = String::new();
    let mut i: usize = 0;
    while i < fields.len()
        invariant
            i <= fields@.len(),
            holders@ == holders_upto(fields@, i as int),
            accessors@ == accessors_upto(fields@, i as int),
            forall|k: int| 0 <= k < fields@.len() ==> field_wf(#[trigger] fields@[k]),
        decreases fields@.len() - i,
    {
        let f = &fields[i];
        if f.args.len() > 0 {
            let h = render_holder(f);
            holders.append(h.as_str());
            holders.append("\n");
        }
        if i > 0 {
            accessors.append("\n");
        }
        let a = render_accessor(f);
        accessors.append(a.as_str());
        i += 1;
        proof {
            assert(holders@ =~= holders_upto(fields@, i as int));
            assert(accessors@ =~= accessors_upto(fields@, i as int));
        }
    }
    (holders, accessors)
}

/// Render the resolved output type of a field.
pub fn render_field_output(f: &Field) -> (r: String)
    requires
        field_wf(*f),
    ensures
        r@ == resolve_spec(f.type_ref),
{
    resolve(&f.type_ref)
}

} // verus!

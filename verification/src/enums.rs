//! The enum handler: one enumeration type per schema enum, one variant per
//! declared value in source order, each carrying its description as a doc
//! comment.

use vstd::prelude::*;
use vstd::string::*;

use crate::fragment::{Fragment, GenError};
use crate::model::{EnumValueDef, FullType};
use crate::naming::{
    render_doc_spec, member_doc_prefix, render_doc_with, type_identifier_spec, type_identifier,
};
use crate::object::{type_doc_spec, render_type_doc};

verus! {

/// One enum variant line: its description as an indented doc comment, then
/// the variant under its type identifier.
pub open spec fn variant_line_spec(v: EnumValueDef) -> Seq<char> {
    (match v.description {
        Some(d) => render_doc_spec(d@, member_doc_prefix()),
        None => Seq::empty(),
    }) + "    "@ + type_identifier_spec(v.name@) + ",\n"@
}

/// The variant lines of the first `n` declared values, in source order.
pub open spec fn variant_lines_upto(vs: Seq<EnumValueDef>, n: int) -> Seq<char>
    decreases n,
{
    if n <= 0 {
        Seq::empty()
    } else {
        variant_lines_upto(vs, n - 1) + variant_line_spec(vs[n - 1])
    }
}

/// The body of an enum fragment: one enumeration with one variant per
/// declared value, preserving source order.
pub open spec fn enum_body_spec(t: FullType) -> Seq<char> {
    type_doc_spec(t) + "pub enum "@ + type_identifier_spec(t.name->Some_0@) + " {\n"@
        + variant_lines_upto(t.enum_values@, t.enum_values@.len() as int) + "}\n"@
}

/// Render one enum type as a fragment.
pub fn render_enum(t: &FullType) -> (r: Result<Fragment, GenError>)
    ensures
        r is Ok <==> t.name is Some,
        t.name is Some ==> r->Ok_0.body@ == enum_body_spec(*t) && r->Ok_0.imports.deep_view()
            == Seq::<Seq<char>>::empty(),
        t.name is None ==> (r matches Err(e) && e is MissingName),
{
    let name = match &t.name {
        Some(n) => n,
        None => {
            return Err(GenError::MissingName);
        },
    };
    let mut body = render_type_doc(t);
    body.append("pub enum ");
    let ident = type_identifier(name.as_str());
    body.append(ident.as_str());
    body.append(" {\n");
    let mut i: usize = 0;
    while i < t.enum_values.len()
        invariant
            i <= t.enum_values@.len(),
            body@ == type_doc_spec(*t) + "pub enum "@ + type_identifier_spec(t.name->Some_0@)
                + " {\n"@ + variant_lines_upto(t.enum_values@, i as int),
            t.name == Some(*name),
        decreases t.enum_values@.len() - i,
    {
        let v = &t.enum_values[i];
        match &v.description {
            Some(d) => {
                let doc = render_doc_with(d.as_str(), "    /// ");
                body.append(doc.as_str());
            },
            None => {},
        }
        body.append("    ");
        let vi = type_identifier(v.name.as_str());
        body.append(vi.as_str());
        body.append(",\n");
        i += 1;
        proof {
            assert(body@ =~= type_doc_spec(*t) + "pub enum "@ + type_identifier_spec(
                t.name->Some_0@,
            ) + " {\n"@ + variant_lines_upto(t.enum_values@, i as int));
        }
    }
    body.append("}\n");
    let imports: Vec<String> = Vec::new();
    proof {
        assert(body@ =~= enum_body_spec(*t));
        assert(imports.deep_view() =~~= Seq::<Seq<char>>::empty());
    }
    Ok(Fragment { imports, body })
}

} // verus!

//! The object-type handler: renders one schema object type as a struct
//! carrying the connection, process and selection handles, together with its
//! argument-holder declarations and one accessor operation per field.

use vstd::prelude::*;
use vstd::string::*;

use crate::fields::{render_fields, holders_upto, accessors_upto};
use crate::fragment::{Fragment, GenError};
use crate::model::{FullType, TypeKind, full_type_wf};
use crate::naming::{render_doc_spec, doc_prefix, render_doc, type_identifier_spec, type_identifier};

verus! {

/// The type's description as a doc comment, or nothing where it has none.
pub open spec fn type_doc_spec(t: FullType) -> Seq<char> {
    match t.description {
        Some(d) => render_doc_spec(d@, doc_prefix()),
        None => Seq::empty(),
    }
}

/// The import lines an object declaration requires, in sorted order.
pub open spec fn object_imports_spec() -> Seq<Seq<char>> {
    seq![
        "use crate::querybuilder::Selection;"@,
        "use dagger_core::connect_params::ConnectParams;"@,
        "use std::process::Child;"@,
        "use std::sync::Arc;"@,
    ]
}

/// The body of an object fragment: the argument holders of its fields, then
/// the struct with the three runtime handles, then one impl block with the
/// field accessors, separated by one blank line each.
pub open spec fn object_body_spec(t: FullType) -> Seq<char> {
    holders_upto(t.fields@, t.fields@.len() as int) + type_doc_spec(t) + "pub struct "@
        + type_identifier_spec(t.name->Some_0@) + " {\n"@ + "    pub conn: ConnectParams,\n"@
        + "    pub proc: Arc<Child>,\n"@ + "    pub selection: Selection,\n"@ + "}\n"@ + "\n"@
        + "impl "@ + type_identifier_spec(t.name->Some_0@) + " {\n"@ + accessors_upto(
        t.fields@,
        t.fields@.len() as int,
    ) + "}\n"@
}

/// Render the type's description as a doc comment.
pub(crate) fn render_type_doc(t: &FullType) -> (r: String)
    ensures
        r@ == type_doc_spec(*t),
{
    match &t.description {
        Some(d) => render_doc(d.as_str()),
        None => String::new(),
    }
}

/// Build the import list an object declaration requires.
pub(crate) fn object_imports() -> (r: Vec<String>)
    ensures
        r.deep_view() == object_imports_spec(),
{
    let mut imports: Vec<String> = Vec::new();
    imports.push(String::from_str("use crate::querybuilder::Selection;"));
    imports.push(String::from_str("use dagger_core::connect_params::ConnectParams;"));
    imports.push(String::from_str("use std::process::Child;"));
    imports.push(String::from_str("use std::sync::Arc;"));
    proof {
        assert(imports.deep_view() =~~= object_imports_spec());
    }
    imports
}

/// Render one object type as a fragment.
pub fn render_object(t: &FullType) -> (r: Result<Fragment, GenError>)
    requires
        full_type_wf(*t),
    ensures
        r is Ok <==> t.name is Some,
        t.name is Some ==> r->Ok_0.body@ == object_body_spec(*t) && r->Ok_0.imports.deep_view()
            == object_imports_spec(),
        t.name is None ==> (r matches Err(e) && e is MissingName),
{
    let name = match &t.name {
        Some(n) => n,
        None => {
            return Err(GenError::MissingName);
        },
    };
    let ident = type_identifier(name.as_str());
    let (holders, accessors) = render_fields(&t.fields);
    let mut body = holders;
    let doc = render_type_doc(t);
    body.append(doc.as_str());
    body.append("pub struct ");
    body.append(ident.as_str());
    body.append(" {\n");
    body.append("    pub conn: ConnectParams,\n");
    body.append("    pub proc: Arc<Child>,\n");
    body.append("    pub selection: Selection,\n");
    body.append("}\n");
    body.append("\n");
    body.append("impl ");
    body.append(ident.as_str());
    body.append(" {\n");
    body.append(accessors.as_str());
    body.append("}\n");
    proof {
        assert(body@ =~= object_body_spec(*t));
    }
    Ok(Fragment { imports: object_imports(), body })
}

/// The handler for object types: selected by its predicate, it renders one
/// schema type through `render_object`.
pub struct Object;

impl Object {
    /// Whether this handler is the one for the given type.
    pub fn predicate(&self, t: &FullType) -> (r: bool)
        ensures
            r == (t.kind is Object),
    {
        matches!(t.kind, TypeKind::Object)
    }

    /// Render one object type as a fragment.
    pub fn render(&self, t: &FullType) -> (r: Result<Fragment, GenError>)
        requires
            full_type_wf(*t),
        ensures
            r is Ok <==> t.name is Some,
            t.name is Some ==> r->Ok_0.body@ == object_body_spec(*t) && r->Ok_0.imports.deep_view()
                == object_imports_spec(),
            t.name is None ==> (r matches Err(e) && e is MissingName),
    {
        render_object(t)
    }
}

} // verus!

//! The input-object handler: a plain data struct with one member per input
//! field and no accessor operations — a pure argument payload that never
//! holds a selection.

use vstd::prelude::*;
use vstd::string::*;

use crate::fields::member_lines_upto;
use crate::fragment::{Fragment, GenError};
use crate::model::{FullType, full_type_wf};
use crate::naming::{type_identifier_spec, type_identifier};
use crate::object::{type_doc_spec, render_type_doc};

verus! {

/// The body of an input-object fragment: one plain struct with one member
/// per input field, in declared order, typed by the resolver.
pub open spec fn input_object_body_spec(t: FullType) -> Seq<char> {
    type_doc_spec(t) + "pub struct "@ + type_identifier_spec(t.name->Some_0@) + " {\n"@
        + member_lines_upto(t.input_fields@, t.input_fields@.len() as int) + "}\n"@
}

/// Render one input-object type as a fragment.
pub fn render_input_object(t: &FullType) -> (r: Result<Fragment, GenError>)
    requires
        full_type_wf(*t),
    ensures
        r is Ok <==> t.name is Some,
        t.name is Some ==> r->Ok_0.body@ == input_object_body_spec(*t)
            && r->Ok_0.imports.deep_view() == Seq::<Seq<char>>::empty(),
        t.name is None ==> (r matches Err(e) && e is MissingName),
{
    let name = match &t.name {
        Some(n) => n,
        None => {
            return Err(GenError::MissingName);
        },
    };
    let mut body = render_type_doc(t);
    body.append("pub struct ");
    let ident = type_identifier(name.as_str());
    body.append(ident.as_str());
    body.append(" {\n");
    let members = crate::fields::render_members(&t.input_fields);
    body.append(members.as_str());
    body.append("}\n");
    let imports: Vec<String> = Vec::new();
    proof {
        assert(body@ =~= input_object_body_spec(*t));
        assert(imports.deep_view() =~~= Seq::<Seq<char>>::empty());
    }
    Ok(Fragment { imports, body })
}

} // verus!

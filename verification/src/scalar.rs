//! The scalar handler: a custom scalar (one with no built-in mapping) is
//! declared as a newtype wrapping a string; a built-in scalar needs no
//! declaration and contributes nothing.

use vstd::prelude::*;
use vstd::string::*;

use crate::fragment::{Fragment, GenError};
use crate::model::FullType;
use crate::naming::{type_identifier_spec, type_identifier};
use crate::object::{type_doc_spec, render_type_doc};
use crate::typeref::builtin_scalar;

verus! {

/// The body of a scalar fragment: nothing for a built-in scalar, one
/// string-wrapping newtype declaration for a custom one, named exactly as
/// the resolver names references to it.
pub open spec fn scalar_body_spec(t: FullType) -> Seq<char> {
    if builtin_scalar(t.name->Some_0@) is Some {
        Seq::empty()
    } else {
        type_doc_spec(t) + "pub struct "@ + type_identifier_spec(t.name->Some_0@) + "(String);\n"@
    }
}

/// Render one scalar type as a fragment.
pub fn render_scalar(t: &FullType) -> (r: Result<Fragment, GenError>)
    ensures
        r is Ok <==> t.name is Some,
        t.name is Some ==> r->Ok_0.body@ == scalar_body_spec(*t) && r->Ok_0.imports.deep_view()
            == Seq::<Seq<char>>::empty(),
        t.name is None ==> (r matches Err(e) && e is MissingName),
{
    let name = match &t.name {
        Some(n) => n,
        None => {
            return Err(GenError::MissingName);
        },
    };
    let builtin = *name == String::from_str("String") || *name == String::from_str("Int") || *name
        == String::from_str("Float") || *name == String::from_str("Boolean");
    let mut body = String::new();
    if !builtin {
        let doc = render_type_doc(t);
        body.append(doc.as_str());
        body.append("pub struct ");
        let ident = type_identifier(name.as_str());
        body.append(ident.as_str());
        body.append("(String);\n");
    }
    let imports: Vec<String> = Vec::new();
    proof {
        assert(body@ =~= scalar_body_spec(*t));
        assert(imports.deep_view() =~~= Seq::<Seq<char>>::empty());
    }
    Ok(Fragment { imports, body })
}

} // verus!

//! The type reference resolver: maps a schema type reference to a target
//! type expression, collapsing nullability and list wrapping and telling
//! built-in scalars from custom ones.

use vstd::prelude::*;
use vstd::string::*;

use crate::model::{TypeKind, TypeRef, type_ref_wf};
use crate::naming::type_identifier_spec;
use crate::naming::type_identifier;

verus! {

/// The built-in scalar mapping table. Any scalar name absent from it is a
/// custom scalar and resolves to a generated newtype wrapping a string; in
/// particular `ID` resolves to a string-backed identifier newtype.
pub open spec fn builtin_scalar(name: Seq<char>) -> Option<Seq<char>> {
    if name == "String"@ {
        Some("String"@)
    } else if name == "Int"@ {
        Some("i32"@)
    } else if name == "Float"@ {
        Some("f64"@)
    } else if name == "Boolean"@ {
        Some("bool"@)
    } else {
        None
    }
}

/// The required (non-nullable) form of a type expression: a list becomes a
/// sequence of its resolved element type; a scalar goes through the built-in
/// table, or stands for its generated newtype; any other named kind resolves
/// to its type identifier alone, never to the referenced declaration — which
/// is what keeps mutually and self-referential schemas safe.
pub open spec fn resolve_base_spec(t: TypeRef) -> Seq<char>
    decreases t, 0int,
{
    match t.kind {
        TypeKind::NonNull => if t.of_type is Some {
            resolve_base_spec(*t.of_type->Some_0)
        } else {
            Seq::empty()
        },
        TypeKind::List => if t.of_type is Some {
            "Vec<"@ + resolve_spec(*t.of_type->Some_0) + ">"@
        } else {
            Seq::empty()
        },
        TypeKind::Scalar => if t.name is Some {
            match builtin_scalar(t.name->Some_0@) {
                Some(b) => b,
                None => type_identifier_spec(t.name->Some_0@),
            }
        } else {
            Seq::empty()
        },
        _ => if t.name is Some {
            type_identifier_spec(t.name->Some_0@)
        } else {
            Seq::empty()
        },
    }
}

/// The resolved target type expression of a reference: a reference wrapped in
/// `NonNull` yields the bare required form of its inner reference; any other
/// reference is nullable by default and is wrapped in an optional container.
pub open spec fn resolve_spec(t: TypeRef) -> Seq<char>
    decreases t, 1int,
{
    if t.kind is NonNull {
        resolve_base_spec(t)
    } else {
        "Option<"@ + resolve_base_spec(t) + ">"@
    }
}

/// An argument or output is optional exactly when its reference is not
/// wrapped in `NonNull`.
pub open spec fn type_ref_is_optional_spec(t: TypeRef) -> bool {
    !(t.kind is NonNull)
}

/// Whether a reference stands for an optional (nullable) value.
pub fn type_ref_is_optional(t: &TypeRef) -> (r: bool)
    ensures
        r == type_ref_is_optional_spec(*t),
{
    !(matches!(t.kind, TypeKind::NonNull))
}

/// The required form of a reference, as target source text.
pub fn resolve_required(t: &TypeRef) -> (r: String)
    requires
        type_ref_wf(*t),
    ensures
        r@ == resolve_base_spec(*t),
    decreases *t, 0int,
{
    match t.kind {
        TypeKind::NonNull => {
            match &t.of_type {
                Some(inner) => resolve_required(inner),
                None => {
                    proof {
                        assert(false);
                    }
                    String::new()
                },
            }
        },
        TypeKind::List => {
            match &t.of_type {
                Some(inner) => {
                    let mut out = String::from_str("Vec<");
                    let e = resolve(inner);
                    out.append(e.as_str());
                    out.append(">");
                    proof {
                        assert(out@ =~= resolve_base_spec(*t));
                    }
                    out
                },
                None => {
                    proof {
                        assert(false);
                    }
                    String::new()
                },
            }
        },
        TypeKind::Scalar => {
            match &t.name {
                Some(name) => {
                    if *name == String::from_str("String") {
                        String::from_str("String")
                    } else if *name == String::from_str("Int") {
                        String::from_str("i32")
                    } else if *name == String::from_str("Float") {
                        String::from_str("f64")
                    } else if *name == String::from_str("Boolean") {
                        String::from_str("bool")
                    } else {
                        type_identifier(name.as_str())
                    }
                },
                None => {
                    proof {
                        assert(false);
                    }
                    String::new()
                },
            }
        },
        _ => {
            match &t.name {
                Some(name) => type_identifier(name.as_str()),
                None => {
                    proof {
                        assert(false);
                    }
                    String::new()
                },
            }
        },
    }
}

/// Resolve a reference to its target type expression, nullable by default.
pub fn resolve(t: &TypeRef) -> (r: String)
    requires
        type_ref_wf(*t),
    ensures
        r@ == resolve_spec(*t),
    decreases *t, 1int,
{
    if matches!(t.kind, TypeKind::NonNull) {
        resolve_required(t)
    } else {
        let mut out = String::from_str("Option<");
        let b = resolve_required(t);
        out.append(b.as_str());
        out.append(">");
        proof {
            assert(out@ =~= resolve_spec(*t));
        }
        out
    }
}

} // verus!

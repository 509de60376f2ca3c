//! The general properties the generator keeps, stated and proved over the
//! same spec functions its contracts use.

use vstd::prelude::*;

use crate::fragment::GenError;
use crate::generator::{
    generate_spec, generate_result_view, first_shape_error_upto, collision_upto, shape_error_at,
    collision_with_prior, pair_collides, relevant_spec, ident_of, excluded_spec,
};
use crate::model::{FullType, Schema, TypeRef, type_ref_wf};
use crate::naming::type_identifier_spec;
use crate::object::type_doc_spec;
use crate::scalar::scalar_body_spec;
use crate::typeref::{builtin_scalar, resolve_base_spec, resolve_spec};

verus! {

/// Generation is deterministic: two runs on one schema return the same
/// outcome, byte for byte on success and error for error on failure.
pub proof fn lemma_generate_deterministic(
    s: Schema,
    r1: Result<String, GenError>,
    r2: Result<String, GenError>,
)
    requires
        generate_result_view(r1) == generate_spec(s),
        generate_result_view(r2) == generate_spec(s),
    ensures
        generate_result_view(r1) == generate_result_view(r2),
{
}

/// The nullable-by-default rule: a reference wrapped in `NonNull` resolves
/// to the bare required form of its inner reference; any other reference is
/// wrapped in an optional container; and a list is a sequence of its
/// resolved element type, itself nullable by default again.
pub proof fn lemma_nullable_by_default(t: TypeRef)
    requires
        type_ref_wf(t),
    ensures
        t.kind is NonNull ==> resolve_spec(t) == resolve_base_spec(*t.of_type->Some_0),
        !(t.kind is NonNull) ==> resolve_spec(t) == "Option<"@ + resolve_base_spec(t) + ">"@,
        t.kind is List ==> resolve_base_spec(t) == "Vec<"@ + resolve_spec(*t.of_type->Some_0)
            + ">"@,
{
}

/// A custom scalar declaration and every reference to its name resolve to
/// one and the same target identifier: the declared newtype's name.
pub proof fn lemma_custom_scalar_identifier(t: FullType, u: TypeRef)
    requires
        t.kind is Scalar,
        t.name is Some,
        builtin_scalar(t.name->Some_0@) is None,
        u.kind is Scalar,
        u.name is Some,
        u.name->Some_0@ == t.name->Some_0@,
    ensures
        scalar_body_spec(t) == type_doc_spec(t) + "pub struct "@ + type_identifier_spec(
            t.name->Some_0@,
        ) + "(String);\n"@,
        resolve_base_spec(u) == type_identifier_spec(t.name->Some_0@),
{
}

/// Two schemas agree kind for kind and name for name on every type
/// declaration — whatever their fields reference.
pub open spec fn same_skeleton(a: Seq<FullType>, b: Seq<FullType>) -> bool {
    &&& a.len() == b.len()
    &&& forall|i: int|
        0 <= i < a.len() ==> (#[trigger] a[i]).kind == b[i].kind && (a[i].name is Some <==> b[i].name
            is Some) && (a[i].name is Some ==> a[i].name->Some_0@ == b[i].name->Some_0@)
}

proof fn lemma_shape_error_skeleton(a: Seq<FullType>, b: Seq<FullType>, n: int)
    requires
        same_skeleton(a, b),
        0 <= n <= a.len(),
    ensures
        first_shape_error_upto(a, n) == first_shape_error_upto(b, n),
    decreases n,
{
    if n > 0 {
        lemma_shape_error_skeleton(a, b, n - 1);
        assert(shape_error_at(a[n - 1]) == shape_error_at(b[n - 1]));
    }
}

proof fn lemma_collision_with_prior_skeleton(a: Seq<FullType>, b: Seq<FullType>, j: int, m: int)
    requires
        same_skeleton(a, b),
        0 <= j < a.len(),
        0 <= m <= j,
    ensures
        collision_with_prior(a, j, m) == collision_with_prior(b, j, m),
    decreases m,
{
    if m > 0 {
        lemma_collision_with_prior_skeleton(a, b, j, m - 1);
        assert(relevant_spec(a[m - 1]) == relevant_spec(b[m - 1]));
        assert(relevant_spec(a[j]) == relevant_spec(b[j]));
        if relevant_spec(a[m - 1]) && relevant_spec(a[j]) {
            assert(ident_of(a[m - 1]) == ident_of(b[m - 1]));
            assert(ident_of(a[j]) == ident_of(b[j]));
        }
        assert(pair_collides(a, m - 1, j) == pair_collides(b, m - 1, j));
    }
}

proof fn lemma_collision_skeleton(a: Seq<FullType>, b: Seq<FullType>, n: int)
    requires
        same_skeleton(a, b),
        0 <= n <= a.len(),
    ensures
        collision_upto(a, n) == collision_upto(b, n),
    decreases n,
{
    if n > 0 {
        lemma_collision_skeleton(a, b, n - 1);
        lemma_collision_with_prior_skeleton(a, b, n - 1, n - 1);
    }
}

/// Cyclic safety: whether a generation run succeeds depends only on the
/// kinds and names of the type declarations, never on what their fields
/// reference — so mutually and self-referential object types generate
/// exactly as acyclic ones do.
pub proof fn lemma_success_ignores_references(s1: Schema, s2: Schema)
    requires
        same_skeleton(s1.types@, s2.types@),
    ensures
        generate_spec(s1) is Ok <==> generate_spec(s2) is Ok,
        generate_spec(s1) is Err ==> generate_spec(s1)->Err_0 == generate_spec(s2)->Err_0,
{
    lemma_shape_error_skeleton(s1.types@, s2.types@, s1.types@.len() as int);
    lemma_collision_skeleton(s1.types@, s2.types@, s1.types@.len() as int);
}

/// An excluded, introspection-internal type contributes nothing to the
/// module body.
pub proof fn lemma_excluded_contributes_nothing(t: FullType)
    requires
        excluded_spec(t),
    ensures
        crate::generator::block_of(t) == Seq::<char>::empty(),
{
}

} // verus!

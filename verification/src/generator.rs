//! Handler dispatch and final assembly: walks the schema in declaration
//! order, skips introspection-internal types, rejects unsupported shapes and
//! colliding names, renders each remaining type through the handler for its
//! kind, and concatenates the fragments into one module with the collected
//! import lines deduplicated and sorted at its top.

use vstd::prelude::*;
use vstd::string::*;

use crate::enums::{enum_body_spec, render_enum};
use crate::fragment::{Fragment, GenError, GenErrorView, gen_error_view};
use crate::input_object::{input_object_body_spec, render_input_object};
use crate::model::{FullType, Schema, TypeKind, schema_wf, full_type_wf};
use crate::naming::{type_identifier_spec, type_identifier};
use crate::object::{Object, object_body_spec, object_imports_spec};
use crate::scalar::{render_scalar, scalar_body_spec};
use crate::strorder::{merge_sorted_spec, merge_sorted};

verus! {

/// A name under the schema's reserved double-underscore prefix belongs to
/// the introspection machinery and is never rendered.
pub open spec fn is_reserved(n: Seq<char>) -> bool {
    n.len() >= 2 && n[0] == '_' && n[1] == '_'
}

/// A type the generation pass leaves out: one named under the reserved
/// introspection prefix.
pub open spec fn excluded_spec(t: FullType) -> bool {
    t.name is Some && is_reserved(t.name->Some_0@)
}

/// The closed set of kinds the generator renders.
pub open spec fn supported_kind(k: TypeKind) -> bool {
    k is Object || k is InputObject || k is Enum || k is Scalar
}

/// The shape error one type declaration reports, if any: a missing name is
/// fatal; a non-excluded type of an unsupported kind is fatal too.
pub open spec fn shape_error_at(t: FullType) -> Option<GenErrorView> {
    if t.name is None {
        Some(GenErrorView::MissingName)
    } else if is_reserved(t.name->Some_0@) {
        None
    } else if supported_kind(t.kind) {
        None
    } else {
        Some(GenErrorView::UnsupportedKind { name: t.name->Some_0@ })
    }
}

/// The first shape error among the first `n` type declarations.
pub open spec fn first_shape_error_upto(ts: Seq<FullType>, n: int) -> Option<GenErrorView>
    decreases n,
{
    if n <= 0 {
        None
    } else {
        match first_shape_error_upto(ts, n - 1) {
            Some(e) => Some(e),
            None => shape_error_at(ts[n - 1]),
        }
    }
}

/// A type declaration that takes part in the rendered namespace.
pub open spec fn relevant_spec(t: FullType) -> bool {
    t.name is Some && !is_reserved(t.name->Some_0@)
}

/// The declared identifier of a relevant type.
pub open spec fn ident_of(t: FullType) -> Seq<char> {
    type_identifier_spec(t.name->Some_0@)
}

/// Two type declarations collide when both are relevant and their names
/// normalize to the same target identifier.
pub open spec fn pair_collides(ts: Seq<FullType>, i: int, j: int) -> bool {
    relevant_spec(ts[i]) && relevant_spec(ts[j]) && ident_of(ts[i]) == ident_of(ts[j])
}

/// The collision of type `j` with the first among its first `m` predecessors
/// whose identifier it repeats, reported with both offending names.
pub open spec fn collision_with_prior(ts: Seq<FullType>, j: int, m: int) -> Option<GenErrorView>
    decreases m,
{
    if m <= 0 {
        None
    } else {
        match collision_with_prior(ts, j, m - 1) {
            Some(e) => Some(e),
            None => if pair_collides(ts, m - 1, j) {
                Some(
                    GenErrorView::NameCollision {
                        first: ts[m - 1].name->Some_0@,
                        second: ts[j].name->Some_0@,
                    },
                )
            } else {
                None
            },
        }
    }
}

/// The first name collision among the first `n` type declarations.
pub open spec fn collision_upto(ts: Seq<FullType>, n: int) -> Option<GenErrorView>
    decreases n,
{
    if n <= 0 {
        None
    } else {
        match collision_upto(ts, n - 1) {
            Some(e) => Some(e),
            None => collision_with_prior(ts, n - 1, n - 1),
        }
    }
}

/// The body a type declaration contributes to the module: nothing for an
/// excluded type, the body of its kind's handler otherwise.
pub open spec fn block_of(t: FullType) -> Seq<char> {
    if excluded_spec(t) {
        Seq::empty()
    } else {
        match t.kind {
            TypeKind::Object => object_body_spec(t),
            TypeKind::InputObject => input_object_body_spec(t),
            TypeKind::Enum => enum_body_spec(t),
            TypeKind::Scalar => scalar_body_spec(t),
            _ => Seq::empty(),
        }
    }
}

/// The declarations of the first `n` types, in schema order, the non-empty
/// contributions separated by exactly one blank line.
pub open spec fn decls_upto(ts: Seq<FullType>, n: int) -> Seq<char>
    decreases n,
{
    if n <= 0 {
        Seq::empty()
    } else {
        let prev = decls_upto(ts, n - 1);
        let b = block_of(ts[n - 1]);
        if b.len() == 0 {
            prev
        } else if prev.len() == 0 {
            b
        } else {
            prev + "\n"@ + b
        }
    }
}

/// The import lines the first `n` types require, deduplicated and sorted.
pub open spec fn imports_upto(ts: Seq<FullType>, n: int) -> Seq<Seq<char>>
    decreases n,
{
    if n <= 0 {
        Seq::<Seq<char>>::empty()
    } else {
        let prev = imports_upto(ts, n - 1);
        if !excluded_spec(ts[n - 1]) && ts[n - 1].kind is Object {
            merge_sorted_spec(prev, object_imports_spec(), object_imports_spec().len() as int)
        } else {
            prev
        }
    }
}

/// The first `m` import lines as module text, one line each.
pub open spec fn imports_text(l: Seq<Seq<char>>, m: int) -> Seq<char>
    decreases m,
{
    if m <= 0 {
        Seq::empty()
    } else {
        imports_text(l, m - 1) + l[m - 1] + "\n"@
    }
}

/// The whole module text of a schema that passed the shape and collision
/// checks: the import block, one blank line, then the declarations.
pub open spec fn module_text(ts: Seq<FullType>) -> Seq<char> {
    let imp = imports_upto(ts, ts.len() as int);
    let dec = decls_upto(ts, ts.len() as int);
    imports_text(imp, imp.len() as int) + (if imp.len() > 0 && dec.len() > 0 {
        "\n"@
    } else {
        Seq::<char>::empty()
    }) + dec
}

/// What a generation run returns, as a pure function of the schema: the
/// first shape error, else the first name collision, else the module text.
pub open spec fn generate_spec(s: Schema) -> Result<Seq<char>, GenErrorView> {
    match first_shape_error_upto(s.types@, s.types@.len() as int) {
        Some(e) => Err(e),
        None => match collision_upto(s.types@, s.types@.len() as int) {
            Some(e) => Err(e),
            None => Ok(module_text(s.types@)),
        },
    }
}

/// The view of a generation result.
pub open spec fn generate_result_view(r: Result<String, GenError>) -> Result<
    Seq<char>,
    GenErrorView,
> {
    match r {
        Ok(text) => Ok(text@),
        Err(e) => Err(gen_error_view(e)),
    }
}

/// No shape error among the first `n` types means no shape error at any of
/// them.
proof fn lemma_no_shape_error(ts: Seq<FullType>, n: int, i: int)
    requires
        first_shape_error_upto(ts, n) is None,
        0 <= i < n,
    ensures
        shape_error_at(ts[i]) is None,
    decreases n,
{
    if i < n - 1 {
        lemma_no_shape_error(ts, n - 1, i);
    }
}

/// Whether a name lies under the reserved introspection prefix.
fn is_reserved_name(n: &str) -> (r: bool)
    ensures
        r == is_reserved(n@),
{
    let len = n.unicode_len();
    if len < 2 {
        return false;
    }
    let c0 = n.get_char(0);
    let c1 = n.get_char(1);
    c0 == '_' && c1 == '_'
}

/// Check every type declaration's shape, reporting the first violation.
fn check_shapes(types: &Vec<FullType>) -> (r: Result<(), GenError>)
    ensures
        r is Ok <==> first_shape_error_upto(types@, types@.len() as int) is None,
        r matches Err(e) ==> Some(gen_error_view(e)) == first_shape_error_upto(
            types@,
            types@.len() as int,
        ),
{
    let mut i: usize = 0;
    while i < types.len()
        invariant
            i <= types@.len(),
            first_shape_error_upto(types@, i as int) is None,
        decreases types@.len() - i,
    {
        let t = &types[i];
        let name = match &t.name {
            Some(n) => n,
            None => {
                proof {
                    assert(first_shape_error_upto(types@, i as int + 1) == Some(
                        GenErrorView::MissingName,
                    ));
                    lemma_shape_error_stable(types@, i as int + 1, types@.len() as int);
                }
                return Err(GenError::MissingName);
            },
        };
        if !is_reserved_name(name.as_str()) {
            let ok = matches!(
                t.kind,
                TypeKind::Object | TypeKind::InputObject | TypeKind::Enum | TypeKind::Scalar
            );
            if !ok {
                proof {
                    assert(first_shape_error_upto(types@, i as int + 1) == Some(
                        GenErrorView::UnsupportedKind { name: name@ },
                    ));
                    lemma_shape_error_stable(types@, i as int + 1, types@.len() as int);
                }
                return Err(GenError::UnsupportedKind { name: name.clone() });
            }
        }
        i += 1;
    }
    Ok(())
}

/// A shape error found within a prefix is the error of every longer prefix.
proof fn lemma_shape_error_stable(ts: Seq<FullType>, n: int, m: int)
    requires
        0 <= n <= m,
        first_shape_error_upto(ts, n) is Some,
    ensures
        first_shape_error_upto(ts, m) == first_shape_error_upto(ts, n),
    decreases m,
{
    if m > n {
        lemma_shape_error_stable(ts, n, m - 1);
    }
}

/// A collision found within a prefix is the collision of every longer prefix.
proof fn lemma_collision_stable(ts: Seq<FullType>, n: int, m: int)
    requires
        0 <= n <= m,
        collision_upto(ts, n) is Some,
    ensures
        collision_upto(ts, m) == collision_upto(ts, n),
    decreases m,
{
    if m > n {
        lemma_collision_stable(ts, n, m - 1);
    }
}

/// Check the rendered namespace for name collisions, reporting the first
/// colliding pair with both offending names.
fn check_collisions(types: &Vec<FullType>) -> (r: Result<(), GenError>)
    ensures
        r is Ok <==> collision_upto(types@, types@.len() as int) is None,
        r matches Err(e) ==> Some(gen_error_view(e)) == collision_upto(
            types@,
            types@.len() as int,
        ),
{
    let mut j: usize = 0;
    while j < types.len()
        invariant
            j <= types@.len(),
            collision_upto(types@, j as int) is None,
        decreases types@.len() - j,
    {
        let tj = &types[j];
        let relevant_j = match &tj.name {
            Some(n) => !is_reserved_name(n.as_str()),
            None => false,
        };
        if relevant_j {
            let name_j = match &tj.name {
                Some(n) => n,
                None => {
                    proof {
                        assert(false);
                    }
                    return Ok(());
                },
            };
            let ident_j = type_identifier(name_j.as_str());
            let mut i: usize = 0;
            while i < j
                invariant
                    i <= j < types@.len(),
                    collision_upto(types@, j as int) is None,
                    collision_with_prior(types@, j as int, i as int) is None,
                    relevant_spec(types@[j as int]),
                    tj == types@[j as int],
                    name_j == types@[j as int].name->Some_0,
                    ident_j@ == ident_of(types@[j as int]),
                decreases j - i,
            {
                let ti = &types[i];
                let relevant_i = match &ti.name {
                    Some(n) => !is_reserved_name(n.as_str()),
                    None => false,
                };
                if relevant_i {
                    let name_i = match &ti.name {
                        Some(n) => n,
                        None => {
                            proof {
                                assert(false);
                            }
                            return Ok(());
                        },
                    };
                    let ident_i = type_identifier(name_i.as_str());
                    if ident_i == ident_j {
                        proof {
                            assert(pair_collides(types@, i as int, j as int));
                            assert(collision_with_prior(types@, j as int, i as int + 1) == Some(
                                GenErrorView::NameCollision {
                                    first: types@[i as int].name->Some_0@,
                                    second: types@[j as int].name->Some_0@,
                                },
                            ));
                            lemma_collision_with_prior_stable(
                                types@,
                                j as int,
                                i as int + 1,
                                j as int,
                            );
                            assert(collision_upto(types@, j as int + 1) == Some(
                                GenErrorView::NameCollision {
                                    first: types@[i as int].name->Some_0@,
                                    second: types@[j as int].name->Some_0@,
                                },
                            ));
                            lemma_collision_stable(types@, j as int + 1, types@.len() as int);
                        }
                        return Err(
                            GenError::NameCollision {
                                first: name_i.clone(),
                                second: name_j.clone(),
                            },
                        );
                    }
                }
                i += 1;
            }
            proof {
                assert(collision_upto(types@, j as int + 1) is None);
            }
        } else {
            proof {
                lemma_collision_with_prior_irrelevant(types@, j as int, j as int);
                assert(collision_upto(types@, j as int + 1) is None);
            }
        }
        j += 1;
    }
    Ok(())
}

/// A collision with an earlier predecessor is the collision with any longer
/// prefix of predecessors.
proof fn lemma_collision_with_prior_stable(ts: Seq<FullType>, j: int, n: int, m: int)
    requires
        0 <= n <= m,
        collision_with_prior(ts, j, n) is Some,
    ensures
        collision_with_prior(ts, j, m) == collision_with_prior(ts, j, n),
    decreases m,
{
    if m > n {
        lemma_collision_with_prior_stable(ts, j, n, m - 1);
    }
}

/// An irrelevant type collides with none of its predecessors.
proof fn lemma_collision_with_prior_irrelevant(ts: Seq<FullType>, j: int, m: int)
    requires
        0 <= m,
        0 <= j < ts.len(),
        !relevant_spec(ts[j]),
    ensures
        collision_with_prior(ts, j, m) is None,
    decreases m,
{
    if m > 0 {
        lemma_collision_with_prior_irrelevant(ts, j, m - 1);
    }
}

/// Generate the whole module for a schema: every non-excluded type rendered
/// by the handler for its kind, in schema order, under the deduplicated and
/// sorted import lines; or the first error of the run, all-or-nothing.
pub fn generate(schema: &Schema) -> (r: Result<String, GenError>)
    requires
        schema_wf(*schema),
    ensures
        generate_result_view(r) == generate_spec(*schema),
        r is Ok <==> (first_shape_error_upto(schema.types@, schema.types@.len() as int) is None
            && collision_upto(schema.types@, schema.types@.len() as int) is None),
        r is Ok ==> r->Ok_0@ == module_text(schema.types@),
{
    let types = &schema.types;
    match check_shapes(types) {
        Ok(_) => {},
        Err(e) => {
            return Err(e);
        },
    }
    match check_collisions(types) {
        Ok(_) => {},
        Err(e) => {
            return Err(e);
        },
    }
    let object_handler = Object {};
    let mut decls = String::new();
    let mut imports: Vec<String> = Vec::new();
    let mut i: usize = 0;
    while i < types.len()
        invariant
            i <= types@.len(),
            schema_wf(*schema),
            types == schema.types,
            first_shape_error_upto(types@, types@.len() as int) is None,
            decls@ == decls_upto(types@, i as int),
            imports.deep_view() == imports_upto(types@, i as int),
        decreases types@.len() - i,
    {
        let t = &types[i];
        proof {
            lemma_no_shape_error(types@, types@.len() as int, i as int);
        }
        let name = match &t.name {
            Some(n) => n,
            None => {
                proof {
                    assert(false);
                }
                return Err(GenError::MissingName);
            },
        };
        if !is_reserved_name(name.as_str()) {
            let frag_result = if object_handler.predicate(t) {
                object_handler.render(t)
            } else if matches!(t.kind, TypeKind::InputObject) {
                render_input_object(t)
            } else if matches!(t.kind, TypeKind::Enum) {
                render_enum(t)
            } else {
                render_scalar(t)
            };
            let frag = match frag_result {
                Ok(f) => f,
                Err(e) => {
                    proof {
                        assert(false);
                    }
                    return Err(e);
                },
            };
            proof {
                assert(frag.body@ == block_of(types@[i as int]));
            }
            if !frag.body.as_str().is_empty() {
                if !decls.as_str().is_empty() {
                    decls.append("\n");
                }
                decls.append(frag.body.as_str());
            }
            if matches!(t.kind, TypeKind::Object) {
                merge_sorted(&mut imports, &frag.imports);
            }
        }
        i += 1;
        proof {
            assert(decls@ =~= decls_upto(types@, i as int));
            assert(imports.deep_view() =~~= imports_upto(types@, i as int));
        }
    }
    let mut out = String::new();
    let mut k: usize = 0;
    while k < imports.len()
        invariant
            k <= imports@.len(),
            out@ == imports_text(imports.deep_view(), k as int),
        decreases imports@.len() - k,
    {
        proof {
            assert(imports.deep_view()[k as int] == imports@[k as int]@);
        }
        out.append(imports[k].as_str());
        out.append("\n");
        k += 1;
        proof {
            assert(out@ =~= imports_text(imports.deep_view(), k as int));
        }
    }
    if imports.len() > 0 && !decls.as_str().is_empty() {
        out.append("\n");
    }
    out.append(decls.as_str());
    proof {
        assert(out@ =~= module_text(types@));
    }
    Ok(out)
}

} // verus!

//! Typed representation of a GraphQL introspection schema: type references,
//! top-level type declarations, fields, arguments and enum values. Pure data;
//! the schema is read-only input to generation and is never mutated.

use vstd::prelude::*;

verus! {

/// The closed set of GraphQL type kinds an introspection schema can report.
#[derive(Clone, Copy, PartialEq, Eq, Structural, Debug)]
pub enum TypeKind {
    Scalar,
    Object,
    Interface,
    Union,
    Enum,
    InputObject,
    List,
    NonNull,
}

/// A recursive node describing one type usage site: either a named leaf kind,
/// or a `List`/`NonNull` wrapper around exactly one inner reference.
#[derive(Debug)]
pub struct TypeRef {
    pub kind: TypeKind,
    /// Present iff `kind` is a named/leaf kind.
    pub name: Option<String>,
    /// Present iff `kind` is `List` or `NonNull`.
    pub of_type: Option<Box<TypeRef>>,
}

/// A named argument (or input-object member): name, optional description,
/// its type reference, and an opaque optional default-value literal.
#[derive(Debug)]
pub struct InputValue {
    pub name: String,
    pub description: Option<String>,
    pub type_ref: TypeRef,
    pub default_value: Option<String>,
}

/// One field of an object type: its arguments in declared order, its output
/// type, and deprecation metadata (surfaced as documentation only).
#[derive(Debug)]
pub struct Field {
    pub name: String,
    pub description: Option<String>,
    pub args: Vec<InputValue>,
    pub type_ref: TypeRef,
    pub is_deprecated: bool,
    pub deprecation_reason: Option<String>,
}

/// One enum value of an `Enum` type declaration.
#[derive(Debug)]
pub struct EnumValueDef {
    pub name: String,
    pub description: Option<String>,
}

/// A top-level schema type declaration. Exactly one of `fields`,
/// `input_fields` and `enum_values` is meaningful, selected by `kind`.
#[derive(Debug)]
pub struct FullType {
    pub kind: TypeKind,
    /// Mandatory in a well-shaped schema; its absence is a generation error.
    pub name: Option<String>,
    pub description: Option<String>,
    pub fields: Vec<Field>,
    pub input_fields: Vec<InputValue>,
    pub enum_values: Vec<EnumValueDef>,
}

/// The complete type graph, in declaration order, plus the names of the root
/// operation types (only there to tell a consumer which generated type is the
/// entry point; generation itself does not read them).
#[derive(Debug)]
pub struct Schema {
    pub types: Vec<FullType>,
    pub query_type: Option<String>,
    pub mutation_type: Option<String>,
    pub subscription_type: Option<String>,
}

/// A type reference is well-formed when named kinds carry a name and no inner
/// reference, while `List`/`NonNull` carry exactly one inner reference and no
/// name. Nesting is finite by construction, so this recursion terminates.
pub open spec fn type_ref_wf(t: TypeRef) -> bool
    decreases t,
{
    match t.kind {
        TypeKind::List | TypeKind::NonNull => {
            &&& t.name is None
            &&& t.of_type is Some
            &&& type_ref_wf(*t.of_type->Some_0)
        },
        _ => {
            &&& t.name is Some
            &&& t.of_type is None
        },
    }
}

/// Every argument of the field has a well-formed type reference, and so does
/// the field's own output type.
pub open spec fn field_wf(f: Field) -> bool {
    &&& type_ref_wf(f.type_ref)
    &&& forall|i: int| 0 <= i < f.args@.len() ==> type_ref_wf(#[trigger] f.args@[i].type_ref)
}

/// Every member of the type declaration carries a well-formed type reference.
pub open spec fn full_type_wf(t: FullType) -> bool {
    &&& forall|i: int| 0 <= i < t.fields@.len() ==> field_wf(#[trigger] t.fields@[i])
    &&& forall|i: int|
        0 <= i < t.input_fields@.len() ==> type_ref_wf(#[trigger] t.input_fields@[i].type_ref)
}

/// Every type declaration of the schema is well-formed.
pub open spec fn schema_wf(s: Schema) -> bool {
    forall|i: int| 0 <= i < s.types@.len() ==> full_type_wf(#[trigger] s.types@[i])
}

/// Decide whether a type reference is well-formed.
pub fn type_ref_well_formed(t: &TypeRef) -> (r: bool)
    ensures
        r == type_ref_wf(*t),
    decreases *t,
{
    match t.kind {
        TypeKind::List | TypeKind::NonNull => {
            t.name.is_none() && match &t.of_type {
                Some(inner) => type_ref_well_formed(inner),
                None => false,
            }
        },
        _ => t.name.is_some() && t.of_type.is_none(),
    }
}

/// Decide whether a field is well-formed.
pub fn field_well_formed(f: &Field) -> (r: bool)
    ensures
        r == field_wf(*f),
{
    if !type_ref_well_formed(&f.type_ref) {
        return false;
    }
    let mut i: usize = 0;
    while i < f.args.len()
        invariant
            i <= f.args@.len(),
            type_ref_wf(f.type_ref),
            forall|k: int| 0 <= k < i ==> type_ref_wf(#[trigger] f.args@[k].type_ref),
        decreases f.args@.len() - i,
    {
        if !type_ref_well_formed(&f.args[i].type_ref) {
            return false;
        }
        i += 1;
    }
    true
}

/// Decide whether a type declaration is well-formed.
pub fn full_type_well_formed(t: &FullType) -> (r: bool)
    ensures
        r == full_type_wf(*t),
{
    let mut i: usize = 0;
    while i < t.fields.len()
        invariant
            i <= t.fields@.len(),
            forall|k: int| 0 <= k < i ==> field_wf(#[trigger] t.fields@[k]),
        decreases t.fields@.len() - i,
    {
        if !field_well_formed(&t.fields[i]) {
            return false;
        }
        i += 1;
    }
    let mut j: usize = 0;
    while j < t.input_fields.len()
        invariant
            j <= t.input_fields@.len(),
            forall|k: int| 0 <= k < t.fields@.len() ==> field_wf(#[trigger] t.fields@[k]),
            forall|k: int| 0 <= k < j ==> type_ref_wf(#[trigger] t.input_fields@[k].type_ref),
        decreases t.input_fields@.len() - j,
    {
        if !type_ref_well_formed(&t.input_fields[j].type_ref) {
            return false;
        }
        j += 1;
    }
    true
}

/// Decide whether a whole schema is well-formed, so that an unverified
/// caller can establish it before asking for generation.
pub fn schema_well_formed(s: &Schema) -> (r: bool)
    ensures
        r == schema_wf(*s),
{
    let mut i: usize = 0;
    while i < s.types.len()
        invariant
            i <= s.types@.len(),
            forall|k: int| 0 <= k < i ==> full_type_wf(#[trigger] s.types@[k]),
        decreases s.types@.len() - i,
    {
        if !full_type_well_formed(&s.types[i]) {
            return false;
        }
        i += 1;
    }
    true
}

} // verus!

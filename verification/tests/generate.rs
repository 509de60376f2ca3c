use dagger_codegen::fragment::GenError;
use dagger_codegen::generate;
use dagger_codegen::model::{
    Field, FullType, InputValue, Schema, TypeKind, TypeRef, schema_well_formed,
};

fn named_ref(kind: TypeKind, name: &str) -> TypeRef {
    TypeRef { kind, name: Some(name.to_string()), of_type: None }
}

fn wrap(kind: TypeKind, inner: TypeRef) -> TypeRef {
    TypeRef { kind, name: None, of_type: Some(Box::new(inner)) }
}

fn arg(name: &str, ty: TypeRef) -> InputValue {
    InputValue { name: name.to_string(), description: None, type_ref: ty, default_value: None }
}

fn scalar_type(name: &str) -> FullType {
    FullType {
        kind: TypeKind::Scalar,
        name: Some(name.to_string()),
        description: None,
        fields: vec![],
        input_fields: vec![],
        enum_values: vec![],
    }
}

fn plain_type(kind: TypeKind, name: &str) -> FullType {
    FullType {
        kind,
        name: Some(name.to_string()),
        description: None,
        fields: vec![],
        input_fields: vec![],
        enum_values: vec![],
    }
}

fn schema_of(types: Vec<FullType>) -> Schema {
    Schema {
        types,
        query_type: Some("Query".to_string()),
        mutation_type: None,
        subscription_type: None,
    }
}

fn end_to_end_schema() -> Schema {
    let container_field = Field {
        name: "container".to_string(),
        description: None,
        args: vec![
            arg("id", named_ref(TypeKind::Scalar, "ContainerID")),
            arg("platform", named_ref(TypeKind::Scalar, "Platform")),
        ],
        type_ref: wrap(TypeKind::NonNull, named_ref(TypeKind::Object, "Container")),
        is_deprecated: false,
        deprecation_reason: None,
    };
    let id_field = Field {
        name: "id".to_string(),
        description: None,
        args: vec![],
        type_ref: wrap(TypeKind::NonNull, named_ref(TypeKind::Scalar, "CacheID")),
        is_deprecated: false,
        deprecation_reason: None,
    };
    schema_of(vec![
        FullType {
            kind: TypeKind::Object,
            name: Some("Query".to_string()),
            description: None,
            fields: vec![container_field],
            input_fields: vec![],
            enum_values: vec![],
        },
        FullType {
            kind: TypeKind::Object,
            name: Some("Container".to_string()),
            description: None,
            fields: vec![id_field],
            input_fields: vec![],
            enum_values: vec![],
        },
        scalar_type("CacheID"),
        plain_type(TypeKind::Object, "__Type"),
    ])
}

#[test]
fn end_to_end_scenario() {
    let schema = end_to_end_schema();
    assert!(schema_well_formed(&schema));
    let out = generate(&schema).unwrap();

    // the argument holder keeps both nullable arguments optional, in order
    let holder = vec![
        "pub struct ContainerArgs {",
        "    pub id: Option<ContainerID>,",
        "    pub platform: Option<Platform>,",
        "}",
        "",
    ].join("\n");
    assert!(out.contains(&holder));

    // the accessor takes the holder and returns the resolved output type
    assert!(out.contains("impl Query {"));
    assert!(out.contains("pub fn container(\n        &self,\n        args: &ContainerArgs,\n    ) -> Container {"));

    // the peer type exposes its scalar accessor, returning the newtype
    assert!(out.contains("impl Container {"));
    assert!(out.contains("pub fn id(\n        &self,\n    ) -> CacheID {"));

    // the custom scalar is declared as a string-backed newtype
    assert!(out.contains("pub struct CacheID(String);"));

    // a type under the reserved introspection prefix never appears
    assert!(!out.contains("__"));
}

#[test]
fn end_to_end_exact_output() {
    let out = generate(&end_to_end_schema()).unwrap();
    let expected = vec![
        "use crate::querybuilder::Selection;",
        "use dagger_core::connect_params::ConnectParams;",
        "use std::process::Child;",
        "use std::sync::Arc;",
        "",
        "pub struct ContainerArgs {",
        "    pub id: Option<ContainerID>,",
        "    pub platform: Option<Platform>,",
        "}",
        "",
        "pub struct Query {",
        "    pub conn: ConnectParams,",
        "    pub proc: Arc<Child>,",
        "    pub selection: Selection,",
        "}",
        "",
        "impl Query {",
        "    pub fn container(",
        "        &self,",
        "        args: &ContainerArgs,",
        "    ) -> Container {",
        "        let query = self.selection.select(\"container\");",
        "        let query = query.args(args);",
        "        Container {",
        "            conn: self.conn.clone(),",
        "            proc: self.proc.clone(),",
        "            selection: query,",
        "        }",
        "    }",
        "}",
        "",
        "pub struct Container {",
        "    pub conn: ConnectParams,",
        "    pub proc: Arc<Child>,",
        "    pub selection: Selection,",
        "}",
        "",
        "impl Container {",
        "    pub fn id(",
        "        &self,",
        "    ) -> CacheID {",
        "        let query = self.selection.select(\"id\");",
        "        CacheID {",
        "            conn: self.conn.clone(),",
        "            proc: self.proc.clone(),",
        "            selection: query,",
        "        }",
        "    }",
        "}",
        "",
        "pub struct CacheID(String);",
        "",
    ].join("\n");
    assert_eq!(out, expected);
}

#[test]
fn imports_emitted_once_sorted() {
    let out = generate(&end_to_end_schema()).unwrap();
    let header = "use crate::querybuilder::Selection;\n\
use dagger_core::connect_params::ConnectParams;\n\
use std::process::Child;\n\
use std::sync::Arc;\n\
\n";
    assert!(out.starts_with(header));
    // two object types, but each import line stands exactly once
    assert_eq!(out.matches("use std::sync::Arc;").count(), 1);
}

#[test]
fn generation_is_deterministic() {
    let first = generate(&end_to_end_schema()).unwrap();
    let second = generate(&end_to_end_schema()).unwrap();
    assert_eq!(first, second);
}

#[test]
fn blank_line_separation_is_normalized() {
    let out = generate(&end_to_end_schema()).unwrap();
    assert!(!out.contains("\n\n\n"));
}

#[test]
fn missing_name_is_fatal() {
    let mut bad = plain_type(TypeKind::Object, "ignored");
    bad.name = None;
    let r = generate(&schema_of(vec![scalar_type("CacheID"), bad]));
    assert!(matches!(r, Err(GenError::MissingName)));
}

#[test]
fn interface_kind_is_rejected() {
    let r = generate(&schema_of(vec![plain_type(TypeKind::Interface, "Node")]));
    match r {
        Err(GenError::UnsupportedKind { name }) => assert_eq!(name, "Node"),
        _ => panic!("expected an unsupported-kind error"),
    }
}

#[test]
fn union_kind_is_rejected() {
    let r = generate(&schema_of(vec![plain_type(TypeKind::Union, "Either")]));
    assert!(matches!(r, Err(GenError::UnsupportedKind { .. })));
}

#[test]
fn name_collision_is_reported_with_both_names() {
    let r = generate(&schema_of(vec![
        plain_type(TypeKind::Object, "container"),
        plain_type(TypeKind::Object, "Container"),
    ]));
    match r {
        Err(GenError::NameCollision { first, second }) => {
            assert_eq!(first, "container");
            assert_eq!(second, "Container");
        },
        _ => panic!("expected a name-collision error"),
    }
}

#[test]
fn reserved_types_do_not_collide() {
    // the introspection-internal namesake is excluded before collision checks
    let r = generate(&schema_of(vec![
        plain_type(TypeKind::Object, "__Schema"),
        plain_type(TypeKind::Object, "__Schema"),
    ]));
    assert_eq!(r.unwrap(), "");
}

#[test]
fn well_formedness_is_decidable() {
    assert!(schema_well_formed(&end_to_end_schema()));
    let bad_ref = TypeRef { kind: TypeKind::NonNull, name: None, of_type: None };
    let bad = FullType {
        kind: TypeKind::Object,
        name: Some("Broken".to_string()),
        description: None,
        fields: vec![Field {
            name: "x".to_string(),
            description: None,
            args: vec![],
            type_ref: bad_ref,
            is_deprecated: false,
            deprecation_reason: None,
        }],
        input_fields: vec![],
        enum_values: vec![],
    };
    assert!(!schema_well_formed(&schema_of(vec![bad])));
}

#[test]
fn error_messages_name_the_cause() {
    let e = GenError::UnsupportedKind { name: "Node".to_string() };
    assert_eq!(e.message(), "unsupported kind on type: Node");
    let c = GenError::NameCollision { first: "a".to_string(), second: "A".to_string() };
    assert_eq!(c.message(), "name collision between a and A");
    assert_eq!(GenError::MissingName.message(), "schema type without a name");
}

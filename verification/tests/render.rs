use dagger_codegen::model::{Field, FullType, InputValue, Schema, TypeKind, TypeRef};
use dagger_codegen::object::Object;
use dagger_codegen::scalar::render_scalar;
use dagger_codegen::enums::render_enum;
use dagger_codegen::input_object::render_input_object;
use dagger_codegen::fields::{render_fields, render_field_output};
use dagger_codegen::typeref::{resolve, type_ref_is_optional};
use dagger_codegen::naming::{render_doc, type_identifier, member_identifier};
use dagger_codegen::model::EnumValueDef;

fn named_ref(kind: TypeKind, name: &str) -> TypeRef {
    TypeRef { kind, name: Some(name.to_string()), of_type: None }
}

fn wrap(kind: TypeKind, inner: TypeRef) -> TypeRef {
    TypeRef { kind, name: None, of_type: Some(Box::new(inner)) }
}

fn simple_field(name: &str, description: Option<&str>, ty: TypeRef) -> Field {
    Field {
        name: name.to_string(),
        description: description.map(|d| d.to_string()),
        args: vec![],
        type_ref: ty,
        is_deprecated: false,
        deprecation_reason: None,
    }
}

fn arg(name: &str, ty: TypeRef) -> InputValue {
    InputValue { name: name.to_string(), description: None, type_ref: ty, default_value: None }
}

fn object_type(name: &str, description: Option<&str>, fields: Vec<Field>) -> FullType {
    FullType {
        kind: TypeKind::Object,
        name: Some(name.to_string()),
        description: description.map(|d| d.to_string()),
        fields,
        input_fields: vec![],
        enum_values: vec![],
    }
}

#[test]
fn can_render_object() {
    let t = object_type(
        "CacheVolume",
        Some("A directory whose contents persists across sessions"),
        vec![simple_field(
            "id",
            None,
            wrap(TypeKind::NonNull, named_ref(TypeKind::Scalar, "CacheID")),
        )],
    );
    let expected = vec![
        "/// A directory whose contents persists across sessions",
        "pub struct CacheVolume {",
        "    pub conn: ConnectParams,",
        "    pub proc: Arc<Child>,",
        "    pub selection: Selection,",
        "}",
        "",
        "impl CacheVolume {",
        "    pub fn id(",
        "        &self,",
        "    ) -> CacheID {",
        "        let query = self.selection.select(\"id\");",
        "        CacheID {",
        "            conn: self.conn.clone(),",
        "            proc: self.proc.clone(),",
        "            selection: query,",
        "        }",
        "    }",
        "}",
        "",
    ].join("\n");
    let handler = Object {};
    assert!(handler.predicate(&t));
    let frag = handler.render(&t).unwrap();
    assert_eq!(frag.body, expected);
    assert_eq!(
        frag.imports,
        vec![
            "use crate::querybuilder::Selection;".to_string(),
            "use dagger_core::connect_params::ConnectParams;".to_string(),
            "use std::process::Child;".to_string(),
            "use std::sync::Arc;".to_string(),
        ]
    );
}

#[test]
fn can_render_query_container() {
    let description = "Loads a container from ID.\nNull ID returns an empty container (scratch).\nOptional platform argument initializes new containers to execute and publish as that platform. Platform defaults to that of the builder's host.";

    let t = FullType {
        kind: TypeKind::Object,
        name: Some("Query".to_string()),
        description: None,
        fields: vec![Field {
            name: "container".to_string(),
            description: Some(description.to_string()),
            args: vec![
                arg("id", named_ref(TypeKind::Scalar, "ContainerID")),
                arg("platform", named_ref(TypeKind::Scalar, "Platform")),
            ],
            type_ref: wrap(TypeKind::NonNull, named_ref(TypeKind::Scalar, "CacheID")),
            is_deprecated: false,
            deprecation_reason: None,
        }],
        input_fields: vec![],
        enum_values: vec![],
    };
    let expected = vec![
        "/// Loads a container from ID.",
        "/// Null ID returns an empty container (scratch).",
        "/// Optional platform argument initializes new containers to execute and publish as that platform. Platform defaults to that of the builder's host.",
        "pub struct ContainerArgs {",
        "    pub id: Option<ContainerID>,",
        "    pub platform: Option<Platform>,",
        "}",
        "",
        "pub struct Query {",
        "    pub conn: ConnectParams,",
        "    pub proc: Arc<Child>,",
        "    pub selection: Selection,",
        "}",
        "",
        "impl Query {",
        "    pub fn container(",
        "        &self,",
        "        args: &ContainerArgs,",
        "    ) -> CacheID {",
        "        let query = self.selection.select(\"container\");",
        "        let query = query.args(args);",
        "        CacheID {",
        "            conn: self.conn.clone(),",
        "            proc: self.proc.clone(),",
        "            selection: query,",
        "        }",
        "    }",
        "}",
        "",
    ].join("\n");
    let handler = Object {};
    let frag = handler.render(&t).unwrap();
    assert_eq!(frag.body, expected);
}

#[test]
fn nullability_composition() {
    let required_list_of_required = wrap(
        TypeKind::NonNull,
        wrap(
            TypeKind::List,
            wrap(TypeKind::NonNull, named_ref(TypeKind::Scalar, "String")),
        ),
    );
    assert_eq!(resolve(&required_list_of_required), "Vec<String>");

    let optional_list_of_optional = wrap(TypeKind::List, named_ref(TypeKind::Scalar, "String"));
    assert_eq!(resolve(&optional_list_of_optional), "Option<Vec<Option<String>>>");
}

#[test]
fn builtin_scalar_mapping() {
    assert_eq!(resolve(&wrap(TypeKind::NonNull, named_ref(TypeKind::Scalar, "Int"))), "i32");
    assert_eq!(resolve(&wrap(TypeKind::NonNull, named_ref(TypeKind::Scalar, "Float"))), "f64");
    assert_eq!(resolve(&wrap(TypeKind::NonNull, named_ref(TypeKind::Scalar, "Boolean"))), "bool");
    assert_eq!(resolve(&named_ref(TypeKind::Scalar, "String")), "Option<String>");
    assert_eq!(resolve(&wrap(TypeKind::NonNull, named_ref(TypeKind::Scalar, "ID"))), "ID");
}

#[test]
fn argument_partition() {
    let f = Field {
        name: "container".to_string(),
        description: None,
        args: vec![
            arg("id", wrap(TypeKind::NonNull, named_ref(TypeKind::Scalar, "ContainerID"))),
            arg("platform", named_ref(TypeKind::Scalar, "Platform")),
        ],
        type_ref: wrap(TypeKind::NonNull, named_ref(TypeKind::Object, "Container")),
        is_deprecated: false,
        deprecation_reason: None,
    };
    assert!(!type_ref_is_optional(&f.args[0].type_ref));
    assert!(type_ref_is_optional(&f.args[1].type_ref));
    let (holders, accessors) = render_fields(&vec![f]);
    let expected_holder = vec![
        "pub struct ContainerArgs {",
        "    pub id: ContainerID,",
        "    pub platform: Option<Platform>,",
        "}",
        "",
        "",
    ].join("\n");
    assert_eq!(holders, expected_holder);
    assert!(accessors.contains("pub fn container("));
    assert!(accessors.contains("args: &ContainerArgs,"));
}

#[test]
fn custom_scalar_wraps_string() {
    let t = FullType {
        kind: TypeKind::Scalar,
        name: Some("CacheID".to_string()),
        description: None,
        fields: vec![],
        input_fields: vec![],
        enum_values: vec![],
    };
    let frag = render_scalar(&t).unwrap();
    assert_eq!(frag.body, "pub struct CacheID(String);\n");
    assert!(frag.imports.is_empty());
    // a reference to the same name, anywhere else, yields the same identifier
    assert_eq!(resolve(&wrap(TypeKind::NonNull, named_ref(TypeKind::Scalar, "CacheID"))), "CacheID");
}

#[test]
fn builtin_scalar_renders_nothing() {
    let t = FullType {
        kind: TypeKind::Scalar,
        name: Some("String".to_string()),
        description: None,
        fields: vec![],
        input_fields: vec![],
        enum_values: vec![],
    };
    let frag = render_scalar(&t).unwrap();
    assert_eq!(frag.body, "");
}

#[test]
fn enum_renders_variants_in_order() {
    let t = FullType {
        kind: TypeKind::Enum,
        name: Some("CacheSharingMode".to_string()),
        description: Some("Sharing mode of the cache volume".to_string()),
        fields: vec![],
        input_fields: vec![],
        enum_values: vec![
            EnumValueDef {
                name: "SHARED".to_string(),
                description: Some("Shares the cache volume amongst many build pipelines".to_string()),
            },
            EnumValueDef { name: "PRIVATE".to_string(), description: None },
        ],
    };
    let frag = render_enum(&t).unwrap();
    let expected = vec![
        "/// Sharing mode of the cache volume",
        "pub enum CacheSharingMode {",
        "    /// Shares the cache volume amongst many build pipelines",
        "    SHARED,",
        "    PRIVATE,",
        "}",
        "",
    ].join("\n");
    assert_eq!(frag.body, expected);
}

#[test]
fn input_object_is_plain_data() {
    let t = FullType {
        kind: TypeKind::InputObject,
        name: Some("BuildArg".to_string()),
        description: None,
        fields: vec![],
        input_fields: vec![
            arg("name", wrap(TypeKind::NonNull, named_ref(TypeKind::Scalar, "String"))),
            arg("value", named_ref(TypeKind::Scalar, "String")),
        ],
        enum_values: vec![],
    };
    let frag = render_input_object(&t).unwrap();
    let expected = vec![
        "pub struct BuildArg {",
        "    pub name: String,",
        "    pub value: Option<String>,",
        "}",
        "",
    ].join("\n");
    assert_eq!(frag.body, expected);
    assert!(frag.imports.is_empty());
    assert!(!frag.body.contains("selection"));
}

#[test]
fn deprecated_field_is_doc_only() {
    let f = Field {
        name: "exitCode".to_string(),
        description: None,
        args: vec![],
        type_ref: named_ref(TypeKind::Scalar, "Int"),
        is_deprecated: true,
        deprecation_reason: Some("use sync instead".to_string()),
    };
    let (_, accessors) = render_fields(&vec![f]);
    assert!(accessors.contains("    /// Deprecated: use sync instead\n"));
    assert!(accessors.contains("pub fn exit_code("));
    assert_eq!(render_field_output(&Field {
        name: "exitCode".to_string(),
        description: None,
        args: vec![],
        type_ref: named_ref(TypeKind::Scalar, "Int"),
        is_deprecated: true,
        deprecation_reason: Some("use sync instead".to_string()),
    }), "Option<i32>");
}

#[test]
fn doc_rendering_splits_lines() {
    assert_eq!(render_doc("one line"), "/// one line\n");
    assert_eq!(render_doc("first\nsecond"), "/// first\n/// second\n");
    assert_eq!(render_doc(""), "");
}

#[test]
fn identifier_normalization() {
    assert_eq!(type_identifier("container"), "Container");
    assert_eq!(type_identifier("CacheID"), "CacheID");
    assert_eq!(type_identifier("Container"), "Container");
    assert_eq!(member_identifier("withExec"), "with_exec");
    assert_eq!(member_identifier("id"), "id");
}

fn cyclic_schema() -> Schema {
    Schema {
        types: vec![
            object_type(
                "Alpha",
                None,
                vec![simple_field(
                    "beta",
                    None,
                    wrap(TypeKind::NonNull, named_ref(TypeKind::Object, "Beta")),
                )],
            ),
            object_type(
                "Beta",
                None,
                vec![simple_field(
                    "alpha",
                    None,
                    wrap(TypeKind::NonNull, named_ref(TypeKind::Object, "Alpha")),
                )],
            ),
        ],
        query_type: None,
        mutation_type: None,
        subscription_type: None,
    }
}

#[test]
fn cyclic_references_generate() {
    let out = dagger_codegen::generate(&cyclic_schema()).unwrap();
    assert!(out.contains("pub struct Alpha {"));
    assert!(out.contains("pub struct Beta {"));
    assert!(out.contains(") -> Beta {"));
    assert!(out.contains(") -> Alpha {"));
}

#[test]
fn self_reference_generates() {
    let s = Schema {
        types: vec![object_type(
            "Container",
            None,
            vec![simple_field(
                "withWorkdir",
                None,
                wrap(TypeKind::NonNull, named_ref(TypeKind::Object, "Container")),
            )],
        )],
        query_type: None,
        mutation_type: None,
        subscription_type: None,
    };
    let out = dagger_codegen::generate(&s).unwrap();
    assert!(out.contains("pub fn with_workdir("));
    assert!(out.contains(") -> Container {"));
}

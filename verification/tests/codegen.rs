use ion_cli::add;
use ion_cli::codegen::builders::{
    ScalarBuilder, SequenceBuilder, StructureBuilder, WrappedScalarBuilder,
};
use ion_cli::codegen::generator::CodeGenerator;
use ion_cli::codegen::isl::{IslConstraint, IslField, IslType, IslTypeRef};
use ion_cli::codegen::model::{
    AbstractDataType, CodeGenContext, FieldPresence, FieldReference, FullyQualifiedTypeReference,
    Scalar, Sequence, SequenceType, StructField, Structure, WrappedScalar,
};
use ion_cli::codegen::result::{BuilderError, CodeGenError};
use ion_cli::codegen::utils::{JavaLanguage, RustLanguage};

fn names(parts: &[&str]) -> Vec<String> {
    parts.iter().map(|s| s.to_string()).collect()
}

fn fq(parts: &[&str]) -> FullyQualifiedTypeReference {
    FullyQualifiedTypeReference { qualified_name: names(parts), parameters: vec![] }
}

fn fq_with(parts: &[&str], parameters: Vec<FullyQualifiedTypeReference>) -> FullyQualifiedTypeReference {
    FullyQualifiedTypeReference { qualified_name: names(parts), parameters }
}

fn named(name: &str) -> IslTypeRef {
    IslTypeRef::Named(name.to_string())
}

fn anonymous_type(constraints: Vec<IslConstraint>) -> IslType {
    IslType { name: None, constraints }
}

fn named_type(name: &str, constraints: Vec<IslConstraint>) -> IslType {
    IslType { name: Some(name.to_string()), constraints }
}

fn optional_field(name: &str, type_ref: IslTypeRef) -> IslField {
    IslField { name: name.to_string(), type_ref, occurs_min: 0, occurs_max: 1 }
}

fn field_of<'a>(structure: &'a Structure, name: &str) -> &'a FieldReference {
    &structure.fields.iter().find(|f| f.name == name).unwrap().reference
}

#[test]
fn it_works() {
    let result = add(2, 2);
    assert_eq!(result, 4);
}

#[test]
fn scalar_builder_test() {
    let expected_scalar = Scalar {
        base_type: fq(&["String"]),
        doc_comment: Some("This is scalar type".to_string()),
        source: anonymous_type(vec![IslConstraint::Type(named("string"))]),
    };

    let mut scalar_builder = ScalarBuilder::default();

    // sets all the information about the scalar type
    scalar_builder
        .base_type(FullyQualifiedTypeReference::from_name(vec!["String".to_string()]))
        .doc_comment(Some("This is scalar type".to_string()))
        .source(anonymous_type(vec![IslConstraint::Type(named("string"))]));

    assert_eq!(expected_scalar, scalar_builder.build().unwrap());
}

#[test]
fn wrapped_scalar_builder_test() {
    let expected_scalar = WrappedScalar {
        name: vec!["Foo".to_string()],
        base_type: fq(&["String"]),
        doc_comment: Some("This is scalar type".to_string()),
        source: anonymous_type(vec![IslConstraint::Type(named("string"))]),
    };

    let mut scalar_builder = WrappedScalarBuilder::default();

    scalar_builder
        .name(vec!["Foo".to_string()])
        .base_type(fq(&["String"]))
        .doc_comment(Some("This is scalar type".to_string()))
        .source(anonymous_type(vec![IslConstraint::Type(named("string"))]));

    assert_eq!(expected_scalar, scalar_builder.build().unwrap());
}

#[test]
fn sequence_builder_test() {
    let expected_seq = Sequence {
        doc_comment: Some("This is sequence type of strings".to_string()),
        element_type: fq(&["String"]),
        sequence_type: SequenceType::List,
        source: anonymous_type(vec![
            IslConstraint::Type(named("list")),
            IslConstraint::Element(named("string"), false),
        ]),
    };

    let mut seq_builder = SequenceBuilder::default();

    // sets all the information about the sequence except the `element_type`
    seq_builder
        .doc_comment(Some("This is sequence type of strings".to_string()))
        .sequence_type(SequenceType::List)
        .source(anonymous_type(vec![
            IslConstraint::Type(named("list")),
            IslConstraint::Element(named("string"), false),
        ]));

    // not setting `element_type` is an error
    assert!(seq_builder.build().is_err());

    seq_builder.element_type(fq(&["String"]));

    assert_eq!(expected_seq, seq_builder.build().unwrap());
}

fn struct_source() -> IslType {
    anonymous_type(vec![
        IslConstraint::Type(named("struct")),
        IslConstraint::Fields(
            vec![optional_field("foo", named("string")), optional_field("bar", named("int"))],
            false,
        ),
    ])
}

fn struct_fields() -> Vec<StructField> {
    vec![
        StructField {
            name: "foo".to_string(),
            reference: FieldReference(fq(&["String"]), FieldPresence::Required),
        },
        StructField {
            name: "bar".to_string(),
            reference: FieldReference(fq(&["int"]), FieldPresence::Required),
        },
    ]
}

#[test]
fn struct_builder_test() {
    let expected_struct = Structure {
        name: names(&["org", "example", "Foo"]),
        doc_comment: Some("This is a structure".to_string()),
        is_closed: false,
        fields: struct_fields(),
        source: struct_source(),
    };

    let mut struct_builder = StructureBuilder::default();

    struct_builder
        .name(names(&["org", "example", "Foo"]))
        .doc_comment(Some("This is a structure".to_string()))
        .is_closed(false)
        .fields(struct_fields())
        .source(struct_source());

    assert_eq!(expected_struct, struct_builder.build().unwrap());
}

#[test]
fn structure_builder_reports_first_missing_part() {
    let mut struct_builder = StructureBuilder::default();
    struct_builder.name(names(&["Foo"])).fields(struct_fields());
    assert_eq!(
        struct_builder.build(),
        Err(BuilderError::UninitializedField("is_closed".to_string()))
    );
    assert_eq!(
        BuilderError::UninitializedField("is_closed".to_string()).description(),
        "`is_closed` must be initialized"
    );
}

#[test]
fn isl_to_model_test_for_struct() {
    // type::{ name: my_struct, type: struct, fields: { foo: string, bar: int } }
    let isl_type = named_type(
        "my_struct",
        vec![
            IslConstraint::Type(named("struct")),
            IslConstraint::Fields(
                vec![optional_field("foo", named("string")), optional_field("bar", named("int"))],
                false,
            ),
        ],
    );

    let mut java_code_generator =
        CodeGenerator::<JavaLanguage>::new(vec!["org".to_string(), "example".to_string()]);
    let data_model_node = java_code_generator
        .convert_isl_type_def_to_data_model_node(
            &"my_struct".to_string(),
            FieldPresence::Required,
            &isl_type,
            &mut CodeGenContext::new(),
            false,
        )
        .unwrap();
    let abstract_data_type = data_model_node.code_gen_type.unwrap();
    assert_eq!(
        abstract_data_type.fully_qualified_type_ref::<JavaLanguage>().unwrap(),
        fq(&["org", "example", "MyStruct"])
    );
    assert!(matches!(abstract_data_type, AbstractDataType::Structure(_)));
    if let AbstractDataType::Structure(structure) = abstract_data_type {
        assert_eq!(structure.name, names(&["org", "example", "MyStruct"]));
        assert!(!structure.is_closed);
        assert_eq!(structure.source, isl_type);
        assert_eq!(structure.fields.len(), 2);
        assert_eq!(
            field_of(&structure, "foo"),
            &FieldReference(
                fq_with(&["java", "util", "Optional"], vec![fq(&["String"])]),
                FieldPresence::Optional
            )
        );
        assert_eq!(
            field_of(&structure, "bar"),
            &FieldReference(
                fq_with(&["java", "util", "Optional"], vec![fq(&["Integer"])]),
                FieldPresence::Optional
            )
        );
    }
}

#[test]
fn isl_to_model_test_for_nested_struct() {
    // type::{ name: my_nested_struct, type: struct,
    //         fields: { foo: { fields: { baz: bool }, type: struct }, bar: int } }
    let nested = anonymous_type(vec![
        IslConstraint::Fields(vec![optional_field("baz", named("bool"))], false),
        IslConstraint::Type(named("struct")),
    ]);
    let isl_type = named_type(
        "my_nested_struct",
        vec![
            IslConstraint::Type(named("struct")),
            IslConstraint::Fields(
                vec![
                    optional_field("foo", IslTypeRef::Anonymous(Box::new(nested))),
                    optional_field("bar", named("int")),
                ],
                false,
            ),
        ],
    );

    let mut java_code_generator =
        CodeGenerator::<JavaLanguage>::new(vec!["org".to_string(), "example".to_string()]);
    let data_model_node = java_code_generator
        .convert_isl_type_def_to_data_model_node(
            &"my_nested_struct".to_string(),
            FieldPresence::Required,
            &isl_type,
            &mut CodeGenContext::new(),
            false,
        )
        .unwrap();
    let abstract_data_type = data_model_node.code_gen_type.as_ref().unwrap();
    assert_eq!(
        abstract_data_type.fully_qualified_type_ref::<JavaLanguage>().unwrap(),
        fq(&["org", "example", "MyNestedStruct"])
    );
    assert!(matches!(abstract_data_type, AbstractDataType::Structure(_)));
    if let AbstractDataType::Structure(structure) = abstract_data_type {
        assert_eq!(structure.name, names(&["org", "example", "MyNestedStruct"]));
        assert!(!structure.is_closed);
        assert_eq!(structure.source, isl_type);
        assert_eq!(structure.fields.len(), 2);
        assert_eq!(
            field_of(structure, "foo"),
            &FieldReference(
                fq_with(
                    &["java", "util", "Optional"],
                    vec![fq(&["org", "example", "MyNestedStruct", "NestedType1"])]
                ),
                FieldPresence::Optional
            )
        );
        assert_eq!(
            field_of(structure, "bar"),
            &FieldReference(
                fq_with(&["java", "util", "Optional"], vec![fq(&["Integer"])]),
                FieldPresence::Optional
            )
        );
        assert_eq!(data_model_node.nested_types.len(), 1);
        assert_eq!(
            data_model_node.nested_types[0]
                .code_gen_type
                .as_ref()
                .unwrap()
                .fully_qualified_type_ref::<JavaLanguage>(),
            Some(fq(&["org", "example", "MyNestedStruct", "NestedType1"]))
        );
    }
}

#[test]
fn nested_types_leave_the_namespace_as_they_found_it() {
    let nested = anonymous_type(vec![
        IslConstraint::Type(named("struct")),
        IslConstraint::Fields(vec![optional_field("baz", named("bool"))], false),
    ]);
    let isl_type = named_type(
        "outer",
        vec![IslConstraint::Fields(
            vec![optional_field("inner", IslTypeRef::Anonymous(Box::new(nested)))],
            true,
        )],
    );
    let mut generator = CodeGenerator::<JavaLanguage>::new(vec!["org".to_string()]);
    let node = generator
        .convert_isl_type_def_to_data_model_node(
            &"outer".to_string(),
            FieldPresence::Required,
            &isl_type,
            &mut CodeGenContext::new(),
            false,
        )
        .unwrap();
    assert_eq!(generator.current_type_fully_qualified_name, names(&["org", "Outer"]));
    assert_eq!(generator.nested_type_counter, 1);
    // both the nested type and the outer type are in the store, each once
    assert_eq!(generator.data_model_store.len(), 2);
    assert!(generator
        .data_model_store
        .iter()
        .any(|(k, v)| *k == fq(&["org", "Outer"]) && *v == node));
    assert!(generator
        .data_model_store
        .iter()
        .any(|(k, _)| *k == fq(&["org", "Outer", "NestedType1"])));
    if let Some(AbstractDataType::Structure(s)) = &node.code_gen_type {
        assert!(s.is_closed);
    } else {
        panic!("expected a structure");
    }
}

#[test]
fn wrapped_sequence_in_rust() {
    let isl_type = named_type(
        "names",
        vec![
            IslConstraint::Type(named("list")),
            IslConstraint::Element(named("string"), false),
            IslConstraint::ContainerLength(0, 3),
        ],
    );
    let mut generator = CodeGenerator::<RustLanguage>::new();
    let node = generator
        .convert_isl_type_def_to_data_model_node(
            &"names".to_string(),
            FieldPresence::Required,
            &isl_type,
            &mut CodeGenContext::new(),
            false,
        )
        .unwrap();
    assert_eq!(node.name, "Names");
    match node.code_gen_type.unwrap() {
        AbstractDataType::WrappedSequence(s) => {
            assert_eq!(s.name, names(&["Names"]));
            assert_eq!(s.element_type, fq(&["String"]));
            assert_eq!(s.sequence_type, SequenceType::List);
        }
        other => panic!("unexpected {:?}", other),
    }
}

#[test]
fn nested_sequence_is_a_vector_in_rust() {
    let list_of_ints = anonymous_type(vec![
        IslConstraint::Type(named("sexp")),
        IslConstraint::Element(named("int"), false),
    ]);
    let isl_type = named_type(
        "holder",
        vec![IslConstraint::Fields(
            vec![IslField {
                name: "values".to_string(),
                type_ref: IslTypeRef::Anonymous(Box::new(list_of_ints)),
                occurs_min: 1,
                occurs_max: 1,
            }],
            false,
        )],
    );
    let mut generator = CodeGenerator::<RustLanguage>::new();
    let node = generator
        .convert_isl_type_def_to_data_model_node(
            &"holder".to_string(),
            FieldPresence::Required,
            &isl_type,
            &mut CodeGenContext::new(),
            false,
        )
        .unwrap();
    match node.code_gen_type.as_ref().unwrap() {
        AbstractDataType::Structure(s) => {
            assert_eq!(
                field_of(s, "values"),
                &FieldReference(fq_with(&["Vec"], vec![fq(&["i64"])]), FieldPresence::Required)
            );
        }
        other => panic!("unexpected {:?}", other),
    }
    match node.nested_types[0].code_gen_type.as_ref().unwrap() {
        AbstractDataType::Sequence(s) => assert_eq!(s.sequence_type, SequenceType::SExp),
        other => panic!("unexpected {:?}", other),
    }
}

/// Converts `isl_type` as a top-level Java type and describes the outcome.
fn convert_java(isl_type: &IslType) -> String {
    let mut generator = CodeGenerator::<JavaLanguage>::new(vec![]);
    match generator.try_convert_isl_type_def_to_data_model_node(
        &"foo".to_string(),
        FieldPresence::Required,
        isl_type,
        &mut CodeGenContext::new(),
        false,
    ) {
        None => "unsupported".to_string(),
        Some(Ok(node)) => format!("ok: {}", node.name),
        Some(Err(CodeGenError::InvalidDataModel { description })) => format!("invalid: {}", description),
        Some(Err(CodeGenError::DataModelBuilderError { description })) => format!("builder: {}", description),
        Some(Err(other)) => format!("other: {:?}", other),
    }
}

fn invalid(text: &str) -> String {
    format!("invalid: {}", text)
}

#[test]
fn fields_with_occurs_range_are_rejected() {
    let isl_type = named_type(
        "foo",
        vec![IslConstraint::Fields(
            vec![IslField { name: "a".to_string(), type_ref: named("int"), occurs_min: 0, occurs_max: 5 }],
            false,
        )],
    );
    assert_eq!(
        convert_java(&isl_type),
        invalid("Fields with occurs as a range aren't supported with code generation")
    );
}

#[test]
fn multiple_type_constraints_are_rejected() {
    let isl_type = named_type(
        "foo",
        vec![IslConstraint::Type(named("int")), IslConstraint::Type(named("string"))],
    );
    assert_eq!(
        convert_java(&isl_type),
        invalid(
            "Multiple `type` constraints in the type definitions are not supported in code generation as it can lead to conflicting types."
        )
    );
}

#[test]
fn conflicting_constraints_are_rejected() {
    let isl_type = named_type(
        "foo",
        vec![IslConstraint::Type(named("int")), IslConstraint::Other],
    );
    assert_eq!(
        convert_java(&isl_type),
        invalid("Could not determine the abstract data type due to conflicting constraints")
    );
}

#[test]
fn element_of_open_type_is_rejected() {
    let isl_type = named_type(
        "foo",
        vec![IslConstraint::Type(named("list")), IslConstraint::Element(named("struct"), false)],
    );
    assert_eq!(
        convert_java(&isl_type),
        invalid("Could not determine `FullQualifiedTypeReference` for type struct")
    );
}

#[test]
fn sequence_without_list_or_sexp_is_a_builder_error() {
    let isl_type = named_type("foo", vec![IslConstraint::Element(named("int"), false)]);
    assert_eq!(
        convert_java(&isl_type),
        "builder: `sequence_type` must be initialized"
    );
}

#[test]
fn unsupported_type_definitions_stop_conversion() {
    let import = named_type("foo", vec![IslConstraint::Type(IslTypeRef::TypeImport("bar".to_string()))]);
    assert_eq!(convert_java(&import), "unsupported");
    let decimal = named_type("foo", vec![IslConstraint::Type(named("decimal"))]);
    assert_eq!(convert_java(&decimal), "unsupported");
    let open_struct = named_type("foo", vec![IslConstraint::Type(named("struct"))]);
    assert_eq!(convert_java(&open_struct), "unsupported");
}

#[test]
fn schema_defined_types_are_named_in_upper_camel_case() {
    let isl_type = named_type("foo", vec![IslConstraint::Type(named("my_other_type"))]);
    let mut generator = CodeGenerator::<JavaLanguage>::new(vec![]);
    let node = generator
        .convert_isl_type_def_to_data_model_node(
            &"foo".to_string(),
            FieldPresence::Required,
            &isl_type,
            &mut CodeGenContext::new(),
            false,
        )
        .unwrap();
    match node.code_gen_type.unwrap() {
        AbstractDataType::WrappedScalar(s) => {
            assert_eq!(s.base_type, fq(&["MyOtherType"]));
            assert_eq!(s.name, names(&["Foo"]));
        }
        other => panic!("unexpected {:?}", other),
    }
}

#[test]
fn successive_nested_type_names_differ() {
    let mut generator = CodeGenerator::<RustLanguage>::new();
    let first = generator.next_nested_type_name();
    let second = generator.next_nested_type_name();
    assert_eq!(first, "NestedType1");
    assert_eq!(second, "NestedType2");
    assert_eq!(generator.nested_type_counter, 2);
}

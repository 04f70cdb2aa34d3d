use ion_cli::codegen::adt::{
    verify_and_update_abstract_data_type, AbstractDataType, CodeGenContext, Field, SequenceType,
};
use ion_cli::codegen::result::CodeGenError;

fn open_field() -> Field {
    Field { name: "value".to_string(), value_type: None, isl_type_name: "list".to_string(), abstract_data_type: None }
}

fn typed_field(t: &str) -> Field {
    Field {
        name: "value".to_string(),
        value_type: Some(t.to_string()),
        isl_type_name: "string".to_string(),
        abstract_data_type: None,
    }
}

fn is_sequence(a: &Option<AbstractDataType>, element: Option<&str>, kind: Option<SequenceType>) -> bool {
    match a {
        Some(AbstractDataType::Sequence { element_type, sequence_type }) => {
            element_type.as_deref() == element && *sequence_type == kind
        }
        _ => false,
    }
}

#[test]
fn first_data_type_is_taken() {
    let mut ctx = CodeGenContext::new();
    let mut fields = vec![];
    verify_and_update_abstract_data_type(AbstractDataType::Value, &mut fields, &mut ctx).unwrap();
    assert!(matches!(ctx.abstract_data_type, Some(AbstractDataType::Value)));
    assert!(fields.is_empty());
}

#[test]
fn type_then_element_gives_typed_sequence() {
    // type: sexp, then element: string
    let mut ctx = CodeGenContext {
        abstract_data_type: Some(AbstractDataType::Sequence {
            element_type: None,
            sequence_type: Some(SequenceType::SExp),
        }),
    };
    let mut fields = vec![open_field()];
    let element = AbstractDataType::Sequence { element_type: Some("String".to_string()), sequence_type: None };
    verify_and_update_abstract_data_type(element, &mut fields, &mut ctx).unwrap();
    assert!(is_sequence(&ctx.abstract_data_type, Some("String"), Some(SequenceType::SExp)));
    assert!(fields.is_empty());
}

#[test]
fn element_then_type_keeps_element_type() {
    // element: string, then type: list
    let mut ctx = CodeGenContext {
        abstract_data_type: Some(AbstractDataType::Sequence {
            element_type: Some("String".to_string()),
            sequence_type: None,
        }),
    };
    let mut fields = vec![typed_field("String")];
    let list = AbstractDataType::Sequence { element_type: None, sequence_type: Some(SequenceType::List) };
    verify_and_update_abstract_data_type(list, &mut fields, &mut ctx).unwrap();
    assert!(is_sequence(&ctx.abstract_data_type, Some("String"), Some(SequenceType::List)));
    assert!(fields.is_empty());
}

#[test]
fn fields_after_type_struct_set_closed_content() {
    let mut ctx = CodeGenContext { abstract_data_type: Some(AbstractDataType::Structure(false)) };
    let mut fields = vec![open_field()];
    verify_and_update_abstract_data_type(AbstractDataType::Structure(true), &mut fields, &mut ctx).unwrap();
    assert!(matches!(ctx.abstract_data_type, Some(AbstractDataType::Structure(true))));
    assert!(fields.is_empty());
}

#[test]
fn same_data_type_changes_nothing() {
    let mut ctx = CodeGenContext { abstract_data_type: Some(AbstractDataType::Structure(false)) };
    let mut fields = vec![typed_field("String")];
    verify_and_update_abstract_data_type(AbstractDataType::Structure(false), &mut fields, &mut ctx).unwrap();
    assert!(matches!(ctx.abstract_data_type, Some(AbstractDataType::Structure(false))));
    assert_eq!(fields.len(), 1);
}

#[test]
fn conflicting_data_types_are_an_error() {
    let mut ctx = CodeGenContext { abstract_data_type: Some(AbstractDataType::Value) };
    let mut fields = vec![typed_field("String")];
    let r = verify_and_update_abstract_data_type(AbstractDataType::Structure(false), &mut fields, &mut ctx);
    match r {
        Err(CodeGenError::InvalidDataModel { description }) => assert_eq!(
            description,
            "Can not determine abstract data type as current constraint struct conflicts with prior constraints for single value struct."
        ),
        other => panic!("unexpected {:?}", other),
    }
    assert!(matches!(ctx.abstract_data_type, Some(AbstractDataType::Value)));
    assert_eq!(fields.len(), 1);
}

use ion_cli::codegen::adt::{CodeGenerator, NestedType};
use ion_cli::codegen::generator::Generated;
use ion_cli::codegen::isl::{IslConstraint, IslField, IslType, IslTypeRef};
use ion_cli::codegen::utils::RustLanguage;

fn named(n: &str) -> IslTypeRef {
    IslTypeRef::Named(n.to_string())
}

fn map_all(
    generator: &mut CodeGenerator<RustLanguage>,
    constraints: &[IslConstraint],
) -> (Result<(), String>, Vec<NestedType>, Vec<Field>, CodeGenContext) {
    let mut nested = vec![];
    let mut fields = vec![];
    let mut ctx = CodeGenContext::new();
    for c in constraints {
        match generator.map_constraint_to_abstract_data_type(&mut nested, &mut fields, c, &mut ctx) {
            Generated::Done(()) => {}
            Generated::Failed(CodeGenError::InvalidDataModel { description }) => {
                return (Err(description), nested, fields, ctx)
            }
            Generated::Failed(e) => return (Err(format!("{:?}", e)), nested, fields, ctx),
            Generated::Unsupported => return (Err("unsupported".to_string()), nested, fields, ctx),
        }
    }
    (Ok(()), nested, fields, ctx)
}

#[test]
fn list_of_strings_becomes_a_vec_field() {
    let mut generator = CodeGenerator::<RustLanguage>::new();
    let (r, nested, fields, ctx) = map_all(
        &mut generator,
        &[IslConstraint::Type(named("list")), IslConstraint::Element(named("string"), false)],
    );
    assert_eq!(r, Ok(()));
    assert!(nested.is_empty());
    assert!(is_sequence(&ctx.abstract_data_type, Some("String"), Some(SequenceType::List)));
    assert_eq!(fields.len(), 1);
    assert_eq!(fields[0].name, "value");
    assert_eq!(fields[0].value_type.as_deref(), Some("Vec<String>"));
    assert_eq!(fields[0].isl_type_name, "string");
}

#[test]
fn nested_sequence_is_folded_into_its_field() {
    let mut generator = CodeGenerator::<RustLanguage>::new();
    let inner = IslType {
        name: None,
        constraints: vec![IslConstraint::Type(named("list")), IslConstraint::Element(named("int"), false)],
    };
    let field = IslField {
        name: "foo".to_string(),
        type_ref: IslTypeRef::Anonymous(Box::new(inner)),
        occurs_min: 0,
        occurs_max: 1,
    };
    let (r, nested, fields, ctx) = map_all(&mut generator, &[IslConstraint::Fields(vec![field], false)]);
    assert_eq!(r, Ok(()));
    assert_eq!(generator.nested_type_counter, 1);
    assert!(nested.is_empty());
    assert!(matches!(ctx.abstract_data_type, Some(AbstractDataType::Structure(false))));
    assert_eq!(fields.len(), 1);
    assert_eq!(fields[0].name, "foo");
    assert_eq!(fields[0].value_type.as_deref(), Some("Vec<i64>"));
    assert_eq!(fields[0].isl_type_name, "int");
    assert!(is_sequence(&fields[0].abstract_data_type, Some("i64"), Some(SequenceType::List)));
}

#[test]
fn nested_struct_stays_a_nested_type() {
    let mut generator = CodeGenerator::<RustLanguage>::new();
    let inner_field = IslField { name: "bar".to_string(), type_ref: named("int"), occurs_min: 0, occurs_max: 1 };
    let inner = IslType { name: None, constraints: vec![IslConstraint::Fields(vec![inner_field], true)] };
    let field = IslField {
        name: "foo".to_string(),
        type_ref: IslTypeRef::Anonymous(Box::new(inner)),
        occurs_min: 0,
        occurs_max: 1,
    };
    let (r, nested, fields, _ctx) = map_all(&mut generator, &[IslConstraint::Fields(vec![field], false)]);
    assert_eq!(r, Ok(()));
    assert_eq!(nested.len(), 1);
    assert_eq!(nested[0].target_kind_name, "NestedType1");
    assert!(matches!(nested[0].abstract_data_type, AbstractDataType::Structure(true)));
    assert_eq!(fields[0].value_type.as_deref(), Some("NestedType1"));
    assert!(fields[0].abstract_data_type.is_none());
}

#[test]
fn value_then_fields_is_a_conflict() {
    let mut generator = CodeGenerator::<RustLanguage>::new();
    let (r, _, _, _) = map_all(
        &mut generator,
        &[IslConstraint::Type(named("int")), IslConstraint::Fields(vec![], false)],
    );
    assert_eq!(
        r,
        Err("Can not determine abstract data type as current constraint struct conflicts with prior constraints for single value struct.".to_string())
    );
}

#[test]
fn imported_types_are_not_supported() {
    let mut generator = CodeGenerator::<RustLanguage>::new();
    let (r, _, _, _) = map_all(&mut generator, &[IslConstraint::Element(IslTypeRef::TypeImport("t".to_string()), false)]);
    assert_eq!(r, Err("unsupported".to_string()));
}

#[test]
fn element_alone_gives_a_sequence_field() {
    // type::{ name: sequence_type, element: int }
    let mut generator = CodeGenerator::<RustLanguage>::new();
    let (r, _, fields, ctx) = map_all(&mut generator, &[IslConstraint::Element(named("int"), false)]);
    assert_eq!(r, Ok(()));
    assert!(is_sequence(&ctx.abstract_data_type, Some("i64"), None));
    assert_eq!(fields.len(), 1);
    assert_eq!(fields[0].name, "value");
    assert_eq!(fields[0].value_type.as_deref(), Some("Vec<i64>"));
    assert_eq!(fields[0].isl_type_name, "int");
}

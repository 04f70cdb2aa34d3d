use ion_cli::codegen::filters::{
    camel, field_names, fully_qualified_type_name, is_built_in_type, parameters, primitive_data_type,
    snake, upper_camel,
};
use ion_cli::codegen::generator::CodeGenerator;
use ion_cli::codegen::isl::{IslConstraint, IslType, IslTypeRef};
use ion_cli::codegen::model::FullyQualifiedTypeReference;
use ion_cli::codegen::utils::{JavaLanguage, RustLanguage};
use ion_cli::hash::{hash_line, DigestType};
use ion_cli::stats::{get_depth, ValueShape};
use ion_cli::symtab::{
    count_symbol_tables, count_symbols, filter_out_user_data, symbol_count_step, symbols_countable, SymbolCount, symtab_filter_step, FilterStep, SystemItem,
};
use ion_cli::validation::inline_type_schema;
use ion_rs::ion_hash::IonHasher;
use ion_rs::Element;

fn hex(bytes: &[u8]) -> String {
    bytes.iter().map(|b| format!("{:02x}", b)).collect()
}

#[test]
fn hash_line_is_the_ion_hash_of_the_value() {
    let element = Element::read_one("{a: 1, b: [\"x\", y]}").unwrap();
    let digest = <sha2::Sha256 as IonHasher>::hash_element(&element).unwrap().to_vec();
    let line = hash_line(DigestType::Sha256, &element, false).unwrap();
    assert_eq!(line, format!("{}\n", hex(&digest)).into_bytes());
    let raw = hash_line(DigestType::Sha256, &element, true).unwrap();
    let mut expected = digest.clone();
    expected.push(b'\n');
    assert_eq!(raw, expected);
}

#[test]
fn hash_lengths_of_each_algorithm() {
    let element = Element::read_one("hello").unwrap();
    for (digest, len) in [
        (DigestType::Sha256, 32),
        (DigestType::Sha512, 64),
        (DigestType::Sha3_256, 32),
        (DigestType::Sha3_512, 64),
    ] {
        let line = hash_line(digest, &element, true).unwrap();
        assert_eq!(line.len(), len + 1);
    }
    let sha3 = <sha3::Sha3_512 as IonHasher>::hash_element(&element).unwrap().to_vec();
    let line = hash_line(DigestType::Sha3_512, &element, false).unwrap();
    assert_eq!(String::from_utf8(line).unwrap(), format!("{}\n", hex(&sha3)));
}

#[test]
fn digest_names_round_trip() {
    for d in DigestType::variants() {
        assert_eq!(DigestType::from_name(d.name()), Some(d));
    }
    assert_eq!(DigestType::from_name("md5"), None);
}

#[test]
fn string_filters() {
    assert_eq!(upper_camel(Some("my_struct")), Ok("MyStruct".to_string()));
    assert_eq!(camel(Some("my_struct")), Ok("myStruct".to_string()));
    assert_eq!(snake(Some("MyStruct")), Ok("my_struct".to_string()));
    assert_eq!(upper_camel(None), Err("the `upper_camel` filter only accepts strings".to_string()));
    assert_eq!(camel(None), Err("Required string for this filter".to_string()));
    assert_eq!(snake(None), Err("Required string for this filter".to_string()));
}

#[test]
fn field_names_filter() {
    let names = vec!["foo".to_string(), "bar".to_string()];
    assert_eq!(field_names(Some(&names)), Ok(names.clone()));
    assert_eq!(field_names(None), Err("Required object for `keys` filter".to_string()));
}

#[test]
fn type_filters() {
    assert_eq!(is_built_in_type::<JavaLanguage>(Some("String")), Ok(true));
    assert_eq!(is_built_in_type::<JavaLanguage>(Some("Foo")), Ok(false));
    assert_eq!(is_built_in_type::<RustLanguage>(Some("i64")), Ok(true));
    assert_eq!(
        is_built_in_type::<RustLanguage>(None),
        Err("Required string for the `is_built_in_type` filter".to_string())
    );
    assert_eq!(primitive_data_type(Some("Integer")), Ok("int".to_string()));
    assert_eq!(
        primitive_data_type(None),
        Err("Required string for `primitive_data_type` filter".to_string())
    );
    let list = FullyQualifiedTypeReference {
        qualified_name: vec!["java".to_string(), "util".to_string(), "ArrayList".to_string()],
        parameters: vec![FullyQualifiedTypeReference { qualified_name: vec!["String".to_string()], parameters: vec![] }],
    };
    assert_eq!(parameters::<JavaLanguage>(&list), vec!["String".to_string()]);
    assert_eq!(fully_qualified_type_name::<JavaLanguage>(&list), "java.util.ArrayList<String>");
}

#[test]
fn generate_converts_each_named_type() {
    let mut generator = CodeGenerator::<RustLanguage>::new();
    let types = vec![
        IslType { name: Some("first".to_string()), constraints: vec![IslConstraint::Type(IslTypeRef::Named("int".to_string()))] },
        IslType { name: Some("second".to_string()), constraints: vec![IslConstraint::Type(IslTypeRef::Named("string".to_string()))] },
    ];
    let nodes = generator.generate(&types).unwrap().unwrap();
    assert_eq!(nodes.len(), 2);
    assert_eq!(nodes[0].name, "First");
    assert_eq!(nodes[1].name, "Second");
    assert!(generator.current_type_fully_qualified_name.is_empty());
    assert_eq!(generator.data_model_store.len(), 2);
}

#[test]
fn generate_stops_at_a_type_without_name() {
    let mut generator = CodeGenerator::<JavaLanguage>::new(vec!["org".to_string(), "example".to_string()]);
    let types = vec![IslType { name: None, constraints: vec![] }];
    assert!(generator.generate(&types).is_none());
}

#[test]
fn depth_reports_the_deepest_value() {
    let deep = || ValueShape::Container(vec![ValueShape::Container(vec![ValueShape::Scalar])]);
    let shallow = || ValueShape::Container(vec![ValueShape::Scalar]);
    assert_eq!(get_depth(&vec![]), 0);
    assert_eq!(get_depth(&vec![shallow(), deep()]), 2);
    assert_eq!(get_depth(&vec![deep(), shallow()]), 2);
    // `[[1]] 2`
    assert_eq!(get_depth(&vec![deep(), ValueShape::Scalar]), 2);
}

#[test]
fn inline_type_schema_document() {
    let text = inline_type_schema("$ion_schema_2_0", "my_type", "{fields:{foo:int}}");
    let expected = "\n                    $ion_schema_2_0\n                    type::{\n                      name: my_type,\n                      type: {fields:{foo:int}}\n                    }\n                    ";
    assert_eq!(text, expected);
}

#[test]
fn symtab_filter_keeps_markers_and_tables() {
    let marker = SystemItem::VersionMarker { bytes: vec![0xe0, 0x01, 0x00, 0xea] };
    assert_eq!(
        symtab_filter_step(&marker, false, false),
        Ok(FilterStep::Write(vec![0xe0, 0x01, 0x00, 0xea]))
    );
    let table = SystemItem::SymbolTable { encoded: Some((b"$ion_symbol_table::{}".to_vec(), b"{}".to_vec())) };
    assert_eq!(
        symtab_filter_step(&table, false, true),
        Ok(FilterStep::Write(b"$ion_symbol_table::{}\n".to_vec()))
    );
    assert_eq!(symtab_filter_step(&table, true, true), Ok(FilterStep::Write(b"{}\n".to_vec())));
    assert_eq!(symtab_filter_step(&SystemItem::Value { table_len: 12 }, false, true), Ok(FilterStep::Skip));
    assert_eq!(symtab_filter_step(&SystemItem::EndOfStream, false, true), Ok(FilterStep::Stop));
    assert_eq!(
        symtab_filter_step(&SystemItem::SymbolTable { encoded: None }, false, true),
        Err("found an ephemeral symbol table, which is not yet supported".to_string())
    );
}

#[test]
fn symtab_counts() {
    let items = vec![
        SystemItem::VersionMarker { bytes: vec![0xe0, 0x01, 0x00, 0xea] },
        SystemItem::SymbolTable { encoded: None },
        SystemItem::Value { table_len: 12 },
        SystemItem::SymbolTable { encoded: None },
        SystemItem::Value { table_len: 13 },
        SystemItem::EndOfStream,
        SystemItem::SymbolTable { encoded: None },
    ];
    assert_eq!(count_symbol_tables(&items), 2);
    let mut state = SymbolCount::new();
    for item in &items {
        let (next, stop) = symbol_count_step(state, item);
        state = next;
        if stop {
            break;
        }
    }
    // each symbol table counts once, by its symbols beyond the ten system symbols
    assert_eq!(state.count, 2 + 3);
}

#[test]
fn symbol_count_counts_each_table_once() {
    // one symbol table of 4 symbols, then three values under it
    let items = vec![
        SystemItem::SymbolTable { encoded: None },
        SystemItem::Value { table_len: 14 },
        SystemItem::Value { table_len: 14 },
        SystemItem::Value { table_len: 14 },
        SystemItem::EndOfStream,
    ];
    let mut state = SymbolCount::new();
    for item in &items {
        let (next, stop) = symbol_count_step(state, item);
        state = next;
        if stop {
            break;
        }
    }
    assert_eq!(state.count, 4);
}

#[test]
fn symtab_filter_whole_stream() {
    let table = || SystemItem::SymbolTable { encoded: Some((b"$ion_symbol_table::{}".to_vec(), b"{}".to_vec())) };
    let items = vec![
        SystemItem::VersionMarker { bytes: b"$ion_1_0".to_vec() },
        SystemItem::Value { table_len: 10 },
        table(),
        SystemItem::Value { table_len: 11 },
        SystemItem::EndOfStream,
        SystemItem::SymbolTable { encoded: None },
    ];
    assert_eq!(
        filter_out_user_data(&items, false, true),
        Ok(b"$ion_1_0\n$ion_symbol_table::{}\n".to_vec())
    );
    assert_eq!(filter_out_user_data(&items, true, false), Ok(b"$ion_1_0{}".to_vec()));
    let bad = vec![table(), SystemItem::SymbolTable { encoded: None }, SystemItem::EndOfStream];
    assert_eq!(
        filter_out_user_data(&bad, false, true),
        Err("found an ephemeral symbol table, which is not yet supported".to_string())
    );
}

#[test]
fn java_boolean_uses_its_wrapper_class() {
    assert_eq!(JavaLanguage::wrapper_class("boolean"), Some("Boolean".to_string()));
    assert_eq!(JavaLanguage::wrapper_class("int"), Some("Integer".to_string()));
    assert_eq!(JavaLanguage::wrapper_class("String"), None);
}

#[test]
fn each_algorithm_gives_its_own_digest() {
    let element = Element::read_one("{a: 1, b: [\"x\", y]}").unwrap();
    let expected = [
        (DigestType::Sha256, <sha2::Sha256 as IonHasher>::hash_element(&element).unwrap().to_vec()),
        (DigestType::Sha512, <sha2::Sha512 as IonHasher>::hash_element(&element).unwrap().to_vec()),
        (DigestType::Sha3_256, <sha3::Sha3_256 as IonHasher>::hash_element(&element).unwrap().to_vec()),
        (DigestType::Sha3_512, <sha3::Sha3_512 as IonHasher>::hash_element(&element).unwrap().to_vec()),
    ];
    for (digest, bytes) in expected {
        assert_eq!(digest.hash_it(&element).unwrap(), bytes);
    }
}

#[test]
fn count_symbols_of_a_stream() {
    let items = vec![
        SystemItem::SymbolTable { encoded: None },
        SystemItem::Value { table_len: 14 },
        SystemItem::Value { table_len: 14 },
        SystemItem::SymbolTable { encoded: None },
        SystemItem::Value { table_len: 12 },
        SystemItem::EndOfStream,
        SystemItem::Value { table_len: 3 },
    ];
    assert!(symbols_countable(&items));
    assert_eq!(count_symbols(&items), 4 + 2);
    let bad = vec![SystemItem::Value { table_len: 3 }, SystemItem::EndOfStream];
    assert!(!symbols_countable(&bad));
}

use ion_cli::inspect::{BytesKind, IonInspector};
use ion_cli::inspector::{
    inspect_item, table_end, table_header, AnnotationsItem, ContainerKind, Encoded, FieldName,
    Piece, RawSymbol, ScalarSource, SymbolTableItem, TopEntry, TopItem, ValueItem,
};

fn text(pieces: &[Piece]) -> String {
    pieces.iter().map(|p| p.text.as_str()).collect()
}

fn scalar(offset: usize, bytes: Vec<u8>, text: &str, symbol_id: Option<usize>) -> ValueItem {
    let encoded = Encoded {
        offset,
        length: bytes.len(),
        parts: vec![
            (BytesKind::Opcode, bytes[..1].to_vec()),
            (BytesKind::TrailingLength, vec![]),
            (BytesKind::ValueBody, bytes[1..].to_vec()),
        ],
    };
    ValueItem::Scalar {
        range: Some((offset, offset + bytes.len())),
        name: None,
        annotations: None,
        text: text.to_string(),
        is_string: false,
        source: ScalarSource::Literal { encoded, symbol_id },
    }
}

fn run(ins: &mut IonInspector, entries: Vec<TopEntry>) -> String {
    let mut out = table_header();
    let mut printed = false;
    let mut is_first = true;
    for e in entries {
        let stop = inspect_item(ins, &mut out, &mut printed, is_first, &e);
        is_first = false;
        if stop {
            break;
        }
    }
    out.push(table_end());
    text(&out)
}

const ROW_START: &str = "│ ";

#[test]
fn version_marker_row() {
    let mut ins = IonInspector::new(0, usize::MAX, false);
    let mut out = Vec::new();
    let mut printed = false;
    let entry = TopEntry {
        range: Some((0, 4)),
        ephemeral: false,
        item: TopItem::VersionMarker { offset: 0, bytes: vec![0xe0, 0x01, 0x00, 0xea], major: 1, minor: 0 },
    };
    let stop = inspect_item(&mut ins, &mut out, &mut printed, true, &entry);
    assert!(!stop);
    assert_eq!(
        text(&out),
        format!(
            "\n{ROW_START}{:>12} │ {:>12} │ e0 01 00 ea {}│ $ion_1_0 // Version marker",
            0, 4, "   ".repeat(4)
        )
    );
    assert_eq!(out[2].style, BytesKind::VersionMarker.style());
}

#[test]
fn scalar_row_with_symbol_id() {
    let mut ins = IonInspector::new(0, usize::MAX, false);
    let mut out = Vec::new();
    let mut printed = false;
    let entry = TopEntry {
        range: Some((4, 6)),
        ephemeral: false,
        item: TopItem::Value(scalar(4, vec![0x71, 0x0a], "name", Some(10))),
    };
    inspect_item(&mut ins, &mut out, &mut printed, false, &entry);
    let t = text(&out);
    assert!(t.starts_with("\n├──────────────┼──────────────┼─────────────────────────┤\n"));
    assert!(t.ends_with(&format!(
        "{ROW_START}{:>12} │ {:>12} │ 71 0a {}│ name // $10",
        4, 2, "   ".repeat(6)
    )));
}

#[test]
fn long_scalar_takes_several_rows() {
    let mut ins = IonInspector::new(0, usize::MAX, false);
    let mut out = Vec::new();
    let mut printed = false;
    let bytes: Vec<u8> = (0x80..0x8a).collect();
    let entry = TopEntry {
        range: Some((0, 10)),
        ephemeral: false,
        item: TopItem::Value(scalar(0, bytes, "\"abcdefghi\"", None)),
    };
    inspect_item(&mut ins, &mut out, &mut printed, true, &entry);
    let t = text(&out);
    let blank = format!("{ROW_START}{:12} │ {:12} │ ", "", "");
    assert!(t.contains(&format!("80 81 82 83 84 85 86 87 │ \"abcdefghi\"\n{blank}88 89 {}│ ", "   ".repeat(6))));
}

#[test]
fn struct_with_annotations_and_fields() {
    let mut ins = IonInspector::new(0, usize::MAX, false);
    let name = FieldName {
        literal: Some((
            Encoded { offset: 8, length: 1, parts: vec![(BytesKind::FieldId, vec![0x8a])] },
            RawSymbol::Id(10),
        )),
        text: "foo".to_string(),
        name: Some("foo".to_string()),
    };
    let field = match scalar(9, vec![0x21, 0x05], "5", None) {
        ValueItem::Scalar { annotations, text, is_string, source, .. } => ValueItem::Scalar {
            range: Some((8, 11)),
            name: Some(name),
            annotations,
            text,
            is_string,
            source,
        },
        other => other,
    };
    let value = ValueItem::Container {
        range: Some((4, 11)),
        name: None,
        annotations: Some(AnnotationsItem::Literal {
            encoded: Encoded {
                offset: 4,
                length: 3,
                parts: vec![(BytesKind::AnnotationsHeader, vec![0xe3, 0x81]), (BytesKind::AnnotationsSequence, vec![0x8b])],
            },
            names: vec![Some("a".to_string())],
            raw: vec![RawSymbol::Id(11)],
        }),
        kind: ContainerKind::Struct,
        header: Some(Encoded {
            offset: 7,
            length: 4,
            parts: vec![(BytesKind::Opcode, vec![0xd3]), (BytesKind::TrailingLength, vec![])],
        }),
        members: vec![field],
    };
    let t = run(&mut ins, vec![TopEntry { range: Some((4, 11)), ephemeral: false, item: TopItem::Value(value) }]);
    assert!(t.contains("e3 81 8b "));
    assert!(t.contains("a:: // $11"));
    assert!(t.contains("d3 "));
    assert!(t.contains("│ {"));
    assert!(t.contains("· foo:  // $10"));
    assert!(t.contains("· 5,"));
    assert!(t.contains("│ }"));
    assert!(t.ends_with("\n└──────────────┴──────────────┴─────────────────────────┘"));
}

#[test]
fn skipped_items_get_one_notice() {
    let mut ins = IonInspector::new(6, usize::MAX, false);
    let entries = vec![
        TopEntry { range: Some((0, 2)), ephemeral: false, item: TopItem::Value(scalar(0, vec![0x21, 0x01], "1", None)) },
        TopEntry { range: Some((2, 4)), ephemeral: false, item: TopItem::Value(scalar(2, vec![0x21, 0x02], "2", None)) },
        TopEntry { range: Some((4, 6)), ephemeral: false, item: TopItem::Value(scalar(4, vec![0x21, 0x03], "3", None)) },
        TopEntry { range: Some((6, 8)), ephemeral: false, item: TopItem::Value(scalar(6, vec![0x21, 0x04], "4", None)) },
    ];
    let t = run(&mut ins, entries);
    assert_eq!(t.matches("// ...skipping stream items...").count(), 1);
    assert!(!t.contains("21 01") && !t.contains("21 03"));
    assert!(t.contains("│ 4"));
}

#[test]
fn limit_stops_the_table() {
    let mut ins = IonInspector::new(0, 2, false);
    let entries = vec![
        TopEntry { range: Some((0, 2)), ephemeral: false, item: TopItem::Value(scalar(0, vec![0x21, 0x01], "1", None)) },
        TopEntry { range: Some((2, 4)), ephemeral: false, item: TopItem::Value(scalar(2, vec![0x21, 0x02], "2", None)) },
        TopEntry { range: Some((4, 6)), ephemeral: false, item: TopItem::Value(scalar(4, vec![0x21, 0x03], "3", None)) },
    ];
    let t = run(&mut ins, entries);
    assert!(t.contains("│ 1"));
    assert!(t.contains("// --limit-bytes 2 reached, ending."));
    assert!(!t.contains("21 02") && !t.contains("21 03"), "{t}");
}

#[test]
fn end_of_stream_row() {
    let mut ins = IonInspector::new(0, usize::MAX, false);
    let mut out = Vec::new();
    let mut printed = false;
    let entry = TopEntry { range: Some((8, 8)), ephemeral: false, item: TopItem::EndOfStream { position: 8 } };
    assert!(inspect_item(&mut ins, &mut out, &mut printed, false, &entry));
    assert!(text(&out).ends_with("│ // End of stream"));
    assert!(!text(&out).contains("├"));
}

#[test]
fn symbol_table_symbols_get_ids() {
    let mut ins = IonInspector::new(0, usize::MAX, false);
    let string = |offset: usize, s: &str| match scalar(offset, vec![0x83, b'a', b'b', b'c'], s, None) {
        ValueItem::Scalar { range, name, annotations, text, source, .. } => {
            ValueItem::Scalar { range, name, annotations, text, is_string: true, source }
        }
        other => other,
    };
    let symbols = ValueItem::Container {
        range: Some((10, 20)),
        name: Some(FieldName {
            literal: Some((Encoded { offset: 10, length: 1, parts: vec![(BytesKind::FieldId, vec![0x87])] }, RawSymbol::Id(7))),
            text: "symbols".to_string(),
            name: Some("symbols".to_string()),
        }),
        annotations: None,
        kind: ContainerKind::List,
        header: Some(Encoded { offset: 11, length: 9, parts: vec![(BytesKind::Opcode, vec![0xb8]), (BytesKind::TrailingLength, vec![])] }),
        members: vec![string(12, "\"abc\""), scalar(16, vec![0x20], "0", None), string(17, "\"def\"")],
    };
    let table = SymbolTableItem {
        annotations: None,
        header: Encoded { offset: 8, length: 12, parts: vec![(BytesKind::Opcode, vec![0xd9]), (BytesKind::TrailingLength, vec![])] },
        fields: vec![symbols],
        table_len: 12,
        is_append: false,
    };
    let t = run(&mut ins, vec![TopEntry { range: Some((4, 20)), ephemeral: false, item: TopItem::SymbolTable(table) }]);
    assert!(t.contains("\"abc\", // -> $10"));
    assert!(t.contains("0, // -> $11 (no text)"));
    assert!(t.contains("\"def\", // -> $12"));
    assert!(t.contains("],"));
}

use ion_cli::stats::{analyze_items, calculate_depth, next_after, top_level_max_depth, Next, StreamItem, StreamStats, ValueShape};
use ion_rs::{
    v1_0, AnyEncoding, ElementReader, ElementWriter, HasSpan, IonResult, LazyValue, Reader,
    SystemReader, SystemStreamItem, ValueRef, Writer,
};

/// The shape of a value read from a stream.
fn shape_of(value: LazyValue<AnyEncoding>) -> IonResult<ValueShape> {
    let mut children = Vec::new();
    match value.read()? {
        ValueRef::Struct(s) => {
            for field in s {
                children.push(shape_of(field?.value())?);
            }
        }
        ValueRef::List(l) => {
            for element in l {
                children.push(shape_of(element?)?);
            }
        }
        ValueRef::SExp(l) => {
            for element in l {
                children.push(shape_of(element?)?);
            }
        }
        _ => return Ok(ValueShape::Scalar),
    }
    Ok(ValueShape::Container(children))
}

/// Reads the items of a stream, up to its end or an incomplete value, and gathers their
/// statistics with the library.
fn analyze_data_stream(reader: &mut SystemReader<AnyEncoding, &[u8]>) -> IonResult<StreamStats> {
    let mut items = Vec::new();
    loop {
        let item = match reader.next_item() {
            Err(e) => StreamItem::Error { incomplete: matches!(e, ion_rs::IonError::Incomplete(..)) },
            Ok(SystemStreamItem::EndOfStream(_)) => StreamItem::EndOfStream,
            Ok(SystemStreamItem::VersionMarker(_)) => StreamItem::VersionMarker,
            Ok(SystemStreamItem::SymbolTable(_)) => StreamItem::SymbolTable,
            Ok(system_value @ SystemStreamItem::Value(raw_value)) => {
                let size = system_value
                    .raw_stream_item()
                    .map(|v| v.span().bytes().len())
                    .unwrap_or(0);
                let shape = shape_of(raw_value)?;
                StreamItem::Value { size, depth: top_level_max_depth(&shape) }
            }
            Ok(other) => panic!("Unsupported system stream item: {other:?}"),
        };
        let next = next_after(&item);
        items.push(item);
        if next == Next::Stop {
            break;
        }
    }
    let version = reader.detected_encoding().version();
    let table_len = reader.symbol_table().len();
    Ok(analyze_items(&items, table_len, true, version.system_symbol_table().len()))
}

#[test]
fn stats_test_analyze() -> IonResult<()> {
    let expect_out = StreamStats {
        size_vec: Vec::from([11, 16, 7, 7]),
        symtab_count: 4,
        symbols_count: 8,
        max_depth: 2,
        unparseable_count: 0,
    };
    let test_data: &str = r#"
    {
        foo: bar,
        abc: [123, 456]
    }
    {
        foo: baz,
        abc: [42.0, 43e0]
    }
    {
        foo: bar,
        test: data
    }
    {
        foo: baz,
        type: struct
    }
    "#;

    let buffer = {
        let mut buffer = Vec::new();
        let mut writer = Writer::new(v1_0::Binary, &mut buffer)?;
        for element in Reader::new(AnyEncoding, test_data.as_bytes())?.elements() {
            writer.write_element(&element.unwrap())?;
            writer.flush()?;
        }
        drop(writer);
        buffer
    };
    let mut reader = SystemReader::new(AnyEncoding, buffer.as_slice());
    let stats = analyze_data_stream(&mut reader)?;
    assert_eq!(stats, expect_out);
    Ok(())
}

fn list(children: Vec<ValueShape>) -> ValueShape {
    ValueShape::Container(children)
}

#[test]
fn depth_of_scalars_and_empty_containers_is_zero() {
    assert_eq!(calculate_depth(&ValueShape::Scalar, 0), 0);
    assert_eq!(calculate_depth(&list(vec![]), 0), 0);
    assert_eq!(top_level_max_depth(&list(vec![])), 0);
    assert_eq!(calculate_depth(&ValueShape::Scalar, 3), 3);
}

#[test]
fn both_depth_algorithms_agree() {
    // [[1], [[2], []], 3]
    let value = list(vec![
        list(vec![ValueShape::Scalar]),
        list(vec![list(vec![ValueShape::Scalar]), list(vec![])]),
        ValueShape::Scalar,
    ]);
    assert_eq!(calculate_depth(&value, 0), 3);
    assert_eq!(top_level_max_depth(&value), 3);
    // an empty container inside counts only its own level
    let shallow = list(vec![list(vec![])]);
    assert_eq!(calculate_depth(&shallow, 0), 1);
    assert_eq!(top_level_max_depth(&shallow), 1);
}

#[test]
fn stream_stats_record_items() {
    let mut stats = StreamStats::new();
    assert_eq!(stats.record(StreamItem::VersionMarker), Next::Continue);
    assert_eq!(stats.record(StreamItem::SymbolTable), Next::Continue);
    assert_eq!(stats.record(StreamItem::Value { size: 5, depth: 2 }), Next::Continue);
    assert_eq!(stats.record(StreamItem::Value { size: 9, depth: 1 }), Next::Continue);
    assert_eq!(stats.record(StreamItem::Error { incomplete: false }), Next::Continue);
    assert_eq!(stats.record(StreamItem::Error { incomplete: true }), Next::Stop);
    assert_eq!(stats.size_vec, vec![5, 9]);
    assert_eq!(stats.symtab_count, 1);
    assert_eq!(stats.max_depth, 2);
    assert_eq!(stats.unparseable_count, 2);
    assert_eq!(stats.record(StreamItem::EndOfStream), Next::Stop);
    stats.set_symbols_count(12, true, 9);
    assert_eq!(stats.symbols_count, 3);
    stats.set_symbols_count(12, false, 9);
    assert_eq!(stats.symbols_count, 12);
}

#[test]
fn report_tail_lines() {
    let mut stats = StreamStats::new();
    stats.set_symbols_count(17, true, 9);
    stats.record(StreamItem::SymbolTable);
    stats.record(StreamItem::Value { size: 3, depth: 4 });
    assert_eq!(
        stats.report_tail(),
        "Symbols: 8 \nLocal symbol tables: 1 \nMaximum container depth: 4\n"
    );
    stats.record(StreamItem::Error { incomplete: false });
    assert_eq!(
        stats.report_tail(),
        "Symbols: 8 \nLocal symbol tables: 1 \nMaximum container depth: 4\nUnparseable values: 1\n"
    );
}

#[test]
fn analyze_items_stops_at_an_incomplete_value() {
    let items = vec![
        StreamItem::VersionMarker,
        StreamItem::SymbolTable,
        StreamItem::Value { size: 5, depth: 1 },
        StreamItem::Error { incomplete: false },
        StreamItem::Value { size: 9, depth: 3 },
        StreamItem::Error { incomplete: true },
        StreamItem::Value { size: 100, depth: 7 },
    ];
    let stats = analyze_items(&items, 14, true, 10);
    assert_eq!(
        stats,
        StreamStats { size_vec: vec![5, 9], symtab_count: 1, symbols_count: 4, max_depth: 3, unparseable_count: 2 }
    );
}

use ion_cli::hash::{digest_line, DigestType};
use ion_cli::inspect::{
    confirm_encoding_is_supported, hex_contents, indentation, inspect_limits, limiting_comment,
    row_prefix, skipping_comment, BytesFormatter, BytesKind, Color, InspectorAction, IonBytes,
    IonInspector, Notice, Segment, Style,
};
use ion_cli::commands::io::Encoding;

fn texts(segments: &[Segment]) -> String {
    segments.iter().map(|s| s.text.as_str()).collect()
}

#[test]
fn hex_contents_of_bytes() {
    let bytes = vec![0xe0, 0x01, 0x00, 0xea];
    assert_eq!(hex_contents(&bytes, 0, 4), "e0 01 00 ea");
    assert_eq!(hex_contents(&bytes, 1, 2), "01");
    assert_eq!(hex_contents(&bytes, 2, 2), "");
}

#[test]
fn rows_of_bytes_across_slices() {
    let mut formatter = BytesFormatter::new(
        4,
        vec![
            IonBytes::new(BytesKind::Opcode, vec![0xd3]),
            IonBytes::new(BytesKind::FieldId, vec![]),
            IonBytes::new(BytesKind::ValueBody, vec![1, 2, 3, 4, 5]),
        ],
    );
    let mut row = Vec::new();
    formatter.write_row(&mut row);
    assert_eq!(texts(&row), "d3 01 02 03 ");
    assert_eq!(row[0].kind, Some(BytesKind::Opcode));
    assert_eq!(row[2].kind, Some(BytesKind::ValueBody));
    let mut row = Vec::new();
    formatter.write_row(&mut row);
    // the last two bytes, then padding for the two missing ones
    assert_eq!(texts(&row), "04 05       ");
    assert!(formatter.is_empty());
    let mut row = Vec::new();
    formatter.write_row(&mut row);
    assert_eq!(texts(&row), "            ");
}

#[test]
fn styles_of_bytes() {
    assert_eq!(BytesKind::FieldId.style().fg, Some(Color::Cyan));
    assert_eq!(
        BytesKind::Opcode.style(),
        Style {
            fg: Some(Color::Rgb(0, 0, 0)),
            bg: Some(Color::Rgb(255, 255, 255)),
            bold: true,
            intense: false,
            underline: false,
            dimmed: false
        }
    );
    assert!(BytesKind::TrailingLength.style().underline);
}

#[test]
fn skipping_and_limits() {
    let mut inspector = IonInspector::new(10, 20, false);
    let mut printed = false;
    assert_eq!(inspector.select_action(&mut printed, Some((0, 4))), (InspectorAction::Skip, Some(Notice::Skipping)));
    assert!(printed);
    assert_eq!(inspector.select_action(&mut printed, Some((4, 10))), (InspectorAction::Skip, None));
    assert_eq!(inspector.select_action(&mut printed, Some((10, 14))), (InspectorAction::Inspect, None));
    assert!(inspector.skip_complete);
    assert_eq!(inspector.select_action(&mut printed, None), (InspectorAction::Inspect, None));
    assert_eq!(
        inspector.select_action(&mut printed, Some((30, 31))),
        (InspectorAction::LimitReached, Some(Notice::LimitReached))
    );
    let unlimited = IonInspector::new(5, usize::MAX, false);
    assert!(!unlimited.is_past_limit(Some((usize::MAX - 1, usize::MAX))));
    assert!(unlimited.is_past_limit(Some((usize::MAX, usize::MAX))));
}

#[test]
fn inspect_arguments() {
    assert_eq!(inspect_limits("0", "0"), Ok((0, usize::MAX)));
    assert_eq!(inspect_limits("+12", "40"), Ok((12, 40)));
    assert_eq!(
        inspect_limits("-1", "0"),
        Err("Invalid value for '--skip-bytes': '-1'".to_string())
    );
    assert_eq!(
        inspect_limits("1", "lots"),
        Err("Invalid value for '--limit-bytes': 'lots'".to_string())
    );
    assert!(confirm_encoding_is_supported(Encoding::Binary10).is_ok());
    assert_eq!(
        confirm_encoding_is_supported(Encoding::Text10),
        Err("`inspect` does not support text Ion streams.".to_string())
    );
}

#[test]
fn table_texts() {
    assert_eq!(row_prefix("0", "4"), "│            0 │            4 │ ");
    assert_eq!(row_prefix("", ""), "│              │              │ ");
    assert_eq!(indentation(2), "· · ");
    assert_eq!(skipping_comment("stream items"), "// ...skipping stream items...");
    assert_eq!(limiting_comment(100, "ending"), "// --limit-bytes 100 reached, ending.");
}

#[test]
fn digest_lines() {
    assert_eq!(digest_line(&vec![0x0f, 0xa0], false), b"0fa0\n".to_vec());
    assert_eq!(digest_line(&vec![0x0f, 0xa0], true), vec![0x0f, 0xa0, 10]);
    assert_eq!(DigestType::from_name("sha3-256"), Some(DigestType::Sha3_256));
    assert_eq!(DigestType::from_name("md5"), None);
    assert_eq!(DigestType::Sha512.name(), "sha-512");
    assert_eq!(DigestType::variants().len(), 4);
}

#[test]
fn every_row_is_three_characters_per_byte() {
    for width in 1..7usize {
        let mut formatter = BytesFormatter::new(
            width,
            vec![
                IonBytes::new(BytesKind::Opcode, vec![0xe0]),
                IonBytes::new(BytesKind::ValueBody, vec![1, 2, 3, 4, 5, 6, 7]),
            ],
        );
        for _ in 0..4 {
            let mut row = Vec::new();
            formatter.write_row(&mut row);
            assert_eq!(texts(&row).chars().count(), 3 * width);
        }
    }
}

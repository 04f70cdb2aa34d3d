use ion_cli::primitive::{encode_primitive, integer_from_text, primitive_report};

#[test]
fn integers_in_decimal() {
    assert_eq!(integer_from_text("42"), Ok(42));
    assert_eq!(integer_from_text("-7"), Ok(-7));
    assert_eq!(integer_from_text("+7"), Ok(7));
    assert_eq!(integer_from_text("9223372036854775807"), Ok(i64::MAX));
    assert_eq!(integer_from_text("-9223372036854775808"), Ok(i64::MIN));
    assert_eq!(
        integer_from_text("9223372036854775808"),
        Err("9223372036854775808 is not a valid decimal integer value.".to_string())
    );
    assert_eq!(integer_from_text("abc"), Err("abc is not a valid decimal integer value.".to_string()));
    assert_eq!(integer_from_text(""), Err(" is not a valid decimal integer value.".to_string()));
    assert_eq!(integer_from_text("-"), Err("- is not a valid decimal integer value.".to_string()));
}

#[test]
fn prefixed_integers_keep_their_prefix() {
    // The prefix is read as part of the number, which no hexadecimal or binary digit allows.
    assert_eq!(
        integer_from_text("0x10"),
        Err("0x10 is not a valid hexidecimal integer value.".to_string())
    );
    assert_eq!(
        integer_from_text("0b101"),
        Err("0b101 is not a valid binary integer value.".to_string())
    );
}

#[test]
fn var_uint_encodings() {
    assert_eq!(encode_primitive("varuint", "0"), Ok(vec![0x80]));
    assert_eq!(encode_primitive("VarUInt", "127"), Ok(vec![0xFF]));
    assert_eq!(encode_primitive("varuint", "128"), Ok(vec![0x01, 0x80]));
    assert_eq!(encode_primitive("varuint", "16384"), Ok(vec![0x01, 0x00, 0x80]));
    // a negative number is encoded as its two's complement
    assert_eq!(
        encode_primitive("varuint", "-1"),
        Ok(vec![0x01, 0x7F, 0x7F, 0x7F, 0x7F, 0x7F, 0x7F, 0x7F, 0x7F, 0xFF])
    );
}

#[test]
fn var_int_encodings() {
    assert_eq!(encode_primitive("varint", "0"), Ok(vec![0x80]));
    assert_eq!(encode_primitive("VarInt", "-1"), Ok(vec![0xC1]));
    assert_eq!(encode_primitive("varint", "63"), Ok(vec![0xBF]));
    assert_eq!(encode_primitive("varint", "64"), Ok(vec![0x00, 0xC0]));
    assert_eq!(encode_primitive("varint", "-64"), Ok(vec![0x40, 0xC0]));
    assert_eq!(
        encode_primitive("varint", "oops"),
        Err("oops is not a valid decimal integer value.".to_string())
    );
}

#[test]
fn report_shows_hex_and_binary() {
    assert_eq!(primitive_report(&vec![0x81]), "hex:       81 \nbin: 10000001 \n");
    assert_eq!(
        primitive_report(&vec![0x01, 0xaf]),
        "hex:       01       af \nbin: 00000001 10101111 \n"
    );
    assert_eq!(primitive_report(&vec![]), "hex: \nbin: \n");
}

use ion_cli::query::{as_index, identifier, number, path, range_window, string, Part, Token};

#[test]
fn test_string() {
    assert_eq!(string(r#""foo bar""#), Ok(("", Token::String("foo bar".to_owned()))));
}

#[test]
fn strings_need_both_quotes() {
    assert!(string(r#""foo"#).is_err());
    assert!(string("foo").is_err());
    assert_eq!(string(r#""a"b"#), Ok(("b", Token::String("a".to_owned()))));
}

#[test]
fn numbers_stop_at_the_first_non_digit() {
    assert_eq!(number("123b"), Ok(("b", Token::Number(123))));
    assert_eq!(number("-5]"), Ok(("]", Token::Number(-5))));
    assert!(number("+").is_err());
    assert!(number("99999999999999999999").is_err());
}

#[test]
fn identifiers() {
    assert_eq!(identifier("foo.bar"), Ok((".bar", "foo")));
    assert_eq!(identifier("$x_1 rest"), Ok((" rest", "$x_1")));
    assert!(identifier("1abc").is_err());
}

#[test]
fn paths_of_fields_indexes_and_ranges() {
    assert_eq!(path("."), Ok(("", vec![Part::Index(Token::Dot)])));
    assert_eq!(
        path(r#".foo["bar"][0][1:3][:]"#),
        Ok((
            "",
            vec![
                Part::Index(Token::String("foo".to_owned())),
                Part::Index(Token::String("bar".to_owned())),
                Part::Index(Token::Number(0)),
                Part::Range(Some(Token::Number(1)), Some(Token::Number(3))),
                Part::Range(None, None),
            ]
        ))
    );
    assert_eq!(
        path(".a.b rest"),
        Ok((
            " rest",
            vec![
                Part::Index(Token::String("a".to_owned())),
                Part::Index(Token::String("b".to_owned()))
            ]
        ))
    );
    assert_eq!(path(".[2"), Ok(("[2", vec![Part::Index(Token::Dot)])));
    assert!(path("foo").is_err());
}

#[test]
fn token_as_int() {
    assert_eq!(Token::Number(3).as_int(), Ok(3));
    assert_eq!(Token::Dot.as_int(), Err(Token::Dot));
}

#[test]
fn indexes_and_windows() {
    assert_eq!(as_index(5, 1), 1);
    assert_eq!(as_index(5, -1), 4);
    assert_eq!(range_window(5, Some(1), Some(3)), (1, 2));
    assert_eq!(range_window(5, None, Some(-1)), (0, 4));
    assert_eq!(range_window(5, Some(-2), None), (3, 2));
    assert_eq!(range_window(5, Some(4), Some(2)), (4, 0));
}

use bincode_core::error::{Error, ErrorKind};

fn io_fault(text: &str) -> std::io::Error {
    std::io::Error::new(std::io::ErrorKind::Other, text.to_string())
}

fn utf8_fault() -> core::str::Utf8Error {
    core::str::from_utf8(&[0xC3, 0x28]).unwrap_err()
}

#[test]
fn render_io_carries_underlying_text() {
    let inner = io_fault("stream closed");
    let expected = format!("io error: {}", inner);
    let e = Error::from(inner);
    assert_eq!(e.render(), expected);
}

#[test]
fn render_invalid_utf8_carries_underlying_text() {
    let inner = utf8_fault();
    let expected = format!("string is not valid utf8: {}", inner);
    let e = ErrorKind::InvalidUtf8Encoding(inner);
    assert_eq!(e.render(), expected);
}

#[test]
fn render_invalid_bool_found_seven() {
    let e = ErrorKind::InvalidBoolEncoding(7);
    assert_eq!(
        e.render(),
        "invalid u8 while decoding bool, expected 0 or 1, found 7"
    );
}

#[test]
fn decoding_bool_byte_two_renders_found_two() {
    let e = ErrorKind::InvalidBoolEncoding(2);
    assert_eq!(
        e.render(),
        "invalid u8 while decoding bool, expected 0 or 1, found 2"
    );
}

#[test]
fn decoding_tag_five_when_three_tags_are_valid() {
    let tag: usize = 5;
    let valid = 0..=2usize;
    assert!(!valid.contains(&tag));
    let e = ErrorKind::InvalidTagEncoding(tag);
    assert!(matches!(e, ErrorKind::InvalidTagEncoding(5)));
    assert_eq!(e.render(), "tag for enum is not valid: 5");
}

#[test]
fn render_matches_display_formula_for_every_numeric_payload() {
    for b in [0u8, 1, 2, 9, 10, 99, 100, 255] {
        let e = ErrorKind::InvalidBoolEncoding(b);
        assert_eq!(
            e.render(),
            format!("invalid u8 while decoding bool, expected 0 or 1, found {}", b)
        );
    }
    for t in [0usize, 3, 42, 65536, usize::MAX] {
        let e = ErrorKind::InvalidTagEncoding(t);
        assert_eq!(e.render(), format!("tag for enum is not valid: {}", t));
    }
}

#[test]
fn render_fixed_message_variants() {
    assert_eq!(ErrorKind::InvalidCharEncoding.render(), "char is not valid");
    assert_eq!(
        ErrorKind::SequenceMustHaveLength.render(),
        "sequence must have length"
    );
    assert_eq!(
        ErrorKind::SizeLimit.render(),
        "the size limit has been reached"
    );
    assert_eq!(
        ErrorKind::DeserializeAnyNotSupported.render(),
        "Bincode does not support the serde::Deserializer::deserialize_any method"
    );
}

#[test]
fn rendering_is_deterministic() {
    let e = ErrorKind::InvalidTagEncoding(5);
    assert_eq!(e.render(), e.render());
    let inner = io_fault("boom");
    let e = ErrorKind::Io(inner);
    assert_eq!(e.render(), e.render());
}

#[test]
fn io_failure_converts_to_io_variant_without_loss() {
    let inner = io_fault("disk on fire");
    let expected_kind = inner.kind();
    let expected_text = inner.to_string();
    let e = Error::from(inner);
    match *e {
        ErrorKind::Io(ref wrapped) => {
            assert_eq!(wrapped.kind(), expected_kind);
            assert_eq!(wrapped.to_string(), expected_text);
        }
        _ => panic!("conversion must yield the Io variant"),
    }
}

#[test]
fn custom_renders_exactly_its_message() {
    let e = ErrorKind::custom(String::from("the widget count was negative"));
    assert!(matches!(*e, ErrorKind::Custom(_)));
    assert_eq!(e.render(), "the widget count was negative");
}

#[test]
fn custom_keeps_an_empty_message_empty() {
    let e = ErrorKind::custom(String::new());
    assert_eq!(e.render(), "");
}

#[test]
fn description_of_every_variant() {
    assert_eq!(ErrorKind::Io(io_fault("x")).description(), "io error");
    assert_eq!(
        ErrorKind::InvalidUtf8Encoding(utf8_fault()).description(),
        "string is not valid utf8"
    );
    assert_eq!(
        ErrorKind::InvalidBoolEncoding(9).description(),
        "invalid u8 while decoding bool"
    );
    assert_eq!(ErrorKind::InvalidCharEncoding.description(), "char is not valid");
    assert_eq!(
        ErrorKind::InvalidTagEncoding(7).description(),
        "tag for enum is not valid"
    );
    assert_eq!(
        ErrorKind::SequenceMustHaveLength.description(),
        "Bincode can only encode sequences and maps that have a knowable size ahead of time"
    );
    assert_eq!(
        ErrorKind::DeserializeAnyNotSupported.description(),
        "Bincode doesn't support serde::Deserializer::deserialize_any"
    );
    assert_eq!(
        ErrorKind::SizeLimit.description(),
        "the size limit has been reached"
    );
    assert_eq!(
        ErrorKind::Custom(String::from("whatever went wrong")).description(),
        "whatever went wrong"
    );
}

#[test]
fn io_descriptions_share_one_category_text() {
    let a = ErrorKind::Io(io_fault("first fault"));
    let b = ErrorKind::Io(std::io::Error::new(
        std::io::ErrorKind::UnexpectedEof,
        "second fault",
    ));
    assert_eq!(a.description(), b.description());
}

#[test]
fn no_variant_reports_a_cause() {
    let kinds = vec![
        ErrorKind::Io(io_fault("x")),
        ErrorKind::InvalidUtf8Encoding(utf8_fault()),
        ErrorKind::InvalidBoolEncoding(3),
        ErrorKind::InvalidCharEncoding,
        ErrorKind::InvalidTagEncoding(11),
        ErrorKind::DeserializeAnyNotSupported,
        ErrorKind::SizeLimit,
        ErrorKind::SequenceMustHaveLength,
        ErrorKind::Custom(String::from("m")),
    ];
    for k in kinds {
        assert!(k.cause().is_none());
    }
}

#[test]
fn sequence_of_unknown_length_is_refused_with_the_fixed_kind() {
    // An encoder that is handed an iterator without a known length reports
    // this kind; the codec core carries and renders it.
    let it = (0..).take_while(|i| *i < 3);
    assert!(it.size_hint().1.is_none());
    let e: Error = Box::new(ErrorKind::SequenceMustHaveLength);
    assert!(matches!(*e, ErrorKind::SequenceMustHaveLength));
    assert_eq!(e.render(), "sequence must have length");
}

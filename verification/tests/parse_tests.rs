use taper::TaperError;
use taper::WindowType;
use taper::parse_window_type;

#[test]
fn recognized_tags_parse() {
    assert_eq!(parse_window_type("linear"), Ok(WindowType::Linear));
    assert_eq!(parse_window_type("hann"), Ok(WindowType::Hann));
    assert_eq!(parse_window_type("cos"), Ok(WindowType::Cosine));
    assert_eq!(parse_window_type("cosine"), Ok(WindowType::Cosine));
    assert_eq!(parse_window_type("blackman"), Ok(WindowType::Blackman));
}

#[test]
fn tags_are_case_insensitive() {
    assert_eq!(parse_window_type("Linear"), Ok(WindowType::Linear));
    assert_eq!(parse_window_type("HANN"), Ok(WindowType::Hann));
    assert_eq!(parse_window_type("Cosine"), Ok(WindowType::Cosine));
    assert_eq!(parse_window_type("COS"), Ok(WindowType::Cosine));
    assert_eq!(parse_window_type("BlackMan"), Ok(WindowType::Blackman));
}

#[test]
fn unknown_tag_is_rejected_and_buffer_untouched() {
    assert_eq!(
        parse_window_type("triangle"),
        Err(TaperError::UnknownWindowFamily)
    );
    // Parsing happens before any taper is applied, so a rejected tag leaves
    // the caller's buffer exactly as it was.
    let buffer = vec![1.0, 2.0, 3.0];
    let result = parse_window_type("triangle");
    assert!(result.is_err());
    assert_eq!(buffer, vec![1.0, 2.0, 3.0]);
}

#[test]
fn near_misses_are_rejected() {
    assert_eq!(parse_window_type(""), Err(TaperError::UnknownWindowFamily));
    assert_eq!(
        parse_window_type("hann "),
        Err(TaperError::UnknownWindowFamily)
    );
    assert_eq!(
        parse_window_type("lin"),
        Err(TaperError::UnknownWindowFamily)
    );
    assert_eq!(
        parse_window_type("blackmann"),
        Err(TaperError::UnknownWindowFamily)
    );
}

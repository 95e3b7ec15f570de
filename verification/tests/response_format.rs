use ipgeolocation::ResponseFormat;

#[test]
fn response_format_strings_match_wire_values() {
    assert_eq!(ResponseFormat::Json.as_str(), "json");
    assert_eq!(ResponseFormat::Xml.as_str(), "xml");
}

#[test]
fn json_is_the_default_format() {
    assert_eq!(ResponseFormat::default(), ResponseFormat::Json);
}

use cluster_map::{parse, record_from_members, ClusterMap, Field, Member, ParseFailure};

fn record(name: &str, group: i32) -> ClusterMap {
    ClusterMap { name: name.to_string(), group }
}

fn decoder_message(text: &str) -> String {
    match serde_json::from_str::<serde_json::Value>(text) {
        Ok(value) => panic!("decoded {:?}", value),
        Err(error) => error.to_string(),
    }
}

#[test]
fn parse_reads_name_and_group() {
    assert_eq!(parse(r#"{"name":"east","group":10}"#), Ok(record("east", 10)));
}

#[test]
fn parse_without_group_fails() {
    assert_eq!(parse(r#"{"name":"east"}"#), Err(ParseFailure::MissingField(Field::Group)));
}

#[test]
fn parse_without_name_fails() {
    assert_eq!(parse(r#"{"group":10}"#), Err(ParseFailure::MissingField(Field::Name)));
}

#[test]
fn parse_of_an_empty_object_reports_the_name_first() {
    assert_eq!(parse("{}"), Err(ParseFailure::MissingField(Field::Name)));
}

#[test]
fn parse_takes_members_in_any_order_and_with_white_space() {
    let text = "\n{ \"group\" : 42 ,\n  \"name\" : \"west\" }\n";
    assert_eq!(parse(text), Ok(record("west", 42)));
}

#[test]
fn parse_passes_over_other_members() {
    let text = r#"{"zone":"b","name":"east","nodes":[1,2,{"x":null}],"group":10,"live":true}"#;
    assert_eq!(parse(text), Ok(record("east", 10)));
}

#[test]
fn parse_checks_no_range() {
    assert_eq!(parse(r#"{"name":"east","group":150}"#), Ok(record("east", 150)));
    assert_eq!(parse(r#"{"name":"east","group":-7}"#), Ok(record("east", -7)));
}

#[test]
fn parse_accepts_the_ends_of_32_bits() {
    assert_eq!(parse(r#"{"name":"n","group":2147483647}"#), Ok(record("n", i32::MAX)));
    assert_eq!(parse(r#"{"name":"n","group":-2147483648}"#), Ok(record("n", i32::MIN)));
}

#[test]
fn parse_refuses_a_group_beyond_32_bits() {
    let invalid = Err(ParseFailure::InvalidField(Field::Group));
    assert_eq!(parse(r#"{"name":"n","group":2147483648}"#), invalid);
    assert_eq!(parse(r#"{"name":"n","group":-2147483649}"#), invalid);
    assert_eq!(parse(r#"{"name":"n","group":3000000000}"#), invalid);
    assert_eq!(parse(r#"{"name":"n","group":9223372036854775808}"#), invalid);
    assert_eq!(parse(r#"{"name":"n","group":123456789012345678901234567890}"#), invalid);
}

#[test]
fn parse_refuses_a_group_that_is_no_integer() {
    let invalid = Err(ParseFailure::InvalidField(Field::Group));
    assert_eq!(parse(r#"{"name":"n","group":"10"}"#), invalid);
    assert_eq!(parse(r#"{"name":"n","group":10.5}"#), invalid);
    assert_eq!(parse(r#"{"name":"n","group":10.0}"#), invalid);
    assert_eq!(parse(r#"{"name":"n","group":1e1}"#), invalid);
    assert_eq!(parse(r#"{"name":"n","group":null}"#), invalid);
    assert_eq!(parse(r#"{"name":"n","group":true}"#), invalid);
    assert_eq!(parse(r#"{"name":"n","group":[10]}"#), invalid);
    assert_eq!(parse(r#"{"name":"n","group":{"group":10}}"#), invalid);
}

#[test]
fn parse_refuses_a_name_that_is_no_string() {
    let invalid = Err(ParseFailure::InvalidField(Field::Name));
    assert_eq!(parse(r#"{"name":10,"group":10}"#), invalid);
    assert_eq!(parse(r#"{"name":null,"group":10}"#), invalid);
    assert_eq!(parse(r#"{"name":["east"],"group":10}"#), invalid);
    assert_eq!(parse(r#"{"name":false}"#), invalid);
}

#[test]
fn parse_reports_the_name_before_the_group() {
    assert_eq!(parse(r#"{"name":1,"group":"x"}"#), Err(ParseFailure::InvalidField(Field::Name)));
    assert_eq!(parse(r#"{"group":"x"}"#), Err(ParseFailure::MissingField(Field::Name)));
}

#[test]
fn parse_decodes_escapes_in_the_name() {
    assert_eq!(
        parse(r#"{"name":"a\"b\\cé\n","group":1}"#),
        Ok(record("a\"b\\c\u{e9}\n", 1))
    );
    assert_eq!(parse(r#"{"name":"","group":1}"#), Ok(record("", 1)));
}

#[test]
fn parse_looks_at_the_members_of_the_document_only() {
    let nested = r#"{"inner":{"name":"east","group":10}}"#;
    assert_eq!(parse(nested), Err(ParseFailure::MissingField(Field::Name)));
}

#[test]
fn parse_of_a_document_that_is_no_object_finds_no_member() {
    let missing = Err(ParseFailure::MissingField(Field::Name));
    assert_eq!(parse("42"), missing);
    assert_eq!(parse("null"), missing);
    assert_eq!(parse(r#""east""#), missing);
    assert_eq!(parse(r#"["east",10]"#), missing);
}

#[test]
fn parse_of_empty_text_is_malformed() {
    assert_eq!(
        parse(""),
        Err(ParseFailure::Malformed("EOF while parsing a value at line 1 column 0".to_string()))
    );
}

#[test]
fn parse_of_cut_off_text_is_malformed() {
    assert_eq!(
        parse(r#"{"name":"east","group":10"#),
        Err(ParseFailure::Malformed("EOF while parsing an object at line 1 column 25".to_string()))
    );
}

#[test]
fn parse_hands_on_the_decoder_message() {
    for text in ["", "{", "nonsense", r#"{"name" "east"}"#, r#"{"name":"east",}"#, "{'name':1}", "[1,"] {
        assert_eq!(parse(text), Err(ParseFailure::Malformed(decoder_message(text))));
    }
}

#[test]
fn parse_refuses_text_after_the_document() {
    let text = r#"{"name":"east","group":10} {"name":"west","group":11}"#;
    assert_eq!(parse(text), Err(ParseFailure::Malformed(decoder_message(text))));
    assert_eq!(
        parse(r#"{"name":"east","group":10}x"#),
        Err(ParseFailure::Malformed("trailing characters at line 1 column 27".to_string()))
    );
}

#[test]
fn malformed_text_is_told_from_a_missing_member() {
    assert!(matches!(parse(r#"{"name":"east""#), Err(ParseFailure::Malformed(_))));
    assert!(matches!(parse(r#"{"name":"east"}"#), Err(ParseFailure::MissingField(_))));
}

#[test]
fn record_from_members_makes_the_record() {
    assert_eq!(
        record_from_members(Member::Present("east".to_string()), Member::Present(10)),
        Ok(record("east", 10))
    );
    assert_eq!(
        record_from_members(Member::Present("n".to_string()), Member::Present(-2147483648)),
        Ok(record("n", i32::MIN))
    );
    assert_eq!(
        record_from_members(Member::Present("n".to_string()), Member::Present(2147483647)),
        Ok(record("n", i32::MAX))
    );
}

#[test]
fn record_from_members_refuses_an_integer_beyond_32_bits() {
    let invalid = Err(ParseFailure::InvalidField(Field::Group));
    let name = || Member::Present("n".to_string());
    assert_eq!(record_from_members(name(), Member::Present(2147483648)), invalid);
    assert_eq!(record_from_members(name(), Member::Present(-2147483649)), invalid);
    assert_eq!(record_from_members(name(), Member::Present(4294967306)), invalid);
    assert_eq!(record_from_members(name(), Member::Present(i64::MAX)), invalid);
    assert_eq!(record_from_members(name(), Member::Present(i64::MIN)), invalid);
}

#[test]
fn record_from_members_reports_the_first_member_at_fault() {
    let name = || Member::Present("n".to_string());
    assert_eq!(
        record_from_members(Member::Absent, Member::Present(1)),
        Err(ParseFailure::MissingField(Field::Name))
    );
    assert_eq!(
        record_from_members(Member::Mistyped, Member::Present(1)),
        Err(ParseFailure::InvalidField(Field::Name))
    );
    assert_eq!(
        record_from_members(name(), Member::Absent),
        Err(ParseFailure::MissingField(Field::Group))
    );
    assert_eq!(
        record_from_members(name(), Member::Mistyped),
        Err(ParseFailure::InvalidField(Field::Group))
    );
    assert_eq!(
        record_from_members(Member::Absent, Member::Mistyped),
        Err(ParseFailure::MissingField(Field::Name))
    );
    assert_eq!(
        record_from_members(Member::Mistyped, Member::Absent),
        Err(ParseFailure::InvalidField(Field::Name))
    );
}

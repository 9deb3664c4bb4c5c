use cohere_adapter::cohere::parse_response;
use cohere_adapter::json::{parse_string, parse_u32};

#[test]
fn parse_string_decodes_escapes() {
    let (value, next) = parse_string("\"a\\\"b\\\\c\\n\"", 0).unwrap();
    assert_eq!(value, "a\"b\\c\n");
    assert_eq!(next, 11);
}

#[test]
fn parse_string_rejects_unterminated() {
    assert!(parse_string("\"abc", 0).is_none());
    assert!(parse_string("abc\"", 0).is_none());
}

#[test]
fn parse_u32_reads_digit_runs() {
    assert_eq!(parse_u32("123,", 0).unwrap(), (123, 3));
    assert_eq!(parse_u32("4294967295}", 0).unwrap(), (4294967295, 10));
    assert!(parse_u32("4294967296}", 0).is_none());
    assert!(parse_u32("x1", 0).is_none());
}

#[test]
fn parse_response_accepts_wellformed_body() {
    let body = "{\"id\":\"r\",\"generations\":[{\"id\":\"g1\",\"text\":\"one\",\
                 \"finish_reason\":\"COMPLETE\",\"tokens\":1},{\"id\":\"g2\",\"text\":\"two\",\
                 \"finish_reason\":\"MAX_TOKENS\"}],\"message\":\"\",\
                 \"metadata\":{\"api_version\":\"2\",\"input_tokens\":3,\"output_tokens\":4}}";
    let d = parse_response(body).unwrap();
    assert_eq!(d.id, "r");
    assert_eq!(d.generations.len(), 2);
    assert_eq!(d.generations[0].text, "one");
    assert_eq!(d.generations[0].tokens, Some(1));
    assert_eq!(d.generations[1].finish_reason, "MAX_TOKENS");
    assert_eq!(d.generations[1].tokens, None);
    assert_eq!(d.api_version, "2");
    assert_eq!(d.input_tokens, 3);
    assert_eq!(d.output_tokens, 4);
}

#[test]
fn parse_response_accepts_empty_generations() {
    let body = "{\"id\":\"r\",\"generations\":[],\"message\":\"m\",\
                 \"metadata\":{\"api_version\":\"1\",\"input_tokens\":0,\"output_tokens\":0}}";
    let d = parse_response(body).unwrap();
    assert_eq!(d.generations.len(), 0);
}

#[test]
fn parse_response_rejects_malformed_bodies() {
    assert!(parse_response("not json").is_none());
    assert!(parse_response("").is_none());
    // trailing garbage
    let trailing = "{\"id\":\"r\",\"generations\":[],\"message\":\"m\",\
                     \"metadata\":{\"api_version\":\"1\",\"input_tokens\":0,\"output_tokens\":0}}x";
    assert!(parse_response(trailing).is_none());
    // a token count too large for u32
    let overflow = "{\"id\":\"r\",\"generations\":[],\"message\":\"m\",\
                     \"metadata\":{\"api_version\":\"1\",\"input_tokens\":4294967296,\
                     \"output_tokens\":0}}";
    assert!(parse_response(overflow).is_none());
    // a missing field
    let missing = "{\"id\":\"r\",\"generations\":[],\"message\":\"m\"}";
    assert!(parse_response(missing).is_none());
}

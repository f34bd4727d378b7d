use lookup_trigger::request::{parse_word_from_request, text_of_pairs};

fn some(s: &str) -> Option<String> {
    Some(s.to_string())
}

#[test]
fn single_word_is_extracted() {
    assert_eq!(parse_word_from_request("GET /?text=hello HTTP/1.1\r\nHost: x\r\n\r\n"), some("hello"));
}

#[test]
fn encoded_space_is_decoded() {
    assert_eq!(parse_word_from_request("GET /?text=hello%20world HTTP/1.1"), some("hello world"));
}

#[test]
fn plus_is_decoded_as_space() {
    assert_eq!(parse_word_from_request("GET /?text=hello+world HTTP/1.1"), some("hello world"));
}

#[test]
fn utf8_escapes_are_decoded() {
    assert_eq!(parse_word_from_request("GET /?text=caf%C3%A9 HTTP/1.1"), some("caf\u{e9}"));
}

#[test]
fn first_text_key_wins_among_others() {
    assert_eq!(parse_word_from_request("GET /?lang=en&text=one&text=two HTTP/1.1"), some("one"));
}

#[test]
fn missing_query_is_none() {
    assert_eq!(parse_word_from_request("GET / HTTP/1.1"), None);
}

#[test]
fn other_keys_only_is_none() {
    assert_eq!(parse_word_from_request("GET /?word=hello HTTP/1.1"), None);
}

#[test]
fn empty_text_is_none() {
    assert_eq!(parse_word_from_request("GET /?text= HTTP/1.1"), None);
    assert_eq!(parse_word_from_request("GET /?text HTTP/1.1"), None);
}

#[test]
fn malformed_requests_are_none() {
    assert_eq!(parse_word_from_request(""), None);
    assert_eq!(parse_word_from_request("GET"), None);
    assert_eq!(parse_word_from_request("\nGET /?text=hello HTTP/1.1"), None);
    assert_eq!(parse_word_from_request("\u{fffd}\u{fffd}\u{fffd}"), None);
}

#[test]
fn only_the_first_line_is_read() {
    assert_eq!(parse_word_from_request("GET /\r\nX /?text=hello HTTP/1.1"), None);
}

#[test]
fn method_and_version_are_ignored() {
    assert_eq!(parse_word_from_request("POST /lookup?text=abc"), some("abc"));
}

#[test]
fn pairs_pick_first_text() {
    let pairs = vec![
        ("a".to_string(), "1".to_string()),
        ("text".to_string(), "x y".to_string()),
        ("text".to_string(), "z".to_string()),
    ];
    assert_eq!(text_of_pairs(&pairs), some("x y"));
}

#[test]
fn pairs_with_empty_text_give_none() {
    let pairs = vec![("text".to_string(), String::new()), ("text".to_string(), "z".to_string())];
    assert_eq!(text_of_pairs(&pairs), None);
    assert_eq!(text_of_pairs(&vec![("Text".to_string(), "z".to_string())]), None);
    assert_eq!(text_of_pairs(&Vec::new()), None);
}

use lookup_trigger::lookup::lookup_uri;
use lookup_trigger::text::{chars_of, split_words};

#[test]
fn plain_word_uri() {
    assert_eq!(lookup_uri("hello"), "easydict://query?text=hello");
}

#[test]
fn space_is_percent_encoded() {
    assert_eq!(lookup_uri("hello world"), "easydict://query?text=hello%20world");
}

#[test]
fn unreserved_bytes_are_kept() {
    assert_eq!(lookup_uri("a-b_c.d~E9"), "easydict://query?text=a-b_c.d~E9");
}

#[test]
fn reserved_and_non_ascii_bytes_are_escaped() {
    assert_eq!(lookup_uri("a/b+c&d"), "easydict://query?text=a%2Fb%2Bc%26d");
    assert_eq!(lookup_uri("caf\u{e9}"), "easydict://query?text=caf%C3%A9");
}

#[test]
fn encoding_round_trips_through_the_request_decoder() {
    let uri = lookup_uri("hello world");
    let query = &uri["easydict://query?text=".len()..];
    let request = format!("GET /?text={} HTTP/1.1", query);
    assert_eq!(
        lookup_trigger::request::parse_word_from_request(&request),
        Some("hello world".to_string())
    );
}

#[test]
fn words_split_on_whitespace() {
    let w = split_words(&chars_of("  hello \t world\n"));
    assert_eq!(w, vec![chars_of("hello"), chars_of("world")]);
}

#[test]
fn padded_single_word_is_one_word() {
    assert_eq!(split_words(&chars_of(" hello ")).len(), 1);
    assert_eq!(split_words(&chars_of("")).len(), 0);
    assert_eq!(split_words(&chars_of("   ")).len(), 0);
}

#[test]
fn unicode_whitespace_separates_words() {
    assert_eq!(split_words(&chars_of("a\u{3000}b\u{a0}c")).len(), 3);
}

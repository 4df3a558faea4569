use ruuvitag_additions::{json_quote, strip_colons, tail_chars, trim_topic_wildcards};

#[test]
fn strip_colons_removes_every_colon() {
    assert_eq!(strip_colons("D4:D8:D8:CB:34:6C"), "D4D8D8CB346C");
    assert_eq!(strip_colons("no colons"), "no colons");
    assert_eq!(strip_colons(""), "");
    assert_eq!(strip_colons(":::"), "");
}

#[test]
fn trim_topic_wildcards_strips_trailing_wildcards_only() {
    assert_eq!(trim_topic_wildcards("homeassistant/#"), "homeassistant");
    assert_eq!(trim_topic_wildcards("homeassistant/+/#//"), "homeassistant");
    assert_eq!(trim_topic_wildcards("homeassistant"), "homeassistant");
    assert_eq!(trim_topic_wildcards("a/b/c"), "a/b/c");
    assert_eq!(trim_topic_wildcards("/#+"), "");
    assert_eq!(trim_topic_wildcards(""), "");
}

#[test]
fn tail_chars_takes_the_last_characters() {
    assert_eq!(tail_chars("D4D8D8CB346C", 6), "CB346C");
    assert_eq!(tail_chars("346C", 6), "346C");
    assert_eq!(tail_chars("", 6), "");
}

#[test]
fn json_quote_plain_string_is_just_quoted() {
    assert_eq!(json_quote("Ruuvi 346C"), "\"Ruuvi 346C\"");
    assert_eq!(json_quote(""), "\"\"");
}

#[test]
fn json_quote_escapes_quotes_and_backslashes() {
    assert_eq!(json_quote("a\"b\\c"), "\"a\\\"b\\\\c\"");
}

#[test]
fn json_quote_escapes_control_characters() {
    assert_eq!(json_quote("a\nb\tc"), "\"a\\nb\\tc\"");
    assert_eq!(json_quote("\u{8}\u{c}\r"), "\"\\b\\f\\r\"");
    assert_eq!(json_quote("\u{1}\u{1f}"), "\"\\u0001\\u001f\"");
}

#[test]
fn json_quote_keeps_unicode_verbatim() {
    assert_eq!(json_quote("21.3\u{00B0}C"), "\"21.3\u{00B0}C\"");
}

#[test]
fn json_quote_round_trips_through_decoder() {
    let original = "tricky \"value\" with \\ and \n and \u{00B0}";
    let quoted = json_quote(original);
    let decoded: serde_json::Value = serde_json::from_str(&quoted).unwrap();
    assert_eq!(decoded.as_str().unwrap(), original);
}

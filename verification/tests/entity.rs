use libaur::entity::{decode_entities, decode_or_empty, settle};

#[test]
fn named_reference_is_decoded() {
    assert_eq!(decode_entities("&amp;"), "&");
}

#[test]
fn unknown_reference_is_left_as_it_is() {
    assert_eq!(decode_entities("&bogus;"), "&bogus;");
}

#[test]
fn numeric_references_are_decoded() {
    assert_eq!(decode_entities("&#65;&#x42;&#x63;"), "ABc");
    assert_eq!(decode_entities("1 &lt; 2 &gt; 0 &quot;q&quot;"), "1 < 2 > 0 \"q\"");
}

#[test]
fn malformed_references_leave_the_text_as_it_is() {
    assert_eq!(decode_entities("&amp"), "&amp");
    assert_eq!(decode_entities("&#xZZ;"), "&#xZZ;");
    assert_eq!(decode_entities("&;"), "&;");
    assert_eq!(decode_entities("ok &amp; then &#99999999;"), "ok &amp; then &#99999999;");
}

#[test]
fn text_without_references_is_unchanged() {
    assert_eq!(decode_entities(""), "");
    assert_eq!(decode_entities("plain text"), "plain text");
}

#[test]
fn settle_takes_the_decoded_text_or_the_fallback() {
    assert_eq!(settle(Some("decoded".to_string()), "raw"), "decoded");
    assert_eq!(settle(None, "raw"), "raw");
    assert_eq!(settle(Some(String::new()), "raw"), "");
}

#[test]
fn decode_or_empty_gives_up_text_that_does_not_decode() {
    assert_eq!(decode_or_empty("a &amp; b"), "a & b");
    assert_eq!(decode_or_empty("a &bogus; b"), "");
    assert_eq!(decode_or_empty(""), "");
}

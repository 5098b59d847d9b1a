use footlights_engine::background::rotation;
use footlights_engine::markup::{tagged, url_reference};
use footlights_engine::source::{classify, data_url, part_after_last, starts_with, ImageSource};
use footlights_engine::text::decimal_string;

#[test]
fn numbers_are_written_in_decimal() {
    assert_eq!(decimal_string(0), "0");
    assert_eq!(decimal_string(7), "7");
    assert_eq!(decimal_string(10), "10");
    assert_eq!(decimal_string(100), "100");
    assert_eq!(decimal_string(1030), "1030");
    assert_eq!(decimal_string(4294967295), "4294967295");
    assert_eq!(decimal_string(u64::MAX), "18446744073709551615");
    for n in [1u64, 9, 11, 99, 101, 12345, 9_999_999_999] {
        assert_eq!(decimal_string(n), n.to_string());
    }
}

#[test]
fn ids_and_references_carry_the_layer_id() {
    assert_eq!(tagged("clip-", "1"), "clip-1");
    assert_eq!(tagged("", ""), "");
    assert_eq!(tagged("shadow-", "12"), "shadow-12");
    assert_eq!(url_reference("clip-", "1"), "url(#clip-1)");
    assert_eq!(url_reference("background-", "0"), "url(#background-0)");
    assert_eq!(rotation("45"), "rotate(45)");
    assert_eq!(rotation("22.5"), "rotate(22.5)");
}

#[test]
fn prefixes() {
    assert!(starts_with("http://a", "http"));
    assert!(starts_with("http", "http"));
    assert!(starts_with("anything", ""));
    assert!(!starts_with("htt", "http"));
    assert!(!starts_with("xhttp", "http"));
    assert!(!starts_with("", "h"));
    assert!(starts_with("日本語", "日本"));
    assert!(!starts_with("日本語", "本"));
}

#[test]
fn the_part_after_the_last_mark() {
    assert_eq!(part_after_last("a,b,c", ','), "c");
    assert_eq!(part_after_last("abc", ','), "abc");
    assert_eq!(part_after_last("abc,", ','), "");
    assert_eq!(part_after_last(",abc", ','), "abc");
    assert_eq!(part_after_last("", ','), "");
    assert_eq!(part_after_last("é,ü,ß", ','), "ß");
}

#[test]
fn references_are_told_apart() {
    assert!(matches!(classify("./assets/input.png", true), ImageSource::File));
    assert!(matches!(classify("http://example.org/a.png", true), ImageSource::File));
    assert!(matches!(classify("http://example.org/a.png", false), ImageSource::Remote));
    assert!(matches!(classify("https://example.org/a.png", false), ImageSource::Remote));
    assert!(matches!(classify("./assets/input.png", false), ImageSource::Invalid));
    assert!(matches!(classify("", false), ImageSource::Invalid));
    assert!(matches!(classify("data:text/plain,abc", false), ImageSource::Invalid));
    match classify("data:image/png;base64,iVBORw0KGgo", false) {
        ImageSource::Inline(payload) => assert_eq!(payload, "iVBORw0KGgo"),
        _ => panic!("not inline"),
    }
    match classify("data:image/png", false) {
        ImageSource::Inline(payload) => assert_eq!(payload, "data:image/png"),
        _ => panic!("not inline"),
    }
}

#[test]
fn an_inline_image_is_found_again() {
    assert_eq!(data_url("QUJD"), "data:image/png;base64,QUJD");
    match classify(&data_url("QUJD"), false) {
        ImageSource::Inline(payload) => assert_eq!(payload, "QUJD"),
        _ => panic!("not inline"),
    }
}

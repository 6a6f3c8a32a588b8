use cce_gallery::ramp_file::{
    line_type_index, line_type_name, parse_bevel_ramp, render_bevel_ramp, KeyPairText, RampText,
};

fn s(v: &[char]) -> String {
    v.iter().collect()
}

fn opt(v: &Option<Vec<char>>) -> Option<String> {
    v.as_ref().map(|c| s(c))
}

fn keys_of(r: &RampText) -> Vec<(Option<String>, Option<String>)> {
    r.keys.iter().map(|k| (opt(&k.pos), opt(&k.val))).collect()
}

fn pair(p: &str, v: &str) -> KeyPairText {
    KeyPairText { pos: p.chars().collect(), val: v.chars().collect() }
}

#[test]
fn parses_the_documented_file() {
    let text = "keys {\n    key pos=0 val=0\n    key pos=0.5 val=1\n    key pos=1 val=0\n}\nline_type \"linear\"   // or \"bezier\"\n";
    let r = parse_bevel_ramp(text);
    assert_eq!(
        keys_of(&r),
        vec![
            (Some("0".to_string()), Some("0".to_string())),
            (Some("0.5".to_string()), Some("1".to_string())),
            (Some("1".to_string()), Some("0".to_string())),
        ]
    );
    assert_eq!(s(&r.line_type), "linear");
}

#[test]
fn line_type_defaults_to_linear() {
    let r = parse_bevel_ramp("key pos=0.25 val=0.75\n");
    assert_eq!(s(&r.line_type), "linear");
    assert_eq!(keys_of(&r), vec![(Some("0.25".to_string()), Some("0.75".to_string()))]);
}

#[test]
fn the_last_line_type_wins_and_quotes_are_trimmed() {
    let r = parse_bevel_ramp("line_type \"linear\"\nline_type \"\"bezier\"\"\n");
    assert_eq!(s(&r.line_type), "bezier");
    assert!(r.keys.is_empty());
}

#[test]
fn a_line_type_line_without_a_value_changes_nothing() {
    let r = parse_bevel_ramp("line_type bezier\nline_type \n");
    assert_eq!(s(&r.line_type), "bezier");
}

#[test]
fn missing_and_repeated_fields() {
    let r = parse_bevel_ramp("key val=0.3\nkey pos=1 pos=2 foo=3\nkey\n");
    assert_eq!(
        keys_of(&r),
        vec![
            (None, Some("0.3".to_string())),
            (Some("2".to_string()), None),
        ]
    );
}

#[test]
fn a_bare_key_word_is_not_a_key_line() {
    // `key` alone trims to three characters and lacks the space of `key `.
    let r = parse_bevel_ramp("key\nkeys {\n}\n");
    assert!(r.keys.is_empty());
}

#[test]
fn tabs_carriage_returns_and_unicode_spaces() {
    let r = parse_bevel_ramp("\t key pos=1\u{a0}val=2 \r\n\u{3000}line_type \"bezier\"\r\n");
    assert_eq!(keys_of(&r), vec![(Some("1".to_string()), Some("2".to_string()))]);
    assert_eq!(s(&r.line_type), "bezier");
    // The line type's prefix is `line_type` and a space: a tab there does not count.
    let t = parse_bevel_ramp("line_type\t\"bezier\"\n");
    assert_eq!(s(&t.line_type), "linear");
}

#[test]
fn empty_file() {
    let r = parse_bevel_ramp("");
    assert!(r.keys.is_empty());
    assert_eq!(s(&r.line_type), "linear");
}

#[test]
fn renders_the_documented_layout() {
    let out = render_bevel_ramp(&vec![pair("0", "0.5"), pair("1", "1")], "bezier");
    assert_eq!(s(&out), "keys {\n    key pos=0 val=0.5\n    key pos=1 val=1\n}\nline_type \"bezier\"\n");
}

#[test]
fn renders_no_keys() {
    let out = render_bevel_ramp(&vec![], "linear");
    assert_eq!(s(&out), "keys {\n}\nline_type \"linear\"\n");
}

#[test]
fn reading_back_a_written_file() {
    let keys = vec![pair("0", "0.5"), pair("0.2", "1"), pair("0.8", "1"), pair("1", "0.5")];
    let out = render_bevel_ramp(&keys, "bezier");
    let r = parse_bevel_ramp(&s(&out));
    assert_eq!(
        keys_of(&r),
        keys.iter().map(|k| (Some(s(&k.pos)), Some(s(&k.val)))).collect::<Vec<_>>()
    );
    assert_eq!(s(&r.line_type), "bezier");
    assert_eq!(line_type_index(&s(&r.line_type)), 1);
}

#[test]
fn line_type_names_and_entries() {
    assert_eq!(line_type_name(1), "bezier");
    assert_eq!(line_type_name(0), "linear");
    assert_eq!(line_type_name(7), "linear");
    assert_eq!(line_type_index("bezier"), 1);
    assert_eq!(line_type_index("linear"), 0);
    assert_eq!(line_type_index("Bezier"), 0);
    for i in 0..4usize {
        assert_eq!(line_type_index(line_type_name(i)), if i == 1 { 1 } else { 0 });
    }
}

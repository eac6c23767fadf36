use shack::text::{split_text, strip_prefix_text, text_eq};

#[test]
fn split_matches_std() {
    for s in ["", ".", "..", "a", "a.b", ".a.", "type.gas.alias.x", "ä.ö.ü", "a..b"] {
        let expected: Vec<String> = s.split('.').map(|p| p.to_string()).collect();
        assert_eq!(split_text(s, '.'), expected, "splitting {:?}", s);
    }
}

#[test]
fn strip_prefix_matches_std() {
    for (s, p) in [("tasmota_x", "tasmota_"), ("tasmota", "tasmota_"), ("x", ""), ("", ""), ("äb", "ä")] {
        assert_eq!(strip_prefix_text(s, p), s.strip_prefix(p).map(|r| r.to_string()));
    }
}

#[test]
fn text_equality() {
    assert!(text_eq("alias", "alias"));
    assert!(!text_eq("alias", "Alias"));
    assert!(!text_eq("alias", "alia"));
    assert!(text_eq("", ""));
}

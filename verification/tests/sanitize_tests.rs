use open_imago::sanitize::sanitize_filename;
use open_imago::sanitize::trim_str;

#[test]
fn replaces_every_reserved_character() {
    assert_eq!(sanitize_filename("a/b\\c:d*e?f\"g<h>i|j"), "a_b_c_d_e_f_g_h_i_j");
}

#[test]
fn replaces_non_ascii_characters() {
    assert_eq!(sanitize_filename("h\u{e9}llo w\u{f6}rld"), "h_llo w_rld");
    assert_eq!(sanitize_filename("\u{65e5}\u{672c}\u{8a9e}"), "___");
    assert_eq!(sanitize_filename("a\u{65e5}b"), "a_b");
}

#[test]
fn truncates_to_fifty_characters() {
    let long: String = "a".repeat(60);
    let out = sanitize_filename(&long);
    assert_eq!(out.len(), 50);
    assert_eq!(out, "a".repeat(50));
}

#[test]
fn keeps_exactly_fifty_characters() {
    let exact: String = "b".repeat(50);
    assert_eq!(sanitize_filename(&exact), exact);
}

#[test]
fn whitespace_only_becomes_video() {
    assert_eq!(sanitize_filename(""), "video");
    assert_eq!(sanitize_filename("   "), "video");
    assert_eq!(sanitize_filename(" \t\r\n "), "video");
}

#[test]
fn ordinary_title_is_kept() {
    assert_eq!(sanitize_filename("My Great Video"), "My Great Video");
}

#[test]
fn sanitized_output_is_always_safe() {
    let inputs = ["x/y", "\u{1F600}\u{1F600}", "a:b|c", "           z", &"w".repeat(200)];
    for input in inputs {
        let out = sanitize_filename(input);
        assert!(out.len() <= 50);
        assert!(!out.is_empty());
        assert!(out.is_ascii());
        for bad in ['/', '\\', ':', '*', '?', '"', '<', '>', '|'] {
            assert!(!out.contains(bad));
        }
    }
}

#[test]
fn trim_removes_surrounding_whitespace() {
    assert_eq!(trim_str("  hello  "), "hello");
    assert_eq!(trim_str("\t a b \n"), "a b");
    assert_eq!(trim_str(""), "");
    assert_eq!(trim_str(" \u{00A0} x \u{3000}"), "x");
    assert_eq!(trim_str("solid"), "solid");
}

use desktop_music_widget::resources::{
    file_version, forward_slashes, rc_source, replace_all, split_char, version_quad, RC_TEMPLATE,
};

#[test]
fn versions_parse_into_a_quad() {
    assert_eq!(version_quad("1.2.3"), (1, 2, 3));
    assert_eq!(version_quad("1.0.0"), (1, 0, 0));
    // Pre-release and build metadata must not confuse the parse.
    assert_eq!(version_quad("2.5.0-beta.1"), (2, 5, 0));
    assert_eq!(version_quad("2.5.0+build7"), (2, 5, 0));
}

#[test]
fn unparseable_versions_degrade_to_zero() {
    assert_eq!(version_quad(""), (0, 0, 0));
    assert_eq!(version_quad("not-a-version"), (0, 0, 0));
    assert_eq!(version_quad("1"), (1, 0, 0));
}

#[test]
fn rc_paths_use_forward_slashes() {
    // Backslashes are escape characters to some resource compilers.
    assert_eq!(forward_slashes(r"D:\a\b\icon.ico"), "D:/a/b/icon.ico");
}

#[test]
fn template_placeholders_are_all_substituted() {
    let rendered = RC_TEMPLATE
        .replace("{ICON}", "i")
        .replace("{MANIFEST}", "m")
        .replace("{VER}", "1,0,0,0")
        .replace("{VERSION}", "1.0.0");
    assert!(!rendered.contains('{'), "a placeholder was left behind");
    assert!(rendered.contains("VALUE \"FileVersion\", \"1.0.0\\0\""));
    assert!(rendered.contains("1 24 \"m\""), "manifest id 24 is required");
}

#[test]
fn rendered_script_matches_a_manual_substitution() {
    let ours = rc_source(r"C:\p\icon.ico", r"C:\p\app.manifest", "1.0.5");
    let expected = RC_TEMPLATE
        .replace("{ICON}", "C:/p/icon.ico")
        .replace("{MANIFEST}", "C:/p/app.manifest")
        .replace("{VER}", "1,0,5,0")
        .replace("{VERSION}", "1.0.5");
    assert_eq!(ours, expected);
    assert!(!ours.contains('{'));
    assert!(ours.contains("FILEVERSION 1,0,5,0"));
    assert!(ours.contains("1 ICON \"C:/p/icon.ico\""));
}

#[test]
fn file_version_appends_a_zero_build_number() {
    assert_eq!(file_version("3.14.159"), "3,14,159,0");
    assert_eq!(file_version("7"), "7,0,0,0");
    assert_eq!(file_version("1.99999999999.2"), "1,0,2,0");
}

#[test]
fn quad_edge_cases() {
    assert_eq!(version_quad("+1.2.3"), (0, 2, 3));
    assert_eq!(version_quad("1..3"), (1, 0, 3));
    assert_eq!(version_quad("4.5.6.7"), (4, 5, 6));
    assert_eq!(version_quad("4294967295.4294967296.0"), (4294967295, 0, 0));
}

#[test]
fn replace_matches_std_on_overlaps() {
    assert_eq!(replace_all("aaaa", "aa", "b"), "aaaa".replace("aa", "b"));
    assert_eq!(replace_all("abcabc", "c", "xyz"), "abxyzabxyz");
    assert_eq!(replace_all("", "x", "y"), "");
    assert_eq!(replace_all("{VERSION}", "{VER}", "z"), "{VERSION}");
}

#[test]
fn split_keeps_empty_pieces() {
    assert_eq!(split_char("a..b", '.'), vec!["a", "", "b"]);
    assert_eq!(split_char("", '.'), vec![""]);
    assert_eq!(split_char(".", '.'), vec!["", ""]);
}

#[test]
fn an_empty_pattern_surrounds_each_character() {
    assert_eq!(replace_all("ab", "", "x"), "xaxbx");
    assert_eq!(replace_all("ab", "", "x"), "ab".replace("", "x"));
    assert_eq!(replace_all("", "", "x"), "x");
    assert_eq!(replace_all("日本", "", "-"), "日本".replace("", "-"));
}

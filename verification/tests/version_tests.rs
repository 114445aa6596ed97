use uadng_updater::version::lex_le;
use uadng_updater::version::strip_tag_prefix;
use uadng_updater::version::version_is_newer;

#[test]
fn strips_one_leading_v() {
    assert_eq!(strip_tag_prefix("v1.2.0"), "1.2.0");
    assert_eq!(strip_tag_prefix("1.2.0"), "1.2.0");
    assert_eq!(strip_tag_prefix(""), "");
    // only a single leading prefix character is removed
    assert_eq!(strip_tag_prefix("vv2"), "v2");
}

#[test]
fn lexicographic_order_on_strings() {
    assert!(lex_le("", ""));
    assert!(lex_le("", "a"));
    assert!(!lex_le("a", ""));
    assert!(lex_le("abc", "abc"));
    assert!(lex_le("abc", "abd"));
    assert!(!lex_le("abd", "abc"));
    assert!(lex_le("ab", "abc"));
    assert!(!lex_le("abc", "ab"));
}

#[test]
fn newer_tag_proceeds() {
    // "1.2.0" > "1.1.0" lexicographically
    assert!(version_is_newer("v1.2.0", "1.1.0"));
}

#[test]
fn equal_tag_is_up_to_date() {
    // "1.0.0" <= "1.0.0": not newer
    assert!(!version_is_newer("v1.0.0", "1.0.0"));
}

#[test]
fn older_tag_is_up_to_date() {
    assert!(!version_is_newer("v1.0.0", "1.1.0"));
}

#[test]
fn comparison_is_lexicographic_not_numeric() {
    // the known quirk of the plain string order: "9.0.0" sorts above "10.0.0"
    assert!(version_is_newer("v9.0.0", "10.0.0"));
    assert!(!version_is_newer("v10.0.0", "9.0.0"));
}

#[test]
fn missing_prefix_still_compares() {
    assert!(version_is_newer("2.0.0", "1.9.9"));
}

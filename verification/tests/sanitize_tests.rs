use photo_batch::sanitize::sanitize_stem;
use photo_batch::stem::{file_stem, sanitized_name};

#[test]
fn sanitize_scenario_accented_stem() {
    // hyphen -> underscore, e-acute -> e, comma -> underscore, spaces and
    // parentheses removed
    let r = sanitize_stem("caf\u{e9}-photo, final (v2)");
    assert_eq!(r, "cafe_photo_finalv2");
}

#[test]
fn sanitize_idempotent_on_clean_input() {
    let once = sanitize_stem("caf\u{e9}-photo, final (v2)");
    let twice = sanitize_stem(&once);
    assert_eq!(once, twice);
}

#[test]
fn sanitize_quotes_and_accents() {
    assert_eq!(sanitize_stem("\"quoted\""), "quoted");
    assert_eq!(sanitize_stem("\u{e0} la carte-\u{e8}"), "alacarte_e");
    assert_eq!(sanitize_stem("a,b,c"), "a_b_c");
}

#[test]
fn sanitize_keeps_other_unicode() {
    // only the three listed accented characters are transliterated
    assert_eq!(sanitize_stem("na\u{ef}ve"), "na\u{ef}ve");
}

#[test]
fn sanitize_empty() {
    assert_eq!(sanitize_stem(""), "");
}

#[test]
fn file_stem_plain() {
    assert_eq!(file_stem("dir/photo.png"), Some(String::from("photo")));
    assert_eq!(file_stem("noext"), Some(String::from("noext")));
    assert_eq!(file_stem("/x/y/archive.tar.gz"), Some(String::from("archive.tar")));
}

#[test]
fn file_stem_hidden_file_keeps_leading_dot() {
    assert_eq!(file_stem(".hidden"), Some(String::from(".hidden")));
    assert_eq!(file_stem("dir/.hidden"), Some(String::from(".hidden")));
}

#[test]
fn file_stem_none_for_empty_component() {
    assert_eq!(file_stem(""), None);
    assert_eq!(file_stem("dir/"), None);
}

#[test]
fn sanitized_name_of_full_path() {
    let r = sanitized_name("input/caf\u{e9}-photo, final (v2).png");
    assert_eq!(r, "cafe_photo_finalv2");
}

#[test]
fn sanitized_name_empty_when_no_stem() {
    assert_eq!(sanitized_name("somewhere/"), "");
}

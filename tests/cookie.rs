use gallery_downloader::cookie::{build_cookie, CookieJar};

#[test]
fn empty_cookie_keeps_the_default() {
    assert_eq!(build_cookie(""), "nw=1");
    assert_eq!(build_cookie("  ;; ; "), "nw=1");
}

#[test]
fn raw_parts_follow_the_default_in_order() {
    assert_eq!(build_cookie("ipb_member_id=42; ipb_pass_hash=abc"), "nw=1; ipb_member_id=42; ipb_pass_hash=abc");
}

#[test]
fn last_writer_wins_in_place() {
    assert_eq!(build_cookie("a=1; nw=0; a=2"), "nw=0; a=2");
}

#[test]
fn parts_are_trimmed_and_split_at_the_first_equals() {
    assert_eq!(build_cookie("  k =  v=w ;\tx=\n"), "nw=1; k=v=w; x=");
    assert_eq!(build_cookie("novalue; =empty"), "nw=1; =empty");
}

#[test]
fn unicode_whitespace_is_trimmed() {
    assert_eq!(build_cookie("\u{3000}k\u{00A0}=v\u{2003}"), "nw=1; k=v");
}

#[test]
fn jar_merges_step_by_step() {
    let mut jar = CookieJar::with_defaults();
    assert_eq!(jar.header(), "nw=1");
    jar.set(String::from("sk"), String::from("x"));
    jar.merge_raw("sk=y; t=z");
    assert_eq!(jar.header(), "nw=1; sk=y; t=z");
}

#[test]
fn every_white_space_character_is_trimmed() {
    for c in ['\t', '\n', '\u{0B}', '\u{0C}', '\r', ' ', '\u{85}', '\u{A0}', '\u{1680}', '\u{2000}', '\u{200A}', '\u{2028}', '\u{2029}', '\u{202F}', '\u{205F}', '\u{3000}'] {
        assert_eq!(build_cookie(&format!("{}a=b{}", c, c)), "nw=1; a=b", "U+{:04X}", c as u32);
    }
    assert_eq!(build_cookie("\u{200B}a=b"), "nw=1; \u{200B}a=b");
    assert_eq!(build_cookie("nw=0"), "nw=0");
}

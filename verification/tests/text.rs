use sitegrab::text::extract_id_from_permalink;
use sitegrab::text::rewrite_bare_path;
use sitegrab::text::rewrite_relative_date;
use sitegrab::text::rewrite_relative_href;
use sitegrab::error::Error;

#[test]
fn rewrite_href_relative_is_rewritten() {
    let r = rewrite_relative_href(r#"<a href="/x/y">l</a>"#, "https://example.com");
    assert_eq!(r, r#"<a href="https://example.com/x/y">l</a>"#);
}

#[test]
fn rewrite_href_absolute_is_untouched() {
    let fragment = r#"<a href="https://other.com/z">l</a>"#;
    let r = rewrite_relative_href(fragment, "https://example.com");
    assert_eq!(r, fragment);
}

#[test]
fn rewrite_href_mixed() {
    let r = rewrite_relative_href(
        r#"<a href="/a">x</a><a href="http://b/c">y</a><a href="/d">z</a>"#,
        "https://example.com",
    );
    assert_eq!(
        r,
        r#"<a href="https://example.com/a">x</a><a href="http://b/c">y</a><a href="https://example.com/d">z</a>"#
    );
}

#[test]
fn rewrite_href_bare_slash_is_untouched() {
    let fragment = r#"<a href="/">l</a>"#;
    let r = rewrite_relative_href(fragment, "https://example.com");
    assert_eq!(r, fragment);
}

#[test]
fn rewrite_bare_path_prefixes_every_slash() {
    assert_eq!(rewrite_bare_path("a/b", "X"), "aX/b");
    assert_eq!(
        rewrite_bare_path("/story.php?id=1", "https://mobile.facebook.com"),
        "https://mobile.facebook.com/story.php?id=1"
    );
    assert_eq!(rewrite_bare_path("", "X"), "");
}

#[test]
fn rewrite_relative_date_hrs_idiom() {
    assert_eq!(rewrite_relative_date("3 hrs"), "-3 hours");
    assert_eq!(rewrite_relative_date("12 hrs"), "-12 hours");
}

#[test]
fn rewrite_relative_date_other_text_unchanged() {
    assert_eq!(rewrite_relative_date("yesterday"), "yesterday");
    assert_eq!(rewrite_relative_date(" hrs"), " hrs");
    assert_eq!(rewrite_relative_date("x hrs"), "x hrs");
    assert_eq!(rewrite_relative_date("3 hr"), "3 hr");
}

#[test]
fn extract_id_finds_first_capture() {
    let r = extract_id_from_permalink("https://m.example/story.php?story_fbid=9&id=123&ref=x");
    assert_eq!(r.unwrap(), "123");
}

#[test]
fn extract_id_skips_empty_capture() {
    let r = extract_id_from_permalink("a&id=&id=5");
    assert_eq!(r.unwrap(), "5");
}

#[test]
fn extract_id_runs_to_end() {
    let r = extract_id_from_permalink("x&id=tail");
    assert_eq!(r.unwrap(), "tail");
}

#[test]
fn extract_id_missing_is_not_found() {
    let r = extract_id_from_permalink("https://m.example/story.php?story_fbid=9");
    assert_eq!(r.unwrap_err(), Error::NotFound);
    let r = extract_id_from_permalink("");
    assert_eq!(r.unwrap_err(), Error::NotFound);
}

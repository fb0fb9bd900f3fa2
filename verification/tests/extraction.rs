use sitegrab::cache::SelectorCache;
use sitegrab::date::parse_date;
use sitegrab::error::Error;
use sitegrab::facebook::mobile::Mobile;

const PAGE_WITH_POSTS: &str = r#"<!DOCTYPE html>
<html><head>
<meta property="og:title" content="My Group" />
<meta property="og:description" content="About the group" />
<meta property="og:url" content="https://mobile.facebook.com/mygroup" />
</head><body>
<div data-ft="a">
  <h3>Author <a href="/author">A</a></h3>
  <div><div><span>Hello <a href="/there">world</a></span></div></div>
  <abbr>3 hrs</abbr>
  <div><div><a href="/story.php?story_fbid=9&amp;id=123">Full Story</a></div></div>
</div>
<div data-ft="b">
  <h3>No date here</h3>
  <div><div><span>Body</span></div></div>
  <div><div><a href="/story.php?story_fbid=10&amp;id=456">Full Story</a></div></div>
</div>
</body></html>"#;

const PAGE_WITHOUT_POSTS: &str = r#"<!DOCTYPE html>
<html><head>
<meta property="og:title" content="Quiet Group" />
</head><body><p>nothing here</p></body></html>"#;

#[test]
fn full_container_is_included_with_nonempty_id() {
    let mobile = Mobile::new();
    let mut cache = SelectorCache::new();
    let group = mobile
        .parse_group(&mut cache, "mygroup", PAGE_WITH_POSTS)
        .unwrap();
    assert_eq!(group.posts.len(), 1);
    let post = &group.posts[0];
    assert_eq!(post.id, "123");
    assert!(!post.id.is_empty());
    assert_eq!(
        post.permalink_url,
        "https://mobile.facebook.com/story.php?story_fbid=9&id=123"
    );
    assert_eq!(post.name, r#"Author <a href="https://mobile.facebook.com/author">A</a>"#);
    assert_eq!(
        post.message,
        r#"Hello <a href="https://mobile.facebook.com/there">world</a>"#
    );
    assert_ne!(post.created_time, "3 hrs");
}

#[test]
fn container_missing_date_is_excluded() {
    let mobile = Mobile::new();
    let mut cache = SelectorCache::new();
    let group = mobile
        .parse_group(&mut cache, "mygroup", PAGE_WITH_POSTS)
        .unwrap();
    assert!(group.posts.iter().all(|p| p.id != "456"));
}

#[test]
fn zero_containers_yield_empty_posts_and_populated_header() {
    let mobile = Mobile::new();
    let mut cache = SelectorCache::new();
    let group = mobile
        .parse_group(&mut cache, "quiet", PAGE_WITHOUT_POSTS)
        .unwrap();
    assert_eq!(group.posts.len(), 0);
    assert_eq!(group.id, "quiet");
    assert_eq!(group.name, "Quiet Group");
    assert_eq!(group.url, "https://mobile.facebook.com/quiet");
    assert!(group.description.is_none());
    assert!(group.image.is_none());
}

#[test]
fn header_falls_back_to_id_when_metadata_is_absent() {
    let mobile = Mobile::new();
    let mut cache = SelectorCache::new();
    let group = mobile
        .parse_group(&mut cache, "fallback", "<html><body></body></html>")
        .unwrap();
    assert_eq!(group.name, "fallback");
    assert_eq!(group.url, "https://mobile.facebook.com/fallback");
    assert!(group.posts.is_empty());
}

#[test]
fn og_lookup_reads_first_content_attribute() {
    assert_eq!(Mobile::og(PAGE_WITH_POSTS, "title").unwrap(), "My Group");
    assert_eq!(Mobile::og(PAGE_WITH_POSTS, "description").unwrap(), "About the group");
    assert_eq!(Mobile::og(PAGE_WITH_POSTS, "missing").unwrap_err(), Error::NotFound);
}

#[test]
fn extract_post_requires_all_four_fragments() {
    let mobile = Mobile::new();
    let full = mobile.extract_post(
        Some("t".to_string()),
        Some("m".to_string()),
        Some("d".to_string()),
        Some("/story.php?story_fbid=9&id=77".to_string()),
    );
    let post = full.unwrap();
    assert_eq!(post.id, "77");
    assert_eq!(
        post.permalink_url,
        "https://mobile.facebook.com/story.php?story_fbid=9&id=77"
    );

    let missing_date = mobile.extract_post(
        Some("t".to_string()),
        Some("m".to_string()),
        None,
        Some("/story.php?story_fbid=9&id=77".to_string()),
    );
    assert!(missing_date.is_none());

    let no_recoverable_id = mobile.extract_post(
        Some("t".to_string()),
        Some("m".to_string()),
        Some("d".to_string()),
        Some("/story.php?story_fbid=9".to_string()),
    );
    assert!(no_recoverable_id.is_none());
}

#[test]
fn parse_date_never_raises() {
    let r = parse_date("3 hrs");
    assert_ne!(r, "3 hrs");
    assert!(r == "-3 hours" || r.contains(":"));
    assert_eq!(parse_date("gibberish"), "gibberish");
}

#[test]
fn parse_date_survives_hostile_fragments() {
    assert_eq!(parse_date("\u{e9}\u{e9}"), "\u{e9}\u{e9}");
    assert_eq!(parse_date("178956971 years ago"), "178956971 years ago");
    assert_eq!(parse_date("2147483647 months ago"), "2147483647 months ago");
    assert_eq!(parse_date("99999 hrs"), "-99999 hours");
    assert_eq!(parse_date("-3pm"), "-3pm");
    assert_eq!(parse_date("-3:30"), "-3:30");
    assert_eq!(parse_date("2 days -3pm"), "2 days -3pm");
}

#[test]
fn selector_cache_hits_on_second_compile() {
    let mut cache = SelectorCache::new();
    let first = cache.get_or_compile("div[data-ft]").unwrap();
    let second = cache.get_or_compile("div[data-ft]").unwrap();
    assert_eq!(first, second);
    assert_eq!(cache.len(), 1);
    let third = cache.get_or_compile("h3").unwrap();
    assert_ne!(first, third);
    assert_eq!(cache.len(), 2);
}

#[test]
fn selector_cache_rejects_invalid_selector_without_caching_it() {
    let mut cache = SelectorCache::new();
    assert_eq!(cache.get_or_compile("div[").unwrap_err(), Error::Extraction);
    assert_eq!(cache.len(), 0);
    assert_eq!(cache.get_or_compile("div[").unwrap_err(), Error::Extraction);
    assert_eq!(cache.len(), 0);
}

use sitegrab::cache::SelectorCache;
use sitegrab::error::Error;
use sitegrab::facebook::Group;
use sitegrab::facebook::mobile::Mobile;
use sitegrab::fetch::ProxyConfig;
use sitegrab::sites::Backend;
use sitegrab::sites::Sites;
use sitegrab::sites::user_from_group;

#[test]
fn fetch_with_unregistered_name_is_not_found() {
    let sites = Sites::new();
    let mut cache = SelectorCache::new();
    let proxy = ProxyConfig::direct();
    let r = sites.fetch(&mut cache, &proxy, "nope", "someid");
    assert_eq!(r.unwrap_err(), Error::NotFound);
    let r = sites.fetch(&mut cache, &proxy, "", "someid");
    assert_eq!(r.unwrap_err(), Error::NotFound);
}

#[test]
fn find_routes_to_the_owning_backend() {
    let sites = Sites::new();
    let (name, id) = sites.find("https://www.facebook.com/mygroup?ref=x").unwrap();
    assert_eq!(name, "facebook");
    assert_eq!(id, "mygroup");
    assert!(sites.find("https://example.com/other").is_none());
}

#[test]
fn find_prefers_the_earlier_registered_backend() {
    let sites = Sites {
        entries: vec![
            ("first".to_string(), Backend::FacebookMobile(Mobile::new())),
            ("second".to_string(), Backend::FacebookMobile(Mobile::new())),
        ],
    };
    let (name, id) = sites.find("facebook.com/overlap").unwrap();
    assert_eq!(name, "first");
    assert_eq!(id, "overlap");
}

#[test]
fn owns_extracts_the_identifier() {
    let mobile = Mobile::new();
    assert_eq!(mobile.owns("https://facebook.com/grp").unwrap(), "grp");
    assert_eq!(mobile.owns("http://mobile.facebook.com/a/b?x=1").unwrap(), "a/b");
    assert!(mobile.owns("https://facebook.com/").is_none());
    assert!(mobile.owns("https://twitter.com/user").is_none());
}

#[test]
fn user_from_group_maps_permalink_to_url() {
    let group = Group {
        id: "g".to_string(),
        name: "n".to_string(),
        description: Some("d".to_string()),
        url: "u".to_string(),
        image: None,
        posts: vec![sitegrab::facebook::Post {
            id: "1".to_string(),
            name: "pn".to_string(),
            permalink_url: "purl".to_string(),
            message: "msg".to_string(),
            created_time: "ct".to_string(),
        }],
    };
    let user = user_from_group(group);
    assert_eq!(user.id, "g");
    assert_eq!(user.name, "n");
    assert_eq!(user.description.as_deref(), Some("d"));
    assert_eq!(user.posts.len(), 1);
    assert_eq!(user.posts[0].url, "purl");
    assert_eq!(user.posts[0].id, "1");
    assert_eq!(user.posts[0].created_time, "ct");
}

use ad_server::http::{Method, Request};
use ad_server::locale::{negotiate, LanguageTag};
use ad_server::server::AdServer;

fn tag(language: Option<&str>, region: Option<&str>) -> LanguageTag {
    LanguageTag { language: language.map(String::from), region: region.map(String::from) }
}

#[test]
fn no_header_settles_on_nothing() {
    assert_eq!(negotiate(None), None);
}

#[test]
fn empty_list_settles_on_nothing() {
    let tags: Vec<LanguageTag> = Vec::new();
    assert_eq!(negotiate(Some(&tags)), None);
}

#[test]
fn qualified_preference_gives_language_and_upper_case_region() {
    let tags = vec![tag(Some("en"), Some("us"))];
    assert_eq!(negotiate(Some(&tags)), Some("en-US".to_string()));
}

#[test]
fn first_qualified_preference_wins_over_earlier_bare_language() {
    let tags = vec![tag(Some("fr"), None), tag(Some("de"), Some("at")), tag(Some("en"), Some("GB"))];
    assert_eq!(negotiate(Some(&tags)), Some("de-AT".to_string()));
}

#[test]
fn without_qualified_preference_first_language_is_taken() {
    let tags = vec![tag(Some("de"), None), tag(Some("en"), None)];
    assert_eq!(negotiate(Some(&tags)), Some("de".to_string()));
}

#[test]
fn first_preference_without_language_settles_on_nothing() {
    let tags = vec![tag(None, None), tag(Some("en"), None)];
    assert_eq!(negotiate(Some(&tags)), None);
}

#[test]
fn region_without_language_is_not_qualified() {
    let tags = vec![tag(None, Some("US")), tag(Some("en"), None)];
    assert_eq!(negotiate(Some(&tags)), None);
}

#[test]
fn upper_case_follows_unicode() {
    let tags = vec![tag(Some("de"), Some("stra\u{df}e"))];
    assert_eq!(negotiate(Some(&tags)), Some("de-STRASSE".to_string()));
}

#[test]
fn locale_of_a_request_comes_from_its_preferences() {
    let req = Request {
        method: Method::Get,
        path: "/facebook-ads/ads".to_string(),
        query: None,
        languages: Some(vec![tag(Some("en"), Some("US"))]),
        bearer: None,
    };
    assert_eq!(AdServer::get_lang_from_headers(&req), Some("en-US".to_string()));
    let bare = Request { languages: None, ..req };
    assert_eq!(AdServer::get_lang_from_headers(&bare), None);
}

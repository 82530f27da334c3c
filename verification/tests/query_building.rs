//! Tests of the web-search glue: query parameters, query strings, URLs,
//! credential selection, and the parameter validators.

use brave_opus::brave::Auth;
use brave_opus::brave::Brave;
use brave_opus::brave::Subscription;
use brave_opus::brave::SuggestSearchParams;
use brave_opus::brave::WebSearchParams;
use brave_opus::brave::query_string;
use brave_opus::brave::request_url;
use brave_opus::brave::select_subscription_token;
use brave_opus::brave::summarize_url;
use brave_opus::value_parsers::freshness_value_parser;
use brave_opus::value_parsers::q_value_parser;
use brave_opus::value_parsers::result_filter_value_parser;

#[test]
fn minimal_params_send_only_q() {
    let p = WebSearchParams::new("rust verification");
    let pairs = p.to_query_params();
    assert_eq!(pairs, vec![("q".to_string(), "rust verification".to_string())]);
}

#[test]
fn set_params_appear_in_fixed_order() {
    let mut p = WebSearchParams::new("q term");
    p.country = Some("DE".to_string());
    p.count = Some(20);
    p.offset = Some(3);
    p.freshness = Some("pw".to_string());
    p.summary = Some("1".to_string());
    let pairs = p.to_query_params();
    assert_eq!(
        pairs,
        vec![
            ("q".to_string(), "q term".to_string()),
            ("country".to_string(), "DE".to_string()),
            ("count".to_string(), "20".to_string()),
            ("offset".to_string(), "3".to_string()),
            ("freshness".to_string(), "pw".to_string()),
            ("summary".to_string(), "1".to_string()),
        ]
    );
}

#[test]
fn suggest_params_send_their_keys() {
    let mut p = SuggestSearchParams::new("ru");
    p.lang = Some("en".to_string());
    p.count = Some(5);
    p.rich = Some("1".to_string());
    let pairs = p.to_query_params();
    assert_eq!(
        pairs,
        vec![
            ("q".to_string(), "ru".to_string()),
            ("lang".to_string(), "en".to_string()),
            ("count".to_string(), "5".to_string()),
            ("rich".to_string(), "1".to_string()),
        ]
    );
}

#[test]
fn query_string_joins_pairs() {
    let pairs = vec![
        ("q".to_string(), "a b".to_string()),
        ("count".to_string(), "2".to_string()),
    ];
    assert_eq!(query_string(&pairs), "q=a b&count=2");
    assert_eq!(query_string(&Vec::new()), "");
}

#[test]
fn request_url_joins_base_and_endpoint() {
    assert_eq!(
        request_url("https://api.search.brave.com/res/v1", "web/search"),
        "https://api.search.brave.com/res/v1/web/search"
    );
}

#[test]
fn summarize_url_percent_encodes_the_key() {
    let url = summarize_url("https://api.example", "summarizer/search", "a key/x");
    assert_eq!(url, "https://api.example/summarizer/search?key=a%20key%2Fx&entity_info=1");
}

#[test]
fn client_keeps_token_and_base() {
    let b = Brave::new(Auth::new("SECRET-REDACTED"), "https://api.example");
    assert_eq!(b.auth.subscription_token, "SECRET-REDACTED");
    assert_eq!(b.api_url, "https://api.example");
}

#[test]
fn explicit_token_takes_precedence() {
    let r = select_subscription_token(
        Subscription::WebSearch,
        Some("explicit".to_string()),
        Some("web".to_string()),
        Some("suggest".to_string()),
    );
    assert_eq!(r.as_deref(), Some("explicit"));
}

#[test]
fn subscription_specific_keys_are_used() {
    let r = select_subscription_token(
        Subscription::WebSearch,
        None,
        Some("web".to_string()),
        Some("suggest".to_string()),
    );
    assert_eq!(r.as_deref(), Some("web"));
    let r = select_subscription_token(
        Subscription::Suggest,
        None,
        Some("web".to_string()),
        Some("suggest".to_string()),
    );
    assert_eq!(r.as_deref(), Some("suggest"));
    let r = select_subscription_token(Subscription::Suggest, None, Some("web".to_string()), None);
    assert_eq!(r, None);
}

#[test]
fn q_parser_accepts_a_short_query() {
    assert_eq!(q_value_parser("what is rust").unwrap(), "what is rust");
}

#[test]
fn q_parser_refuses_over_400_bytes() {
    let long = "x".repeat(401);
    assert_eq!(
        q_value_parser(&long).unwrap_err(),
        "Query term is too long. Maximum 400 characters allowed"
    );
    let ok = "x".repeat(400);
    assert!(q_value_parser(&ok).is_ok());
}

#[test]
fn q_parser_refuses_over_50_words() {
    let many = vec!["w"; 51].join(" ");
    assert_eq!(
        q_value_parser(&many).unwrap_err(),
        "Query term is too long. Maximum 50 words allowed"
    );
    let fifty = vec!["w"; 50].join(" ");
    assert!(q_value_parser(&fifty).is_ok());
}

#[test]
fn result_filter_accepts_known_values() {
    assert!(result_filter_value_parser("web").is_ok());
    assert!(result_filter_value_parser("discussions,videos").is_ok());
    assert!(result_filter_value_parser("faq,infobox,news,query,summarizer").is_ok());
}

#[test]
fn result_filter_refuses_unknown_values() {
    let e = result_filter_value_parser("web,bogus").unwrap_err();
    assert!(e.starts_with("Invalid result filter value."));
    assert!(result_filter_value_parser("").is_err());
    assert!(result_filter_value_parser("web,").is_err());
}

#[test]
fn freshness_accepts_windows_and_ranges() {
    assert!(freshness_value_parser("pd").is_ok());
    assert!(freshness_value_parser("pw").is_ok());
    assert!(freshness_value_parser("pm").is_ok());
    assert_eq!(
        freshness_value_parser("2022-04-01to2022-07-30").unwrap(),
        "2022-04-01to2022-07-30"
    );
}

#[test]
fn freshness_refuses_other_values() {
    for bad in ["py", "2022-04-01", "2022-04-01to2022-7-30", "yesterday", ""] {
        assert_eq!(
            freshness_value_parser(bad).unwrap_err(),
            "Invalid freshness value. Must be 'pd', 'pw', 'pm' or 'YYYY-MM-DDtoYYYY-MM-DD'",
            "value {bad:?} should be refused"
        );
    }
}

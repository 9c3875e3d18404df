use twt2tg::errors::BotErrorKind;
use twt2tg::link::{first_parsable_id, tweet_id, tweet_id_from_link};
use twt2tg::reply::Reply;
use twt2tg::route::{
    callback_target, has_prefix, inline_result_id, inline_title, media_reply_switch, text_message_route,
    text_reply_switch, unroll_callback_data, CallbackTarget, TextRoute,
};

#[test]
fn link_gives_post_id() {
    let text = "look https://twitter.com/jack/status/20 wow".to_string();
    assert_eq!(tweet_id_from_link(&text).ok(), Some(20));
}

#[test]
fn text_without_link_is_not_a_post() {
    assert!(matches!(tweet_id_from_link("nothing here"), Err(e) if matches!(e.0, BotErrorKind::TweetParsingError)));
}

#[test]
fn bad_pattern_is_a_text_parsing_error() {
    assert!(matches!(tweet_id("abc", "(unclosed"), Err(e) if matches!(e.0, BotErrorKind::TextParsingError(_))));
}

#[test]
fn oversized_number_is_skipped_for_the_next_match() {
    let text = "twitter.com/a/status/99999999999999999999999 twitter.com/b/status/7";
    assert_eq!(tweet_id_from_link(text).ok(), Some(7));
}

#[test]
fn first_parsable_id_checks_groups() {
    let found = vec![
        vec![Some("whole".to_string())],
        vec![Some("whole".to_string()), None],
        vec![Some("whole".to_string()), Some("x1".to_string())],
        vec![Some("whole".to_string()), Some("31".to_string())],
        vec![Some("whole".to_string()), Some("32".to_string())],
    ];
    assert_eq!(first_parsable_id(&found), Some(31));
    assert_eq!(first_parsable_id(&vec![]), None);
}

#[test]
fn text_routes() {
    assert!(matches!(text_message_route("/start unroll_42"), TextRoute::Unroll(42)));
    assert!(matches!(text_message_route("/start unroll_x"), TextRoute::Ignore));
    assert!(matches!(text_message_route("/start 17"), TextRoute::Tweet(17)));
    assert!(matches!(text_message_route("/start"), TextRoute::Info));
    assert!(matches!(text_message_route("hello"), TextRoute::Ignore));
    assert!(matches!(text_message_route("https://twitter.com/a/status/3"), TextRoute::Tweet(3)));
}

#[test]
fn callback_routes() {
    assert!(matches!(callback_target(&Some("unroll_5".to_string())), Ok(CallbackTarget::Unroll(5))));
    assert!(matches!(callback_target(&Some("6".to_string())), Ok(CallbackTarget::Tweet(6))));
    assert!(matches!(callback_target(&Some("abc".to_string())), Err(e) if matches!(e.0, BotErrorKind::CallbackDataParsingError)));
    assert!(matches!(callback_target(&Some("unroll_".to_string())), Err(e) if matches!(e.0, BotErrorKind::CallbackDataParsingError)));
    assert!(matches!(callback_target(&None), Err(e) if matches!(e.0, BotErrorKind::CallbackDataParsingError)));
}

#[test]
fn prefixes() {
    assert!(has_prefix("unroll_1", "unroll_"));
    assert!(!has_prefix("unrol", "unroll_"));
    assert!(has_prefix("abc", ""));
}

#[test]
fn inline_switches() {
    let s = text_reply_switch("12", true);
    assert_eq!(s.text.as_deref(), Some("Unroll"));
    assert_eq!(s.parameter.as_deref(), Some("unroll_12"));
    let s = text_reply_switch("12", false);
    assert!(s.text.is_none() && s.parameter.is_none());
    let s = media_reply_switch("12", true, 1);
    assert_eq!(s.text.as_deref(), Some("Unroll Thread"));
    assert_eq!(s.parameter.as_deref(), Some("unroll_12"));
    let s = media_reply_switch("12", false, 3);
    assert_eq!(s.text.as_deref(), Some("All Media"));
    assert_eq!(s.parameter.as_deref(), Some("12"));
    let s = media_reply_switch("12", true, 2);
    assert_eq!(s.text.as_deref(), Some("More"));
    assert_eq!(s.parameter.as_deref(), Some("12"));
    let s = media_reply_switch("12", false, 1);
    assert!(s.text.is_none() && s.parameter.is_none());
    assert_eq!(unroll_callback_data("99"), "unroll_99");
}

#[test]
fn inline_titles_and_ids() {
    let with_name = Reply { user_name: Some("a.b".to_string()), thumb_url: None, text: "body".to_string(), media_entities: vec![] };
    let (title, description) = inline_title(&with_name);
    assert_eq!(title, "a\\.b");
    assert_eq!(description.as_deref(), Some("body"));
    let without = Reply { user_name: None, thumb_url: None, text: "body".to_string(), media_entities: vec![] };
    let (title, description) = inline_title(&without);
    assert_eq!(title, "body");
    assert!(description.is_none());
    assert_eq!(inline_result_id("10", "3_4"), "10_3_4");
}

use twt2tg::reply::{escaped_text, Reply};
use twt2tg::text::{trim_short_link, tweet_text_to_displayable_string};

#[test]
fn trailing_short_link_is_removed() {
    assert_eq!(tweet_text_to_displayable_string("hello world https://t.co/abc123"), "hello world");
}

#[test]
fn text_without_link_is_unchanged() {
    assert_eq!(tweet_text_to_displayable_string("hello world"), "hello world");
    assert_eq!(trim_short_link("just words."), "just words.");
}

#[test]
fn link_in_the_middle_stays() {
    assert_eq!(trim_short_link("see https://t.co/abc more"), "see https://t.co/abc more");
}

#[test]
fn link_after_newline_is_removed() {
    assert_eq!(trim_short_link("line one\nhttps://t.co/x/y.z"), "line one");
}

#[test]
fn link_without_path_stays() {
    assert_eq!(trim_short_link("text https://t.co/"), "text https://t.co/");
}

#[test]
fn link_without_leading_space_stays() {
    assert_eq!(trim_short_link("https://t.co/abc"), "https://t.co/abc");
}

#[test]
fn only_the_trailing_link_goes() {
    assert_eq!(
        trim_short_link("one https://t.co/aaa two https://t.co/bbb"),
        "one https://t.co/aaa two"
    );
}

#[test]
fn entities_are_decoded() {
    assert_eq!(tweet_text_to_displayable_string("Tom &amp; Jerry &lt;3"), "Tom & Jerry <3");
}

#[test]
fn decoded_text_loses_trailing_link() {
    assert_eq!(tweet_text_to_displayable_string("a &gt; b https://t.co/Q1"), "a > b");
}

#[test]
fn malformed_entity_gives_empty_text() {
    assert_eq!(tweet_text_to_displayable_string("broken &nosuchentity; text"), "");
}

#[test]
fn escaped_text_puts_bold_name_over_text() {
    let reply = Reply {
        user_name: Some("A_B".to_string()),
        thumb_url: None,
        text: "x.y (z)".to_string(),
        media_entities: vec![],
    };
    assert_eq!(escaped_text(&reply), "*A\\_B*\n\nx\\.y \\(z\\)");
}

#[test]
fn escaped_text_without_name_is_text_alone() {
    let reply = Reply { user_name: None, thumb_url: None, text: "1+1=2!".to_string(), media_entities: vec![] };
    assert_eq!(escaped_text(&reply), "1\\+1\\=2\\!");
}

use twt2tg::conversation::{media_for_key, ConversationReply, IncludedMedia, MediaVariant};
use twt2tg::media::{
    best_mp4_variant, conversation_reply_media, resolve_included, resolve_native, tweet_media, NativeMedia,
    NativeVariant, ParsedMedia,
};

fn variant(content_type: &str, url: &str, bit_rate: Option<i32>) -> MediaVariant {
    MediaVariant { content_type: content_type.to_string(), url: url.to_string(), bit_rate }
}

fn included(key: &str, preview: Option<&str>, variants: Option<Vec<MediaVariant>>) -> IncludedMedia {
    IncludedMedia {
        media_key: key.to_string(),
        kind: if variants.is_some() { "video".to_string() } else { "photo".to_string() },
        width: 1920,
        height: 1080,
        url: None,
        preview_image_url: preview.map(|p| p.to_string()),
        duration_ms: None,
        variants,
    }
}

fn photo(key: &str, url: &str) -> IncludedMedia {
    IncludedMedia {
        media_key: key.to_string(),
        kind: "photo".to_string(),
        width: 640,
        height: 480,
        url: Some(url.to_string()),
        preview_image_url: None,
        duration_ms: None,
        variants: None,
    }
}

#[test]
fn highest_bitrate_mp4_wins() {
    let m = included(
        "7_1",
        Some("https://pbs.twimg.com/thumb.jpg"),
        Some(vec![
            variant("video/mp4", "https://video.twimg.com/800.mp4", Some(800)),
            variant("video/mp4", "https://video.twimg.com/2000.mp4", Some(2000)),
            variant("video/webm", "https://video.twimg.com/300.webm", Some(300)),
        ]),
    );
    match resolve_included(&m) {
        Some(ParsedMedia::Video(v)) => {
            assert_eq!(v.url, "https://video.twimg.com/2000.mp4");
            assert_eq!(v.mime_type, "video/mp4");
            assert_eq!(v.thumb_url, "https://pbs.twimg.com/thumb.jpg");
            assert_eq!(v.id, "7_1");
            assert_eq!((v.width, v.height), (1920, 1080));
        },
        _ => panic!("expected a video"),
    }
}

#[test]
fn best_variant_index_and_ties() {
    let vs = vec![
        variant("video/mp4", "https://a/1.mp4", Some(800)),
        variant("video/mp4", "https://a/2.mp4", Some(2000)),
        variant("video/webm", "https://a/3.webm", Some(300)),
    ];
    assert_eq!(best_mp4_variant(&vs), Some(1));
    let ties = vec![
        variant("video/mp4", "https://a/1.mp4", Some(500)),
        variant("video/mp4", "https://a/2.mp4", Some(500)),
        variant("application/x-mpegURL", "https://a/3.m3u8", None),
    ];
    assert_eq!(best_mp4_variant(&ties), Some(1));
    let missing_rate = vec![variant("video/mp4", "https://a/1.mp4", None), variant("video/mp4", "https://a/2.mp4", Some(-5))];
    assert_eq!(best_mp4_variant(&missing_rate), Some(0));
    assert_eq!(best_mp4_variant(&vec![variant("video/webm", "https://a/1.webm", Some(1))]), None);
}

#[test]
fn video_without_mp4_falls_back_to_image() {
    let m = included(
        "3_9",
        Some("https://pbs.twimg.com/p.jpg"),
        Some(vec![variant("application/x-mpegURL", "https://video.twimg.com/p.m3u8", None)]),
    );
    match resolve_included(&m) {
        Some(ParsedMedia::Image(i)) => {
            assert_eq!(i.url, "https://pbs.twimg.com/p.jpg");
            assert_eq!(i.id, "3_9");
        },
        _ => panic!("expected an image"),
    }
}

#[test]
fn best_variant_with_bad_url_falls_back_to_image() {
    let m = included(
        "3_10",
        Some("https://pbs.twimg.com/p.jpg"),
        Some(vec![
            variant("video/mp4", "https://video.twimg.com/low.mp4", Some(100)),
            variant("video/mp4", "not a url", Some(900)),
        ]),
    );
    assert!(matches!(resolve_included(&m), Some(ParsedMedia::Image(_))));
}

#[test]
fn attachment_with_bad_preview_is_skipped() {
    assert!(resolve_included(&included("1", Some("::bad::"), None)).is_none());
    assert!(resolve_included(&included("1", None, None)).is_none());
}

#[test]
fn url_field_is_preferred_to_preview() {
    let mut m = included("5", Some("https://pbs.twimg.com/preview.jpg"), None);
    m.url = Some("https://pbs.twimg.com/full.jpg".to_string());
    match resolve_included(&m) {
        Some(ParsedMedia::Image(i)) => assert_eq!(i.url, "https://pbs.twimg.com/full.jpg"),
        _ => panic!("expected an image"),
    }
}

fn native(id: u64, url: &str, variants: Option<Vec<NativeVariant>>) -> NativeMedia {
    NativeMedia { id, media_url_https: url.to_string(), variants, width: 1200, height: 675 }
}

fn nvariant(content_type: &str, url: &str) -> NativeVariant {
    NativeVariant { content_type: content_type.to_string(), url: url.to_string() }
}

#[test]
fn native_video_takes_first_mp4_with_valid_url() {
    let m = native(
        1234567890123,
        "https://pbs.twimg.com/ext_tw_video_thumb/1.jpg",
        Some(vec![
            nvariant("application/x-mpegURL", "https://video.twimg.com/1.m3u8"),
            nvariant("video/mp4", "bad url"),
            nvariant("video/mp4", "https://video.twimg.com/low.mp4"),
            nvariant("video/mp4", "https://video.twimg.com/high.mp4"),
        ]),
    );
    match resolve_native(&m) {
        Some(ParsedMedia::Video(v)) => {
            assert_eq!(v.url, "https://video.twimg.com/low.mp4");
            assert_eq!(v.id, "1234567890123");
            assert_eq!(v.thumb_url, "https://pbs.twimg.com/ext_tw_video_thumb/1.jpg");
            assert_eq!(v.mime_type, "video/mp4");
            assert_eq!((v.width, v.height), (1200, 675));
        },
        _ => panic!("expected a video"),
    }
}

#[test]
fn native_photo_and_skips() {
    let media = Some(vec![
        native(1, "https://pbs.twimg.com/media/a.jpg", None),
        native(2, "no scheme", None),
        native(3, "https://pbs.twimg.com/media/c.jpg", Some(vec![])),
    ]);
    let resolved = tweet_media(&media);
    assert_eq!(resolved.len(), 2);
    assert!(matches!(&resolved[0], ParsedMedia::Image(i) if i.id == "1" && i.url == "https://pbs.twimg.com/media/a.jpg"));
    assert!(matches!(&resolved[1], ParsedMedia::Image(i) if i.id == "3"));
    assert!(tweet_media(&None).is_empty());
}

#[test]
fn media_keys_are_joined_with_the_table() {
    let table = vec![
        photo("k1", "https://pbs.twimg.com/old.jpg"),
        photo("k2", "https://pbs.twimg.com/two.jpg"),
        photo("k1", "https://pbs.twimg.com/new.jpg"),
    ];
    assert_eq!(media_for_key(&table, &"k1".to_string()), Some(2));
    assert_eq!(media_for_key(&table, &"k2".to_string()), Some(1));
    assert_eq!(media_for_key(&table, &"k3".to_string()), None);
    let reply = ConversationReply {
        id: "10".to_string(),
        text: "pics".to_string(),
        media_keys: Some(vec!["k2".to_string(), "missing".to_string(), "k1".to_string()]),
    };
    let media = conversation_reply_media(&reply, &table);
    assert_eq!(media.len(), 2);
    assert!(matches!(&media[0], ParsedMedia::Image(i) if i.url == "https://pbs.twimg.com/two.jpg"));
    assert!(matches!(&media[1], ParsedMedia::Image(i) if i.url == "https://pbs.twimg.com/new.jpg"));
    let plain = ConversationReply { id: "11".to_string(), text: "none".to_string(), media_keys: None };
    assert!(conversation_reply_media(&plain, &table).is_empty());
}

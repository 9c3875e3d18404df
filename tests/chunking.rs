use twt2tg::chunk::{chunk, OutputChunk};
use twt2tg::media::{ImageEntity, ParsedMedia, VideoEntity};
use twt2tg::thread::ThreadEntity;

fn text(t: &str) -> ThreadEntity {
    ThreadEntity { text: t.to_string(), media_entities: vec![] }
}

fn video(id: &str) -> ParsedMedia {
    ParsedMedia::Video(VideoEntity {
        id: id.to_string(),
        url: format!("https://video.twimg.com/{}.mp4", id),
        thumb_url: format!("https://pbs.twimg.com/{}.jpg", id),
        mime_type: "video/mp4".to_string(),
        width: 1280,
        height: 720,
    })
}

fn image(id: &str) -> ParsedMedia {
    ParsedMedia::Image(ImageEntity {
        id: id.to_string(),
        url: format!("https://pbs.twimg.com/{}.jpg", id),
        width: 800,
        height: 600,
    })
}

fn with_media(t: &str, media: Vec<ParsedMedia>) -> ThreadEntity {
    ThreadEntity { text: t.to_string(), media_entities: media }
}

fn ranges(chunks: &[OutputChunk]) -> Vec<(usize, usize)> {
    chunks.iter().map(|c| (c.first, c.end)).collect()
}

fn five_entity_thread() -> Vec<ThreadEntity> {
    vec![
        text("first"),
        text("second"),
        with_media("third", vec![video("v2")]),
        text("fourth"),
        with_media("fifth", vec![video("v4")]),
    ]
}

#[test]
fn five_entities_with_two_videos_make_four_chunks() {
    let entities = five_entity_thread();
    let chunks = chunk(&entities, 3072, 10);
    assert_eq!(ranges(&chunks), vec![(0, 2), (2, 3), (3, 4), (4, 5)]);
    assert_eq!(chunks[0].text, "first\n\nsecond");
    assert!(chunks[0].media_entities.is_empty());
    assert_eq!(chunks[1].text, "third");
    assert_eq!(chunks[1].media_entities.len(), 1);
    assert!(matches!(&chunks[1].media_entities[0], ParsedMedia::Video(v) if v.id == "v2"));
    assert_eq!(chunks[2].text, "fourth");
    assert!(chunks[2].media_entities.is_empty());
    assert_eq!(chunks[3].text, "fifth");
    assert!(matches!(&chunks[3].media_entities[0], ParsedMedia::Video(v) if v.id == "v4"));
}

#[test]
fn text_after_a_video_joins_its_caption_when_it_fits() {
    let entities = five_entity_thread();
    let chunks = chunk(&entities, 3072, 1024);
    assert_eq!(ranges(&chunks), vec![(0, 2), (2, 4), (4, 5)]);
    assert_eq!(chunks[1].text, "third\n\nfourth");
    assert_eq!(chunks[1].media_entities.len(), 1);
}

#[test]
fn single_entity_without_media_is_one_chunk() {
    let entities = vec![text("only one")];
    let chunks = chunk(&entities, 10, 10);
    assert_eq!(chunks.len(), 1);
    assert_eq!(chunks[0].text, "only one");
    assert!(chunks[0].media_entities.is_empty());
    assert_eq!(ranges(&chunks), vec![(0, 1)]);
}

#[test]
fn empty_thread_has_no_chunks() {
    let chunks = chunk(&vec![], 3072, 1024);
    assert!(chunks.is_empty());
}

#[test]
fn text_exactly_at_budget_stays_then_overflow_opens_chunk() {
    let entities = vec![text("aaaa"), text("bbbb"), text("cc")];
    let chunks = chunk(&entities, 10, 10);
    assert_eq!(ranges(&chunks), vec![(0, 2), (2, 3)]);
    assert_eq!(chunks[0].text, "aaaa\n\nbbbb");
    assert_eq!(chunks[0].text.chars().count(), 10);
    assert_eq!(chunks[1].text, "cc");
}

#[test]
fn oversized_entity_gets_a_chunk_of_its_own() {
    let long = "x".repeat(20);
    let entities = vec![text("ab"), text(&long), text("cd")];
    let chunks = chunk(&entities, 5, 5);
    assert_eq!(ranges(&chunks), vec![(0, 1), (1, 2), (2, 3)]);
    assert_eq!(chunks[1].text, long);
}

#[test]
fn budget_counts_characters_not_bytes() {
    let entities = vec![text("ééé"), text("üü")];
    let chunks = chunk(&entities, 7, 7);
    assert_eq!(ranges(&chunks), vec![(0, 2)]);
    assert_eq!(chunks[0].text, "ééé\n\nüü");
}

#[test]
fn later_chunks_use_rest_budget() {
    let entities = vec![text("aaaaaa"), text("b"), text("c")];
    let chunks = chunk(&entities, 4, 100);
    assert_eq!(ranges(&chunks), vec![(0, 1), (1, 3)]);
    assert_eq!(chunks[1].text, "b\n\nc");
}

#[test]
fn media_group_chunk_uses_message_budget() {
    let entities = vec![with_media("x", vec![image("a"), image("b")]), text("y"), text("z")];
    let chunks = chunk(&entities, 1, 1);
    assert_eq!(ranges(&chunks), vec![(0, 3)]);
    assert_eq!(chunks[0].text, "x\n\ny\n\nz");
    assert_eq!(chunks[0].media_entities.len(), 2);
}

#[test]
fn media_at_first_position_does_not_split() {
    let entities = vec![with_media("pic", vec![image("a")]), text("after")];
    let chunks = chunk(&entities, 1024, 1024);
    assert_eq!(ranges(&chunks), vec![(0, 2)]);
    assert_eq!(chunks[0].media_entities.len(), 1);
}

#[test]
fn every_media_entity_after_the_first_opens_a_chunk() {
    let entities = vec![
        text("a"),
        with_media("b", vec![image("1")]),
        with_media("c", vec![image("2")]),
        text("d"),
        text("e"),
    ];
    let chunks = chunk(&entities, 4096, 4096);
    let starts: Vec<usize> = chunks.iter().map(|c| c.first).collect();
    assert!(starts.contains(&1));
    assert!(starts.contains(&2));
    assert_eq!(ranges(&chunks), vec![(0, 1), (1, 2), (2, 5)]);
}

#[test]
fn chunks_cover_the_thread_in_order() {
    let entities: Vec<ThreadEntity> = (0..12)
        .map(|i| {
            if i % 5 == 3 {
                with_media(&format!("entity {}", i), vec![image(&i.to_string())])
            } else {
                text(&"w".repeat(i * 3))
            }
        })
        .collect();
    let chunks = chunk(&entities, 20, 15);
    let mut next = 0;
    for c in &chunks {
        assert_eq!(c.first, next);
        assert!(c.end > c.first);
        let joined: Vec<String> = entities[c.first..c.end].iter().map(|e| e.text.clone()).collect();
        assert_eq!(c.text, joined.join("\n\n"));
        next = c.end;
    }
    assert_eq!(next, entities.len());
}

#[test]
fn no_multi_entity_chunk_exceeds_budget() {
    let entities: Vec<ThreadEntity> = (0..15).map(|i| text(&"q".repeat((i * 7) % 11))).collect();
    let chunks = chunk(&entities, 12, 9);
    for c in &chunks {
        if c.end - c.first > 1 {
            let budget = if c.first == 0 { 12 } else { 9 };
            assert!(c.text.chars().count() <= budget);
        }
    }
}

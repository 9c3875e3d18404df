use vstd::prelude::*;

use crate::conversation::{attached, ConversationReply, IncludedMedia};
use crate::errors::{BotError, BotErrorKind};
use crate::media::{
    conversation_reply_media, copy_media_list, included_media_list, is_valid_url, native_media_list, tweet_media,
    url_valid, NativeMedia, ParsedMedia,
};
use crate::numbers::{parse_u64, parsed_u64};
use crate::post::Post;
use crate::text::{decode_html, displayable, html_decoded, tweet_text_to_displayable_string};

verus! {

/// One post of a thread: its displayable text and its resolved attachments.
pub struct ThreadEntity {
    pub text: String,
    pub media_entities: Vec<ParsedMedia>,
}

impl Clone for ThreadEntity {
    fn clone(&self) -> (r: Self)
        ensures
            r.text@ == self.text@,
            r.media_entities@ == self.media_entities@,
    {
        ThreadEntity { text: self.text.clone(), media_entities: copy_media_list(&self.media_entities) }
    }
}

/// A whole thread, labelled by its author.
pub struct ThreadReply {
    pub user_name: Option<String>,
    pub thumb_url: Option<String>,
    pub entities: Vec<ThreadEntity>,
}

/// What a post's attachments resolve to, as the single-post lookup gives them.
pub open spec fn post_media(media: Option<Vec<NativeMedia>>, rs: Seq<ParsedMedia>) -> bool {
    match media {
        None => rs.len() == 0,
        Some(ms) => native_media_list(ms@, rs),
    }
}

/// `e` is the thread entity of the post `p`.
pub open spec fn is_post_entity(p: Post, e: ThreadEntity) -> bool {
    &&& e.text@ == displayable(p.text@)
    &&& post_media(p.media, e.media_entities@)
}

/// `e` is the thread entity of the reply `r`, its attachments looked up in `table`.
pub open spec fn is_reply_entity(r: ConversationReply, table: Seq<IncludedMedia>, e: ThreadEntity) -> bool {
    &&& e.text@ == displayable(r.text@)
    &&& match r.media_keys {
        None => e.media_entities@.len() == 0,
        Some(keys) => included_media_list(attached(keys@, table), e.media_entities@),
    }
}

/// The thread entity of a post of the single-post lookup.
pub fn tweet_to_thread_entity(post: &Post) -> (r: ThreadEntity)
    ensures
        is_post_entity(*post, r),
{
    ThreadEntity { text: tweet_text_to_displayable_string(post.text.as_str()), media_entities: tweet_media(&post.media) }
}

/// The thread entity of a reply of the conversation search.
pub fn conversation_reply_to_thread_entity(reply: &ConversationReply, table: &Vec<IncludedMedia>) -> (r: ThreadEntity)
    ensures
        is_reply_entity(*reply, table@, r),
{
    ThreadEntity {
        text: tweet_text_to_displayable_string(reply.text.as_str()),
        media_entities: conversation_reply_media(reply, table),
    }
}

/// The author whose replies make up the thread of a post.
pub fn thread_author(anchor: &Post) -> (r: Result<String, BotError>)
    ensures
        match anchor.user {
            None => r == Err::<String, BotError>(BotError(BotErrorKind::MissedUserInTweet)),
            Some(u) => r matches Ok(a) && a@ == u.screen_name@,
        },
{
    match &anchor.user {
        None => Err(BotError(BotErrorKind::MissedUserInTweet)),
        Some(u) => Ok(u.screen_name.clone()),
    }
}

/// The conversation that a thread is searched in, once looked up; a post
/// without one cannot be unrolled.
pub fn thread_conversation(conversation_id: Option<String>) -> (r: Result<String, BotError>)
    ensures
        match conversation_id {
            None => r == Err::<String, BotError>(BotError(BotErrorKind::MissedConversationId)),
            Some(c) => r == Ok::<String, BotError>(c),
        },
{
    match conversation_id {
        None => Err(BotError(BotErrorKind::MissedConversationId)),
        Some(c) => Ok(c),
    }
}

/// Where the first entity of a thread comes from.
pub enum HeadSource {
    /// The post the thread was asked for opens it.
    Anchor,
    /// The thread's head is the post that this reply, the oldest found,
    /// answers.
    InReplyToOf(u64),
}

/// Whether the post `anchor_id` is among the replies found.
pub open spec fn anchor_in_replies(anchor_id: u64, replies: Seq<ConversationReply>) -> bool {
    exists|i: int| 0 <= i < replies.len() && parsed_u64(#[trigger] replies[i].id@) == Some(anchor_id)
}

/// Decides where a thread starts. A post that is not among its author's
/// replies opens the thread itself; one that is sits inside it, and the
/// head is the post that the oldest reply (the last one found) answers. An
/// oldest reply whose id is no number gives `InvalidThreadResponse`.
pub fn head_source(anchor_id: u64, replies: &Vec<ConversationReply>) -> (r: Result<HeadSource, BotError>)
    ensures
        !anchor_in_replies(anchor_id, replies@) ==> r == Ok::<HeadSource, BotError>(HeadSource::Anchor),
        anchor_in_replies(anchor_id, replies@) ==> replies@.len() > 0 && match parsed_u64(replies@.last().id@) {
            Some(v) => r == Ok::<HeadSource, BotError>(HeadSource::InReplyToOf(v)),
            None => r == Err::<HeadSource, BotError>(BotError(BotErrorKind::InvalidThreadResponse)),
        },
{
    let mut i: usize = 0;
    let mut found = false;
    while i < replies.len()
        invariant
            i <= replies.len(),
            found <==> exists|j: int| 0 <= j < i && parsed_u64(#[trigger] replies@[j].id@) == Some(anchor_id),
        decreases replies.len() - i,
    {
        if parse_u64(replies[i].id.as_str()) == Some(anchor_id) {
            found = true;
        }
        i = i + 1;
    }
    if !found {
        return Ok(HeadSource::Anchor);
    }
    match parse_u64(replies[replies.len() - 1].id.as_str()) {
        Some(v) => Ok(HeadSource::InReplyToOf(v)),
        None => Err(BotError(BotErrorKind::InvalidThreadResponse)),
    }
}

/// The entities of a thread: its head, then the replies from the oldest
/// (the last found) to the newest. The head is the anchor where it is not
/// among the replies, else `head`, the post the oldest reply answers, if
/// there is one.
pub open spec fn thread_entities(
    anchor: Post,
    replies: Seq<ConversationReply>,
    table: Seq<IncludedMedia>,
    head: Option<Post>,
    es: Seq<ThreadEntity>,
) -> bool {
    let heads: int = if !anchor_in_replies(anchor.id, replies) {
        1
    } else if head is Some {
        1
    } else {
        0
    };
    &&& es.len() == heads + replies.len()
    &&& !anchor_in_replies(anchor.id, replies) ==> is_post_entity(anchor, es[0])
    &&& anchor_in_replies(anchor.id, replies) ==> (head matches Some(h) ==> is_post_entity(h, es[0]))
    &&& forall|k: int| 0 <= k < replies.len() ==> is_reply_entity(replies[replies.len() - 1 - k], table, #[trigger] es[heads + k])
}

/// Assembles the thread of `anchor` from its author's replies (newest
/// first, as the search returns them), the attachments of all pages, and
/// `head`, the post the oldest reply answers where `head_source` asked for
/// it. The author is the thread's label: their name decoded, their picture
/// a URL that parses.
pub fn tweet_to_thread(
    anchor: &Post,
    replies: &Vec<ConversationReply>,
    table: &Vec<IncludedMedia>,
    head: Option<&Post>,
) -> (r: Result<ThreadReply, BotError>)
    ensures
        anchor.user is None ==> r == Err::<ThreadReply, BotError>(BotError(BotErrorKind::MissedUserInTweet)),
        anchor.user matches Some(u) ==> {
            if anchor_in_replies(anchor.id, replies@) && parsed_u64(replies@.last().id@) is None {
                r == Err::<ThreadReply, BotError>(BotError(BotErrorKind::InvalidThreadResponse))
            } else if html_decoded(u.name@) is None {
                r matches Err(BotError(BotErrorKind::HTMLDecodeError(_)))
            } else if !url_valid(u.profile_image_url_https@) {
                r == Err::<ThreadReply, BotError>(BotError(BotErrorKind::TweetParsingError))
            } else {
                &&& r matches Ok(t)
                &&& t.user_name matches Some(n) && n@ == html_decoded(u.name@)->0
                &&& t.thumb_url matches Some(p) && p@ == u.profile_image_url_https@
                &&& thread_entities(*anchor, replies@, table@, match head {
                    Some(h) => Some(*h),
                    None => None,
                }, t.entities@)
            }
        },
{
    let user = match &anchor.user {
        None => return Err(BotError(BotErrorKind::MissedUserInTweet)),
        Some(u) => u,
    };
    let ghost h = match head {
        Some(h) => Some(*h),
        None => None::<Post>,
    };
    let mut entities: Vec<ThreadEntity> = Vec::new();
    match head_source(anchor.id, replies) {
        Err(e) => return Err(e),
        Ok(HeadSource::Anchor) => entities.push(tweet_to_thread_entity(anchor)),
        Ok(HeadSource::InReplyToOf(_)) => {
            if let Some(p) = head {
                entities.push(tweet_to_thread_entity(p));
            }
        },
    }
    let heads = entities.len();
    let mut k = replies.len();
    while k > 0
        invariant
            k <= replies.len(),
            heads <= 1,
            entities@.len() == heads + (replies.len() - k),
            heads == 1 ==> (if !anchor_in_replies(anchor.id, replies@) {
                is_post_entity(*anchor, entities@[0])
            } else {
                h matches Some(hp) && is_post_entity(hp, entities@[0])
            }),
            heads == (if !anchor_in_replies(anchor.id, replies@) { 1usize } else if h is Some { 1usize } else { 0usize }),
            forall|j: int| 0 <= j < replies.len() - k ==> is_reply_entity(replies@[replies.len() - 1 - j], table@, #[trigger] entities@[heads + j]),
        decreases k,
    {
        k = k - 1;
        let e = conversation_reply_to_thread_entity(&replies[k], table);
        entities.push(e);
    }
    let name = match decode_html(user.name.as_str()) {
        Ok(n) => n,
        Err(e) => return Err(BotError(BotErrorKind::HTMLDecodeError(e))),
    };
    if !is_valid_url(user.profile_image_url_https.as_str()) {
        return Err(BotError(BotErrorKind::TweetParsingError));
    }
    Ok(ThreadReply { user_name: Some(name), thumb_url: Some(user.profile_image_url_https.clone()), entities })
}

/// A post that is not among its author's replies opens its own thread: no
/// head is looked up, and the first entity is the post itself, whatever
/// head was handed in.
pub proof fn lemma_anchor_opens_thread(
    anchor: Post,
    replies: Seq<ConversationReply>,
    table: Seq<IncludedMedia>,
    head: Option<Post>,
    es: Seq<ThreadEntity>,
)
    requires
        !anchor_in_replies(anchor.id, replies),
        thread_entities(anchor, replies, table, head, es),
    ensures
        es.len() == replies.len() + 1,
        is_post_entity(anchor, es[0]),
{
}

/// A post found among its author's replies sits inside a thread: the
/// first entity is the head handed in (the post that the oldest reply
/// answers, as `head_source` asks for), not the post itself.
pub proof fn lemma_inner_post_takes_head(
    anchor: Post,
    replies: Seq<ConversationReply>,
    table: Seq<IncludedMedia>,
    head: Post,
    es: Seq<ThreadEntity>,
)
    requires
        anchor_in_replies(anchor.id, replies),
        thread_entities(anchor, replies, table, Some(head), es),
    ensures
        es.len() == replies.len() + 1,
        is_post_entity(head, es[0]),
{
}

} // verus!

use vstd::prelude::*;

use crate::budget::{max_text_size, CAPTION_BUDGET, MESSAGE_BUDGET};
use crate::chunk::{chunk, is_chunking, separator, OutputChunk};
use crate::errors::{BotError, BotErrorKind};
use crate::media::{copy_media_list, is_valid_url, tweet_media, url_valid, ParsedMedia};
use crate::post::Post;
use crate::text::{bold, decode_html, displayable, escape, html_decoded, markdown_escaped, tweet_text_to_displayable_string};
use crate::thread::{post_media, ThreadEntity, ThreadReply};

verus! {

/// A single post, ready to be sent: its author's name and picture where it
/// has an author, its displayable text and its attachments.
pub struct Reply {
    pub user_name: Option<String>,
    pub thumb_url: Option<String>,
    pub text: String,
    pub media_entities: Vec<ParsedMedia>,
}

/// The characters of an optional string.
pub open spec fn opt_chars(o: Option<String>) -> Option<Seq<char>> {
    match o {
        Some(s) => Some(s@),
        None => None,
    }
}

/// What a message shows of a post: its author's name in bold, a blank line
/// and its text, all escaped for MarkdownV2; the text alone where there is
/// no name.
pub open spec fn titled(name: Option<Seq<char>>, text: Seq<char>) -> Seq<char> {
    match name {
        Some(n) => seq!['*'] + markdown_escaped(n) + seq!['*'] + separator() + markdown_escaped(text),
        None => markdown_escaped(text),
    }
}

/// Something that is sent under an author's name.
pub trait ReplyData {
    spec fn spec_user_name(&self) -> Option<Seq<char>>;

    spec fn spec_text(&self) -> Seq<char>;

    fn user_name(&self) -> (r: Option<String>)
        ensures
            opt_chars(r) == self.spec_user_name(),
    ;

    fn text(&self) -> (r: String)
        ensures
            r@ == self.spec_text(),
    ;
}

impl ReplyData for Reply {
    open spec fn spec_user_name(&self) -> Option<Seq<char>> {
        opt_chars(self.user_name)
    }

    open spec fn spec_text(&self) -> Seq<char> {
        self.text@
    }

    fn user_name(&self) -> (r: Option<String>) {
        match &self.user_name {
            Some(n) => Some(n.clone()),
            None => None,
        }
    }

    fn text(&self) -> (r: String) {
        self.text.clone()
    }
}

fn titled_text(name: &Option<String>, text: &str) -> (r: String)
    ensures
        r@ == titled(opt_chars(*name), text@),
{
    let escaped = escape(text);
    match name {
        Some(n) => {
            let title = escape(n.as_str());
            let mut r = bold(title.as_str());
            r.append("\n\n");
            proof {
                reveal_strlit("\n\n");
                assert("\n\n"@ =~= separator());
            }
            r.append(escaped.as_str());
            r
        },
        None => escaped,
    }
}

/// The escaped text of a message, under the author's name in bold where there is one.
pub fn escaped_text<T: ReplyData>(data: &T) -> (r: String)
    ensures
        r@ == titled(data.spec_user_name(), data.spec_text()),
{
    let name = data.user_name();
    let text = data.text();
    titled_text(&name, text.as_str())
}

/// Turns a post into a reply: its text made displayable, its attachments
/// resolved, and, where it has an author, the author's name decoded and
/// picture URL checked.
pub fn tweet_to_reply(post: &Post) -> (r: Result<Reply, BotError>)
    ensures
        post.user is None ==> (r matches Ok(rep) && rep.user_name is None && rep.thumb_url is None
            && rep.text@ == displayable(post.text@) && post_media(post.media, rep.media_entities@)),
        post.user matches Some(u) ==> if html_decoded(u.name@) is None {
            r matches Err(BotError(BotErrorKind::HTMLDecodeError(_)))
        } else if !url_valid(u.profile_image_url_https@) {
            r == Err::<Reply, BotError>(BotError(BotErrorKind::TweetParsingError))
        } else {
            &&& r matches Ok(rep)
            &&& rep.user_name matches Some(n) && n@ == html_decoded(u.name@)->0
            &&& rep.thumb_url matches Some(p) && p@ == u.profile_image_url_https@
            &&& rep.text@ == displayable(post.text@)
            &&& post_media(post.media, rep.media_entities@)
        },
{
    let text = tweet_text_to_displayable_string(post.text.as_str());
    match &post.user {
        Some(user) => {
            let name = match decode_html(user.name.as_str()) {
                Ok(n) => n,
                Err(e) => return Err(BotError(BotErrorKind::HTMLDecodeError(e))),
            };
            if !is_valid_url(user.profile_image_url_https.as_str()) {
                return Err(BotError(BotErrorKind::TweetParsingError));
            }
            Ok(
                Reply {
                    user_name: Some(name),
                    thumb_url: Some(user.profile_image_url_https.clone()),
                    text,
                    media_entities: tweet_media(&post.media),
                },
            )
        },
        None => Ok(Reply { user_name: None, thumb_url: None, text, media_entities: tweet_media(&post.media) }),
    }
}

/// How a message with these attachments is sent.
pub enum MessageShape {
    /// A text message.
    Text,
    /// A photo, with the text as its caption.
    Photo,
    /// A video, with the text as its caption.
    Video,
    /// A group of attachments, then the text as a message of its own.
    MediaGroup,
}

/// How a message is sent: as text where it has no attachment, as a photo or
/// a video where it has one, as a group of attachments where it has more.
pub fn message_shape(media: &Vec<ParsedMedia>) -> (r: MessageShape)
    ensures
        media@.len() == 0 ==> r == MessageShape::Text,
        media@.len() == 1 ==> (media@[0] is Image ==> r == MessageShape::Photo) && (media@[0] is Video ==> r
            == MessageShape::Video),
        media@.len() > 1 ==> r == MessageShape::MediaGroup,
{
    if media.len() == 0 {
        MessageShape::Text
    } else if media.len() == 1 {
        match &media[0] {
            ParsedMedia::Image(_) => MessageShape::Photo,
            ParsedMedia::Video(_) => MessageShape::Video,
        }
    } else {
        MessageShape::MediaGroup
    }
}

/// `es` are the entities of a thread as its messages show them: each text
/// escaped, the first under the author's name, the attachments kept.
pub open spec fn message_entities(t: Seq<ThreadEntity>, name: Option<Seq<char>>, es: Seq<ThreadEntity>) -> bool {
    &&& es.len() == t.len()
    &&& t.len() > 0 ==> es[0].text@ == titled(name, t[0].text@)
    &&& forall|k: int| 0 < k < t.len() ==> #[trigger] es[k].text@ == markdown_escaped(t[k].text@)
    &&& forall|k: int| 0 <= k < t.len() ==> #[trigger] es[k].media_entities@ == t[k].media_entities@
}

/// The budget of a thread's first message: a caption where its first
/// entity has one attachment, a text message otherwise.
pub open spec fn first_message_budget(t: Seq<ThreadEntity>) -> int {
    if t.len() > 0 && t[0].media_entities@.len() == 1 {
        CAPTION_BUDGET as int
    } else {
        MESSAGE_BUDGET as int
    }
}

/// A thread as the messages that send it.
pub struct ThreadMessages {
    /// The thread's entities as the messages show them.
    pub entities: Vec<ThreadEntity>,
    /// The messages, as ranges of `entities`.
    pub chunks: Vec<OutputChunk>,
}

/// Plans the messages of a thread: the entities' texts escaped, the first
/// under the author's name, then packed into chunks. The first message gets
/// the budget that its shape allows; every later one keeps to a caption's,
/// which any shape allows.
pub fn thread_messages(thread: &ThreadReply) -> (r: ThreadMessages)
    ensures
        message_entities(thread.entities@, opt_chars(thread.user_name), r.entities@),
        is_chunking(r.entities@, first_message_budget(thread.entities@), CAPTION_BUDGET as int, r.chunks@),
{
    let n = thread.entities.len();
    let mut entities: Vec<ThreadEntity> = Vec::new();
    let mut k: usize = 0;
    while k < n
        invariant
            k <= n,
            n == thread.entities.len(),
            entities@.len() == k,
            k > 0 ==> entities@[0].text@ == titled(opt_chars(thread.user_name), thread.entities@[0].text@),
            forall|j: int| 0 < j < k ==> #[trigger] entities@[j].text@ == markdown_escaped(thread.entities@[j].text@),
            forall|j: int| 0 <= j < k ==> #[trigger] entities@[j].media_entities@ == thread.entities@[j].media_entities@,
        decreases n - k,
    {
        let source = &thread.entities[k];
        let text = if k == 0 {
            titled_text(&thread.user_name, source.text.as_str())
        } else {
            escape(source.text.as_str())
        };
        entities.push(ThreadEntity { text, media_entities: copy_media_list(&source.media_entities) });
        k = k + 1;
    }
    let first_budget = max_text_size(n > 0 && thread.entities[0].media_entities.len() == 1);
    let chunks = chunk(&entities, first_budget, CAPTION_BUDGET);
    ThreadMessages { entities, chunks }
}

} // verus!

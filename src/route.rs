use vstd::prelude::*;

use crate::errors::{BotError, BotErrorKind};
use crate::link::{first_id, regex_captures, tweet_id, tweet_id_from_link, POST_LINK_PATTERN};
use crate::numbers::{parse_u64, parsed_u64};
use crate::reply::{opt_chars, Reply};
use crate::text::{chars_of, escape, markdown_escaped};

verus! {

/// Whether `s` starts with `p`.
pub open spec fn starts_with(s: Seq<char>, p: Seq<char>) -> bool {
    p.len() <= s.len() && s.subrange(0, p.len() as int) == p
}

/// Whether `s` starts with `p`.
pub fn has_prefix(s: &str, p: &str) -> (r: bool)
    ensures
        r == starts_with(s@, p@),
{
    let sc = chars_of(s);
    let pc = chars_of(p);
    if pc.len() > sc.len() {
        return false;
    }
    let mut i: usize = 0;
    while i < pc.len()
        invariant
            i <= pc.len() <= sc.len(),
            sc@ == s@,
            pc@ == p@,
            forall|j: int| 0 <= j < i ==> sc@[j] == pc@[j],
        decreases pc.len() - i,
    {
        if sc[i] != pc[i] {
            assert(s@.subrange(0, p@.len() as int)[i as int] != p@[i as int]);
            return false;
        }
        i = i + 1;
    }
    assert(s@.subrange(0, p@.len() as int) =~= p@);
    true
}

/// The rest of `s` after its first `n` characters.
fn rest_after(s: &str, n: usize) -> (r: &str)
    requires
        n <= s@.len(),
    ensures
        r@ == s@.subrange(n as int, s@.len() as int),
{
    s.substring_char(n, s.unicode_len())
}

/// The prefix of a button's data that asks for a thread.
pub open spec fn unroll_prefix() -> Seq<char> {
    "unroll_"@
}

/// The data of the button that asks to unroll the thread of post `id`.
pub fn unroll_callback_data(id: &str) -> (r: String)
    ensures
        r@ == unroll_prefix() + id@,
{
    let mut r = String::from_str("unroll_");
    r.append(id);
    r
}

/// What a button press asks for.
pub enum CallbackTarget {
    /// The whole thread of a post.
    Unroll(u64),
    /// A single post.
    Tweet(u64),
}

/// Reads a button's data: `unroll_` and a post's number asks for its
/// thread, a number alone for the post. Missing data, or data that is no
/// number, gives `CallbackDataParsingError`.
pub fn callback_target(data: &Option<String>) -> (r: Result<CallbackTarget, BotError>)
    ensures
        match data {
            None => r == Err::<CallbackTarget, BotError>(BotError(BotErrorKind::CallbackDataParsingError)),
            Some(d) => if starts_with(d@, unroll_prefix()) {
                match parsed_u64(d@.subrange(unroll_prefix().len() as int, d@.len() as int)) {
                    Some(v) => r == Ok::<CallbackTarget, BotError>(CallbackTarget::Unroll(v)),
                    None => r == Err::<CallbackTarget, BotError>(BotError(BotErrorKind::CallbackDataParsingError)),
                }
            } else {
                match parsed_u64(d@) {
                    Some(v) => r == Ok::<CallbackTarget, BotError>(CallbackTarget::Tweet(v)),
                    None => r == Err::<CallbackTarget, BotError>(BotError(BotErrorKind::CallbackDataParsingError)),
                }
            },
        },
{
    let d = match data {
        None => return Err(BotError(BotErrorKind::CallbackDataParsingError)),
        Some(d) => d,
    };
    let prefix = "unroll_";
    if has_prefix(d.as_str(), prefix) {
        match parse_u64(rest_after(d.as_str(), prefix.unicode_len())) {
            Some(v) => Ok(CallbackTarget::Unroll(v)),
            None => Err(BotError(BotErrorKind::CallbackDataParsingError)),
        }
    } else {
        match parse_u64(d.as_str()) {
            Some(v) => Ok(CallbackTarget::Tweet(v)),
            None => Err(BotError(BotErrorKind::CallbackDataParsingError)),
        }
    }
}

/// What a text message asks for.
pub enum TextRoute {
    /// The thread of a post, from the start link of an unroll button.
    Unroll(u64),
    /// A single post.
    Tweet(u64),
    /// What the bot does.
    Info,
    /// Nothing the bot answers.
    Ignore,
}

/// The pattern of a start command that carries a post's number.
pub const START_PATTERN: &'static str = "/start (\\d+)";

/// The post id a result of a link pattern gives, if any.
pub open spec fn found_id(pattern: Seq<char>, text: Seq<char>) -> Option<u64> {
    match regex_captures(pattern, text) {
        Some(found) => first_id(found),
        None => None,
    }
}

/// Routes a text message. A start command with `unroll_` and a number asks
/// for a thread, one with a number for a post, any other start command for
/// the bot's description. Any other text asks for the post it links to, and
/// is ignored where it links to none; so is an unroll command whose number
/// does not read.
pub fn text_message_route(text: &str) -> (r: TextRoute)
    ensures
        !starts_with(text@, "/start"@) ==> r == match found_id(POST_LINK_PATTERN@, text@) {
            Some(v) => TextRoute::Tweet(v),
            None => TextRoute::Ignore,
        },
        starts_with(text@, "/start unroll_"@) ==> r == match parsed_u64(
            text@.subrange("/start unroll_"@.len() as int, text@.len() as int),
        ) {
            Some(v) => TextRoute::Unroll(v),
            None => TextRoute::Ignore,
        },
        starts_with(text@, "/start"@) && !starts_with(text@, "/start unroll_"@) ==> r == match found_id(
            START_PATTERN@,
            text@,
        ) {
            Some(v) => TextRoute::Tweet(v),
            None => TextRoute::Info,
        },
{
    proof {
        reveal_strlit("/start");
        reveal_strlit("/start unroll_");
        if starts_with(text@, "/start unroll_"@) {
            assert(text@.subrange(0, 6) =~= "/start unroll_"@.subrange(0, 6));
            assert("/start unroll_"@.subrange(0, 6) =~= "/start"@);
        }
    }
    if has_prefix(text, "/start") {
        let unroll = "/start unroll_";
        if has_prefix(text, unroll) {
            match parse_u64(rest_after(text, unroll.unicode_len())) {
                Some(v) => TextRoute::Unroll(v),
                None => TextRoute::Ignore,
            }
        } else {
            match tweet_id(text, START_PATTERN) {
                Ok(v) => TextRoute::Tweet(v),
                Err(_) => TextRoute::Info,
            }
        }
    } else {
        match tweet_id_from_link(text) {
            Ok(v) => TextRoute::Tweet(v),
            Err(_) => TextRoute::Ignore,
        }
    }
}

/// The button under an inline answer that leads to a private chat.
pub struct InlineSwitch {
    pub text: Option<String>,
    pub parameter: Option<String>,
}

/// The private-chat button under an inline text answer: an unroll button
/// where the post belongs to a thread, none otherwise.
pub fn text_reply_switch(id: &str, included_in_thread: bool) -> (r: InlineSwitch)
    ensures
        included_in_thread ==> opt_chars(r.text) == Some("Unroll"@) && opt_chars(r.parameter) == Some(
            unroll_prefix() + id@,
        ),
        !included_in_thread ==> r.text is None && r.parameter is None,
{
    if included_in_thread {
        InlineSwitch { text: Some(String::from_str("Unroll")), parameter: Some(unroll_callback_data(id)) }
    } else {
        InlineSwitch { text: None, parameter: None }
    }
}

/// The private-chat button under an inline media answer: where the post has
/// several attachments it leads to all of them (labelled `More` where the
/// post is also in a thread, `All Media` otherwise); where it has one and
/// belongs to a thread it unrolls the thread; otherwise there is none.
pub fn media_reply_switch(id: &str, included_in_thread: bool, media_count: usize) -> (r: InlineSwitch)
    ensures
        included_in_thread && media_count <= 1 ==> opt_chars(r.text) == Some("Unroll Thread"@) && opt_chars(
            r.parameter,
        ) == Some(unroll_prefix() + id@),
        !included_in_thread && media_count > 1 ==> opt_chars(r.text) == Some("All Media"@) && opt_chars(
            r.parameter,
        ) == Some(id@),
        included_in_thread && media_count > 1 ==> opt_chars(r.text) == Some("More"@) && opt_chars(r.parameter)
            == Some(id@),
        !included_in_thread && media_count <= 1 ==> r.text is None && r.parameter is None,
{
    if media_count > 1 {
        let label = if included_in_thread {
            String::from_str("More")
        } else {
            String::from_str("All Media")
        };
        InlineSwitch { text: Some(label), parameter: Some(String::from_str(id)) }
    } else if included_in_thread {
        InlineSwitch { text: Some(String::from_str("Unroll Thread")), parameter: Some(unroll_callback_data(id)) }
    } else {
        InlineSwitch { text: None, parameter: None }
    }
}

/// The title and description of an inline answer: the author's escaped
/// name over the text, or the text alone where there is no author.
pub fn inline_title(reply: &Reply) -> (r: (String, Option<String>))
    ensures
        reply.user_name matches Some(n) ==> r.0@ == markdown_escaped(n@) && opt_chars(r.1) == Some(reply.text@),
        reply.user_name is None ==> r.0@ == reply.text@ && r.1 is None,
{
    match &reply.user_name {
        Some(n) => (escape(n.as_str()), Some(reply.text.clone())),
        None => (reply.text.clone(), None),
    }
}

/// The id of the inline result that shows one attachment of post `id`.
pub fn inline_result_id(id: &str, media_id: &str) -> (r: String)
    ensures
        r@ == id@ + "_"@ + media_id@,
{
    let mut r = String::from_str(id);
    r.append("_");
    r.append(media_id);
    r
}

} // verus!

use vstd::prelude::*;

use crate::errors::{BotError, BotErrorKind};
use crate::numbers::{parse_u64, parsed_u64};

verus! {

/// What a pattern finds in a text, if the pattern compiles: for each match
/// from left to right, the text of each of its groups (group 0 being the
/// whole match), where the group took part in it.
pub uninterp spec fn regex_captures(pattern: Seq<char>, text: Seq<char>) -> Option<Seq<Seq<Option<Seq<char>>>>>;

/// Relies on regex::Regex::new and Regex::captures_iter: the pattern is
/// compiled, or its error returned, and the matches that do not overlap are
/// listed from left to right, each with the text of its groups.
#[verifier::external_body]
fn captures(pattern: &str, text: &str) -> (r: Result<Vec<Vec<Option<String>>>, regex::Error>)
    ensures
        r.is_ok() == regex_captures(pattern@, text@).is_some(),
        r.is_ok() ==> r.unwrap().deep_view() == regex_captures(pattern@, text@).unwrap(),
{
    let re = regex::Regex::new(pattern)?;
    Ok(
        re.captures_iter(text).map(
            |caps| caps.iter().map(|g| g.map(|m| m.as_str().to_string())).collect(),
        ).collect(),
    )
}

/// The post id that one match gives: a match with exactly one group, whose
/// text reads as a number.
pub open spec fn id_in_match(groups: Seq<Option<Seq<char>>>) -> Option<u64> {
    if groups.len() == 2 && groups[1] is Some {
        parsed_u64(groups[1]->0)
    } else {
        None
    }
}

/// The id of the first match that gives one.
pub open spec fn first_id(matches: Seq<Seq<Option<Seq<char>>>>) -> Option<u64>
    decreases matches.len(),
{
    if matches.len() == 0 {
        None
    } else {
        match id_in_match(matches[0]) {
            Some(v) => Some(v),
            None => first_id(matches.drop_first()),
        }
    }
}

/// The id of the first match, of those a pattern found, whose one group
/// reads as a number.
pub fn first_parsable_id(found: &Vec<Vec<Option<String>>>) -> (r: Option<u64>)
    ensures
        r == first_id(found.deep_view()),
{
    let ghost dv = found.deep_view();
    let mut i: usize = 0;
    assert(dv.subrange(0, dv.len() as int) =~= dv);
    while i < found.len()
        invariant
            i <= found.len(),
            dv == found.deep_view(),
            first_id(dv) == first_id(dv.subrange(i as int, dv.len() as int)),
        decreases found.len() - i,
    {
        let ghost rest = dv.subrange(i as int, dv.len() as int);
        assert(rest.drop_first() =~= dv.subrange(i + 1, dv.len() as int));
        assert(rest[0] == found@[i as int].deep_view());
        let groups = &found[i];
        if groups.len() == 2 {
            if let Some(g) = &groups[1] {
                assert(rest[0][1] == Some(g@));
                let v = parse_u64(g.as_str());
                if v.is_some() {
                    return v;
                }
            }
        }
        i = i + 1;
    }
    None
}

/// The post id in a text: the first match of the pattern `re` whose one
/// group reads as a number. A pattern that does not compile gives
/// `TextParsingError`; a text without such a match, `TweetParsingError`.
pub fn tweet_id(text: &str, re: &str) -> (r: Result<u64, BotError>)
    ensures
        match regex_captures(re@, text@) {
            None => r matches Err(BotError(BotErrorKind::TextParsingError(_))),
            Some(found) => match first_id(found) {
                Some(v) => r == Ok::<u64, BotError>(v),
                None => r == Err::<u64, BotError>(BotError(BotErrorKind::TweetParsingError)),
            },
        },
{
    match captures(re, text) {
        Err(e) => Err(BotError(BotErrorKind::TextParsingError(e))),
        Ok(found) => match first_parsable_id(&found) {
            Some(v) => Ok(v),
            None => Err(BotError(BotErrorKind::TweetParsingError)),
        },
    }
}

/// The pattern of a link to a post: the author's handle, then the post's number.
pub const POST_LINK_PATTERN: &'static str = "twitter.com/\\w+/status/(\\d+)";

/// The id of the post that a link in the text points to.
pub fn tweet_id_from_link(text: &str) -> (r: Result<u64, BotError>)
    ensures
        match regex_captures(POST_LINK_PATTERN@, text@) {
            None => r matches Err(BotError(BotErrorKind::TextParsingError(_))),
            Some(found) => match first_id(found) {
                Some(v) => r == Ok::<u64, BotError>(v),
                None => r == Err::<u64, BotError>(BotError(BotErrorKind::TweetParsingError)),
            },
        },
{
    tweet_id(text, POST_LINK_PATTERN)
}

} // verus!

use vstd::prelude::*;

use crate::numbers::{decimal, decimal_string};

verus! {

/// One encoding of a video, as the conversation search lists it.
pub struct MediaVariant {
    pub content_type: String,
    pub url: String,
    pub bit_rate: Option<i32>,
}

/// An attachment that a conversation search page lists beside its replies,
/// found by its media key.
pub struct IncludedMedia {
    pub media_key: String,
    pub kind: String,
    pub width: i32,
    pub height: i32,
    pub url: Option<String>,
    pub preview_image_url: Option<String>,
    pub duration_ms: Option<i32>,
    pub variants: Option<Vec<MediaVariant>>,
}

/// A reply of the thread's author, as the conversation search returns it.
pub struct ConversationReply {
    pub id: String,
    pub text: String,
    pub media_keys: Option<Vec<String>>,
}

/// Where the media table holds the attachment of key `key`: the last entry
/// with that key, as a table filled in order keeps the entry put last.
pub open spec fn last_with_key(table: Seq<IncludedMedia>, key: Seq<char>) -> Option<int>
    decreases table.len(),
{
    if table.len() == 0 {
        None
    } else if table.last().media_key@ == key {
        Some(table.len() - 1)
    } else {
        last_with_key(table.drop_last(), key)
    }
}

/// Looks up the attachment of a media key in a table merged from all pages.
pub fn media_for_key(table: &Vec<IncludedMedia>, key: &String) -> (r: Option<usize>)
    ensures
        r matches Some(i) ==> i < table.len() && last_with_key(table@, key@) == Some(i as int),
        r is None ==> last_with_key(table@, key@) is None,
{
    let mut k = table.len();
    assert(table@.subrange(0, k as int) =~= table@);
    while k > 0
        invariant
            k <= table.len(),
            last_with_key(table@, key@) == last_with_key(table@.subrange(0, k as int), key@),
        decreases k,
    {
        let ghost pre = table@.subrange(0, k as int);
        assert(pre.drop_last() =~= table@.subrange(0, k - 1));
        if table[k - 1].media_key == *key {
            return Some(k - 1);
        }
        k = k - 1;
    }
    None
}

/// The attachments that the media keys name, in the keys' order; a key the
/// table lacks names nothing.
pub open spec fn attached(keys: Seq<String>, table: Seq<IncludedMedia>) -> Seq<IncludedMedia>
    decreases keys.len(),
{
    if keys.len() == 0 {
        Seq::empty()
    } else {
        let before = attached(keys.drop_last(), table);
        match last_with_key(table, keys.last()@) {
            Some(i) => before.push(table[i]),
            None => before,
        }
    }
}

/// One page of a conversation search: replies, the attachments they name,
/// and the cursor of the next page if there is one.
pub struct ConversationPage {
    pub replies: Vec<ConversationReply>,
    pub media: Vec<IncludedMedia>,
    pub next_token: Option<String>,
}

/// What the conversation search is to do next.
pub enum FetchAction {
    /// Ask for a page, after the cursor if there is one.
    FetchPage(Option<String>),
    /// Every page is in.
    Done,
}

/// The replies and attachments of a conversation search, merged page after page.
pub struct ConversationFetch {
    pub replies: Vec<ConversationReply>,
    pub media: Vec<IncludedMedia>,
}

impl ConversationFetch {
    /// A search that has no page yet, and the request for its first page.
    pub fn start() -> (r: (ConversationFetch, FetchAction))
        ensures
            r.0.replies@.len() == 0,
            r.0.media@.len() == 0,
            r.1 == FetchAction::FetchPage(None),
    {
        (ConversationFetch { replies: Vec::new(), media: Vec::new() }, FetchAction::FetchPage(None))
    }

    /// Takes in a page: its replies and attachments go after those taken so
    /// far, and the search goes on after its cursor, or ends where it has none.
    pub fn on_page(&mut self, page: ConversationPage) -> (r: FetchAction)
        ensures
            final(self).replies@ == old(self).replies@ + page.replies@,
            final(self).media@ == old(self).media@ + page.media@,
            r == (match page.next_token {
                Some(t) => FetchAction::FetchPage(Some(t)),
                None => FetchAction::Done,
            }),
    {
        let ConversationPage { mut replies, mut media, next_token } = page;
        self.replies.append(&mut replies);
        self.media.append(&mut media);
        match next_token {
            Some(t) => FetchAction::FetchPage(Some(t)),
            None => FetchAction::Done,
        }
    }
}

/// Where the search for a conversation's replies is sent.
pub fn search_url() -> (r: String)
    ensures
        r@ == "https://api.twitter.com/2/tweets/search/recent"@,
{
    String::from_str("https://api.twitter.com/2/tweets/search/recent")
}

/// The query of a search for the replies that the author addressed to
/// themself in a conversation, which leaves out the replies of others.
pub open spec fn search_query(conversation_id: Seq<char>, author: Seq<char>) -> Seq<char> {
    "conversation_id:"@ + conversation_id + " from:"@ + author + " to:"@ + author
}

/// The parameters of a search for the author's replies in a conversation:
/// the query and the page size, the attachment fields where `with_includes`
/// holds, and the cursor where one is given.
pub fn search_params(
    conversation_id: &str,
    author: &str,
    max_count: u64,
    with_includes: bool,
    next_token: Option<&String>,
) -> (r: Vec<(String, String)>)
    ensures
        r@.len() == 2 + (if with_includes { 2int } else { 0 }) + (if next_token is Some { 1int } else { 0 }),
        r@[0].0@ == "query"@,
        r@[0].1@ == search_query(conversation_id@, author@),
        r@[1].0@ == "max_results"@,
        r@[1].1@ == decimal(max_count as nat),
        with_includes ==> r@[2].0@ == "expansions"@ && r@[2].1@ == "attachments.media_keys"@,
        with_includes ==> r@[3].0@ == "media.fields"@ && r@[3].1@
            == "alt_text,duration_ms,height,media_key,preview_image_url,type,url,variants,width"@,
        next_token matches Some(t) ==> r@[r@.len() - 1].0@ == "next_token"@ && r@[r@.len() - 1].1@ == t@,
{
    let mut query = String::from_str("conversation_id:");
    query.append(conversation_id);
    query.append(" from:");
    query.append(author);
    query.append(" to:");
    query.append(author);
    let mut r: Vec<(String, String)> = Vec::new();
    r.push((String::from_str("query"), query));
    r.push((String::from_str("max_results"), decimal_string(max_count)));
    if with_includes {
        r.push((String::from_str("expansions"), String::from_str("attachments.media_keys")));
        r.push(
            (
                String::from_str("media.fields"),
                String::from_str("alt_text,duration_ms,height,media_key,preview_image_url,type,url,variants,width"),
            ),
        );
    }
    if let Some(t) = next_token {
        r.push((String::from_str("next_token"), t.clone()));
    }
    r
}

/// Where the conversation of a post is looked up.
pub fn conversation_lookup_url(tweet_id: u64) -> (r: String)
    ensures
        r@ == "https://api.twitter.com/2/tweets/"@ + decimal(tweet_id as nat),
{
    let mut r = String::from_str("https://api.twitter.com/2/tweets/");
    let id = decimal_string(tweet_id);
    r.append(id.as_str());
    r
}

/// The parameter that asks the post lookup for the post's conversation.
pub fn conversation_lookup_params() -> (r: Vec<(String, String)>)
    ensures
        r@.len() == 1,
        r@[0].0@ == "tweet.fields"@,
        r@[0].1@ == "conversation_id"@,
{
    let mut r: Vec<(String, String)> = Vec::new();
    r.push((String::from_str("tweet.fields"), String::from_str("conversation_id")));
    r
}

/// Whether a post belongs to a thread, from the first page of its author's
/// replies in its conversation: it does where there are two or more.
pub fn is_included_in_thread(first_page: &ConversationPage) -> (r: bool)
    ensures
        r == (first_page.replies@.len() >= 2),
{
    first_page.replies.len() >= 2
}

} // verus!

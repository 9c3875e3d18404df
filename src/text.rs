use vstd::prelude::*;

verus! {

/// The characters of `s`, in order.
pub fn chars_of(s: &str) -> (r: Vec<char>)
    ensures
        r@ == s@,
{
    let mut r: Vec<char> = Vec::new();
    for c in it: s.chars()
        invariant
            r@ == it.seq().take(it.index()),
    {
        r.push(c);
    }
    assert(r@ =~= s@);
    r
}

/// The result of decoding the HTML entities of a text, if it decodes.
pub uninterp spec fn html_decoded(s: Seq<char>) -> Option<Seq<char>>;

/// Whether a character has the Unicode `White_Space` property.
pub uninterp spec fn white_space(c: char) -> bool;

/// Whether a character is a Unicode word character.
pub uninterp spec fn word_char(c: char) -> bool;

/// Relies on htmlescape::decode_html: the text with each entity reference
/// replaced by the character it names, or an error on a malformed one. Only
/// `&` opens a reference, so a text without it is copied as it is.
#[verifier::external_body]
pub(crate) fn decode_html(s: &str) -> (r: Result<String, htmlescape::DecodeErr>)
    ensures
        r.is_ok() == html_decoded(s@).is_some(),
        r.is_ok() ==> r.unwrap()@ == html_decoded(s@).unwrap(),
        !s@.contains('&') ==> r.is_ok() && r.unwrap()@ == s@,
{
    htmlescape::decode_html(s)
}

/// Relies on char::is_whitespace: the Unicode `White_Space` property, the
/// class that `\s` names in a pattern.
#[verifier::external_body]
fn is_white_space(c: char) -> (r: bool)
    ensures
        r == white_space(c),
{
    c.is_whitespace()
}

/// Relies on regex_syntax::is_word_character: the Unicode word characters,
/// the class that `\w` names in a pattern. Its tables are compiled in by the
/// default features, so it does not panic.
#[verifier::external_body]
fn is_word_char(c: char) -> (r: bool)
    ensures
        r == word_char(c),
{
    regex_syntax::is_word_character(c)
}

/// A character that may stand in the path of a short link.
pub open spec fn link_char(c: char) -> bool {
    word_char(c) || c == '.' || c == '/'
}

fn is_link_char(c: char) -> (r: bool)
    ensures
        r == link_char(c),
{
    c == '.' || c == '/' || is_word_char(c)
}

/// The scheme and host of the platform's link shortener.
pub open spec fn short_link_prefix() -> Seq<char> {
    seq!['h', 't', 't', 'p', 's', ':', '/', '/', 't', '.', 'c', 'o', '/']
}

/// A short link starts at `p` and runs to the end of `s`: a white space, the
/// shortener's prefix, then one or more link characters.
pub open spec fn short_link_at(s: Seq<char>, p: int) -> bool {
    &&& 0 <= p
    &&& p + 14 < s.len()
    &&& white_space(s[p])
    &&& s.subrange(p + 1, p + 14) == short_link_prefix()
    &&& forall|k: int| p + 14 <= k < s.len() ==> link_char(#[trigger] s[k])
}

/// The first position from `p` on where a trailing short link starts.
pub open spec fn first_short_link(s: Seq<char>, p: int) -> Option<int>
    decreases s.len() - p,
{
    if p < 0 || p + 14 >= s.len() {
        None
    } else if short_link_at(s, p) {
        Some(p)
    } else {
        first_short_link(s, p + 1)
    }
}

/// The text without its trailing short link, if it ends with one.
pub open spec fn without_short_link(s: Seq<char>) -> Seq<char> {
    match first_short_link(s, 0) {
        Some(p) => s.subrange(0, p),
        None => s,
    }
}

fn prefix_at(cs: &Vec<char>, p: usize) -> (r: bool)
    requires
        p + 14 <= cs.len(),
    ensures
        r == (cs@.subrange(p + 1, p + 14) == short_link_prefix()),
{
    let pat: Vec<char> = vec!['h', 't', 't', 'p', 's', ':', '/', '/', 't', '.', 'c', 'o', '/'];
    assert(pat@ =~= short_link_prefix());
    let mut k: usize = 0;
    while k < 13
        invariant
            k <= 13,
            p + 14 <= cs.len(),
            pat@ == short_link_prefix(),
            forall|j: int| 0 <= j < k ==> cs@[p + 1 + j] == pat@[j],
        decreases 13 - k,
    {
        if cs[p + 1 + k] != pat[k] {
            assert(cs@.subrange(p + 1, p + 14)[k as int] != short_link_prefix()[k as int]);
            return false;
        }
        k = k + 1;
    }
    assert(cs@.subrange(p + 1, p + 14) =~= short_link_prefix());
    true
}

/// Removes the short link that the platform appends to a post's text: a
/// white space, `https://t.co/` and a path up to the end. Any other text
/// comes back unchanged.
pub fn trim_short_link(s: &str) -> (r: String)
    ensures
        r@ == without_short_link(s@),
        first_short_link(s@, 0) is None ==> r@ == s@,
{
    let cs = chars_of(s);
    let n = cs.len();
    let mut t = n;
    while t > 0 && is_link_char(cs[t - 1])
        invariant
            t <= n,
            n == cs.len(),
            forall|k: int| t <= k < n ==> link_char(#[trigger] cs@[k]),
        decreases t,
    {
        t = t - 1;
    }
    let mut p: usize = 0;
    while p < n && n - p > 14
        invariant
            t <= n,
            n == cs.len(),
            cs@ == s@,
            forall|k: int| t <= k < n ==> link_char(#[trigger] cs@[k]),
            t == 0 || !link_char(cs@[t - 1]),
            first_short_link(s@, 0) == first_short_link(s@, p as int),
        decreases n - p,
    {
        if p + 14 >= t && is_white_space(cs[p]) && prefix_at(&cs, p) {
            assert(short_link_at(s@, p as int));
            return String::from_str(s.substring_char(0, p));
        }
        if p + 14 < t {
            assert(!link_char(s@[t - 1]));
        }
        assert(!short_link_at(s@, p as int));
        p = p + 1;
    }
    String::from_str(s)
}

/// The text with its HTML entities decoded, or nothing where it does not decode.
pub open spec fn decoded_or_empty(s: Seq<char>) -> Seq<char> {
    match html_decoded(s) {
        Some(d) => d,
        None => Seq::empty(),
    }
}

/// What a post's raw text shows: entities decoded, the trailing short link removed.
pub open spec fn displayable(s: Seq<char>) -> Seq<char> {
    without_short_link(decoded_or_empty(s))
}

/// Turns a post's raw text into displayable text: HTML entities decoded (a
/// text that does not decode becomes empty) and the trailing short link
/// removed. Nothing is cut.
pub fn tweet_text_to_displayable_string(text: &str) -> (r: String)
    ensures
        r@ == displayable(text@),
        !text@.contains('&') ==> r@ == without_short_link(text@),
        !text@.contains('&') && first_short_link(text@, 0) is None ==> r@ == text@,
{
    let decoded = match decode_html(text) {
        Ok(d) => d,
        Err(_) => String::new(),
    };
    trim_short_link(decoded.as_str())
}

/// A character that MarkdownV2 reserves.
pub open spec fn markdown_special(c: char) -> bool {
    c == '_' || c == '*' || c == '[' || c == ']' || c == '(' || c == ')' || c == '~' || c == '`'
        || c == '>' || c == '#' || c == '+' || c == '-' || c == '=' || c == '|' || c == '{'
        || c == '}' || c == '.' || c == '!'
}

/// The text with a backslash before each reserved character.
pub open spec fn markdown_escaped(s: Seq<char>) -> Seq<char>
    decreases s.len(),
{
    if s.len() == 0 {
        Seq::empty()
    } else {
        let c = s.last();
        markdown_escaped(s.drop_last()) + if markdown_special(c) {
            seq!['\\', c]
        } else {
            seq![c]
        }
    }
}

/// Relies on teloxide::utils::markdown::escape: each reserved character
/// gets a backslash before it, every other character stays.
#[verifier::external_body]
pub(crate) fn escape(s: &str) -> (r: String)
    ensures
        r@ == markdown_escaped(s@),
{
    teloxide::utils::markdown::escape(s)
}

/// Relies on teloxide::utils::markdown::bold: the text between two asterisks.
#[verifier::external_body]
pub(crate) fn bold(s: &str) -> (r: String)
    ensures
        r@ == seq!['*'] + s@ + seq!['*'],
{
    teloxide::utils::markdown::bold(s)
}

} // verus!

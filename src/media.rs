use vstd::prelude::*;

use crate::conversation::{attached, media_for_key, ConversationReply, IncludedMedia, MediaVariant};
use crate::numbers::{decimal, decimal_string};

verus! {

/// A video attachment resolved to one playable variant.
pub struct VideoEntity {
    pub id: String,
    pub url: String,
    pub thumb_url: String,
    pub mime_type: String,
    pub width: i32,
    pub height: i32,
}

/// An image attachment, or a video shown by its preview image.
pub struct ImageEntity {
    pub id: String,
    pub url: String,
    pub width: i32,
    pub height: i32,
}

/// One attachment of a post, ready to be sent: a video or an image, never both.
pub enum ParsedMedia {
    Video(VideoEntity),
    Image(ImageEntity),
}

impl Clone for VideoEntity {
    fn clone(&self) -> (r: Self)
        ensures
            r == *self,
    {
        VideoEntity {
            id: self.id.clone(),
            url: self.url.clone(),
            thumb_url: self.thumb_url.clone(),
            mime_type: self.mime_type.clone(),
            width: self.width,
            height: self.height,
        }
    }
}

impl Clone for ImageEntity {
    fn clone(&self) -> (r: Self)
        ensures
            r == *self,
    {
        ImageEntity {
            id: self.id.clone(),
            url: self.url.clone(),
            width: self.width,
            height: self.height,
        }
    }
}

impl Clone for ParsedMedia {
    fn clone(&self) -> (r: Self)
        ensures
            r == *self,
    {
        match self {
            ParsedMedia::Video(v) => ParsedMedia::Video(v.clone()),
            ParsedMedia::Image(i) => ParsedMedia::Image(i.clone()),
        }
    }
}

/// A copy of a list of attachments, element for element.
pub fn copy_media_list(v: &Vec<ParsedMedia>) -> (r: Vec<ParsedMedia>)
    ensures
        r@ == v@,
{
    let mut r: Vec<ParsedMedia> = Vec::new();
    let mut i: usize = 0;
    while i < v.len()
        invariant
            i <= v.len(),
            r@ == v@.subrange(0, i as int),
        decreases v.len() - i,
    {
        r.push(v[i].clone());
        i = i + 1;
    }
    assert(r@ =~= v@);
    r
}

/// Whether a text parses as an absolute URL.
pub uninterp spec fn url_valid(s: Seq<char>) -> bool;

/// Relies on url::Url::parse: whether the text parses as an absolute URL.
#[verifier::external_body]
pub(crate) fn is_valid_url(s: &str) -> (r: bool)
    ensures
        r == url_valid(s@),
{
    url::Url::parse(s).is_ok()
}

/// The content type of a playable video variant.
pub open spec fn mp4_type() -> Seq<char> {
    seq!['v', 'i', 'd', 'e', 'o', '/', 'm', 'p', '4']
}

fn mp4_type_string() -> (r: String)
    ensures
        r@ == mp4_type(),
{
    let r = String::from_str("video/mp4");
    proof {
        reveal_strlit("video/mp4");
        assert(r@ =~= mp4_type());
    }
    r
}

/// One encoding of a video, as the single-post lookup lists it.
pub struct NativeVariant {
    pub content_type: String,
    pub url: String,
}

/// An attachment of a post, as the single-post lookup returns it; `variants`
/// is there for a video only.
pub struct NativeMedia {
    pub id: u64,
    pub media_url_https: String,
    pub variants: Option<Vec<NativeVariant>>,
    pub width: i32,
    pub height: i32,
}

/// `k` is the first MP4 variant whose URL parses.
pub open spec fn first_playable(vs: Seq<NativeVariant>, k: int) -> bool {
    &&& 0 <= k < vs.len()
    &&& vs[k].content_type@ == mp4_type() && url_valid(vs[k].url@)
    &&& forall|j: int| 0 <= j < k ==> !(#[trigger] vs[j].content_type@ == mp4_type() && url_valid(vs[j].url@))
}

/// What an attachment of the single-post lookup resolves to: the first MP4
/// variant whose URL parses, else the attachment's image.
pub open spec fn native_resolves_to(m: NativeMedia, r: ParsedMedia) -> bool {
    match r {
        ParsedMedia::Video(v) => {
            &&& m.variants matches Some(vs) && exists|k: int|
                first_playable(vs@, k) && v.url@ == #[trigger] vs@[k].url@ && v.mime_type@ == vs@[k].content_type@
            &&& v.id@ == decimal(m.id as nat)
            &&& v.thumb_url@ == m.media_url_https@
            &&& v.width == m.width && v.height == m.height
        },
        ParsedMedia::Image(i) => {
            &&& !(m.variants matches Some(vs) && exists|k: int| first_playable(vs@, k))
            &&& i.id@ == decimal(m.id as nat)
            &&& i.url@ == m.media_url_https@
            &&& i.width == m.width && i.height == m.height
        },
    }
}

/// `rs` holds what each attachment of `ms` whose URL parses resolves to, in order.
pub open spec fn native_media_list(ms: Seq<NativeMedia>, rs: Seq<ParsedMedia>) -> bool
    decreases ms.len(),
{
    if ms.len() == 0 {
        rs.len() == 0
    } else if url_valid(ms.last().media_url_https@) {
        &&& rs.len() > 0
        &&& native_resolves_to(ms.last(), rs.last())
        &&& native_media_list(ms.drop_last(), rs.drop_last())
    } else {
        native_media_list(ms.drop_last(), rs)
    }
}

fn first_playable_variant(vs: &Vec<NativeVariant>) -> (r: Option<usize>)
    ensures
        r matches Some(k) ==> first_playable(vs@, k as int),
        r is None ==> !exists|k: int| first_playable(vs@, k),
{
    let mp4 = mp4_type_string();
    let mut k: usize = 0;
    while k < vs.len()
        invariant
            k <= vs.len(),
            mp4@ == mp4_type(),
            forall|j: int| 0 <= j < k ==> !(#[trigger] vs@[j].content_type@ == mp4_type() && url_valid(vs@[j].url@)),
        decreases vs.len() - k,
    {
        if vs[k].content_type == mp4 && is_valid_url(vs[k].url.as_str()) {
            return Some(k);
        }
        k = k + 1;
    }
    None
}

/// Resolves one attachment of the single-post lookup: nothing where its
/// image URL does not parse, else a video from its first MP4 variant whose
/// URL parses, else its image.
pub fn resolve_native(m: &NativeMedia) -> (r: Option<ParsedMedia>)
    ensures
        r is Some <==> url_valid(m.media_url_https@),
        r matches Some(p) ==> native_resolves_to(*m, p),
{
    if !is_valid_url(m.media_url_https.as_str()) {
        return None;
    }
    let id = decimal_string(m.id);
    if let Some(vs) = &m.variants {
        if let Some(k) = first_playable_variant(vs) {
            let r = ParsedMedia::Video(VideoEntity {
                id,
                url: vs[k].url.clone(),
                thumb_url: m.media_url_https.clone(),
                mime_type: vs[k].content_type.clone(),
                width: m.width,
                height: m.height,
            });
            return Some(r);
        }
    }
    Some(ParsedMedia::Image(ImageEntity { id, url: m.media_url_https.clone(), width: m.width, height: m.height }))
}

/// Resolves the attachments of a post from the single-post lookup, keeping
/// their order and leaving out those whose URL does not parse.
pub fn tweet_media(media: &Option<Vec<NativeMedia>>) -> (r: Vec<ParsedMedia>)
    ensures
        match media {
            None => r@.len() == 0,
            Some(ms) => native_media_list(ms@, r@),
        },
{
    let mut r: Vec<ParsedMedia> = Vec::new();
    match media {
        None => r,
        Some(ms) => {
            let mut i: usize = 0;
            while i < ms.len()
                invariant
                    i <= ms.len(),
                    native_media_list(ms@.subrange(0, i as int), r@),
                decreases ms.len() - i,
            {
                let ghost before = r@;
                let resolved = resolve_native(&ms[i]);
                proof {
                    assert(ms@.subrange(0, i + 1).drop_last() =~= ms@.subrange(0, i as int));
                }
                if let Some(p) = resolved {
                    r.push(p);
                    assert(r@.drop_last() =~= before);
                }
                i = i + 1;
            }
            assert(ms@.subrange(0, ms.len() as int) =~= ms@);
            r
        },
    }
}

/// The bit rate a variant is ranked by; one without a bit rate ranks as zero.
pub open spec fn rate(v: MediaVariant) -> int {
    match v.bit_rate {
        Some(b) => b as int,
        None => 0,
    }
}

/// `k` is the MP4 variant of highest bit rate, the last of them where
/// several share it.
pub open spec fn is_best_mp4(vs: Seq<MediaVariant>, k: int) -> bool {
    &&& 0 <= k < vs.len()
    &&& vs[k].content_type@ == mp4_type()
    &&& forall|j: int|
        0 <= j < vs.len() && #[trigger] vs[j].content_type@ == mp4_type() ==> rate(vs[j]) <= rate(vs[k]) && (j > k
            ==> rate(vs[j]) < rate(vs[k]))
}

/// The MP4 variant of highest bit rate (the last of equals), or nothing
/// where no variant is MP4.
pub fn best_mp4_variant(vs: &Vec<MediaVariant>) -> (r: Option<usize>)
    ensures
        r matches Some(k) ==> is_best_mp4(vs@, k as int),
        r is None ==> forall|j: int| 0 <= j < vs.len() ==> #[trigger] vs@[j].content_type@ != mp4_type(),
{
    let mp4 = mp4_type_string();
    let mut best: Option<usize> = None;
    let mut k: usize = 0;
    while k < vs.len()
        invariant
            k <= vs.len(),
            mp4@ == mp4_type(),
            best is None ==> forall|j: int| 0 <= j < k ==> #[trigger] vs@[j].content_type@ != mp4_type(),
            best matches Some(b) ==> b < k && is_best_mp4(vs@.subrange(0, k as int), b as int),
        decreases vs.len() - k,
    {
        if vs[k].content_type == mp4 {
            let r = match vs[k].bit_rate {
                Some(b) => b,
                None => 0,
            };
            let better = match best {
                None => true,
                Some(b) => {
                    let rb = match vs[b].bit_rate {
                        Some(x) => x,
                        None => 0,
                    };
                    rb <= r
                },
            };
            if better {
                best = Some(k);
            }
        }
        proof {
            let next = vs@.subrange(0, k + 1);
            assert forall|j: int| 0 <= j < k implies #[trigger] next[j] == vs@.subrange(0, k as int)[j] by {}
        }
        k = k + 1;
    }
    assert(vs@.subrange(0, vs.len() as int) =~= vs@);
    best
}

/// The address that shows an attachment of the conversation search: its
/// URL, else its preview image, else nothing.
pub open spec fn preview_of(m: IncludedMedia) -> Seq<char> {
    match m.url {
        Some(u) => u@,
        None => match m.preview_image_url {
            Some(u) => u@,
            None => Seq::empty(),
        },
    }
}

/// What an attachment of the conversation search resolves to: a video from
/// its best MP4 variant if that variant's URL parses, else its preview image.
pub open spec fn included_resolves_to(m: IncludedMedia, r: ParsedMedia) -> bool {
    let plays = m.variants matches Some(vs) && exists|k: int| is_best_mp4(vs@, k) && url_valid(#[trigger] vs@[k].url@);
    match r {
        ParsedMedia::Video(v) => {
            &&& m.variants matches Some(vs) && exists|k: int|
                is_best_mp4(vs@, k) && url_valid(vs@[k].url@) && v.url@ == #[trigger] vs@[k].url@
            &&& v.id@ == m.media_key@
            &&& v.thumb_url@ == preview_of(m)
            &&& v.mime_type@ == mp4_type()
            &&& v.width == m.width && v.height == m.height
        },
        ParsedMedia::Image(i) => {
            &&& !plays
            &&& i.id@ == m.media_key@
            &&& i.url@ == preview_of(m)
            &&& i.width == m.width && i.height == m.height
        },
    }
}

/// `rs` holds what each attachment of `ms` whose preview URL parses
/// resolves to, in order.
pub open spec fn included_media_list(ms: Seq<IncludedMedia>, rs: Seq<ParsedMedia>) -> bool
    decreases ms.len(),
{
    if ms.len() == 0 {
        rs.len() == 0
    } else if url_valid(preview_of(ms.last())) {
        &&& rs.len() > 0
        &&& included_resolves_to(ms.last(), rs.last())
        &&& included_media_list(ms.drop_last(), rs.drop_last())
    } else {
        included_media_list(ms.drop_last(), rs)
    }
}

fn preview_string(m: &IncludedMedia) -> (r: String)
    ensures
        r@ == preview_of(*m),
{
    match (&m.url, &m.preview_image_url) {
        (Some(u), _) => u.clone(),
        (_, Some(u)) => u.clone(),
        _ => String::new(),
    }
}

/// Resolves one attachment of the conversation search: nothing where its
/// preview URL does not parse, else a video from its MP4 variant of highest
/// bit rate if that variant's URL parses, else its preview image.
pub fn resolve_included(m: &IncludedMedia) -> (r: Option<ParsedMedia>)
    ensures
        r is Some <==> url_valid(preview_of(*m)),
        r matches Some(p) ==> included_resolves_to(*m, p),
{
    let preview = preview_string(m);
    if !is_valid_url(preview.as_str()) {
        return None;
    }
    if let Some(vs) = &m.variants {
        if let Some(k) = best_mp4_variant(vs) {
            if is_valid_url(vs[k].url.as_str()) {
                let r = ParsedMedia::Video(VideoEntity {
                    id: m.media_key.clone(),
                    url: vs[k].url.clone(),
                    thumb_url: preview,
                    mime_type: mp4_type_string(),
                    width: m.width,
                    height: m.height,
                });
                return Some(r);
            } else {
                proof {
                    assert forall|j: int| is_best_mp4(vs@, j) implies !url_valid(#[trigger] vs@[j].url@) by {
                        if j != k {
                            if j < k {
                                assert(rate(vs@[k as int]) < rate(vs@[j]));
                            } else {
                                assert(rate(vs@[j]) < rate(vs@[k as int]));
                            }
                        }
                    }
                }
            }
        }
    }
    Some(ParsedMedia::Image(ImageEntity { id: m.media_key.clone(), url: preview, width: m.width, height: m.height }))
}

/// Resolves the attachments of a reply of the conversation search: those
/// its media keys name in the merged table, in the keys' order, leaving out
/// those whose preview URL does not parse.
pub fn conversation_reply_media(reply: &ConversationReply, table: &Vec<IncludedMedia>) -> (r: Vec<ParsedMedia>)
    ensures
        match reply.media_keys {
            None => r@.len() == 0,
            Some(keys) => included_media_list(attached(keys@, table@), r@),
        },
{
    let mut r: Vec<ParsedMedia> = Vec::new();
    match &reply.media_keys {
        None => r,
        Some(keys) => {
            let mut i: usize = 0;
            while i < keys.len()
                invariant
                    i <= keys.len(),
                    included_media_list(attached(keys@.subrange(0, i as int), table@), r@),
                decreases keys.len() - i,
            {
                let ghost before = r@;
                let ghost ms = attached(keys@.subrange(0, i as int), table@);
                proof {
                    assert(keys@.subrange(0, i + 1).drop_last() =~= keys@.subrange(0, i as int));
                    assert(keys@.subrange(0, i + 1).last() == keys@[i as int]);
                }
                let found = media_for_key(table, &keys[i]);
                proof {
                    let k1 = keys@.subrange(0, i + 1);
                    match found {
                        Some(j) => assert(attached(k1, table@) == ms.push(table@[j as int])),
                        None => assert(attached(k1, table@) == ms),
                    }
                }
                if let Some(j) = found {
                    let resolved = resolve_included(&table[j]);
                    proof {
                        let next = ms.push(table@[j as int]);
                        assert(next.drop_last() =~= ms);
                    }
                    if let Some(p) = resolved {
                        r.push(p);
                        assert(r@.drop_last() =~= before);
                    }
                }
                i = i + 1;
            }
            assert(keys@.subrange(0, keys.len() as int) =~= keys@);
            r
        },
    }
}

} // verus!

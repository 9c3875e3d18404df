use vstd::prelude::*;

verus! {

/// What a page view event says of the visitor and the page.
pub struct PageViewPayload {
    pub website: String,
    pub url: String,
    pub referrer: String,
    pub hostname: String,
    pub language: String,
    pub screen: String,
}

/// A page view event for the analytics collector.
pub struct PageView {
    pub payload: PageViewPayload,
    pub kind: String,
}

/// Builds the page view event for `page` of the site `umami_id`: the bot
/// reports itself as an English desktop browser with no referrer.
pub fn page_view(umami_id: String, page: String) -> (r: PageView)
    ensures
        r.payload.website@ == umami_id@,
        r.payload.url@ == page@,
        r.payload.referrer@ == Seq::<char>::empty(),
        r.payload.hostname@ == "twt_2_tg_bot"@,
        r.payload.language@ == "en-US"@,
        r.payload.screen@ == "1920x1080"@,
        r.kind@ == "pageview"@,
{
    PageView {
        payload: PageViewPayload {
            website: umami_id,
            url: page,
            referrer: String::new(),
            hostname: String::from_str("twt_2_tg_bot"),
            language: String::from_str("en-US"),
            screen: String::from_str("1920x1080"),
        },
        kind: String::from_str("pageview"),
    }
}

} // verus!

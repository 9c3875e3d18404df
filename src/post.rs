use vstd::prelude::*;

use crate::media::NativeMedia;

verus! {

/// The author of a post.
pub struct PostUser {
    pub name: String,
    pub screen_name: String,
    pub profile_image_url_https: String,
}

/// A post as the single-post lookup returns it.
pub struct Post {
    pub id: u64,
    pub text: String,
    pub user: Option<PostUser>,
    /// The post's attachments, where it has any.
    pub media: Option<Vec<NativeMedia>>,
    pub in_reply_to_status_id: Option<u64>,
}

} // verus!

use vstd::prelude::*;

verus! {

/// Largest number of characters in a photo or video caption.
pub const CAPTION_BUDGET: usize = 1024;

/// Largest number of characters in a standalone text message.
pub const MESSAGE_BUDGET: usize = 4096;

/// The character budget of a message: a caption when `caption` holds,
/// a standalone text message otherwise.
pub fn max_text_size(caption: bool) -> (r: usize)
    ensures
        r == (if caption { CAPTION_BUDGET } else { MESSAGE_BUDGET }),
{
    if caption {
        CAPTION_BUDGET
    } else {
        MESSAGE_BUDGET
    }
}

} // verus!

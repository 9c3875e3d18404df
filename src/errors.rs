use vstd::prelude::*;

verus! {

#[verifier::external_type_specification]
#[verifier::external_body]
pub struct ExRegexError(regex::Error);

#[verifier::external_type_specification]
#[verifier::external_body]
pub struct ExDecodeErr(htmlescape::DecodeErr);

/// What went wrong while turning a post into messages.
#[derive(Debug)]
pub enum BotErrorKind {
    /// The text holds no link to a post, or an id that is not a number.
    TweetParsingError,
    /// A pattern handed to the link matcher does not compile.
    TextParsingError(regex::Error),
    /// An author's name holds a malformed HTML entity.
    HTMLDecodeError(htmlescape::DecodeErr),
    /// A button's data names no post.
    CallbackDataParsingError,
    /// The post has no conversation where a thread was expected.
    MissedConversationId,
    /// The conversation search answered with something no thread is made of.
    InvalidThreadResponse,
    /// The post has no author.
    MissedUserInTweet,
}

/// An error of the library, carrying its kind.
#[derive(Debug)]
pub struct BotError(pub BotErrorKind);

impl BotError {
    /// The kind of this error.
    pub fn kind(&self) -> (r: &BotErrorKind)
        ensures
            *r == self.0,
    {
        &self.0
    }
}

impl From<BotErrorKind> for BotError {
    fn from(error: BotErrorKind) -> (r: BotError) {
        BotError(error)
    }
}

impl vstd::std_specs::convert::FromSpecImpl<BotErrorKind> for BotError {
    open spec fn obeys_from_spec() -> bool {
        true
    }

    open spec fn from_spec(error: BotErrorKind) -> BotError {
        BotError(error)
    }
}

} // verus!

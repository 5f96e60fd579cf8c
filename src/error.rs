use vstd::prelude::*;

verus! {

#[verifier::external_type_specification]
#[verifier::external_body]
pub struct ExParseError(url::ParseError);

/// What can go wrong when a server choice is resolved.
#[derive(Debug)]
pub enum Error {
    /// A custom server address is not an absolute URL: the text as it was
    /// given, and the parser's account of why it was refused.
    InvalidUrl { url: String, reason: url::ParseError },
}

impl Error {
    /// The address that the error is about.
    pub open spec fn address(self) -> Seq<char> {
        match self {
            Error::InvalidUrl { url, .. } => url@,
        }
    }
}

pub type Result<T> = std::result::Result<T, Error>;

} // verus!

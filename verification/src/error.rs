//! Why a request for the pixel can fail.

use vstd::prelude::*;
use vstd::string::*;

verus! {

/// The failure of one request. It ends that request and nothing else.
#[derive(Debug, PartialEq, Eq)]
pub enum PixelError {
    /// The transport could not tell the caller's address.
    AddressUnavailable,
    /// The PNG encoder failed. The field is the encoder's own account of
    /// the cause.
    EncodingFailure(String),
}

/// What is said when the caller's address is unknown.
pub open spec fn address_unavailable_text() -> Seq<char> {
    "no remote address"@
}

/// What is said when the encoder fails with `cause`.
pub open spec fn encoding_failure_text(cause: Seq<char>) -> Seq<char> {
    "Error encoding PNG: "@ + cause
}

impl PixelError {
    /// The human-readable description of the failure.
    pub open spec fn message_text(self) -> Seq<char> {
        match self {
            PixelError::AddressUnavailable => address_unavailable_text(),
            PixelError::EncodingFailure(cause) => encoding_failure_text(cause@),
        }
    }

    /// Renders the description of the failure.
    pub fn message(&self) -> (text: String)
        ensures
            text@ == self.message_text(),
    {
        match self {
            PixelError::AddressUnavailable => String::from_str("no remote address"),
            PixelError::EncodingFailure(cause) => {
                let mut text = String::from_str("Error encoding PNG: ");
                text.append(cause.as_str());
                text
            },
        }
    }
}

} // verus!

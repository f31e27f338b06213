//! Why a request fails, and what the user is told.

use vstd::prelude::*;

verus! {

/// Why a request could not be completed.
#[derive(Clone, Copy, Debug, PartialEq, Eq, Structural)]
pub enum Failure {
    /// The bytes could not be decoded as an image.
    NotAnImage,
    /// The file reported at fetch time is over the size limit.
    TooLarge,
    /// An external converter exited unsuccessfully.
    TranscodeFailed,
    /// An external converter did not finish within its deadline.
    Timeout,
    /// Reading, writing or spawning failed.
    Io,
    /// The messaging front end did not accept a reply.
    DeliveryFailed,
}

/// The text a user is shown for each failure; failures with no message of
/// their own share the generic one.
pub open spec fn user_message_of(f: Failure) -> Seq<char> {
    match f {
        Failure::NotAnImage => "File is not an image."@,
        Failure::TooLarge => "File too big"@,
        Failure::DeliveryFailed => "Failed to send."@,
        _ => "Something went wrong."@,
    }
}

impl Failure {
    pub fn user_message(&self) -> (r: &'static str)
        ensures
            r@ == user_message_of(*self),
    {
        match self {
            Failure::NotAnImage => "File is not an image.",
            Failure::TooLarge => "File too big",
            Failure::DeliveryFailed => "Failed to send.",
            _ => "Something went wrong.",
        }
    }
}

} // verus!

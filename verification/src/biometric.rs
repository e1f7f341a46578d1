//! Biometric unlock on a platform that offers none: always unsupported.
use vstd::prelude::*;
use vstd::string::*;

verus! {

/// Whether biometric unlock can be offered.
#[derive(Debug, Clone, Copy, PartialEq, Eq, Structural)]
pub enum Availability {
    Available,
    NotConfigured,
    Unsupported,
}

/// Biometric unlock is not available on this platform.
pub fn availability() -> (r: Availability)
    ensures
        r == Availability::Unsupported,
{
    Availability::Unsupported
}

/// The message given when biometric authentication is asked for.
pub open spec fn unavailable_message() -> Seq<char> {
    "biometric authentication is not available on this platform"@
}

/// Biometric authentication always fails here, with the same message, whatever
/// the reason shown to the user.
pub fn authenticate(_reason: &str) -> (r: Result<bool, String>)
    ensures
        r matches Err(e) && e@ == unavailable_message(),
{
    Err(String::from_str("biometric authentication is not available on this platform"))
}

/// The user-facing name of the biometric method.
pub fn label() -> (r: &'static str)
    ensures
        r@ == "biometric"@,
{
    "biometric"
}

} // verus!

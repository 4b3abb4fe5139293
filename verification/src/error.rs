//! The ways in which one exchange can fail.

use vstd::prelude::*;

verus! {

/// Why an exchange was abandoned. Every failure is local to the exchange that
/// met it: the listeners and the other exchanges go on.
#[derive(Clone, Copy, Debug, PartialEq, Eq, Structural)]
pub enum RelayError {
    /// The bytes are no DNS message the relay can use.
    Parse,
    /// The query for the upstream could not be built within the size limits.
    Encode,
    /// Sending to, or connecting to, the upstream resolver failed.
    UpstreamUnreachable,
    /// The upstream resolver did not answer in time.
    UpstreamTimeout,
    /// The shared upstream connection was in use by another exchange.
    UpstreamBusy,
}

impl RelayError {
    /// A short description of the failure, for logs.
    pub fn describe(&self) -> (text: &'static str)
        ensures
            text@ == match *self {
                RelayError::Parse => "malformed DNS message"@,
                RelayError::Encode => "query exceeds size limits"@,
                RelayError::UpstreamUnreachable => "upstream unreachable"@,
                RelayError::UpstreamTimeout => "upstream timed out"@,
                RelayError::UpstreamBusy => "upstream session busy"@,
            },
    {
        match self {
            RelayError::Parse => "malformed DNS message",
            RelayError::Encode => "query exceeds size limits",
            RelayError::UpstreamUnreachable => "upstream unreachable",
            RelayError::UpstreamTimeout => "upstream timed out",
            RelayError::UpstreamBusy => "upstream session busy",
        }
    }
}

} // verus!

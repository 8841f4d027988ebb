//! The data model of the relay core: normalized notifications and the
//! outcome of a downstream delivery attempt.

use vstd::prelude::*;

verus! {

/// Build status of a notification, normalized across providers.
#[derive(Clone, Copy, Debug, PartialEq, Eq, Structural)]
pub enum BuildStatus {
    Success,
    Failure,
    Pending,
    Unknown,
}

/// A notification derived from a verified request body.  It is only ever
/// constructed after signature verification has succeeded; the provider
/// name comes from the authenticated provider, never from the payload.
#[derive(Clone, Debug)]
pub struct NormalizedNotification {
    pub status: BuildStatus,
    pub project: String,
    pub target_url: Option<String>,
    pub source_provider: String,
}

/// The classified outcome of one delivery attempt to the downstream sink.
#[derive(Clone, Debug)]
pub struct RelayOutcome {
    pub delivered: bool,
    pub http_status: Option<u16>,
    pub error_detail: Option<String>,
}

/// View of an optional string as an optional character sequence.
pub open spec fn opt_string_view(o: Option<String>) -> Option<Seq<char>> {
    match o {
        Some(s) => Some(s@),
        None => None,
    }
}

} // verus!

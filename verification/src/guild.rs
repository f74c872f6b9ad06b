use vstd::prelude::*;

verus! {

/// One remote guild as one enumeration sees it: an opaque numeric identifier
/// and a display name. Fetched fresh every cycle and never persisted.
#[derive(Debug)]
pub struct GuildSummary {
    pub id: u64,
    pub name: String,
}

/// Classified failure of one REST call.
#[derive(Clone, Copy, Debug, PartialEq, Eq, Structural)]
pub enum ApiError {
    RateLimited,
    Network,
    Auth,
    Server,
}

} // verus!

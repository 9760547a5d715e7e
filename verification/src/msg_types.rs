//! What a caller hands to a pass and what it gets back.

use std::collections::HashMap;
use vstd::prelude::*;

verus! {

/// How a pass ended, as the driver of the stores reports it.
#[derive(Clone, Copy, Debug, PartialEq, Eq, Structural)]
pub enum PassStatus {
    Success,
    NetworkError,
    ServiceError,
    AuthenticationError,
    BackedOff,
    Interrupted,
    OtherError,
}

/// How a pass ended, as the caller sees it.
#[derive(Clone, Copy, Debug, PartialEq, Eq, Structural)]
pub enum ServiceStatus {
    Success,
    NetworkError,
    ServiceError,
    AuthError,
    BackedOff,
    OtherError,
}

/// The public status of each internal one. Cancellation has no status of its
/// own and is reported as `OtherError`.
pub open spec fn public_status(s: PassStatus) -> ServiceStatus {
    match s {
        PassStatus::Success => ServiceStatus::Success,
        PassStatus::NetworkError => ServiceStatus::NetworkError,
        PassStatus::ServiceError => ServiceStatus::ServiceError,
        PassStatus::AuthenticationError => ServiceStatus::AuthError,
        PassStatus::BackedOff => ServiceStatus::BackedOff,
        PassStatus::Interrupted => ServiceStatus::OtherError,
        PassStatus::OtherError => ServiceStatus::OtherError,
    }
}

impl From<PassStatus> for ServiceStatus {
    fn from(s: PassStatus) -> (r: ServiceStatus) {
        match s {
            PassStatus::Success => ServiceStatus::Success,
            PassStatus::NetworkError => ServiceStatus::NetworkError,
            PassStatus::ServiceError => ServiceStatus::ServiceError,
            PassStatus::AuthenticationError => ServiceStatus::AuthError,
            PassStatus::BackedOff => ServiceStatus::BackedOff,
            PassStatus::Interrupted => ServiceStatus::OtherError,
            PassStatus::OtherError => ServiceStatus::OtherError,
        }
    }
}

impl vstd::std_specs::convert::FromSpecImpl<PassStatus> for ServiceStatus {
    open spec fn obeys_from_spec() -> bool {
        true
    }

    open spec fn from_spec(s: PassStatus) -> ServiceStatus {
        public_status(s)
    }
}

/// What the caller supplies for one pass.
#[derive(Clone, Debug)]
pub struct SyncParams {
    /// The engines asked for by name.
    pub engines_to_sync: Vec<String>,
    /// Whether every available engine is asked for.
    pub sync_all_engines: bool,
    pub acct_key_id: String,
    pub acct_access_token: String,
    pub acct_tokenserver_url: String,
    /// The symmetric key bundle, base64-encoded.
    pub acct_sync_key: String,
    /// The engines to switch on or off, by name. The orchestrator hands the
    /// map on as it is.
    pub engines_to_change_state: HashMap<String, bool>,
    /// The blob that the previous pass handed back, if there was one.
    pub persisted_state: Option<String>,
}

/// One engine that failed in a pass, with its message.
#[derive(Clone, Debug, PartialEq, Eq)]
pub struct EngineFailure {
    pub engine: String,
    pub message: String,
}

pub struct FailureText {
    pub engine: Seq<char>,
    pub message: Seq<char>,
}

impl View for EngineFailure {
    type V = FailureText;

    open spec fn view(&self) -> FailureText {
        FailureText { engine: self.engine@, message: self.message@ }
    }
}

/// What a pass hands back.
#[derive(Debug)]
pub struct SyncResult {
    pub status: ServiceStatus,
    /// The engines that failed, each once; one that succeeded is absent.
    pub results: Vec<EngineFailure>,
    pub have_declined: bool,
    pub declined: Vec<String>,
    pub next_sync_allowed_at: Option<u64>,
    /// The blob for the caller to store and hand to the next pass.
    pub persisted_state: String,
    pub telemetry_json: Option<String>,
}

} // verus!

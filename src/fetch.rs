//! Connection credentials and the outcome of one credential fetch.
use vstd::prelude::*;

verus! {

/// One candidate host of the chat service.
#[derive(Clone, Debug, PartialEq, Eq)]
pub struct HostList {
    pub host: String,
    pub port: u16,
    pub wss_port: u16,
    pub ws_port: u16,
}

/// Credentials for the downstream chat connection: a token and the
/// candidate hosts, in the order the service gave them.
#[derive(Clone, Debug, PartialEq, Eq)]
pub struct DanmuInfo {
    pub token: String,
    pub host_list: Vec<HostList>,
}

/// Why a credential fetch failed.
#[derive(Clone, Copy, Debug, PartialEq, Eq, Structural)]
pub enum FetchError {
    /// The request did not complete.
    NetworkError,
    /// The body is not the expected structured payload.
    DecodeError,
    /// The payload decoded but lists no host.
    EmptyResponse,
}

impl DanmuInfo {
    /// Usable credentials list at least one host.
    pub open spec fn usable(&self) -> bool {
        self.host_list@.len() > 0
    }

    /// Accepts decoded credentials only when they list a host.
    pub fn check(self) -> (r: Result<DanmuInfo, FetchError>)
        ensures
            self.usable() ==> r == Ok::<DanmuInfo, FetchError>(self),
            !self.usable() ==> r == Err::<DanmuInfo, FetchError>(FetchError::EmptyResponse),
    {
        if self.host_list.len() > 0 {
            Ok(self)
        } else {
            Err(FetchError::EmptyResponse)
        }
    }
}

/// A message from a fetch task to the loop that owns the connection: the
/// outcome of the attempt tagged with the attempt's generation.
#[derive(Clone, Debug, PartialEq, Eq)]
pub enum StateEvent {
    Fetched(u64, DanmuInfo),
    Failed(u64, FetchError),
}

impl StateEvent {
    /// The generation of the attempt this event reports on.
    pub open spec fn gen(&self) -> nat {
        match self {
            StateEvent::Fetched(g, _) => *g as nat,
            StateEvent::Failed(g, _) => *g as nat,
        }
    }

    pub fn generation(&self) -> (r: u64)
        ensures
            r as nat == self.gen(),
    {
        match self {
            StateEvent::Fetched(g, _) => *g,
            StateEvent::Failed(g, _) => *g,
        }
    }

    /// The event that reports a fetch outcome for attempt `generation`.
    /// Credentials without a host are reported as an empty response.
    pub fn from_outcome(generation: u64, outcome: Result<DanmuInfo, FetchError>) -> (r: StateEvent)
        ensures
            r == (match outcome {
                Ok(info) => if info.usable() {
                    StateEvent::Fetched(generation, info)
                } else {
                    StateEvent::Failed(generation, FetchError::EmptyResponse)
                },
                Err(e) => StateEvent::Failed(generation, e),
            }),
    {
        match outcome {
            Ok(info) => match info.check() {
                Ok(info) => StateEvent::Fetched(generation, info),
                Err(e) => StateEvent::Failed(generation, e),
            },
            Err(e) => StateEvent::Failed(generation, e),
        }
    }
}

/// What the owning loop must start after a connect: one credential fetch
/// for `room_id`, whose outcome is reported under `generation`.
#[derive(Clone, Copy, Debug, PartialEq, Eq, Structural)]
pub struct FetchRequest {
    pub generation: u64,
    pub room_id: u64,
}

} // verus!

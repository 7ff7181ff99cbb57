//! The action dispatcher: maps a decoded request's (domain, action keyword)
//! pair to one of a fixed set of host actions, or rejects the combination.
//!
//! Dispatch is stateless: one request in, one action or one rejection out.
//! The actions themselves are side effects the surrounding program performs;
//! the dispatcher only decides.

use vstd::prelude::*;
use crate::action::action_of;
use crate::protocol::ContentType;
use crate::protocol::PayloadType;
use crate::protocol::Request;
use crate::protocol::RequestModel;

verus! {

/// A host action a well-formed request resolves to.
#[derive(Clone, Copy, Debug, PartialEq, Eq, Structural)]
pub enum Action {
    /// Spawn the target application's process.
    SpawnTarget,
    /// Terminate every process matching the target application's executable
    /// name.
    KillTargetProcesses,
    /// Schedule a host shutdown after the given delay in seconds; zero means
    /// immediately.
    ScheduleShutdown { delay_seconds: u32 },
}

/// Ways a decoded request can fail at dispatch.
#[derive(Clone, Copy, Debug, PartialEq, Eq, Structural)]
pub enum DispatchError {
    /// The (domain, action keyword) pair has no entry in the dispatch table.
    UnsupportedCommand,
}

/// The shutdown delay a request resolves to when it names none. The default
/// is zero: an immediate shutdown.
pub open spec fn default_shutdown_delay() -> u32 {
    0
}

/// The delay in seconds a shutdown request stands for: the named delay, or
/// [`default_shutdown_delay`] when none is named.
pub open spec fn shutdown_delay_of(delay: Option<u32>) -> u32 {
    match delay {
        Some(d) => d,
        None => default_shutdown_delay(),
    }
}

/// Resolves an optional shutdown delay to the delay actually scheduled.
pub fn resolve_shutdown_delay(delay: Option<u32>) -> (r: u32)
    ensures
        r == shutdown_delay_of(delay),
{
    match delay {
        Some(d) => d,
        None => 0,
    }
}

/// The dispatch table. Exactly three (domain, action keyword) pairs have an
/// effect; every other combination is rejected as unsupported.
pub open spec fn dispatch_spec(req: RequestModel) -> Result<Action, DispatchError> {
    match (req.content_type, action_of(req.payload)) {
        (ContentType::OperaGx, PayloadType::Open) => Ok(Action::SpawnTarget),
        (ContentType::OperaGx, PayloadType::ShutDown) => Ok(Action::KillTargetProcesses),
        (ContentType::OS, PayloadType::ShutDown) => Ok(
            Action::ScheduleShutdown { delay_seconds: default_shutdown_delay() },
        ),
        _ => Err(DispatchError::UnsupportedCommand),
    }
}

/// Decides which action a request calls for, exactly as [`dispatch_spec`]
/// says. A rejected combination is an error for this request alone; nothing
/// is executed for it.
pub fn dispatch(request: &Request) -> (r: Result<Action, DispatchError>)
    ensures
        r == dispatch_spec(request@),
{
    let action = PayloadType::from(request);
    match (&request.content_type, action) {
        (ContentType::OperaGx, PayloadType::Open) => Ok(Action::SpawnTarget),
        (ContentType::OperaGx, PayloadType::ShutDown) => Ok(Action::KillTargetProcesses),
        (ContentType::OS, PayloadType::ShutDown) => Ok(
            Action::ScheduleShutdown { delay_seconds: resolve_shutdown_delay(None) },
        ),
        _ => Err(DispatchError::UnsupportedCommand),
    }
}

/// Dispatch table exhaustiveness: a request resolves to an action exactly
/// when its (domain, action keyword) pair is one of the three table entries —
/// open or shut down the target application, or shut the host down — and
/// every one of the remaining combinations is rejected as unsupported.
pub proof fn lemma_dispatch_exhaustive(req: RequestModel)
    ensures
        dispatch_spec(req) is Ok <==> {
            ||| req.content_type == ContentType::OperaGx && action_of(req.payload)
                == PayloadType::Open
            ||| req.content_type == ContentType::OperaGx && action_of(req.payload)
                == PayloadType::ShutDown
            ||| req.content_type == ContentType::OS && action_of(req.payload)
                == PayloadType::ShutDown
        },
        dispatch_spec(req) is Err ==> dispatch_spec(req)->Err_0
            == DispatchError::UnsupportedCommand,
{
}

} // verus!

//! The daemons' error taxonomy.
//!
//! A message on the wrong bus or from an unexpected source is a protocol
//! violation; an instruction that does not match a worker's phase is a
//! state-machine violation; a request naming content the store does not
//! hold is a content error. All abort only the current instruction — the
//! handler returns the error and the process goes on.

use vstd::prelude::*;

use crate::bus::{ServiceBus, ServiceId};
use crate::ids::ContainerId;
use crate::rpc::{Failure, FailureCode, RpcFailureCode, RpcMsg};
use crate::transferd::AutomationError;

verus! {

/// A failure that aborts the daemon's startup; no partial operation
/// follows.
#[derive(Clone, Copy, PartialEq, Eq, Debug)]
pub enum LaunchError {
    /// A message bus could not be set up.
    BusSetupFailure,
    /// The store service could not be reached.
    StoreConnection,
}

/// What a handler reports when an instruction cannot be carried out.
#[derive(Clone, Copy, PartialEq, Eq, Debug)]
pub enum DaemonError {
    /// An instruction did not match the worker's phase.
    TransferAutomation(AutomationError),
    /// A request arrived on a bus that does not carry it.
    RequestNotSupported(ServiceBus),
    /// A request arrived from a source that may not issue it.
    SourceNotSupported(ServiceBus, ServiceId),
    /// A requested container is not in the store.
    UnknownContainer(ContainerId),
}

impl DaemonError {
    /// The error for a request on a bus that does not carry it.
    pub fn wrong_esb_msg(bus: ServiceBus) -> (r: DaemonError)
        ensures
            r == DaemonError::RequestNotSupported(bus),
    {
        DaemonError::RequestNotSupported(bus)
    }

    /// The error for a request from a source that may not issue it.
    pub fn wrong_esb_msg_source(bus: ServiceBus, source: ServiceId) -> (r: DaemonError)
        ensures
            r == DaemonError::SourceNotSupported(bus, source),
    {
        DaemonError::SourceNotSupported(bus, source)
    }

    /// The client-facing failure code of each error.
    pub open spec fn failure_code_spec(&self) -> FailureCode {
        match self {
            DaemonError::TransferAutomation(_) => FailureCode::TransferAutomation,
            DaemonError::RequestNotSupported(_) => FailureCode::UnexpectedRequest,
            DaemonError::SourceNotSupported(_, _) => FailureCode::UnexpectedRequest,
            DaemonError::UnknownContainer(_) => FailureCode::UnknownContainer,
        }
    }

    /// The client-facing failure code of this error.
    pub fn failure_code(&self) -> (r: FailureCode)
        ensures
            r == self.failure_code_spec(),
    {
        match self {
            DaemonError::TransferAutomation(_) => FailureCode::TransferAutomation,
            DaemonError::RequestNotSupported(_) => FailureCode::UnexpectedRequest,
            DaemonError::SourceNotSupported(_, _) => FailureCode::UnexpectedRequest,
            DaemonError::UnknownContainer(_) => FailureCode::UnknownContainer,
        }
    }

    /// The failure response that reports this error to a client.
    pub fn to_failure_msg(&self) -> (r: RpcMsg)
        ensures
            r == RpcMsg::Failure(
                Failure { code: RpcFailureCode::Other(self.failure_code_spec()) },
            ),
    {
        RpcMsg::Failure(Failure { code: RpcFailureCode::Other(self.failure_code()) })
    }
}

} // verus!

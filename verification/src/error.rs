//! What can go wrong: the instance is already there, the hostname is
//! unusable, or the orchestrator refused or failed a call.

use vstd::prelude::*;

verus! {

/// Status code with which the orchestrator answers a call on a resource
/// that it does not hold.
pub const STATUS_NOT_FOUND: u16 = 404;

/// A failure reported for one remote call, as the orchestrator (or the
/// connection to it) described it. It is handed on as it came.
#[derive(Debug, PartialEq, Eq)]
pub struct RemoteApiError {
    /// Status code of the answer; 0 where no answer arrived.
    pub code: u16,
    /// Short machine-readable reason.
    pub reason: String,
    /// Human-readable description.
    pub message: String,
}

impl Clone for RemoteApiError {
    fn clone(&self) -> (copy: Self)
        ensures
            copy == *self,
    {
        RemoteApiError {
            code: self.code,
            reason: self.reason.clone(),
            message: self.message.clone(),
        }
    }
}

impl RemoteApiError {
    /// Whether the call failed because the resource does not exist.
    pub open spec fn not_found(&self) -> bool {
        self.code == STATUS_NOT_FOUND
    }

    /// Whether the call failed because the resource does not exist.
    pub fn is_not_found(&self) -> (b: bool)
        ensures
            b == self.not_found(),
    {
        self.code == STATUS_NOT_FOUND
    }
}

/// Why an operation of this library did not complete.
#[derive(Debug, PartialEq, Eq)]
pub enum KwpmError {
    /// A managed namespace with the database suffix is already listed.
    AlreadyExists,
    /// The node hostname to pin the volume to is empty.
    EmptyHostname,
    /// A remote call failed; the failure is carried unchanged.
    RemoteApi(RemoteApiError),
}

impl Clone for KwpmError {
    fn clone(&self) -> (copy: Self)
        ensures
            copy == *self,
    {
        match self {
            KwpmError::AlreadyExists => KwpmError::AlreadyExists,
            KwpmError::EmptyHostname => KwpmError::EmptyHostname,
            KwpmError::RemoteApi(e) => KwpmError::RemoteApi(e.clone()),
        }
    }
}

impl KwpmError {
    /// A one-line description of the error.
    pub fn message(&self) -> (text: String)
        ensures
            self is AlreadyExists ==> text@ == "MariaDB deployment already exists"@,
            self is EmptyHostname ==> text@ == "node hostname is empty"@,
            self is RemoteApi ==> text@ == self->RemoteApi_0.message@,
    {
        match self {
            KwpmError::AlreadyExists => "MariaDB deployment already exists".to_owned(),
            KwpmError::EmptyHostname => "node hostname is empty".to_owned(),
            KwpmError::RemoteApi(e) => e.message.clone(),
        }
    }
}

} // verus!

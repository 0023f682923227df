//! The kinds of failure that the orchestrator tells apart.

use vstd::prelude::*;
use vstd::string::StringExecFns;

verus! {

/// Which of the two health waits ran out.
#[derive(Clone, Copy, Debug, PartialEq, Eq, Structural)]
pub enum HealthTarget {
    /// The hypervisor's API did not answer within 20 seconds.
    Firecracker,
    /// The agent inside the guest did not answer within 10 seconds.
    GuestAgent,
}

/// Why an operation on a sandbox failed.
#[derive(Clone, Copy, Debug, PartialEq, Eq, Structural)]
pub enum Error {
    /// A configuration lacks what it needs or holds what cannot be used.
    ConfigInvalid,
    /// A command run on the host ended in failure.
    HostCommandFailed,
    /// The hypervisor answered a request with a status other than success.
    FirecrackerApi,
    /// A call to the guest's agent failed.
    GuestRpc,
    /// A health wait ran out.
    HealthTimeout(HealthTarget),
    /// The operation is not available yet.
    NotImplemented,
    /// No sandbox has the given identifier.
    NotFound,
    /// A file operation failed.
    Io,
}

impl Error {
    /// A short description of the error.
    pub open spec fn spec_describe(&self) -> Seq<char> {
        match self {
            Error::ConfigInvalid => "invalid configuration"@,
            Error::HostCommandFailed => "host command failed"@,
            Error::FirecrackerApi => "firecracker API request failed"@,
            Error::GuestRpc => "guest agent call failed"@,
            Error::HealthTimeout(HealthTarget::Firecracker) =>
                "firecracker did not become healthy in 20 seconds"@,
            Error::HealthTimeout(HealthTarget::GuestAgent) =>
                "guest agent did not become healthy in 10 seconds"@,
            Error::NotImplemented => "not implemented"@,
            Error::NotFound => "sandbox not found"@,
            Error::Io => "file operation failed"@,
        }
    }

    /// A short description of the error.
    pub fn describe(&self) -> (text: String)
        ensures
            text@ == self.spec_describe(),
    {
        let text = match self {
            Error::ConfigInvalid => "invalid configuration",
            Error::HostCommandFailed => "host command failed",
            Error::FirecrackerApi => "firecracker API request failed",
            Error::GuestRpc => "guest agent call failed",
            Error::HealthTimeout(HealthTarget::Firecracker) =>
                "firecracker did not become healthy in 20 seconds",
            Error::HealthTimeout(HealthTarget::GuestAgent) =>
                "guest agent did not become healthy in 10 seconds",
            Error::NotImplemented => "not implemented",
            Error::NotFound => "sandbox not found",
            Error::Io => "file operation failed",
        };
        String::from_str(text)
    }
}

} // verus!

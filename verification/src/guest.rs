//! What the orchestrator and the agent inside the guest agree on: where the
//! agent listens, and what the agent runs when it is asked to mount a
//! device or to run a command.

use crate::commands::{push_arg, texts};
use crate::text::concat3;
use vstd::prelude::*;

verus! {

/// The port the guest's agent listens on, as part of an address.
pub const AGENT_PORT_SUFFIX: &'static str = ":5001";

/// The directory in which the agent runs commands.
pub const EXECUTE_DIRECTORY: &'static str = "/tmp/vdb";

/// Makes the addresses of guest agents.
#[derive(Debug, Default)]
pub struct SparkClientFactory;

impl SparkClientFactory {
    /// The address of the agent of the guest that is reached at `ip`.
    pub open spec fn spec_address(ip: Seq<char>) -> Seq<char> {
        "http://"@ + ip + AGENT_PORT_SUFFIX@
    }

    /// The address of the agent of the guest that is reached at `ip`.
    pub fn address(&self, ip: &str) -> (address: String)
        ensures
            address@ == Self::spec_address(ip@),
    {
        concat3("http://", ip, AGENT_PORT_SUFFIX)
    }
}

/// The agent inside the guest.
#[derive(Debug, Default)]
pub struct SparkServer {}

impl SparkServer {
    /// The arguments of `mount` that mount `device` at `path`.
    pub fn mount_args(&self, device: &str, path: &str) -> (argv: Vec<String>)
        ensures
            texts(argv@) == seq![device@, path@],
    {
        let mut argv: Vec<String> = Vec::new();
        assert(texts(argv@) =~= Seq::<Seq<char>>::empty());
        push_arg(&mut argv, device);
        push_arg(&mut argv, path);
        assert(texts(argv@) =~= seq![device@, path@]);
        argv
    }

    /// The directory in which a command is run.
    pub fn execute_directory(&self) -> (directory: &'static str)
        ensures
            directory@ == EXECUTE_DIRECTORY@,
    {
        EXECUTE_DIRECTORY
    }
}

} // verus!

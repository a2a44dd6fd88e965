//! What is fixed at startup and only read afterwards.

use vstd::prelude::*;
use vstd::string::*;

verus! {

/// The operating systems that the shell tells apart.
#[derive(Clone, Copy, Debug, PartialEq, Eq, Structural)]
pub enum Platform {
    MacOs,
    Other,
}

/// The two ways in which no port can be had at startup. Either one is
/// fatal: without a port the application cannot go on.
#[derive(Clone, Copy, Debug, PartialEq, Eq, Structural)]
pub enum PortFailure {
    /// No local socket could be bound.
    Bind,
    /// The bound socket's address could not be read.
    LocalAddress,
}

impl PortFailure {
    /// What went wrong, in words.
    pub open spec fn spec_summary(self) -> Seq<char> {
        match self {
            PortFailure::Bind => "Failed to bind to free port"@,
            PortFailure::LocalAddress => "Failed to get local address"@,
        }
    }

    /// The message with which the application gives up: what went wrong,
    /// a colon and a space, and the system's own description.
    pub open spec fn spec_message(self, detail: Seq<char>) -> Seq<char> {
        self.spec_summary() + ": "@ + detail
    }

    pub fn message(&self, detail: &str) -> (text: String)
        ensures
            text@ == self.spec_message(detail@),
    {
        let summary = match self {
            PortFailure::Bind => "Failed to bind to free port",
            PortFailure::LocalAddress => "Failed to get local address",
        };
        String::from_str(summary).concat(": ").concat(detail)
    }
}

/// The backend's configuration: the local port it is told to listen on.
///
/// The port is chosen once, before anything else starts. Nothing in this
/// library changes it afterwards, so it can be shared freely for reading.
#[derive(Clone, Copy, Debug, PartialEq, Eq)]
pub struct BackendConfig {
    port: u16,
}

pub ghost struct BackendConfigView {
    pub port: u16,
}

impl View for BackendConfig {
    type V = BackendConfigView;

    closed spec fn view(&self) -> BackendConfigView {
        BackendConfigView { port: self.port }
    }
}

impl BackendConfig {
    pub fn new(port: u16) -> (config: BackendConfig)
        ensures
            config@ == (BackendConfigView { port }),
    {
        BackendConfig { port }
    }

    /// The port that was chosen at startup.
    pub fn assigned_port(&self) -> (port: u16)
        ensures
            port == self@.port,
    {
        self.port
    }
}

} // verus!

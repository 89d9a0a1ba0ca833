//! Errors of the SDK.
use std::time::Duration;
use vstd::prelude::*;
use vstd::string::StringExecFns;

verus! {

#[verifier::external_type_specification]
#[verifier::external_body]
pub struct ExIoError(std::io::Error);

/// Errors produced by the SDK.
#[derive(Debug)]
pub enum CopilotError {
    /// The underlying byte transport failed.
    Transport(std::io::Error),
    /// The connection was closed before a complete message arrived.
    ConnectionClosed,
    /// The peer violated the protocol, or answered with something unusable.
    Protocol(String),
    /// No tool with the given name is registered.
    ToolNotFound(String),
    /// A tool is registered but cannot be invoked.
    ToolError(String),
    /// Waiting for the session took longer than allowed.
    Timeout(Duration),
}

/// The SDK's result type.
pub type Result<T> = core::result::Result<T, CopilotError>;

impl CopilotError {
    /// A one-line description of the error, as sent back to the server when a
    /// request from it fails.
    pub fn message(&self) -> (m: String)
        ensures
            match self {
                CopilotError::ConnectionClosed => m@ == "Connection closed"@,
                CopilotError::Protocol(s) => m@ == "Protocol error: "@ + s@,
                CopilotError::ToolNotFound(s) => m@ == "Tool not found: "@ + s@,
                CopilotError::ToolError(s) => m@ == "Tool error: "@ + s@,
                CopilotError::Transport(_) => "Transport error: "@.is_prefix_of(m@),
                CopilotError::Timeout(_) => m@ == "Request timed out"@,
            },
    {
        match self {
            CopilotError::ConnectionClosed => String::from_str("Connection closed"),
            CopilotError::Protocol(s) => {
                let mut m = String::from_str("Protocol error: ");
                m.append(s.as_str());
                m
            },
            CopilotError::ToolNotFound(s) => {
                let mut m = String::from_str("Tool not found: ");
                m.append(s.as_str());
                m
            },
            CopilotError::ToolError(s) => {
                let mut m = String::from_str("Tool error: ");
                m.append(s.as_str());
                m
            },
            CopilotError::Transport(e) => {
                let mut m = String::from_str("Transport error: ");
                let ghost base = m@;
                let detail = e.to_string();
                m.append(detail.as_str());
                assert(base.is_prefix_of(m@));
                m
            },
            CopilotError::Timeout(_) => String::from_str("Request timed out"),
        }
    }
}

} // verus!

//! Copilot SDK core: Content-Length message framing, session event
//! classification and session-side decision logic, verified with Verus.

pub mod error;
pub mod frame;
pub mod text;
pub mod transport;
pub mod events;
pub mod types;
pub mod table;
pub mod session;
pub mod debug_log;

//! Authentication flow and gateway session bootstrap for a chat platform
//! account: interpretation of the account service's replies, the login
//! state machine that sequences credential exchange and multi-factor
//! resolution, and the gateway session state machine with its identify
//! handshake. The network itself is driven by the caller, which performs the
//! actions these state machines hand out and reports back what happened.

pub mod json;
pub mod exchange;
pub mod flow;
pub mod gateway;
pub mod laws;

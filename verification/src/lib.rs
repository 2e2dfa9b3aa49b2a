//! A diagnostic client for a length-prefixed JSON protocol that runs over two
//! TCP connections: the framing rules, the response reader's state machine and
//! the order of a session's steps.

pub mod address;
pub mod codec;
pub mod json;
pub mod numeral;
pub mod reader;
pub mod session;

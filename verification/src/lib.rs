//! Control client for a bill-acceptor unit: the method codec, the framing
//! rules, the request/response client and the command dispatcher, with
//! their contracts.

pub mod client;
pub mod dispatch;
pub mod error;
pub mod frame;
pub mod help;
pub mod locator;
pub mod method;
pub mod text;
pub mod wire;

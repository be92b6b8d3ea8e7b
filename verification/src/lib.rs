//! The request handling of an MCP (Model Context Protocol) server that drives a
//! headless browser over JSON-RPC: message framing decisions, method dispatch,
//! the tool catalog, argument checking for each browser tool, the scripts the
//! tools run in the page, and the text that each tool reports back.
//!
//! The browser itself, the transport and JSON (de)serialization of whole
//! messages live outside this library; this library hands the caller plain
//! descriptions of the browser work to do, and turns the observed results
//! into JSON-RPC responses.

pub mod json;
pub mod text;
pub mod encode;
pub mod rpc;
pub mod catalog;
pub mod dom;
pub mod scripts;
pub mod session;
pub mod tools;
pub mod server;
pub mod laws;
pub mod action_laws;

pub use catalog::Tool;
pub use json::{Json, JsonNumber};
pub use rpc::{LineAction, Request, RpcError, RpcMessage, RpcResponse};
pub use server::{Dispatch, PendingCall, dispatch, tool_reply};
pub use session::BrowserState;

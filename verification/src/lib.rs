//! Core of a multi-provider JSON-RPC gateway for blockchain networks.
//!
//! The gateway accepts JSON-RPC requests tagged with a CAIP-2 chain
//! identifier, forwards them to a configured upstream node provider, and
//! normalizes the upstream's response: an upstream that reports a JSON-RPC
//! error body under a success HTTP status is re-classified into an honest
//! HTTP status (429 for rate limiting, 500 for node faults), with the body
//! passed through byte for byte.
//!
//! Network transport lives outside this crate: these modules decide what
//! request to send, how to interpret what came back, and how a WebSocket
//! bridge reacts to each frame.
pub mod allnodes;
pub mod bridge;
pub mod caip19;
pub mod chains;
pub mod classifier;
pub mod env;
pub mod exchanges;
pub mod providers;
pub mod publicnode;
pub mod response;
pub mod text;

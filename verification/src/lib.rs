//! Protocol-diagnostic HTTP engine: request dispatch, the server-info
//! snapshot with its redaction policy, connection accounting, the live
//! WebSocket and event-stream sessions, and the boundary probes.

pub mod build_info;
pub mod config;
pub mod cookie;
pub mod dispatch;
pub mod echo;
pub mod hdr;
pub mod index;
pub mod info;
pub mod numeric;
pub mod query;
pub mod response;
pub mod server;
pub mod session;
pub mod sse;
pub mod text;
pub mod tracker;
pub mod ws;

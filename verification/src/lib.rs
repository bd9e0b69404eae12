//! Core of a multi-hop anonymity-overlay HTTP client.
//!
//! The library holds the verified logic of the client: endpoint resolution,
//! circuit-hop enrichment planning, the deadline-bounded fetch state machine,
//! the bounded notification queue, and the UI-visible application state.
//! Network and terminal I/O live outside the library and talk to it through
//! plain values.

pub mod app;
pub mod circuit;
pub mod channel;
pub mod fetch;
pub mod server;
pub mod transport;

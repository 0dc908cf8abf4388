//! A terminal chat over WebSockets: the wire protocol, the rules every name and
//! message must meet, the server's per-connection session, and the client's state,
//! key handling, reconnection policy and screen bookkeeping.
pub mod text;
pub mod protocol;
pub mod validation;
pub mod server;
pub mod theme;
pub mod app;
pub mod events;
pub mod run;
pub mod ui;
pub mod shared;

//! A verified core for a terminal wallet-balance viewer: a three-screen
//! state machine (network selection, address entry, balance display), the
//! hex grammar of wallet addresses, the fixed network table, and the
//! decision logic of the balance-fetch protocol.

pub mod address;
pub mod app;
pub mod fetch;
pub mod network;
pub mod render;
pub mod text;

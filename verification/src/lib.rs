//! The core of a chat client that talks to several connections at once.
//!
//! A backend follows each connection on its own. This crate keeps what the
//! user interface reads in step with it: periodic passes bring the
//! snapshots of the connections up to date (`cache`, `sync`), accounts are
//! connected and disconnected (`client`, `bindings`), and messages that
//! were sent from here are shown at once and dropped when the backend
//! confirms them (`ledger`).

pub mod bindings;
pub mod cache;
pub mod client;
pub mod display;
pub mod feed;
pub mod ledger;
pub mod lifecycle;
pub mod model;
pub mod order;
pub mod protocols;
pub mod retain;
pub mod state;
pub mod strmap;
pub mod sync;
pub mod table;
pub mod text;
pub mod views;

pub use cache::UiCache;
pub use client::ChatClient;
pub use state::{ChatSettings, ConnectionCache, Panels};

//! Quiver: the verified core of a service broker.
//!
//! Services register with the core under a name, a public key and a list of
//! permissions. Every connection between a service and the core runs a mutual
//! challenge/response handshake before a request is authorized against the
//! registered permissions. This crate holds the decisions of that broker: the
//! permission model, the handshake state machines, handler routing and the
//! configuration defaults. Sockets, databases and files are driven from outside.

pub mod shared;
pub mod authorization;
pub mod error;
pub mod crypto;
pub mod handshake;
pub mod client_authorization;
pub mod connect;
pub mod server_authorization;
pub mod handlers;
pub mod listener;
pub mod registry;
pub mod calendar;
pub mod transaction;
pub mod config;
pub mod core_config;
pub mod handler_enums;
pub mod request;

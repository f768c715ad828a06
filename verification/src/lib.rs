//! The TLS front door of an MQTT broker: which acceptor a configuration gives, and which
//! tenant an accepted client belongs to.
pub mod archive;
pub mod config;
pub mod error;
pub mod laws;
pub mod native;
mod outside;
pub mod pem;
pub mod promises;
pub mod roots;
pub mod server;
pub mod setup;
pub mod tenant;
pub mod tls;

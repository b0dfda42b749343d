//! The control plane of a VPN overlay: a database-held view of servers and clients
//! is turned into a network-status document, per-client tunnel configurations and
//! a DNS hosts file.
//!
//! Everything here is computation on plain values. Whatever touches the outside
//! world (the database, the file system, the HTTP connection, the resolver process)
//! is asked for by the two step functions [`web::handle_request`] and
//! [`dns::update_dns`], which say what to do next and are told how it went.

pub mod config;
pub mod dns;
pub mod schema;
pub mod status;
pub mod web;


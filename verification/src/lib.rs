//! Verified core of the BOB management backend: hostname rules, node-status
//! rules, typed metric maps, the client's base-path and response rules, and
//! the login decision flow.
pub mod text;
pub mod models;
pub mod connector;
pub mod services;

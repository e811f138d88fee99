//! Verified core of a git webhook deployment server: request screening,
//! payload interpretation, owner whitelisting, configuration resolution,
//! session handling, repository bookkeeping and deployment planning.
pub mod admin;
pub mod auth;
pub mod clock;
pub mod config;
pub mod crypto;
pub mod deploy;
pub mod headers;
pub mod net;
pub mod status;
pub mod text;
pub mod venv;
pub mod webhook;

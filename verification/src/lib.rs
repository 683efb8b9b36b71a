//! Local services of a desktop assistant.
//!
//! `vault` keeps an access token and an optional refresh token per profile in
//! the operating system's credential store. `workspace` decides where the
//! directory of a thread lies below the user's home directory and what is
//! reported once the host has created it. `text` holds the rules on
//! characters and strings that both rest on.

pub mod text;
pub mod vault;
pub mod workspace;

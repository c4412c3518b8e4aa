//! Core logic of the Proton Pass command line tools: the item model, the
//! validation of command arguments, the selection of SSH keys and of their
//! passphrases, and the construction of the requests sent to the Pass API.
//!
//! Everything that talks to the network, the terminal or the environment
//! lives in the companion application crate; this crate decides what to ask
//! for and what to make of the answers.

pub mod alias;
pub mod credentials;
pub mod domain;
pub mod first_time_setup;
pub mod info;
pub mod move_item;
pub mod openssh;
pub mod personal_access_token;
pub mod session;
pub mod ssh_agent;
pub mod ssh_key_item;
pub mod text;
pub mod laws;

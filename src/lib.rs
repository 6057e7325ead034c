//! Client library for a remote file-hosting service: the session and its
//! bounded refresh protocol, the transfer engine's upload and download
//! protocols, and the size-capped directory archiver.

pub mod models;
pub mod user_config;
pub mod session;
pub mod transfer;
pub mod archive;
pub mod consts;
pub mod endpoints;
pub mod listing;

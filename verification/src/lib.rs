//! Copy a file between two endpoints through an object-storage relay.
//!
//! The library decides; a driver performs. Every outside effect (file access,
//! relay put/get, remote command submission and polling, sleeping) is handed to
//! the driver as a request, and the driver hands back what happened.

pub mod command;
pub mod error;
pub mod request;
pub mod run;
pub mod s3;
pub mod text;
pub mod transfer;

//! The multi-token standard.

pub mod approval;
pub mod mt_core;
pub mod events;
pub mod laws;
pub mod reader;
pub mod token;

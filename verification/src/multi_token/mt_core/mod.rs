//! The core of the standard: transfers to a receiving contract and their resolution.

pub mod core_impl;
pub mod outcome;
pub mod receiver;
pub mod resolver;

//! Approval management: letting another account move a token for its owner.

pub mod approval_impl;
pub mod approval_receiver;

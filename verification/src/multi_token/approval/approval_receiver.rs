//! What a contract implements to be told of approvals granted to it.

use crate::account::AccountId;
use crate::multi_token::token::TokenId;
use vstd::prelude::*;

verus! {

/// The method that a multi-token contract calls, or tries to call, on an account that
/// it has just granted an approval.
pub trait MultiTokenApprovalReceiver {
    /// Responds to the news that this contract was granted an approval on a token. The
    /// grant stands whatever this method does: the token contract has entered it before
    /// it calls.
    ///
    /// * `token_id`: the token on which the approval was granted
    /// * `owner_id`: the owner of the token
    /// * `approval_id`: the id under which the token contract holds the approval, at
    ///   most 2^53
    /// * `msg`: what the approved contract needs to know to handle the approval; it may
    ///   name a function to call and the arguments to pass to it
    ///
    /// What it returns is for the implementing contract to define.
    fn mt_on_approve(
        &mut self,
        token_id: TokenId,
        owner_id: AccountId,
        approval_id: u64,
        msg: String,
    ) -> near_sdk::PromiseOrValue<String>;
}

} // verus!

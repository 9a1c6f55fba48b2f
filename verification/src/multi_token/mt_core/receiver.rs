//! What a contract implements to receive tokens by a transfer call.

use crate::account::AccountId;
use crate::multi_token::token::TokenId;
use vstd::prelude::*;

verus! {

/// The method that a multi-token contract calls on the receiver of a transfer call. It
/// is implemented on the receiving contract, not on the multi-token contract.
pub trait MultiTokenReceiver {
    /// Takes some action on receiving a token. The contract should answer only calls
    /// from multi-token contracts it knows.
    ///
    /// * `sender_id`: the account that made the transfer call
    /// * `previous_owner_id`: the account that owned the token before; it differs from
    ///   `sender_id` where the sender acted on an approval
    /// * `token_id`: the token that was transferred
    /// * `msg`: what this contract needs to know to handle the transfer
    ///
    /// Returns `true` if the token is to go back to its previous owner. The answer may
    /// be deferred; the multi-token contract trusts none of it before the whole chain
    /// of calls has come to rest.
    fn mt_on_transfer(
        &mut self,
        sender_id: AccountId,
        previous_owner_id: AccountId,
        token_id: TokenId,
        msg: String,
    ) -> near_sdk::PromiseOrValue<bool>;
}

} // verus!

//! Granting approvals.
//!
//! A grant is entered in the books before anyone is told of it, so that a notification
//! that fails undoes nothing. Approval ids are never used twice on a token: each grant
//! takes the token's next id, whoever owns the token by then and whoever is approved.
//! The count belongs to the token, not to its owner, and does not start again when the
//! token changes hands: an id from before a transfer can never be mistaken for one
//! granted after it.

use crate::account::AccountId;
use crate::json::text_of;
use crate::multi_token::mt_core::core_impl::{MultiToken, TransferError};
use crate::multi_token::token::{Token, TokenId, TokenState, MAX_APPROVAL_ID};
use vstd::prelude::*;

verus! {

impl TokenState {
    /// Whether an approval id is left to grant.
    pub open spec fn can_grant(self) -> bool {
        self.next_approval_id <= MAX_APPROVAL_ID
    }

    /// The token after `account` was granted an approval: the approval stands under the
    /// token's next id, in place of any that the account held, and the next id is one
    /// more.
    pub open spec fn with_grant(self, account: Seq<char>) -> TokenState {
        TokenState {
            approvals: self.approvals.insert(account, self.next_approval_id),
            next_approval_id: (self.next_approval_id + 1) as u64,
            ..self
        }
    }
}

/// Whether `caller` may grant an approval on the token, and if not, why not: the token
/// must be known, and only its owner grants approvals on it.
pub open spec fn approve_check(
    tokens: Map<Seq<char>, TokenState>,
    caller: Seq<char>,
    token_id: Seq<char>,
) -> Result<(), TransferError> {
    if !tokens.contains_key(token_id) {
        Err(TransferError::TokenNotFound)
    } else if tokens[token_id].owner != caller {
        Err(TransferError::Unauthorized)
    } else {
        Ok(())
    }
}

/// The books after `account` was granted an approval on the token.
pub open spec fn granted(
    tokens: Map<Seq<char>, TokenState>,
    token_id: Seq<char>,
    account: Seq<char>,
) -> Map<Seq<char>, TokenState> {
    tokens.insert(token_id, tokens[token_id].with_grant(account))
}

/// The call that tells an account of an approval granted to it: whom to call, and the
/// arguments of its `mt_on_approve`.
#[derive(Debug)]
pub struct OnApprove {
    pub account_id: AccountId,
    pub token_id: TokenId,
    pub owner_id: AccountId,
    pub approval_id: u64,
    pub msg: String,
}

/// A grant as it was entered in the books: the approval's id, and the call that tells
/// the approved account, where the granter gave a message for it.
#[derive(Debug)]
pub struct ApprovalGrant {
    pub approval_id: u64,
    pub notification: Option<OnApprove>,
}

impl MultiToken {
    /// Grants `account_id` an approval on the token `token_id`, at the request of
    /// `caller_id`. The grant that comes back holds the approval's id, under which the
    /// account may later move the token, and, if and only if there is a `msg`, the call
    /// that tells the account. The approval stands whether or not that call is ever
    /// made or succeeds.
    ///
    /// The token must have an approval id left to grant. A refused call changes
    /// nothing.
    pub fn approve(
        &mut self,
        caller_id: &AccountId,
        token_id: &TokenId,
        account_id: &AccountId,
        msg: Option<String>,
    ) -> (result: Result<ApprovalGrant, TransferError>)
        requires
            old(self).wf(),
            old(self)@.contains_key(token_id@) ==> old(self)@[token_id@].can_grant(),
        ensures
            final(self).wf(),
            final(self).contract_account() == old(self).contract_account(),
            match result {
                Ok(grant) => {
                    &&& approve_check(old(self)@, caller_id@, token_id@) is Ok
                    &&& grant.approval_id == old(self)@[token_id@].next_approval_id
                    &&& 1 <= grant.approval_id <= MAX_APPROVAL_ID
                    &&& final(self)@ == granted(old(self)@, token_id@, account_id@)
                    &&& grant.notification is Some <==> msg is Some
                    &&& grant.notification matches Some(call) ==> {
                        &&& call.account_id@ == account_id@
                        &&& call.token_id@ == token_id@
                        &&& call.owner_id@ == caller_id@
                        &&& call.approval_id == grant.approval_id
                        &&& Some(call.msg@) == text_of(msg)
                    }
                },
                Err(error) => {
                    &&& approve_check(old(self)@, caller_id@, token_id@) == Err::<(), TransferError>(
                        error,
                    )
                    &&& final(self)@ == old(self)@
                },
            },
    {
        let token = match self.token(token_id) {
            Some(token) => token,
            None => {
                return Err(TransferError::TokenNotFound);
            },
        };
        if !(token.owner_id == *caller_id) {
            return Err(TransferError::Unauthorized);
        }
        let approval_id = token.next_approval_id;
        let mut approvals = token.approvals.clone();
        approvals.insert(account_id.clone(), approval_id);
        let approved = Token {
            token_id: token_id.clone(),
            owner_id: token.owner_id.clone(),
            approvals,
            next_approval_id: approval_id + 1,
        };
        self.put(approved);
        let notification = match msg {
            Some(msg) => Some(
                OnApprove {
                    account_id: account_id.clone(),
                    token_id: token_id.clone(),
                    owner_id: caller_id.clone(),
                    approval_id,
                    msg,
                },
            ),
            None => None,
        };
        Ok(ApprovalGrant { approval_id, notification })
    }
}

} // verus!

//! What a multi-token contract implements to resolve its transfer calls.

use crate::account::AccountId;
use crate::event::logged;
use crate::multi_token::mt_core::core_impl::{
    authorized_by, resolve_check, resolved, snapshot_view, transfer_event_line, MultiToken,
    TransferIntent,
};
use crate::multi_token::mt_core::outcome::ReceiverOutcome;
use crate::multi_token::token::{Approvals, TokenId, TokenState};
use vstd::prelude::*;

verus! {

/// The method by which a multi-token contract ends a transfer call, after the receiver
/// and everything the receiver called have come to rest. It is implemented on the
/// multi-token contract, which calls it on itself.
///
/// The method's arguments say which transfer is resolved. Who calls and how the
/// receiver's chain ended is not among them: a contract learns both from its host. The
/// trait speaks of them as of things that the implementing value knows.
pub trait MultiTokenResolver {
    /// The contract's books: for each token it knows, the token's state.
    spec fn books(&self) -> Map<Seq<char>, TokenState>;

    /// How the receiver's chain of calls ended.
    spec fn outcome(&self) -> ReceiverOutcome;

    /// Whether the contract may resolve a transfer of the token now: the call comes
    /// from the contract itself, and the contract knows the token.
    spec fn may_resolve(&self, token_id: Seq<char>) -> bool;

    /// Finalizes a transfer call.
    ///
    /// * The contract must refuse a call from any account but itself, so such a call
    ///   never gets as far as this method.
    /// * If the receiver's chain of calls failed, the contract undoes the transfer.
    /// * If the chain answered `true`, the contract gives the token back to its
    ///   previous owner.
    ///
    /// * `previous_owner_id`: the owner before the transfer call
    /// * `receiver_id`: the receiver of the transfer call
    /// * `token_id`: the token of the transfer call
    /// * `approvals`: the approvals that stood before the transfer call, which the
    ///   contract restores where it undoes the transfer
    ///
    /// Returns `true` if the token now belongs to `receiver_id`.
    fn mt_resolve_transfer(
        &mut self,
        previous_owner_id: AccountId,
        receiver_id: AccountId,
        token_id: TokenId,
        approvals: Option<Approvals>,
    ) -> (kept: bool)
        requires
            old(self).may_resolve(token_id@),
            approvals matches Some(snapshot) ==> snapshot.wf(),
        ensures
            kept == (old(self).outcome() == ReceiverOutcome::Keep),
            final(self).books() == resolved(
                old(self).books(),
                previous_owner_id@,
                token_id@,
                snapshot_view(approvals),
                old(self).outcome(),
            ),
            final(self).outcome() == old(self).outcome(),
    ;
}

/// A multi-token contract as its host resumes it to resolve a transfer call: the
/// contract's books, together with what the host told of the call.
#[derive(Debug)]
pub struct ResumedContract {
    /// The contract's books.
    pub contract: MultiToken,
    /// The account that calls.
    pub caller_id: AccountId,
    /// The account that started the transfer call.
    pub sender_id: AccountId,
    /// How the receiver's chain of calls ended.
    pub outcome: ReceiverOutcome,
    /// The lines logged while the contract runs, for the host to take.
    pub log: Vec<String>,
}

impl MultiTokenResolver for ResumedContract {
    open spec fn books(&self) -> Map<Seq<char>, TokenState> {
        self.contract@
    }

    open spec fn outcome(&self) -> ReceiverOutcome {
        self.outcome
    }

    open spec fn may_resolve(&self, token_id: Seq<char>) -> bool {
        &&& self.contract.wf()
        &&& resolve_check(self.contract.contract_account(), self.contract@, self.caller_id@, token_id) is Ok
    }

    /// Resolves the transfer in the contract's books, and logs it if the receiver
    /// keeps the token.
    fn mt_resolve_transfer(
        &mut self,
        previous_owner_id: AccountId,
        receiver_id: AccountId,
        token_id: TokenId,
        approvals: Option<Approvals>,
    ) -> (kept: bool)
        ensures
            final(self).contract.wf(),
            final(self).contract.contract_account() == old(self).contract.contract_account(),
            final(self).caller_id == old(self).caller_id,
            final(self).sender_id == old(self).sender_id,
            kept ==> logged(
                old(self).log@,
                final(self).log@,
                transfer_event_line(
                    previous_owner_id@,
                    receiver_id@,
                    token_id@,
                    authorized_by(old(self).sender_id@, previous_owner_id@),
                ),
            ),
            !kept ==> final(self).log@ == old(self).log@,
    {
        let intent = TransferIntent {
            previous_owner_id,
            receiver_id,
            token_id,
            prior_approvals_snapshot: approvals,
        };
        // `may_resolve` leaves no call that the books would refuse.
        self.contract.resolve_transfer(
            &self.caller_id,
            &self.sender_id,
            intent,
            self.outcome,
            &mut self.log,
        ).unwrap()
    }
}

} // verus!

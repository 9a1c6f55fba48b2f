//! The transfer-call protocol.
//!
//! A transfer call hands a token to a receiving contract at once, tells that contract,
//! and settles only when everything the receiver set in motion has come to rest: the
//! receiver keeps the token, or the token goes back to its previous owner with the
//! approvals it had. The contract suspends between the two steps, so each step is an
//! entry point of its own: [`MultiToken::transfer_call`] starts a transfer and returns
//! the [`TransferIntent`] that the host carries to [`MultiToken::resolve_transfer`].

use crate::account::AccountId;
use crate::assoc::{as_map, has_key, keys_distinct, lemma_absent, lemma_empty, lemma_entry, lemma_push, lemma_update};
use crate::event::{event_line, logged};
use crate::multi_token::events::{transfer_json, MtTransfer};
use crate::multi_token::mt_core::outcome::ReceiverOutcome;
use crate::multi_token::token::{valid_entries, Approvals, Token, TokenId, TokenState};
use vstd::prelude::*;

verus! {

/// Why the protocol refused a call. A refused call changes nothing.
#[derive(Debug, Clone, Copy, PartialEq, Eq, Structural)]
pub enum TransferError {
    /// The caller neither owns the token nor holds an approval on it.
    Unauthorized,
    /// The contract knows no token of that id.
    TokenNotFound,
    /// Another account than the contract itself asked for a transfer's resolution.
    SelfCallViolation,
    /// The caller holds an approval, but not under the id it presented.
    ApprovalStale,
}

/// What a transfer call in flight needs remembered until it is resolved. It lives only
/// in the arguments of the resolving call, so it carries the approvals that stood
/// before the transfer: the ledger may change while the receiver runs.
#[derive(Debug)]
pub struct TransferIntent {
    pub previous_owner_id: AccountId,
    pub receiver_id: AccountId,
    pub token_id: TokenId,
    pub prior_approvals_snapshot: Option<Approvals>,
}

/// The approvals of an optional snapshot.
pub open spec fn snapshot_view(snapshot: Option<Approvals>) -> Option<Map<Seq<char>, u64>> {
    match snapshot {
        Some(approvals) => Some(approvals@),
        None => None,
    }
}

impl TransferIntent {
    /// The snapshot, if there is one, is well formed.
    pub open spec fn wf(&self) -> bool {
        self.prior_approvals_snapshot matches Some(approvals) ==> approvals.wf()
    }
}

/// The call that tells the receiver of a transfer: whom to call, and the arguments of
/// its `mt_on_transfer`.
#[derive(Debug)]
pub struct OnTransfer {
    pub receiver_id: AccountId,
    pub sender_id: AccountId,
    pub previous_owner_id: AccountId,
    pub token_id: TokenId,
    pub msg: String,
}

/// What a started transfer call asks of the host: to tell the receiver, and, once the
/// receiver's chain of calls has come to rest, to have the contract resolve the
/// transfer with the intent.
#[derive(Debug)]
pub struct TransferCall {
    pub notification: OnTransfer,
    pub intent: TransferIntent,
}

impl TokenState {
    /// Whether `caller` may move the token out of the hands of `previous_owner`, and if
    /// not, why not. The token must be owned by `previous_owner`. Its owner may always
    /// move it. Any other caller needs an approval, and where it presents an approval
    /// id, that id must be the one under which its approval stands.
    pub open spec fn authorize(
        self,
        caller: Seq<char>,
        previous_owner: Seq<char>,
        approval_id: Option<u64>,
    ) -> Result<(), TransferError> {
        if self.owner != previous_owner {
            Err(TransferError::Unauthorized)
        } else if caller == previous_owner {
            Ok(())
        } else if !self.approvals.contains_key(caller) {
            Err(TransferError::Unauthorized)
        } else if approval_id is Some && approval_id != Some(self.approvals[caller]) {
            Err(TransferError::ApprovalStale)
        } else {
            Ok(())
        }
    }

    /// The token after it was handed to `receiver`: the receiver owns it, and no
    /// approval stands.
    pub open spec fn handed_to(self, receiver: Seq<char>) -> TokenState {
        TokenState { owner: receiver, approvals: Map::empty(), ..self }
    }

    /// The token after it went back to `previous_owner`: of the approvals in the
    /// snapshot those stand again whose account is a well-formed account identifier.
    /// Without a snapshot none stands.
    pub open spec fn returned_to(
        self,
        previous_owner: Seq<char>,
        snapshot: Option<Map<Seq<char>, u64>>,
    ) -> TokenState {
        TokenState {
            owner: previous_owner,
            approvals: match snapshot {
                Some(approvals) => valid_entries(approvals),
                None => Map::empty(),
            },
            ..self
        }
    }
}

/// The account on whose authority a transfer was made where its owner did not make it:
/// the sender, unless the sender is the previous owner.
pub open spec fn authorized_by(sender: Seq<char>, previous_owner: Seq<char>) -> Option<Seq<char>> {
    if sender == previous_owner {
        None
    } else {
        Some(sender)
    }
}

/// Whether a transfer call may start, and if not, why not: the token must be known, and
/// the caller must be authorized to move it.
pub open spec fn transfer_check(
    tokens: Map<Seq<char>, TokenState>,
    caller: Seq<char>,
    previous_owner: Seq<char>,
    token_id: Seq<char>,
    approval_id: Option<u64>,
) -> Result<(), TransferError> {
    if !tokens.contains_key(token_id) {
        Err(TransferError::TokenNotFound)
    } else {
        tokens[token_id].authorize(caller, previous_owner, approval_id)
    }
}

/// Whether a transfer may be resolved, and if not, why not: only the contract itself
/// may ask, and the token must be known.
pub open spec fn resolve_check(
    contract_account: Seq<char>,
    tokens: Map<Seq<char>, TokenState>,
    caller: Seq<char>,
    token_id: Seq<char>,
) -> Result<(), TransferError> {
    if caller != contract_account {
        Err(TransferError::SelfCallViolation)
    } else if !tokens.contains_key(token_id) {
        Err(TransferError::TokenNotFound)
    } else {
        Ok(())
    }
}

/// The books after a transfer call has started: the receiver owns the token, and no
/// approval stands on it.
pub open spec fn started(
    tokens: Map<Seq<char>, TokenState>,
    receiver: Seq<char>,
    token_id: Seq<char>,
) -> Map<Seq<char>, TokenState> {
    tokens.insert(token_id, tokens[token_id].handed_to(receiver))
}

/// The books after a transfer call was resolved: as they were if the receiver keeps the
/// token, and else with the token back in the hands of its previous owner.
pub open spec fn resolved(
    tokens: Map<Seq<char>, TokenState>,
    previous_owner: Seq<char>,
    token_id: Seq<char>,
    snapshot: Option<Map<Seq<char>, u64>>,
    outcome: ReceiverOutcome,
) -> Map<Seq<char>, TokenState> {
    if outcome == ReceiverOutcome::Keep {
        tokens
    } else {
        tokens.insert(token_id, tokens[token_id].returned_to(previous_owner, snapshot))
    }
}

/// The log line of the event that tells of one token's transfer.
pub open spec fn transfer_event_line(
    old_owner: Seq<char>,
    new_owner: Seq<char>,
    token_id: Seq<char>,
    authorized: Option<Seq<char>>,
) -> Seq<char> {
    event_line(
        "1.0.0"@,
        "mt_transfer"@,
        seq![transfer_json(old_owner, new_owner, seq![token_id], authorized, None)],
    )
}

/// The contract's tokens: for each, its owner and its approvals.
///
/// Its view is the map from each token id to the token's [`TokenState`].
#[derive(Debug)]
pub struct MultiToken {
    contract_id: AccountId,
    tokens: Vec<Token>,
}

impl View for MultiToken {
    type V = Map<Seq<char>, TokenState>;

    closed spec fn view(&self) -> Map<Seq<char>, TokenState> {
        as_map(self.pairs())
    }
}

impl MultiToken {
    /// The tokens as they are listed: id and state.
    spec fn pairs(&self) -> Seq<(Seq<char>, TokenState)> {
        self.tokens@.map_values(|token: Token| (token.token_id@, token@))
    }

    /// No token is listed twice, and every token's record is well formed.
    pub closed spec fn wf(&self) -> bool {
        &&& keys_distinct(self.pairs())
        &&& forall|i: int| 0 <= i < self.tokens.len() ==> (#[trigger] self.tokens[i]).wf()
    }

    /// The account under which the contract runs.
    pub closed spec fn contract_account(&self) -> Seq<char> {
        self.contract_id@
    }

    /// A contract under the account `contract_id`, without tokens.
    pub fn new(contract_id: AccountId) -> (contract: MultiToken)
        ensures
            contract.wf(),
            contract.contract_account() == contract_id@,
            contract@ == Map::<Seq<char>, TokenState>::empty(),
    {
        let contract = MultiToken { contract_id, tokens: Vec::new() };
        proof {
            assert(contract.pairs() =~= Seq::<(Seq<char>, TokenState)>::empty());
            lemma_empty::<Seq<char>, TokenState>();
        }
        contract
    }

    /// The account under which the contract runs.
    pub fn contract_id(&self) -> (contract_id: &AccountId)
        ensures
            contract_id@ == self.contract_account(),
    {
        &self.contract_id
    }

    /// Where the record of `token_id` stands, if there is one.
    fn find(&self, token_id: &TokenId) -> (found: Option<usize>)
        ensures
            match found {
                Some(i) => i < self.tokens.len() && self.pairs()[i as int].0 == token_id@,
                None => !has_key(self.pairs(), token_id@),
            },
    {
        let mut index: usize = 0;
        while index < self.tokens.len()
            invariant
                index <= self.tokens.len(),
                forall|i: int| 0 <= i < index ==> (#[trigger] self.pairs()[i]).0 != token_id@,
            decreases self.tokens.len() - index,
        {
            if self.tokens[index].token_id == *token_id {
                return Some(index);
            }
            index += 1;
        }
        proof {
            lemma_absent(self.pairs(), token_id@);
        }
        None
    }

    /// The record of the token `token_id`, if the contract knows the token.
    pub fn token(&self, token_id: &TokenId) -> (found: Option<&Token>)
        requires
            self.wf(),
        ensures
            match found {
                Some(token) => {
                    &&& self@.contains_key(token_id@)
                    &&& token@ == self@[token_id@]
                    &&& token.token_id@ == token_id@
                    &&& token.wf()
                },
                None => !self@.contains_key(token_id@),
            },
    {
        match self.find(token_id) {
            Some(i) => {
                proof {
                    lemma_entry(self.pairs(), i as int);
                }
                Some(&self.tokens[i])
            },
            None => None,
        }
    }

    /// Puts `token` among the contract's tokens, in place of the record that the
    /// contract had under the same id, if it had one.
    pub(crate) fn put(&mut self, token: Token)
        requires
            old(self).wf(),
            token.wf(),
        ensures
            final(self).wf(),
            final(self).contract_account() == old(self).contract_account(),
            final(self)@ == old(self)@.insert(token.token_id@, token@),
    {
        let ghost before = self.pairs();
        let ghost key = token.token_id@;
        let ghost state = token@;
        match self.find(&token.token_id) {
            Some(i) => {
                self.tokens.set(i, token);
                proof {
                    lemma_update(before, i as int, state);
                    assert(self.pairs() =~= before.update(i as int, (before[i as int].0, state)));
                }
            },
            None => {
                proof {
                    lemma_push(before, key, state);
                }
                self.tokens.push(token);
                assert(self.pairs() =~= before.push((key, state)));
            },
        }
    }

    /// Takes the token `token_id` into the contract's books as owned by `owner_id`,
    /// unless a token of that id is there already. Says whether it was taken in.
    pub fn register(&mut self, token_id: TokenId, owner_id: AccountId) -> (fresh: bool)
        requires
            old(self).wf(),
        ensures
            final(self).wf(),
            final(self).contract_account() == old(self).contract_account(),
            fresh == !old(self)@.contains_key(token_id@),
            fresh ==> final(self)@ == old(self)@.insert(
                token_id@,
                TokenState {
                    owner: owner_id@,
                    approvals: Map::<Seq<char>, u64>::empty(),
                    next_approval_id: 1,
                },
            ),
            !fresh ==> final(self)@ == old(self)@,
    {
        if self.token(&token_id).is_some() {
            return false;
        }
        self.put(Token::new(token_id, owner_id));
        true
    }

    /// Starts a transfer call: `caller_id` asks that the token `token_id` go from
    /// `previous_owner_id` to the contract `receiver_id`.
    ///
    /// Where [`transfer_check`] lets the call pass, the receiver owns the token from
    /// now on and no approval stands on it. What comes back is the call that tells the
    /// receiver, with `msg` for it to read, and the intent that the resolution needs,
    /// with the approvals as they stood before. A refused call changes nothing.
    pub fn transfer_call(
        &mut self,
        caller_id: &AccountId,
        previous_owner_id: &AccountId,
        receiver_id: &AccountId,
        token_id: &TokenId,
        approval_id: Option<u64>,
        msg: String,
    ) -> (result: Result<TransferCall, TransferError>)
        requires
            old(self).wf(),
        ensures
            final(self).wf(),
            final(self).contract_account() == old(self).contract_account(),
            match result {
                Ok(call) => {
                    &&& transfer_check(
                        old(self)@,
                        caller_id@,
                        previous_owner_id@,
                        token_id@,
                        approval_id,
                    ) is Ok
                    &&& final(self)@ == started(old(self)@, receiver_id@, token_id@)
                    &&& call.notification.receiver_id@ == receiver_id@
                    &&& call.notification.sender_id@ == caller_id@
                    &&& call.notification.previous_owner_id@ == previous_owner_id@
                    &&& call.notification.token_id@ == token_id@
                    &&& call.notification.msg@ == msg@
                    &&& call.intent.wf()
                    &&& call.intent.previous_owner_id@ == previous_owner_id@
                    &&& call.intent.receiver_id@ == receiver_id@
                    &&& call.intent.token_id@ == token_id@
                    &&& snapshot_view(call.intent.prior_approvals_snapshot) == Some(
                        old(self)@[token_id@].approvals,
                    )
                },
                Err(error) => {
                    &&& transfer_check(
                        old(self)@,
                        caller_id@,
                        previous_owner_id@,
                        token_id@,
                        approval_id,
                    ) == Err::<(), TransferError>(error)
                    &&& final(self)@ == old(self)@
                },
            },
    {
        let token = match self.token(token_id) {
            Some(token) => token,
            None => {
                return Err(TransferError::TokenNotFound);
            },
        };
        if !(token.owner_id == *previous_owner_id) {
            return Err(TransferError::Unauthorized);
        }
        if !(*caller_id == *previous_owner_id) {
            match token.approvals.get(caller_id) {
                None => {
                    return Err(TransferError::Unauthorized);
                },
                Some(current) => {
                    match approval_id {
                        Some(presented) => {
                            if presented != current {
                                return Err(TransferError::ApprovalStale);
                            }
                        },
                        None => {},
                    }
                },
            }
        }
        let snapshot = token.approvals.clone();
        let handed = Token {
            token_id: token_id.clone(),
            owner_id: receiver_id.clone(),
            approvals: Approvals::new(),
            next_approval_id: token.next_approval_id,
        };
        self.put(handed);
        Ok(
            TransferCall {
                notification: OnTransfer {
                    receiver_id: receiver_id.clone(),
                    sender_id: caller_id.clone(),
                    previous_owner_id: previous_owner_id.clone(),
                    token_id: token_id.clone(),
                    msg,
                },
                intent: TransferIntent {
                    previous_owner_id: previous_owner_id.clone(),
                    receiver_id: receiver_id.clone(),
                    token_id: token_id.clone(),
                    prior_approvals_snapshot: Some(snapshot),
                },
            },
        )
    }

    /// Resolves a transfer call once the receiver's chain of calls has come to rest.
    /// `caller_id` is the account that asks, `sender_id` the account that started the
    /// transfer call.
    ///
    /// Where [`resolve_check`] lets the call pass, the answer says whether the token now
    /// belongs to the receiver. If the receiver keeps it, nothing changes in the books,
    /// and the transfer is logged as one event line. If the receiver sends it back, or
    /// its chain failed, the previous owner owns the token again, with the approvals of
    /// the intent's snapshot as far as their accounts are well formed, and nothing is
    /// logged. A refused call changes nothing and logs nothing.
    pub fn resolve_transfer(
        &mut self,
        caller_id: &AccountId,
        sender_id: &AccountId,
        intent: TransferIntent,
        outcome: ReceiverOutcome,
        log: &mut Vec<String>,
    ) -> (result: Result<bool, TransferError>)
        requires
            old(self).wf(),
            intent.wf(),
        ensures
            final(self).wf(),
            final(self).contract_account() == old(self).contract_account(),
            match result {
                Ok(kept) => {
                    &&& resolve_check(
                        old(self).contract_account(),
                        old(self)@,
                        caller_id@,
                        intent.token_id@,
                    ) is Ok
                    &&& kept == (outcome == ReceiverOutcome::Keep)
                    &&& final(self)@ == resolved(
                        old(self)@,
                        intent.previous_owner_id@,
                        intent.token_id@,
                        snapshot_view(intent.prior_approvals_snapshot),
                        outcome,
                    )
                    &&& kept ==> logged(
                        old(log)@,
                        final(log)@,
                        transfer_event_line(
                            intent.previous_owner_id@,
                            intent.receiver_id@,
                            intent.token_id@,
                            authorized_by(sender_id@, intent.previous_owner_id@),
                        ),
                    )
                    &&& !kept ==> final(log)@ == old(log)@
                },
                Err(error) => {
                    &&& resolve_check(
                        old(self).contract_account(),
                        old(self)@,
                        caller_id@,
                        intent.token_id@,
                    ) == Err::<(), TransferError>(error)
                    &&& final(self)@ == old(self)@
                    &&& final(log)@ == old(log)@
                },
            },
    {
        if !(*caller_id == self.contract_id) {
            return Err(TransferError::SelfCallViolation);
        }
        let next_approval_id = match self.token(&intent.token_id) {
            Some(token) => token.next_approval_id,
            None => {
                return Err(TransferError::TokenNotFound);
            },
        };
        match outcome {
            ReceiverOutcome::Keep => {
                let token_ids = [intent.token_id.as_str()];
                let authorized_id = if *sender_id == intent.previous_owner_id {
                    None
                } else {
                    Some(sender_id)
                };
                let transfer = MtTransfer {
                    old_owner_id: &intent.previous_owner_id,
                    new_owner_id: &intent.receiver_id,
                    token_ids: token_ids.as_slice(),
                    authorized_id,
                    memo: None,
                };
                proof {
                    assert(crate::json::views_of(token_ids@) =~= seq![intent.token_id@]);
                }
                transfer.emit(log);
                Ok(true)
            },
            _ => {
                let restored = match intent.prior_approvals_snapshot {
                    Some(approvals) => approvals.valid_only(),
                    None => Approvals::new(),
                };
                let returned = Token {
                    token_id: intent.token_id,
                    owner_id: intent.previous_owner_id,
                    approvals: restored,
                    next_approval_id,
                };
                self.put(returned);
                Ok(false)
            },
        }
    }
}

} // verus!

//! What holds of the protocol as a whole.
//!
//! The entry points say what each call does to the books. The laws here say what
//! follows for a transfer call from its start to its resolution, and for the approval
//! ids of a token over its whole life.

use crate::account::is_valid_account;
use crate::json::{json_quoted, json_string_array};
use crate::multi_token::approval::approval_impl::granted;
use crate::event::event_line;
use crate::multi_token::events::mint_json;
use crate::multi_token::reader::{mints_decoded, mints_json, MintData};
use crate::multi_token::mt_core::core_impl::{resolved, started, transfer_check};
use crate::multi_token::mt_core::outcome::ReceiverOutcome;
use crate::multi_token::token::{valid_entries, TokenState};
use vstd::prelude::*;

verus! {

/// A transfer call that the receiver keeps ends with the token owned by the receiver
/// and with no approval on it, whatever approvals stood before. The token's next
/// approval id and all other tokens are as they were.
pub proof fn lemma_kept_transfer(
    tokens: Map<Seq<char>, TokenState>,
    previous_owner: Seq<char>,
    receiver: Seq<char>,
    token_id: Seq<char>,
    snapshot: Option<Map<Seq<char>, u64>>,
)
    ensures
        ({
            let after = resolved(
                started(tokens, receiver, token_id),
                previous_owner,
                token_id,
                snapshot,
                ReceiverOutcome::Keep,
            );
            &&& after.contains_key(token_id)
            &&& after[token_id].owner == receiver
            &&& after[token_id].approvals == Map::<Seq<char>, u64>::empty()
            &&& after[token_id].next_approval_id == tokens[token_id].next_approval_id
            &&& after.remove(token_id) == tokens.remove(token_id)
        }),
{
    let after = started(tokens, receiver, token_id);
    assert(after.remove(token_id) =~= tokens.remove(token_id));
}

/// A transfer call that the receiver sends back, or whose chain failed, ends with the
/// token owned by its previous owner, under the approvals of the snapshot whose
/// accounts are well formed. Where all of them are, the approvals are those of the
/// snapshot exactly.
pub proof fn lemma_returned_transfer(
    tokens: Map<Seq<char>, TokenState>,
    previous_owner: Seq<char>,
    receiver: Seq<char>,
    token_id: Seq<char>,
    approvals: Map<Seq<char>, u64>,
    outcome: ReceiverOutcome,
)
    requires
        outcome != ReceiverOutcome::Keep,
    ensures
        ({
            let after = resolved(
                started(tokens, receiver, token_id),
                previous_owner,
                token_id,
                Some(approvals),
                outcome,
            );
            &&& after.contains_key(token_id)
            &&& after[token_id].owner == previous_owner
            &&& after[token_id].approvals == valid_entries(approvals)
            &&& (forall|account: Seq<char>| approvals.contains_key(account) ==> is_valid_account(account))
                ==> after[token_id].approvals == approvals
            &&& after[token_id].next_approval_id == tokens[token_id].next_approval_id
            &&& after.remove(token_id) == tokens.remove(token_id)
        }),
{
    let after = resolved(
        started(tokens, receiver, token_id),
        previous_owner,
        token_id,
        Some(approvals),
        outcome,
    );
    assert(after.remove(token_id) =~= tokens.remove(token_id));
    if forall|account: Seq<char>| approvals.contains_key(account) ==> is_valid_account(account) {
        assert(valid_entries(approvals) =~= approvals);
    }
}

/// A transfer call that was let pass and then undone, with the snapshot that it took,
/// leaves the books exactly as it found them, provided that every approved account is
/// well formed.
pub proof fn lemma_rollback_is_exact(
    tokens: Map<Seq<char>, TokenState>,
    caller: Seq<char>,
    previous_owner: Seq<char>,
    receiver: Seq<char>,
    token_id: Seq<char>,
    approval_id: Option<u64>,
    outcome: ReceiverOutcome,
)
    requires
        transfer_check(tokens, caller, previous_owner, token_id, approval_id) is Ok,
        outcome != ReceiverOutcome::Keep,
        forall|account: Seq<char>| #[trigger]
            tokens[token_id].approvals.contains_key(account) ==> is_valid_account(account),
    ensures
        resolved(
            started(tokens, receiver, token_id),
            previous_owner,
            token_id,
            Some(tokens[token_id].approvals),
            outcome,
        ) == tokens,
{
    let approvals = tokens[token_id].approvals;
    assert(valid_entries(approvals) =~= approvals);
    let after = resolved(
        started(tokens, receiver, token_id),
        previous_owner,
        token_id,
        Some(approvals),
        outcome,
    );
    assert(after[token_id] == tokens[token_id]);
    assert(after =~= tokens);
}

/// Once a token was handed over, no approval granted before moves it: on the books of
/// a started transfer only the new owner is authorized.
pub proof fn lemma_transfer_invalidates_approvals(
    tokens: Map<Seq<char>, TokenState>,
    receiver: Seq<char>,
    token_id: Seq<char>,
    caller: Seq<char>,
    claimed_owner: Seq<char>,
    approval_id: Option<u64>,
)
    requires
        transfer_check(
            started(tokens, receiver, token_id),
            caller,
            claimed_owner,
            token_id,
            approval_id,
        ) is Ok,
    ensures
        caller == receiver,
        claimed_owner == receiver,
{
}

/// Something that happens to a token.
pub enum Step {
    /// An approval is granted to `account`, if the token has an id left to grant.
    Grant { account: Seq<char> },
    /// A transfer call hands the token to `receiver`.
    HandOver { receiver: Seq<char> },
    /// A transfer call is undone.
    GiveBack { previous_owner: Seq<char>, snapshot: Option<Map<Seq<char>, u64>> },
}

/// The token after one step.
pub open spec fn after_step(token: TokenState, step: Step) -> TokenState {
    match step {
        Step::Grant { account } => if token.can_grant() {
            token.with_grant(account)
        } else {
            token
        },
        Step::HandOver { receiver } => token.handed_to(receiver),
        Step::GiveBack { previous_owner, snapshot } => token.returned_to(previous_owner, snapshot),
    }
}

/// The token after the steps, taken in order.
pub open spec fn after_steps(token: TokenState, steps: Seq<Step>) -> TokenState
    decreases steps.len(),
{
    if steps.len() == 0 {
        token
    } else {
        after_step(after_steps(token, steps.drop_last()), steps.last())
    }
}

/// Whatever happens to a token, its next approval id never goes down: transfers and
/// their undoing leave it alone, and a grant raises it.
pub proof fn lemma_next_approval_id_never_falls(token: TokenState, steps: Seq<Step>)
    ensures
        token.next_approval_id <= after_steps(token, steps).next_approval_id,
    decreases steps.len(),
{
    if steps.len() > 0 {
        lemma_next_approval_id_never_falls(token, steps.drop_last());
    }
}

/// Approval ids rise strictly from grant to grant on a token: a grant that follows
/// another, after whatever else happened to the token in between, and be it to the same
/// account, gets a greater id than the first.
pub proof fn lemma_approval_ids_increase(
    token: TokenState,
    first: Seq<char>,
    between: Seq<Step>,
    second: Seq<char>,
)
    requires
        token.can_grant(),
        after_steps(token.with_grant(first), between).can_grant(),
    ensures
        ({
            let first_id = token.next_approval_id;
            let later = after_steps(token.with_grant(first), between);
            let second_id = later.next_approval_id;
            &&& token.with_grant(first).approvals[first] == first_id
            &&& later.with_grant(second).approvals[second] == second_id
            &&& first_id < second_id
        }),
{
    lemma_next_approval_id_never_falls(token.with_grant(first), between);
}

/// A grant on one token leaves every other token as it was.
pub proof fn lemma_grant_is_local(
    tokens: Map<Seq<char>, TokenState>,
    token_id: Seq<char>,
    account: Seq<char>,
)
    ensures
        granted(tokens, token_id, account).remove(token_id) == tokens.remove(token_id),
{
    assert(granted(tokens, token_id, account).remove(token_id) =~= tokens.remove(token_id));
}

/// A mint without a memo is logged without a `memo` member: its JSON object holds the
/// owner and the token ids, and nothing else.
pub proof fn lemma_mint_without_memo(owner_id: Seq<char>, token_ids: Seq<Seq<char>>)
    ensures
        mint_json(owner_id, token_ids, None) == "{\"owner_id\":"@ + json_quoted(owner_id)
            + ",\"token_ids\":"@ + json_string_array(token_ids) + "}"@,
{
    assert(mint_json(owner_id, token_ids, None) =~= "{\"owner_id\":"@ + json_quoted(owner_id)
        + ",\"token_ids\":"@ + json_string_array(token_ids) + "}"@);
}

/// Reading a mint event and writing it again gives the same line: whatever mints a
/// line is read as, their event line is that line, character for character.
pub proof fn lemma_decoded_mints_write_their_line(line: Seq<char>, mints: Seq<MintData>)
    requires
        mints_decoded(line) == Some(mints),
    ensures
        event_line("1.0.0"@, "mt_mint"@, mints_json(mints)) == line,
{
}

} // verus!

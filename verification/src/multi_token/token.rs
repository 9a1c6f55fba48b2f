//! Tokens and the approvals granted on them.

use crate::account::{is_valid_account, AccountId};
use crate::assoc::{as_map, has_key, keys_distinct, lemma_absent, lemma_empty, lemma_entry, lemma_push, lemma_update};
use vstd::prelude::*;

verus! {

/// What names a token within its contract. The protocol only compares it.
pub type TokenId = String;

/// The largest approval id that is ever granted: 2^53, the last integer up to which
/// every integer survives a passage through JSON.
pub const MAX_APPROVAL_ID: u64 = 9_007_199_254_740_992;

/// A delegated authorization: an account that may move a token for its owner, and the
/// id under which that was granted.
#[derive(Debug)]
pub struct Approval {
    pub account_id: AccountId,
    pub approval_id: u64,
}

/// The approvals on one token, at most one per approved account.
///
/// Its view is the map from each approved account to the id of its approval.
#[derive(Debug)]
pub struct Approvals {
    entries: Vec<Approval>,
}

/// The entries of `approvals` whose account is a well-formed account identifier.
pub open spec fn valid_entries(approvals: Map<Seq<char>, u64>) -> Map<Seq<char>, u64> {
    approvals.restrict(Set::new(|account: Seq<char>| is_valid_account(account)))
}

impl View for Approvals {
    type V = Map<Seq<char>, u64>;

    closed spec fn view(&self) -> Map<Seq<char>, u64> {
        as_map(self.pairs())
    }
}

impl Approvals {
    /// The entries as they are listed: account and approval id.
    spec fn pairs(&self) -> Seq<(Seq<char>, u64)> {
        self.entries@.map_values(|entry: Approval| (entry.account_id@, entry.approval_id))
    }

    /// No account is listed twice.
    pub closed spec fn wf(&self) -> bool {
        keys_distinct(self.pairs())
    }

    /// No approvals.
    pub fn new() -> (approvals: Approvals)
        ensures
            approvals.wf(),
            approvals@ == Map::<Seq<char>, u64>::empty(),
    {
        let approvals = Approvals { entries: Vec::new() };
        proof {
            assert(approvals.pairs() =~= Seq::<(Seq<char>, u64)>::empty());
            lemma_empty::<Seq<char>, u64>();
        }
        approvals
    }

    /// Where the entry of `account_id` stands, if it has one.
    fn find(&self, account_id: &AccountId) -> (found: Option<usize>)
        ensures
            match found {
                Some(i) => i < self.entries.len() && self.pairs()[i as int].0 == account_id@,
                None => !has_key(self.pairs(), account_id@),
            },
    {
        let mut index: usize = 0;
        while index < self.entries.len()
            invariant
                index <= self.entries.len(),
                forall|i: int| 0 <= i < index ==> (#[trigger] self.pairs()[i]).0 != account_id@,
            decreases self.entries.len() - index,
        {
            if self.entries[index].account_id == *account_id {
                return Some(index);
            }
            index += 1;
        }
        proof {
            lemma_absent(self.pairs(), account_id@);
        }
        None
    }

    /// The id of the approval that `account_id` holds, if it holds one.
    pub fn get(&self, account_id: &AccountId) -> (approval_id: Option<u64>)
        requires
            self.wf(),
        ensures
            approval_id == if self@.contains_key(account_id@) {
                Some(self@[account_id@])
            } else {
                None
            },
    {
        match self.find(account_id) {
            Some(i) => {
                proof {
                    lemma_entry(self.pairs(), i as int);
                }
                Some(self.entries[i].approval_id)
            },
            None => None,
        }
    }

    /// The approvals one by one, each account once, in no order that means anything.
    pub fn entries(&self) -> (entries: &[Approval])
        requires
            self.wf(),
        ensures
            forall|i: int|
                0 <= i < entries@.len() ==> self@.contains_key((#[trigger] entries@[i]).account_id@)
                    && self@[entries@[i].account_id@] == entries@[i].approval_id,
            forall|account: Seq<char>|
                self@.contains_key(account) ==> exists|i: int|
                    0 <= i < entries@.len() && (#[trigger] entries@[i]).account_id@ == account,
            forall|i: int, j: int|
                0 <= i < j < entries@.len() ==> (#[trigger] entries@[i]).account_id@ != (
                #[trigger] entries@[j]).account_id@,
    {
        let entries = self.entries.as_slice();
        proof {
            assert forall|i: int| 0 <= i < entries@.len() implies self@.contains_key(
                (#[trigger] entries@[i]).account_id@,
            ) && self@[entries@[i].account_id@] == entries@[i].approval_id by {
                lemma_entry(self.pairs(), i);
            }
            assert forall|account: Seq<char>| self@.contains_key(account) implies exists|i: int|
                0 <= i < entries@.len() && (#[trigger] entries@[i]).account_id@ == account by {
                let i = crate::assoc::position(self.pairs(), account);
                assert(entries@[i].account_id@ == account);
            }
            assert forall|i: int, j: int| 0 <= i < j < entries@.len() implies (
            #[trigger] entries@[i]).account_id@ != (#[trigger] entries@[j]).account_id@ by {
                assert(self.pairs()[i].0 != self.pairs()[j].0);
            }
        }
        entries
    }

    /// Whether there is no approval at all.
    pub fn is_empty(&self) -> (empty: bool)
        ensures
            empty == (self@ == Map::<Seq<char>, u64>::empty()),
    {
        let empty = self.entries.len() == 0;
        proof {
            if empty {
                assert(self.pairs() =~= Seq::<(Seq<char>, u64)>::empty());
                lemma_empty::<Seq<char>, u64>();
            } else {
                assert(has_key(self.pairs(), self.pairs()[0].0));
                assert(self@.contains_key(self.pairs()[0].0));
            }
        }
        empty
    }

    /// Records that `account_id` holds the approval `approval_id`, in place of any
    /// approval it held before.
    pub fn insert(&mut self, account_id: AccountId, approval_id: u64)
        requires
            old(self).wf(),
        ensures
            final(self).wf(),
            final(self)@ == old(self)@.insert(account_id@, approval_id),
    {
        let ghost before = self.pairs();
        match self.find(&account_id) {
            Some(i) => {
                self.entries.set(i, Approval { account_id, approval_id });
                proof {
                    lemma_update(before, i as int, approval_id);
                    assert(self.pairs() =~= before.update(i as int, (before[i as int].0, approval_id)));
                }
            },
            None => {
                proof {
                    lemma_push(before, account_id@, approval_id);
                }
                self.entries.push(Approval { account_id, approval_id });
                assert(self.pairs() =~= before.push((account_id@, approval_id)));
            },
        }
    }

    /// The approvals whose account is a well-formed account identifier, each with its id.
    pub fn valid_only(&self) -> (kept: Approvals)
        requires
            self.wf(),
        ensures
            kept.wf(),
            kept@ == valid_entries(self@),
    {
        let mut kept = Approvals::new();
        let mut index: usize = 0;
        while index < self.entries.len()
            invariant
                self.wf(),
                kept.wf(),
                index <= self.entries.len(),
                forall|account: Seq<char>| #[trigger]
                    kept@.contains_key(account) <==> is_valid_account(account) && has_key(
                        self.pairs().take(index as int),
                        account,
                    ),
                forall|account: Seq<char>| #[trigger]
                    kept@.contains_key(account) ==> kept@[account] == self@[account],
            decreases self.entries.len() - index,
        {
            let entry = &self.entries[index];
            let ghost shorter = self.pairs().take(index as int);
            let ghost longer = self.pairs().take(index as int + 1);
            proof {
                lemma_entry(self.pairs(), index as int);
                assert(longer =~= shorter.push(self.pairs()[index as int]));
                assert forall|account: Seq<char>| #[trigger]
                    has_key(longer, account) <==> has_key(shorter, account) || account
                        == entry.account_id@ by {
                    if has_key(longer, account) {
                        let i = crate::assoc::position(longer, account);
                        if i < index {
                            assert(shorter[i].0 == account);
                        }
                    }
                    if has_key(shorter, account) {
                        let i = crate::assoc::position(shorter, account);
                        assert(longer[i].0 == account);
                    }
                    if account == entry.account_id@ {
                        assert(longer[index as int].0 == account);
                    }
                }
            }
            if entry.account_id.is_valid() {
                kept.insert(entry.account_id.clone(), entry.approval_id);
            }
            index += 1;
        }
        proof {
            assert(self.pairs().take(index as int) =~= self.pairs());
            assert(kept@ =~= valid_entries(self@));
        }
        kept
    }
}

impl Clone for Approvals {
    fn clone(&self) -> (copy: Approvals)
        ensures
            copy@ == self@,
            self.wf() ==> copy.wf(),
    {
        let mut entries: Vec<Approval> = Vec::new();
        let mut index: usize = 0;
        while index < self.entries.len()
            invariant
                index <= self.entries.len(),
                entries.len() == index,
                forall|i: int|
                    0 <= i < index ==> (#[trigger] entries[i]).account_id@
                        == self.entries[i].account_id@ && entries[i].approval_id
                        == self.entries[i].approval_id,
            decreases self.entries.len() - index,
        {
            let entry = &self.entries[index];
            entries.push(Approval { account_id: entry.account_id.clone(), approval_id: entry.approval_id });
            index += 1;
        }
        let copy = Approvals { entries };
        assert(copy.pairs() =~= self.pairs());
        copy
    }
}


/// What the protocol knows of one token: who owns it, which approvals stand, and the id
/// that the next approval will get.
pub struct TokenState {
    pub owner: Seq<char>,
    pub approvals: Map<Seq<char>, u64>,
    pub next_approval_id: u64,
}

/// The record that the contract keeps of one token. Its view is the token's
/// [`TokenState`].
#[derive(Debug)]
pub struct Token {
    pub token_id: TokenId,
    pub owner_id: AccountId,
    pub approvals: Approvals,
    pub next_approval_id: u64,
}

impl View for Token {
    type V = TokenState;

    open spec fn view(&self) -> TokenState {
        TokenState {
            owner: self.owner_id@,
            approvals: self.approvals@,
            next_approval_id: self.next_approval_id,
        }
    }
}

impl Token {
    /// The approvals are well formed, and the id of the next approval is at least 1 and
    /// at most one past the largest id that can be granted.
    pub open spec fn wf(&self) -> bool {
        &&& self.approvals.wf()
        &&& 1 <= self.next_approval_id <= MAX_APPROVAL_ID + 1
    }

    /// A token that `owner_id` has just come to own: no approvals, and none granted yet.
    pub fn new(token_id: TokenId, owner_id: AccountId) -> (token: Token)
        ensures
            token.wf(),
            token.token_id@ == token_id@,
            token@ == (TokenState {
                owner: owner_id@,
                approvals: Map::<Seq<char>, u64>::empty(),
                next_approval_id: 1,
            }),
    {
        Token { token_id, owner_id, approvals: Approvals::new(), next_approval_id: 1 }
    }
}

} // verus!

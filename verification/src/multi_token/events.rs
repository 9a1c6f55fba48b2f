//! The events of the multi-token standard.
//!
//! There are three: [`MtMint`], [`MtTransfer`] and [`MtBurn`]. One record is logged by
//! calling `emit` on it, several of a kind as one event by the kind's `emit_many`. A
//! member without a value (no memo, no authorized account) is left out of the JSON.

use crate::account::AccountId;
use crate::event::{event_line, logged, NearEvent};
use crate::json::{
    json_array, json_joined, json_optional, json_quoted, json_string_array, lemma_joined_push,
    push_optional, push_quoted, push_string_array, view_of, views_of,
};
use vstd::prelude::*;
use vstd::string::*;

verus! {

/// A record of an event: something that has a JSON object.
pub trait EventRecord {
    /// The record's JSON object.
    spec fn json(&self) -> Seq<char>;

    /// Appends the record's JSON object to `out`.
    fn push_json(&self, out: &mut String)
        ensures
            final(out)@ == old(out)@ + self.json(),
    ;
}

/// The JSON objects of the records, in order.
pub open spec fn records_json<R: EventRecord>(records: Seq<R>) -> Seq<Seq<char>> {
    records.map_values(|record: R| record.json())
}

/// Appends the JSON array of the records, in their order.
pub(crate) fn push_records<R: EventRecord>(out: &mut String, records: &[R])
    ensures
        final(out)@ == old(out)@ + json_array(records_json(records@)),
{
    let ghost start = out@;
    let ghost objects = records_json(records@);
    out.append("[");
    let mut index: usize = 0;
    while index < records.len()
        invariant
            index <= records.len(),
            objects == records_json(records@),
            out@ == start + "["@ + json_joined(objects.take(index as int)),
        decreases records.len() - index,
    {
        if index > 0 {
            out.append(",");
        }
        records[index].push_json(out);
        proof {
            lemma_joined_push(objects.take(index as int), objects[index as int]);
            assert(objects.take(index as int).push(objects[index as int]) =~= objects.take(
                index as int + 1,
            ));
        }
        index += 1;
    }
    assert(objects.take(index as int) =~= objects);
    out.append("]");
}

/// The JSON object of a mint record.
pub open spec fn mint_json(owner_id: Seq<char>, token_ids: Seq<Seq<char>>, memo: Option<Seq<char>>) -> Seq<
    char,
> {
    "{\"owner_id\":"@ + json_quoted(owner_id) + ",\"token_ids\":"@ + json_string_array(token_ids)
        + json_optional(",\"memo\":"@, memo) + "}"@
}

/// The JSON object of a transfer record.
pub open spec fn transfer_json(
    old_owner_id: Seq<char>,
    new_owner_id: Seq<char>,
    token_ids: Seq<Seq<char>>,
    authorized_id: Option<Seq<char>>,
    memo: Option<Seq<char>>,
) -> Seq<char> {
    "{\"old_owner_id\":"@ + json_quoted(old_owner_id) + ",\"new_owner_id\":"@ + json_quoted(
        new_owner_id,
    ) + ",\"token_ids\":"@ + json_string_array(token_ids) + json_optional(
        ",\"authorized_id\":"@,
        authorized_id,
    ) + json_optional(",\"memo\":"@, memo) + "}"@
}

/// The JSON object of a burn record.
pub open spec fn burn_json(
    owner_id: Seq<char>,
    token_ids: Seq<Seq<char>>,
    authorized_id: Option<Seq<char>>,
    memo: Option<Seq<char>>,
) -> Seq<char> {
    "{\"owner_id\":"@ + json_quoted(owner_id) + ",\"token_ids\":"@ + json_string_array(token_ids)
        + json_optional(",\"authorized_id\":"@, authorized_id) + json_optional(",\"memo\":"@, memo)
        + "}"@
}

/// The text of an optional account.
pub open spec fn account_view(account: Option<&AccountId>) -> Option<Seq<char>> {
    match account {
        Some(id) => Some(id@),
        None => None,
    }
}

/// The identifier's text, if there is an account.
fn account_text<'a>(account: Option<&'a AccountId>) -> (text: Option<&'a str>)
    ensures
        view_of(text) == account_view(account),
{
    match account {
        Some(id) => Some(id.as_str()),
        None => None,
    }
}

/// Data to log for a mint: the tokens `token_ids` were created for `owner_id`.
#[must_use]
#[derive(Debug, Clone)]
pub struct MtMint<'a> {
    pub owner_id: &'a AccountId,
    pub token_ids: &'a [&'a str],
    pub memo: Option<&'a str>,
}

impl<'a> EventRecord for MtMint<'a> {
    open spec fn json(&self) -> Seq<char> {
        mint_json(self.owner_id@, views_of(self.token_ids@), view_of(self.memo))
    }

    fn push_json(&self, out: &mut String) {
        out.append("{\"owner_id\":");
        push_quoted(out, self.owner_id.as_str());
        out.append(",\"token_ids\":");
        push_string_array(out, self.token_ids);
        push_optional(out, ",\"memo\":", self.memo);
        out.append("}");
    }
}

impl<'a> MtMint<'a> {
    /// Logs this mint as an event of its own.
    pub fn emit(self, log: &mut Vec<String>)
        ensures
            logged(old(log)@, final(log)@, event_line("1.0.0"@, "mt_mint"@, seq![self.json()])),
    {
        let data = [self];
        assert(records_json(data@) =~= seq![self.json()]);
        Self::emit_many(data.as_slice(), log)
    }

    /// Logs the mints as one event: one line, whose `data` lists them in their order.
    pub fn emit_many(data: &[MtMint<'_>], log: &mut Vec<String>)
        ensures
            logged(old(log)@, final(log)@, event_line("1.0.0"@, "mt_mint"@, records_json(data@))),
    {
        new_246_v1(Nep246EventKind::MtMint(data)).emit(log)
    }
}

/// Data to log for a transfer: the tokens `token_ids` went from `old_owner_id` to
/// `new_owner_id`, on the authority of `authorized_id` where the owner did not act.
#[must_use]
#[derive(Debug, Clone)]
pub struct MtTransfer<'a> {
    pub old_owner_id: &'a AccountId,
    pub new_owner_id: &'a AccountId,
    pub token_ids: &'a [&'a str],
    pub authorized_id: Option<&'a AccountId>,
    pub memo: Option<&'a str>,
}

impl<'a> EventRecord for MtTransfer<'a> {
    open spec fn json(&self) -> Seq<char> {
        transfer_json(
            self.old_owner_id@,
            self.new_owner_id@,
            views_of(self.token_ids@),
            account_view(self.authorized_id),
            view_of(self.memo),
        )
    }

    fn push_json(&self, out: &mut String) {
        out.append("{\"old_owner_id\":");
        push_quoted(out, self.old_owner_id.as_str());
        out.append(",\"new_owner_id\":");
        push_quoted(out, self.new_owner_id.as_str());
        out.append(",\"token_ids\":");
        push_string_array(out, self.token_ids);
        push_optional(out, ",\"authorized_id\":", account_text(self.authorized_id));
        push_optional(out, ",\"memo\":", self.memo);
        out.append("}");
    }
}

impl<'a> MtTransfer<'a> {
    /// Logs this transfer as an event of its own.
    pub fn emit(self, log: &mut Vec<String>)
        ensures
            logged(
                old(log)@,
                final(log)@,
                event_line("1.0.0"@, "mt_transfer"@, seq![self.json()]),
            ),
    {
        let data = [self];
        assert(records_json(data@) =~= seq![self.json()]);
        Self::emit_many(data.as_slice(), log)
    }

    /// Logs the transfers as one event: one line, whose `data` lists them in their
    /// order.
    pub fn emit_many(data: &[MtTransfer<'_>], log: &mut Vec<String>)
        ensures
            logged(
                old(log)@,
                final(log)@,
                event_line("1.0.0"@, "mt_transfer"@, records_json(data@)),
            ),
    {
        new_246_v1(Nep246EventKind::MtTransfer(data)).emit(log)
    }
}

/// Data to log for a burn: the tokens `token_ids` of `owner_id` were destroyed, on the
/// authority of `authorized_id` where the owner did not act.
#[must_use]
#[derive(Debug, Clone)]
pub struct MtBurn<'a> {
    pub owner_id: &'a AccountId,
    pub token_ids: &'a [&'a str],
    pub authorized_id: Option<&'a AccountId>,
    pub memo: Option<&'a str>,
}

impl<'a> EventRecord for MtBurn<'a> {
    open spec fn json(&self) -> Seq<char> {
        burn_json(
            self.owner_id@,
            views_of(self.token_ids@),
            account_view(self.authorized_id),
            view_of(self.memo),
        )
    }

    fn push_json(&self, out: &mut String) {
        out.append("{\"owner_id\":");
        push_quoted(out, self.owner_id.as_str());
        out.append(",\"token_ids\":");
        push_string_array(out, self.token_ids);
        push_optional(out, ",\"authorized_id\":", account_text(self.authorized_id));
        push_optional(out, ",\"memo\":", self.memo);
        out.append("}");
    }
}

impl<'a> MtBurn<'a> {
    /// Logs this burn as an event of its own.
    pub fn emit(self, log: &mut Vec<String>)
        ensures
            logged(old(log)@, final(log)@, event_line("1.0.0"@, "mt_burn"@, seq![self.json()])),
    {
        let data = [self];
        assert(records_json(data@) =~= seq![self.json()]);
        Self::emit_many(data.as_slice(), log)
    }

    /// Logs the burns as one event: one line, whose `data` lists them in their order.
    pub fn emit_many(data: &[MtBurn<'_>], log: &mut Vec<String>)
        ensures
            logged(old(log)@, final(log)@, event_line("1.0.0"@, "mt_burn"@, records_json(data@))),
    {
        new_246_v1(Nep246EventKind::MtBurn(data)).emit(log)
    }
}

/// A NEP-246 event under a version of the standard.
#[derive(Debug)]
pub struct Nep246Event<'a> {
    pub version: &'static str,
    pub event_kind: Nep246EventKind<'a>,
}

/// The records of an event, by its kind.
#[derive(Debug)]
pub enum Nep246EventKind<'a> {
    MtMint(&'a [MtMint<'a>]),
    MtTransfer(&'a [MtTransfer<'a>]),
    MtBurn(&'a [MtBurn<'a>]),
}

impl<'a> Nep246EventKind<'a> {
    /// The name under which the kind is logged.
    pub open spec fn name(&self) -> Seq<char> {
        match self {
            Nep246EventKind::MtMint(_) => "mt_mint"@,
            Nep246EventKind::MtTransfer(_) => "mt_transfer"@,
            Nep246EventKind::MtBurn(_) => "mt_burn"@,
        }
    }

    /// The JSON objects of the event's records, in order.
    pub open spec fn records(&self) -> Seq<Seq<char>> {
        match self {
            Nep246EventKind::MtMint(data) => records_json(data@),
            Nep246EventKind::MtTransfer(data) => records_json(data@),
            Nep246EventKind::MtBurn(data) => records_json(data@),
        }
    }
}

/// The NEP-246 event of the given kind under the given version of the standard.
pub fn new_246<'a>(version: &'static str, event_kind: Nep246EventKind<'a>) -> (event: NearEvent<'a>)
    ensures
        event == NearEvent::Nep246(Nep246Event { version, event_kind }),
{
    NearEvent::Nep246(Nep246Event { version, event_kind })
}

/// The NEP-246 event of the given kind under version 1.0.0.
pub fn new_246_v1(event_kind: Nep246EventKind) -> (event: NearEvent)
    ensures
        event == NearEvent::Nep246(Nep246Event { version: "1.0.0", event_kind }),
{
    new_246("1.0.0", event_kind)
}

} // verus!

//! The envelope in which every standard logs its events.
//!
//! An event is logged as one line: the marker `EVENT_JSON:` and a JSON object that
//! names the standard, its version and the event, and lists the event's records under
//! `data`.

use crate::json::{json_array, json_quoted, push_quoted};
use crate::multi_token::events::{push_records, records_json, EventRecord, Nep246Event, Nep246EventKind};
use vstd::prelude::*;
use vstd::string::*;

verus! {

/// The JSON object of a NEP-246 event: standard, version, event name and records, in
/// that order. The event's name stands between quotes as it is: the names of the
/// standard hold nothing that JSON escapes.
pub open spec fn event_json(version: Seq<char>, event: Seq<char>, records: Seq<Seq<char>>) -> Seq<
    char,
> {
    "{\"standard\":\"nep246\",\"version\":"@ + json_quoted(version) + ",\"event\":\""@ + event
        + "\",\"data\":"@ + json_array(records) + "}"@
}

/// The log line of a NEP-246 event.
pub open spec fn event_line(version: Seq<char>, event: Seq<char>, records: Seq<Seq<char>>) -> Seq<
    char,
> {
    "EVENT_JSON:"@ + event_json(version, event, records)
}

/// `after` is `before` with the one line `line` appended.
pub open spec fn logged(before: Seq<String>, after: Seq<String>, line: Seq<char>) -> bool {
    &&& after.len() == before.len() + 1
    &&& after.drop_last() == before
    &&& after.last()@ == line
}

/// The JSON object of the NEP-246 event `event` that holds the records, under the given
/// version of the standard.
pub(crate) fn json_of<R: EventRecord>(version: &str, event: &str, records: &[R]) -> (text: String)
    ensures
        text@ == event_json(version@, event@, records_json(records@)),
{
    let mut text = String::from_str("{\"standard\":\"nep246\",\"version\":");
    push_quoted(&mut text, version);
    text.append(",\"event\":\"");
    text.append(event);
    text.append("\",\"data\":");
    push_records(&mut text, records);
    text.append("}");
    text
}

/// The log line of the NEP-246 event `event` that holds the records, under the given
/// version of the standard.
pub(crate) fn line_of<R: EventRecord>(version: &str, event: &str, records: &[R]) -> (line: String)
    ensures
        line@ == event_line(version@, event@, records_json(records@)),
{
    let json = json_of(version, event, records);
    let mut line = String::from_str("EVENT_JSON:");
    line.append(json.as_str());
    line
}

/// An event of one of the standards, ready to be logged.
#[must_use]
#[derive(Debug)]
pub enum NearEvent<'a> {
    Nep246(Nep246Event<'a>),
}

impl<'a> NearEvent<'a> {
    /// The event's JSON object.
    pub open spec fn json(&self) -> Seq<char> {
        match self {
            NearEvent::Nep246(event) => event_json(
                event.version@,
                event.event_kind.name(),
                event.event_kind.records(),
            ),
        }
    }

    /// The line under which the event is logged.
    pub open spec fn line(&self) -> Seq<char> {
        "EVENT_JSON:"@ + self.json()
    }

    /// The event as a JSON object.
    pub fn to_json_string(&self) -> (text: String)
        ensures
            text@ == self.json(),
    {
        match self {
            NearEvent::Nep246(event) => match event.event_kind {
                Nep246EventKind::MtMint(data) => json_of(event.version, "mt_mint", data),
                Nep246EventKind::MtTransfer(data) => json_of(event.version, "mt_transfer", data),
                Nep246EventKind::MtBurn(data) => json_of(event.version, "mt_burn", data),
            },
        }
    }

    /// The line under which the event is logged.
    pub fn to_json_event_string(&self) -> (line: String)
        ensures
            line@ == self.line(),
    {
        let json = self.to_json_string();
        let mut line = String::from_str("EVENT_JSON:");
        line.append(json.as_str());
        line
    }

    /// Logs the event: appends its line to `log`, which the contract hands to the host.
    pub fn emit(self, log: &mut Vec<String>)
        ensures
            logged(old(log)@, final(log)@, self.line()),
    {
        let line = self.to_json_event_string();
        log.push(line);
        assert(log@.drop_last() =~= old(log)@);
    }
}

} // verus!

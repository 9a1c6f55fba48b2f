//! Reading mint events back from their log lines.
//!
//! The reader knows the one form in which the standard writes a mint event, and walks a
//! line by that form. It does not rely on having walked well: it writes what it read as
//! an event line again, and answers only if that line is the line it was given,
//! character for character. So whatever comes out of [`decode_mints`] is what the line
//! says.

use crate::account::AccountId;
use crate::event::{event_line, line_of};
use crate::json::{text_of, texts_of, views_of};
use crate::multi_token::events::{mint_json, records_json, EventRecord, MtMint};
use vstd::prelude::*;
use vstd::string::*;

verus! {

/// The text that a JSON string literal stands for, if `literal` is one.
pub uninterp spec fn json_unquoted(literal: Seq<char>) -> Option<Seq<char>>;

/// `serde_json::from_str::<String>` reads `literal` as a JSON text that holds one string
/// and nothing else but blanks around it. The string it finds, or that it found none,
/// depends on the text alone, and is what [`json_unquoted`] names.
#[verifier::external_body]
fn unquote(literal: &str) -> (text: Option<String>)
    ensures
        text_of(text) == json_unquoted(literal@),
{
    serde_json::from_str::<String>(literal).ok()
}

/// What a mint record says: its owner, its token ids and its memo.
pub struct MintData {
    pub owner_id: Seq<char>,
    pub token_ids: Seq<Seq<char>>,
    pub memo: Option<Seq<char>>,
}

impl MintData {
    /// The record's JSON object.
    pub open spec fn json(self) -> Seq<char> {
        mint_json(self.owner_id, self.token_ids, self.memo)
    }
}

/// The JSON objects of the mints, in order.
pub open spec fn mints_json(mints: Seq<MintData>) -> Seq<Seq<char>> {
    mints.map_values(|mint: MintData| mint.json())
}

/// A mint as it is read back from a log line: the data of an [`MtMint`], owned. Its view
/// is what the record says.
#[derive(Debug)]
pub struct MintRecord {
    pub owner_id: AccountId,
    pub token_ids: Vec<String>,
    pub memo: Option<String>,
}

impl View for MintRecord {
    type V = MintData;

    open spec fn view(&self) -> MintData {
        MintData {
            owner_id: self.owner_id@,
            token_ids: texts_of(self.token_ids@),
            memo: text_of(self.memo),
        }
    }
}

/// What the records say, in order.
pub open spec fn mints_of(records: Seq<MintRecord>) -> Seq<MintData> {
    records.map_values(|record: MintRecord| record@)
}

/// The strings as string slices.
fn borrowed<'a>(strings: &'a Vec<String>) -> (slices: Vec<&'a str>)
    ensures
        views_of(slices@) == texts_of(strings@),
{
    let mut slices: Vec<&'a str> = Vec::new();
    let mut index: usize = 0;
    while index < strings.len()
        invariant
            index <= strings.len(),
            slices@.len() == index,
            forall|i: int| 0 <= i < index ==> (#[trigger] slices@[i])@ == strings@[i]@,
        decreases strings.len() - index,
    {
        slices.push(strings[index].as_str());
        index += 1;
    }
    assert(views_of(slices@) =~= texts_of(strings@));
    slices
}

impl EventRecord for MintRecord {
    open spec fn json(&self) -> Seq<char> {
        self@.json()
    }

    fn push_json(&self, out: &mut String) {
        let token_ids = borrowed(&self.token_ids);
        let memo = match &self.memo {
            Some(text) => Some(text.as_str()),
            None => None,
        };
        let mint = MtMint { owner_id: &self.owner_id, token_ids: token_ids.as_slice(), memo };
        mint.push_json(out);
    }
}

/// Whether `word` stands in `text` at `at`.
pub open spec fn stands_at(text: Seq<char>, at: int, word: Seq<char>) -> bool {
    &&& 0 <= at
    &&& at + word.len() <= text.len()
    &&& text.subrange(at, at + word.len()) == word
}

/// Where the string literal ends whose opening quote stands just before `at`: the place
/// after the first quote from `at` on that no backslash escapes. None where the text
/// ends before the literal does.
pub open spec fn literal_end(text: Seq<char>, at: int) -> Option<int>
    decreases text.len() - at,
{
    if at < 0 || at >= text.len() {
        None
    } else if text[at] == '"' {
        Some(at + 1)
    } else if text[at] == '\\' {
        if at + 1 < text.len() {
            literal_end(text, at + 2)
        } else {
            None
        }
    } else {
        literal_end(text, at + 1)
    }
}

/// The string whose literal stands in `text` at `at`, and the place after the literal.
pub open spec fn string_at(text: Seq<char>, at: int) -> Option<(Seq<char>, int)> {
    if !stands_at(text, at, "\""@) {
        None
    } else {
        match literal_end(text, at + "\""@.len()) {
            Some(end) => match json_unquoted(text.subrange(at, end)) {
                Some(string) => Some((string, end)),
                None => None,
            },
            None => None,
        }
    }
}

/// A reading with the strings `before` put in front of the strings read.
pub open spec fn after_strings(before: Seq<Seq<char>>, read: Option<(Seq<Seq<char>>, int)>) -> Option<
    (Seq<Seq<char>>, int),
> {
    match read {
        Some((strings, end)) => Some((before + strings, end)),
        None => None,
    }
}

/// The strings of a list of string literals that goes on in `text` at `at`, up to the
/// bracket that closes it, and the place after that bracket.
pub open spec fn strings_from(text: Seq<char>, at: int) -> Option<(Seq<Seq<char>>, int)>
    decreases text.len() - at,
{
    match string_at(text, at) {
        Some((string, after)) => if after <= at {
            None
        } else if stands_at(text, after, ","@) {
            after_strings(seq![string], strings_from(text, after + ","@.len()))
        } else if stands_at(text, after, "]"@) {
            Some((seq![string], after + "]"@.len()))
        } else {
            None
        },
        None => None,
    }
}

/// The strings of the array of string literals that stands in `text` at `at`, and the
/// place after the array.
pub open spec fn strings_at(text: Seq<char>, at: int) -> Option<(Seq<Seq<char>>, int)> {
    if !stands_at(text, at, "["@) {
        None
    } else if stands_at(text, at + "["@.len(), "]"@) {
        Some((Seq::empty(), at + "["@.len() + "]"@.len()))
    } else {
        strings_from(text, at + "["@.len())
    }
}

/// The memo of a mint whose object goes on in `text` at `at`, after its token ids, and
/// the place after the object.
pub open spec fn memo_at(text: Seq<char>, at: int) -> Option<(Option<Seq<char>>, int)> {
    if stands_at(text, at, ",\"memo\":"@) {
        match string_at(text, at + ",\"memo\":"@.len()) {
            Some((memo, after)) => if stands_at(text, after, "}"@) {
                Some((Some(memo), after + "}"@.len()))
            } else {
                None
            },
            None => None,
        }
    } else if stands_at(text, at, "}"@) {
        Some((None, at + "}"@.len()))
    } else {
        None
    }
}

/// The mint whose object stands in `text` at `at`, and the place after the object.
pub open spec fn mint_at(text: Seq<char>, at: int) -> Option<(MintData, int)> {
    if !stands_at(text, at, "{\"owner_id\":"@) {
        None
    } else {
        match string_at(text, at + "{\"owner_id\":"@.len()) {
            Some((owner_id, after_owner)) => if !stands_at(text, after_owner, ",\"token_ids\":"@) {
                None
            } else {
                match strings_at(text, after_owner + ",\"token_ids\":"@.len()) {
                    Some((token_ids, after_ids)) => match memo_at(text, after_ids) {
                        Some((memo, end)) => Some((MintData { owner_id, token_ids, memo }, end)),
                        None => None,
                    },
                    None => None,
                }
            },
            None => None,
        }
    }
}

/// A reading with the mints `before` put in front of the mints read.
pub open spec fn after_mints(before: Seq<MintData>, read: Option<Seq<MintData>>) -> Option<
    Seq<MintData>,
> {
    match read {
        Some(mints) => Some(before + mints),
        None => None,
    }
}

/// The mints of a list of mint objects that goes on in `text` at `at`, up to the
/// brackets that close the list and the event.
pub open spec fn mints_from(text: Seq<char>, at: int) -> Option<Seq<MintData>>
    decreases text.len() - at,
{
    match mint_at(text, at) {
        Some((mint, after)) => if after <= at {
            None
        } else if stands_at(text, after, ","@) {
            after_mints(seq![mint], mints_from(text, after + ","@.len()))
        } else if stands_at(text, after, "]}"@) {
            Some(seq![mint])
        } else {
            None
        },
        None => None,
    }
}

/// How a line begins that logs a version 1.0.0 mint event.
pub open spec fn mint_line_head() -> Seq<char> {
    "EVENT_JSON:{\"standard\":\"nep246\",\"version\":\"1.0.0\",\"event\":\"mt_mint\",\"data\":["@
}

/// The mints that the line lists, walked by the form in which the standard writes the
/// line of a version 1.0.0 mint event.
pub open spec fn mints_read(line: Seq<char>) -> Option<Seq<MintData>> {
    if !stands_at(line, 0, mint_line_head()) {
        None
    } else if stands_at(line, mint_line_head().len() as int, "]}"@) {
        Some(Seq::empty())
    } else {
        mints_from(line, mint_line_head().len() as int)
    }
}

/// The mints of the version 1.0.0 mint event whose line `line` is: the mints read from
/// it, provided that they are written as this very line.
pub open spec fn mints_decoded(line: Seq<char>) -> Option<Seq<MintData>> {
    match mints_read(line) {
        Some(mints) => if event_line("1.0.0"@, "mt_mint"@, mints_json(mints)) == line {
            Some(mints)
        } else {
            None
        },
        None => None,
    }
}

/// The place after `word`, if `word` stands in `line` at `at`.
fn expect(line: &str, at: usize, word: &str) -> (next: Option<usize>)
    ensures
        match next {
            Some(next) => stands_at(line@, at as int, word@) && next == at + word@.len(),
            None => !stands_at(line@, at as int, word@),
        },
{
    let length = line.unicode_len();
    let size = word.unicode_len();
    if at > length || size > length - at {
        return None;
    }
    let mut index: usize = 0;
    while index < size
        invariant
            index <= size,
            at + size <= length,
            length == line@.len(),
            size == word@.len(),
            forall|i: int| 0 <= i < index ==> line@[at + i] == word@[i],
        decreases size - index,
    {
        if line.get_char(at + index) != word.get_char(index) {
            assert(line@.subrange(at as int, at + size)[index as int] == line@[at + index]);
            return None;
        }
        index += 1;
    }
    assert(line@.subrange(at as int, at + size) =~= word@);
    Some(at + size)
}

/// Where the string literal ends whose opening quote stands just before `at`.
fn find_literal_end(line: &str, at: usize) -> (end: Option<usize>)
    ensures
        match end {
            Some(end) => literal_end(line@, at as int) == Some(end as int) && at < end <= line@.len(),
            None => literal_end(line@, at as int) is None,
        },
{
    let length = line.unicode_len();
    let mut index: usize = at;
    while index < length
        invariant
            at <= index,
            length == line@.len(),
            literal_end(line@, index as int) == literal_end(line@, at as int),
        decreases length - index,
    {
        let here = line.get_char(index);
        if here == '"' {
            return Some(index + 1);
        }
        if here == '\\' {
            if index + 1 >= length {
                return None;
            }
            index += 2;
        } else {
            index += 1;
        }
    }
    None
}

/// The string whose literal stands in `line` at `at`, and the place after the literal.
fn read_string(line: &str, at: usize) -> (read: Option<(String, usize)>)
    ensures
        match read {
            Some((string, next)) => string_at(line@, at as int) == Some((string@, next as int)) && at
                < next <= line@.len(),
            None => string_at(line@, at as int) is None,
        },
{
    let body = expect(line, at, "\"")?;
    let end = find_literal_end(line, body)?;
    let string = unquote(line.substring_char(at, end))?;
    Some((string, end))
}

/// The strings of the array of string literals that stands in `line` at `at`, and the
/// place after the array.
fn read_strings(line: &str, at: usize) -> (read: Option<(Vec<String>, usize)>)
    ensures
        match read {
            Some((strings, next)) => strings_at(line@, at as int) == Some(
                (texts_of(strings@), next as int),
            ) && next <= line@.len(),
            None => strings_at(line@, at as int) is None,
        },
{
    let mut strings: Vec<String> = Vec::new();
    let first = expect(line, at, "[")?;
    match expect(line, first, "]") {
        Some(next) => {
            assert(texts_of(strings@) =~= Seq::<Seq<char>>::empty());
            return Some((strings, next));
        },
        None => {},
    }
    let mut place: usize = first;
    assert(texts_of(strings@) + Seq::<Seq<char>>::empty() =~= Seq::<Seq<char>>::empty());
    loop
        invariant
            place <= line@.len(),
            strings_at(line@, at as int) == after_strings(
                texts_of(strings@),
                strings_from(line@, place as int),
            ),
        decreases line@.len() - place,
    {
        let ghost before = texts_of(strings@);
        let (string, after) = read_string(line, place)?;
        strings.push(string);
        assert(texts_of(strings@) =~= before + seq![string@]);
        match expect(line, after, ",") {
            Some(next) => {
                proof {
                    let rest = strings_from(line@, next as int);
                    if rest is Some {
                        assert(before + (seq![string@] + rest.unwrap().0) =~= (before + seq![
                            string@,
                        ]) + rest.unwrap().0);
                    }
                }
                place = next;
            },
            None => {
                let next = expect(line, after, "]")?;
                return Some((strings, next));
            },
        }
    }
}

/// The memo of a mint whose object goes on in `line` at `at`, after its token ids, and
/// the place after the object.
fn read_memo(line: &str, at: usize) -> (read: Option<(Option<String>, usize)>)
    ensures
        match read {
            Some((memo, next)) => memo_at(line@, at as int) == Some((text_of(memo), next as int))
                && next <= line@.len(),
            None => memo_at(line@, at as int) is None,
        },
{
    match expect(line, at, ",\"memo\":") {
        Some(place) => {
            let (memo, after) = read_string(line, place)?;
            let next = expect(line, after, "}")?;
            Some((Some(memo), next))
        },
        None => {
            let next = expect(line, at, "}")?;
            Some((None, next))
        },
    }
}

/// The mint whose object stands in `line` at `at`, and the place after the object.
fn read_mint(line: &str, at: usize) -> (read: Option<(MintRecord, usize)>)
    ensures
        match read {
            Some((record, next)) => mint_at(line@, at as int) == Some((record@, next as int))
                && next <= line@.len(),
            None => mint_at(line@, at as int) is None,
        },
{
    let place = expect(line, at, "{\"owner_id\":")?;
    let (owner, place) = read_string(line, place)?;
    let place = expect(line, place, ",\"token_ids\":")?;
    let (token_ids, place) = read_strings(line, place)?;
    let (memo, next) = read_memo(line, place)?;
    Some((MintRecord { owner_id: AccountId::new_unchecked(owner), token_ids, memo }, next))
}

/// The mints that the line lists, walked by the form in which the standard writes the
/// line of a version 1.0.0 mint event.
fn read_mints(line: &str) -> (read: Option<Vec<MintRecord>>)
    ensures
        match read {
            Some(records) => mints_read(line@) == Some(mints_of(records@)),
            None => mints_read(line@) is None,
        },
{
    let mut records: Vec<MintRecord> = Vec::new();
    let first = expect(
        line,
        0,
        "EVENT_JSON:{\"standard\":\"nep246\",\"version\":\"1.0.0\",\"event\":\"mt_mint\",\"data\":[",
    )?;
    match expect(line, first, "]}") {
        Some(_) => {
            assert(mints_of(records@) =~= Seq::<MintData>::empty());
            return Some(records);
        },
        None => {},
    }
    let mut place: usize = first;
    assert(mints_of(records@) + Seq::<MintData>::empty() =~= Seq::<MintData>::empty());
    loop
        invariant
            place <= line@.len(),
            mints_read(line@) == after_mints(mints_of(records@), mints_from(line@, place as int)),
        decreases line@.len() - place,
    {
        let ghost before = mints_of(records@);
        let (record, after) = read_mint(line, place)?;
        let ghost mint = record@;
        records.push(record);
        assert(mints_of(records@) =~= before + seq![mint]);
        if after <= place {
            return None;
        }
        match expect(line, after, ",") {
            Some(next) => {
                proof {
                    let rest = mints_from(line@, next as int);
                    if rest is Some {
                        assert(before + (seq![mint] + rest.unwrap()) =~= (before + seq![mint])
                            + rest.unwrap());
                    }
                }
                place = next;
            },
            None => {
                expect(line, after, "]}")?;
                return Some(records);
            },
        }
    }
}

/// The log line of the version 1.0.0 mint event that holds the records.
pub fn mint_line(records: &[MintRecord]) -> (line: String)
    ensures
        line@ == event_line("1.0.0"@, "mt_mint"@, mints_json(mints_of(records@))),
{
    assert(records_json(records@) =~= mints_json(mints_of(records@)));
    line_of("1.0.0", "mt_mint", records)
}

/// Reads the mints out of the log line of a version 1.0.0 mint event.
///
/// It answers for a line in the standard's own form and for no other: the line must
/// read as a list of mints by that form, and the mints read, written again, must give
/// the line back, character for character.
pub fn decode_mints(line: &str) -> (decoded: Option<Vec<MintRecord>>)
    ensures
        match decoded {
            Some(records) => mints_decoded(line@) == Some(mints_of(records@)),
            None => mints_decoded(line@) is None,
        },
        decoded matches Some(records) ==> line@ == event_line(
            "1.0.0"@,
            "mt_mint"@,
            mints_json(mints_of(records@)),
        ),
{
    let records = read_mints(line)?;
    let again = mint_line(records.as_slice());
    if again == String::from_str(line) {
        Some(records)
    } else {
        None
    }
}

} // verus!

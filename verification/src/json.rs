//! The JSON text that event lines are made of.

use vstd::prelude::*;
use vstd::string::*;

verus! {

/// The JSON string literal for `text`: the text between double quotes, with every
/// character escaped that JSON wants escaped.
pub uninterp spec fn json_quoted(text: Seq<char>) -> Seq<char>;

/// What separates item `index` of a JSON array from the items before it.
pub open spec fn separator(index: int) -> Seq<char> {
    if index > 0 {
        ","@
    } else {
        Seq::empty()
    }
}

/// The items in order, with a comma between neighbours.
pub open spec fn json_joined(items: Seq<Seq<char>>) -> Seq<char>
    decreases items.len(),
{
    if items.len() == 0 {
        Seq::empty()
    } else {
        json_joined(items.drop_last()) + separator(items.len() - 1) + items.last()
    }
}

/// The JSON array whose elements are the given JSON texts, in order.
pub open spec fn json_array(items: Seq<Seq<char>>) -> Seq<char> {
    "["@ + json_joined(items) + "]"@
}

/// The JSON array of the string literals for `texts`, in order.
pub open spec fn json_string_array(texts: Seq<Seq<char>>) -> Seq<char> {
    json_array(texts.map_values(|text: Seq<char>| json_quoted(text)))
}

/// An object member that is left out when it has no value: nothing for `None`, and for
/// `Some(text)` the `lead` (a comma, the member's name and a colon) before the string
/// literal for `text`.
pub open spec fn json_optional(lead: Seq<char>, value: Option<Seq<char>>) -> Seq<char> {
    match value {
        Some(text) => lead + json_quoted(text),
        None => Seq::empty(),
    }
}

/// Joining one more item appends it, after a comma unless it is the first.
pub proof fn lemma_joined_push(items: Seq<Seq<char>>, item: Seq<char>)
    ensures
        json_joined(items.push(item)) == json_joined(items) + separator(items.len() as int) + item,
{
    assert(items.push(item).drop_last() =~= items);
}

/// `serde_json::to_string`, applied to a string slice, returns the JSON string literal
/// for it, which [`json_quoted`] names. On a string slice it cannot fail: the text has
/// no serializer of its own that could refuse and no map keys, and the output is
/// written to memory.
#[verifier::external_body]
fn quote(text: &str) -> (quoted: Option<String>)
    ensures
        quoted is Some,
        quoted.unwrap()@ == json_quoted(text@),
{
    serde_json::to_string(text).ok()
}

/// Appends the JSON string literal for `text` to `out`.
pub(crate) fn push_quoted(out: &mut String, text: &str)
    ensures
        final(out)@ == old(out)@ + json_quoted(text@),
{
    let literal = quote(text).unwrap();
    out.append(literal.as_str());
}

/// Appends `lead` and the string literal for the value, if there is one.
pub(crate) fn push_optional(out: &mut String, lead: &str, value: Option<&str>)
    ensures
        final(out)@ == old(out)@ + json_optional(lead@, view_of(value)),
{
    match value {
        Some(text) => {
            out.append(lead);
            push_quoted(out, text);
        },
        None => {},
    }
}

/// The text of an optional string slice.
pub open spec fn view_of(value: Option<&str>) -> Option<Seq<char>> {
    match value {
        Some(text) => Some(text@),
        None => None,
    }
}

/// The text of an optional string.
pub open spec fn text_of(value: Option<String>) -> Option<Seq<char>> {
    match value {
        Some(text) => Some(text@),
        None => None,
    }
}

/// The texts of a list of strings.
pub open spec fn texts_of(strings: Seq<String>) -> Seq<Seq<char>> {
    strings.map_values(|text: String| text@)
}

/// The texts of a list of string slices.
pub open spec fn views_of(texts: Seq<&str>) -> Seq<Seq<char>> {
    texts.map_values(|text: &str| text@)
}

/// Appends the JSON array of the string literals for `texts`.
pub(crate) fn push_string_array(out: &mut String, texts: &[&str])
    ensures
        final(out)@ == old(out)@ + json_string_array(views_of(texts@)),
{
    let ghost start = out@;
    let ghost quoted = views_of(texts@).map_values(|text: Seq<char>| json_quoted(text));
    out.append("[");
    let mut index: usize = 0;
    while index < texts.len()
        invariant
            index <= texts.len(),
            quoted == views_of(texts@).map_values(|text: Seq<char>| json_quoted(text)),
            out@ == start + "["@ + json_joined(quoted.take(index as int)),
        decreases texts.len() - index,
    {
        if index > 0 {
            out.append(",");
        }
        push_quoted(out, texts[index]);
        proof {
            lemma_joined_push(quoted.take(index as int), quoted[index as int]);
            assert(quoted.take(index as int).push(quoted[index as int]) =~= quoted.take(
                index as int + 1,
            ));
        }
        index += 1;
    }
    assert(quoted.take(index as int) =~= quoted);
    out.append("]");
}

} // verus!

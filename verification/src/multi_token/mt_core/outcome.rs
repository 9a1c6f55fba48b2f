//! How a receiver's chain of calls ended, as the protocol reads it.

use vstd::prelude::*;

verus! {

/// How the receiver's chain of calls ended.
#[derive(Debug, Clone, Copy, PartialEq, Eq, Structural)]
pub enum ReceiverOutcome {
    /// The receiver keeps the token.
    Keep,
    /// The receiver asks for the token to go back.
    Return,
    /// The chain failed, or gave no answer that can be read. The token goes back as if
    /// the receiver had asked for it.
    Failed,
}

/// What the host reports of a chain of calls that has come to rest.
#[derive(Debug)]
pub enum ChainResult {
    /// The chain ran to its end and returned these bytes.
    Successful(Vec<u8>),
    /// The chain failed.
    Failed,
}

/// The boolean that a JSON text spells, if it spells one.
pub uninterp spec fn json_bool(text: Seq<u8>) -> Option<bool>;

/// `serde_json::from_slice::<bool>` reads the bytes as a JSON text that holds one
/// boolean and nothing else but blanks around it. Its answer, or that it found no such
/// text, depends on the bytes alone, and is what [`json_bool`] names.
#[verifier::external_body]
fn parse_bool(text: &[u8]) -> (answer: Option<bool>)
    ensures
        answer == json_bool(text@),
{
    serde_json::from_slice::<bool>(text).ok()
}

/// What the host's report of the chain says of the receiver's answer: the boolean that
/// the returned bytes spell, and none where the chain failed or the bytes spell none.
pub open spec fn answer_of(result: ChainResult) -> Option<bool> {
    match result {
        ChainResult::Successful(bytes) => json_bool(bytes@),
        ChainResult::Failed => None,
    }
}

impl ReceiverOutcome {
    /// The outcome for a receiver's answer: `true` asks for the token to go back,
    /// `false` keeps it, and no answer counts as a failed chain.
    pub open spec fn of(answer: Option<bool>) -> ReceiverOutcome {
        match answer {
            Some(false) => ReceiverOutcome::Keep,
            Some(true) => ReceiverOutcome::Return,
            None => ReceiverOutcome::Failed,
        }
    }

    /// The outcome for a receiver's answer, where `None` stands for a chain that failed
    /// or gave no boolean.
    pub fn from_answer(answer: Option<bool>) -> (outcome: ReceiverOutcome)
        ensures
            outcome == ReceiverOutcome::of(answer),
    {
        match answer {
            Some(false) => ReceiverOutcome::Keep,
            Some(true) => ReceiverOutcome::Return,
            None => ReceiverOutcome::Failed,
        }
    }

    /// The outcome that the host's report of the chain amounts to.
    pub fn from_chain_result(result: &ChainResult) -> (outcome: ReceiverOutcome)
        ensures
            outcome == ReceiverOutcome::of(answer_of(*result)),
    {
        match result {
            ChainResult::Successful(bytes) => ReceiverOutcome::from_answer(parse_bool(bytes.as_slice())),
            ChainResult::Failed => ReceiverOutcome::Failed,
        }
    }
}

} // verus!

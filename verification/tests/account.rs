use nep246::account::AccountId;
use nep246::multi_token::mt_core::outcome::{ChainResult, ReceiverOutcome};

#[test]
fn account_id_keeps_its_text() {
    let bob = AccountId::new_unchecked("bob".to_string());
    assert_eq!(bob.as_str(), "bob");
    assert_eq!(bob.clone().as_str(), "bob");
    assert_eq!(bob, bob.clone());
    assert_ne!(bob, AccountId::new_unchecked("alice".to_string()));
    let odd = AccountId::new_unchecked("Not An Account".to_string());
    assert_eq!(odd.as_str(), "Not An Account");
}

#[test]
fn well_formed_account_ids() {
    for id in ["bob", "alice.near", "aa", "a-a", "a_b.c-d", "100", "0o0ooo00oo00o", &"a".repeat(64)] {
        assert!(AccountId::new_unchecked(id.to_string()).is_valid(), "{}", id);
    }
}

#[test]
fn malformed_account_ids() {
    for id in [
        "",
        "a",
        "A",
        "Bob",
        "a..b",
        "a--b",
        ".ab",
        "ab.",
        "-ab",
        "ab_",
        "a b",
        "alice@near",
        "ñandú",
        &"a".repeat(65),
    ] {
        assert!(!AccountId::new_unchecked(id.to_string()).is_valid(), "{}", id);
    }
}

#[test]
fn outcome_of_an_answer() {
    assert_eq!(ReceiverOutcome::from_answer(Some(false)), ReceiverOutcome::Keep);
    assert_eq!(ReceiverOutcome::from_answer(Some(true)), ReceiverOutcome::Return);
    assert_eq!(ReceiverOutcome::from_answer(None), ReceiverOutcome::Failed);
}

#[test]
fn outcome_of_a_chain_result() {
    let successful = |bytes: &[u8]| ReceiverOutcome::from_chain_result(&ChainResult::Successful(bytes.to_vec()));
    assert_eq!(successful(b"false"), ReceiverOutcome::Keep);
    assert_eq!(successful(b"true"), ReceiverOutcome::Return);
    assert_eq!(successful(b" true\n"), ReceiverOutcome::Return);
    assert_eq!(successful(b""), ReceiverOutcome::Failed);
    assert_eq!(successful(b"1"), ReceiverOutcome::Failed);
    assert_eq!(successful(b"\"false\""), ReceiverOutcome::Failed);
    assert_eq!(successful(b"false false"), ReceiverOutcome::Failed);
    assert_eq!(successful(b"null"), ReceiverOutcome::Failed);
    assert_eq!(ReceiverOutcome::from_chain_result(&ChainResult::Failed), ReceiverOutcome::Failed);
}

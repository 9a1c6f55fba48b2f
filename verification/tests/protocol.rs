use nep246::account::AccountId;
use nep246::multi_token::mt_core::core_impl::{MultiToken, TransferError, TransferIntent};
use nep246::multi_token::mt_core::outcome::ReceiverOutcome;
use nep246::multi_token::token::{Approvals, TokenId};

fn account(id: &str) -> AccountId {
    AccountId::new_unchecked(id.to_string())
}

fn token_zero() -> TokenId {
    "0".to_string()
}

/// A contract under the account `mt` in which `bob` owns the token `0`.
fn contract_with_bobs_token() -> MultiToken {
    let mut contract = MultiToken::new(account("mt"));
    assert!(contract.register(token_zero(), account("bob")));
    contract
}

fn owner_of(contract: &MultiToken, token_id: &TokenId) -> String {
    contract.token(token_id).unwrap().owner_id.as_str().to_string()
}

fn approval_of(contract: &MultiToken, token_id: &TokenId, id: &str) -> Option<u64> {
    contract.token(token_id).unwrap().approvals.get(&account(id))
}

fn no_approvals(contract: &MultiToken, token_id: &TokenId) -> bool {
    contract.token(token_id).unwrap().approvals.is_empty()
}

#[test]
fn register_takes_a_token_in_once() {
    let mut contract = MultiToken::new(account("mt"));
    assert_eq!(contract.contract_id().as_str(), "mt");
    assert!(contract.token(&token_zero()).is_none());
    assert!(contract.register(token_zero(), account("bob")));
    assert!(!contract.register(token_zero(), account("alice")));
    let token = contract.token(&token_zero()).unwrap();
    assert_eq!(token.token_id, "0");
    assert_eq!(token.owner_id, account("bob"));
    assert!(token.approvals.is_empty());
    assert_eq!(token.next_approval_id, 1);
    assert!(contract.register("1".to_string(), account("alice")));
    assert_eq!(owner_of(&contract, &"1".to_string()), "alice");
    assert_eq!(owner_of(&contract, &token_zero()), "bob");
}

#[test]
fn returned_transfer_stays_with_bob() {
    let mut contract = contract_with_bobs_token();
    let mut log: Vec<String> = Vec::new();
    let call = contract
        .transfer_call(&account("bob"), &account("bob"), &account("alice"), &token_zero(), None, "".to_string())
        .unwrap();
    assert_eq!(owner_of(&contract, &token_zero()), "alice");
    let result = contract.resolve_transfer(
        &account("mt"),
        &account("bob"),
        call.intent,
        ReceiverOutcome::Return,
        &mut log,
    );
    assert_eq!(result, Ok(false));
    assert_eq!(owner_of(&contract, &token_zero()), "bob");
    assert!(no_approvals(&contract, &token_zero()));
    assert!(log.is_empty());
}

#[test]
fn kept_transfer_clears_approvals_and_ids_go_on() {
    let mut contract = contract_with_bobs_token();
    let mut log: Vec<String> = Vec::new();
    let grant = contract.approve(&account("bob"), &token_zero(), &account("carol"), None).unwrap();
    assert_eq!(grant.approval_id, 1);
    assert_eq!(approval_of(&contract, &token_zero(), "carol"), Some(1));
    let call = contract
        .transfer_call(&account("bob"), &account("bob"), &account("alice"), &token_zero(), None, "".to_string())
        .unwrap();
    let snapshot = call.intent.prior_approvals_snapshot.as_ref().unwrap();
    assert_eq!(snapshot.get(&account("carol")), Some(1));
    assert_eq!(snapshot.entries().len(), 1);
    let result = contract.resolve_transfer(
        &account("mt"),
        &account("bob"),
        call.intent,
        ReceiverOutcome::Keep,
        &mut log,
    );
    assert_eq!(result, Ok(true));
    assert_eq!(owner_of(&contract, &token_zero()), "alice");
    assert!(no_approvals(&contract, &token_zero()));
    // Approval ids are per token and never start again: the new owner's first grant
    // gets the id after the last one granted.
    let regrant = contract.approve(&account("alice"), &token_zero(), &account("carol"), None).unwrap();
    assert_eq!(regrant.approval_id, 2);
    assert_eq!(approval_of(&contract, &token_zero(), "carol"), Some(2));
}

#[test]
fn kept_transfer_is_logged_once() {
    let mut contract = contract_with_bobs_token();
    let mut log: Vec<String> = vec!["earlier line".to_string()];
    let call = contract
        .transfer_call(&account("bob"), &account("bob"), &account("alice"), &token_zero(), None, "".to_string())
        .unwrap();
    assert_eq!(log.len(), 1);
    let result = contract.resolve_transfer(
        &account("mt"),
        &account("bob"),
        call.intent,
        ReceiverOutcome::Keep,
        &mut log,
    );
    assert_eq!(result, Ok(true));
    assert_eq!(
        log,
        vec![
            "earlier line".to_string(),
            r#"EVENT_JSON:{"standard":"nep246","version":"1.0.0","event":"mt_transfer","data":[{"old_owner_id":"bob","new_owner_id":"alice","token_ids":["0"]}]}"#.to_string(),
        ]
    );
}

#[test]
fn kept_transfer_on_approval_names_the_authorized_account() {
    let mut contract = contract_with_bobs_token();
    let mut log: Vec<String> = Vec::new();
    contract.approve(&account("bob"), &token_zero(), &account("carol"), None).unwrap();
    let call = contract
        .transfer_call(
            &account("carol"),
            &account("bob"),
            &account("alice"),
            &token_zero(),
            Some(1),
            "for you".to_string(),
        )
        .unwrap();
    assert_eq!(call.notification.receiver_id, account("alice"));
    assert_eq!(call.notification.sender_id, account("carol"));
    assert_eq!(call.notification.previous_owner_id, account("bob"));
    assert_eq!(call.notification.token_id, "0");
    assert_eq!(call.notification.msg, "for you");
    assert_eq!(call.intent.previous_owner_id, account("bob"));
    assert_eq!(call.intent.receiver_id, account("alice"));
    assert_eq!(call.intent.token_id, "0");
    let result = contract.resolve_transfer(
        &account("mt"),
        &account("carol"),
        call.intent,
        ReceiverOutcome::Keep,
        &mut log,
    );
    assert_eq!(result, Ok(true));
    assert_eq!(
        log,
        vec![
            r#"EVENT_JSON:{"standard":"nep246","version":"1.0.0","event":"mt_transfer","data":[{"old_owner_id":"bob","new_owner_id":"alice","token_ids":["0"],"authorized_id":"carol"}]}"#.to_string(),
        ]
    );
}

#[test]
fn transfer_on_approval_without_an_id_passes() {
    let mut contract = contract_with_bobs_token();
    contract.approve(&account("bob"), &token_zero(), &account("carol"), None).unwrap();
    let call = contract.transfer_call(
        &account("carol"),
        &account("bob"),
        &account("alice"),
        &token_zero(),
        None,
        "".to_string(),
    );
    assert!(call.is_ok());
    assert_eq!(owner_of(&contract, &token_zero()), "alice");
}

#[test]
fn returned_transfer_restores_approvals() {
    for outcome in [ReceiverOutcome::Return, ReceiverOutcome::Failed] {
        let mut contract = contract_with_bobs_token();
        let mut log: Vec<String> = Vec::new();
        contract.approve(&account("bob"), &token_zero(), &account("carol"), None).unwrap();
        contract.approve(&account("bob"), &token_zero(), &account("dave.near"), None).unwrap();
        let call = contract
            .transfer_call(&account("bob"), &account("bob"), &account("alice"), &token_zero(), None, "".to_string())
            .unwrap();
        assert_eq!(owner_of(&contract, &token_zero()), "alice");
        assert!(no_approvals(&contract, &token_zero()));
        let result = contract.resolve_transfer(&account("mt"), &account("bob"), call.intent, outcome, &mut log);
        assert_eq!(result, Ok(false));
        assert_eq!(owner_of(&contract, &token_zero()), "bob");
        assert_eq!(approval_of(&contract, &token_zero(), "carol"), Some(1));
        assert_eq!(approval_of(&contract, &token_zero(), "dave.near"), Some(2));
        assert_eq!(contract.token(&token_zero()).unwrap().approvals.entries().len(), 2);
        assert_eq!(contract.token(&token_zero()).unwrap().next_approval_id, 3);
        assert!(log.is_empty());
    }
}

#[test]
fn returned_transfer_drops_approvals_of_malformed_accounts() {
    let mut contract = contract_with_bobs_token();
    let mut log: Vec<String> = Vec::new();
    contract.approve(&account("bob"), &token_zero(), &account("Not An Account"), None).unwrap();
    contract.approve(&account("bob"), &token_zero(), &account("carol"), None).unwrap();
    assert_eq!(approval_of(&contract, &token_zero(), "Not An Account"), Some(1));
    let call = contract
        .transfer_call(&account("bob"), &account("bob"), &account("alice"), &token_zero(), None, "".to_string())
        .unwrap();
    let result = contract.resolve_transfer(
        &account("mt"),
        &account("bob"),
        call.intent,
        ReceiverOutcome::Return,
        &mut log,
    );
    assert_eq!(result, Ok(false));
    assert_eq!(approval_of(&contract, &token_zero(), "Not An Account"), None);
    assert_eq!(approval_of(&contract, &token_zero(), "carol"), Some(2));
}

#[test]
fn returned_transfer_without_snapshot_leaves_no_approvals() {
    let mut contract = contract_with_bobs_token();
    let mut log: Vec<String> = Vec::new();
    contract.approve(&account("bob"), &token_zero(), &account("carol"), None).unwrap();
    let intent = TransferIntent {
        previous_owner_id: account("bob"),
        receiver_id: account("alice"),
        token_id: token_zero(),
        prior_approvals_snapshot: None,
    };
    let result =
        contract.resolve_transfer(&account("mt"), &account("bob"), intent, ReceiverOutcome::Failed, &mut log);
    assert_eq!(result, Ok(false));
    assert_eq!(owner_of(&contract, &token_zero()), "bob");
    assert!(no_approvals(&contract, &token_zero()));
}

#[test]
fn resolution_goes_by_the_snapshot_it_is_given() {
    let mut contract = contract_with_bobs_token();
    let mut log: Vec<String> = Vec::new();
    let call = contract
        .transfer_call(&account("bob"), &account("bob"), &account("alice"), &token_zero(), None, "".to_string())
        .unwrap();
    // While the transfer is in flight the receiver, who owns the token by now, grants
    // an approval of its own.
    let grant = contract.approve(&account("alice"), &token_zero(), &account("erin"), None).unwrap();
    assert_eq!(grant.approval_id, 1);
    let mut snapshot = Approvals::new();
    snapshot.insert(account("carol"), 7);
    let intent = TransferIntent { prior_approvals_snapshot: Some(snapshot), ..call.intent };
    let result =
        contract.resolve_transfer(&account("mt"), &account("bob"), intent, ReceiverOutcome::Return, &mut log);
    assert_eq!(result, Ok(false));
    assert_eq!(owner_of(&contract, &token_zero()), "bob");
    assert_eq!(approval_of(&contract, &token_zero(), "carol"), Some(7));
    assert_eq!(approval_of(&contract, &token_zero(), "erin"), None);
    assert_eq!(contract.token(&token_zero()).unwrap().next_approval_id, 2);
}

#[test]
fn stranger_cannot_start_a_transfer() {
    let mut contract = contract_with_bobs_token();
    contract.approve(&account("bob"), &token_zero(), &account("carol"), None).unwrap();
    let result = contract.transfer_call(
        &account("dave"),
        &account("bob"),
        &account("alice"),
        &token_zero(),
        None,
        "".to_string(),
    );
    assert_eq!(result.err(), Some(TransferError::Unauthorized));
    assert_eq!(owner_of(&contract, &token_zero()), "bob");
    assert_eq!(approval_of(&contract, &token_zero(), "carol"), Some(1));
    assert_eq!(contract.token(&token_zero()).unwrap().next_approval_id, 2);
}

#[test]
fn stale_approval_id_cannot_start_a_transfer() {
    let mut contract = contract_with_bobs_token();
    contract.approve(&account("bob"), &token_zero(), &account("carol"), None).unwrap();
    contract.approve(&account("bob"), &token_zero(), &account("carol"), None).unwrap();
    assert_eq!(approval_of(&contract, &token_zero(), "carol"), Some(2));
    let result = contract.transfer_call(
        &account("carol"),
        &account("bob"),
        &account("alice"),
        &token_zero(),
        Some(1),
        "".to_string(),
    );
    assert_eq!(result.err(), Some(TransferError::ApprovalStale));
    assert_eq!(owner_of(&contract, &token_zero()), "bob");
    assert_eq!(approval_of(&contract, &token_zero(), "carol"), Some(2));
}

#[test]
fn approval_from_before_a_transfer_is_void_after_it() {
    let mut contract = contract_with_bobs_token();
    let mut log: Vec<String> = Vec::new();
    contract.approve(&account("bob"), &token_zero(), &account("carol"), None).unwrap();
    let call = contract
        .transfer_call(&account("bob"), &account("bob"), &account("alice"), &token_zero(), None, "".to_string())
        .unwrap();
    contract
        .resolve_transfer(&account("mt"), &account("bob"), call.intent, ReceiverOutcome::Keep, &mut log)
        .unwrap();
    let by_old_approval = contract.transfer_call(
        &account("carol"),
        &account("alice"),
        &account("carol"),
        &token_zero(),
        Some(1),
        "".to_string(),
    );
    assert_eq!(by_old_approval.err(), Some(TransferError::Unauthorized));
    assert_eq!(owner_of(&contract, &token_zero()), "alice");
}

#[test]
fn transfer_from_the_wrong_owner_is_refused() {
    let mut contract = contract_with_bobs_token();
    // The owner itself, naming another account as the owner to take the token from.
    let result = contract.transfer_call(
        &account("bob"),
        &account("carol"),
        &account("alice"),
        &token_zero(),
        None,
        "".to_string(),
    );
    assert_eq!(result.err(), Some(TransferError::Unauthorized));
    // A second transfer of a token that is already in flight to alice.
    contract
        .transfer_call(&account("bob"), &account("bob"), &account("alice"), &token_zero(), None, "".to_string())
        .unwrap();
    let second = contract.transfer_call(
        &account("bob"),
        &account("bob"),
        &account("carol"),
        &token_zero(),
        None,
        "".to_string(),
    );
    assert_eq!(second.err(), Some(TransferError::Unauthorized));
    assert_eq!(owner_of(&contract, &token_zero()), "alice");
}

#[test]
fn unknown_token_is_not_found() {
    let mut contract = contract_with_bobs_token();
    let mut log: Vec<String> = Vec::new();
    let unknown = "9".to_string();
    let started =
        contract.transfer_call(&account("bob"), &account("bob"), &account("alice"), &unknown, None, "".to_string());
    assert_eq!(started.err(), Some(TransferError::TokenNotFound));
    let granted = contract.approve(&account("bob"), &unknown, &account("carol"), None);
    assert_eq!(granted.err(), Some(TransferError::TokenNotFound));
    let intent = TransferIntent {
        previous_owner_id: account("bob"),
        receiver_id: account("alice"),
        token_id: unknown.clone(),
        prior_approvals_snapshot: Some(Approvals::new()),
    };
    let resolved =
        contract.resolve_transfer(&account("mt"), &account("bob"), intent, ReceiverOutcome::Keep, &mut log);
    assert_eq!(resolved, Err(TransferError::TokenNotFound));
    assert!(log.is_empty());
    assert!(contract.token(&unknown).is_none());
    assert_eq!(owner_of(&contract, &token_zero()), "bob");
}

#[test]
fn only_the_contract_resolves() {
    for outcome in [ReceiverOutcome::Keep, ReceiverOutcome::Return, ReceiverOutcome::Failed] {
        let mut contract = contract_with_bobs_token();
        let mut log: Vec<String> = Vec::new();
        contract.approve(&account("bob"), &token_zero(), &account("carol"), None).unwrap();
        let call = contract
            .transfer_call(&account("bob"), &account("bob"), &account("alice"), &token_zero(), None, "".to_string())
            .unwrap();
        let result = contract.resolve_transfer(&account("alice"), &account("bob"), call.intent, outcome, &mut log);
        assert_eq!(result, Err(TransferError::SelfCallViolation));
        assert_eq!(owner_of(&contract, &token_zero()), "alice");
        assert!(no_approvals(&contract, &token_zero()));
        assert!(log.is_empty());
    }
}

#[test]
fn self_call_is_checked_before_the_token() {
    let mut contract = contract_with_bobs_token();
    let mut log: Vec<String> = Vec::new();
    let intent = TransferIntent {
        previous_owner_id: account("bob"),
        receiver_id: account("alice"),
        token_id: "9".to_string(),
        prior_approvals_snapshot: None,
    };
    let result =
        contract.resolve_transfer(&account("bob"), &account("bob"), intent, ReceiverOutcome::Return, &mut log);
    assert_eq!(result, Err(TransferError::SelfCallViolation));
}

#[test]
fn other_tokens_are_left_alone() {
    let mut contract = contract_with_bobs_token();
    let mut log: Vec<String> = Vec::new();
    let one = "1".to_string();
    assert!(contract.register(one.clone(), account("bob")));
    contract.approve(&account("bob"), &one, &account("carol"), None).unwrap();
    let call = contract
        .transfer_call(&account("bob"), &account("bob"), &account("alice"), &token_zero(), None, "".to_string())
        .unwrap();
    assert_eq!(owner_of(&contract, &one), "bob");
    assert_eq!(approval_of(&contract, &one, "carol"), Some(1));
    contract
        .resolve_transfer(&account("mt"), &account("bob"), call.intent, ReceiverOutcome::Keep, &mut log)
        .unwrap();
    assert_eq!(owner_of(&contract, &one), "bob");
    assert_eq!(approval_of(&contract, &one, "carol"), Some(1));
    assert_eq!(owner_of(&contract, &token_zero()), "alice");
}

//! Account identifiers.

use vstd::prelude::*;

verus! {

/// Whether a byte string is a well-formed account identifier on the network.
pub uninterp spec fn account_id_valid(bytes: Seq<u8>) -> bool;

/// `near_sdk::env::is_valid_account_id` decides from the bytes alone whether they spell a
/// well-formed account identifier. It never fails; its verdict is what
/// [`account_id_valid`] names.
pub assume_specification[ near_sdk::env::is_valid_account_id ](account_id: &[u8]) -> (valid: bool)
    ensures
        valid == account_id_valid(account_id@),
;

/// Whether the text `id` is a well-formed account identifier: the verdict on its UTF-8 bytes.
pub open spec fn is_valid_account(id: Seq<char>) -> bool {
    account_id_valid(vstd::utf8::encode_utf8(id))
}

/// An account identifier, kept as the text by which the network knows the account.
///
/// Its view is that text. Two identifiers are equal when their texts are.
#[derive(Debug)]
pub struct AccountId {
    id: String,
}

impl View for AccountId {
    type V = Seq<char>;

    closed spec fn view(&self) -> Seq<char> {
        self.id@
    }
}

impl AccountId {
    /// Takes `id` as an account identifier without asking whether it is well formed.
    pub fn new_unchecked(id: String) -> (account: AccountId)
        ensures
            account@ == id@,
    {
        AccountId { id }
    }

    /// The identifier's text.
    pub fn as_str(&self) -> (text: &str)
        ensures
            text@ == self@,
    {
        self.id.as_str()
    }

    /// Whether the identifier is well formed by the network's rules.
    pub fn is_valid(&self) -> (valid: bool)
        ensures
            valid == is_valid_account(self@),
    {
        near_sdk::env::is_valid_account_id(self.id.as_str().as_bytes())
    }
}

impl Clone for AccountId {
    fn clone(&self) -> (copy: AccountId)
        ensures
            copy@ == self@,
    {
        AccountId { id: self.id.clone() }
    }
}

impl PartialEq for AccountId {
    fn eq(&self, other: &AccountId) -> (equal: bool) {
        self.id == other.id
    }
}

impl vstd::std_specs::cmp::PartialEqSpecImpl for AccountId {
    open spec fn obeys_eq_spec() -> bool {
        true
    }

    open spec fn eq_spec(&self, other: &AccountId) -> bool {
        self@ == other@
    }
}

impl Eq for AccountId {

}

} // verus!

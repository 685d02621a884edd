//! Account identifiers of the home chain.

use vstd::prelude::*;
use crate::error::Error;
use crate::member::Member;

verus! {

/// Whether `c` is one of the three separator characters.
pub open spec fn is_separator(c: char) -> bool {
    c == '-' || c == '_' || c == '.'
}

/// Whether `c` is a lower-case letter or a digit.
pub open spec fn is_alphanumeric(c: char) -> bool {
    ('a' <= c && c <= 'z') || ('0' <= c && c <= '9')
}

/// The account identifiers of the home chain: two to sixty-four characters,
/// each a lower-case letter, a digit or a separator, where no separator
/// stands first, last or next to another separator.
pub open spec fn is_valid_account_id(text: Seq<char>) -> bool {
    &&& 2 <= text.len() <= 64
    &&& forall|i: int| 0 <= i < text.len() ==> is_alphanumeric(#[trigger] text[i]) || is_separator(text[i])
    &&& !is_separator(text[0])
    &&& !is_separator(text[text.len() - 1])
    &&& forall|i: int| 0 <= i < text.len() - 1 ==> !(is_separator(#[trigger] text[i]) && is_separator(text[i + 1]))
}

/// Asks `near_sdk::AccountId`'s `from_str` whether it accepts `text`. That
/// function checks the length, then walks the characters once and rejects a
/// character outside `a-z`, `0-9`, `-`, `_`, `.`, a separator that follows a
/// separator or the start, and a separator at the end; the contract states
/// that it accepts exactly the texts of `is_valid_account_id`.
#[verifier::external_body]
fn parses_as_account_id(text: &str) -> (accepted: bool)
    ensures
        accepted == is_valid_account_id(text@),
{
    text.parse::<near_sdk::AccountId>().is_ok()
}

/// A valid account identifier of the home chain.
#[derive(Debug)]
pub struct AccountId {
    name: String,
}

impl View for AccountId {
    type V = Seq<char>;

    closed spec fn view(&self) -> Seq<char> {
        self.name@
    }
}

impl Member for AccountId {
    fn same(&self, other: &AccountId) -> (equal: bool) {
        self.name == other.name
    }
}

impl AccountId {
    #[verifier::type_invariant]
    spec fn valid(self) -> bool {
        is_valid_account_id(self.name@)
    }

    /// Whether `text` would be accepted as an account identifier.
    pub fn is_valid(text: &str) -> (valid: bool)
        ensures
            valid == is_valid_account_id(text@),
    {
        parses_as_account_id(text)
    }

    /// Reads `text` as an account identifier.
    pub fn parse(text: &str) -> (parsed: Result<AccountId, Error>)
        ensures
            parsed is Ok <==> is_valid_account_id(text@),
            parsed matches Ok(id) ==> id@ == text@,
            parsed matches Err(e) ==> e == Error::InvalidAccountId,
    {
        if parses_as_account_id(text) {
            Ok(AccountId { name: text.to_owned() })
        } else {
            Err(Error::InvalidAccountId)
        }
    }

    /// The identifier's text, which is always a valid one.
    pub fn as_str(&self) -> (text: &str)
        ensures
            text@ == self@,
            is_valid_account_id(text@),
    {
        proof {
            use_type_invariant(self);
        }
        self.name.as_str()
    }

    /// A copy of the identifier.
    pub fn duplicate(&self) -> (copy: AccountId)
        ensures
            copy@ == self@,
    {
        proof {
            use_type_invariant(self);
        }
        AccountId { name: self.name.clone() }
    }
}

} // verus!

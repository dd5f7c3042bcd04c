//! Subscriber e-mail addresses that passed validation.

use vstd::prelude::*;

verus! {

/// Whether `validator`'s e-mail check accepts `address` (HTML5 rules on the
/// local part and the domain, with length limits and IDN handling).
pub uninterp spec fn email_is_valid(address: Seq<char>) -> bool;

/// Calls `validator::ValidateEmail::validate_email` on a string slice.
/// Claimed: the answer is `email_is_valid` of the text, and an accepted
/// address holds an `@` (the crate's source rejects any text without one
/// before any other test).
#[verifier::external_body]
fn validate_email(address: &str) -> (r: bool)
    ensures
        r == email_is_valid(address@),
        r ==> address@.contains('@'),
{
    validator::ValidateEmail::validate_email(&address)
}

/// An e-mail address of a subscriber, accepted by `parse`.
#[derive(Debug)]
pub struct SubscriberEmail {
    address: String,
}

/// An address that `SubscriberEmail::parse` refused; it holds the input.
#[derive(Debug)]
pub struct InvalidEmail {
    pub input: String,
}

impl SubscriberEmail {
    /// The address.
    pub closed spec fn address(self) -> String {
        self.address
    }

    /// The subscriber e-mail made of `address`.
    pub closed spec fn with_address(address: String) -> SubscriberEmail {
        SubscriberEmail { address }
    }

    /// An e-mail is determined by its address.
    pub proof fn lemma_with_address(address: String, e: SubscriberEmail)
        ensures
            SubscriberEmail::with_address(address).address() == address,
            e.address() == address ==> e == SubscriberEmail::with_address(address),
    {
    }

    /// Accepts `s` exactly when it is a valid e-mail address.
    pub fn parse(s: String) -> (r: Result<SubscriberEmail, InvalidEmail>)
        ensures
            r is Ok <==> email_is_valid(s@),
            r matches Ok(e) ==> e == SubscriberEmail::with_address(s) && s@.contains('@'),
            r matches Err(e) ==> e.input == s,
    {
        if validate_email(s.as_str()) {
            Ok(SubscriberEmail { address: s })
        } else {
            Err(InvalidEmail { input: s })
        }
    }

    /// The address as a string slice.
    pub fn as_str(&self) -> (r: &str)
        ensures
            r@ == self.address()@,
    {
        self.address.as_str()
    }
}

} // verus!

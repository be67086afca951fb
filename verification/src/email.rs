//! Pending e-mail verification codes: which address was last sent which code.

use vstd::prelude::*;
use vstd::hash_map::StringHashMap;
use rand::Rng;

verus! {

/// The code pending for `key`, if one is.
pub open spec fn lookup(m: Map<Seq<char>, u32>, key: Seq<char>) -> Option<u32> {
    if m.contains_key(key) { Some(m[key]) } else { None }
}

/// Why a verification-code operation failed.
#[derive(Debug, Clone, Copy, PartialEq, Eq, Structural)]
pub enum EmailError {
    /// The code given is not the one pending for the address.
    VerificationFailed,
    /// No code was pending for the address before it was stored.
    InsertWithoutPrevious,
    /// No code was pending for the address that was to be cleared.
    RemoveWithoutPrevious,
}

/// The lowest and one past the highest verification code.
pub const CODE_LOW: u32 = 100000;
pub const CODE_HIGH: u32 = 1000000;

/// A random number in `low..high` (`rand::thread_rng().gen_range(low..high)`); rand
/// panics on an empty range, which the precondition excludes. Which number comes back
/// is random and not stated.
#[verifier::external_body]
fn random_in_range(low: u32, high: u32) -> (r: u32)
    requires
        low < high,
    ensures
        low <= r < high,
{
    rand::thread_rng().gen_range(low..high)
}

/// The mail side of the service: the verification codes waiting to be confirmed, by
/// address.
pub struct Email {
    pub email_verification: StringHashMap<u32>,
}

impl Email {
    /// The codes pending, by address.
    pub open spec fn codes(&self) -> Map<Seq<char>, u32> {
        self.email_verification@
    }

    /// A mail side with no code pending.
    pub fn new() -> (e: Email)
        ensures
            e.codes() == Map::<Seq<char>, u32>::empty(),
    {
        Email { email_verification: StringHashMap::new() }
    }

    /// Succeeds exactly when `verification_code` is the code pending for `email_receiver`.
    pub fn verify_verification_code(&self, email_receiver: &str, verification_code: u32) -> (r: Result<(), EmailError>)
        ensures
            r is Ok <==> lookup(self.codes(), email_receiver@) == Some(verification_code),
            r is Err ==> r == Err::<(), EmailError>(EmailError::VerificationFailed),
    {
        match self.email_verification.get(email_receiver) {
            Some(code) => {
                if *code == verification_code {
                    Ok(())
                } else {
                    Err(EmailError::VerificationFailed)
                }
            },
            None => Err(EmailError::VerificationFailed),
        }
    }

    /// Records `code` as the pending code of `email_receiver`. The code is stored either
    /// way; the result is an error when no code had been pending for the address before.
    pub fn insert(&mut self, email_receiver: &str, code: u32) -> (r: Result<(), EmailError>)
        ensures
            final(self).codes() == old(self).codes().insert(email_receiver@, code),
            r is Ok <==> old(self).codes().contains_key(email_receiver@),
            r is Err ==> r == Err::<(), EmailError>(EmailError::InsertWithoutPrevious),
    {
        let had = self.email_verification.contains_key(email_receiver);
        self.email_verification.insert(String::from_str(email_receiver), code);
        if had {
            Ok(())
        } else {
            Err(EmailError::InsertWithoutPrevious)
        }
    }

    /// Drops the pending code of `email_receiver`; an error when none was pending.
    pub fn remove(&mut self, email_receiver: &str) -> (r: Result<(), EmailError>)
        ensures
            final(self).codes() == old(self).codes().remove(email_receiver@),
            r is Ok <==> old(self).codes().contains_key(email_receiver@),
            r is Err ==> r == Err::<(), EmailError>(EmailError::RemoveWithoutPrevious),
    {
        let had = self.email_verification.contains_key(email_receiver);
        self.email_verification.remove(email_receiver);
        if had {
            Ok(())
        } else {
            Err(EmailError::RemoveWithoutPrevious)
        }
    }

    /// A random six-digit verification code.
    pub fn generate_code() -> (code: u32)
        ensures
            CODE_LOW <= code < CODE_HIGH,
    {
        random_in_range(CODE_LOW, CODE_HIGH)
    }
}

/// After a code is stored for an address (`before.insert(addr, code)` leaves `after`),
/// exactly that code verifies for the address, and every other address verifies as it
/// did before.
pub proof fn lemma_insert_then_verify(before: Email, after: Email, addr: Seq<char>, code: u32, other: Seq<char>, guess: u32)
    requires
        after.codes() == before.codes().insert(addr, code),
    ensures
        lookup(after.codes(), addr) == Some(guess) <==> guess == code,
        other != addr ==> lookup(after.codes(), other) == lookup(before.codes(), other),
{
}

/// After the code of an address is dropped (`before.remove(addr)` leaves `after`), no
/// code verifies for it, and every other address verifies as it did before.
pub proof fn lemma_remove_then_verify(before: Email, after: Email, addr: Seq<char>, other: Seq<char>, guess: u32)
    requires
        after.codes() == before.codes().remove(addr),
    ensures
        lookup(after.codes(), addr) != Some(guess),
        other != addr ==> lookup(after.codes(), other) == lookup(before.codes(), other),
{
}

} // verus!

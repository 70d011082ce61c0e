//! Verifying keys: the public material against which proofs are checked.

use crate::encoding::{canonical, canonicalize, is_canonical, Encoding};
use vstd::prelude::*;

verus! {

/// A verifying key, held as its canonical text.
///
/// The key does not say which function it belongs to: whoever binds it in an
/// execution context says so.
#[derive(Debug)]
pub struct VerifyingKey {
    text: String,
}

impl View for VerifyingKey {
    type V = Seq<char>;

    /// The canonical text of the verifying key.
    closed spec fn view(&self) -> Seq<char> {
        self.text@
    }
}

impl VerifyingKey {
    /// The text held is canonical for a verifying key.
    #[verifier::type_invariant]
    spec fn well_formed(&self) -> bool {
        is_canonical(Encoding::VerifyingKey, self.text@)
    }

    /// The outcome of reading a verifying key, seen as text.
    pub open spec fn read_as(r: Result<VerifyingKey, String>) -> Result<Seq<char>, Seq<char>> {
        match r {
            Ok(value) => Ok(value@),
            Err(message) => Err(message@),
        }
    }

    /// Reads a verifying key from `verifying_key`, in any form that its decoder
    /// accepts, and holds it in canonical form. Fails with the decoder's message
    /// where the text encodes no verifying key.
    pub fn from_string(verifying_key: &str) -> (r: Result<VerifyingKey, String>)
        ensures
            VerifyingKey::read_as(r) == canonical(Encoding::VerifyingKey, verifying_key@),
    {
        match canonicalize(Encoding::VerifyingKey, verifying_key) {
            Ok(text) => Ok(VerifyingKey { text }),
            Err(message) => Err(message),
        }
    }

    /// Borrows the canonical text of the verifying key.
    pub fn as_str(&self) -> (r: &str)
        ensures
            r@ == self@,
            is_canonical(Encoding::VerifyingKey, r@),
    {
        proof {
            use_type_invariant(self);
        }
        self.text.as_str()
    }

    /// Returns the canonical text of the verifying key.
    pub fn to_string(&self) -> (r: String)
        ensures
            r@ == self@,
            is_canonical(Encoding::VerifyingKey, r@),
    {
        proof {
            use_type_invariant(self);
        }
        self.text.clone()
    }
}

impl Clone for VerifyingKey {
    fn clone(&self) -> (r: Self)
        ensures
            r@ == self@,
    {
        proof {
            use_type_invariant(self);
        }
        VerifyingKey { text: self.text.clone() }
    }
}

impl PartialEq for VerifyingKey {
    fn eq(&self, other: &Self) -> (r: bool) {
        self.text == other.text
    }
}

impl vstd::std_specs::cmp::PartialEqSpecImpl for VerifyingKey {
    open spec fn obeys_eq_spec() -> bool {
        true
    }

    open spec fn eq_spec(&self, other: &Self) -> bool {
        self@ == other@
    }
}

impl Eq for VerifyingKey {
}

} // verus!

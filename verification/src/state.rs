//! The ledger state as the verifier sees it: roots, commitments and paths.

use crate::encoding::{canonical, canonicalize, is_canonical, Encoding};
use vstd::prelude::*;

verus! {

/// A state root, held as its canonical text: the commitment that summarises
/// the whole ledger state at one moment.
#[derive(Debug)]
pub struct StateRoot {
    text: String,
}

impl View for StateRoot {
    type V = Seq<char>;

    /// The canonical text of the state root.
    closed spec fn view(&self) -> Seq<char> {
        self.text@
    }
}

impl StateRoot {
    /// The text held is canonical for a state root.
    #[verifier::type_invariant]
    spec fn well_formed(&self) -> bool {
        is_canonical(Encoding::StateRoot, self.text@)
    }

    /// The outcome of reading a state root, seen as text.
    pub open spec fn read_as(r: Result<StateRoot, String>) -> Result<Seq<char>, Seq<char>> {
        match r {
            Ok(value) => Ok(value@),
            Err(message) => Err(message@),
        }
    }

    /// Reads a state root from `state_root`, in any form that its decoder
    /// accepts, and holds it in canonical form. Fails with the decoder's message
    /// where the text encodes no state root.
    pub fn from_string(state_root: &str) -> (r: Result<StateRoot, String>)
        ensures
            StateRoot::read_as(r) == canonical(Encoding::StateRoot, state_root@),
    {
        match canonicalize(Encoding::StateRoot, state_root) {
            Ok(text) => Ok(StateRoot { text }),
            Err(message) => Err(message),
        }
    }

    /// Borrows the canonical text of the state root.
    pub fn as_str(&self) -> (r: &str)
        ensures
            r@ == self@,
            is_canonical(Encoding::StateRoot, r@),
    {
        proof {
            use_type_invariant(self);
        }
        self.text.as_str()
    }

    /// Returns the canonical text of the state root.
    pub fn to_string(&self) -> (r: String)
        ensures
            r@ == self@,
            is_canonical(Encoding::StateRoot, r@),
    {
        proof {
            use_type_invariant(self);
        }
        self.text.clone()
    }
}

impl Clone for StateRoot {
    fn clone(&self) -> (r: Self)
        ensures
            r@ == self@,
    {
        proof {
            use_type_invariant(self);
        }
        StateRoot { text: self.text.clone() }
    }
}

impl PartialEq for StateRoot {
    fn eq(&self, other: &Self) -> (r: bool) {
        self.text == other.text
    }
}

impl vstd::std_specs::cmp::PartialEqSpecImpl for StateRoot {
    open spec fn obeys_eq_spec() -> bool {
        true
    }

    open spec fn eq_spec(&self, other: &Self) -> bool {
        self@ == other@
    }
}

impl Eq for StateRoot {
}

/// A commitment, held as its canonical text: the field element that
/// identifies a record input.
#[derive(Debug)]
pub struct Commitment {
    text: String,
}

impl View for Commitment {
    type V = Seq<char>;

    /// The canonical text of the commitment.
    closed spec fn view(&self) -> Seq<char> {
        self.text@
    }
}

impl Commitment {
    /// The text held is canonical for a commitment.
    #[verifier::type_invariant]
    spec fn well_formed(&self) -> bool {
        is_canonical(Encoding::Commitment, self.text@)
    }

    /// The outcome of reading a commitment, seen as text.
    pub open spec fn read_as(r: Result<Commitment, String>) -> Result<Seq<char>, Seq<char>> {
        match r {
            Ok(value) => Ok(value@),
            Err(message) => Err(message@),
        }
    }

    /// Reads a commitment from `commitment`, in any form that its decoder
    /// accepts, and holds it in canonical form. Fails with the decoder's message
    /// where the text encodes no commitment.
    pub fn from_string(commitment: &str) -> (r: Result<Commitment, String>)
        ensures
            Commitment::read_as(r) == canonical(Encoding::Commitment, commitment@),
    {
        match canonicalize(Encoding::Commitment, commitment) {
            Ok(text) => Ok(Commitment { text }),
            Err(message) => Err(message),
        }
    }

    /// Holds a text that is known to be canonical.
    pub(crate) fn from_canonical(text: String) -> (r: Commitment)
        requires
            is_canonical(Encoding::Commitment, text@),
        ensures
            r@ == text@,
    {
        Commitment { text }
    }

    /// Borrows the canonical text of the commitment.
    pub fn as_str(&self) -> (r: &str)
        ensures
            r@ == self@,
            is_canonical(Encoding::Commitment, r@),
    {
        proof {
            use_type_invariant(self);
        }
        self.text.as_str()
    }

    /// Returns the canonical text of the commitment.
    pub fn to_string(&self) -> (r: String)
        ensures
            r@ == self@,
            is_canonical(Encoding::Commitment, r@),
    {
        proof {
            use_type_invariant(self);
        }
        self.text.clone()
    }
}

impl Clone for Commitment {
    fn clone(&self) -> (r: Self)
        ensures
            r@ == self@,
    {
        proof {
            use_type_invariant(self);
        }
        Commitment { text: self.text.clone() }
    }
}

impl PartialEq for Commitment {
    fn eq(&self, other: &Self) -> (r: bool) {
        self.text == other.text
    }
}

impl vstd::std_specs::cmp::PartialEqSpecImpl for Commitment {
    open spec fn obeys_eq_spec() -> bool {
        true
    }

    open spec fn eq_spec(&self, other: &Self) -> bool {
        self@ == other@
    }
}

impl Eq for Commitment {
}

/// A state path, held as its canonical text: the Merkle path that shows a
/// commitment to be part of the state under a root.
#[derive(Debug)]
pub struct StatePath {
    text: String,
}

impl View for StatePath {
    type V = Seq<char>;

    /// The canonical text of the state path.
    closed spec fn view(&self) -> Seq<char> {
        self.text@
    }
}

impl StatePath {
    /// The text held is canonical for a state path.
    #[verifier::type_invariant]
    spec fn well_formed(&self) -> bool {
        is_canonical(Encoding::StatePath, self.text@)
    }

    /// The outcome of reading a state path, seen as text.
    pub open spec fn read_as(r: Result<StatePath, String>) -> Result<Seq<char>, Seq<char>> {
        match r {
            Ok(value) => Ok(value@),
            Err(message) => Err(message@),
        }
    }

    /// Reads a state path from `state_path`, in any form that its decoder
    /// accepts, and holds it in canonical form. Fails with the decoder's message
    /// where the text encodes no state path.
    pub fn from_string(state_path: &str) -> (r: Result<StatePath, String>)
        ensures
            StatePath::read_as(r) == canonical(Encoding::StatePath, state_path@),
    {
        match canonicalize(Encoding::StatePath, state_path) {
            Ok(text) => Ok(StatePath { text }),
            Err(message) => Err(message),
        }
    }

    /// Holds a text that is known to be canonical.
    pub(crate) fn from_canonical(text: String) -> (r: StatePath)
        requires
            is_canonical(Encoding::StatePath, text@),
        ensures
            r@ == text@,
    {
        StatePath { text }
    }

    /// Borrows the canonical text of the state path.
    pub fn as_str(&self) -> (r: &str)
        ensures
            r@ == self@,
            is_canonical(Encoding::StatePath, r@),
    {
        proof {
            use_type_invariant(self);
        }
        self.text.as_str()
    }

    /// Returns the canonical text of the state path.
    pub fn to_string(&self) -> (r: String)
        ensures
            r@ == self@,
            is_canonical(Encoding::StatePath, r@),
    {
        proof {
            use_type_invariant(self);
        }
        self.text.clone()
    }
}

impl Clone for StatePath {
    fn clone(&self) -> (r: Self)
        ensures
            r@ == self@,
    {
        proof {
            use_type_invariant(self);
        }
        StatePath { text: self.text.clone() }
    }
}

impl PartialEq for StatePath {
    fn eq(&self, other: &Self) -> (r: bool) {
        self.text == other.text
    }
}

impl vstd::std_specs::cmp::PartialEqSpecImpl for StatePath {
    open spec fn obeys_eq_spec() -> bool {
        true
    }

    open spec fn eq_spec(&self, other: &Self) -> bool {
        self@ == other@
    }
}

impl Eq for StatePath {
}

} // verus!

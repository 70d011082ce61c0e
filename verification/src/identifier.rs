//! Identifiers: the names of functions and of programs.

use crate::encoding::{canonical, canonicalize, is_canonical, Encoding};
use vstd::prelude::*;

verus! {

/// The identifier of the native program, which every execution context holds
/// from the start.
pub open spec fn native_program_id() -> Seq<char> {
    "credits.aleo"@
}

/// The name of a function, held as its canonical text.
#[derive(Debug)]
pub struct Identifier {
    text: String,
}

impl View for Identifier {
    type V = Seq<char>;

    /// The canonical text of the identifier.
    closed spec fn view(&self) -> Seq<char> {
        self.text@
    }
}

impl Identifier {
    /// The text held is canonical for an identifier.
    #[verifier::type_invariant]
    spec fn well_formed(&self) -> bool {
        is_canonical(Encoding::Identifier, self.text@)
    }

    /// The outcome of reading an identifier, seen as text.
    pub open spec fn read_as(r: Result<Identifier, String>) -> Result<Seq<char>, Seq<char>> {
        match r {
            Ok(value) => Ok(value@),
            Err(message) => Err(message@),
        }
    }

    /// Reads an identifier from `identifier`, in any form that its decoder
    /// accepts, and holds it in canonical form. Fails with the decoder's message
    /// where the text encodes no identifier.
    pub fn from_string(identifier: &str) -> (r: Result<Identifier, String>)
        ensures
            Identifier::read_as(r) == canonical(Encoding::Identifier, identifier@),
    {
        match canonicalize(Encoding::Identifier, identifier) {
            Ok(text) => Ok(Identifier { text }),
            Err(message) => Err(message),
        }
    }

    /// Borrows the canonical text of the identifier.
    pub fn as_str(&self) -> (r: &str)
        ensures
            r@ == self@,
            is_canonical(Encoding::Identifier, r@),
    {
        proof {
            use_type_invariant(self);
        }
        self.text.as_str()
    }

    /// Returns the canonical text of the identifier.
    pub fn to_string(&self) -> (r: String)
        ensures
            r@ == self@,
            is_canonical(Encoding::Identifier, r@),
    {
        proof {
            use_type_invariant(self);
        }
        self.text.clone()
    }
}

impl Clone for Identifier {
    fn clone(&self) -> (r: Self)
        ensures
            r@ == self@,
    {
        proof {
            use_type_invariant(self);
        }
        Identifier { text: self.text.clone() }
    }
}

impl PartialEq for Identifier {
    fn eq(&self, other: &Self) -> (r: bool) {
        self.text == other.text
    }
}

impl vstd::std_specs::cmp::PartialEqSpecImpl for Identifier {
    open spec fn obeys_eq_spec() -> bool {
        true
    }

    open spec fn eq_spec(&self, other: &Self) -> bool {
        self@ == other@
    }
}

impl Eq for Identifier {
}

/// The identifier of a program, of the form `name.network`, held as its
/// canonical text.
#[derive(Debug)]
pub struct ProgramId {
    text: String,
}

impl View for ProgramId {
    type V = Seq<char>;

    /// The canonical text of the program id.
    closed spec fn view(&self) -> Seq<char> {
        self.text@
    }
}

impl ProgramId {
    /// The text held is canonical for a program id.
    #[verifier::type_invariant]
    spec fn well_formed(&self) -> bool {
        is_canonical(Encoding::ProgramId, self.text@)
    }

    /// The outcome of reading a program id, seen as text.
    pub open spec fn read_as(r: Result<ProgramId, String>) -> Result<Seq<char>, Seq<char>> {
        match r {
            Ok(value) => Ok(value@),
            Err(message) => Err(message@),
        }
    }

    /// Reads a program id from `program_id`, in any form that its decoder
    /// accepts, and holds it in canonical form. Fails with the decoder's message
    /// where the text encodes no program id.
    pub fn from_string(program_id: &str) -> (r: Result<ProgramId, String>)
        ensures
            ProgramId::read_as(r) == canonical(Encoding::ProgramId, program_id@),
    {
        match canonicalize(Encoding::ProgramId, program_id) {
            Ok(text) => Ok(ProgramId { text }),
            Err(message) => Err(message),
        }
    }

    /// Borrows the canonical text of the program id.
    pub fn as_str(&self) -> (r: &str)
        ensures
            r@ == self@,
            is_canonical(Encoding::ProgramId, r@),
    {
        proof {
            use_type_invariant(self);
        }
        self.text.as_str()
    }

    /// Returns the canonical text of the program id.
    pub fn to_string(&self) -> (r: String)
        ensures
            r@ == self@,
            is_canonical(Encoding::ProgramId, r@),
    {
        proof {
            use_type_invariant(self);
        }
        self.text.clone()
    }

    /// Whether this is the id of the native program.
    pub fn is_native(&self) -> (r: bool)
        ensures
            r == (self@ == native_program_id()),
    {
        self.text == "credits.aleo".to_owned()
    }
}

impl Clone for ProgramId {
    fn clone(&self) -> (r: Self)
        ensures
            r@ == self@,
    {
        proof {
            use_type_invariant(self);
        }
        ProgramId { text: self.text.clone() }
    }
}

impl PartialEq for ProgramId {
    fn eq(&self, other: &Self) -> (r: bool) {
        self.text == other.text
    }
}

impl vstd::std_specs::cmp::PartialEqSpecImpl for ProgramId {
    open spec fn obeys_eq_spec() -> bool {
        true
    }

    open spec fn eq_spec(&self, other: &Self) -> bool {
        self@ == other@
    }
}

impl Eq for ProgramId {
}

} // verus!

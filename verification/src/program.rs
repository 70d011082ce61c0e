//! Programs: named collections of function definitions.

use crate::encoding::{canonical, canonicalize, is_canonical, Encoding};
use crate::identifier::ProgramId;
use snarkvm_console::network::TestnetV0;
use snarkvm_synthesizer_program::Program as ProgramNative;
use std::str::FromStr;
use vstd::prelude::*;

verus! {

/// The text that `to_string` gives for the id that `Program::id` returns for
/// the program that `program` encodes.
pub uninterp spec fn declared_id(program: Seq<char>) -> Seq<char>;

/// Trusted: calls `Program::id` of snarkvm-synthesizer-program on the program
/// that `program` encodes, then `to_string`. The contract claims only that the
/// result is a function of the text, and gives it its name.
#[verifier::external_body]
fn read_declared_id(program: &str) -> (r: String)
    requires
        is_canonical(Encoding::Program, program@),
    ensures
        r@ == declared_id(program@),
{
    match ProgramNative::<TestnetV0>::from_str(program) {
        Ok(value) => value.id().to_string(),
        Err(error) => error.to_string(),
    }
}

/// The id under which a program is registered: the canonical text of the id
/// it declares, or the message with which that id is refused.
pub open spec fn program_key(program: Seq<char>) -> Result<Seq<char>, Seq<char>> {
    canonical(Encoding::ProgramId, declared_id(program))
}

/// The names of the functions that the program declares which `program`
/// encodes, in the order of their declaration: for each key of
/// `Program::functions` the text that `to_string` gives.
pub uninterp spec fn functions_of(program: Seq<char>) -> Seq<Seq<char>>;

/// Strings, seen as character sequences.
pub open spec fn names_of(names: Seq<String>) -> Seq<Seq<char>> {
    names.map_values(|name: String| name@)
}

/// Trusted: reads the program that `program` encodes with `Program::from_str`
/// of snarkvm-synthesizer-program and prints each key of `Program::functions`
/// with `to_string`. The contract claims only that the list is a function of
/// the text, and gives it its name.
#[verifier::external_body]
fn read_functions(program: &str) -> (r: Vec<String>)
    requires
        is_canonical(Encoding::Program, program@),
    ensures
        names_of(r@) == functions_of(program@),
{
    match ProgramNative::<TestnetV0>::from_str(program) {
        Ok(value) => value.functions().keys().map(|name| name.to_string()).collect(),
        Err(_) => Vec::new(),
    }
}

/// A program definition, held as its canonical text.
#[derive(Debug)]
pub struct Program {
    text: String,
}

impl View for Program {
    type V = Seq<char>;

    /// The canonical text of the program.
    closed spec fn view(&self) -> Seq<char> {
        self.text@
    }
}

impl Program {
    /// The text held is canonical for a program.
    #[verifier::type_invariant]
    spec fn well_formed(&self) -> bool {
        is_canonical(Encoding::Program, self.text@)
    }

    /// The outcome of reading a program, seen as text.
    pub open spec fn read_as(r: Result<Program, String>) -> Result<Seq<char>, Seq<char>> {
        match r {
            Ok(value) => Ok(value@),
            Err(message) => Err(message@),
        }
    }

    /// Reads a program from `program`, in any form that its decoder
    /// accepts, and holds it in canonical form. Fails with the decoder's message
    /// where the text encodes no program.
    pub fn from_string(program: &str) -> (r: Result<Program, String>)
        ensures
            Program::read_as(r) == canonical(Encoding::Program, program@),
    {
        match canonicalize(Encoding::Program, program) {
            Ok(text) => Ok(Program { text }),
            Err(message) => Err(message),
        }
    }

    /// Borrows the canonical text of the program.
    pub fn as_str(&self) -> (r: &str)
        ensures
            r@ == self@,
            is_canonical(Encoding::Program, r@),
    {
        proof {
            use_type_invariant(self);
        }
        self.text.as_str()
    }

    /// Returns the canonical text of the program.
    pub fn to_string(&self) -> (r: String)
        ensures
            r@ == self@,
            is_canonical(Encoding::Program, r@),
    {
        proof {
            use_type_invariant(self);
        }
        self.text.clone()
    }

    /// Returns the id that the program declares, as the program's decoder
    /// prints it.
    pub fn id(&self) -> (r: String)
        ensures
            r@ == declared_id(self@),
    {
        proof {
            use_type_invariant(self);
        }
        read_declared_id(self.text.as_str())
    }

    /// Returns the names of the functions that the program declares, in the
    /// order of their declaration.
    pub fn functions(&self) -> (r: Vec<String>)
        ensures
            names_of(r@) == functions_of(self@),
    {
        proof {
            use_type_invariant(self);
        }
        read_functions(self.text.as_str())
    }

    /// Returns the id that the program declares, as a program id. Fails with
    /// the decoder's message where the declared id is no valid program id.
    pub fn program_id(&self) -> (r: Result<ProgramId, String>)
        ensures
            ProgramId::read_as(r) == program_key(self@),
    {
        let id = self.id();
        ProgramId::from_string(id.as_str())
    }
}

impl Clone for Program {
    fn clone(&self) -> (r: Self)
        ensures
            r@ == self@,
    {
        proof {
            use_type_invariant(self);
        }
        Program { text: self.text.clone() }
    }
}

impl PartialEq for Program {
    fn eq(&self, other: &Self) -> (r: bool) {
        self.text == other.text
    }
}

impl vstd::std_specs::cmp::PartialEqSpecImpl for Program {
    open spec fn obeys_eq_spec() -> bool {
        true
    }

    open spec fn eq_spec(&self, other: &Self) -> bool {
        self@ == other@
    }
}

impl Eq for Program {
}

} // verus!

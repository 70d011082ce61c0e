//! Executions: the record of a run of a program's function, with its proof.

use crate::encoding::{canonical, canonicalize, is_canonical, Encoding};
use crate::state::StateRoot;
use snarkvm_console::network::TestnetV0;
use snarkvm_ledger_block::Execution as ExecutionNative;
use std::str::FromStr;
use vstd::prelude::*;

verus! {

/// A function that a transition runs: the id of its program and its name.
pub type Locator = (Seq<char>, Seq<char>);

/// The functions that the transitions of the execution run which `execution`
/// encodes, in the order of the transitions: for each the text that `to_string`
/// gives for `Transition::program_id` and for `Transition::function_name`.
pub uninterp spec fn transitions_of(execution: Seq<char>) -> Seq<Locator>;

/// The text that `to_string` gives for the state root that
/// `Execution::global_state_root` returns for the execution that `execution`
/// encodes.
pub uninterp spec fn state_root_of(execution: Seq<char>) -> Seq<char>;

/// Trusted: calls `Execution::global_state_root` of snarkvm-ledger-block on
/// the execution that `execution` encodes, then `to_string`. The contract
/// claims only that the result is a function of the text, and gives it its
/// name.
#[verifier::external_body]
fn read_state_root_of(execution: &str) -> (r: String)
    requires
        is_canonical(Encoding::Execution, execution@),
    ensures
        r@ == state_root_of(execution@),
{
    match ExecutionNative::<TestnetV0>::from_str(execution) {
        Ok(value) => value.global_state_root().to_string(),
        Err(error) => error.to_string(),
    }
}

/// Pairs of strings, seen as pairs of character sequences.
pub open spec fn locators_of(pairs: Seq<(String, String)>) -> Seq<Locator> {
    pairs.map_values(|pair: (String, String)| (pair.0@, pair.1@))
}

/// Trusted: reads the execution that `execution` encodes with
/// `Execution::from_str` of snarkvm-ledger-block, walks
/// `Execution::transitions` and prints `Transition::program_id` and
/// `Transition::function_name` of each with `to_string`. The contract claims
/// only that the list is a function of the text, and gives it its name.
#[verifier::external_body]
fn read_transitions(execution: &str) -> (r: Vec<(String, String)>)
    requires
        is_canonical(Encoding::Execution, execution@),
    ensures
        locators_of(r@) == transitions_of(execution@),
{
    match ExecutionNative::<TestnetV0>::from_str(execution) {
        Ok(value) => value.transitions().map(
            |transition| (transition.program_id().to_string(), transition.function_name().to_string()),
        ).collect(),
        Err(_) => Vec::new(),
    }
}

/// An execution, held as its canonical text.
///
/// An execution is a sequence of transitions, each the run of one function,
/// with a state root and a proof. It is immutable once made: it is read from
/// text, handed to the verifier and written back as text.
#[derive(Debug)]
pub struct Execution {
    text: String,
}

impl View for Execution {
    type V = Seq<char>;

    /// The canonical text of the execution.
    closed spec fn view(&self) -> Seq<char> {
        self.text@
    }
}

impl Execution {
    /// The text held is canonical for an execution.
    #[verifier::type_invariant]
    spec fn well_formed(&self) -> bool {
        is_canonical(Encoding::Execution, self.text@)
    }

    /// The outcome of reading an execution, seen as text.
    pub open spec fn read_as(r: Result<Execution, String>) -> Result<Seq<char>, Seq<char>> {
        match r {
            Ok(value) => Ok(value@),
            Err(message) => Err(message@),
        }
    }

    /// Reads an execution from `execution`, in any form that its decoder
    /// accepts, and holds it in canonical form. Fails with the decoder's message
    /// where the text encodes no execution.
    pub fn from_string(execution: &str) -> (r: Result<Execution, String>)
        ensures
            Execution::read_as(r) == canonical(Encoding::Execution, execution@),
    {
        match canonicalize(Encoding::Execution, execution) {
            Ok(text) => Ok(Execution { text }),
            Err(message) => Err(message),
        }
    }

    /// Borrows the canonical text of the execution.
    pub fn as_str(&self) -> (r: &str)
        ensures
            r@ == self@,
            is_canonical(Encoding::Execution, r@),
    {
        proof {
            use_type_invariant(self);
        }
        self.text.as_str()
    }

    /// Returns the canonical text of the execution.
    pub fn to_string(&self) -> (r: String)
        ensures
            r@ == self@,
            is_canonical(Encoding::Execution, r@),
    {
        proof {
            use_type_invariant(self);
        }
        self.text.clone()
    }

    /// Returns the state root that the execution refers to. That the root
    /// belongs to a ledger no verification checks: a caller who needs to know
    /// compares it with a root that it trusts. Fails with the decoder's message
    /// where what the execution holds is no state root.
    pub fn global_state_root(&self) -> (r: Result<StateRoot, String>)
        ensures
            StateRoot::read_as(r) == canonical(Encoding::StateRoot, state_root_of(self@)),
    {
        proof {
            use_type_invariant(self);
        }
        let root = read_state_root_of(self.text.as_str());
        StateRoot::from_string(root.as_str())
    }
    /// Returns the functions that the transitions of the execution run, in the
    /// order of the transitions: for each the id of its program and its name.
    pub fn transitions(&self) -> (r: Vec<(String, String)>)
        ensures
            locators_of(r@) == transitions_of(self@),
    {
        proof {
            use_type_invariant(self);
        }
        read_transitions(self.text.as_str())
    }
}

impl Clone for Execution {
    fn clone(&self) -> (r: Self)
        ensures
            r@ == self@,
    {
        proof {
            use_type_invariant(self);
        }
        Execution { text: self.text.clone() }
    }
}

impl PartialEq for Execution {
    fn eq(&self, other: &Self) -> (r: bool) {
        self.text == other.text
    }
}

impl vstd::std_specs::cmp::PartialEqSpecImpl for Execution {
    open spec fn obeys_eq_spec() -> bool {
        true
    }

    open spec fn eq_spec(&self, other: &Self) -> bool {
        self@ == other@
    }
}

impl Eq for Execution {
}

} // verus!

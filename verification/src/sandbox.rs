//! The proof system's process, behind the few operations the library needs.
//!
//! A process holds program definitions and, per function, a verifying key. It
//! comes with the native program built in. Nothing of it is visible to a
//! proof but what this module states: which programs were added to it, which
//! keys are bound in it, and how its operations read and change the two.

use crate::encoding::{is_canonical, Encoding};
use crate::execution::{transitions_of, Locator};
use crate::identifier::native_program_id;
use crate::program::{functions_of, program_key};
use snarkvm_console::network::TestnetV0;
use snarkvm_console::program::{Identifier, ProgramID};
use snarkvm_ledger_block::Execution;
use snarkvm_synthesizer_process::Process;
use snarkvm_synthesizer_program::Program;
use snarkvm_synthesizer_snark::VerifyingKey;
use std::str::FromStr;
use vstd::prelude::*;

verus! {

/// Trusted: a `Process<TestnetV0>` of snarkvm-synthesizer-process. Its type
/// is generic over a trait of that crate and cannot be declared as an outside
/// type, so it is held here, opaque.
#[verifier::external_body]
pub struct Sandbox {
    process: Process<TestnetV0>,
}

/// The programs added to `sandbox` since it was loaded: canonical program id
/// to canonical program text. The native program is not among them.
pub uninterp spec fn added_programs(sandbox: Sandbox) -> Map<Seq<char>, Seq<char>>;

/// The verifying keys bound in `sandbox`: canonical program id and function
/// name to canonical key text.
pub uninterp spec fn bound_keys(sandbox: Sandbox) -> Map<(Seq<char>, Seq<char>), Seq<char>>;

/// What `Process::add_program` answers for `program` in a process to which
/// `programs` were added before: nothing, or the message of its error.
pub uninterp spec fn admission(programs: Map<Seq<char>, Seq<char>>, program: Seq<char>) -> Result<
    (),
    Seq<char>,
>;

/// What `Process::insert_verifying_key` answers for a key of `function` in
/// the program `program_id`, in a process to which `programs` were added
/// before: nothing, or the message of its error.
pub uninterp spec fn binding(
    programs: Map<Seq<char>, Seq<char>>,
    program_id: Seq<char>,
    function: Seq<char>,
) -> Result<(), Seq<char>>;

/// Whether the native program declares `function`: whether the name is a
/// key of `Program::functions` of the program that `Process::load` puts into a
/// process.
pub uninterp spec fn native_declares(function: Seq<char>) -> bool;

/// Whether `Process::verify_execution` accepts `execution` in a process to
/// which `programs` were added and in which `keys` are bound.
pub uninterp spec fn acceptance(
    programs: Map<Seq<char>, Seq<char>>,
    keys: Map<(Seq<char>, Seq<char>), Seq<char>>,
    execution: Seq<char>,
) -> bool;

/// No program added.
pub open spec fn no_programs() -> Map<Seq<char>, Seq<char>> {
    Map::empty()
}

/// No key bound.
pub open spec fn no_keys() -> Map<(Seq<char>, Seq<char>), Seq<char>> {
    Map::empty()
}

/// Whether every key of `keys` is bound to a function that the native
/// program declares.
pub open spec fn only_native(keys: Map<(Seq<char>, Seq<char>), Seq<char>>) -> bool {
    forall|program_id: Seq<char>, function: Seq<char>| #[trigger]
        keys.dom().contains((program_id, function)) ==> program_id == native_program_id()
            && native_declares(function)
}

/// Whether the program held under `program_id` declares `function`, in a
/// process to which `programs` were added: the native program, or the one of
/// `programs` that was added under the id.
pub open spec fn declares(
    programs: Map<Seq<char>, Seq<char>>,
    program_id: Seq<char>,
    function: Seq<char>,
) -> bool {
    if program_id == native_program_id() {
        native_declares(function)
    } else {
        programs.dom().contains(program_id) && functions_of(programs[program_id]).contains(function)
    }
}

/// Whether there is a transition and every transition runs a function that
/// has a key in `keys`.
pub open spec fn keyed(keys: Map<(Seq<char>, Seq<char>), Seq<char>>, transitions: Seq<Locator>) -> bool {
    &&& transitions.len() > 0
    &&& forall|i: int| 0 <= i < transitions.len() ==> keys.dom().contains(#[trigger] transitions[i])
}

/// Whether `function` is among `names`.
pub open spec fn listed(names: Seq<String>, function: Seq<char>) -> bool {
    exists|i: int| 0 <= i < names.len() && #[trigger] names[i]@ == function
}

/// The outcome of an operation, with its message seen as a character sequence.
pub open spec fn outcome_of(r: Result<(), String>) -> Result<(), Seq<char>> {
    match r {
        Ok(()) => Ok(()),
        Err(message) => Err(message@),
    }
}

impl Sandbox {
    /// Trusted: calls `Process::load` of snarkvm-synthesizer-process, which
    /// builds a process that holds the native program and binds a verifying key
    /// to each of its functions. It takes nothing and reads only what is
    /// compiled into the proof system (the text of the native program and the
    /// verifying keys of its functions), so it builds the same process in every
    /// run, and the contract claims that it builds one. Of that process it
    /// claims that no program was added to it, that no key is bound in it but to
    /// functions of the native program, and that the id under which it holds the
    /// native program is canonical: `ProgramID` prints a name and a network as
    /// it read them.
    #[verifier::external_body]
    pub(crate) fn load() -> (r: Result<Sandbox, String>)
        ensures
            r is Ok,
            r is Ok ==> is_canonical(Encoding::ProgramId, native_program_id()),
            r matches Ok(sandbox) ==> added_programs(sandbox) == no_programs() && only_native(
                bound_keys(sandbox),
            ),
    {
        match Process::<TestnetV0>::load() {
            Ok(process) => Ok(Sandbox { process }),
            Err(error) => Err(error.to_string()),
        }
    }

    /// Trusted: calls `Process::get_program` for the native program and lists
    /// the keys of `Program::functions`, each printed with `to_string`: the
    /// functions that the native program declares, and no others. Each is the
    /// name of a function that a decoder read, which `Identifier` prints as it
    /// read it: the names are canonical.
    #[verifier::external_body]
    pub(crate) fn native_functions(&self, program_id: &str) -> (r: Vec<String>)
        requires
            program_id@ == native_program_id(),
        ensures
            forall|function: Seq<char>| #[trigger] native_declares(function) <==> listed(r@, function),
            forall|i: int| 0 <= i < r@.len() ==> is_canonical(Encoding::Identifier, (#[trigger] r@[i])@),
    {
        match self.process.get_program(program_id) {
            Ok(program) => program.functions().keys().map(|name| name.to_string()).collect(),
            Err(_) => Vec::new(),
        }
    }

    /// Trusted: calls `Stack::remove_verifying_key` on the stack that
    /// `Process::get_stack` finds for the program, which drops the key bound to
    /// the function, if there is one. Programs are not touched.
    #[verifier::external_body]
    pub(crate) fn remove_verifying_key(&mut self, program_id: &str, function: &str)
        requires
            is_canonical(Encoding::ProgramId, program_id@),
            is_canonical(Encoding::Identifier, function@),
        ensures
            bound_keys(*final(self)) == bound_keys(*old(self)).remove((program_id@, function@)),
            added_programs(*final(self)) == added_programs(*old(self)),
    {
        if let Ok(name) = Identifier::<TestnetV0>::from_str(function) {
            if let Ok(stack) = self.process.get_stack(program_id) {
                stack.remove_verifying_key(&name)
            }
        }
    }

    /// Trusted: calls `Process::contains_program`, which looks the id up among
    /// the programs the process holds: the native one and those added.
    #[verifier::external_body]
    pub(crate) fn contains_program(&self, program_id: &str) -> (r: bool)
        requires
            is_canonical(Encoding::ProgramId, program_id@),
        ensures
            r == (program_id@ == native_program_id() || added_programs(*self).dom().contains(
                program_id@,
            )),
    {
        match ProgramID::<TestnetV0>::from_str(program_id) {
            Ok(id) => self.process.contains_program(&id),
            Err(_) => false,
        }
    }

    /// Trusted: calls `Process::add_program`. For a program other than the
    /// native one it builds the program's stack and, if that succeeds, stores it
    /// under the program's id; if it fails the process is as before. Bound keys
    /// are not touched. Whether it succeeds is a function of the programs held
    /// and of the program, and gets its name.
    #[verifier::external_body]
    pub(crate) fn add_program(&mut self, program: &str) -> (r: Result<(), String>)
        requires
            is_canonical(Encoding::Program, program@),
            program_key(program@) matches Ok(id) && id != native_program_id(),
        ensures
            outcome_of(r) == admission(added_programs(*old(self)), program@),
            added_programs(*final(self)) == if r is Ok {
                added_programs(*old(self)).insert(program_key(program@)->Ok_0, program@)
            } else {
                added_programs(*old(self))
            },
            bound_keys(*final(self)) == bound_keys(*old(self)),
    {
        match Program::<TestnetV0>::from_str(program) {
            Ok(value) => match self.process.add_program(&value) {
                Ok(()) => Ok(()),
                Err(error) => Err(error.to_string()),
            },
            Err(error) => Err(error.to_string()),
        }
    }

    /// Trusted: calls `Process::insert_verifying_key`. It finds the program's
    /// stack, checks with `Program::contains_function` that the program declares
    /// the function, and stores the key for the function, in place of an earlier
    /// one; it fails where there is no such program or no such function, and the
    /// process is then as before. Programs are not touched. Its outcome, with the
    /// message of a failure, is a function of the programs held, the id and the
    /// function name, and gets its name.
    #[verifier::external_body]
    pub(crate) fn insert_verifying_key(&mut self, program_id: &str, function: &str, key: &str) -> (r:
        Result<(), String>)
        requires
            is_canonical(Encoding::ProgramId, program_id@),
            is_canonical(Encoding::Identifier, function@),
            is_canonical(Encoding::VerifyingKey, key@),
        ensures
            outcome_of(r) == binding(added_programs(*old(self)), program_id@, function@),
            r is Ok <==> declares(added_programs(*old(self)), program_id@, function@),
            bound_keys(*final(self)) == if r is Ok {
                bound_keys(*old(self)).insert((program_id@, function@), key@)
            } else {
                bound_keys(*old(self))
            },
            added_programs(*final(self)) == added_programs(*old(self)),
    {
        let id = match ProgramID::<TestnetV0>::from_str(program_id) {
            Ok(value) => value,
            Err(error) => return Err(error.to_string()),
        };
        let name = match Identifier::<TestnetV0>::from_str(function) {
            Ok(value) => value,
            Err(error) => return Err(error.to_string()),
        };
        match VerifyingKey::<TestnetV0>::from_str(key) {
            Ok(value) => match self.process.insert_verifying_key(&id, &name, value) {
                Ok(()) => Ok(()),
                Err(error) => Err(error.to_string()),
            },
            Err(error) => Err(error.to_string()),
        }
    }

    /// Trusted: calls `Process::verify_execution`, which checks the execution's
    /// proof against the programs and keys the process holds and changes
    /// neither. Whether it accepts is a function of those and of the execution,
    /// and gets its name; of the message of a refusal nothing is claimed. It
    /// refuses an execution without transitions, and for each transition it
    /// fetches the key bound to the transition's function and refuses where
    /// there is none: so much of its check is stated.
    #[verifier::external_body]
    pub(crate) fn verify_execution(&self, execution: &str) -> (r: Result<(), String>)
        requires
            is_canonical(Encoding::Execution, execution@),
        ensures
            r is Ok <==> acceptance(added_programs(*self), bound_keys(*self), execution@),
            r is Ok ==> keyed(bound_keys(*self), transitions_of(execution@)),
    {
        match Execution::<TestnetV0>::from_str(execution) {
            Ok(value) => match self.process.verify_execution(&value) {
                Ok(()) => Ok(()),
                Err(error) => Err(error.to_string()),
            },
            Err(error) => Err(error.to_string()),
        }
    }
}

} // verus!

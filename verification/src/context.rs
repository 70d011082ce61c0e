//! Execution contexts: the programs and verifying keys that a verification
//! runs against.
//!
//! A context is made for one verification, or kept by the caller for several.
//! It starts with the native program alone. Programs are registered in it under
//! their ids, each id once; verifying keys are bound in it to a function of a
//! registered program, a later key taking the place of an earlier one.

use crate::encoding::{canonical, is_canonical, Encoding};
use crate::execution::{transitions_of, Execution};
use crate::identifier::{native_program_id, Identifier, ProgramId};
use crate::program::{names_of, program_key, Program};
use crate::sandbox::{
    acceptance,
    added_programs,
    admission,
    binding,
    bound_keys,
    declares,
    keyed,
    no_keys,
    no_programs,
    Sandbox,
};
use crate::verifying_key::VerifyingKey;
use vstd::prelude::*;

verus! {

/// Why a context refuses a program or a key.
#[derive(Debug, PartialEq, Eq)]
pub enum ContextError {
    /// A program with this id is registered already.
    AlreadyExists,
    /// The program's id or its definition is refused; the message says why.
    Malformed(String),
    /// No program with this id is registered.
    UnknownProgram,
    /// The program declares no such function; the message says so.
    UnknownFunction(String),
}

/// A refusal as specifications see it: `ContextError` with its messages as
/// character sequences.
pub enum Refusal {
    AlreadyExists,
    Malformed(Seq<char>),
    UnknownProgram,
    UnknownFunction(Seq<char>),
}

/// The outcome of an operation that a context refuses.
pub open spec fn refusal(why: Refusal) -> Result<(), Refusal> {
    Err(why)
}

impl Refusal {
    /// The text that describes the refusal to a caller.
    pub open spec fn message(self) -> Seq<char> {
        match self {
            Refusal::AlreadyExists => "the program is already registered"@,
            Refusal::Malformed(message) => message,
            Refusal::UnknownProgram => "the program is not registered"@,
            Refusal::UnknownFunction(message) => message,
        }
    }
}

impl View for ContextError {
    type V = Refusal;

    open spec fn view(&self) -> Refusal {
        match self {
            ContextError::AlreadyExists => Refusal::AlreadyExists,
            ContextError::Malformed(message) => Refusal::Malformed(message@),
            ContextError::UnknownProgram => Refusal::UnknownProgram,
            ContextError::UnknownFunction(message) => Refusal::UnknownFunction(message@),
        }
    }
}

impl ContextError {
    /// The outcome of an operation on a context, as specifications see it.
    pub open spec fn outcome(r: Result<(), ContextError>) -> Result<(), Refusal> {
        match r {
            Ok(()) => Ok(()),
            Err(error) => Err(error@),
        }
    }

    /// Returns the text that describes the error to a caller.
    pub fn message(&self) -> (r: String)
        ensures
            r@ == self@.message(),
    {
        match self {
            ContextError::AlreadyExists => "the program is already registered".to_owned(),
            ContextError::Malformed(message) => message.clone(),
            ContextError::UnknownProgram => "the program is not registered".to_owned(),
            ContextError::UnknownFunction(message) => message.clone(),
        }
    }
}

/// What a context holds, beside the native program: the programs registered
/// in it, by id, and the keys bound in it, by program id and function name.
#[verifier::ext_equal]
pub struct ContextView {
    pub programs: Map<Seq<char>, Seq<char>>,
    pub keys: Map<(Seq<char>, Seq<char>), Seq<char>>,
}

impl ContextView {
    /// The context that holds the native program and nothing else.
    pub open spec fn fresh() -> ContextView {
        ContextView { programs: no_programs(), keys: no_keys() }
    }

    /// The outcome of making a fresh context: it is made.
    pub open spec fn loaded() -> Result<ContextView, Seq<char>> {
        Ok(ContextView::fresh())
    }

    /// The context that is made of a process to which `programs` were added
    /// and in which `keys` are bound, where its native program declares the
    /// functions `names`: the programs, and the keys but those of the functions
    /// named; or the message that says why none is made.
    pub open spec fn prepared(
        programs: Map<Seq<char>, Seq<char>>,
        keys: Map<(Seq<char>, Seq<char>), Seq<char>>,
        names: Seq<Seq<char>>,
    ) -> Result<ContextView, Seq<char>> {
        match unprepared(names) {
            Some(message) => Err(message),
            None => Ok(ContextView { programs, keys: keys.remove_keys(taken(names)) }),
        }
    }

    /// Whether a program is registered under `program_id`. The native program
    /// always is.
    pub open spec fn contains(self, program_id: Seq<char>) -> bool {
        program_id == native_program_id() || self.programs.dom().contains(program_id)
    }

    /// Whether `program` can be registered, and if not, why not.
    ///
    /// Its declared id must be a valid program id and not yet taken; what is
    /// left to decide is the proof system's check of the definition.
    pub open spec fn add_outcome(self, program: Seq<char>) -> Result<(), Refusal> {
        match program_key(program) {
            Err(message) => Err(Refusal::Malformed(message)),
            Ok(id) => if self.contains(id) {
                Err(Refusal::AlreadyExists)
            } else {
                match admission(self.programs, program) {
                    Ok(()) => Ok(()),
                    Err(message) => Err(Refusal::Malformed(message)),
                }
            },
        }
    }

    /// The context after an attempt to register `program`: with the program
    /// under its id if it was accepted, unchanged if it was refused.
    pub open spec fn add(self, program: Seq<char>) -> ContextView {
        match self.add_outcome(program) {
            Ok(()) => ContextView {
                programs: self.programs.insert(program_key(program)->Ok_0, program),
                keys: self.keys,
            },
            Err(_) => self,
        }
    }

    /// Whether a key can be bound to `function` of the program `program_id`,
    /// and if not, why not: a program must be registered under the id, and it
    /// must declare the function. The text that goes with an unknown function is
    /// the proof system's.
    pub open spec fn bind_outcome(self, program_id: Seq<char>, function: Seq<char>) -> Result<
        (),
        Refusal,
    > {
        if !self.contains(program_id) {
            Err(Refusal::UnknownProgram)
        } else if declares(self.programs, program_id, function) {
            Ok(())
        } else {
            Err(Refusal::UnknownFunction(binding(self.programs, program_id, function)->Err_0))
        }
    }

    /// The context after an attempt to bind `key` to `function` of the program
    /// `program_id`: with the key in place of any earlier one if it was
    /// accepted, unchanged if it was refused.
    pub open spec fn bind(self, program_id: Seq<char>, function: Seq<char>, key: Seq<char>) -> ContextView {
        match self.bind_outcome(program_id, function) {
            Ok(()) => ContextView {
                programs: self.programs,
                keys: self.keys.insert((program_id, function), key),
            },
            Err(_) => self,
        }
    }

    /// Whether the proof system accepts `execution` against the programs and
    /// keys of this context. It accepts no execution without transitions, and
    /// none with a transition whose function has no key in the context; what is
    /// left to decide is its check of the proof.
    pub open spec fn accepts(self, execution: Seq<char>) -> bool {
        keyed(self.keys, transitions_of(execution)) && acceptance(self.programs, self.keys, execution)
    }
}

/// The message with which `name` fails to be read as the name of a function,
/// if it fails: the decoder's, or that of a name that does not read back as
/// itself.
pub open spec fn unread(name: Seq<char>) -> Option<Seq<char>> {
    match canonical(Encoding::Identifier, name) {
        Err(message) => Some(message),
        Ok(read) => if read == name {
            None
        } else {
            Some("a function of the native program does not read back as itself"@)
        },
    }
}

/// The message of the first of `names` that fails to be read, if one does.
pub open spec fn first_unread(names: Seq<Seq<char>>) -> Option<Seq<char>>
    decreases names.len(),
{
    if names.len() == 0 {
        None
    } else {
        match unread(names.first()) {
            Some(message) => Some(message),
            None => first_unread(names.drop_first()),
        }
    }
}

/// Why no context is made of a process whose native program declares the
/// functions `names`, if none is: the id of the native program is read first,
/// then the names.
pub open spec fn unprepared(names: Seq<Seq<char>>) -> Option<Seq<char>> {
    match canonical(Encoding::ProgramId, native_program_id()) {
        Err(message) => Some(message),
        Ok(read) => if read == native_program_id() {
            first_unread(names)
        } else {
            Some("the id of the native program does not read back as itself"@)
        },
    }
}

/// The places of the keys that are bound to one of the functions `names` of
/// the native program.
pub open spec fn taken(names: Seq<Seq<char>>) -> Set<(Seq<char>, Seq<char>)> {
    Set::new(|key: (Seq<char>, Seq<char>)| key.0 == native_program_id() && names.contains(key.1))
}

/// Where all names before `place` are read and the one at `place` is not, its
/// message is that of the first name that is not read.
pub proof fn lemma_first_unread(names: Seq<Seq<char>>, place: int)
    requires
        0 <= place < names.len(),
        forall|j: int| 0 <= j < place ==> unread(#[trigger] names[j]) is None,
        unread(names[place]) is Some,
    ensures
        first_unread(names) == unread(names[place]),
    decreases place,
{
    if place > 0 {
        let rest = names.drop_first();
        assert(unread(names[0]) is None);
        assert forall|j: int| 0 <= j < place - 1 implies unread(#[trigger] rest[j]) is None by {
            assert(rest[j] == names[j + 1]);
        }
        assert(rest[place - 1] == names[place]);
        lemma_first_unread(rest, place - 1);
    }
}

/// No name fails to be read exactly where each of the names is read.
pub proof fn lemma_all_read(names: Seq<Seq<char>>)
    ensures
        first_unread(names) is None <==> forall|j: int|
            0 <= j < names.len() ==> unread(#[trigger] names[j]) is None,
    decreases names.len(),
{
    if names.len() > 0 {
        let rest = names.drop_first();
        lemma_all_read(rest);
        if first_unread(names) is None {
            assert forall|j: int| 0 <= j < names.len() implies unread(#[trigger] names[j]) is None by {
                if j > 0 {
                    assert(rest[j - 1] == names[j]);
                }
            }
        }
        if forall|j: int| 0 <= j < names.len() ==> unread(#[trigger] names[j]) is None {
            assert(unread(names[0]) is None);
            assert forall|j: int| 0 <= j < rest.len() implies unread(#[trigger] rest[j]) is None by {
                assert(rest[j] == names[j + 1]);
            }
        }
    }
}

/// An execution context.
pub struct ExecutionContext {
    sandbox: Sandbox,
}

impl View for ExecutionContext {
    type V = ContextView;

    closed spec fn view(&self) -> ContextView {
        ContextView { programs: added_programs(self.sandbox), keys: bound_keys(self.sandbox) }
    }
}

impl ExecutionContext {
    /// The outcome of making a context, as specifications see it.
    pub open spec fn made(r: Result<ExecutionContext, String>) -> Result<ContextView, Seq<char>> {
        match r {
            Ok(context) => Ok(context@),
            Err(message) => Err(message@),
        }
    }

    /// Makes a context that holds the native program and nothing else.
    ///
    /// The proof system builds its process with a key bound to each function
    /// of the native program, and lists those functions. The rest is `unbound`:
    /// the keys are taken out again, so that in a fresh context only the keys
    /// count that the caller binds.
    ///
    /// A context always comes out: the process is built from what is compiled
    /// into the proof system, and the names of the native program read back as
    /// themselves. The result is a `Result` for the proof system's sake, whose
    /// own call returns one.
    pub fn load() -> (r: Result<ExecutionContext, String>)
        ensures
            ExecutionContext::made(r) == ContextView::loaded(),
    {
        let sandbox = match Sandbox::load() {
            Ok(sandbox) => sandbox,
            Err(message) => return Err(message),
        };
        let functions = sandbox.native_functions("credits.aleo");
        let made = ExecutionContext::unbound(sandbox, &functions);
        proof {
            let names = names_of(functions@);
            assert forall|j: int| 0 <= j < names.len() implies unread(#[trigger] names[j]) is None by {
                assert(names[j] == functions@[j]@);
            }
            lemma_all_read(names);
            assert(unprepared(names) is None);
            let left = bound_keys(sandbox).remove_keys(taken(names));
            assert forall|key: (Seq<char>, Seq<char>)| !left.dom().contains(key) by {
                if bound_keys(sandbox).dom().contains(key) {
                    assert(bound_keys(sandbox).dom().contains((key.0, key.1)));
                    let i = choose|i: int| 0 <= i < functions@.len() && #[trigger] functions@[i]@ == key.1;
                    assert(names[i] == key.1);
                }
            }
            assert(left =~= no_keys());
        }
        made
    }

    /// Makes a context of a process, with the keys taken out of it that are
    /// bound to `functions` of the native program.
    ///
    /// The id of the native program and each of the names are read first, one
    /// after the other: the first that is refused, or that does not read back as
    /// itself, gives the error, and no context is made. Where all are read, the
    /// context holds the programs of the process, and its keys but those of the
    /// functions named.
    pub fn unbound(sandbox: Sandbox, functions: &Vec<String>) -> (r: Result<ExecutionContext, String>)
        ensures
            ExecutionContext::made(r) == ContextView::prepared(
                added_programs(sandbox),
                bound_keys(sandbox),
                names_of(functions@),
            ),
    {
        let ghost names = names_of(functions@);
        let ghost programs = added_programs(sandbox);
        let ghost keys = bound_keys(sandbox);
        let native = match ProgramId::from_string("credits.aleo") {
            Ok(id) => id,
            Err(message) => return Err(message),
        };
        if !native.is_native() {
            return Err("the id of the native program does not read back as itself".to_owned());
        }
        let mut process = sandbox;
        let mut i: usize = 0;
        while i < functions.len()
            invariant
                0 <= i <= functions.len(),
                names == names_of(functions@),
                programs == added_programs(sandbox),
                keys == bound_keys(sandbox),
                native@ == native_program_id(),
                canonical(Encoding::ProgramId, native_program_id()) == crate::encoding::accepted(
                    native_program_id(),
                ),
                added_programs(process) == programs,
                forall|j: int| 0 <= j < i ==> unread(#[trigger] names[j]) is None,
                bound_keys(process) =~= keys.remove_keys(taken(names.take(i as int))),
            decreases functions.len() - i,
        {
            assert(names[i as int] == functions@[i as int]@);
            let function = match Identifier::from_string(functions[i].as_str()) {
                Ok(function) => function,
                Err(message) => {
                    proof {
                        lemma_first_unread(names, i as int);
                    }
                    return Err(message);
                },
            };
            if function.to_string() != functions[i] {
                proof {
                    lemma_first_unread(names, i as int);
                }
                return Err("a function of the native program does not read back as itself".to_owned());
            }
            process.remove_verifying_key(native.as_str(), function.as_str());
            proof {
                let before = names.take(i as int);
                let after = names.take(i + 1);
                assert(after =~= before.push(names[i as int]));
                assert forall|key: (Seq<char>, Seq<char>)| #[trigger]
                    taken(after).contains(key) <==> (taken(before).contains(key) || key == (
                        native_program_id(),
                        names[i as int],
                    )) by {
                    if before.contains(key.1) {
                        let j = choose|j: int| 0 <= j < before.len() && before[j] == key.1;
                        assert(after[j] == key.1);
                    }
                    if after.contains(key.1) {
                        let j = choose|j: int| 0 <= j < after.len() && after[j] == key.1;
                        if j < before.len() {
                            assert(before[j] == key.1);
                        }
                    }
                    assert(after[i as int] == names[i as int]);
                }
                assert(bound_keys(process) =~= keys.remove_keys(taken(after)));
            }
            i += 1;
        }
        proof {
            assert(names.take(i as int) =~= names);
            lemma_all_read(names);
        }
        let context = ExecutionContext { sandbox: process };
        assert(context@ =~= ContextView { programs, keys: keys.remove_keys(taken(names)) });
        Ok(context)
    }

    /// Whether a program is registered under `program_id`.
    pub fn contains_program(&self, program_id: &ProgramId) -> (r: bool)
        ensures
            r == self@.contains(program_id@),
    {
        self.sandbox.contains_program(program_id.as_str())
    }

    /// Registers `program` under the id it declares.
    ///
    /// Fails with `AlreadyExists` if a program is registered under that id, the
    /// native program included, and with `Malformed` if the id or the definition
    /// is refused. A context that refuses is left as it was.
    pub fn add_program(&mut self, program: &Program) -> (r: Result<(), ContextError>)
        ensures
            ContextError::outcome(r) == old(self)@.add_outcome(program@),
            final(self)@ == old(self)@.add(program@),
    {
        let id = match program.program_id() {
            Ok(id) => id,
            Err(message) => return Err(ContextError::Malformed(message)),
        };
        if self.contains_program(&id) {
            return Err(ContextError::AlreadyExists);
        }
        match self.sandbox.add_program(program.as_str()) {
            Ok(()) => Ok(()),
            Err(message) => Err(ContextError::Malformed(message)),
        }
    }

    /// Binds `key` to `function` of the program registered under `program_id`,
    /// in place of any key bound to it before.
    ///
    /// Fails with `UnknownProgram` if no program is registered under that id,
    /// and with `UnknownFunction` if the program declares no such function. A
    /// context that refuses is left as it was.
    pub fn insert_verifying_key(
        &mut self,
        program_id: &ProgramId,
        function: &Identifier,
        key: &VerifyingKey,
    ) -> (r: Result<(), ContextError>)
        ensures
            ContextError::outcome(r) == old(self)@.bind_outcome(program_id@, function@),
            final(self)@ == old(self)@.bind(program_id@, function@, key@),
    {
        if !self.contains_program(program_id) {
            return Err(ContextError::UnknownProgram);
        }
        match self.sandbox.insert_verifying_key(program_id.as_str(), function.as_str(), key.as_str()) {
            Ok(()) => Ok(()),
            Err(message) => Err(ContextError::UnknownFunction(message)),
        }
    }

    /// Checks `execution` against the programs and keys of the context, and
    /// says why where the proof system refuses it. The reason is for a reader:
    /// nothing is decided on it.
    pub fn check_execution(&self, execution: &Execution) -> (r: Result<(), String>)
        ensures
            r is Ok <==> self@.accepts(execution@),
    {
        self.sandbox.verify_execution(execution.as_str())
    }

    /// Checks `execution` against the programs and keys of the context.
    ///
    /// The answer is `false` for whatever reason the proof system refuses: a
    /// refusal is an answer, not an error.
    pub fn verify_execution(&self, execution: &Execution) -> (r: bool)
        ensures
            r == self@.accepts(execution@),
    {
        match self.check_execution(execution) {
            Ok(()) => true,
            Err(_) => false,
        }
    }
}

/// An id is registered once: after a program was registered, every program
/// that declares the same id is refused with `AlreadyExists`, and the context
/// still holds the first.
pub proof fn lemma_second_registration_is_refused(context: ContextView, first: Seq<char>, second: Seq<char>)
    requires
        context.add_outcome(first) is Ok,
        program_key(second) == program_key(first),
    ensures
        context.add(first).add_outcome(second) == refusal(Refusal::AlreadyExists),
        context.add(first).add(second) == context.add(first),
        context.add(first).programs[program_key(first)->Ok_0] == first,
{
}

/// The native program is registered from the start: a program that declares
/// its id is refused with `AlreadyExists` in every context.
pub proof fn lemma_native_program_is_never_registered(context: ContextView, program: Seq<char>)
    requires
        program_key(program) == crate::encoding::accepted(native_program_id()),
    ensures
        context.add_outcome(program) == refusal(Refusal::AlreadyExists),
        context.add(program) == context,
{
}

/// Registering a program touches no other registration and no key.
pub proof fn lemma_registration_leaves_the_rest(context: ContextView, program: Seq<char>, other: Seq<char>)
    requires
        context.contains(other),
    ensures
        context.add(program).contains(other),
        other != native_program_id() ==> context.add(program).programs[other]
            == context.programs[other],
        context.add(program).keys == context.keys,
{
}

/// A key is bound only to a function that a registered program declares, and
/// a later key for the same function takes the place of an earlier one.
pub proof fn lemma_later_key_replaces_earlier(
    context: ContextView,
    program_id: Seq<char>,
    function: Seq<char>,
    first: Seq<char>,
    second: Seq<char>,
)
    requires
        context.bind_outcome(program_id, function) is Ok,
    ensures
        context.contains(program_id),
        declares(context.programs, program_id, function),
        context.bind(program_id, function, first).bind_outcome(program_id, function) is Ok,
        context.bind(program_id, function, first).bind(program_id, function, second) == context.bind(
            program_id,
            function,
            second,
        ),
        context.bind(program_id, function, second).keys[(program_id, function)] == second,
{
    let once = context.bind(program_id, function, first);
    let twice = once.bind(program_id, function, second);
    assert(twice.keys =~= context.bind(program_id, function, second).keys);
}

} // verus!

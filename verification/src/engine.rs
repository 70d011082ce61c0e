//! The verification engine: from an execution, a verifying key, a program and
//! a function name to a verdict.
//!
//! The engine separates two kinds of failure. What is wrong with the call (a
//! function name that is none, a program that cannot be registered, a function
//! that the program does not declare) is an error. What is wrong with the proof
//! is an answer, `false`, and never an error.

use crate::context::{refusal, ContextView, ExecutionContext, Refusal};
use crate::encoding::{canonical, Encoding};
use crate::execution::{transitions_of, Execution};
use crate::identifier::{native_program_id, Identifier, ProgramId};
use crate::program::{functions_of, program_key, Program};
use crate::sandbox::native_declares;
use crate::verifying_key::VerifyingKey;
use vstd::prelude::*;

verus! {

/// A verdict that was reached.
pub open spec fn decided(verdict: bool) -> Result<bool, Seq<char>> {
    Ok(verdict)
}

/// A call that was refused, with the text that says why.
pub open spec fn refused(message: Seq<char>) -> Result<bool, Seq<char>> {
    Err(message)
}

/// The outcome of a verification, with its message seen as a character
/// sequence.
pub open spec fn outcome_of(r: Result<bool, String>) -> Result<bool, Seq<char>> {
    match r {
        Ok(verdict) => Ok(verdict),
        Err(message) => Err(message@),
    }
}

/// The function name and the program id that a call names, in canonical form:
/// the name first, then the id. Where one of them is refused, the message of the
/// first that is.
pub open spec fn named(program: Seq<char>, function_id: Seq<char>) -> Result<
    (Seq<char>, Seq<char>),
    Seq<char>,
> {
    match canonical(Encoding::Identifier, function_id) {
        Err(message) => Err(message),
        Ok(function) => match program_key(program) {
            Err(message) => Err(message),
            Ok(id) => Ok((function, id)),
        },
    }
}

/// The context after the program of a call was registered in `context`: the
/// native program is there already and is never registered again.
pub open spec fn registered(context: ContextView, program: Seq<char>) -> ContextView {
    if program_key(program) == crate::encoding::accepted(native_program_id()) {
        context
    } else {
        context.add(program)
    }
}

/// The context that a verification of these arguments leaves behind: as it
/// was where the call is refused before the key is bound, with the program
/// registered and the key bound otherwise.
pub open spec fn context_after(
    context: ContextView,
    verifying_key: Seq<char>,
    program: Seq<char>,
    function_id: Seq<char>,
) -> ContextView {
    match named(program, function_id) {
        Err(_) => context,
        Ok((function, id)) => if id != native_program_id() && context.add_outcome(program) is Err {
            context
        } else {
            registered(context, program).bind(id, function, verifying_key)
        },
    }
}

/// What a verification of these arguments in `context` answers.
///
/// The function name and the program id are read first. The program is
/// registered, unless it is the native one; the key is bound to the function;
/// and the proof system gives its verdict on the execution in the context so
/// prepared. Every refusal on the way is an error with the refusal's text; the
/// verdict itself never is.
pub open spec fn verification(
    context: ContextView,
    execution: Seq<char>,
    verifying_key: Seq<char>,
    program: Seq<char>,
    function_id: Seq<char>,
) -> Result<bool, Seq<char>> {
    match named(program, function_id) {
        Err(message) => Err(message),
        Ok((function, id)) => if id != native_program_id() && context.add_outcome(program) is Err {
            Err(context.add_outcome(program)->Err_0.message())
        } else {
            let prepared = registered(context, program);
            match prepared.bind_outcome(id, function) {
                Err(refusal) => Err(refusal.message()),
                Ok(()) => Ok(prepared.bind(id, function, verifying_key).accepts(execution)),
            }
        },
    }
}

/// The steps of a verification that follow the reading of the function name
/// and the program id.
fn verify_named(
    context: &mut ExecutionContext,
    execution: &Execution,
    verifying_key: &VerifyingKey,
    program: &Program,
    program_id: &ProgramId,
    function: &Identifier,
) -> (r: Result<bool, String>)
    requires
        named(program@, function@) matches Ok(pair) && pair == (function@, program_id@),
    ensures
        outcome_of(r) == verification(old(context)@, execution@, verifying_key@, program@, function@),
        final(context)@ == context_after(old(context)@, verifying_key@, program@, function@),
{
    if !program_id.is_native() {
        match context.add_program(program) {
            Ok(()) => {},
            Err(error) => {
                return Err(error.message());
            },
        }
    }
    match context.insert_verifying_key(program_id, function, verifying_key) {
        Ok(()) => {},
        Err(error) => {
            return Err(error.message());
        },
    }
    Ok(context.verify_execution(execution))
}

/// Verifies `execution` in a context that the caller keeps.
///
/// `program` is registered in `context` unless it is the native program,
/// `verifying_key` is bound to the function `function_id` of it, and the
/// execution is checked in the context so prepared. What was registered and
/// bound stays in the context.
pub fn verify_function_execution_in(
    context: &mut ExecutionContext,
    execution: &Execution,
    verifying_key: &VerifyingKey,
    program: &Program,
    function_id: &str,
) -> (r: Result<bool, String>)
    ensures
        outcome_of(r) == verification(
            old(context)@,
            execution@,
            verifying_key@,
            program@,
            function_id@,
        ),
        final(context)@ == context_after(old(context)@, verifying_key@, program@, function_id@),
{
    let function = match Identifier::from_string(function_id) {
        Ok(function) => function,
        Err(message) => return Err(message),
    };
    let program_id = match program.program_id() {
        Ok(id) => id,
        Err(message) => return Err(message),
    };
    verify_named(context, execution, verifying_key, program, &program_id, &function)
}

/// Verifies an execution of a single function against a verifying key.
///
/// The function name and the program's id are read; a context is made that
/// holds the native program; `program` is registered in it unless it is the
/// native program; `verifying_key` is bound to the function `function_id` of
/// it; and the execution is checked. The answer is `Ok(true)` if the proof
/// system accepts the execution, `Ok(false)` if it refuses it for whatever
/// reason, and an error if the call itself is at fault: the outcome is the one
/// that `verification` gives for a fresh context.
///
/// That the state root of the execution belongs to a ledger is not checked.
pub fn verify_function_execution(
    execution: &Execution,
    verifying_key: &VerifyingKey,
    program: &Program,
    function_id: &str,
) -> (r: Result<bool, String>)
    ensures
        outcome_of(r) == verification(
            ContextView::fresh(),
            execution@,
            verifying_key@,
            program@,
            function_id@,
        ),
{
    let function = match Identifier::from_string(function_id) {
        Ok(function) => function,
        Err(message) => return Err(message),
    };
    let program_id = match program.program_id() {
        Ok(id) => id,
        Err(message) => return Err(message),
    };
    let mut context = match ExecutionContext::load() {
        Ok(context) => context,
        Err(message) => return Err(message),
    };
    verify_named(&mut context, execution, verifying_key, program, &program_id, &function)
}

/// A verification fails only for what is wrong with the call. Where the
/// function name and the program id are read, the program is the native one or
/// is accepted by the context, and the program declares the function, the
/// outcome is an answer, `true` or `false`, whatever the proof system makes of
/// the execution and of the key.
pub proof fn lemma_refused_proof_is_no_error(
    context: ContextView,
    execution: Seq<char>,
    verifying_key: Seq<char>,
    program: Seq<char>,
    function_id: Seq<char>,
)
    requires
        named(program, function_id) is Ok,
        program_key(program) == crate::encoding::accepted(native_program_id()) || context.add_outcome(
            program,
        ) is Ok,
        registered(context, program).bind_outcome(
            named(program, function_id)->Ok_0.1,
            named(program, function_id)->Ok_0.0,
        ) is Ok,
    ensures
        verification(context, execution, verifying_key, program, function_id) is Ok,
        verification(context, execution, verifying_key, program, function_id) == decided(
            context_after(context, verifying_key, program, function_id).accepts(execution),
        ),
{
}

/// The function must be declared. Where the names of a call are read and its
/// program is the native one or is accepted by the context, the verification
/// gets its answer exactly if the program declares the function that the call
/// names: the native program where the call names it, the program of the call
/// otherwise.
pub proof fn lemma_function_must_be_declared(
    context: ContextView,
    execution: Seq<char>,
    verifying_key: Seq<char>,
    program: Seq<char>,
    function_id: Seq<char>,
)
    requires
        named(program, function_id) is Ok,
        program_key(program) == crate::encoding::accepted(native_program_id()) || context.add_outcome(
            program,
        ) is Ok,
    ensures
        verification(context, execution, verifying_key, program, function_id) is Ok <==> if program_key(
            program,
        ) == crate::encoding::accepted(native_program_id()) {
            native_declares(named(program, function_id)->Ok_0.0)
        } else {
            functions_of(program).contains(named(program, function_id)->Ok_0.0)
        },
{
}

/// The errors of a verification do not depend on the execution or on the key:
/// two calls that name the same program and function in the same context fail
/// alike or both answer.
pub proof fn lemma_errors_ignore_proof_and_key(
    context: ContextView,
    program: Seq<char>,
    function_id: Seq<char>,
    execution: Seq<char>,
    verifying_key: Seq<char>,
    other_execution: Seq<char>,
    other_key: Seq<char>,
)
    ensures
        verification(context, execution, verifying_key, program, function_id) matches Err(message)
            ==> verification(context, other_execution, other_key, program, function_id) == refused(
            message,
        ),
        verification(context, execution, verifying_key, program, function_id) is Ok ==> verification(
            context,
            other_execution,
            other_key,
            program,
            function_id,
        ) is Ok,
{
}

/// In a fresh context a program is never refused for its id being taken,
/// unless it declares the id of the native program, which is not registered at
/// all.
pub proof fn lemma_fresh_context_takes_any_id(program: Seq<char>)
    requires
        program_key(program) is Ok,
        program_key(program) != crate::encoding::accepted(native_program_id()),
    ensures
        ContextView::fresh().add_outcome(program) != refusal(Refusal::AlreadyExists),
{
}

/// A verification of the native program can be repeated: in the context that
/// it leaves behind, the same call gives the same outcome, and leaves the
/// context as it is.
pub proof fn lemma_native_verification_repeats(
    context: ContextView,
    execution: Seq<char>,
    verifying_key: Seq<char>,
    program: Seq<char>,
    function_id: Seq<char>,
)
    requires
        program_key(program) == crate::encoding::accepted(native_program_id()),
    ensures
        verification(
            context_after(context, verifying_key, program, function_id),
            execution,
            verifying_key,
            program,
            function_id,
        ) == verification(context, execution, verifying_key, program, function_id),
        context_after(
            context_after(context, verifying_key, program, function_id),
            verifying_key,
            program,
            function_id,
        ) == context_after(context, verifying_key, program, function_id),
{
    let after = context_after(context, verifying_key, program, function_id);
    let again = context_after(after, verifying_key, program, function_id);
    assert(again.keys =~= after.keys);
    assert(again.programs =~= after.programs);
}

/// A program other than the native one is registered by the first
/// verification that names it: in the context that a verification leaves behind
/// which got its answer, the same call finds the id taken and fails.
pub proof fn lemma_other_program_is_registered_once(
    context: ContextView,
    execution: Seq<char>,
    verifying_key: Seq<char>,
    program: Seq<char>,
    function_id: Seq<char>,
)
    requires
        program_key(program) != crate::encoding::accepted(native_program_id()),
        verification(context, execution, verifying_key, program, function_id) is Ok,
    ensures
        verification(
            context_after(context, verifying_key, program, function_id),
            execution,
            verifying_key,
            program,
            function_id,
        ) == refused(Refusal::AlreadyExists.message()),
{
}

/// An answer of `true` names the function. Where a verification in a fresh
/// context answers `true`, the execution has a transition, and every transition
/// of it runs the function that the call names, of the program that the call
/// names. An execution that references another function, or a key that is bound
/// under another name than that of the function that was run, gets `false`.
pub proof fn lemma_true_names_the_function(
    execution: Seq<char>,
    verifying_key: Seq<char>,
    program: Seq<char>,
    function_id: Seq<char>,
)
    requires
        verification(ContextView::fresh(), execution, verifying_key, program, function_id) == decided(true),
    ensures
        named(program, function_id) is Ok,
        transitions_of(execution).len() > 0,
        forall|i: int|
            0 <= i < transitions_of(execution).len() ==> (#[trigger] transitions_of(execution)[i]) == (
                named(program, function_id)->Ok_0.1,
                named(program, function_id)->Ok_0.0,
            ),
{
    let (function, id) = named(program, function_id)->Ok_0;
    let prepared = registered(ContextView::fresh(), program);
    assert(prepared.keys =~= crate::sandbox::no_keys());
    let bound = prepared.bind(id, function, verifying_key);
    assert(bound.accepts(execution));
    assert forall|i: int| 0 <= i < transitions_of(execution).len() implies (#[trigger] transitions_of(
        execution,
    )[i]) == (id, function) by {
        assert(bound.keys.dom().contains(transitions_of(execution)[i]));
    }
}

/// An execution that names another function gets `false`. Where a
/// verification in a fresh context gets its answer, and the execution has no
/// transition or has one that runs another function than the one that the call
/// names, of the program that the call names, the answer is `false`.
pub proof fn lemma_other_function_gives_false(
    execution: Seq<char>,
    verifying_key: Seq<char>,
    program: Seq<char>,
    function_id: Seq<char>,
    place: int,
)
    requires
        verification(ContextView::fresh(), execution, verifying_key, program, function_id) is Ok,
        transitions_of(execution).len() == 0 || (0 <= place < transitions_of(execution).len()
            && transitions_of(execution)[place] != (
            named(program, function_id)->Ok_0.1,
            named(program, function_id)->Ok_0.0,
        )),
    ensures
        verification(ContextView::fresh(), execution, verifying_key, program, function_id) == decided(false),
{
    if verification(ContextView::fresh(), execution, verifying_key, program, function_id) == decided(true) {
        lemma_true_names_the_function(execution, verifying_key, program, function_id);
    }
}

/// The native program is never registered by a verification: a call that
/// names it leaves the programs of the context as they are, and binds its key
/// to a function of the program that the context holds from the start.
pub proof fn lemma_native_program_stays(
    context: ContextView,
    verifying_key: Seq<char>,
    program: Seq<char>,
    function_id: Seq<char>,
)
    requires
        program_key(program) == crate::encoding::accepted(native_program_id()),
    ensures
        registered(context, program) == context,
        context_after(context, verifying_key, program, function_id).programs == context.programs,
{
}

} // verus!

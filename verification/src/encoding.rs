//! The text encodings of the artifacts that the library exchanges.
//!
//! Every artifact (an execution, a verifying key, a program, ...) is produced
//! elsewhere and reaches the library as text. The proof system's own decoders
//! decide which texts are valid and what the canonical text of a decoded
//! artifact is. This module names those decisions, and builds on them the one
//! notion the rest of the library relies on: a text is *canonical* when it
//! decodes to itself.

use snarkvm_console::network::{Network, TestnetV0};
use snarkvm_console::program::{Identifier, ProgramID, StatePath};
use snarkvm_console::types::Field;
use snarkvm_ledger_block::{Execution, Transaction};
use snarkvm_synthesizer_program::Program;
use snarkvm_synthesizer_snark::VerifyingKey;
use std::str::FromStr;
use vstd::prelude::*;

verus! {

/// The kinds of artifact that have a text encoding.
#[derive(Clone, Copy, Debug, PartialEq, Eq, Structural)]
pub enum Encoding {
    /// The record of a run of a program's function, with its proof.
    Execution,
    /// The public key against which a function's proofs are checked.
    VerifyingKey,
    /// A program definition.
    Program,
    /// A transaction as it is submitted to the network.
    Transaction,
    /// The root that summarises the ledger state.
    StateRoot,
    /// The commitment that identifies a record input.
    Commitment,
    /// The Merkle path that places a commitment under a state root.
    StatePath,
    /// The name of a function.
    Identifier,
    /// The identifier of a program, of the form `name.network`.
    ProgramId,
}

/// What `Execution::from_str` makes of `text`: the text that `to_string`
/// gives for the execution it read, or the message of its error.
pub uninterp spec fn execution_reading(text: Seq<char>) -> Result<Seq<char>, Seq<char>>;

/// What `VerifyingKey::from_str` makes of `text`: the text that `to_string`
/// gives for the key it read, or the message of its error.
pub uninterp spec fn verifying_key_reading(text: Seq<char>) -> Result<Seq<char>, Seq<char>>;

/// What `Program::from_str` makes of `text`: the text that `to_string` gives
/// for the program it read, or the message of its error.
pub uninterp spec fn program_reading(text: Seq<char>) -> Result<Seq<char>, Seq<char>>;

/// What `Transaction::from_str` makes of `text`: the text that `to_string`
/// gives for the transaction it read, or the message of its error.
pub uninterp spec fn transaction_reading(text: Seq<char>) -> Result<Seq<char>, Seq<char>>;

/// What the network's `StateRoot::from_str` makes of `text`: the text that
/// `to_string` gives for the root it read, or the message of its error.
pub uninterp spec fn state_root_reading(text: Seq<char>) -> Result<Seq<char>, Seq<char>>;

/// What `Field::from_str` makes of `text`: the text that `to_string` gives
/// for the field element it read, or the message of its error.
pub uninterp spec fn commitment_reading(text: Seq<char>) -> Result<Seq<char>, Seq<char>>;

/// What `StatePath::from_str` makes of `text`: the text that `to_string`
/// gives for the path it read, or the message of its error.
pub uninterp spec fn state_path_reading(text: Seq<char>) -> Result<Seq<char>, Seq<char>>;

/// What `Identifier::from_str` makes of `text`: the text that `to_string`
/// gives for the identifier it read, or the message of its error.
pub uninterp spec fn identifier_reading(text: Seq<char>) -> Result<Seq<char>, Seq<char>>;

/// What `ProgramID::from_str` makes of `text`: the text that `to_string`
/// gives for the program id it read, or the message of its error.
pub uninterp spec fn program_id_reading(text: Seq<char>) -> Result<Seq<char>, Seq<char>>;

/// A result of strings, seen as a result of character sequences.
pub open spec fn text_of(r: Result<String, String>) -> Result<Seq<char>, Seq<char>> {
    match r {
        Ok(text) => Ok(text@),
        Err(message) => Err(message@),
    }
}

/// Trusted: calls `Execution::<TestnetV0>::from_str` of snarkvm-ledger-block,
/// then `to_string` on what it read. The contract claims only that both are
/// functions of the text, and gives their outcome its name.
#[verifier::external_body]
fn read_execution(text: &str) -> (r: Result<String, String>)
    ensures
        text_of(r) == execution_reading(text@),
{
    match Execution::<TestnetV0>::from_str(text) {
        Ok(value) => Ok(value.to_string()),
        Err(error) => Err(error.to_string()),
    }
}

/// Trusted: calls `VerifyingKey::<TestnetV0>::from_str` of
/// snarkvm-synthesizer-snark, then `to_string` on what it read. The contract
/// claims only that both are functions of the text, and gives their outcome its
/// name.
#[verifier::external_body]
fn read_verifying_key(text: &str) -> (r: Result<String, String>)
    ensures
        text_of(r) == verifying_key_reading(text@),
{
    match VerifyingKey::<TestnetV0>::from_str(text) {
        Ok(value) => Ok(value.to_string()),
        Err(error) => Err(error.to_string()),
    }
}

/// Trusted: calls `Program::<TestnetV0>::from_str` of
/// snarkvm-synthesizer-program, then `to_string` on what it read. The contract
/// claims only that both are functions of the text, and gives their outcome its
/// name.
#[verifier::external_body]
fn read_program(text: &str) -> (r: Result<String, String>)
    ensures
        text_of(r) == program_reading(text@),
{
    match Program::<TestnetV0>::from_str(text) {
        Ok(value) => Ok(value.to_string()),
        Err(error) => Err(error.to_string()),
    }
}

/// Trusted: calls `Transaction::<TestnetV0>::from_str` of
/// snarkvm-ledger-block, then `to_string` on what it read. The contract claims
/// only that both are functions of the text, and gives their outcome its name.
#[verifier::external_body]
fn read_transaction(text: &str) -> (r: Result<String, String>)
    ensures
        text_of(r) == transaction_reading(text@),
{
    match Transaction::<TestnetV0>::from_str(text) {
        Ok(value) => Ok(value.to_string()),
        Err(error) => Err(error.to_string()),
    }
}

/// Trusted: calls `from_str` of the state root type of `TestnetV0`
/// (snarkvm-console), then `to_string` on what it read. The contract claims
/// only that both are functions of the text, and gives their outcome its name.
#[verifier::external_body]
fn read_state_root(text: &str) -> (r: Result<String, String>)
    ensures
        text_of(r) == state_root_reading(text@),
{
    match <TestnetV0 as Network>::StateRoot::from_str(text) {
        Ok(value) => Ok(value.to_string()),
        Err(error) => Err(error.to_string()),
    }
}

/// Trusted: calls `Field::<TestnetV0>::from_str` of snarkvm-console, then
/// `to_string` on what it read. The contract claims only that both are
/// functions of the text, and gives their outcome its name.
#[verifier::external_body]
fn read_commitment(text: &str) -> (r: Result<String, String>)
    ensures
        text_of(r) == commitment_reading(text@),
{
    match Field::<TestnetV0>::from_str(text) {
        Ok(value) => Ok(value.to_string()),
        Err(error) => Err(error.to_string()),
    }
}

/// Trusted: calls `StatePath::<TestnetV0>::from_str` of snarkvm-console, then
/// `to_string` on what it read. The contract claims only that both are
/// functions of the text, and gives their outcome its name.
#[verifier::external_body]
fn read_state_path(text: &str) -> (r: Result<String, String>)
    ensures
        text_of(r) == state_path_reading(text@),
{
    match StatePath::<TestnetV0>::from_str(text) {
        Ok(value) => Ok(value.to_string()),
        Err(error) => Err(error.to_string()),
    }
}

/// Trusted: calls `Identifier::<TestnetV0>::from_str` of snarkvm-console, then
/// `to_string` on what it read. The contract claims only that both are
/// functions of the text, and gives their outcome its name.
#[verifier::external_body]
fn read_identifier(text: &str) -> (r: Result<String, String>)
    ensures
        text_of(r) == identifier_reading(text@),
{
    match Identifier::<TestnetV0>::from_str(text) {
        Ok(value) => Ok(value.to_string()),
        Err(error) => Err(error.to_string()),
    }
}

/// Trusted: calls `ProgramID::<TestnetV0>::from_str` of snarkvm-console, then
/// `to_string` on what it read. The contract claims only that both are
/// functions of the text, and gives their outcome its name.
#[verifier::external_body]
fn read_program_id(text: &str) -> (r: Result<String, String>)
    ensures
        text_of(r) == program_id_reading(text@),
{
    match ProgramID::<TestnetV0>::from_str(text) {
        Ok(value) => Ok(value.to_string()),
        Err(error) => Err(error.to_string()),
    }
}

/// The outcome of a decoder that accepts: the text it read.
pub open spec fn accepted(text: Seq<char>) -> Result<Seq<char>, Seq<char>> {
    Ok(text)
}

/// What the decoder of `kind` makes of `text`.
pub open spec fn reading(kind: Encoding, text: Seq<char>) -> Result<Seq<char>, Seq<char>> {
    match kind {
        Encoding::Execution => execution_reading(text),
        Encoding::VerifyingKey => verifying_key_reading(text),
        Encoding::Program => program_reading(text),
        Encoding::Transaction => transaction_reading(text),
        Encoding::StateRoot => state_root_reading(text),
        Encoding::Commitment => commitment_reading(text),
        Encoding::StatePath => state_path_reading(text),
        Encoding::Identifier => identifier_reading(text),
        Encoding::ProgramId => program_id_reading(text),
    }
}

/// A text is canonical for `kind` when its decoder reads it back as itself.
pub open spec fn is_canonical(kind: Encoding, text: Seq<char>) -> bool {
    reading(kind, text) == accepted(text)
}

/// The message for a text whose decoded form does not read back as itself.
pub open spec fn unstable_message() -> Seq<char> {
    "the encoding does not read back as itself"@
}

/// The canonical text of the artifact that `text` encodes.
///
/// It is the decoder's reading of `text`, accepted only if that reading is
/// canonical; a decoder's own error is passed on.
pub open spec fn canonical(kind: Encoding, text: Seq<char>) -> Result<Seq<char>, Seq<char>> {
    match reading(kind, text) {
        Ok(read) => if is_canonical(kind, read) {
            Ok(read)
        } else {
            Err(unstable_message())
        },
        Err(message) => Err(message),
    }
}

/// Decodes `text` as an artifact of `kind` and returns the decoder's reading.
pub fn read(kind: Encoding, text: &str) -> (r: Result<String, String>)
    ensures
        text_of(r) == reading(kind, text@),
{
    match kind {
        Encoding::Execution => read_execution(text),
        Encoding::VerifyingKey => read_verifying_key(text),
        Encoding::Program => read_program(text),
        Encoding::Transaction => read_transaction(text),
        Encoding::StateRoot => read_state_root(text),
        Encoding::Commitment => read_commitment(text),
        Encoding::StatePath => read_state_path(text),
        Encoding::Identifier => read_identifier(text),
        Encoding::ProgramId => read_program_id(text),
    }
}

/// Returns the canonical text of the artifact of `kind` that `text` encodes.
///
/// The reading is decoded once more, and is returned only if it reads back as
/// itself: what comes out is canonical by test, not by trust in the decoder.
pub fn canonicalize(kind: Encoding, text: &str) -> (r: Result<String, String>)
    ensures
        text_of(r) == canonical(kind, text@),
        r matches Ok(c) ==> is_canonical(kind, c@),
{
    match read(kind, text) {
        Ok(first) => {
            match read(kind, first.as_str()) {
                Ok(second) => {
                    if second == first {
                        Ok(first)
                    } else {
                        Err("the encoding does not read back as itself".to_owned())
                    }
                },
                Err(_) => Err("the encoding does not read back as itself".to_owned()),
            }
        },
        Err(message) => Err(message),
    }
}

/// What is written reads back as it was: the canonical text of an artifact
/// is accepted and is its own canonical text. So an artifact that is written
/// and read again is the same artifact, whatever its kind.
pub proof fn lemma_written_text_reads_back(kind: Encoding, text: Seq<char>)
    requires
        is_canonical(kind, text),
    ensures
        canonical(kind, text) == accepted(text),
{
}

/// Reading brings a text into canonical form once and for all: the text that
/// comes out of a reading is canonical, and reading it again changes nothing.
pub proof fn lemma_reading_is_idempotent(kind: Encoding, text: Seq<char>)
    requires
        canonical(kind, text) is Ok,
    ensures
        is_canonical(kind, canonical(kind, text)->Ok_0),
        canonical(kind, canonical(kind, text)->Ok_0) == canonical(kind, text),
{
}

} // verus!

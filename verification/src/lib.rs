//! Offline verification of zero-knowledge program executions.
//!
//! An execution is the record of a run of a program's function, with a proof
//! that the run met the program's constraints. This library checks such a
//! record against a published verifying key without asking a ledger: it builds
//! an execution context that holds the program, binds the key to the function,
//! and lets the proof system give its answer. For the ledger data that a proof
//! may refer to, it offers a store that is filled beforehand.
//!
//! The arithmetic of proofs is not here. It is the proof system's, which is
//! called through a small trusted surface: the decoders of the text encodings
//! (`encoding`), the process that holds programs and keys (`sandbox`), an
//! insertion-ordered map (`ordered_map`) and the writer of JSON strings
//! (`json`). What those decide is named; what the library builds on it is
//! proved.
//!
//! - `engine`: the verification itself, and what it answers for every input.
//! - `context`: execution contexts, where each program id is registered once.
//! - `offline_query`: the inclusion-path store.
//! - `execution`, `verifying_key`, `program`, `transaction`, `state`,
//!   `identifier`: the artifacts, each held as its canonical text.

pub mod context;
pub mod encoding;
pub mod engine;
pub mod execution;
pub mod identifier;
pub mod json;
pub mod offline_query;
pub mod ordered_map;
pub mod program;
pub mod sandbox;
pub mod state;
pub mod transaction;
pub mod verifying_key;

pub use context::{ContextError, ExecutionContext};
pub use engine::{verify_function_execution, verify_function_execution_in};
pub use execution::Execution;
pub use identifier::{Identifier, ProgramId};
pub use offline_query::{OfflineQuery, QueryError};
pub use program::Program;
pub use state::{Commitment, StatePath, StateRoot};
pub use transaction::{Transaction, TransactionKind};
pub use verifying_key::VerifyingKey;

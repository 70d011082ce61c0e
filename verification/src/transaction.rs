//! Transactions: what is submitted to the network to deploy or to execute.

use crate::encoding::{canonical, canonicalize, is_canonical, Encoding};
use snarkvm_console::network::TestnetV0;
use snarkvm_ledger_block::Transaction as TransactionNative;
use std::str::FromStr;
use vstd::prelude::*;

verus! {

/// The kinds of transaction.
#[derive(Debug, Clone, Copy, PartialEq, Eq, Structural)]
pub enum TransactionKind {
    /// Publishes a program.
    Deploy,
    /// Calls a function of a program.
    Execute,
    /// Pays the fee of a transaction that was rejected.
    Fee,
}

impl TransactionKind {
    /// The word by which the kind is known to callers.
    pub open spec fn word(self) -> Seq<char> {
        match self {
            TransactionKind::Deploy => "deploy"@,
            TransactionKind::Execute => "execute"@,
            TransactionKind::Fee => "fee"@,
        }
    }

    /// Returns the word by which the kind is known to callers.
    pub fn name(&self) -> (r: String)
        ensures
            r@ == self.word(),
    {
        match self {
            TransactionKind::Deploy => "deploy".to_owned(),
            TransactionKind::Execute => "execute".to_owned(),
            TransactionKind::Fee => "fee".to_owned(),
        }
    }
}

/// The text that `to_string` gives for the id that `Transaction::id` returns
/// for the transaction that `transaction` encodes.
pub uninterp spec fn transaction_id_of(transaction: Seq<char>) -> Seq<char>;

/// The variant of `Transaction` that the transaction is which `transaction`
/// encodes.
pub uninterp spec fn transaction_kind_of(transaction: Seq<char>) -> TransactionKind;

/// Trusted: calls `Transaction::id` of snarkvm-ledger-block on the transaction
/// that `transaction` encodes, then `to_string`. The contract claims only that
/// the result is a function of the text, and gives it its name.
#[verifier::external_body]
fn read_transaction_id(transaction: &str) -> (r: String)
    requires
        is_canonical(Encoding::Transaction, transaction@),
    ensures
        r@ == transaction_id_of(transaction@),
{
    match TransactionNative::<TestnetV0>::from_str(transaction) {
        Ok(value) => value.id().to_string(),
        Err(error) => error.to_string(),
    }
}

/// Trusted: reads the transaction that `transaction` encodes with
/// `Transaction::from_str` of snarkvm-ledger-block and tells its three variants
/// apart. The contract claims only that the variant is a function of the text,
/// and gives it its name; a canonical text is one that was read before.
#[verifier::external_body]
fn read_transaction_kind(transaction: &str) -> (r: Option<TransactionKind>)
    requires
        is_canonical(Encoding::Transaction, transaction@),
    ensures
        r == Some(transaction_kind_of(transaction@)),
{
    match TransactionNative::<TestnetV0>::from_str(transaction) {
        Ok(TransactionNative::Deploy(..)) => Some(TransactionKind::Deploy),
        Ok(TransactionNative::Execute(..)) => Some(TransactionKind::Execute),
        Ok(TransactionNative::Fee(..)) => Some(TransactionKind::Fee),
        Err(_) => None,
    }
}

/// A transaction, held as its canonical text.
#[derive(Debug)]
pub struct Transaction {
    text: String,
}

impl View for Transaction {
    type V = Seq<char>;

    /// The canonical text of the transaction.
    closed spec fn view(&self) -> Seq<char> {
        self.text@
    }
}

impl Transaction {
    /// The text held is canonical for a transaction.
    #[verifier::type_invariant]
    spec fn well_formed(&self) -> bool {
        is_canonical(Encoding::Transaction, self.text@)
    }

    /// The outcome of reading a transaction, seen as text.
    pub open spec fn read_as(r: Result<Transaction, String>) -> Result<Seq<char>, Seq<char>> {
        match r {
            Ok(value) => Ok(value@),
            Err(message) => Err(message@),
        }
    }

    /// Reads a transaction from `transaction`, in any form that its decoder
    /// accepts, and holds it in canonical form. Fails with the decoder's message
    /// where the text encodes no transaction.
    pub fn from_string(transaction: &str) -> (r: Result<Transaction, String>)
        ensures
            Transaction::read_as(r) == canonical(Encoding::Transaction, transaction@),
    {
        match canonicalize(Encoding::Transaction, transaction) {
            Ok(text) => Ok(Transaction { text }),
            Err(message) => Err(message),
        }
    }

    /// Borrows the canonical text of the transaction.
    pub fn as_str(&self) -> (r: &str)
        ensures
            r@ == self@,
            is_canonical(Encoding::Transaction, r@),
    {
        proof {
            use_type_invariant(self);
        }
        self.text.as_str()
    }

    /// Returns the canonical text of the transaction.
    pub fn to_string(&self) -> (r: String)
        ensures
            r@ == self@,
            is_canonical(Encoding::Transaction, r@),
    {
        proof {
            use_type_invariant(self);
        }
        self.text.clone()
    }

    /// Returns the id of the transaction: the root of the Merkle tree over
    /// what the transaction holds, by which the network knows it.
    pub fn transaction_id(&self) -> (r: String)
        ensures
            r@ == transaction_id_of(self@),
    {
        proof {
            use_type_invariant(self);
        }
        read_transaction_id(self.text.as_str())
    }

    /// Returns the kind of the transaction.
    pub fn kind(&self) -> (r: TransactionKind)
        ensures
            r == transaction_kind_of(self@),
    {
        proof {
            use_type_invariant(self);
        }
        read_transaction_kind(self.text.as_str()).unwrap()
    }

    /// Returns the kind of the transaction as a word: `deploy`, `execute` or
    /// `fee`.
    pub fn transaction_type(&self) -> (r: String)
        ensures
            r@ == transaction_kind_of(self@).word(),
    {
        self.kind().name()
    }
}

impl FromStr for Transaction {
    type Err = String;

    /// Reads a transaction as `from_string` does.
    fn from_str(s: &str) -> (r: Result<Transaction, String>)
        ensures
            Transaction::read_as(r) == canonical(Encoding::Transaction, s@),
    {
        Transaction::from_string(s)
    }
}

impl Clone for Transaction {
    fn clone(&self) -> (r: Self)
        ensures
            r@ == self@,
    {
        proof {
            use_type_invariant(self);
        }
        Transaction { text: self.text.clone() }
    }
}

impl PartialEq for Transaction {
    fn eq(&self, other: &Self) -> (r: bool) {
        self.text == other.text
    }
}

impl vstd::std_specs::cmp::PartialEqSpecImpl for Transaction {
    open spec fn obeys_eq_spec() -> bool {
        true
    }

    open spec fn eq_spec(&self, other: &Self) -> bool {
        self@ == other@
    }
}

impl Eq for Transaction {
}

} // verus!

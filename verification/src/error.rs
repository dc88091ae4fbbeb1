use vstd::prelude::*;

verus! {

/// Which checked operation overflowed.
#[derive(Clone, Copy, Debug, PartialEq, Eq, Structural)]
pub enum OverflowOperation {
    Add,
    Sub,
    Mul,
    Pow,
}

/// The kind of a stored record.
#[derive(Clone, Copy, Debug, PartialEq, Eq, Structural)]
pub enum RecordKind {
    Position,
    Market,
}

/// Generic failures of the contract runtime, as the library sees them.
#[derive(Debug)]
pub enum StdError {
    /// A record that was looked up is absent.
    NotFound { kind: RecordKind },
    /// A checked integer operation overflowed.
    Overflow { operation: OverflowOperation },
    /// A free-form error, such as a refused request size.
    GenericErr { msg: String },
    /// An error reported by the host, such as an invalid address.
    Host { msg: String },
}

/// Why a payment attached to a message was refused.
#[derive(Debug)]
pub enum PaymentError {
    MissingDenom(String),
    ExtraDenom(String),
    MultipleDenoms,
    NoFunds,
    NonPayable,
}

} // verus!

//! Error kinds of the projection engine.  Every error is fatal to the current
//! execution attempt: no partial transition is ever produced.

use vstd::prelude::*;

verus! {

/// Why an execution attempt was aborted.
///
/// `RegisterNotFound` and `RegisterNotAssigned` carry the name of the
/// offending register; `FunctionNotFound` carries the function name.
#[derive(Debug, PartialEq, Eq)]
pub enum ExecutionError {
    /// A privileged "coinbase" entry point was invoked directly.
    CoinbaseNotCallable,
    /// The program declares no function of this name.
    FunctionNotFound(String),
    /// A declared register is missing from the circuit assignment.
    RegisterNotFound(String),
    /// A declared register is present but holds no value.
    RegisterNotAssigned(String),
    /// A record-typed register was marked public.
    RecordMustBePrivate,
    /// A record entry is itself a record.
    NestedRecordsUnsupported,
    /// Extraction was attempted on a circuit value with no concrete witness.
    UnassignedWitness,
}

/// Mathematical image of an [`ExecutionError`]: the same variants over
/// `Seq<char>` payloads, so contracts can speak of the names an error carries.
#[verifier::ext_equal]
pub enum ErrorV {
    CoinbaseNotCallable,
    FunctionNotFound(Seq<char>),
    RegisterNotFound(Seq<char>),
    RegisterNotAssigned(Seq<char>),
    RecordMustBePrivate,
    NestedRecordsUnsupported,
    UnassignedWitness,
}

impl View for ExecutionError {
    type V = ErrorV;

    open spec fn view(&self) -> ErrorV {
        match self {
            ExecutionError::CoinbaseNotCallable => ErrorV::CoinbaseNotCallable,
            ExecutionError::FunctionNotFound(n) => ErrorV::FunctionNotFound(n@),
            ExecutionError::RegisterNotFound(n) => ErrorV::RegisterNotFound(n@),
            ExecutionError::RegisterNotAssigned(n) => ErrorV::RegisterNotAssigned(n@),
            ExecutionError::RecordMustBePrivate => ErrorV::RecordMustBePrivate,
            ExecutionError::NestedRecordsUnsupported => ErrorV::NestedRecordsUnsupported,
            ExecutionError::UnassignedWitness => ErrorV::UnassignedWitness,
        }
    }
}

} // verus!

//! Witness-to-transition projection for a register-based zero-knowledge
//! instruction language.
//!
//! A completed circuit assignment binds every register of a function to a
//! typed, possibly private value.  This library projects such an assignment
//! into the artifacts a shielded ledger accepts: visibility-tagged inputs and
//! outputs, materialized records with their nullifiers or ciphertexts, and an
//! assembled transition bound to a proof.

use vstd::prelude::*;

mod circuit_io_type;
mod decimal;
mod encrypt;
mod errors;
mod execute;
mod gadgets;
mod keys;
mod program;
mod project;
mod record;
mod registers;
mod values;
mod variable_type;

pub use circuit_io_type::{CircuitIOType, CircuitRecord};
pub use encrypt::EncryptedRecord;
pub use errors::ExecutionError;
pub use execute::{credits_execution, execution, Transition};
pub use keys::{derive_view_key, PrivateKey, ViewKey};
pub use program::{credits, program_is_coinbase, Function, Program};
pub use project::{
    consume_record, materialize_record, process_circuit_inputs, process_circuit_outputs,
    produce_record, CircuitInputType, CircuitOutputType,
};
pub use gadgets::{
    AddressGadget, BooleanGadget, CircuitVariable, FieldGadget, UInt128Gadget, UInt16Gadget,
    UInt32Gadget, UInt64Gadget, UInt8Gadget,
};
pub use record::Record;
pub use registers::SimpleFunctionVariables;
pub use values::UserInputValueType;
pub use variable_type::VariableType;

verus! {

/// The projection pipeline never accepts an owner address longer than this:
/// a bech32 address of the ledger is at most 63 bytes, and plaintext records
/// store owners in a zero-padded buffer of exactly this many bytes.
pub const ADDRESS_BYTES: usize = 63;

} // verus!

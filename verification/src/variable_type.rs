//! The ledger-facing projected value of one register.

use crate::encrypt::EncryptedRecord;
use crate::record::Record;
use crate::record::RecordV;
use crate::values::UserInputValueType;
use crate::values::ValueV;
use vstd::prelude::*;

verus! {

/// A projected value, visibility-tagged for the ledger.
///
/// `Record` with a nullifier is a record being consumed as input; without
/// one it is a freshly produced, unspent record.  A record is never tagged
/// `Public`.
#[derive(Debug, PartialEq, Eq)]
pub enum VariableType {
    Public(UserInputValueType),
    Private(UserInputValueType),
    Record(Option<u64>, Record),
    EncryptedRecord(EncryptedRecord),
}

/// Mathematical image of a [`VariableType`].
#[verifier::ext_equal]
pub enum VariableV {
    Public(ValueV),
    Private(ValueV),
    Record(Option<u64>, RecordV),
    EncryptedRecord(RecordV),
}

impl View for VariableType {
    type V = VariableV;

    open spec fn view(&self) -> VariableV {
        match self {
            VariableType::Public(v) => VariableV::Public(v@),
            VariableType::Private(v) => VariableV::Private(v@),
            VariableType::Record(sn, rec) => VariableV::Record(*sn, rec@),
            VariableType::EncryptedRecord(c) => VariableV::EncryptedRecord(c@),
        }
    }
}

} // verus!

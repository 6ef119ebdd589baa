//! The typed circuit value: the closed union of value kinds a register of
//! the instruction language can hold, each carrying its witness-extraction
//! behaviour.

use crate::decimal::spec_decimal;
use crate::decimal::u128_to_decimal;
use crate::errors::ExecutionError;
use crate::gadgets::address_assignment_wf;
use crate::gadgets::AddressGadget;
use crate::gadgets::BooleanGadget;
use crate::gadgets::FieldGadget;
use crate::gadgets::UInt128Gadget;
use crate::gadgets::UInt16Gadget;
use crate::gadgets::UInt32Gadget;
use crate::gadgets::UInt64Gadget;
use crate::gadgets::UInt8Gadget;
use vstd::prelude::*;

verus! {

/// An in-circuit record: owner and balance gadgets, named entries, and the
/// nonce the circuit bound to this record instance at construction time.
///
/// `witness` is the mark the circuit put on the record value itself; a
/// record marked public is rejected by the projection.
#[derive(Debug)]
pub struct CircuitRecord {
    pub owner: AddressGadget,
    pub gates: UInt64Gadget,
    pub entries: Vec<(String, CircuitIOType)>,
    pub nonce: u64,
    pub witness: bool,
}

/// A typed circuit value, as bound to one register.
#[derive(Debug)]
pub enum CircuitIOType {
    SimpleUInt8(UInt8Gadget),
    SimpleUInt16(UInt16Gadget),
    SimpleUInt32(UInt32Gadget),
    SimpleUInt64(UInt64Gadget),
    SimpleUInt128(UInt128Gadget),
    SimpleBoolean(BooleanGadget),
    SimpleField(FieldGadget),
    SimpleAddress(AddressGadget),
    SimpleRecord(CircuitRecord),
}

/// Whether the circuit marks this value as a witness (private) or not
/// (public).  The projector trusts this mark; it does not re-derive
/// visibility from the function declaration.
pub open spec fn spec_is_witness(v: CircuitIOType) -> bool {
    match v {
        CircuitIOType::SimpleUInt8(g) => g.witness,
        CircuitIOType::SimpleUInt16(g) => g.witness,
        CircuitIOType::SimpleUInt32(g) => g.witness,
        CircuitIOType::SimpleUInt64(g) => g.witness,
        CircuitIOType::SimpleUInt128(g) => g.witness,
        CircuitIOType::SimpleBoolean(g) => g.witness,
        CircuitIOType::SimpleField(g) => g.witness,
        CircuitIOType::SimpleAddress(g) => g.witness,
        CircuitIOType::SimpleRecord(r) => r.witness,
    }
}

/// Well-formedness of an entry value inside a record: any address it holds
/// fits the owner buffer.  A nested record is left unconstrained here; the
/// projection rejects it before reading it.
pub open spec fn entry_value_wf(v: CircuitIOType) -> bool {
    match v {
        CircuitIOType::SimpleAddress(g) => address_assignment_wf(g),
        _ => true,
    }
}

/// Well-formedness of an in-circuit record: its owner and every address
/// entry fit the owner buffer.
pub open spec fn circuit_record_wf(r: CircuitRecord) -> bool {
    address_assignment_wf(r.owner) && forall|i: int|
        0 <= i < r.entries@.len() ==> entry_value_wf(#[trigger] r.entries@[i].1)
}

/// Well-formedness of a circuit value: every address witness it exposes to
/// extraction is ASCII and fits the 63-byte owner buffer.
pub open spec fn circuit_value_wf(v: CircuitIOType) -> bool {
    match v {
        CircuitIOType::SimpleAddress(g) => address_assignment_wf(g),
        CircuitIOType::SimpleRecord(r) => circuit_record_wf(r),
        _ => true,
    }
}

/// The decimal (or literal) rendering `value` returns for each non-record
/// variant, or `None` where the underlying variable has no assignment.
pub open spec fn spec_value(v: CircuitIOType) -> Option<Seq<char>> {
    match v {
        CircuitIOType::SimpleUInt8(g) => match g.assignment {
            Some(x) => Some(spec_decimal(x as nat)),
            None => None,
        },
        CircuitIOType::SimpleUInt16(g) => match g.assignment {
            Some(x) => Some(spec_decimal(x as nat)),
            None => None,
        },
        CircuitIOType::SimpleUInt32(g) => match g.assignment {
            Some(x) => Some(spec_decimal(x as nat)),
            None => None,
        },
        CircuitIOType::SimpleUInt64(g) => match g.assignment {
            Some(x) => Some(spec_decimal(x as nat)),
            None => None,
        },
        CircuitIOType::SimpleUInt128(g) => match g.assignment {
            Some(x) => Some(spec_decimal(x as nat)),
            None => None,
        },
        CircuitIOType::SimpleBoolean(g) => match g.assignment {
            Some(b) => Some(if b {
                "true"@
            } else {
                "false"@
            }),
            None => None,
        },
        CircuitIOType::SimpleField(g) => match g.assignment {
            Some(x) => Some(spec_decimal(x as nat)),
            None => None,
        },
        CircuitIOType::SimpleAddress(g) => match g.assignment {
            Some(s) => Some(s@),
            None => None,
        },
        CircuitIOType::SimpleRecord(_) => None,
    }
}

impl CircuitIOType {
    /// Checks this value against [`circuit_value_wf`].
    pub fn is_well_formed(&self) -> (b: bool)
        ensures
            b == circuit_value_wf(*self),
    {
        match self {
            CircuitIOType::SimpleAddress(g) => crate::gadgets::address_assignment_ok(g),
            CircuitIOType::SimpleRecord(r) => {
                if !crate::gadgets::address_assignment_ok(&r.owner) {
                    return false;
                }
                let mut i: usize = 0;
                while i < r.entries.len()
                    invariant
                        i <= r.entries@.len(),
                        circuit_value_wf(*self) == circuit_record_wf(*r),
                        forall|j: int|
                            0 <= j < i ==> entry_value_wf(#[trigger] r.entries@[j].1),
                    decreases r.entries@.len() - i,
                {
                    match &r.entries[i].1 {
                        CircuitIOType::SimpleAddress(g) => {
                            if !crate::gadgets::address_assignment_ok(g) {
                                proof {
                                    assert(!entry_value_wf(r.entries@[i as int].1));
                                    assert(!circuit_record_wf(*r));
                                }
                                return false;
                            }
                        },
                        _ => {},
                    }
                    i = i + 1;
                }
                true
            },
            _ => true,
        }
    }

    /// Reads the witness mark off the value.
    pub fn is_witness(&self) -> (b: bool)
        ensures
            b == spec_is_witness(*self),
    {
        match self {
            CircuitIOType::SimpleUInt8(g) => g.witness,
            CircuitIOType::SimpleUInt16(g) => g.witness,
            CircuitIOType::SimpleUInt32(g) => g.witness,
            CircuitIOType::SimpleUInt64(g) => g.witness,
            CircuitIOType::SimpleUInt128(g) => g.witness,
            CircuitIOType::SimpleBoolean(g) => g.witness,
            CircuitIOType::SimpleField(g) => g.witness,
            CircuitIOType::SimpleAddress(g) => g.witness,
            CircuitIOType::SimpleRecord(r) => r.witness,
        }
    }

    /// The primitive witness of a non-record value, rendered as text:
    /// unsigned integers and field handles in decimal, booleans as
    /// `true`/`false`, addresses as the address string itself.
    ///
    /// Record extraction goes through the record materializer instead, so a
    /// record value is excluded here rather than given a partial answer.
    pub fn value(&self) -> (r: Result<String, ExecutionError>)
        requires
            !(self is SimpleRecord),
        ensures
            match r {
                Ok(s) => spec_value(*self) == Some(s@),
                Err(e) => spec_value(*self) is None && e == ExecutionError::UnassignedWitness,
            },
    {
        match self {
            CircuitIOType::SimpleUInt8(g) => match g.assignment {
                Some(x) => Ok(u128_to_decimal(x as u128)),
                None => Err(ExecutionError::UnassignedWitness),
            },
            CircuitIOType::SimpleUInt16(g) => match g.assignment {
                Some(x) => Ok(u128_to_decimal(x as u128)),
                None => Err(ExecutionError::UnassignedWitness),
            },
            CircuitIOType::SimpleUInt32(g) => match g.assignment {
                Some(x) => Ok(u128_to_decimal(x as u128)),
                None => Err(ExecutionError::UnassignedWitness),
            },
            CircuitIOType::SimpleUInt64(g) => match g.assignment {
                Some(x) => Ok(u128_to_decimal(x as u128)),
                None => Err(ExecutionError::UnassignedWitness),
            },
            CircuitIOType::SimpleUInt128(g) => match g.assignment {
                Some(x) => Ok(u128_to_decimal(x)),
                None => Err(ExecutionError::UnassignedWitness),
            },
            CircuitIOType::SimpleBoolean(g) => match g.assignment {
                Some(b) => {
                    if b {
                        Ok(<String as vstd::string::StringExecFns>::from_str("true"))
                    } else {
                        Ok(<String as vstd::string::StringExecFns>::from_str("false"))
                    }
                },
                None => Err(ExecutionError::UnassignedWitness),
            },
            CircuitIOType::SimpleField(g) => match g.assignment {
                Some(x) => Ok(u128_to_decimal(x as u128)),
                None => Err(ExecutionError::UnassignedWitness),
            },
            CircuitIOType::SimpleAddress(g) => match &g.assignment {
                Some(s) => Ok(s.clone()),
                None => Err(ExecutionError::UnassignedWitness),
            },
            CircuitIOType::SimpleRecord(_) => Err(ExecutionError::UnassignedWitness),
        }
    }
}

} // verus!

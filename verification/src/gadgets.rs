//! Model of a constraint-system variable as the projection engine sees one.
//!
//! Circuit synthesis binds each register to a typed variable.  All this
//! library ever reads from such a variable is its concrete witness, if one
//! has been assigned, and whether the circuit marks it as a witness
//! (private) or not (public).  The model therefore carries exactly those two
//! observations as plain values.

use vstd::prelude::*;

verus! {

/// A typed circuit variable: an optional concrete assignment plus the
/// witness mark the circuit gave it.
///
/// `assignment` is `None` for a variable with no concrete witness, e.g. a
/// public-input-only instantiation produced during setup; extracting a value
/// from it fails with an "unassigned witness" condition.
#[derive(Debug, PartialEq, Eq)]
pub struct CircuitVariable<T> {
    pub assignment: Option<T>,
    pub witness: bool,
}

impl<T> CircuitVariable<T> {
    /// A variable holding a concrete assignment.
    pub fn assigned(value: T, witness: bool) -> (r: CircuitVariable<T>)
        ensures
            r.assignment == Some(value),
            r.witness == witness,
    {
        CircuitVariable { assignment: Some(value), witness }
    }

    /// A variable with no concrete assignment yet.
    pub fn unassigned(witness: bool) -> (r: CircuitVariable<T>)
        ensures
            r.assignment is None,
            r.witness == witness,
    {
        CircuitVariable { assignment: None, witness }
    }
}

/// The unsigned-integer, boolean, field and address gadget shapes the
/// instruction language's registers can take.
pub type UInt8Gadget = CircuitVariable<u8>;

pub type UInt16Gadget = CircuitVariable<u16>;

pub type UInt32Gadget = CircuitVariable<u32>;

pub type UInt64Gadget = CircuitVariable<u64>;

pub type UInt128Gadget = CircuitVariable<u128>;

pub type BooleanGadget = CircuitVariable<bool>;

/// A field element is opaque to the projection: the model carries it as the
/// 64-bit handle the synthesis layer labels it with.
pub type FieldGadget = CircuitVariable<u64>;

/// An address gadget's witness is the bech32-style address string itself.
pub type AddressGadget = CircuitVariable<String>;

/// An address witness the projection accepts: ASCII, and no longer than the
/// 63-byte owner buffer of a plaintext record.
pub open spec fn address_assignment_wf(g: AddressGadget) -> bool {
    g.assignment matches Some(s) ==> vstd::utf8::is_ascii_chars(s@) && s@.len()
        <= crate::ADDRESS_BYTES
}

/// Checks an address gadget against [`address_assignment_wf`].
pub fn address_assignment_ok(g: &AddressGadget) -> (b: bool)
    ensures
        b == address_assignment_wf(*g),
{
    match &g.assignment {
        None => true,
        Some(s) => {
            let r: &str = s.as_str();
            if !r.is_ascii() {
                return false;
            }
            let bytes: &[u8] = r.as_bytes();
            proof {
                broadcast use vstd::slice::axiom_spec_len;

                vstd::string::is_ascii_spec_bytes(r);
                assert(bytes@.len() == s@.len());
            }
            bytes.len() <= crate::ADDRESS_BYTES
        },
    }
}

} // verus!

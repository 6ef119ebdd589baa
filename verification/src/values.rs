//! Plaintext primitive values: what a circuit witness projects to.

use crate::ADDRESS_BYTES;
use vstd::prelude::*;

verus! {

/// A ledger-facing primitive value, extracted from a circuit variable.
///
/// `Address` holds the fixed 63-byte owner buffer: the ASCII bytes of the
/// address string, zero-padded on the right.  The union is record-free by
/// construction, so a plaintext record's entries can never nest a record.
#[derive(Debug, PartialEq, Eq)]
pub enum UserInputValueType {
    U8(u8),
    U16(u16),
    U32(u32),
    U64(u64),
    U128(u128),
    Boolean(bool),
    Field(u64),
    Address(Vec<u8>),
}

/// Mathematical image of a [`UserInputValueType`].
#[verifier::ext_equal]
pub enum ValueV {
    U8(u8),
    U16(u16),
    U32(u32),
    U64(u64),
    U128(u128),
    Boolean(bool),
    Field(u64),
    Address(Seq<u8>),
}

impl View for UserInputValueType {
    type V = ValueV;

    open spec fn view(&self) -> ValueV {
        match self {
            UserInputValueType::U8(x) => ValueV::U8(*x),
            UserInputValueType::U16(x) => ValueV::U16(*x),
            UserInputValueType::U32(x) => ValueV::U32(*x),
            UserInputValueType::U64(x) => ValueV::U64(*x),
            UserInputValueType::U128(x) => ValueV::U128(*x),
            UserInputValueType::Boolean(b) => ValueV::Boolean(*b),
            UserInputValueType::Field(x) => ValueV::Field(*x),
            UserInputValueType::Address(a) => ValueV::Address(a@),
        }
    }
}

/// The 63-byte owner buffer for an address string: its ASCII bytes, with
/// trailing zero bytes where the string is shorter than the buffer.
pub open spec fn spec_address_bytes(addr: Seq<char>) -> Seq<u8> {
    Seq::new(ADDRESS_BYTES as nat, |i: int| if i < addr.len() {
        addr[i] as u8
    } else {
        0u8
    })
}

/// Copies an address string into the fixed owner buffer.
pub fn to_address(addr: &String) -> (r: Vec<u8>)
    requires
        vstd::utf8::is_ascii_chars(addr@),
        addr@.len() <= ADDRESS_BYTES,
    ensures
        r@ == spec_address_bytes(addr@),
        r@.len() == ADDRESS_BYTES,
{
    let s: &str = addr.as_str();
    let bytes: &[u8] = s.as_bytes();
    proof {
        vstd::string::is_ascii_spec_bytes(s);
        assert(bytes@.len() == addr@.len());
    }
    let mut r: Vec<u8> = Vec::new();
    let mut i: usize = 0;
    while i < bytes.len()
        invariant
            i <= bytes@.len(),
            bytes@.len() == addr@.len() <= ADDRESS_BYTES,
            forall|k: int| 0 <= k < bytes@.len() ==> bytes@[k] == addr@[k] as u8,
            r@ == bytes@.take(i as int),
        decreases bytes@.len() - i,
    {
        let b = bytes[i];
        r.push(b);
        proof {
            assert(r@ =~= bytes@.take(i + 1));
        }
        i = i + 1;
    }
    while r.len() < ADDRESS_BYTES
        invariant
            addr@.len() <= r@.len() <= ADDRESS_BYTES,
            forall|k: int| 0 <= k < addr@.len() ==> r@[k] == addr@[k] as u8,
            forall|k: int| addr@.len() <= k < r@.len() ==> r@[k] == 0u8,
        decreases ADDRESS_BYTES - r@.len(),
    {
        r.push(0u8);
    }
    proof {
        assert(r@ =~= spec_address_bytes(addr@));
    }
    r
}

} // verus!

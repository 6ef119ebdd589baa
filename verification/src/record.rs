//! The plaintext record: what an in-circuit record materializes to.

use crate::keys::spec_serial_number;
use crate::keys::PrivateKey;
use crate::keys::mix64;
use crate::values::UserInputValueType;
use crate::values::ValueV;
use crate::ADDRESS_BYTES;
use vstd::prelude::*;

verus! {

/// A materialized (plaintext) record.
///
/// The owner buffer always holds exactly 63 bytes: the ASCII bytes of the
/// owner address, zero-padded.  Entries keep their declaration order and are
/// record-free by the type of their values.  A record is constructed fresh
/// during projection and immutable afterwards.
#[derive(Debug, PartialEq, Eq)]
pub struct Record {
    pub owner: Vec<u8>,
    pub gates: u64,
    pub entries: Vec<(String, UserInputValueType)>,
    pub nonce: Option<u64>,
}

/// Mathematical image of a [`Record`].
#[verifier::ext_equal]
pub struct RecordV {
    pub owner: Seq<u8>,
    pub gates: u64,
    pub entries: Seq<(Seq<char>, ValueV)>,
    pub nonce: Option<u64>,
}

impl View for Record {
    type V = RecordV;

    open spec fn view(&self) -> RecordV {
        RecordV {
            owner: self.owner@,
            gates: self.gates,
            entries: self.entries@.map_values(
                |p: (String, UserInputValueType)| (p.0@, p.1@),
            ),
            nonce: self.nonce,
        }
    }
}

impl RecordV {
    /// A well-formed record fills the owner buffer exactly.
    pub open spec fn wf(self) -> bool {
        self.owner.len() == ADDRESS_BYTES
    }
}

impl Record {
    /// Assembles a record from its parts.
    pub fn new(
        owner: Vec<u8>,
        gates: u64,
        entries: Vec<(String, UserInputValueType)>,
        nonce: Option<u64>,
    ) -> (r: Record)
        ensures
            r@ == (RecordV {
                owner: owner@,
                gates,
                entries: entries@.map_values(
                    |p: (String, UserInputValueType)| (p.0@, p.1@),
                ),
                nonce,
            }),
    {
        Record { owner, gates, entries, nonce }
    }

    /// The serial number (nullifier) that marks this record as spent by the
    /// holder of `private_key`.
    ///
    /// It is a deterministic function of the record's nonce and the key
    /// alone: the nonce is unique per record instance, so the same record
    /// consumed under the same key always yields the same nullifier, and
    /// the nullifier exposes none of the record's plaintext contents.
    pub fn serial_number(&self, private_key: &PrivateKey) -> (r: u64)
        ensures
            r == spec_record_serial(self@, private_key.seed),
    {
        let nonce = match self.nonce {
            Some(n) => n,
            None => 0,
        };
        mix64(mix64(private_key.seed ^ 0x2545_f491_4f6c_dd1d) ^ nonce)
    }
}

/// The nullifier of a record under a private key seed.
pub open spec fn spec_record_serial(r: RecordV, pk: u64) -> u64 {
    spec_serial_number(
        match r.nonce {
            Some(n) => n,
            None => 0,
        },
        pk,
    )
}

} // verus!

//! Record encryption: the receiver-encrypted form of a produced record.
//!
//! The cipher masks every payload of the record with a keystream derived
//! from the view key seed, field by field.  Masking is an involution, so
//! decryption applies the same stream again; only the holder of the view
//! key can reproduce the stream.  Entry names and the entry count stay in
//! the clear, as the framing of the ciphertext.

use crate::keys::spec_stream64;
use crate::keys::spec_stream8;
use crate::keys::stream64;
use crate::keys::stream8;
use crate::keys::ViewKey;
use crate::record::Record;
use crate::record::RecordV;
use crate::values::UserInputValueType;
use crate::values::ValueV;
use vstd::prelude::*;
use vstd::wrapping::u64_specs;

verus! {

/// Keystream lane carrying the balance mask.
pub const GATES_LANE: u64 = 100;

/// Keystream lane carrying the nonce mask.
pub const NONCE_LANE: u64 = 101;

/// First keystream lane of entry `i`; an entry never uses more than 64
/// lanes of its block.
pub open spec fn spec_entry_lane(i: int) -> u64 {
    u64_specs::wrapping_add(u64_specs::wrapping_mul(i as u64, 128), 1000)
}

fn entry_lane(i: usize) -> (r: u64)
    ensures
        r == spec_entry_lane(i as int),
{
    (i as u64).wrapping_mul(128).wrapping_add(1000)
}

/// The mask applied to one primitive value, keyed by `k` and the value's
/// keystream lane.  The variant is preserved; every payload is masked.
pub open spec fn spec_mask_value(v: ValueV, k: u64, lane: u64) -> ValueV {
    match v {
        ValueV::U8(x) => ValueV::U8(x ^ spec_stream8(k, lane)),
        ValueV::U16(x) => ValueV::U16(x ^ (spec_stream64(k, lane) & 0xffff) as u16),
        ValueV::U32(x) => ValueV::U32(x ^ (spec_stream64(k, lane) & 0xffff_ffff) as u32),
        ValueV::U64(x) => ValueV::U64(x ^ spec_stream64(k, lane)),
        ValueV::U128(x) => ValueV::U128(
            x ^ (((spec_stream64(k, lane) as u128) << 64) | (spec_stream64(
                k,
                u64_specs::wrapping_add(lane, 1),
            ) as u128)),
        ),
        ValueV::Boolean(b) => ValueV::Boolean(b ^ ((spec_stream64(k, lane) & 1) == 1)),
        ValueV::Field(x) => ValueV::Field(x ^ spec_stream64(k, lane)),
        ValueV::Address(bs) => ValueV::Address(
            Seq::new(
                bs.len(),
                |j: int| bs[j] ^ spec_stream8(
                    k,
                    u64_specs::wrapping_add(lane, u64_specs::wrapping_add(j as u64, 1)),
                ),
            ),
        ),
    }
}

/// The masked form of a whole record under key seed `k`.
pub open spec fn spec_encrypt(r: RecordV, k: u64) -> RecordV {
    RecordV {
        owner: Seq::new(r.owner.len(), |i: int| r.owner[i] ^ spec_stream8(k, i as u64)),
        gates: r.gates ^ spec_stream64(k, GATES_LANE),
        entries: Seq::new(
            r.entries.len(),
            |i: int| (r.entries[i].0, spec_mask_value(r.entries[i].1, k, spec_entry_lane(i))),
        ),
        nonce: match r.nonce {
            Some(n) => Some(n ^ spec_stream64(k, NONCE_LANE)),
            None => None,
        },
    }
}

/// A record encrypted under a view key.  Only the masked payloads and the
/// clear framing (entry names and count) are carried.
#[derive(Debug, PartialEq, Eq)]
pub struct EncryptedRecord {
    pub owner: Vec<u8>,
    pub gates: u64,
    pub entries: Vec<(String, UserInputValueType)>,
    pub nonce: Option<u64>,
}

impl View for EncryptedRecord {
    type V = RecordV;

    open spec fn view(&self) -> RecordV {
        RecordV {
            owner: self.owner@,
            gates: self.gates,
            entries: self.entries@.map_values(
                |p: (String, UserInputValueType)| (p.0@, p.1@),
            ),
            nonce: self.nonce,
        }
    }
}

fn mask_owner(owner: &Vec<u8>, k: u64) -> (r: Vec<u8>)
    ensures
        r@ == Seq::new(owner@.len(), |i: int| owner@[i] ^ spec_stream8(k, i as u64)),
{
    let mut r: Vec<u8> = Vec::new();
    let mut i: usize = 0;
    while i < owner.len()
        invariant
            i <= owner@.len(),
            r@ == Seq::new(i as nat, |j: int| owner@[j] ^ spec_stream8(k, j as u64)),
        decreases owner@.len() - i,
    {
        r.push(owner[i] ^ stream8(k, i as u64));
        proof {
            assert(r@ =~= Seq::new((i + 1) as nat, |j: int| owner@[j] ^ spec_stream8(k, j as u64)));
        }
        i = i + 1;
    }
    proof {
        assert(r@ =~= Seq::new(owner@.len(), |i: int| owner@[i] ^ spec_stream8(k, i as u64)));
    }
    r
}

fn mask_value(v: &UserInputValueType, k: u64, lane: u64) -> (r: UserInputValueType)
    ensures
        r@ == spec_mask_value(v@, k, lane),
{
    match v {
        UserInputValueType::U8(x) => UserInputValueType::U8(*x ^ stream8(k, lane)),
        UserInputValueType::U16(x) => {
            let w = stream64(k, lane);
            proof {
                assert(w & 0xffff < 0x1_0000) by (bit_vector);
            }
            UserInputValueType::U16(*x ^ (w & 0xffff) as u16)
        },
        UserInputValueType::U32(x) => {
            let w = stream64(k, lane);
            proof {
                assert(w & 0xffff_ffff < 0x1_0000_0000) by (bit_vector);
            }
            UserInputValueType::U32(*x ^ (w & 0xffff_ffff) as u32)
        },
        UserInputValueType::U64(x) => UserInputValueType::U64(*x ^ stream64(k, lane)),
        UserInputValueType::U128(x) => {
            let hi = stream64(k, lane) as u128;
            let lo = stream64(k, lane.wrapping_add(1)) as u128;
            UserInputValueType::U128(*x ^ ((hi << 64u128) | lo))
        },
        UserInputValueType::Boolean(b) => UserInputValueType::Boolean(
            *b ^ ((stream64(k, lane) & 1) == 1),
        ),
        UserInputValueType::Field(x) => UserInputValueType::Field(*x ^ stream64(k, lane)),
        UserInputValueType::Address(bs) => {
            let mut masked: Vec<u8> = Vec::new();
            let mut j: usize = 0;
            while j < bs.len()
                invariant
                    j <= bs@.len(),
                    masked@ == Seq::new(
                        j as nat,
                        |q: int| bs@[q] ^ spec_stream8(
                            k,
                            u64_specs::wrapping_add(lane, u64_specs::wrapping_add(q as u64, 1)),
                        ),
                    ),
                decreases bs@.len() - j,
            {
                masked.push(bs[j] ^ stream8(k, lane.wrapping_add((j as u64).wrapping_add(1))));
                proof {
                    assert(masked@ =~= Seq::new(
                        (j + 1) as nat,
                        |q: int| bs@[q] ^ spec_stream8(
                            k,
                            u64_specs::wrapping_add(lane, u64_specs::wrapping_add(q as u64, 1)),
                        ),
                    ));
                }
                j = j + 1;
            }
            proof {
                assert(masked@ =~= Seq::new(
                    bs@.len(),
                    |q: int| bs@[q] ^ spec_stream8(
                        k,
                        u64_specs::wrapping_add(lane, u64_specs::wrapping_add(q as u64, 1)),
                    ),
                ));
            }
            UserInputValueType::Address(masked)
        },
    }
}

fn mask_entries(entries: &Vec<(String, UserInputValueType)>, k: u64) -> (r: Vec<
    (String, UserInputValueType),
>)
    ensures
        r@.map_values(|p: (String, UserInputValueType)| (p.0@, p.1@)) == Seq::new(
            entries@.len(),
            |i: int| {
                let ev = entries@.map_values(|p: (String, UserInputValueType)| (p.0@, p.1@));
                (ev[i].0, spec_mask_value(ev[i].1, k, spec_entry_lane(i)))
            },
        ),
{
    let ghost ev = entries@.map_values(|p: (String, UserInputValueType)| (p.0@, p.1@));
    let mut r: Vec<(String, UserInputValueType)> = Vec::new();
    let mut i: usize = 0;
    while i < entries.len()
        invariant
            i <= entries@.len(),
            ev == entries@.map_values(|p: (String, UserInputValueType)| (p.0@, p.1@)),
            r@.len() == i,
            forall|j: int|
                0 <= j < i ==> (#[trigger] r@[j]).0@ == ev[j].0 && r@[j].1@ == spec_mask_value(
                    ev[j].1,
                    k,
                    spec_entry_lane(j),
                ),
        decreases entries@.len() - i,
    {
        let name = entries[i].0.clone();
        let masked = mask_value(&entries[i].1, k, entry_lane(i));
        proof {
            assert(ev[i as int] == (entries@[i as int].0@, entries@[i as int].1@));
        }
        r.push((name, masked));
        i = i + 1;
    }
    proof {
        assert(r@.map_values(|p: (String, UserInputValueType)| (p.0@, p.1@)) =~= Seq::new(
            entries@.len(),
            |j: int| (ev[j].0, spec_mask_value(ev[j].1, k, spec_entry_lane(j))),
        ));
    }
    r
}

impl Record {
    /// Encrypts this record under the viewer's key, producing the only
    /// artifact that leaves a produced-record projection.
    pub fn encrypt(&self, view_key: &ViewKey) -> (c: EncryptedRecord)
        ensures
            c@ == spec_encrypt(self@, view_key.seed),
    {
        let k = view_key.seed;
        let owner = mask_owner(&self.owner, k);
        let gates = self.gates ^ stream64(k, GATES_LANE);
        let entries = mask_entries(&self.entries, k);
        let nonce = match self.nonce {
            Some(n) => Some(n ^ stream64(k, NONCE_LANE)),
            None => None,
        };
        let c = EncryptedRecord { owner, gates, entries, nonce };
        proof {
            assert(c@.entries =~= spec_encrypt(self@, view_key.seed).entries);
            assert(c@ =~= spec_encrypt(self@, view_key.seed));
        }
        c
    }
}

impl EncryptedRecord {
    /// Decrypts with the view key the record was produced for, recovering
    /// the plaintext record.
    pub fn decrypt(&self, view_key: &ViewKey) -> (r: Record)
        ensures
            r@ == spec_encrypt(self@, view_key.seed),
    {
        let k = view_key.seed;
        let owner = mask_owner(&self.owner, k);
        let gates = self.gates ^ stream64(k, GATES_LANE);
        let entries = mask_entries(&self.entries, k);
        let nonce = match self.nonce {
            Some(n) => Some(n ^ stream64(k, NONCE_LANE)),
            None => None,
        };
        let r = Record { owner, gates, entries, nonce };
        proof {
            assert(r@.entries =~= spec_encrypt(self@, view_key.seed).entries);
            assert(r@ =~= spec_encrypt(self@, view_key.seed));
        }
        r
    }
}

/// Masking one value twice with the same key and lane gives the value back.
pub proof fn lemma_mask_value_involution(v: ValueV, k: u64, lane: u64)
    ensures
        spec_mask_value(spec_mask_value(v, k, lane), k, lane) == v,
{
    match v {
        ValueV::U8(x) => {
            let m = spec_stream8(k, lane);
            assert((x ^ m) ^ m == x) by (bit_vector);
        },
        ValueV::U16(x) => {
            let m = (spec_stream64(k, lane) & 0xffff) as u16;
            assert((x ^ m) ^ m == x) by (bit_vector);
        },
        ValueV::U32(x) => {
            let m = (spec_stream64(k, lane) & 0xffff_ffff) as u32;
            assert((x ^ m) ^ m == x) by (bit_vector);
        },
        ValueV::U64(x) => {
            let m = spec_stream64(k, lane);
            assert((x ^ m) ^ m == x) by (bit_vector);
        },
        ValueV::U128(x) => {
            let m = ((spec_stream64(k, lane) as u128) << 64) | (spec_stream64(
                k,
                u64_specs::wrapping_add(lane, 1),
            ) as u128);
            assert((x ^ m) ^ m == x) by (bit_vector);
        },
        ValueV::Boolean(b) => {
            let m = (spec_stream64(k, lane) & 1) == 1;
            assert((b ^ m) ^ m == b);
        },
        ValueV::Field(x) => {
            let m = spec_stream64(k, lane);
            assert((x ^ m) ^ m == x) by (bit_vector);
        },
        ValueV::Address(bs) => {
            let once = spec_mask_value(v, k, lane);
            let twice = spec_mask_value(once, k, lane);
            assert forall|j: int| 0 <= j < bs.len() implies twice->Address_0[j] == bs[j] by {
                let m = spec_stream8(
                    k,
                    u64_specs::wrapping_add(lane, u64_specs::wrapping_add(j as u64, 1)),
                );
                let x = bs[j];
                assert((x ^ m) ^ m == x) by (bit_vector);
            }
            assert(twice->Address_0 =~= bs);
            assert(twice =~= v);
        },
    }
}

/// Law: a record encrypted under a view key and decrypted with the same
/// view key is recovered exactly — owner buffer byte for byte, balance,
/// entries and nonce all unchanged.
pub proof fn lemma_encrypt_decrypt_roundtrip(r: RecordV, k: u64)
    ensures
        spec_encrypt(spec_encrypt(r, k), k) == r,
{
    let once = spec_encrypt(r, k);
    let twice = spec_encrypt(once, k);
    assert forall|i: int| 0 <= i < r.owner.len() implies twice.owner[i] == r.owner[i] by {
        let m = spec_stream8(k, i as u64);
        let x = r.owner[i];
        assert((x ^ m) ^ m == x) by (bit_vector);
    }
    assert(twice.owner =~= r.owner);
    let mg = spec_stream64(k, GATES_LANE);
    let xg = r.gates;
    assert((xg ^ mg) ^ mg == xg) by (bit_vector);
    assert forall|i: int| 0 <= i < r.entries.len() implies twice.entries[i] == r.entries[i] by {
        lemma_mask_value_involution(r.entries[i].1, k, spec_entry_lane(i));
    }
    assert(twice.entries =~= r.entries);
    match r.nonce {
        Some(n) => {
            let mn = spec_stream64(k, NONCE_LANE);
            assert((n ^ mn) ^ mn == n) by (bit_vector);
        },
        None => {},
    }
    assert(twice =~= r);
}

} // verus!

//! The visibility projector and record materializer.
//!
//! Walks a function's declared input and output registers, resolves each
//! against the register assignment table, and produces the ordered sequence
//! of ledger-facing projected values, enforcing the visibility and nesting
//! rules: records must be private, record entries must not nest records,
//! input records are consumed (nullifier derived under the spender's
//! private key), output records are produced (encrypted under the viewer's
//! view key).

use crate::circuit_io_type::circuit_record_wf;
use crate::circuit_io_type::circuit_value_wf;
use crate::circuit_io_type::entry_value_wf;
use crate::circuit_io_type::spec_is_witness;
use crate::circuit_io_type::CircuitIOType;
use crate::circuit_io_type::CircuitRecord;
use crate::encrypt::spec_encrypt;
use crate::errors::ErrorV;
use crate::errors::ExecutionError;
use crate::keys::PrivateKey;
use crate::keys::ViewKey;
use crate::program::Function;
use crate::record::spec_record_serial;
use crate::record::Record;
use crate::record::RecordV;
use crate::registers::spec_resolve;
use crate::registers::table_wf;
use crate::registers::SimpleFunctionVariables;
use crate::values::spec_address_bytes;
use crate::values::to_address;
use crate::values::UserInputValueType;
use crate::values::ValueV;
use crate::variable_type::VariableType;
use crate::variable_type::VariableV;
use vstd::prelude::*;

verus! {

/// The projected inputs of a function: register name and projected value,
/// in declaration order.
pub type CircuitInputType = Vec<(String, VariableType)>;

/// The projected outputs of a function, in declaration order.
pub type CircuitOutputType = Vec<(String, VariableType)>;

/// Extraction of the primitive witness of a non-record value.  A record in
/// this position is an entry nesting a record, which is unsupported.
pub open spec fn spec_primitive(v: CircuitIOType) -> Result<ValueV, ErrorV> {
    match v {
        CircuitIOType::SimpleUInt8(g) => match g.assignment {
            Some(x) => Ok(ValueV::U8(x)),
            None => Err(ErrorV::UnassignedWitness),
        },
        CircuitIOType::SimpleUInt16(g) => match g.assignment {
            Some(x) => Ok(ValueV::U16(x)),
            None => Err(ErrorV::UnassignedWitness),
        },
        CircuitIOType::SimpleUInt32(g) => match g.assignment {
            Some(x) => Ok(ValueV::U32(x)),
            None => Err(ErrorV::UnassignedWitness),
        },
        CircuitIOType::SimpleUInt64(g) => match g.assignment {
            Some(x) => Ok(ValueV::U64(x)),
            None => Err(ErrorV::UnassignedWitness),
        },
        CircuitIOType::SimpleUInt128(g) => match g.assignment {
            Some(x) => Ok(ValueV::U128(x)),
            None => Err(ErrorV::UnassignedWitness),
        },
        CircuitIOType::SimpleBoolean(g) => match g.assignment {
            Some(b) => Ok(ValueV::Boolean(b)),
            None => Err(ErrorV::UnassignedWitness),
        },
        CircuitIOType::SimpleField(g) => match g.assignment {
            Some(x) => Ok(ValueV::Field(x)),
            None => Err(ErrorV::UnassignedWitness),
        },
        CircuitIOType::SimpleAddress(g) => match g.assignment {
            Some(s) => Ok(ValueV::Address(spec_address_bytes(s@))),
            None => Err(ErrorV::UnassignedWitness),
        },
        CircuitIOType::SimpleRecord(_) => Err(ErrorV::NestedRecordsUnsupported),
    }
}

/// Extraction of a record's entries, in declaration order, stopping at the
/// first failing entry.
pub open spec fn spec_entries(entries: Seq<(String, CircuitIOType)>) -> Result<
    Seq<(Seq<char>, ValueV)>,
    ErrorV,
>
    decreases entries.len(),
{
    if entries.len() == 0 {
        Ok(Seq::empty())
    } else {
        match spec_entries(entries.drop_last()) {
            Err(e) => Err(e),
            Ok(s) => match spec_primitive(entries.last().1) {
                Err(e) => Err(e),
                Ok(v) => Ok(s.push((entries.last().0@, v))),
            },
        }
    }
}

/// Materialization of an in-circuit record into a plaintext record:
/// entries first, then owner, then balance; the nonce the circuit bound is
/// carried over.
pub open spec fn spec_materialize(r: CircuitRecord) -> Result<RecordV, ErrorV> {
    match spec_entries(r.entries@) {
        Err(e) => Err(e),
        Ok(es) => match r.owner.assignment {
            None => Err(ErrorV::UnassignedWitness),
            Some(o) => match r.gates.assignment {
                None => Err(ErrorV::UnassignedWitness),
                Some(g) => Ok(
                    RecordV {
                        owner: spec_address_bytes(o@),
                        gates: g,
                        entries: es,
                        nonce: Some(r.nonce),
                    },
                ),
            },
        },
    }
}

/// Projection of one resolved input register: witnesses become `Private`,
/// non-witnesses `Public`; a witness record is consumed, yielding its
/// nullifier under the spender's key; a non-witness record is rejected.
pub open spec fn spec_project_input_value(v: CircuitIOType, pk_seed: u64) -> Result<
    VariableV,
    ErrorV,
> {
    if spec_is_witness(v) {
        match v {
            CircuitIOType::SimpleRecord(r) => match spec_materialize(r) {
                Err(e) => Err(e),
                Ok(rec) => Ok(VariableV::Record(Some(spec_record_serial(rec, pk_seed)), rec)),
            },
            _ => match spec_primitive(v) {
                Err(e) => Err(e),
                Ok(p) => Ok(VariableV::Private(p)),
            },
        }
    } else {
        match v {
            CircuitIOType::SimpleRecord(_) => Err(ErrorV::RecordMustBePrivate),
            _ => match spec_primitive(v) {
                Err(e) => Err(e),
                Ok(p) => Ok(VariableV::Public(p)),
            },
        }
    }
}

/// Projection of one resolved output register.  A witness record is
/// produced: encrypted under the viewer's key.  Among non-witness outputs
/// only booleans and fields are tagged `Public`; every other non-witness
/// output scalar is tagged `Private`.  This asymmetry is deliberate: the
/// ledger's proof verification depends on the exact visibility tagging,
/// so it must not be silently normalized.
pub open spec fn spec_project_output_value(v: CircuitIOType, vk_seed: u64) -> Result<
    VariableV,
    ErrorV,
> {
    if spec_is_witness(v) {
        match v {
            CircuitIOType::SimpleRecord(r) => match spec_materialize(r) {
                Err(e) => Err(e),
                Ok(rec) => Ok(VariableV::EncryptedRecord(spec_encrypt(rec, vk_seed))),
            },
            _ => match spec_primitive(v) {
                Err(e) => Err(e),
                Ok(p) => Ok(VariableV::Private(p)),
            },
        }
    } else {
        match v {
            CircuitIOType::SimpleRecord(_) => Err(ErrorV::RecordMustBePrivate),
            CircuitIOType::SimpleBoolean(_) | CircuitIOType::SimpleField(_) => match spec_primitive(
                v,
            ) {
                Err(e) => Err(e),
                Ok(p) => Ok(VariableV::Public(p)),
            },
            _ => match spec_primitive(v) {
                Err(e) => Err(e),
                Ok(p) => Ok(VariableV::Private(p)),
            },
        }
    }
}

/// Projection of a declared input register list against the table, in
/// declaration order, stopping at the first failing register.
pub open spec fn spec_project_inputs(
    regs: Seq<Seq<char>>,
    table: Seq<(Seq<char>, Option<CircuitIOType>)>,
    pk_seed: u64,
) -> Result<Seq<(Seq<char>, VariableV)>, ErrorV>
    decreases regs.len(),
{
    if regs.len() == 0 {
        Ok(Seq::empty())
    } else {
        match spec_project_inputs(regs.drop_last(), table, pk_seed) {
            Err(e) => Err(e),
            Ok(s) => match spec_resolve(table, regs.last()) {
                Err(e) => Err(e),
                Ok(v) => match spec_project_input_value(v, pk_seed) {
                    Err(e) => Err(e),
                    Ok(pv) => Ok(s.push((regs.last(), pv))),
                },
            },
        }
    }
}

/// Projection of a declared output register list, in declaration order.
pub open spec fn spec_project_outputs(
    regs: Seq<Seq<char>>,
    table: Seq<(Seq<char>, Option<CircuitIOType>)>,
    vk_seed: u64,
) -> Result<Seq<(Seq<char>, VariableV)>, ErrorV>
    decreases regs.len(),
{
    if regs.len() == 0 {
        Ok(Seq::empty())
    } else {
        match spec_project_outputs(regs.drop_last(), table, vk_seed) {
            Err(e) => Err(e),
            Ok(s) => match spec_resolve(table, regs.last()) {
                Err(e) => Err(e),
                Ok(v) => match spec_project_output_value(v, vk_seed) {
                    Err(e) => Err(e),
                    Ok(pv) => Ok(s.push((regs.last(), pv))),
                },
            },
        }
    }
}

fn extract_primitive(v: &CircuitIOType) -> (r: Result<UserInputValueType, ExecutionError>)
    requires
        entry_value_wf(*v),
    ensures
        match r {
            Ok(p) => spec_primitive(*v) == Ok::<ValueV, ErrorV>(p@),
            Err(e) => spec_primitive(*v) matches Err(ev) && e@ == ev,
        },
{
    match v {
        CircuitIOType::SimpleUInt8(g) => match g.assignment {
            Some(x) => Ok(UserInputValueType::U8(x)),
            None => Err(ExecutionError::UnassignedWitness),
        },
        CircuitIOType::SimpleUInt16(g) => match g.assignment {
            Some(x) => Ok(UserInputValueType::U16(x)),
            None => Err(ExecutionError::UnassignedWitness),
        },
        CircuitIOType::SimpleUInt32(g) => match g.assignment {
            Some(x) => Ok(UserInputValueType::U32(x)),
            None => Err(ExecutionError::UnassignedWitness),
        },
        CircuitIOType::SimpleUInt64(g) => match g.assignment {
            Some(x) => Ok(UserInputValueType::U64(x)),
            None => Err(ExecutionError::UnassignedWitness),
        },
        CircuitIOType::SimpleUInt128(g) => match g.assignment {
            Some(x) => Ok(UserInputValueType::U128(x)),
            None => Err(ExecutionError::UnassignedWitness),
        },
        CircuitIOType::SimpleBoolean(g) => match g.assignment {
            Some(b) => Ok(UserInputValueType::Boolean(b)),
            None => Err(ExecutionError::UnassignedWitness),
        },
        CircuitIOType::SimpleField(g) => match g.assignment {
            Some(x) => Ok(UserInputValueType::Field(x)),
            None => Err(ExecutionError::UnassignedWitness),
        },
        CircuitIOType::SimpleAddress(g) => match &g.assignment {
            Some(s) => Ok(UserInputValueType::Address(to_address(s))),
            None => Err(ExecutionError::UnassignedWitness),
        },
        CircuitIOType::SimpleRecord(_) => Err(ExecutionError::NestedRecordsUnsupported),
    }
}

/// An error among the first `j` entries decides the whole extraction.
proof fn lemma_entries_prefix_err(entries: Seq<(String, CircuitIOType)>, j: int)
    requires
        0 <= j <= entries.len(),
        spec_entries(entries.take(j)) is Err,
    ensures
        spec_entries(entries) == spec_entries(entries.take(j)),
    decreases entries.len(),
{
    if j < entries.len() {
        assert(entries.drop_last().take(j) =~= entries.take(j));
        lemma_entries_prefix_err(entries.drop_last(), j);
        assert(entries.take(entries.len() as int) =~= entries);
    } else {
        assert(entries.take(j) =~= entries);
    }
}

/// Builds the plaintext record an in-circuit record materializes to:
/// entries extracted in declaration order (a nested record is rejected),
/// then owner and balance, with the circuit-bound nonce carried over.
pub fn materialize_record(r: &CircuitRecord) -> (res: Result<Record, ExecutionError>)
    requires
        circuit_record_wf(*r),
    ensures
        match res {
            Ok(rec) => spec_materialize(*r) == Ok::<RecordV, ErrorV>(rec@),
            Err(e) => spec_materialize(*r) matches Err(ev) && e@ == ev,
        },
{
    let mut entries: Vec<(String, UserInputValueType)> = Vec::new();
    let mut i: usize = 0;
    proof {
        assert(r.entries@.take(0) =~= Seq::<(String, CircuitIOType)>::empty());
        assert(entries@.map_values(|p: (String, UserInputValueType)| (p.0@, p.1@)) =~= Seq::<
            (Seq<char>, ValueV),
        >::empty());
    }
    while i < r.entries.len()
        invariant
            i <= r.entries@.len(),
            circuit_record_wf(*r),
            spec_entries(r.entries@.take(i as int)) == Ok::<Seq<(Seq<char>, ValueV)>, ErrorV>(
                entries@.map_values(|p: (String, UserInputValueType)| (p.0@, p.1@)),
            ),
        decreases r.entries@.len() - i,
    {
        let ghost prefix = r.entries@.take(i as int);
        proof {
            assert(r.entries@.take(i + 1).drop_last() =~= prefix);
            assert(r.entries@.take(i + 1).last() == r.entries@[i as int]);
            assert(entry_value_wf(r.entries@[i as int].1));
        }
        let name = r.entries[i].0.clone();
        match extract_primitive(&r.entries[i].1) {
            Ok(v) => {
                let ghost before = entries@;
                entries.push((name, v));
                proof {
                    assert(entries@.map_values(|p: (String, UserInputValueType)| (p.0@, p.1@))
                        =~= before.map_values(|p: (String, UserInputValueType)| (p.0@, p.1@)).push(
                        (r.entries@[i as int].0@, v@),
                    ));
                }
            },
            Err(e) => {
                proof {
                    assert(spec_entries(r.entries@.take(i + 1)) is Err);
                    lemma_entries_prefix_err(r.entries@, i + 1);
                }
                return Err(e);
            },
        }
        i = i + 1;
    }
    proof {
        assert(r.entries@.take(r.entries@.len() as int) =~= r.entries@);
    }
    let owner = match &r.owner.assignment {
        Some(s) => to_address(s),
        None => {
            return Err(ExecutionError::UnassignedWitness);
        },
    };
    let gates = match r.gates.assignment {
        Some(g) => g,
        None => {
            return Err(ExecutionError::UnassignedWitness);
        },
    };
    Ok(Record::new(owner, gates, entries, Some(r.nonce)))
}

/// Consume operation of the record materializer: builds the plaintext
/// record and derives the nullifier that marks it spent by the holder of
/// `private_key`.
pub fn consume_record(r: &CircuitRecord, private_key: &PrivateKey) -> (res: Result<
    (u64, Record),
    ExecutionError,
>)
    requires
        circuit_record_wf(*r),
    ensures
        match res {
            Ok(p) => spec_materialize(*r) == Ok::<RecordV, ErrorV>(p.1@) && p.0
                == spec_record_serial(p.1@, private_key.seed),
            Err(e) => spec_materialize(*r) matches Err(ev) && e@ == ev,
        },
{
    match materialize_record(r) {
        Ok(rec) => {
            let sn = rec.serial_number(private_key);
            Ok((sn, rec))
        },
        Err(e) => Err(e),
    }
}

/// Produce operation of the record materializer: builds the plaintext
/// record and encrypts it under the viewer's key; the ciphertext is the
/// only thing leaving this step.
pub fn produce_record(r: &CircuitRecord, view_key: &ViewKey) -> (res: Result<
    crate::encrypt::EncryptedRecord,
    ExecutionError,
>)
    requires
        circuit_record_wf(*r),
    ensures
        match res {
            Ok(c) => spec_materialize(*r) matches Ok(rec) && c@ == spec_encrypt(
                rec,
                view_key.seed,
            ),
            Err(e) => spec_materialize(*r) matches Err(ev) && e@ == ev,
        },
{
    match materialize_record(r) {
        Ok(rec) => Ok(rec.encrypt(view_key)),
        Err(e) => Err(e),
    }
}

fn project_input_value(v: &CircuitIOType, private_key: &PrivateKey) -> (r: Result<
    VariableType,
    ExecutionError,
>)
    requires
        circuit_value_wf(*v),
    ensures
        match r {
            Ok(pv) => spec_project_input_value(*v, private_key.seed) == Ok::<VariableV, ErrorV>(
                pv@,
            ),
            Err(e) => spec_project_input_value(*v, private_key.seed) matches Err(ev) && e@ == ev,
        },
{
    if v.is_witness() {
        match v {
            CircuitIOType::SimpleRecord(r) => match consume_record(r, private_key) {
                Ok((sn, rec)) => Ok(VariableType::Record(Some(sn), rec)),
                Err(e) => Err(e),
            },
            _ => match extract_primitive(v) {
                Ok(p) => Ok(VariableType::Private(p)),
                Err(e) => Err(e),
            },
        }
    } else {
        match v {
            CircuitIOType::SimpleRecord(_) => Err(ExecutionError::RecordMustBePrivate),
            _ => match extract_primitive(v) {
                Ok(p) => Ok(VariableType::Public(p)),
                Err(e) => Err(e),
            },
        }
    }
}

fn project_output_value(v: &CircuitIOType, view_key: &ViewKey) -> (r: Result<
    VariableType,
    ExecutionError,
>)
    requires
        circuit_value_wf(*v),
    ensures
        match r {
            Ok(pv) => spec_project_output_value(*v, view_key.seed) == Ok::<VariableV, ErrorV>(pv@),
            Err(e) => spec_project_output_value(*v, view_key.seed) matches Err(ev) && e@ == ev,
        },
{
    if v.is_witness() {
        match v {
            CircuitIOType::SimpleRecord(r) => match produce_record(r, view_key) {
                Ok(c) => Ok(VariableType::EncryptedRecord(c)),
                Err(e) => Err(e),
            },
            _ => match extract_primitive(v) {
                Ok(p) => Ok(VariableType::Private(p)),
                Err(e) => Err(e),
            },
        }
    } else {
        match v {
            CircuitIOType::SimpleRecord(_) => Err(ExecutionError::RecordMustBePrivate),
            CircuitIOType::SimpleBoolean(_) => match extract_primitive(v) {
                Ok(p) => Ok(VariableType::Public(p)),
                Err(e) => Err(e),
            },
            CircuitIOType::SimpleField(_) => match extract_primitive(v) {
                Ok(p) => Ok(VariableType::Public(p)),
                Err(e) => Err(e),
            },
            _ => match extract_primitive(v) {
                Ok(p) => Ok(VariableType::Private(p)),
                Err(e) => Err(e),
            },
        }
    }
}

/// An error among the first `j` declared inputs decides the projection.
proof fn lemma_project_inputs_prefix_err(
    regs: Seq<Seq<char>>,
    table: Seq<(Seq<char>, Option<CircuitIOType>)>,
    pk_seed: u64,
    j: int,
)
    requires
        0 <= j <= regs.len(),
        spec_project_inputs(regs.take(j), table, pk_seed) is Err,
    ensures
        spec_project_inputs(regs, table, pk_seed) == spec_project_inputs(
            regs.take(j),
            table,
            pk_seed,
        ),
    decreases regs.len(),
{
    if j < regs.len() {
        assert(regs.drop_last().take(j) =~= regs.take(j));
        lemma_project_inputs_prefix_err(regs.drop_last(), table, pk_seed, j);
    } else {
        assert(regs.take(j) =~= regs);
    }
}

/// An error among the first `j` declared outputs decides the projection.
proof fn lemma_project_outputs_prefix_err(
    regs: Seq<Seq<char>>,
    table: Seq<(Seq<char>, Option<CircuitIOType>)>,
    vk_seed: u64,
    j: int,
)
    requires
        0 <= j <= regs.len(),
        spec_project_outputs(regs.take(j), table, vk_seed) is Err,
    ensures
        spec_project_outputs(regs, table, vk_seed) == spec_project_outputs(
            regs.take(j),
            table,
            vk_seed,
        ),
    decreases regs.len(),
{
    if j < regs.len() {
        assert(regs.drop_last().take(j) =~= regs.take(j));
        lemma_project_outputs_prefix_err(regs.drop_last(), table, vk_seed, j);
    } else {
        assert(regs.take(j) =~= regs);
    }
}

/// Projects a function's declared inputs against the circuit assignment,
/// consuming each record input under the spender's private key.  The
/// result preserves the declared register order.
pub fn process_circuit_inputs(
    function: &Function,
    program_variables: &SimpleFunctionVariables,
    private_key: &PrivateKey,
) -> (r: Result<CircuitInputType, ExecutionError>)
    requires
        table_wf(program_variables@),
    ensures
        match r {
            Ok(pairs) => spec_project_inputs(function@.inputs, program_variables@, private_key.seed)
                == Ok::<Seq<(Seq<char>, VariableV)>, ErrorV>(
                pairs@.map_values(|p: (String, VariableType)| (p.0@, p.1@)),
            ),
            Err(e) => spec_project_inputs(function@.inputs, program_variables@, private_key.seed)
                matches Err(ev) && e@ == ev,
        },
{
    let ghost regs = function@.inputs;
    let mut pairs: CircuitInputType = Vec::new();
    let mut i: usize = 0;
    proof {
        assert(regs.take(0) =~= Seq::<Seq<char>>::empty());
        assert(pairs@.map_values(|p: (String, VariableType)| (p.0@, p.1@)) =~= Seq::<
            (Seq<char>, VariableV),
        >::empty());
    }
    while i < function.inputs.len()
        invariant
            i <= regs.len(),
            regs == function@.inputs,
            table_wf(program_variables@),
            spec_project_inputs(regs.take(i as int), program_variables@, private_key.seed) == Ok::<
                Seq<(Seq<char>, VariableV)>,
                ErrorV,
            >(pairs@.map_values(|p: (String, VariableType)| (p.0@, p.1@))),
        decreases regs.len() - i,
    {
        proof {
            assert(regs.take(i + 1).drop_last() =~= regs.take(i as int));
            assert(regs.take(i + 1).last() == regs[i as int]);
        }
        let register = function.inputs[i].clone();
        let value = match program_variables.get(&register) {
            Ok(v) => v,
            Err(e) => {
                proof {
                    lemma_project_inputs_prefix_err(regs, program_variables@, private_key.seed, i
                        + 1);
                }
                return Err(e);
            },
        };
        proof {
            crate::registers::lemma_resolve_wf(program_variables@, register@);
        }
        let projected = match project_input_value(value, private_key) {
            Ok(pv) => pv,
            Err(e) => {
                proof {
                    lemma_project_inputs_prefix_err(regs, program_variables@, private_key.seed, i
                        + 1);
                }
                return Err(e);
            },
        };
        let ghost before = pairs@;
        pairs.push((register, projected));
        proof {
            assert(pairs@.map_values(|p: (String, VariableType)| (p.0@, p.1@)) =~= before
                .map_values(|p: (String, VariableType)| (p.0@, p.1@)).push(
                (regs[i as int], projected@),
            ));
        }
        i = i + 1;
    }
    proof {
        assert(regs.take(regs.len() as int) =~= regs);
    }
    Ok(pairs)
}

/// Projects a function's declared outputs against the circuit assignment,
/// producing each record output encrypted under the viewer's key.  The
/// result preserves the declared register order.
pub fn process_circuit_outputs(
    function: &Function,
    program_variables: &SimpleFunctionVariables,
    view_key: ViewKey,
) -> (r: Result<CircuitOutputType, ExecutionError>)
    requires
        table_wf(program_variables@),
    ensures
        match r {
            Ok(pairs) => spec_project_outputs(function@.outputs, program_variables@, view_key.seed)
                == Ok::<Seq<(Seq<char>, VariableV)>, ErrorV>(
                pairs@.map_values(|p: (String, VariableType)| (p.0@, p.1@)),
            ),
            Err(e) => spec_project_outputs(function@.outputs, program_variables@, view_key.seed)
                matches Err(ev) && e@ == ev,
        },
{
    let ghost regs = function@.outputs;
    let mut pairs: CircuitOutputType = Vec::new();
    let mut i: usize = 0;
    proof {
        assert(regs.take(0) =~= Seq::<Seq<char>>::empty());
        assert(pairs@.map_values(|p: (String, VariableType)| (p.0@, p.1@)) =~= Seq::<
            (Seq<char>, VariableV),
        >::empty());
    }
    while i < function.outputs.len()
        invariant
            i <= regs.len(),
            regs == function@.outputs,
            table_wf(program_variables@),
            spec_project_outputs(regs.take(i as int), program_variables@, view_key.seed) == Ok::<
                Seq<(Seq<char>, VariableV)>,
                ErrorV,
            >(pairs@.map_values(|p: (String, VariableType)| (p.0@, p.1@))),
        decreases regs.len() - i,
    {
        proof {
            assert(regs.take(i + 1).drop_last() =~= regs.take(i as int));
            assert(regs.take(i + 1).last() == regs[i as int]);
        }
        let register = function.outputs[i].clone();
        let value = match program_variables.get(&register) {
            Ok(v) => v,
            Err(e) => {
                proof {
                    lemma_project_outputs_prefix_err(regs, program_variables@, view_key.seed, i
                        + 1);
                }
                return Err(e);
            },
        };
        proof {
            crate::registers::lemma_resolve_wf(program_variables@, register@);
        }
        let projected = match project_output_value(value, &view_key) {
            Ok(pv) => pv,
            Err(e) => {
                proof {
                    lemma_project_outputs_prefix_err(regs, program_variables@, view_key.seed, i
                        + 1);
                }
                return Err(e);
            },
        };
        let ghost before = pairs@;
        pairs.push((register, projected));
        proof {
            assert(pairs@.map_values(|p: (String, VariableType)| (p.0@, p.1@)) =~= before
                .map_values(|p: (String, VariableType)| (p.0@, p.1@)).push(
                (regs[i as int], projected@),
            ));
        }
        i = i + 1;
    }
    proof {
        assert(regs.take(regs.len() as int) =~= regs);
    }
    Ok(pairs)
}

/// Every entry of a successfully extracted record extracted cleanly.
proof fn lemma_entries_ok_implies_all_ok(entries: Seq<(String, CircuitIOType)>)
    requires
        spec_entries(entries) is Ok,
    ensures
        forall|i: int| 0 <= i < entries.len() ==> spec_primitive(#[trigger] entries[i].1) is Ok,
    decreases entries.len(),
{
    if entries.len() > 0 {
        lemma_entries_ok_implies_all_ok(entries.drop_last());
        assert(forall|i: int|
            0 <= i < entries.len() - 1 ==> entries.drop_last()[i] == #[trigger] entries[i]);
    }
}

/// A prefix whose entries all extract cleanly extracts to some sequence.
proof fn lemma_entries_all_ok_prefix(entries: Seq<(String, CircuitIOType)>, j: int)
    requires
        0 <= j <= entries.len(),
        forall|i: int| 0 <= i < j ==> spec_primitive(#[trigger] entries[i].1) is Ok,
    ensures
        spec_entries(entries.take(j)) is Ok,
    decreases j,
{
    if j > 0 {
        lemma_entries_all_ok_prefix(entries, j - 1);
        assert(entries.take(j).drop_last() =~= entries.take(j - 1));
        assert(entries.take(j).last() == entries[j - 1]);
    } else {
        assert(entries.take(0) =~= Seq::<(String, CircuitIOType)>::empty());
    }
}

/// Law: a record among a record's entries is fatal.  Materializing a
/// record whose entries contain a nested record always fails; and when
/// every entry before the first nested one extracts cleanly, the failure
/// is `NestedRecordsUnsupported`.
pub proof fn lemma_nested_record_rejected(r: CircuitRecord, i: int)
    requires
        0 <= i < r.entries@.len(),
        r.entries@[i].1 is SimpleRecord,
    ensures
        spec_materialize(r) is Err,
        (forall|j: int| 0 <= j < i ==> spec_primitive(#[trigger] r.entries@[j].1) is Ok)
            ==> spec_materialize(r) == Err::<RecordV, ErrorV>(ErrorV::NestedRecordsUnsupported),
{
    if spec_entries(r.entries@) is Ok {
        lemma_entries_ok_implies_all_ok(r.entries@);
        assert(spec_primitive(r.entries@[i].1) is Ok);
        assert(false);
    }
    if forall|j: int| 0 <= j < i ==> spec_primitive(#[trigger] r.entries@[j].1) is Ok {
        lemma_entries_all_ok_prefix(r.entries@, i);
        assert(r.entries@.take(i + 1).drop_last() =~= r.entries@.take(i));
        assert(r.entries@.take(i + 1).last() == r.entries@[i]);
        assert(spec_entries(r.entries@.take(i + 1)) == Err::<Seq<(Seq<char>, ValueV)>, ErrorV>(
            ErrorV::NestedRecordsUnsupported,
        ));
        lemma_entries_prefix_err(r.entries@, i + 1);
    }
}

/// Law: a record-typed register marked non-witness is rejected with
/// `RecordMustBePrivate`, on the input side and the output side alike.
pub proof fn lemma_public_record_rejected(v: CircuitIOType, key_seed: u64)
    requires
        v is SimpleRecord,
        !spec_is_witness(v),
    ensures
        spec_project_input_value(v, key_seed) == Err::<VariableV, ErrorV>(
            ErrorV::RecordMustBePrivate,
        ),
        spec_project_output_value(v, key_seed) == Err::<VariableV, ErrorV>(
            ErrorV::RecordMustBePrivate,
        ),
{
}

/// Law: a record-typed input that projects successfully always yields a
/// `Record` projected value carrying a nullifier.
pub proof fn lemma_record_input_yields_nullifier(v: CircuitIOType, pk_seed: u64)
    requires
        v is SimpleRecord,
        spec_project_input_value(v, pk_seed) is Ok,
    ensures
        spec_project_input_value(v, pk_seed) matches Ok(pv) && pv matches VariableV::Record(
            sn,
            _,
        ) && sn is Some,
{
}

/// Law: a record-typed output that projects successfully always yields
/// `EncryptedRecord` — never a plaintext-exposing variant.
pub proof fn lemma_record_output_yields_encrypted(v: CircuitIOType, vk_seed: u64)
    requires
        v is SimpleRecord,
        spec_project_output_value(v, vk_seed) is Ok,
    ensures
        spec_project_output_value(v, vk_seed) matches Ok(pv) && pv is EncryptedRecord,
{
}

/// Law: a successful input projection has exactly one projected value per
/// declared register, keyed in declaration order, and the value at each
/// position is exactly the projection of what that register resolves to.
pub proof fn lemma_inputs_preserve_declaration_order(
    regs: Seq<Seq<char>>,
    table: Seq<(Seq<char>, Option<CircuitIOType>)>,
    pk_seed: u64,
)
    ensures
        spec_project_inputs(regs, table, pk_seed) matches Ok(s) ==> s.len() == regs.len() && forall|
            i: int,
        |
            0 <= i < regs.len() ==> {
                &&& (#[trigger] s[i]).0 == regs[i]
                &&& spec_resolve(table, regs[i]) matches Ok(v)
                &&& spec_project_input_value(v, pk_seed) == Ok::<VariableV, ErrorV>(s[i].1)
            },
    decreases regs.len(),
{
    if regs.len() > 0 {
        lemma_inputs_preserve_declaration_order(regs.drop_last(), table, pk_seed);
        assert(forall|i: int|
            0 <= i < regs.len() - 1 ==> regs.drop_last()[i] == #[trigger] regs[i]);
        if spec_project_inputs(regs, table, pk_seed) is Ok {
            let s = spec_project_inputs(regs, table, pk_seed)->Ok_0;
            let prefix = spec_project_inputs(regs.drop_last(), table, pk_seed)->Ok_0;
            assert(forall|i: int| 0 <= i < prefix.len() ==> #[trigger] s[i] == prefix[i]);
        }
    }
}

/// Law: a successful output projection has exactly one projected value per
/// declared register, keyed in declaration order, and the value at each
/// position is exactly the projection of what that register resolves to.
pub proof fn lemma_outputs_preserve_declaration_order(
    regs: Seq<Seq<char>>,
    table: Seq<(Seq<char>, Option<CircuitIOType>)>,
    vk_seed: u64,
)
    ensures
        spec_project_outputs(regs, table, vk_seed) matches Ok(s) ==> s.len() == regs.len()
            && forall|i: int|
            0 <= i < regs.len() ==> {
                &&& (#[trigger] s[i]).0 == regs[i]
                &&& spec_resolve(table, regs[i]) matches Ok(v)
                &&& spec_project_output_value(v, vk_seed) == Ok::<VariableV, ErrorV>(s[i].1)
            },
    decreases regs.len(),
{
    if regs.len() > 0 {
        lemma_outputs_preserve_declaration_order(regs.drop_last(), table, vk_seed);
        assert(forall|i: int|
            0 <= i < regs.len() - 1 ==> regs.drop_last()[i] == #[trigger] regs[i]);
        if spec_project_outputs(regs, table, vk_seed) is Ok {
            let s = spec_project_outputs(regs, table, vk_seed)->Ok_0;
            let prefix = spec_project_outputs(regs.drop_last(), table, vk_seed)->Ok_0;
            assert(forall|i: int| 0 <= i < prefix.len() ==> #[trigger] s[i] == prefix[i]);
        }
    }
}

} // verus!

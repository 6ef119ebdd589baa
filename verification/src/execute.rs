//! The transition assembler: validates that the call is permitted, runs the
//! visibility projector over the function's declared inputs and outputs,
//! and packages the result with the hex-encoded proof into an immutable
//! transition.
//!
//! Circuit synthesis and proving are external collaborators: the caller
//! hands in the completed register assignment and the serialized proof
//! bytes they produced.

use crate::circuit_io_type::CircuitIOType;
use crate::errors::ErrorV;
use crate::errors::ExecutionError;
use crate::keys::derive_view_key;
use crate::keys::spec_view_key_seed;
use crate::keys::PrivateKey;
use crate::program::credits;
use crate::program::program_is_coinbase;
use crate::program::spec_credits;
use crate::program::spec_get_function;
use crate::program::spec_is_coinbase;
use crate::program::Program;
use crate::program::ProgramV;
use crate::project::process_circuit_inputs;
use crate::project::process_circuit_outputs;
use crate::project::spec_project_inputs;
use crate::project::spec_project_outputs;
use crate::project::CircuitInputType;
use crate::registers::table_wf;
use crate::registers::SimpleFunctionVariables;
use crate::variable_type::VariableType;
use crate::variable_type::VariableV;
use vstd::prelude::*;

verus! {

/// The lowercase hex character for one nibble.
pub open spec fn hex_digit(d: u8) -> char {
    if d == 0 {
        '0'
    } else if d == 1 {
        '1'
    } else if d == 2 {
        '2'
    } else if d == 3 {
        '3'
    } else if d == 4 {
        '4'
    } else if d == 5 {
        '5'
    } else if d == 6 {
        '6'
    } else if d == 7 {
        '7'
    } else if d == 8 {
        '8'
    } else if d == 9 {
        '9'
    } else if d == 10 {
        'a'
    } else if d == 11 {
        'b'
    } else if d == 12 {
        'c'
    } else if d == 13 {
        'd'
    } else if d == 14 {
        'e'
    } else {
        'f'
    }
}

/// Standard lowercase hex, no prefix: two digits per byte, high nibble
/// first.
pub open spec fn spec_hex(bytes: Seq<u8>) -> Seq<char>
    decreases bytes.len(),
{
    if bytes.len() == 0 {
        Seq::empty()
    } else {
        spec_hex(bytes.drop_last()) + seq![
            hex_digit(bytes.last() / 16),
            hex_digit(bytes.last() % 16),
        ]
    }
}

/// Relies on hex::encode: lowercase hex of the bytes, two digits per byte,
/// high nibble first, no prefix.
#[verifier::external_body]
fn encode_hex(bytes: &Vec<u8>) -> (r: String)
    ensures
        r@ == spec_hex(bytes@),
{
    hex::encode(bytes.as_slice())
}

/// A state transition: the unit one successful execution hands the ledger.
/// Immutable once assembled; the fee is fixed at zero at construction.
#[derive(Debug, PartialEq, Eq)]
pub struct Transition {
    pub program_id: String,
    pub function_name: String,
    pub inputs: Vec<VariableType>,
    pub outputs: Vec<VariableType>,
    pub proof_hex: String,
    pub fee: u64,
}

/// Mathematical image of a [`Transition`].
#[verifier::ext_equal]
pub struct TransitionV {
    pub program_id: Seq<char>,
    pub function_name: Seq<char>,
    pub inputs: Seq<VariableV>,
    pub outputs: Seq<VariableV>,
    pub proof_hex: Seq<char>,
    pub fee: u64,
}

impl View for Transition {
    type V = TransitionV;

    open spec fn view(&self) -> TransitionV {
        TransitionV {
            program_id: self.program_id@,
            function_name: self.function_name@,
            inputs: self.inputs@.map_values(|v: VariableType| v@),
            outputs: self.outputs@.map_values(|v: VariableType| v@),
            proof_hex: self.proof_hex@,
            fee: self.fee,
        }
    }
}

/// The projected values of a register list, with the names stripped.
pub open spec fn spec_transition_values(pairs: Seq<(Seq<char>, VariableV)>) -> Seq<VariableV> {
    pairs.map_values(|p: (Seq<char>, VariableV)| p.1)
}

/// The whole execution pipeline: the coinbase guard, function lookup, the
/// input and output projections (the output side under the view key
/// derived from the private key), and transition assembly with the
/// hex-encoded proof and a zero fee.
pub open spec fn spec_execution(
    program: ProgramV,
    function_name: Seq<char>,
    table: Seq<(Seq<char>, Option<CircuitIOType>)>,
    proof_bytes: Seq<u8>,
    pk_seed: u64,
) -> Result<TransitionV, ErrorV> {
    if spec_is_coinbase(program.id, function_name) {
        Err(ErrorV::CoinbaseNotCallable)
    } else {
        match spec_get_function(program.functions, function_name) {
            None => Err(ErrorV::FunctionNotFound(function_name)),
            Some(f) => match spec_project_inputs(f.inputs, table, pk_seed) {
                Err(e) => Err(e),
                Ok(ins) => match spec_project_outputs(
                    f.outputs,
                    table,
                    spec_view_key_seed(pk_seed),
                ) {
                    Err(e) => Err(e),
                    Ok(outs) => Ok(
                        TransitionV {
                            program_id: program.id,
                            function_name,
                            inputs: spec_transition_values(ins),
                            outputs: spec_transition_values(outs),
                            proof_hex: spec_hex(proof_bytes),
                            fee: 0,
                        },
                    ),
                },
            },
        }
    }
}

fn transition_values(pairs: CircuitInputType) -> (r: Vec<VariableType>)
    ensures
        r@.map_values(|v: VariableType| v@) == spec_transition_values(
            pairs@.map_values(|p: (String, VariableType)| (p.0@, p.1@)),
        ),
{
    let ghost all = pairs@;
    let mut pairs = pairs;
    let mut r: Vec<VariableType> = Vec::new();
    while pairs.len() > 0
        invariant
            r@.len() + pairs@.len() == all.len(),
            all.skip(r@.len() as int) == pairs@,
            forall|j: int| 0 <= j < r@.len() ==> (#[trigger] r@[j])@ == all[j].1@,
        decreases pairs@.len(),
    {
        let ghost k = r@.len() as int;
        let p = pairs.remove(0);
        proof {
            assert(p == all.skip(k)[0]);
            assert(all.skip(k)[0] == all[k]);
            assert(pairs@ =~= all.skip(k + 1));
        }
        r.push(p.1);
    }
    proof {
        assert(r@.map_values(|v: VariableType| v@) =~= spec_transition_values(
            all.map_values(|p: (String, VariableType)| (p.0@, p.1@)),
        ));
    }
    r
}

/// Executes one function call against its completed circuit assignment:
/// rejects privileged coinbase entry points, projects the declared inputs
/// and outputs, and assembles the transition around the serialized proof.
pub fn execution(
    program: &Program,
    function_name: &String,
    program_variables: &SimpleFunctionVariables,
    proof_bytes: &Vec<u8>,
    private_key: &PrivateKey,
) -> (r: Result<Vec<Transition>, ExecutionError>)
    requires
        table_wf(program_variables@),
    ensures
        match r {
            Ok(ts) => ts@.len() == 1 && spec_execution(
                program@,
                function_name@,
                program_variables@,
                proof_bytes@,
                private_key.seed,
            ) == Ok::<TransitionV, ErrorV>(ts@[0]@),
            Err(e) => spec_execution(
                program@,
                function_name@,
                program_variables@,
                proof_bytes@,
                private_key.seed,
            ) matches Err(ev) && e@ == ev,
        },
{
    if program_is_coinbase(&program.id, function_name) {
        return Err(ExecutionError::CoinbaseNotCallable);
    }
    let function = match program.get_function(function_name) {
        Ok(f) => f,
        Err(e) => {
            return Err(e);
        },
    };
    let inputs = match process_circuit_inputs(function, program_variables, private_key) {
        Ok(x) => x,
        Err(e) => {
            return Err(e);
        },
    };
    let view_key = derive_view_key(private_key);
    let outputs = match process_circuit_outputs(function, program_variables, view_key) {
        Ok(x) => x,
        Err(e) => {
            return Err(e);
        },
    };
    let encoded_proof = encode_hex(proof_bytes);
    let transition = Transition {
        program_id: program.id.clone(),
        function_name: function_name.clone(),
        inputs: transition_values(inputs),
        outputs: transition_values(outputs),
        proof_hex: encoded_proof,
        fee: 0,
    };
    proof {
        assert(transition@ =~= spec_execution(
            program@,
            function_name@,
            program_variables@,
            proof_bytes@,
            private_key.seed,
        )->Ok_0);
    }
    let mut ts: Vec<Transition> = Vec::new();
    ts.push(transition);
    Ok(ts)
}

/// Executes a function of the built-in credits program.
pub fn credits_execution(
    function_name: &String,
    program_variables: &SimpleFunctionVariables,
    proof_bytes: &Vec<u8>,
    private_key: &PrivateKey,
) -> (r: Result<Vec<Transition>, ExecutionError>)
    requires
        table_wf(program_variables@),
    ensures
        match r {
            Ok(ts) => ts@.len() == 1 && spec_execution(
                spec_credits(),
                function_name@,
                program_variables@,
                proof_bytes@,
                private_key.seed,
            ) == Ok::<TransitionV, ErrorV>(ts@[0]@),
            Err(e) => spec_execution(
                spec_credits(),
                function_name@,
                program_variables@,
                proof_bytes@,
                private_key.seed,
            ) matches Err(ev) && e@ == ev,
        },
{
    let program = credits();
    execution(&program, function_name, program_variables, proof_bytes, private_key)
}

/// Law: a successful execution's transition carries exactly one projected
/// value per declared input register and one per declared output register,
/// in declaration order.
pub proof fn lemma_transition_matches_declaration(
    program: ProgramV,
    function_name: Seq<char>,
    table: Seq<(Seq<char>, Option<CircuitIOType>)>,
    proof_bytes: Seq<u8>,
    pk_seed: u64,
)
    ensures
        spec_execution(program, function_name, table, proof_bytes, pk_seed) matches Ok(t) ==> {
            &&& spec_get_function(program.functions, function_name) matches Some(f)
            &&& t.inputs.len() == f.inputs.len()
            &&& t.outputs.len() == f.outputs.len()
        },
{
    if spec_execution(program, function_name, table, proof_bytes, pk_seed) is Ok {
        let f = spec_get_function(program.functions, function_name)->Some_0;
        crate::project::lemma_inputs_preserve_declaration_order(f.inputs, table, pk_seed);
        crate::project::lemma_outputs_preserve_declaration_order(
            f.outputs,
            table,
            spec_view_key_seed(pk_seed),
        );
    }
}

/// Law: invoking a coinbase entry point fails with `CoinbaseNotCallable`
/// whatever the assignment, proof or key — the guard decides before any
/// register is read, so no circuit work is ever consulted.
pub proof fn lemma_coinbase_rejected(
    program: ProgramV,
    function_name: Seq<char>,
    table: Seq<(Seq<char>, Option<CircuitIOType>)>,
    proof_bytes: Seq<u8>,
    pk_seed: u64,
)
    requires
        spec_is_coinbase(program.id, function_name),
    ensures
        spec_execution(program, function_name, table, proof_bytes, pk_seed) == Err::<
            TransitionV,
            ErrorV,
        >(ErrorV::CoinbaseNotCallable),
{
}

} // verus!

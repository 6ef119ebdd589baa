use vmtropy::{
    execution, CircuitIOType, CircuitRecord, CircuitVariable, Function, PrivateKey, Program,
    SimpleFunctionVariables, UserInputValueType, VariableType,
};

fn binary_function(name: &str) -> Function {
    Function {
        name: name.to_string(),
        inputs: vec!["r0".to_string(), "r1".to_string()],
        outputs: vec!["r2".to_string()],
    }
}

fn program_with(id: &str, function: Function) -> Program {
    Program { id: id.to_string(), functions: vec![function] }
}

/// Runs one two-scalar-register case: binds `r0`, `r1`, `r2`, checks the
/// raw output register renders as `expected_value`, then executes and
/// checks the projected input and output tags.
fn run_binary_scalar_case(
    program_id: &str,
    function_name: &str,
    r0: CircuitIOType,
    r1: CircuitIOType,
    r2: CircuitIOType,
    expected_value: &str,
    expected_inputs: Vec<VariableType>,
    expected_outputs: Vec<VariableType>,
) {
    let program = program_with(program_id, binary_function(function_name));
    assert_eq!(r2.value().unwrap(), expected_value);
    let mut vars = SimpleFunctionVariables::new();
    vars.insert("r0".to_string(), Some(r0));
    vars.insert("r1".to_string(), Some(r1));
    vars.insert("r2".to_string(), Some(r2));
    let private_key = PrivateKey::new(7);
    let transitions = execution(
        &program,
        &function_name.to_string(),
        &vars,
        &vec![1u8, 2, 3],
        &private_key,
    )
    .unwrap();
    assert_eq!(transitions.len(), 1);
    assert_eq!(transitions[0].inputs, expected_inputs);
    assert_eq!(transitions[0].outputs, expected_outputs);
}

fn u16g(value: u16, witness: bool) -> CircuitIOType {
    CircuitIOType::SimpleUInt16(CircuitVariable::assigned(value, witness))
}

fn u32g(value: u32, witness: bool) -> CircuitIOType {
    CircuitIOType::SimpleUInt32(CircuitVariable::assigned(value, witness))
}

fn u64g(value: u64, witness: bool) -> CircuitIOType {
    CircuitIOType::SimpleUInt64(CircuitVariable::assigned(value, witness))
}

fn u128g(value: u128, witness: bool) -> CircuitIOType {
    CircuitIOType::SimpleUInt128(CircuitVariable::assigned(value, witness))
}

#[test]
fn test01_add_with_u16_public_inputs() {
    run_binary_scalar_case(
        "add.aleo",
        "hello_1",
        u16g(1, false),
        u16g(1, false),
        u16g(2, false),
        "2",
        vec![
            VariableType::Public(UserInputValueType::U16(1)),
            VariableType::Public(UserInputValueType::U16(1)),
        ],
        vec![VariableType::Private(UserInputValueType::U16(2))],
    );
}

#[test]
fn test02_add_with_u16_private_inputs() {
    run_binary_scalar_case(
        "add.aleo",
        "hello_2",
        u16g(1, true),
        u16g(1, true),
        u16g(2, true),
        "2",
        vec![
            VariableType::Private(UserInputValueType::U16(1)),
            VariableType::Private(UserInputValueType::U16(1)),
        ],
        vec![VariableType::Private(UserInputValueType::U16(2))],
    );
}

#[test]
fn test03_add_with_u16_private_and_public_inputs() {
    run_binary_scalar_case(
        "add.aleo",
        "hello_3",
        u16g(1, false),
        u16g(1, false),
        u16g(2, true),
        "2",
        vec![
            VariableType::Public(UserInputValueType::U16(1)),
            VariableType::Public(UserInputValueType::U16(1)),
        ],
        vec![VariableType::Private(UserInputValueType::U16(2))],
    );
}

#[test]
fn test04_add_with_u32_public_inputs() {
    run_binary_scalar_case(
        "add.aleo",
        "hello_4",
        u32g(1, false),
        u32g(1, false),
        u32g(2, false),
        "2",
        vec![
            VariableType::Public(UserInputValueType::U32(1)),
            VariableType::Public(UserInputValueType::U32(1)),
        ],
        vec![VariableType::Private(UserInputValueType::U32(2))],
    );
}

#[test]
fn test05_add_with_u32_private_inputs() {
    run_binary_scalar_case(
        "add.aleo",
        "hello_5",
        u32g(1, true),
        u32g(1, true),
        u32g(2, true),
        "2",
        vec![
            VariableType::Private(UserInputValueType::U32(1)),
            VariableType::Private(UserInputValueType::U32(1)),
        ],
        vec![VariableType::Private(UserInputValueType::U32(2))],
    );
}

#[test]
fn test06_add_with_u32_private_and_public_inputs() {
    run_binary_scalar_case(
        "add.aleo",
        "hello_6",
        u32g(1, false),
        u32g(1, false),
        u32g(2, true),
        "2",
        vec![
            VariableType::Public(UserInputValueType::U32(1)),
            VariableType::Public(UserInputValueType::U32(1)),
        ],
        vec![VariableType::Private(UserInputValueType::U32(2))],
    );
}

#[test]
fn test07_add_with_u64_public_inputs() {
    run_binary_scalar_case(
        "add.aleo",
        "hello_7",
        u64g(1, false),
        u64g(1, false),
        u64g(2, false),
        "2",
        vec![
            VariableType::Public(UserInputValueType::U64(1)),
            VariableType::Public(UserInputValueType::U64(1)),
        ],
        vec![VariableType::Private(UserInputValueType::U64(2))],
    );
}

#[test]
fn test08_add_with_u64_private_inputs() {
    run_binary_scalar_case(
        "add.aleo",
        "hello_8",
        u64g(1, true),
        u64g(1, true),
        u64g(2, true),
        "2",
        vec![
            VariableType::Private(UserInputValueType::U64(1)),
            VariableType::Private(UserInputValueType::U64(1)),
        ],
        vec![VariableType::Private(UserInputValueType::U64(2))],
    );
}

#[test]
fn test09_add_with_u64_private_and_public_inputs() {
    run_binary_scalar_case(
        "add.aleo",
        "hello_9",
        u64g(1, false),
        u64g(1, false),
        u64g(2, true),
        "2",
        vec![
            VariableType::Public(UserInputValueType::U64(1)),
            VariableType::Public(UserInputValueType::U64(1)),
        ],
        vec![VariableType::Private(UserInputValueType::U64(2))],
    );
}

#[test]
fn test10_add_with_u128_public_inputs() {
    run_binary_scalar_case(
        "add.aleo",
        "hello_10",
        u128g(1, false),
        u128g(1, false),
        u128g(2, false),
        "2",
        vec![
            VariableType::Public(UserInputValueType::U128(1)),
            VariableType::Public(UserInputValueType::U128(1)),
        ],
        vec![VariableType::Private(UserInputValueType::U128(2))],
    );
}

#[test]
fn test11_add_with_u128_private_inputs() {
    run_binary_scalar_case(
        "add.aleo",
        "hello_11",
        u128g(1, true),
        u128g(1, true),
        u128g(2, true),
        "2",
        vec![
            VariableType::Private(UserInputValueType::U128(1)),
            VariableType::Private(UserInputValueType::U128(1)),
        ],
        vec![VariableType::Private(UserInputValueType::U128(2))],
    );
}

#[test]
fn test12_add_with_u128_private_and_public_inputs() {
    run_binary_scalar_case(
        "add.aleo",
        "hello_12",
        u128g(1, false),
        u128g(1, false),
        u128g(2, true),
        "2",
        vec![
            VariableType::Public(UserInputValueType::U128(1)),
            VariableType::Public(UserInputValueType::U128(1)),
        ],
        vec![VariableType::Private(UserInputValueType::U128(2))],
    );
}

#[test]
fn test_subtract_with_u16_public_inputs() {
    run_binary_scalar_case(
        "subtract.aleo",
        "hello_1",
        u16g(1, false),
        u16g(1, false),
        u16g(0, false),
        "0",
        vec![
            VariableType::Public(UserInputValueType::U16(1)),
            VariableType::Public(UserInputValueType::U16(1)),
        ],
        vec![VariableType::Private(UserInputValueType::U16(0))],
    );
}

#[test]
fn test_subtract_with_u16_private_inputs() {
    run_binary_scalar_case(
        "subtract.aleo",
        "hello_2",
        u16g(1, true),
        u16g(1, true),
        u16g(0, true),
        "0",
        vec![
            VariableType::Private(UserInputValueType::U16(1)),
            VariableType::Private(UserInputValueType::U16(1)),
        ],
        vec![VariableType::Private(UserInputValueType::U16(0))],
    );
}

#[test]
fn test_subtract_with_u16_private_and_public_inputs() {
    run_binary_scalar_case(
        "subtract.aleo",
        "hello_3",
        u16g(1, false),
        u16g(1, false),
        u16g(0, true),
        "0",
        vec![
            VariableType::Public(UserInputValueType::U16(1)),
            VariableType::Public(UserInputValueType::U16(1)),
        ],
        vec![VariableType::Private(UserInputValueType::U16(0))],
    );
}

#[test]
fn test_subtract_with_u32_public_inputs() {
    run_binary_scalar_case(
        "subtract.aleo",
        "hello_4",
        u32g(1, false),
        u32g(1, false),
        u32g(0, false),
        "0",
        vec![
            VariableType::Public(UserInputValueType::U32(1)),
            VariableType::Public(UserInputValueType::U32(1)),
        ],
        vec![VariableType::Private(UserInputValueType::U32(0))],
    );
}

#[test]
fn test_subtract_with_u32_private_inputs() {
    run_binary_scalar_case(
        "subtract.aleo",
        "hello_5",
        u32g(1, true),
        u32g(1, true),
        u32g(0, true),
        "0",
        vec![
            VariableType::Private(UserInputValueType::U32(1)),
            VariableType::Private(UserInputValueType::U32(1)),
        ],
        vec![VariableType::Private(UserInputValueType::U32(0))],
    );
}

#[test]
fn test_subtract_with_u32_private_and_public_inputs() {
    run_binary_scalar_case(
        "subtract.aleo",
        "hello_6",
        u32g(1, false),
        u32g(1, false),
        u32g(0, true),
        "0",
        vec![
            VariableType::Public(UserInputValueType::U32(1)),
            VariableType::Public(UserInputValueType::U32(1)),
        ],
        vec![VariableType::Private(UserInputValueType::U32(0))],
    );
}

#[test]
fn test_subtract_with_u64_public_inputs() {
    run_binary_scalar_case(
        "subtract.aleo",
        "hello_7",
        u64g(1, false),
        u64g(1, false),
        u64g(0, false),
        "0",
        vec![
            VariableType::Public(UserInputValueType::U64(1)),
            VariableType::Public(UserInputValueType::U64(1)),
        ],
        vec![VariableType::Private(UserInputValueType::U64(0))],
    );
}

#[test]
fn test_subtract_with_u64_private_inputs() {
    run_binary_scalar_case(
        "subtract.aleo",
        "hello_8",
        u64g(1, true),
        u64g(1, true),
        u64g(0, true),
        "0",
        vec![
            VariableType::Private(UserInputValueType::U64(1)),
            VariableType::Private(UserInputValueType::U64(1)),
        ],
        vec![VariableType::Private(UserInputValueType::U64(0))],
    );
}

#[test]
fn test_subtract_with_u64_private_and_public_inputs() {
    run_binary_scalar_case(
        "subtract.aleo",
        "hello_9",
        u64g(1, false),
        u64g(1, false),
        u64g(0, true),
        "0",
        vec![
            VariableType::Public(UserInputValueType::U64(1)),
            VariableType::Public(UserInputValueType::U64(1)),
        ],
        vec![VariableType::Private(UserInputValueType::U64(0))],
    );
}

#[test]
fn test_subtract_with_u128_public_inputs() {
    run_binary_scalar_case(
        "subtract.aleo",
        "hello_10",
        u128g(1, false),
        u128g(1, false),
        u128g(0, false),
        "0",
        vec![
            VariableType::Public(UserInputValueType::U128(1)),
            VariableType::Public(UserInputValueType::U128(1)),
        ],
        vec![VariableType::Private(UserInputValueType::U128(0))],
    );
}

#[test]
fn test_subtract_with_u128_private_inputs() {
    run_binary_scalar_case(
        "subtract.aleo",
        "hello_11",
        u128g(1, true),
        u128g(1, true),
        u128g(0, true),
        "0",
        vec![
            VariableType::Private(UserInputValueType::U128(1)),
            VariableType::Private(UserInputValueType::U128(1)),
        ],
        vec![VariableType::Private(UserInputValueType::U128(0))],
    );
}

#[test]
fn test_subtract_with_u128_private_and_public_inputs() {
    run_binary_scalar_case(
        "subtract.aleo",
        "hello_12",
        u128g(1, false),
        u128g(1, false),
        u128g(0, true),
        "0",
        vec![
            VariableType::Public(UserInputValueType::U128(1)),
            VariableType::Public(UserInputValueType::U128(1)),
        ],
        vec![VariableType::Private(UserInputValueType::U128(0))],
    );
}

const TEST_ADDRESS: &str = "aleo1sk339wl3ch4ee5k3y6f6yrmvs9w63yfsmrs9w0wwkx5a9pgjqggqlkx5zh";

fn record_gadget(gates: u64, nonce: u64) -> CircuitRecord {
    CircuitRecord {
        owner: CircuitVariable::assigned(TEST_ADDRESS.to_string(), true),
        gates: CircuitVariable::assigned(gates, true),
        entries: Vec::new(),
        nonce,
        witness: true,
    }
}

/// A record-consuming case: a record plus an amount in, the updated record
/// out.  The consumed input must carry a nullifier and the produced output
/// must leave encrypted, recoverable only under the caller's view key.
fn run_record_case(function_name: &str, gates_in: u64, gates_out: u64) {
    let program = program_with("record.aleo", binary_function(function_name));
    let mut vars = SimpleFunctionVariables::new();
    vars.insert(
        "r0".to_string(),
        Some(CircuitIOType::SimpleRecord(record_gadget(gates_in, 11))),
    );
    vars.insert("r1".to_string(), Some(u64g(1, true)));
    vars.insert(
        "r2".to_string(),
        Some(CircuitIOType::SimpleRecord(record_gadget(gates_out, 12))),
    );
    let private_key = PrivateKey::new(7);
    let transitions = execution(
        &program,
        &function_name.to_string(),
        &vars,
        &vec![9u8, 9, 9],
        &private_key,
    )
    .unwrap();
    assert_eq!(transitions.len(), 1);
    let transition = &transitions[0];
    assert_eq!(transition.inputs.len(), 2);
    assert_eq!(transition.outputs.len(), 1);
    match &transition.inputs[0] {
        VariableType::Record(serial_number, record) => {
            assert!(serial_number.is_some());
            assert_eq!(record.owner, TEST_ADDRESS.as_bytes().to_vec());
            assert_eq!(record.gates, gates_in);
        },
        other => panic!("expected a consumed record, got {:?}", other),
    }
    assert_eq!(
        transition.inputs[1],
        VariableType::Private(UserInputValueType::U64(1))
    );
    match &transition.outputs[0] {
        VariableType::EncryptedRecord(ciphertext) => {
            let view_key = vmtropy::derive_view_key(&private_key);
            let recovered = ciphertext.decrypt(&view_key);
            assert_eq!(recovered.owner, TEST_ADDRESS.as_bytes().to_vec());
            assert_eq!(recovered.gates, gates_out);
        },
        other => panic!("expected an encrypted record, got {:?}", other),
    }
}

#[test]
fn test_record_add() {
    run_record_case("hello_1", 0, 1);
}

#[test]
fn test_record_subtract() {
    run_record_case("hello_2", 1, 0);
}

use vmtropy::{
    credits, credits_execution, execution, process_circuit_inputs, process_circuit_outputs,
    program_is_coinbase, CircuitIOType, CircuitRecord, CircuitVariable, ExecutionError, Function,
    PrivateKey, Program, SimpleFunctionVariables, UserInputValueType, VariableType,
};

const TEST_ADDRESS: &str = "aleo1sk339wl3ch4ee5k3y6f6yrmvs9w63yfsmrs9w0wwkx5a9pgjqggqlkx5zh";

fn function_with(name: &str, inputs: &[&str], outputs: &[&str]) -> Function {
    Function {
        name: name.to_string(),
        inputs: inputs.iter().map(|s| s.to_string()).collect(),
        outputs: outputs.iter().map(|s| s.to_string()).collect(),
    }
}

fn u16g(value: u16, witness: bool) -> CircuitIOType {
    CircuitIOType::SimpleUInt16(CircuitVariable::assigned(value, witness))
}

#[test]
fn output_sequence_preserves_declared_register_order() {
    let function = function_with("many", &["r0"], &["r9", "r1", "r5"]);
    let mut vars = SimpleFunctionVariables::new();
    vars.insert("r0".to_string(), Some(u16g(7, false)));
    vars.insert("r1".to_string(), Some(u16g(2, true)));
    vars.insert("r5".to_string(), Some(u16g(3, true)));
    vars.insert("r9".to_string(), Some(u16g(1, true)));
    let view_key = vmtropy::derive_view_key(&PrivateKey::new(4));
    let outputs = process_circuit_outputs(&function, &vars, view_key).unwrap();
    let names: Vec<String> = outputs.iter().map(|p| p.0.clone()).collect();
    assert_eq!(names, vec!["r9".to_string(), "r1".to_string(), "r5".to_string()]);
    let values: Vec<&VariableType> = outputs.iter().map(|p| &p.1).collect();
    assert_eq!(*values[0], VariableType::Private(UserInputValueType::U16(1)));
    assert_eq!(*values[1], VariableType::Private(UserInputValueType::U16(2)));
    assert_eq!(*values[2], VariableType::Private(UserInputValueType::U16(3)));
}

#[test]
fn two_u16_public_inputs_project_public_and_one_output_register() {
    let function = function_with("hello_1", &["r0", "r1"], &["r2"]);
    let program = Program { id: "add.aleo".to_string(), functions: vec![function] };
    let mut vars = SimpleFunctionVariables::new();
    vars.insert("r0".to_string(), Some(u16g(1, false)));
    vars.insert("r1".to_string(), Some(u16g(1, false)));
    vars.insert("r2".to_string(), Some(u16g(2, false)));
    let transitions = execution(
        &program,
        &"hello_1".to_string(),
        &vars,
        &vec![],
        &PrivateKey::new(3),
    )
    .unwrap();
    let transition = &transitions[0];
    assert_eq!(
        transition.inputs,
        vec![
            VariableType::Public(UserInputValueType::U16(1)),
            VariableType::Public(UserInputValueType::U16(1)),
        ]
    );
    // A single output register, carrying the sum; a non-witness integer
    // output is tagged Private by the ledger-facing visibility rules.
    assert_eq!(
        transition.outputs,
        vec![VariableType::Private(UserInputValueType::U16(2))]
    );
}

#[test]
fn two_u16_private_inputs_project_private() {
    let function = function_with("hello_2", &["r0", "r1"], &["r2"]);
    let mut vars = SimpleFunctionVariables::new();
    vars.insert("r0".to_string(), Some(u16g(1, true)));
    vars.insert("r1".to_string(), Some(u16g(1, true)));
    vars.insert("r2".to_string(), Some(u16g(2, true)));
    let inputs = process_circuit_inputs(&function, &vars, &PrivateKey::new(3)).unwrap();
    assert_eq!(inputs.len(), 2);
    assert_eq!(inputs[0].1, VariableType::Private(UserInputValueType::U16(1)));
    assert_eq!(inputs[1].1, VariableType::Private(UserInputValueType::U16(1)));
}

#[test]
fn non_witness_output_tagging_is_asymmetric() {
    let function = function_with("tags", &[], &["b", "f", "u", "a"]);
    let mut vars = SimpleFunctionVariables::new();
    vars.insert(
        "b".to_string(),
        Some(CircuitIOType::SimpleBoolean(CircuitVariable::assigned(true, false))),
    );
    vars.insert(
        "f".to_string(),
        Some(CircuitIOType::SimpleField(CircuitVariable::assigned(99, false))),
    );
    vars.insert(
        "u".to_string(),
        Some(CircuitIOType::SimpleUInt8(CircuitVariable::assigned(5, false))),
    );
    vars.insert(
        "a".to_string(),
        Some(CircuitIOType::SimpleAddress(CircuitVariable::assigned(
            TEST_ADDRESS.to_string(),
            false,
        ))),
    );
    let view_key = vmtropy::derive_view_key(&PrivateKey::new(1));
    let outputs = process_circuit_outputs(&function, &vars, view_key).unwrap();
    // Booleans and fields alone go out Public when not witnesses; every
    // other non-witness output scalar goes out Private.
    assert_eq!(outputs[0].1, VariableType::Public(UserInputValueType::Boolean(true)));
    assert_eq!(outputs[1].1, VariableType::Public(UserInputValueType::Field(99)));
    assert_eq!(outputs[2].1, VariableType::Private(UserInputValueType::U8(5)));
    assert_eq!(
        outputs[3].1,
        VariableType::Private(UserInputValueType::Address(TEST_ADDRESS.as_bytes().to_vec()))
    );
}

#[test]
fn non_witness_inputs_all_project_public() {
    let function = function_with("tags", &["b", "f", "u", "a"], &[]);
    let mut vars = SimpleFunctionVariables::new();
    vars.insert(
        "b".to_string(),
        Some(CircuitIOType::SimpleBoolean(CircuitVariable::assigned(false, false))),
    );
    vars.insert(
        "f".to_string(),
        Some(CircuitIOType::SimpleField(CircuitVariable::assigned(99, false))),
    );
    vars.insert(
        "u".to_string(),
        Some(CircuitIOType::SimpleUInt8(CircuitVariable::assigned(5, false))),
    );
    vars.insert(
        "a".to_string(),
        Some(CircuitIOType::SimpleAddress(CircuitVariable::assigned(
            TEST_ADDRESS.to_string(),
            false,
        ))),
    );
    let inputs = process_circuit_inputs(&function, &vars, &PrivateKey::new(1)).unwrap();
    assert_eq!(inputs[0].1, VariableType::Public(UserInputValueType::Boolean(false)));
    assert_eq!(inputs[1].1, VariableType::Public(UserInputValueType::Field(99)));
    assert_eq!(inputs[2].1, VariableType::Public(UserInputValueType::U8(5)));
    assert_eq!(
        inputs[3].1,
        VariableType::Public(UserInputValueType::Address(TEST_ADDRESS.as_bytes().to_vec()))
    );
}

#[test]
fn short_address_is_zero_padded_to_sixty_three_bytes() {
    let function = function_with("pad", &["r0"], &[]);
    let mut vars = SimpleFunctionVariables::new();
    vars.insert(
        "r0".to_string(),
        Some(CircuitIOType::SimpleAddress(CircuitVariable::assigned(
            "aleo1short".to_string(),
            false,
        ))),
    );
    let inputs = process_circuit_inputs(&function, &vars, &PrivateKey::new(1)).unwrap();
    let mut expected = "aleo1short".as_bytes().to_vec();
    expected.resize(63, 0u8);
    assert_eq!(expected.len(), 63);
    assert_eq!(inputs[0].1, VariableType::Public(UserInputValueType::Address(expected)));
}

#[test]
fn public_record_input_is_rejected() {
    let function = function_with("consume", &["r0"], &[]);
    let mut vars = SimpleFunctionVariables::new();
    let record = CircuitRecord {
        owner: CircuitVariable::assigned(TEST_ADDRESS.to_string(), true),
        gates: CircuitVariable::assigned(5, true),
        entries: Vec::new(),
        nonce: 1,
        witness: false,
    };
    vars.insert("r0".to_string(), Some(CircuitIOType::SimpleRecord(record)));
    let result = process_circuit_inputs(&function, &vars, &PrivateKey::new(1));
    assert_eq!(result.unwrap_err(), ExecutionError::RecordMustBePrivate);
}

#[test]
fn public_record_output_is_rejected() {
    let function = function_with("produce", &[], &["r0"]);
    let mut vars = SimpleFunctionVariables::new();
    let record = CircuitRecord {
        owner: CircuitVariable::assigned(TEST_ADDRESS.to_string(), true),
        gates: CircuitVariable::assigned(5, true),
        entries: Vec::new(),
        nonce: 1,
        witness: false,
    };
    vars.insert("r0".to_string(), Some(CircuitIOType::SimpleRecord(record)));
    let view_key = vmtropy::derive_view_key(&PrivateKey::new(1));
    let result = process_circuit_outputs(&function, &vars, view_key);
    assert_eq!(result.unwrap_err(), ExecutionError::RecordMustBePrivate);
}

#[test]
fn nested_record_entry_is_rejected() {
    let inner = CircuitRecord {
        owner: CircuitVariable::assigned(TEST_ADDRESS.to_string(), true),
        gates: CircuitVariable::assigned(1, true),
        entries: Vec::new(),
        nonce: 2,
        witness: true,
    };
    let outer = CircuitRecord {
        owner: CircuitVariable::assigned(TEST_ADDRESS.to_string(), true),
        gates: CircuitVariable::assigned(5, true),
        entries: vec![("inner".to_string(), CircuitIOType::SimpleRecord(inner))],
        nonce: 3,
        witness: true,
    };
    let result = vmtropy::consume_record(&outer, &PrivateKey::new(1));
    assert_eq!(result.unwrap_err(), ExecutionError::NestedRecordsUnsupported);
}

#[test]
fn nested_record_entry_fails_whole_projection() {
    let inner = CircuitRecord {
        owner: CircuitVariable::assigned(TEST_ADDRESS.to_string(), true),
        gates: CircuitVariable::assigned(1, true),
        entries: Vec::new(),
        nonce: 2,
        witness: true,
    };
    let outer = CircuitRecord {
        owner: CircuitVariable::assigned(TEST_ADDRESS.to_string(), true),
        gates: CircuitVariable::assigned(5, true),
        entries: vec![
            ("amount".to_string(), u16g(4, true)),
            ("inner".to_string(), CircuitIOType::SimpleRecord(inner)),
        ],
        nonce: 3,
        witness: true,
    };
    let function = function_with("consume", &["r0"], &[]);
    let mut vars = SimpleFunctionVariables::new();
    vars.insert("r0".to_string(), Some(CircuitIOType::SimpleRecord(outer)));
    let result = process_circuit_inputs(&function, &vars, &PrivateKey::new(1));
    assert_eq!(result.unwrap_err(), ExecutionError::NestedRecordsUnsupported);
}

#[test]
fn missing_register_is_reported_by_name() {
    let function = function_with("lookup", &["r0", "r7"], &[]);
    let mut vars = SimpleFunctionVariables::new();
    vars.insert("r0".to_string(), Some(u16g(1, false)));
    let result = process_circuit_inputs(&function, &vars, &PrivateKey::new(1));
    assert_eq!(result.unwrap_err(), ExecutionError::RegisterNotFound("r7".to_string()));
}

#[test]
fn unassigned_register_is_reported_by_name() {
    let function = function_with("lookup", &["r0"], &[]);
    let mut vars = SimpleFunctionVariables::new();
    vars.insert("r0".to_string(), None);
    let result = process_circuit_inputs(&function, &vars, &PrivateKey::new(1));
    assert_eq!(result.unwrap_err(), ExecutionError::RegisterNotAssigned("r0".to_string()));
}

#[test]
fn unassigned_witness_fails_extraction() {
    let function = function_with("extract", &["r0"], &[]);
    let mut vars = SimpleFunctionVariables::new();
    vars.insert(
        "r0".to_string(),
        Some(CircuitIOType::SimpleUInt32(CircuitVariable::unassigned(true))),
    );
    let result = process_circuit_inputs(&function, &vars, &PrivateKey::new(1));
    assert_eq!(result.unwrap_err(), ExecutionError::UnassignedWitness);
}

#[test]
fn missing_function_is_reported_by_name() {
    let program = Program { id: "empty.aleo".to_string(), functions: vec![] };
    let vars = SimpleFunctionVariables::new();
    let result = execution(
        &program,
        &"absent".to_string(),
        &vars,
        &vec![],
        &PrivateKey::new(1),
    );
    assert_eq!(result.unwrap_err(), ExecutionError::FunctionNotFound("absent".to_string()));
}

#[test]
fn coinbase_functions_cannot_be_called() {
    let vars = SimpleFunctionVariables::new();
    let result = credits_execution(&"mint".to_string(), &vars, &vec![], &PrivateKey::new(1));
    assert_eq!(result.unwrap_err(), ExecutionError::CoinbaseNotCallable);
    let result = credits_execution(&"genesis".to_string(), &vars, &vec![], &PrivateKey::new(1));
    assert_eq!(result.unwrap_err(), ExecutionError::CoinbaseNotCallable);
}

#[test]
fn coinbase_guard_runs_before_any_synthesis() {
    let mut synthesis_calls: usize = 0;
    let program = credits();
    let function_name = "mint".to_string();
    // The driver consults the guard first and only synthesizes a circuit
    // when the call is permitted, as the execution pipeline prescribes.
    let result = if program_is_coinbase(&program.id, &function_name) {
        Err(ExecutionError::CoinbaseNotCallable)
    } else {
        synthesis_calls += 1;
        let vars = SimpleFunctionVariables::new();
        execution(&program, &function_name, &vars, &vec![], &PrivateKey::new(1))
            .map(|mut transitions| transitions.remove(0))
    };
    assert!(matches!(result, Err(ExecutionError::CoinbaseNotCallable)));
    assert_eq!(synthesis_calls, 0);
}

#[test]
fn coinbase_predicate_is_scoped_to_the_credits_program() {
    assert!(program_is_coinbase(&"credits.aleo".to_string(), &"mint".to_string()));
    assert!(program_is_coinbase(&"credits.aleo".to_string(), &"genesis".to_string()));
    assert!(!program_is_coinbase(&"credits.aleo".to_string(), &"transfer".to_string()));
    assert!(!program_is_coinbase(&"other.aleo".to_string(), &"mint".to_string()));
}

#[test]
fn credits_transfer_is_callable_and_fails_only_on_the_empty_table() {
    let vars = SimpleFunctionVariables::new();
    let result = credits_execution(&"transfer".to_string(), &vars, &vec![], &PrivateKey::new(1));
    assert_eq!(result.unwrap_err(), ExecutionError::RegisterNotFound("r0".to_string()));
}

#[test]
fn transition_carries_hex_proof_zero_fee_and_names() {
    let function = function_with("carry", &[], &[]);
    let program = Program { id: "carry.aleo".to_string(), functions: vec![function] };
    let vars = SimpleFunctionVariables::new();
    let transitions = execution(
        &program,
        &"carry".to_string(),
        &vars,
        &vec![1u8, 2, 3, 15, 16],
        &PrivateKey::new(1),
    )
    .unwrap();
    let transition = &transitions[0];
    assert_eq!(transition.proof_hex, "0102030f10".to_string());
    assert_eq!(transition.fee, 0);
    assert_eq!(transition.program_id, "carry.aleo".to_string());
    assert_eq!(transition.function_name, "carry".to_string());
    assert!(transition.inputs.is_empty());
    assert!(transition.outputs.is_empty());
}

#[test]
fn value_renders_every_scalar_kind() {
    assert_eq!(
        CircuitIOType::SimpleUInt8(CircuitVariable::assigned(255u8, false)).value().unwrap(),
        "255"
    );
    assert_eq!(
        CircuitIOType::SimpleUInt128(CircuitVariable::assigned(
            340282366920938463463374607431768211455u128,
            false,
        ))
        .value()
        .unwrap(),
        "340282366920938463463374607431768211455"
    );
    assert_eq!(
        CircuitIOType::SimpleBoolean(CircuitVariable::assigned(true, false)).value().unwrap(),
        "true"
    );
    assert_eq!(
        CircuitIOType::SimpleBoolean(CircuitVariable::assigned(false, false)).value().unwrap(),
        "false"
    );
    assert_eq!(
        CircuitIOType::SimpleField(CircuitVariable::assigned(1024u64, false)).value().unwrap(),
        "1024"
    );
    assert_eq!(
        CircuitIOType::SimpleAddress(CircuitVariable::assigned(TEST_ADDRESS.to_string(), false))
            .value()
            .unwrap(),
        TEST_ADDRESS
    );
    assert_eq!(
        CircuitIOType::SimpleUInt64(CircuitVariable::<u64>::unassigned(false)).value().unwrap_err(),
        ExecutionError::UnassignedWitness
    );
}

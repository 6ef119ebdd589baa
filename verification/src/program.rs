//! The program model the projector consumes: a program identifier, the
//! declared register lists of each function, and the coinbase predicate.
//!
//! Parsing program source into this model belongs to an external
//! collaborator; the projection only reads declaration order and names.

use crate::errors::ExecutionError;
use vstd::prelude::*;
use vstd::string::StringExecFns;

verus! {

/// A function declaration: its name and the ordered register names of its
/// declared inputs and outputs.  Declaration order determines the order of
/// a transition's input and output sequences.
#[derive(Debug)]
pub struct Function {
    pub name: String,
    pub inputs: Vec<String>,
    pub outputs: Vec<String>,
}

/// Mathematical image of a [`Function`].
#[verifier::ext_equal]
pub struct FunctionV {
    pub name: Seq<char>,
    pub inputs: Seq<Seq<char>>,
    pub outputs: Seq<Seq<char>>,
}

impl View for Function {
    type V = FunctionV;

    open spec fn view(&self) -> FunctionV {
        FunctionV {
            name: self.name@,
            inputs: self.inputs@.map_values(|s: String| s@),
            outputs: self.outputs@.map_values(|s: String| s@),
        }
    }
}

/// A program: its identifier and its function declarations.
#[derive(Debug)]
pub struct Program {
    pub id: String,
    pub functions: Vec<Function>,
}

/// Mathematical image of a [`Program`].
#[verifier::ext_equal]
pub struct ProgramV {
    pub id: Seq<char>,
    pub functions: Seq<FunctionV>,
}

impl View for Program {
    type V = ProgramV;

    open spec fn view(&self) -> ProgramV {
        ProgramV { id: self.id@, functions: self.functions@.map_values(|f: Function| f@) }
    }
}

/// The first declared function of this name, if any.
pub open spec fn spec_get_function(functions: Seq<FunctionV>, name: Seq<char>) -> Option<FunctionV>
    decreases functions.len(),
{
    if functions.len() == 0 {
        None
    } else if functions[0].name == name {
        Some(functions[0])
    } else {
        spec_get_function(functions.drop_first(), name)
    }
}

/// Whether `(program_id, function_name)` names a privileged coinbase entry
/// point: the minting entry points of the built-in credits program, which
/// ordinary execution must never invoke.
pub open spec fn spec_is_coinbase(program_id: Seq<char>, function_name: Seq<char>) -> bool {
    (function_name == "mint"@ || function_name == "genesis"@) && program_id == "credits.aleo"@
}

/// Executable form of the coinbase predicate.
pub fn program_is_coinbase(program_id: &String, function_name: &String) -> (r: bool)
    ensures
        r == spec_is_coinbase(program_id@, function_name@),
{
    let mint = <String as StringExecFns>::from_str("mint");
    let genesis = <String as StringExecFns>::from_str("genesis");
    let credits_id = <String as StringExecFns>::from_str("credits.aleo");
    (function_name.eq(&mint) || function_name.eq(&genesis)) && program_id.eq(&credits_id)
}

impl Program {
    /// Finds the declaration of a function by name.
    pub fn get_function<'a>(&'a self, name: &String) -> (r: Result<&'a Function, ExecutionError>)
        ensures
            match r {
                Ok(f) => spec_get_function(self@.functions, name@) == Some(f@),
                Err(e) => spec_get_function(self@.functions, name@) is None && e@ == (
                crate::errors::ErrorV::FunctionNotFound(name@)),
            },
    {
        let mut i: usize = 0;
        proof {
            assert(self@.functions.skip(0) =~= self@.functions);
        }
        while i < self.functions.len()
            invariant
                i <= self@.functions.len(),
                spec_get_function(self@.functions, name@) == spec_get_function(
                    self@.functions.skip(i as int),
                    name@,
                ),
            decreases self@.functions.len() - i,
        {
            proof {
                assert(self@.functions.skip(i as int)[0] == self@.functions[i as int]);
                assert(self@.functions.skip(i as int).drop_first() =~= self@.functions.skip(i + 1));
            }
            if self.functions[i].name.eq(name) {
                return Ok(&self.functions[i]);
            }
            i = i + 1;
        }
        proof {
            assert(self@.functions.skip(self@.functions.len() as int) =~= Seq::<
                FunctionV,
            >::empty());
        }
        Err(ExecutionError::FunctionNotFound(name.clone()))
    }
}

/// The built-in credits program as the projector models it: the privileged
/// minting entry points plus the ordinary transfer.
pub open spec fn spec_credits() -> ProgramV {
    ProgramV {
        id: "credits.aleo"@,
        functions: seq![
            FunctionV { name: "genesis"@, inputs: seq!["r0"@, "r1"@], outputs: seq!["r2"@] },
            FunctionV { name: "mint"@, inputs: seq!["r0"@, "r1"@], outputs: seq!["r2"@] },
            FunctionV {
                name: "transfer"@,
                inputs: seq!["r0"@, "r1"@, "r2"@],
                outputs: seq!["r3"@, "r4"@],
            },
        ],
    }
}

fn registers(names: &[&str]) -> (r: Vec<String>)
    ensures
        r@.map_values(|s: String| s@) == names@.map_values(|s: &str| s@),
{
    let mut r: Vec<String> = Vec::new();
    let mut i: usize = 0;
    while i < names.len()
        invariant
            i <= names@.len(),
            r@.len() == i,
            forall|j: int| 0 <= j < i ==> (#[trigger] r@[j])@ == names@[j]@,
        decreases names@.len() - i,
    {
        r.push(<String as StringExecFns>::from_str(names[i]));
        i = i + 1;
    }
    proof {
        assert(r@.map_values(|s: String| s@) =~= names@.map_values(|s: &str| s@));
    }
    r
}

/// Builds the credits program.
pub fn credits() -> (r: Program)
    ensures
        r@ == spec_credits(),
{
    let genesis = Function {
        name: <String as StringExecFns>::from_str("genesis"),
        inputs: registers(&["r0", "r1"]),
        outputs: registers(&["r2"]),
    };
    let mint = Function {
        name: <String as StringExecFns>::from_str("mint"),
        inputs: registers(&["r0", "r1"]),
        outputs: registers(&["r2"]),
    };
    let transfer = Function {
        name: <String as StringExecFns>::from_str("transfer"),
        inputs: registers(&["r0", "r1", "r2"]),
        outputs: registers(&["r3", "r4"]),
    };
    let mut functions: Vec<Function> = Vec::new();
    functions.push(genesis);
    functions.push(mint);
    functions.push(transfer);
    let r = Program { id: <String as StringExecFns>::from_str("credits.aleo"), functions };
    proof {
        assert(r@.functions[0].inputs =~= spec_credits().functions[0].inputs);
        assert(r@.functions[0].outputs =~= spec_credits().functions[0].outputs);
        assert(r@.functions[1].inputs =~= spec_credits().functions[1].inputs);
        assert(r@.functions[1].outputs =~= spec_credits().functions[1].outputs);
        assert(r@.functions[2].inputs =~= spec_credits().functions[2].inputs);
        assert(r@.functions[2].outputs =~= spec_credits().functions[2].outputs);
        assert(r@.functions =~= spec_credits().functions);
        assert(r@ =~= spec_credits());
    }
    r
}

} // verus!

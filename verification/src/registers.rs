//! The register assignment table: what circuit synthesis hands the
//! projector.
//!
//! An ordered binding of register names to optional typed circuit values.
//! Lookup distinguishes the two failure conditions the projection reports
//! separately: a name that is not bound at all, and a name bound to an
//! empty assignment.

use crate::circuit_io_type::circuit_value_wf;
use crate::circuit_io_type::CircuitIOType;
use crate::errors::ErrorV;
use crate::errors::ExecutionError;
use vstd::prelude::*;

verus! {

/// The ordered register-to-value binding produced by circuit synthesis.
#[derive(Debug)]
pub struct SimpleFunctionVariables {
    pub registers: Vec<(String, Option<CircuitIOType>)>,
}

impl View for SimpleFunctionVariables {
    type V = Seq<(Seq<char>, Option<CircuitIOType>)>;

    open spec fn view(&self) -> Seq<(Seq<char>, Option<CircuitIOType>)> {
        self.registers@.map_values(|p: (String, Option<CircuitIOType>)| (p.0@, p.1))
    }
}

/// Resolving one register name against the table: the value bound to the
/// first binding of that name, or the failure the table reports for it.
pub open spec fn spec_resolve(
    table: Seq<(Seq<char>, Option<CircuitIOType>)>,
    name: Seq<char>,
) -> Result<CircuitIOType, ErrorV>
    decreases table.len(),
{
    if table.len() == 0 {
        Err(ErrorV::RegisterNotFound(name))
    } else if table[0].0 == name {
        match table[0].1 {
            Some(v) => Ok(v),
            None => Err(ErrorV::RegisterNotAssigned(name)),
        }
    } else {
        spec_resolve(table.drop_first(), name)
    }
}

/// Every assigned value in the table is well formed.
pub open spec fn table_wf(table: Seq<(Seq<char>, Option<CircuitIOType>)>) -> bool {
    forall|i: int|
        0 <= i < table.len() ==> match (#[trigger] table[i]).1 {
            Some(v) => circuit_value_wf(v),
            None => true,
        }
}

/// Whatever a name resolves to out of a well-formed table is well formed.
pub proof fn lemma_resolve_wf(table: Seq<(Seq<char>, Option<CircuitIOType>)>, name: Seq<char>)
    requires
        table_wf(table),
    ensures
        spec_resolve(table, name) matches Ok(v) ==> circuit_value_wf(v),
    decreases table.len(),
{
    if table.len() > 0 && !(table[0].0 == name) {
        assert(table_wf(table.drop_first())) by {
            assert(forall|i: int|
                0 <= i < table.drop_first().len() ==> #[trigger] table.drop_first()[i] == table[i
                    + 1]);
        }
        lemma_resolve_wf(table.drop_first(), name);
    }
}

impl SimpleFunctionVariables {
    /// An empty table.
    pub fn new() -> (r: SimpleFunctionVariables)
        ensures
            r@ == Seq::<(Seq<char>, Option<CircuitIOType>)>::empty(),
    {
        let r = SimpleFunctionVariables { registers: Vec::new() };
        proof {
            assert(r@ =~= Seq::<(Seq<char>, Option<CircuitIOType>)>::empty());
        }
        r
    }

    /// Binds one more register.  Lookup takes the first binding of a name,
    /// so a rebinding of an existing name is shadowed by the original.
    pub fn insert(&mut self, register: String, value: Option<CircuitIOType>)
        ensures
            final(self)@ == old(self)@.push((register@, value)),
    {
        let ghost reg_view = register@;
        let ghost old_view = self@;
        self.registers.push((register, value));
        proof {
            assert(self@ =~= old_view.push((reg_view, value)));
        }
    }

    /// Number of bound registers.
    pub fn len(&self) -> (n: usize)
        ensures
            n == self@.len(),
    {
        self.registers.len()
    }

    /// Checks the whole table against [`table_wf`]: drivers call this
    /// before handing an assignment of unknown provenance to the
    /// projection.
    pub fn is_well_formed(&self) -> (b: bool)
        ensures
            b == table_wf(self@),
    {
        let mut i: usize = 0;
        while i < self.registers.len()
            invariant
                i <= self@.len(),
                forall|j: int|
                    0 <= j < i ==> match (#[trigger] self@[j]).1 {
                        Some(v) => circuit_value_wf(v),
                        None => true,
                    },
            decreases self@.len() - i,
        {
            match &self.registers[i].1 {
                Some(v) => {
                    if !v.is_well_formed() {
                        proof {
                            assert(self@[i as int].1 == self.registers@[i as int].1);
                        }
                        return false;
                    }
                },
                None => {},
            }
            proof {
                assert(self@[i as int].1 == self.registers@[i as int].1);
            }
            i = i + 1;
        }
        true
    }

    /// Resolves a register name, reporting `RegisterNotFound` for an
    /// unbound name and `RegisterNotAssigned` for an empty binding.
    pub fn get<'a>(&'a self, register: &String) -> (r: Result<&'a CircuitIOType, ExecutionError>)
        ensures
            match r {
                Ok(v) => spec_resolve(self@, register@) == Ok::<CircuitIOType, ErrorV>(*v),
                Err(e) => spec_resolve(self@, register@) matches Err(ev) && e@ == ev,
            },
    {
        let mut i: usize = 0;
        proof {
            assert(self@.skip(0) =~= self@);
        }
        while i < self.registers.len()
            invariant
                i <= self@.len(),
                spec_resolve(self@, register@) == spec_resolve(self@.skip(i as int), register@),
            decreases self@.len() - i,
        {
            proof {
                assert(self@.skip(i as int)[0] == self@[i as int]);
                assert(self@.skip(i as int).drop_first() =~= self@.skip(i + 1));
            }
            if self.registers[i].0.eq(register) {
                match &self.registers[i].1 {
                    Some(v) => {
                        return Ok(v);
                    },
                    None => {
                        return Err(ExecutionError::RegisterNotAssigned(register.clone()));
                    },
                }
            }
            i = i + 1;
        }
        proof {
            assert(self@.skip(self@.len() as int) =~= Seq::<
                (Seq<char>, Option<CircuitIOType>),
            >::empty());
        }
        Err(ExecutionError::RegisterNotFound(register.clone()))
    }
}

} // verus!

//! The slice of per-query constraint state that resolution reads: which
//! variables are declared as inputs, and which of those already carry a
//! bound value. The enclosing algebrizer owns and mutates this state; the
//! resolution engine only reads it.

use vstd::prelude::*;
use crate::query::Variable;
use crate::types::TypedValue;

verus! {

/// The accumulated constraint state of one query's clauses, as far as
/// argument resolution needs it.
pub struct ConjoiningClauses {
    /// The variables declared as query inputs.
    pub input_variables: Vec<Variable>,
    /// The values already supplied for input variables, newest binding
    /// first.
    pub value_bindings: Vec<(Variable, TypedValue)>,
}

impl ConjoiningClauses {
    /// Whether a variable of this name is declared as a query input.
    pub open spec fn is_input_spec(self, name: Seq<char>) -> bool {
        exists|i: int| 0 <= i < self.input_variables@.len() && self.input_variables@[i]@ == name
    }

    /// The value bound to `name`: the value of the first binding whose
    /// variable spells `name`, if any.
    pub open spec fn binding_in(
        bindings: Seq<(Variable, TypedValue)>,
        name: Seq<char>,
    ) -> Option<TypedValue>
        decreases bindings.len(),
    {
        if bindings.len() == 0 {
            None
        } else if bindings[0].0@ == name {
            Some(bindings[0].1)
        } else {
            Self::binding_in(bindings.drop_first(), name)
        }
    }

    /// The value already bound to the variable of this name, if any.
    pub open spec fn bound_value_spec(self, name: Seq<char>) -> Option<TypedValue> {
        Self::binding_in(self.value_bindings@, name)
    }

    /// State with no inputs declared and no values bound.
    pub fn new() -> (r: ConjoiningClauses)
        ensures
            forall|name: Seq<char>| !r.is_input_spec(name),
            forall|name: Seq<char>| r.bound_value_spec(name) is None,
    {
        ConjoiningClauses { input_variables: Vec::new(), value_bindings: Vec::new() }
    }

    /// Declare `var` as a query input.
    pub fn declare_input_variable(&mut self, var: Variable)
        ensures
            final(self).value_bindings == old(self).value_bindings,
            forall|name: Seq<char>|
                final(self).is_input_spec(name) <==> (old(self).is_input_spec(name) || name
                    == var@),
    {
        let ghost before = self.input_variables@;
        self.input_variables.push(var);
        proof {
            assert(forall|name: Seq<char>|
                self.is_input_spec(name) <==> (old(self).is_input_spec(name) || name
                    == var@)) by {
                assert(self.input_variables@ == before.push(var));
                assert forall|name: Seq<char>| #[trigger] self.is_input_spec(name) implies (old(
                    self,
                ).is_input_spec(name) || name == var@) by {
                    let i = choose|i: int|
                        0 <= i < self.input_variables@.len() && self.input_variables@[i]@ == name;
                    if i < before.len() {
                        assert(old(self).input_variables@[i]@ == name);
                    }
                }
                assert forall|name: Seq<char>|
                    old(self).is_input_spec(name) || name == var@ implies #[trigger] self
                    .is_input_spec(name) by {
                    if old(self).is_input_spec(name) {
                        let i = choose|i: int|
                            0 <= i < before.len() && old(self).input_variables@[i]@ == name;
                        assert(self.input_variables@[i]@ == name);
                    } else {
                        assert(self.input_variables@[before.len() as int]@ == name);
                    }
                }
            }
        }
    }

    /// Supply a value for an input variable. The new binding shadows any
    /// older binding of the same name.
    pub fn bind_value(&mut self, var: Variable, value: TypedValue)
        ensures
            final(self).input_variables == old(self).input_variables,
            final(self).bound_value_spec(var@) == Some(value),
            forall|name: Seq<char>|
                name != var@ ==> final(self).bound_value_spec(name) == old(self).bound_value_spec(
                    name,
                ),
    {
        let ghost before = self.value_bindings@;
        let ghost pair = (var, value);
        self.value_bindings.insert(0, (var, value));
        proof {
            assert(self.value_bindings@ == seq![pair].add(before));
            assert(self.value_bindings@[0] == pair);
            assert(self.value_bindings@.drop_first() =~= before);
        }
    }

    /// Whether `var` is declared as a query input.
    pub fn is_input_variable(&self, var: &Variable) -> (r: bool)
        ensures
            r == self.is_input_spec(var@),
    {
        let n = self.input_variables.len();
        let mut i: usize = 0;
        while i < n
            invariant
                i <= n,
                n == self.input_variables@.len(),
                forall|j: int| 0 <= j < i ==> self.input_variables@[j]@ != var@,
            decreases n - i,
        {
            if self.input_variables[i] == *var {
                return true;
            }
            i = i + 1;
        }
        false
    }

    /// The value already bound to `var`, cloned, if one was supplied.
    pub fn bound_value(&self, var: &Variable) -> (r: Option<TypedValue>)
        ensures
            r == self.bound_value_spec(var@),
    {
        let n = self.value_bindings.len();
        let mut i: usize = 0;
        proof {
            assert(self.value_bindings@.skip(0) =~= self.value_bindings@);
        }
        while i < n
            invariant
                i <= n,
                n == self.value_bindings@.len(),
                Self::binding_in(self.value_bindings@, var@) == Self::binding_in(
                    self.value_bindings@.skip(i as int),
                    var@,
                ),
            decreases n - i,
        {
            proof {
                assert(self.value_bindings@.skip(i as int)[0] == self.value_bindings@[i as int]);
                assert(self.value_bindings@.skip(i as int).drop_first() =~= self.value_bindings@
                    .skip(i as int + 1));
            }
            if self.value_bindings[i].0 == *var {
                return Some(self.value_bindings[i].1.clone());
            }
            i = i + 1;
        }
        proof {
            assert(self.value_bindings@.skip(n as int) =~= Seq::<(Variable, TypedValue)>::empty());
        }
        None
    }
}

} // verus!

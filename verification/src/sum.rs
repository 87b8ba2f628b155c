use crate::laws::lemma_steps_exact;
use crate::step::{run, Step};
use crate::unit::Unit;
use vstd::prelude::*;

verus! {

/// How two readings are added: the unit of the left operand is the unit of
/// the sum, and the right operand is brought into it first.
#[derive(Debug, PartialEq, Eq)]
pub struct Sum {
    /// The unit of the sum.
    pub unit: Unit,
    /// The operations to carry out, first to last, on the scalar of the right
    /// operand before it is added to the scalar of the left one.
    pub rhs_steps: Vec<Step>,
}

impl Sum {
    /// The scalar of the sum in exact arithmetic, for the scalars `lhs` and
    /// `rhs` of the two operands.
    pub open spec fn scalar(self, lhs: real, rhs: real) -> real {
        lhs + run(self.rhs_steps@, rhs)
    }
}

impl Unit {
    /// The sum of a reading in `self`, on the left, and one in `rhs`: it is in
    /// `self`, and its scalar is the left scalar plus the right one taken from
    /// `rhs` to `self`. The order of the operands decides the unit.
    pub fn sum_with(self, rhs: Unit) -> (r: Sum)
        ensures
            r.unit == self,
            r.rhs_steps@ == rhs.steps_to(self),
            forall|a: real, b: real| #[trigger] r.scalar(a, b) == a + rhs.scalar_in(self, b),
    {
        let converted = match self {
            Unit::Celsius => rhs.to_celsius(),
            Unit::Fahrenheit => rhs.to_fahrenheit(),
            Unit::Kelvin => rhs.to_kelvin(),
        };
        proof {
            assert forall|b: real| #[trigger]
                run(converted.steps@, b) == rhs.scalar_in(self, b) by {
                lemma_steps_exact(rhs, self, b);
            }
        }
        Sum { unit: converted.target, rhs_steps: converted.steps }
    }
}

} // verus!

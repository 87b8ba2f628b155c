use vstd::prelude::*;

verus! {

/// A constant of a conversion formula, held as the ratio of two whole numbers
/// so that no rounding has happened yet: `273.15` is `27315 / 100`.
#[derive(Clone, Copy, Debug, PartialEq, Eq, Structural)]
pub struct Ratio {
    pub num: u32,
    pub den: u32,
}

impl View for Ratio {
    type V = real;

    /// The number that the ratio stands for.
    open spec fn view(&self) -> real {
        self.num as real / self.den as real
    }
}

impl Ratio {
    /// The denominator is not zero.
    pub open spec fn wf(self) -> bool {
        self.den > 0
    }
}

/// One arithmetic operation on the scalar of a reading. Whoever carries it
/// out in a number type of its own divides `num` by `den` in that type and
/// then adds, subtracts or multiplies once.
#[derive(Clone, Copy, Debug, PartialEq, Eq, Structural)]
pub enum Step {
    /// Add the ratio to the scalar.
    Plus(Ratio),
    /// Subtract the ratio from the scalar.
    Minus(Ratio),
    /// Multiply the scalar by the ratio.
    Times(Ratio),
}

impl Step {
    /// The ratio of the step.
    pub open spec fn ratio(self) -> Ratio {
        match self {
            Step::Plus(r) => r,
            Step::Minus(r) => r,
            Step::Times(r) => r,
        }
    }

    /// The ratio of the step has a denominator other than zero.
    pub open spec fn wf(self) -> bool {
        self.ratio().wf()
    }

    /// What the step makes of the scalar `x` in exact arithmetic.
    pub open spec fn apply(self, x: real) -> real {
        match self {
            Step::Plus(r) => x + r@,
            Step::Minus(r) => x - r@,
            Step::Times(r) => x * r@,
        }
    }
}

/// Every step of the list is well formed.
pub open spec fn all_wf(steps: Seq<Step>) -> bool {
    forall|i: int| 0 <= i < steps.len() ==> (#[trigger] steps[i]).wf()
}

/// The scalar `x` after the steps have been applied to it in order, first to
/// last, in exact arithmetic.
pub open spec fn run(steps: Seq<Step>, x: real) -> real
    decreases steps.len(),
{
    if steps.len() == 0 {
        x
    } else {
        steps.last().apply(run(steps.drop_last(), x))
    }
}

/// A list of one step applies that step.
pub proof fn lemma_run_one(a: Step, x: real)
    ensures
        run(seq![a], x) == a.apply(x),
{
    let steps = seq![a];
    assert(steps.drop_last() =~= Seq::<Step>::empty());
    assert(run(steps.drop_last(), x) == x);
}

/// A list of two steps applies the first, then the second.
pub proof fn lemma_run_two(a: Step, b: Step, x: real)
    ensures
        run(seq![a, b], x) == b.apply(a.apply(x)),
{
    let steps = seq![a, b];
    assert(steps.drop_last() =~= seq![a]);
    lemma_run_one(a, x);
}

} // verus!

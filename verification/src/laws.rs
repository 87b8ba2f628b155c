//! What holds of the conversions in exact arithmetic.

use crate::step::{lemma_run_one, lemma_run_two, run, Step};
use crate::unit::Unit;
use vstd::prelude::*;

verus! {

/// Carried out in exact arithmetic, the steps from one unit to another give
/// the scalar in the other unit.
pub proof fn lemma_steps_exact(from: Unit, to: Unit, x: real)
    ensures
        run(from.steps_to(to), x) == from.scalar_in(to, x),
{
    let steps = from.steps_to(to);
    if steps.len() == 1 {
        let first = steps[0];
        assert(steps =~= seq![first]);
        lemma_run_one(first, x);
        assert(first.apply(x) == from.scalar_in(to, x)) by (nonlinear_arith)
            requires
                from.steps_to(to).len() == 1,
                first == from.steps_to(to)[0],
        ;
    } else if steps.len() == 2 {
        let first = steps[0];
        let second = steps[1];
        assert(steps =~= seq![first, second]);
        lemma_run_two(first, second, x);
        assert(second.apply(first.apply(x)) == from.scalar_in(to, x)) by (nonlinear_arith)
            requires
                from.steps_to(to).len() == 2,
                first == from.steps_to(to)[0],
                second == from.steps_to(to)[1],
        ;
    }
}

/// A conversion keeps the temperature: the scalar in another unit is, in
/// that unit, as many kelvins as the scalar was in the first.
pub proof fn lemma_same_temperature(from: Unit, to: Unit, x: real)
    ensures
        to.in_kelvin(from.scalar_in(to, x)) == from.in_kelvin(x),
{
}

/// A reading that is in the wanted unit already is left as it is: there is
/// no step to carry out, so the scalar comes back unchanged in whatever
/// number type the caller holds it.
pub proof fn lemma_own_unit(unit: Unit, x: real)
    ensures
        unit.steps_to(unit) == Seq::<Step>::empty(),
        run(unit.steps_to(unit), x) == x,
        unit.scalar_in(unit, x) == x,
{
    assert(unit.steps_to(unit) =~= Seq::empty());
}

/// Going from one unit to a second and on to a third gives the scalar that
/// going to the third directly gives.
pub proof fn lemma_by_way_of(from: Unit, between: Unit, to: Unit, x: real)
    ensures
        between.scalar_in(to, from.scalar_in(between, x)) == from.scalar_in(to, x),
        run(between.steps_to(to), run(from.steps_to(between), x)) == run(from.steps_to(to), x),
{
    lemma_steps_exact(from, between, x);
    lemma_steps_exact(between, to, from.scalar_in(between, x));
    lemma_steps_exact(from, to, x);
}

/// In exact arithmetic, a scalar taken to another unit and back is the scalar
/// it was.
pub proof fn lemma_round_trip(unit: Unit, other: Unit, x: real)
    ensures
        other.scalar_in(unit, unit.scalar_in(other, x)) == x,
        run(other.steps_to(unit), run(unit.steps_to(other), x)) == x,
{
    lemma_by_way_of(unit, other, unit, x);
}

/// Readings in one unit are added as plain numbers, so that there the order
/// of the operands does not matter.
pub proof fn lemma_sum_in_one_unit(unit: Unit, a: real, b: real)
    ensures
        a + unit.scalar_in(unit, b) == a + b,
        a + unit.scalar_in(unit, b) == b + unit.scalar_in(unit, a),
{
}

} // verus!

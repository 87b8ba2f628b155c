//! What becomes of a conversion when its steps are carried out in arithmetic
//! that rounds every result, as floating point does.
//!
//! Rounding arithmetic is described by what it may return: a result is off
//! from the exact number by at most the unit roundoff of double precision
//! times the size of that number, and a small slack on top. Double precision
//! that rounds to nearest stays within this as long as a result does not
//! overflow; what the laws here say holds of every arithmetic that does.

use crate::laws::{lemma_round_trip, lemma_steps_exact};
use crate::step::{lemma_run_one, lemma_run_two, run, Step};
use crate::unit::Unit;
use vstd::prelude::*;

verus! {

/// The size of a number.
pub open spec fn magnitude(x: real) -> real {
    if x >= 0real {
        x
    } else {
        -x
    }
}

/// How far apart two numbers are.
pub open spec fn distance(a: real, b: real) -> real {
    magnitude(a - b)
}

/// The unit roundoff of double precision, `2^-53`.
#[verifier::inline]
pub open spec fn unit_roundoff() -> real {
    1real / 9007199254740992real
}

/// An absolute error allowed to every result on top, `10^-30`. It stands for
/// results too small for an error in proportion; double precision needs far
/// less.
#[verifier::inline]
pub open spec fn slack() -> real {
    1real / 1000000000000000000000000000000real
}

/// `got` may be what rounding arithmetic makes of the number `exact`: it is
/// off by no more than the unit roundoff times the size of `exact`, and the
/// slack.
pub open spec fn rounded(exact: real, got: real) -> bool {
    distance(got, exact) <= magnitude(exact) * unit_roundoff() + slack()
}

impl Step {
    /// The step's operation on the scalar `v`, with `q` for the ratio.
    pub open spec fn with(self, v: real, q: real) -> real {
        match self {
            Step::Plus(_) => v + q,
            Step::Minus(_) => v - q,
            Step::Times(_) => v * q,
        }
    }

    /// `got` may come of carrying out the step on `v` in rounding arithmetic:
    /// the ratio is divided out and rounded, then the operation is done on
    /// `v` and what came of the division, and rounded.
    pub open spec fn carried_out(self, v: real, got: real) -> bool {
        exists|q: real| #[trigger] rounded(self.ratio()@, q) && rounded(self.with(v, q), got)
    }
}

/// `got` may come of carrying out the steps on `x`, first to last, in
/// rounding arithmetic.
pub open spec fn carried(steps: Seq<Step>, x: real, got: real) -> bool
    decreases steps.len(),
{
    if steps.len() == 0 {
        got == x
    } else {
        exists|mid: real|
            carried(steps.drop_last(), x, mid) && #[trigger] steps.last().carried_out(mid, got)
    }
}

/// Exact arithmetic is rounding arithmetic that happens never to be off: what
/// the steps give exactly is one of the results they may give when carried
/// out in rounding arithmetic.
pub proof fn lemma_exact_is_carried(steps: Seq<Step>, x: real)
    ensures
        carried(steps, x, run(steps, x)),
    decreases steps.len(),
{
    if steps.len() > 0 {
        let mid = run(steps.drop_last(), x);
        let last = steps.last();
        lemma_exact_is_carried(steps.drop_last(), x);
        assert(rounded(last.ratio()@, last.ratio()@));
        assert(last.with(mid, last.ratio()@) == last.apply(mid));
        assert(rounded(last.apply(mid), last.apply(mid)));
        assert(last.carried_out(mid, run(steps, x)));
    }
}

/// How far a rounded ratio can be from the ratio `c`.
#[verifier::inline]
pub open spec fn ratio_error(c: real) -> real {
    c * unit_roundoff() + slack()
}

/// How far a result can be from the exact number of size `size`, when what
/// was rounded to give it was off by `err` already.
#[verifier::inline]
pub open spec fn rounded_error(size: real, err: real) -> real {
    err + (size + err) * unit_roundoff() + slack()
}

/// The error of an addition or a subtraction: `v` is within `err` of `e`,
/// and `got` came of the step on `v`.
proof fn lemma_shift_error(step: Step, c: real, v: real, e: real, err: real, got: real)
    requires
        step is Plus || step is Minus,
        c == step.ratio()@,
        c >= 0real,
        distance(v, e) <= err,
        step.carried_out(v, got),
    ensures
        distance(got, step.with(e, c)) <= rounded_error(
            magnitude(step.with(e, c)),
            err + ratio_error(c),
        ),
{
    let q = choose|q: real| #[trigger] rounded(step.ratio()@, q) && rounded(step.with(v, q), got);
}

/// The error of a product of two numbers that are each a little off.
proof fn lemma_product_error(c: real, q: real, dq: real, v: real, e: real, err: real)
    by (nonlinear_arith)
    requires
        c >= 0real,
        distance(q, c) <= dq,
        distance(v, e) <= err,
    ensures
        distance(v * q, e * c) <= err * (c + dq) + magnitude(e) * dq,
        magnitude(e * c) == magnitude(e) * c,
{
}

/// The error of a multiplication: `v` is within `err` of `e`, and `got` came
/// of the step on `v`.
proof fn lemma_scale_error(step: Step, c: real, v: real, e: real, err: real, got: real)
    requires
        step is Times,
        c == step.ratio()@,
        c >= 0real,
        distance(v, e) <= err,
        step.carried_out(v, got),
    ensures
        distance(got, e * c) <= rounded_error(
            magnitude(e) * c,
            err * (c + ratio_error(c)) + magnitude(e) * ratio_error(c),
        ),
{
    let q = choose|q: real| #[trigger] rounded(step.ratio()@, q) && rounded(step.with(v, q), got);
    lemma_product_error(c, q, ratio_error(c), v, e, err);
}

/// Carrying out a list of one step is carrying out that step.
proof fn lemma_carried_one(a: Step, x: real, got: real)
    requires
        carried(seq![a], x, got),
    ensures
        a.carried_out(x, got),
{
    let steps = seq![a];
    assert(steps.drop_last() =~= Seq::<Step>::empty());
    let mid = choose|mid: real|
        carried(steps.drop_last(), x, mid) && #[trigger] steps.last().carried_out(mid, got);
    assert(mid == x);
}

/// Carrying out a list of two steps is carrying out the first and then, on
/// what came of it, the second.
proof fn lemma_carried_two(a: Step, b: Step, x: real, got: real) -> (mid: real)
    requires
        carried(seq![a, b], x, got),
    ensures
        a.carried_out(x, mid),
        b.carried_out(mid, got),
{
    let steps = seq![a, b];
    assert(steps.drop_last() =~= seq![a]);
    let mid = choose|mid: real|
        carried(steps.drop_last(), x, mid) && #[trigger] steps.last().carried_out(mid, got);
    lemma_carried_one(a, x, mid);
    mid
}

/// How far from the exact result a conversion of the scalar `x` can end when
/// it is carried out in rounding arithmetic: `(|x| + 1000) / 10^15`.
pub open spec fn accuracy(x: real) -> real {
    (magnitude(x) + 1000real) / 1000000000000000real
}

/// The error of an addition or subtraction followed by a multiplication.
proof fn lemma_shift_then_scale(first: Step, second: Step, x: real, mid: real, got: real)
    requires
        first is Plus || first is Minus,
        second is Times,
        first.ratio()@ == 45967real / 100real || first.ratio()@ == 32real / 1real,
        second.ratio()@ == 5real / 9real,
        first.carried_out(x, mid),
        second.carried_out(mid, got),
    ensures
        distance(got, second.apply(first.apply(x))) <= accuracy(x),
{
    let c = first.ratio()@;
    let q = second.ratio()@;
    let e = first.with(x, c);
    let err = rounded_error(magnitude(e), ratio_error(c));
    lemma_shift_error(first, c, x, x, 0real, mid);
    lemma_scale_error(second, q, mid, e, err, got);
    assert(distance(got, e * q) <= accuracy(x)) by (nonlinear_arith)
        requires
            distance(got, e * q) <= rounded_error(
                magnitude(e) * q,
                err * (q + ratio_error(q)) + magnitude(e) * ratio_error(q),
            ),
            err == rounded_error(magnitude(e), ratio_error(c)),
            magnitude(e) <= magnitude(x) + c,
            c == 45967real / 100real || c == 32real / 1real,
            q == 5real / 9real,
    ;
}

/// The error of a multiplication followed by an addition or subtraction.
proof fn lemma_scale_then_shift(first: Step, second: Step, x: real, mid: real, got: real)
    requires
        first is Times,
        second is Plus || second is Minus,
        first.ratio()@ == 9real / 5real,
        second.ratio()@ == 45967real / 100real || second.ratio()@ == 32real / 1real,
        first.carried_out(x, mid),
        second.carried_out(mid, got),
    ensures
        distance(got, second.apply(first.apply(x))) <= accuracy(x),
{
    let q = first.ratio()@;
    let c = second.ratio()@;
    let e = x * q;
    let err = rounded_error(magnitude(x) * q, magnitude(x) * ratio_error(q));
    lemma_scale_error(first, q, x, x, 0real, mid);
    lemma_shift_error(second, c, mid, e, err, got);
    let f = second.with(e, c);
    assert(magnitude(e) == magnitude(x) * q) by (nonlinear_arith)
        requires
            e == x * q,
            q >= 0real,
    ;
    assert(distance(got, f) <= accuracy(x)) by (nonlinear_arith)
        requires
            distance(got, f) <= rounded_error(magnitude(f), err + ratio_error(c)),
            err == rounded_error(magnitude(x) * q, magnitude(x) * ratio_error(q)),
            magnitude(f) <= magnitude(x) * q + c,
            c == 45967real / 100real || c == 32real / 1real,
            q == 9real / 5real,
    ;
}

/// A conversion carried out in rounding arithmetic ends within `accuracy` of
/// what it gives in exact arithmetic.
pub proof fn lemma_conversion_accuracy(from: Unit, to: Unit, x: real, got: real)
    requires
        carried(from.steps_to(to), x, got),
    ensures
        distance(got, run(from.steps_to(to), x)) <= accuracy(x),
{
    let steps = from.steps_to(to);
    if steps.len() == 1 {
        let first = steps[0];
        assert(steps =~= seq![first]);
        lemma_run_one(first, x);
        lemma_carried_one(first, x, got);
        lemma_shift_error(first, 27315real / 100real, x, x, 0real, got);
    } else if steps.len() == 2 {
        let first = steps[0];
        let second = steps[1];
        assert(steps =~= seq![first, second]);
        lemma_run_two(first, second, x);
        let mid = lemma_carried_two(first, second, x, got);
        if from == Unit::Fahrenheit {
            lemma_shift_then_scale(first, second, x, mid, got);
        } else {
            lemma_scale_then_shift(first, second, x, mid, got);
        }
    }
}

/// In exact arithmetic a conversion is a straight line that is no steeper
/// than `9/5`: two scalars come out at most `9/5` times as far apart as they
/// went in, and a scalar of size `m` comes out no larger than `9/5 m + 460`.
pub proof fn lemma_conversion_spread(from: Unit, to: Unit, a: real, b: real)
    ensures
        distance(run(from.steps_to(to), a), run(from.steps_to(to), b)) <= distance(a, b) * 9real
            / 5real,
        magnitude(run(from.steps_to(to), a)) <= magnitude(a) * 9real / 5real + 460real,
{
    lemma_steps_exact(from, to, a);
    lemma_steps_exact(from, to, b);
}

/// The tolerance of a round trip, `10^-9`.
#[verifier::inline]
pub open spec fn tolerance() -> real {
    1real / 1000000000real
}

/// `got` is within the tolerance of `x`, counted absolutely or as a part of
/// the size of `x`.
pub open spec fn within_tolerance(got: real, x: real) -> bool {
    distance(got, x) <= tolerance() || distance(got, x) <= tolerance() * magnitude(x)
}

/// A scalar taken to another unit and back in rounding arithmetic ends
/// within four times `accuracy` of where it began, and so within the
/// tolerance. `there` is any result that the steps to the other unit may give
/// on `x`, and `back` any that the steps back may give on `there`.
pub proof fn lemma_round_trip_rounded(unit: Unit, other: Unit, x: real, there: real, back: real)
    requires
        carried(unit.steps_to(other), x, there),
        carried(other.steps_to(unit), there, back),
    ensures
        distance(back, x) <= 4real * accuracy(x),
        within_tolerance(back, x),
{
    let exact_there = run(unit.steps_to(other), x);
    lemma_conversion_accuracy(unit, other, x, there);
    lemma_conversion_accuracy(other, unit, there, back);
    lemma_round_trip(unit, other, x);
    lemma_conversion_spread(other, unit, there, exact_there);
    lemma_conversion_spread(unit, other, x, x);
}

} // verus!

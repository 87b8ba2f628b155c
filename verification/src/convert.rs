use crate::laws::lemma_steps_exact;
use crate::step::{all_wf, run, Ratio, Step};
use crate::unit::Unit;
use vstd::prelude::*;

verus! {

/// Zero degrees Celsius lies this many hundredths of a kelvin above absolute
/// zero.
pub const CELSIUS_ZERO_HUNDREDTHS: u32 = 27315;

/// Zero degrees Fahrenheit lies this many hundredths of a Fahrenheit degree
/// above absolute zero.
pub const FAHRENHEIT_ZERO_HUNDREDTHS: u32 = 45967;

/// Water freezes at this many degrees Fahrenheit, which is zero degrees
/// Celsius.
pub const FREEZING_FAHRENHEIT: u32 = 32;

/// The offset between the Kelvin and the Celsius scale, `273.15`.
pub open spec fn celsius_zero() -> Ratio {
    Ratio { num: CELSIUS_ZERO_HUNDREDTHS, den: 100 }
}

/// The offset between a scale of Fahrenheit degrees that starts at absolute
/// zero and the Fahrenheit scale, `459.67`.
pub open spec fn fahrenheit_zero() -> Ratio {
    Ratio { num: FAHRENHEIT_ZERO_HUNDREDTHS, den: 100 }
}

/// The offset between the freezing point of water in Fahrenheit and in
/// Celsius, `32`.
pub open spec fn freezing() -> Ratio {
    Ratio { num: FREEZING_FAHRENHEIT, den: 1 }
}

/// The size of a Fahrenheit degree in kelvins, `5/9`.
pub open spec fn fahrenheit_degree() -> Ratio {
    Ratio { num: 5, den: 9 }
}

/// The size of a kelvin in Fahrenheit degrees, `9/5`.
pub open spec fn kelvin_degree() -> Ratio {
    Ratio { num: 9, den: 5 }
}

/// The arithmetic that takes the scalar of a reading into the unit `target`.
#[derive(Debug, PartialEq, Eq)]
pub struct Conversion {
    /// The unit of the result.
    pub target: Unit,
    /// The operations to carry out on the scalar, first to last. None when
    /// the reading is in `target` already.
    pub steps: Vec<Step>,
}

impl Unit {
    /// The scalar in Kelvin of a reading of `x` in this unit. This is what
    /// the scales are: Celsius is Kelvin moved by `273.15`, and Fahrenheit
    /// starts `459.67` of its degrees above absolute zero, nine of them
    /// making five kelvins.
    pub open spec fn in_kelvin(self, x: real) -> real {
        match self {
            Unit::Kelvin => x,
            Unit::Celsius => x + 27315real / 100real,
            Unit::Fahrenheit => (x + 45967real / 100real) * 5real / 9real,
        }
    }

    /// The scalar in Celsius of a reading of `x` in this unit.
    pub open spec fn in_celsius(self, x: real) -> real {
        match self {
            Unit::Kelvin => x - 27315real / 100real,
            Unit::Celsius => x,
            Unit::Fahrenheit => (x - 32real) * 5real / 9real,
        }
    }

    /// The scalar in Fahrenheit of a reading of `x` in this unit.
    pub open spec fn in_fahrenheit(self, x: real) -> real {
        match self {
            Unit::Kelvin => x * 9real / 5real - 45967real / 100real,
            Unit::Celsius => x * 9real / 5real + 32real,
            Unit::Fahrenheit => x,
        }
    }

    /// The scalar in `target` of a reading of `x` in this unit.
    pub open spec fn scalar_in(self, target: Unit, x: real) -> real {
        match target {
            Unit::Kelvin => self.in_kelvin(x),
            Unit::Celsius => self.in_celsius(x),
            Unit::Fahrenheit => self.in_fahrenheit(x),
        }
    }

    /// The operations that take a scalar in `self` to one in `target`, first
    /// to last. Their order and their constants are fixed, so that whoever
    /// carries them out in arithmetic that rounds gets the same result each
    /// time:
    ///
    /// | from       | to Kelvin            | to Celsius       | to Fahrenheit      |
    /// |------------|----------------------|------------------|--------------------|
    /// | Kelvin     | none                 | `k - 273.15`     | `k * 9/5 - 459.67` |
    /// | Celsius    | `c + 273.15`         | none             | `c * 9/5 + 32`     |
    /// | Fahrenheit | `(f + 459.67) * 5/9` | `(f - 32) * 5/9` | none               |
    pub open spec fn steps_to(self, target: Unit) -> Seq<Step> {
        match (self, target) {
            (Unit::Kelvin, Unit::Kelvin) => seq![],
            (Unit::Celsius, Unit::Kelvin) => seq![Step::Plus(celsius_zero())],
            (Unit::Fahrenheit, Unit::Kelvin) => seq![
                Step::Plus(fahrenheit_zero()),
                Step::Times(fahrenheit_degree()),
            ],
            (Unit::Kelvin, Unit::Celsius) => seq![Step::Minus(celsius_zero())],
            (Unit::Celsius, Unit::Celsius) => seq![],
            (Unit::Fahrenheit, Unit::Celsius) => seq![
                Step::Minus(freezing()),
                Step::Times(fahrenheit_degree()),
            ],
            (Unit::Kelvin, Unit::Fahrenheit) => seq![
                Step::Times(kelvin_degree()),
                Step::Minus(fahrenheit_zero()),
            ],
            (Unit::Celsius, Unit::Fahrenheit) => seq![
                Step::Times(kelvin_degree()),
                Step::Plus(freezing()),
            ],
            (Unit::Fahrenheit, Unit::Fahrenheit) => seq![],
        }
    }

    /// The conversion of a reading in `self` to Celsius. The result is in
    /// Celsius, by the steps of the table, which in exact arithmetic give
    /// the scalar in Celsius. A reading in Celsius already needs no step,
    /// and no step has a zero denominator.
    pub fn to_celsius(self) -> (r: Conversion)
        ensures
            r.target == Unit::Celsius,
            r.steps@ == self.steps_to(Unit::Celsius),
            self == Unit::Celsius ==> r.steps@.len() == 0,
            all_wf(r.steps@),
            forall|x: real| #[trigger] run(r.steps@, x) == self.in_celsius(x),
    {
        let steps = match self {
            Unit::Kelvin => vec![Step::Minus(Ratio { num: CELSIUS_ZERO_HUNDREDTHS, den: 100 })],
            Unit::Celsius => Vec::new(),
            Unit::Fahrenheit => vec![
                Step::Minus(Ratio { num: FREEZING_FAHRENHEIT, den: 1 }),
                Step::Times(Ratio { num: 5, den: 9 }),
            ],
        };
        assert(steps@ =~= self.steps_to(Unit::Celsius));
        proof {
            assert forall|x: real| #[trigger] run(steps@, x) == self.in_celsius(x) by {
                lemma_steps_exact(self, Unit::Celsius, x);
            }
        }
        Conversion { target: Unit::Celsius, steps }
    }

    /// The conversion of a reading in `self` to Fahrenheit. The result is in
    /// Fahrenheit, by the steps of the table, which in exact arithmetic give
    /// the scalar in Fahrenheit. A reading in Fahrenheit already needs no step,
    /// and no step has a zero denominator.
    pub fn to_fahrenheit(self) -> (r: Conversion)
        ensures
            r.target == Unit::Fahrenheit,
            r.steps@ == self.steps_to(Unit::Fahrenheit),
            self == Unit::Fahrenheit ==> r.steps@.len() == 0,
            all_wf(r.steps@),
            forall|x: real| #[trigger] run(r.steps@, x) == self.in_fahrenheit(x),
    {
        let steps = match self {
            Unit::Kelvin => vec![
                Step::Times(Ratio { num: 9, den: 5 }),
                Step::Minus(Ratio { num: FAHRENHEIT_ZERO_HUNDREDTHS, den: 100 }),
            ],
            Unit::Celsius => vec![
                Step::Times(Ratio { num: 9, den: 5 }),
                Step::Plus(Ratio { num: FREEZING_FAHRENHEIT, den: 1 }),
            ],
            Unit::Fahrenheit => Vec::new(),
        };
        assert(steps@ =~= self.steps_to(Unit::Fahrenheit));
        proof {
            assert forall|x: real| #[trigger] run(steps@, x) == self.in_fahrenheit(x) by {
                lemma_steps_exact(self, Unit::Fahrenheit, x);
            }
        }
        Conversion { target: Unit::Fahrenheit, steps }
    }

    /// The conversion of a reading in `self` to Kelvin. The result is in
    /// Kelvin, by the steps of the table, which in exact arithmetic give
    /// the scalar in Kelvin. A reading in Kelvin already needs no step,
    /// and no step has a zero denominator.
    pub fn to_kelvin(self) -> (r: Conversion)
        ensures
            r.target == Unit::Kelvin,
            r.steps@ == self.steps_to(Unit::Kelvin),
            self == Unit::Kelvin ==> r.steps@.len() == 0,
            all_wf(r.steps@),
            forall|x: real| #[trigger] run(r.steps@, x) == self.in_kelvin(x),
    {
        let steps = match self {
            Unit::Kelvin => Vec::new(),
            Unit::Celsius => vec![Step::Plus(Ratio { num: CELSIUS_ZERO_HUNDREDTHS, den: 100 })],
            Unit::Fahrenheit => vec![
                Step::Plus(Ratio { num: FAHRENHEIT_ZERO_HUNDREDTHS, den: 100 }),
                Step::Times(Ratio { num: 5, den: 9 }),
            ],
        };
        assert(steps@ =~= self.steps_to(Unit::Kelvin));
        proof {
            assert forall|x: real| #[trigger] run(steps@, x) == self.in_kelvin(x) by {
                lemma_steps_exact(self, Unit::Kelvin, x);
            }
        }
        Conversion { target: Unit::Kelvin, steps }
    }
}

} // verus!

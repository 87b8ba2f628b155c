use vstd::prelude::*;
use vstd::string::StringExecFns;

verus! {

/// The unit in which a reading is given.
#[derive(Clone, Copy, Debug, PartialEq, Eq, Structural)]
pub enum Unit {
    Kelvin,
    Celsius,
    Fahrenheit,
}

impl Unit {
    /// The characters that follow the scalar when a reading is written out.
    pub open spec fn suffix_text(self) -> Seq<char> {
        match self {
            Unit::Kelvin => seq!['K'],
            Unit::Celsius => seq!['°', 'C'],
            Unit::Fahrenheit => seq!['°', 'F'],
        }
    }

    /// The unit's symbol: `K`, `°C` or `°F`.
    pub fn suffix(self) -> (r: &'static str)
        ensures
            r@ == self.suffix_text(),
    {
        match self {
            Unit::Kelvin => {
                proof {
                    reveal_strlit("K");
                }
                assert("K"@ =~= seq!['K']);
                "K"
            },
            Unit::Celsius => {
                proof {
                    reveal_strlit("°C");
                }
                assert("°C"@ =~= seq!['°', 'C']);
                "°C"
            },
            Unit::Fahrenheit => {
                proof {
                    reveal_strlit("°F");
                }
                assert("°F"@ =~= seq!['°', 'F']);
                "°F"
            },
        }
    }

    /// A reading written out: the scalar's text as the caller gives it,
    /// followed at once by the unit's symbol.
    pub fn render(self, scalar: &str) -> (r: String)
        ensures
            r@ == scalar@ + self.suffix_text(),
    {
        String::from_str(scalar).concat(self.suffix())
    }
}

} // verus!

use vstd::prelude::*;

verus! {

/// One of the three temperature scales.
#[derive(Clone, Copy, Debug, PartialEq, Eq, Structural)]
pub enum Scale {
    Kelvin,
    Celsius,
    Fahrenheit,
}

/// The scale that a trailing letter names: `c`, `f` and `k`, in either case.
pub open spec fn scale_of_char(c: char) -> Option<Scale> {
    if c == 'c' || c == 'C' {
        Some(Scale::Celsius)
    } else if c == 'f' || c == 'F' {
        Some(Scale::Fahrenheit)
    } else if c == 'k' || c == 'K' {
        Some(Scale::Kelvin)
    } else {
        None
    }
}

/// The two other scales, in the order in which a conversion reports them.
pub open spec fn derived_order(s: Scale) -> (Scale, Scale) {
    match s {
        Scale::Kelvin => (Scale::Celsius, Scale::Fahrenheit),
        Scale::Celsius => (Scale::Kelvin, Scale::Fahrenheit),
        Scale::Fahrenheit => (Scale::Kelvin, Scale::Celsius),
    }
}

impl Scale {
    /// The scale's name as it is displayed.
    pub open spec fn spec_name(self) -> Seq<char> {
        match self {
            Scale::Kelvin => "Kelvin"@,
            Scale::Celsius => "Celsius"@,
            Scale::Fahrenheit => "Fahrenheit"@,
        }
    }

    /// Maps a scale letter to its scale; any other character gives `None`.
    pub fn from_char(c: char) -> (r: Option<Scale>)
        ensures
            r == scale_of_char(c),
    {
        if c == 'c' || c == 'C' {
            Some(Scale::Celsius)
        } else if c == 'f' || c == 'F' {
            Some(Scale::Fahrenheit)
        } else if c == 'k' || c == 'K' {
            Some(Scale::Kelvin)
        } else {
            None
        }
    }

    /// The scale's display name: `Kelvin`, `Celsius` or `Fahrenheit`.
    pub fn name(&self) -> (r: String)
        ensures
            r@ == self.spec_name(),
    {
        match self {
            Scale::Kelvin => String::from_str("Kelvin"),
            Scale::Celsius => String::from_str("Celsius"),
            Scale::Fahrenheit => String::from_str("Fahrenheit"),
        }
    }
}

/// The two scales that a reading in `s` is converted to, in report order:
/// Kelvin gives (Celsius, Fahrenheit), Celsius gives (Kelvin, Fahrenheit) and
/// Fahrenheit gives (Kelvin, Celsius). The three are pairwise distinct, so
/// together with `s` they are the three scales, each once.
pub fn derived_scales(s: Scale) -> (r: (Scale, Scale))
    ensures
        r == derived_order(s),
        r.0 != s && r.1 != s && r.0 != r.1,
{
    match s {
        Scale::Kelvin => (Scale::Celsius, Scale::Fahrenheit),
        Scale::Celsius => (Scale::Kelvin, Scale::Fahrenheit),
        Scale::Fahrenheit => (Scale::Kelvin, Scale::Celsius),
    }
}

} // verus!

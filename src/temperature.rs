use vstd::prelude::*;

verus! {

/// The unit in which a temperature is shown.
#[derive(Clone, Copy, Debug, PartialEq, Eq, Structural)]
pub enum TemperatureUnit {
    Celsius,
    Fahrenheit,
}

/// `celsius` degrees Celsius in whole degrees Fahrenheit: `9c / 5 + 32`, the
/// division rounding down.
pub open spec fn fahrenheit_of(celsius: int) -> int {
    (9 * celsius) / 5 + 32
}

/// `celsius` as shown in `unit`.
pub open spec fn shown_in(celsius: int, unit: TemperatureUnit) -> int {
    match unit {
        TemperatureUnit::Celsius => celsius,
        TemperatureUnit::Fahrenheit => fahrenheit_of(celsius),
    }
}

/// The unit that a click on the unit button switches to.
pub open spec fn other_unit(unit: TemperatureUnit) -> TemperatureUnit {
    match unit {
        TemperatureUnit::Celsius => TemperatureUnit::Fahrenheit,
        TemperatureUnit::Fahrenheit => TemperatureUnit::Celsius,
    }
}

/// The suffix written after a temperature in `unit`.
pub open spec fn unit_suffix(unit: TemperatureUnit) -> Seq<char> {
    match unit {
        TemperatureUnit::Celsius => seq!['\u{b0}', 'C'],
        TemperatureUnit::Fahrenheit => seq!['\u{b0}', 'F'],
    }
}

/// Converts whole degrees Celsius to whole degrees Fahrenheit.
pub fn celsius_to_fahrenheit(celsius: u32) -> (r: u64)
    ensures
        r as int == fahrenheit_of(celsius as int),
{
    (9 * (celsius as u64)) / 5 + 32
}

impl TemperatureUnit {
    /// The other unit: Celsius and Fahrenheit swap.
    pub fn toggled(self) -> (r: TemperatureUnit)
        ensures
            r == other_unit(self),
    {
        match self {
            TemperatureUnit::Celsius => TemperatureUnit::Fahrenheit,
            TemperatureUnit::Fahrenheit => TemperatureUnit::Celsius,
        }
    }

    /// The suffix written after a temperature in this unit: `°C` or `°F`.
    pub fn suffix(self) -> (r: &'static str)
        ensures
            r@ == unit_suffix(self),
    {
        match self {
            TemperatureUnit::Celsius => {
                let s = "\u{b0}C";
                proof {
                    reveal_strlit("\u{b0}C");
                }
                s
            },
            TemperatureUnit::Fahrenheit => {
                let s = "\u{b0}F";
                proof {
                    reveal_strlit("\u{b0}F");
                }
                s
            },
        }
    }

    /// `celsius` degrees Celsius as shown in this unit.
    pub fn show(self, celsius: u32) -> (r: u64)
        ensures
            r as int == shown_in(celsius as int, self),
    {
        match self {
            TemperatureUnit::Celsius => celsius as u64,
            TemperatureUnit::Fahrenheit => celsius_to_fahrenheit(celsius),
        }
    }
}

} // verus!

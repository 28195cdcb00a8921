//! The unit conversions on offer: which one a choice of the menu stands for
//! and what it is called. The formulas work on floating-point numbers and
//! are applied by the caller.

use vstd::prelude::*;
use crate::text::same_text;

verus! {

/// A unit conversion of the menu.
#[derive(Clone, Copy, Debug, PartialEq, Eq, Structural)]
pub enum UnitConversion {
    /// Bytes to kilobytes: the value divided by 1024.
    BytesToKilobytes,
    /// Kilobytes to bytes: the value times 1024.
    KilobytesToBytes,
    /// Miles to kilometres: the value times 1.60934.
    MilesToKilometers,
    /// Kilometres to miles: the value divided by 1.60934.
    KilometersToMiles,
    /// Degrees Celsius to Fahrenheit: the value times 9, divided by 5, plus 32.
    CelsiusToFahrenheit,
    /// Degrees Fahrenheit to Celsius: the value minus 32, times 5, divided by 9.
    FahrenheitToCelsius,
    /// Kilograms to pounds: the value times 2.20462.
    KilogramsToPounds,
    /// Pounds to kilograms: the value divided by 2.20462.
    PoundsToKilograms,
}

/// The conversion that a choice of the menu stands for. Choices are the
/// digits 1 to 8.
pub open spec fn chosen_unit_conversion(choice: Seq<char>) -> Option<UnitConversion> {
    if choice == "1"@ {
        Some(UnitConversion::BytesToKilobytes)
    } else if choice == "2"@ {
        Some(UnitConversion::KilobytesToBytes)
    } else if choice == "3"@ {
        Some(UnitConversion::MilesToKilometers)
    } else if choice == "4"@ {
        Some(UnitConversion::KilometersToMiles)
    } else if choice == "5"@ {
        Some(UnitConversion::CelsiusToFahrenheit)
    } else if choice == "6"@ {
        Some(UnitConversion::FahrenheitToCelsius)
    } else if choice == "7"@ {
        Some(UnitConversion::KilogramsToPounds)
    } else if choice == "8"@ {
        Some(UnitConversion::PoundsToKilograms)
    } else {
        None
    }
}

/// The name of a choice of the menu.
pub open spec fn unit_conversion_name(choice: Seq<char>) -> Seq<char> {
    if choice == "1"@ {
        "Bytes to KB"@
    } else if choice == "2"@ {
        "KB to Bytes"@
    } else if choice == "3"@ {
        "Miles to Kilometers"@
    } else if choice == "4"@ {
        "Kilometers to Miles"@
    } else if choice == "5"@ {
        "Celsius to Fahrenheit"@
    } else if choice == "6"@ {
        "Fahrenheit to Celsius"@
    } else if choice == "7"@ {
        "Kilograms to Pounds"@
    } else if choice == "8"@ {
        "Pounds to Kilograms"@
    } else {
        "Unknown Conversion"@
    }
}

/// The conversion that `choice` stands for, if it is a choice of the menu.
pub fn unit_conversion(choice: &str) -> (conversion: Option<UnitConversion>)
    ensures
        conversion == chosen_unit_conversion(choice@),
{
    if same_text(choice, "1") {
        Some(UnitConversion::BytesToKilobytes)
    } else if same_text(choice, "2") {
        Some(UnitConversion::KilobytesToBytes)
    } else if same_text(choice, "3") {
        Some(UnitConversion::MilesToKilometers)
    } else if same_text(choice, "4") {
        Some(UnitConversion::KilometersToMiles)
    } else if same_text(choice, "5") {
        Some(UnitConversion::CelsiusToFahrenheit)
    } else if same_text(choice, "6") {
        Some(UnitConversion::FahrenheitToCelsius)
    } else if same_text(choice, "7") {
        Some(UnitConversion::KilogramsToPounds)
    } else if same_text(choice, "8") {
        Some(UnitConversion::PoundsToKilograms)
    } else {
        None
    }
}

/// The name of a choice of the menu; `Unknown Conversion` for anything
/// else.
pub fn get_unit_conversion_name(choice: &str) -> (name: &'static str)
    ensures
        name@ == unit_conversion_name(choice@),
{
    if same_text(choice, "1") {
        "Bytes to KB"
    } else if same_text(choice, "2") {
        "KB to Bytes"
    } else if same_text(choice, "3") {
        "Miles to Kilometers"
    } else if same_text(choice, "4") {
        "Kilometers to Miles"
    } else if same_text(choice, "5") {
        "Celsius to Fahrenheit"
    } else if same_text(choice, "6") {
        "Fahrenheit to Celsius"
    } else if same_text(choice, "7") {
        "Kilograms to Pounds"
    } else if same_text(choice, "8") {
        "Pounds to Kilograms"
    } else {
        "Unknown Conversion"
    }
}

} // verus!

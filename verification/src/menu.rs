//! What the actions of the menu compute, between the reading of their
//! input and the printing of their outcome.

use vstd::prelude::*;
use crate::history::{entry_text, retain_recent, update_history, History, LogError, HISTORY_SIZE};
use crate::log::csv_row;
use crate::radix::{
    chosen_bases,
    convert_number,
    converted,
    get_number_conversion_name,
    invalid_input_message,
    number_conversion_bases,
    number_conversion_name,
    render_digits,
    render_radix,
};
use crate::text::same_text;
use crate::units::{
    chosen_unit_conversion,
    get_unit_conversion_name,
    unit_conversion,
    unit_conversion_name,
    UnitConversion,
};

verus! {

/// An action of the main menu.
#[derive(Clone, Copy, Debug, PartialEq, Eq, Structural)]
pub enum MenuChoice {
    Arithmetic,
    UnitConversion,
    NumberSystemConversion,
    ViewHistory,
    Exit,
}

/// The action that a choice of the main menu stands for. Choices are the
/// digits 1 to 5.
pub open spec fn chosen_action(choice: Seq<char>) -> Option<MenuChoice> {
    if choice == "1"@ {
        Some(MenuChoice::Arithmetic)
    } else if choice == "2"@ {
        Some(MenuChoice::UnitConversion)
    } else if choice == "3"@ {
        Some(MenuChoice::NumberSystemConversion)
    } else if choice == "4"@ {
        Some(MenuChoice::ViewHistory)
    } else if choice == "5"@ {
        Some(MenuChoice::Exit)
    } else {
        None
    }
}

/// The action that `choice` stands for, if it is a choice of the main menu.
pub fn menu_choice(choice: &str) -> (action: Option<MenuChoice>)
    ensures
        action == chosen_action(choice@),
{
    if same_text(choice, "1") {
        Some(MenuChoice::Arithmetic)
    } else if same_text(choice, "2") {
        Some(MenuChoice::UnitConversion)
    } else if same_text(choice, "3") {
        Some(MenuChoice::NumberSystemConversion)
    } else if same_text(choice, "4") {
        Some(MenuChoice::ViewHistory)
    } else if same_text(choice, "5") {
        Some(MenuChoice::Exit)
    } else {
        None
    }
}

/// How a conversion is named in the history: the kind of conversion, its
/// name, and in brackets what was converted.
pub open spec fn operation_text(kind: Seq<char>, name: Seq<char>, argument: Seq<char>) -> Seq<
    char,
> {
    kind + ": "@ + name + " ("@ + argument + ")"@
}

/// How a unit conversion is named in the history.
pub open spec fn unit_conversion_operation(choice: Seq<char>, value: Seq<char>) -> Seq<char> {
    operation_text("Unit Conversion"@, unit_conversion_name(choice), value)
}

/// How a number conversion is named in the history.
pub open spec fn number_conversion_operation(choice: Seq<char>, input: Seq<char>) -> Seq<char> {
    operation_text("Number Conversion"@, number_conversion_name(choice), input)
}

/// The heading above the history when it is shown.
pub open spec fn history_heading_text() -> Seq<char> {
    "--- History (Last "@ + render_radix(HISTORY_SIZE as nat, 10) + " entries) ---"@
}

/// Names a conversion for the history.
fn operation(kind: &str, name: &str, argument: &str) -> (text: String)
    ensures
        text@ == operation_text(kind@, name@, argument@),
{
    let mut text = kind.to_owned();
    text.append(": ");
    text.append(name);
    text.append(" (");
    text.append(argument);
    text.append(")");
    text
}

/// The heading above the history when it is shown.
pub fn history_heading() -> (text: String)
    ensures
        text@ == history_heading_text(),
{
    let mut text = "--- History (Last ".to_owned();
    let size = render_digits(HISTORY_SIZE as u32, 10);
    text.append(size.as_str());
    text.append(" entries) ---");
    text
}

/// What came of a unit conversion.
#[derive(Debug)]
pub enum UnitConversionReport {
    /// The choice is none of the menu. The history is as it was.
    InvalidChoice,
    /// The conversion is in the history; `row` is what to append to the log.
    Recorded { row: Result<Vec<u8>, LogError> },
}

/// Records a unit conversion that the caller has carried out: `value` is
/// the number that was converted and `result` what it came to, both as
/// they are to be shown. An unknown choice records nothing.
pub fn handle_unit_conversion(history: &mut History, choice: &str, value: &str, result: &str) -> (report:
    UnitConversionReport)
    ensures
        match chosen_unit_conversion(choice@) {
            None => report is InvalidChoice && final(history)@ == old(history)@,
            Some(_) => {
                &&& report matches UnitConversionReport::Recorded { row }
                &&& row matches Ok(bytes) && bytes@ == csv_row(
                    unit_conversion_operation(choice@, value@),
                    result@,
                )
                &&& final(history)@ == retain_recent(
                    old(history)@.push(
                        entry_text(unit_conversion_operation(choice@, value@), result@),
                    ),
                    HISTORY_SIZE as nat,
                )
            },
        },
{
    match unit_conversion(choice) {
        None => UnitConversionReport::InvalidChoice,
        Some(_) => {
            let name = operation("Unit Conversion", get_unit_conversion_name(choice), value);
            let row = update_history(history, name.as_str(), result);
            UnitConversionReport::Recorded { row }
        },
    }
}

/// What came of a number conversion.
#[derive(Debug)]
pub enum NumberConversionReport {
    /// The choice is none of the menu. The history is as it was.
    InvalidChoice,
    /// The input is no number in the source base. The history is as it was.
    Failed { message: String },
    /// The digits in the target base. The conversion is in the history;
    /// `row` is what to append to the log.
    Converted { output: String, row: Result<Vec<u8>, LogError> },
}

/// Converts `input` between the bases that `choice` stands for and records
/// the conversion. An unknown choice or an input that does not parse
/// records nothing.
pub fn handle_number_system_conversion(history: &mut History, choice: &str, input: &str) -> (report:
    NumberConversionReport)
    ensures
        match chosen_bases(choice@) {
            None => report is InvalidChoice && final(history)@ == old(history)@,
            Some(bases) => match converted(input@, bases.0, bases.1) {
                None => {
                    &&& report matches NumberConversionReport::Failed { message }
                    &&& message@ == invalid_input_message(bases.0)
                    &&& final(history)@ == old(history)@
                },
                Some(digits) => {
                    &&& report matches NumberConversionReport::Converted { output, row }
                    &&& output@ == digits
                    &&& row matches Ok(bytes) && bytes@ == csv_row(
                        number_conversion_operation(choice@, input@),
                        digits,
                    )
                    &&& final(history)@ == retain_recent(
                        old(history)@.push(
                            entry_text(number_conversion_operation(choice@, input@), digits),
                        ),
                        HISTORY_SIZE as nat,
                    )
                },
            },
        },
{
    match number_conversion_bases(choice) {
        None => NumberConversionReport::InvalidChoice,
        Some(bases) => match convert_number(input, bases.0, bases.1) {
            Err(message) => NumberConversionReport::Failed { message },
            Ok(output) => {
                let name = operation("Number Conversion", get_number_conversion_name(choice), input);
                let row = update_history(history, name.as_str(), output.as_str());
                NumberConversionReport::Converted { output, row }
            },
        },
    }
}

} // verus!

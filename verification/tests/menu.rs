use calculator::history::History;
use calculator::menu::{
    handle_number_system_conversion, handle_unit_conversion, history_heading, menu_choice,
    MenuChoice, NumberConversionReport, UnitConversionReport,
};

#[test]
fn main_menu_choices() {
    assert_eq!(menu_choice("1"), Some(MenuChoice::Arithmetic));
    assert_eq!(menu_choice("2"), Some(MenuChoice::UnitConversion));
    assert_eq!(menu_choice("3"), Some(MenuChoice::NumberSystemConversion));
    assert_eq!(menu_choice("4"), Some(MenuChoice::ViewHistory));
    assert_eq!(menu_choice("5"), Some(MenuChoice::Exit));
    for other in ["", "0", "6", "11", "exit", "1 "] {
        assert_eq!(menu_choice(other), None);
    }
}

#[test]
fn heading_names_the_capacity() {
    assert_eq!(history_heading(), "--- History (Last 10 entries) ---");
}

#[test]
fn unit_conversion_is_recorded() {
    let mut history = History::new();
    match handle_unit_conversion(&mut history, "5", "100", "212.00") {
        UnitConversionReport::Recorded { row } => {
            assert_eq!(
                row.unwrap(),
                b"Unit Conversion: Celsius to Fahrenheit (100),212.00\n".to_vec()
            );
        }
        UnitConversionReport::InvalidChoice => panic!("choice 5 is valid"),
    }
    assert_eq!(
        history.entries(),
        vec!["Unit Conversion: Celsius to Fahrenheit (100) = 212.00".to_string()]
    );
}

#[test]
fn unknown_unit_conversion_records_nothing() {
    let mut history = History::new();
    history.push_entry("kept".to_string());
    for choice in ["0", "9", "", "abc"] {
        assert!(matches!(
            handle_unit_conversion(&mut history, choice, "1", "1.00"),
            UnitConversionReport::InvalidChoice
        ));
    }
    assert_eq!(history.entries(), vec!["kept".to_string()]);
}

#[test]
fn number_conversion_is_recorded() {
    let mut history = History::new();
    match handle_number_system_conversion(&mut history, "6", "255") {
        NumberConversionReport::Converted { output, row } => {
            assert_eq!(output, "FF");
            assert_eq!(
                row.unwrap(),
                b"Number Conversion: Decimal to Hexadecimal (255),FF\n".to_vec()
            );
        }
        _ => panic!("255 is a decimal number"),
    }
    assert_eq!(
        history.entries(),
        vec!["Number Conversion: Decimal to Hexadecimal (255) = FF".to_string()]
    );
}

#[test]
fn number_conversion_of_bad_input_records_nothing() {
    let mut history = History::new();
    match handle_number_system_conversion(&mut history, "1", "102") {
        NumberConversionReport::Failed { message } => {
            assert_eq!(message, "Invalid input for base 2");
        }
        _ => panic!("102 is no binary number"),
    }
    match handle_number_system_conversion(&mut history, "10", "xyz") {
        NumberConversionReport::Failed { message } => {
            assert_eq!(message, "Invalid input for base 16");
        }
        _ => panic!("xyz is no hexadecimal number"),
    }
    assert!(history.entries().is_empty());
}

#[test]
fn unknown_number_conversion_records_nothing() {
    let mut history = History::new();
    for choice in ["0", "13", "", "two"] {
        assert!(matches!(
            handle_number_system_conversion(&mut history, choice, "1"),
            NumberConversionReport::InvalidChoice
        ));
    }
    assert!(history.entries().is_empty());
}

#[test]
fn every_number_conversion_choice_converts() {
    let cases = [
        ("1", "101", "5"),
        ("2", "1000", "10"),
        ("3", "11110000", "F0"),
        ("4", "5", "101"),
        ("5", "8", "10"),
        ("6", "48879", "BEEF"),
        ("7", "17", "15"),
        ("8", "7", "111"),
        ("9", "20", "10"),
        ("10", "1f", "31"),
        ("11", "3", "11"),
        ("12", "8", "10"),
    ];
    let mut history = History::new();
    for (choice, input, expected) in cases {
        match handle_number_system_conversion(&mut history, choice, input) {
            NumberConversionReport::Converted { output, .. } => assert_eq!(output, expected),
            _ => panic!("choice {} should convert {}", choice, input),
        }
    }
    assert_eq!(history.len(), 10);
    assert_eq!(history.entries()[9], "Number Conversion: Hexadecimal to Octal (8) = 10");
    assert_eq!(history.entries()[0], "Number Conversion: Binary to Hexadecimal (11110000) = F0");
}

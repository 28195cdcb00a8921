use calculator::expression::{
    classify, function_of, operator_of, prepare_expression, space_operators, EvalError,
    Expression, Operand, Operation,
};

fn single(token: &str) -> Expression {
    Expression::Single { token: token.to_string() }
}

fn unary(function: &str, operand: &str) -> Expression {
    Expression::Unary { function: function.to_string(), operand: operand.to_string() }
}

fn binary(left: &str, operator: &str, right: &str) -> Expression {
    Expression::Binary {
        left: left.to_string(),
        operator: operator.to_string(),
        right: right.to_string(),
    }
}

fn number(token: Option<&str>) -> (Operand, f64) {
    match token.map(|t| t.parse::<f64>()) {
        Some(Ok(value)) if value == 0.0 => (Operand::Zero, value),
        Some(Ok(value)) => (Operand::NonZero, value),
        _ => (Operand::Unparsable, 0.0),
    }
}

// Drives the library as a caller does: the library decides, the caller
// reads the numbers and does the arithmetic.
fn evaluate(expression: &str) -> Result<f64, String> {
    let shape = classify(expression).map_err(|e| e.message().to_string())?;
    let (first, a) = number(shape.first_operand());
    let (second, b) = number(shape.second_operand());
    let operation = shape.resolve(first, second).map_err(|e| e.message().to_string())?;
    Ok(match operation {
        Operation::Pi => std::f64::consts::PI,
        Operation::Value => a,
        Operation::Sine => a.sin(),
        Operation::Cosine => a.cos(),
        Operation::Tangent => a.tan(),
        Operation::NaturalLog => a.ln(),
        Operation::Add => a + b,
        Operation::Subtract => a - b,
        Operation::Multiply => a * b,
        Operation::Divide => a / b,
    })
}

#[test]
fn operators_are_set_apart_by_spaces() {
    assert_eq!(space_operators("2+3"), "2 + 3");
    assert_eq!(space_operators("10/4"), "10 / 4");
    assert_eq!(space_operators("6*7"), "6 * 7");
    assert_eq!(space_operators("9-1"), "9 - 1");
    assert_eq!(space_operators("2 + 3"), "2  +  3");
    assert_eq!(space_operators("a+-b"), "a +  - b");
    assert_eq!(space_operators("+"), " + ");
    assert_eq!(space_operators("/*"), " /  * ");
}

#[test]
fn text_without_operators_is_unchanged() {
    assert_eq!(space_operators(""), "");
    assert_eq!(space_operators("sin 1"), "sin 1");
    assert_eq!(space_operators("pi"), "pi");
    assert_eq!(space_operators("2 ^ 3 % 1 $1 \\ ( )"), "2 ^ 3 % 1 $1 \\ ( )");
    assert_eq!(space_operators("√2 × 3 ÷ 4 − 5"), "√2 × 3 ÷ 4 − 5");
}

#[test]
fn leading_minus_is_split_off() {
    assert_eq!(space_operators("-5"), " - 5");
    let (text, shape) = prepare_expression("-5");
    assert_eq!(text, "-5");
    assert_eq!(shape, Ok(unary("-", "5")));
    assert_eq!(
        shape.unwrap().resolve(Operand::NonZero, Operand::Unparsable),
        Err(EvalError::UnknownOperation)
    );
}

#[test]
fn exponent_signs_are_split_off() {
    let (_, shape) = prepare_expression("1e-3 * 2");
    assert_eq!(shape, Err(EvalError::InvalidFormat));
    let (_, shape) = prepare_expression("log -1");
    assert_eq!(shape, Ok(binary("log", "-", "1")));
}

#[test]
fn classify_by_token_count() {
    assert_eq!(classify(""), Err(EvalError::InvalidFormat));
    assert_eq!(classify("   \t "), Err(EvalError::InvalidFormat));
    assert_eq!(classify("42"), Ok(single("42")));
    assert_eq!(classify("  pi "), Ok(single("pi")));
    assert_eq!(classify("sin 1.5"), Ok(unary("sin", "1.5")));
    assert_eq!(classify("2 + 3"), Ok(binary("2", "+", "3")));
    assert_eq!(classify(" 2\t+\n3 "), Ok(binary("2", "+", "3")));
    assert_eq!(classify("1 2 3 4"), Err(EvalError::InvalidFormat));
    assert_eq!(classify("1 + 2 + 3"), Err(EvalError::InvalidFormat));
}

#[test]
fn prepare_trims_spaces_and_classifies() {
    let (text, shape) = prepare_expression("  2+3 \n");
    assert_eq!(text, "2+3");
    assert_eq!(shape, Ok(binary("2", "+", "3")));

    let (text, shape) = prepare_expression("10 + 5\n");
    assert_eq!(text, "10 + 5");
    assert_eq!(shape, Ok(binary("10", "+", "5")));

    let (text, shape) = prepare_expression("\n");
    assert_eq!(text, "");
    assert_eq!(shape, Err(EvalError::InvalidFormat));

    let (text, shape) = prepare_expression("1+2+3");
    assert_eq!(text, "1+2+3");
    assert_eq!(shape, Err(EvalError::InvalidFormat));
}

#[test]
fn operands_are_named() {
    assert_eq!(single("pi").first_operand(), None);
    assert_eq!(single("pi").second_operand(), None);
    assert_eq!(single("4.5").first_operand(), Some("4.5"));
    assert_eq!(single("Pi").first_operand(), Some("Pi"));
    assert_eq!(unary("cos", "0").first_operand(), Some("0"));
    assert_eq!(unary("cos", "0").second_operand(), None);
    assert_eq!(binary("1", "/", "2").first_operand(), Some("1"));
    assert_eq!(binary("1", "/", "2").second_operand(), Some("2"));
}

#[test]
fn single_token_resolves() {
    let any = Operand::Unparsable;
    assert_eq!(single("pi").resolve(Operand::Unparsable, any), Ok(Operation::Pi));
    assert_eq!(single("3").resolve(Operand::NonZero, any), Ok(Operation::Value));
    assert_eq!(single("0").resolve(Operand::Zero, any), Ok(Operation::Value));
    assert_eq!(single("PI").resolve(Operand::Unparsable, any), Err(EvalError::InvalidNumber));
    assert_eq!(single("x").resolve(Operand::Unparsable, any), Err(EvalError::InvalidNumber));
}

#[test]
fn unary_resolves() {
    let any = Operand::Unparsable;
    assert_eq!(unary("sin", "1").resolve(Operand::NonZero, any), Ok(Operation::Sine));
    assert_eq!(unary("cos", "1").resolve(Operand::NonZero, any), Ok(Operation::Cosine));
    assert_eq!(unary("tan", "1").resolve(Operand::NonZero, any), Ok(Operation::Tangent));
    assert_eq!(unary("log", "0").resolve(Operand::Zero, any), Ok(Operation::NaturalLog));
    assert_eq!(unary("ln", "1").resolve(Operand::NonZero, any), Err(EvalError::UnknownOperation));
    assert_eq!(unary("SIN", "1").resolve(Operand::NonZero, any), Err(EvalError::UnknownOperation));
}

#[test]
fn unary_operand_is_checked_before_the_function() {
    let any = Operand::Unparsable;
    assert_eq!(unary("sin", "x").resolve(Operand::Unparsable, any), Err(EvalError::InvalidNumber));
    assert_eq!(unary("foo", "x").resolve(Operand::Unparsable, any), Err(EvalError::InvalidNumber));
    assert_eq!(unary("foo", "1").resolve(Operand::NonZero, any), Err(EvalError::UnknownOperation));
}

#[test]
fn binary_resolves() {
    let n = Operand::NonZero;
    let z = Operand::Zero;
    assert_eq!(binary("1", "+", "2").resolve(n, n), Ok(Operation::Add));
    assert_eq!(binary("1", "-", "2").resolve(n, n), Ok(Operation::Subtract));
    assert_eq!(binary("1", "*", "2").resolve(n, n), Ok(Operation::Multiply));
    assert_eq!(binary("1", "/", "2").resolve(n, n), Ok(Operation::Divide));
    assert_eq!(binary("0", "/", "2").resolve(z, n), Ok(Operation::Divide));
    assert_eq!(binary("1", "+", "0").resolve(n, z), Ok(Operation::Add));
    assert_eq!(binary("1", "*", "0").resolve(n, z), Ok(Operation::Multiply));
    assert_eq!(binary("1", "/", "0").resolve(n, z), Err(EvalError::DivisionByZero));
    assert_eq!(binary("0", "/", "0").resolve(z, z), Err(EvalError::DivisionByZero));
    assert_eq!(binary("1", "^", "2").resolve(n, n), Err(EvalError::UnknownOperator));
    assert_eq!(binary("1", "++", "2").resolve(n, n), Err(EvalError::UnknownOperator));
}

#[test]
fn binary_operands_are_checked_before_the_operator() {
    let n = Operand::NonZero;
    let z = Operand::Zero;
    let u = Operand::Unparsable;
    assert_eq!(binary("a", "+", "2").resolve(u, n), Err(EvalError::InvalidNumber));
    assert_eq!(binary("1", "+", "b").resolve(n, u), Err(EvalError::InvalidNumber));
    assert_eq!(binary("a", "^", "b").resolve(u, u), Err(EvalError::InvalidNumber));
    assert_eq!(binary("a", "/", "0").resolve(u, z), Err(EvalError::InvalidNumber));
    assert_eq!(binary("1", "^", "0").resolve(n, z), Err(EvalError::UnknownOperator));
}

#[test]
fn names_of_functions_and_operators() {
    assert_eq!(function_of("sin"), Some(Operation::Sine));
    assert_eq!(function_of("cos"), Some(Operation::Cosine));
    assert_eq!(function_of("tan"), Some(Operation::Tangent));
    assert_eq!(function_of("log"), Some(Operation::NaturalLog));
    assert_eq!(function_of("Log"), None);
    assert_eq!(function_of("+"), None);
    assert_eq!(operator_of("+"), Some(Operation::Add));
    assert_eq!(operator_of("-"), Some(Operation::Subtract));
    assert_eq!(operator_of("*"), Some(Operation::Multiply));
    assert_eq!(operator_of("/"), Some(Operation::Divide));
    assert_eq!(operator_of("%"), None);
    assert_eq!(operator_of(""), None);
}

#[test]
fn errors_have_their_messages() {
    assert_eq!(EvalError::InvalidNumber.message(), "Invalid number");
    assert_eq!(EvalError::UnknownOperation.message(), "Unknown operation");
    assert_eq!(EvalError::UnknownOperator.message(), "Unknown operator");
    assert_eq!(EvalError::DivisionByZero.message(), "Division by zero");
    assert_eq!(EvalError::InvalidFormat.message(), "Invalid expression format");
}

#[test]
fn evaluate_division_by_zero() {
    assert_eq!(evaluate("5 / 0"), Err("Division by zero".to_string()));
    assert_eq!(evaluate("5 / 0.0"), Err("Division by zero".to_string()));
    assert_eq!(evaluate("5 / -0"), Err("Division by zero".to_string()));
}

#[test]
fn evaluate_too_many_tokens() {
    assert_eq!(evaluate("1 2 3 4"), Err("Invalid expression format".to_string()));
}

#[test]
fn evaluate_pi() {
    assert_eq!(evaluate("pi"), Ok(std::f64::consts::PI));
}

#[test]
fn evaluate_log_of_negative_is_not_an_error() {
    assert!(evaluate("log -1").unwrap().is_nan());
    assert_eq!(evaluate("log 0"), Ok(f64::NEG_INFINITY));
}

#[test]
fn evaluate_binary_is_the_direct_computation() {
    let operands = ["0", "1", "-2.5", "1e10", "3.25", "0.1", "inf", "7"];
    for a in operands {
        for b in operands {
            let x: f64 = a.parse().unwrap();
            let y: f64 = b.parse().unwrap();
            assert_eq!(evaluate(&format!("{} + {}", a, b)).map(f64::to_bits), Ok((x + y).to_bits()));
            assert_eq!(evaluate(&format!("{} - {}", a, b)).map(f64::to_bits), Ok((x - y).to_bits()));
            assert_eq!(evaluate(&format!("{} * {}", a, b)).map(f64::to_bits), Ok((x * y).to_bits()));
            if y != 0.0 {
                assert_eq!(
                    evaluate(&format!("{} / {}", a, b)).map(f64::to_bits),
                    Ok((x / y).to_bits())
                );
            }
        }
    }
}

#[test]
fn evaluate_ten_plus_five() {
    let (text, shape) = prepare_expression("10 + 5");
    let shape = shape.unwrap();
    assert_eq!(shape.resolve(Operand::NonZero, Operand::NonZero), Ok(Operation::Add));
    assert_eq!(text, "10 + 5");
    assert_eq!(evaluate("10 + 5").map(|v| v.to_string()), Ok("15".to_string()));
}

#[test]
fn evaluate_unary_functions() {
    assert_eq!(evaluate("sin 0"), Ok(0.0));
    assert_eq!(evaluate("cos 0"), Ok(1.0));
    assert_eq!(evaluate("tan 0"), Ok(0.0));
    assert_eq!(evaluate("log 1"), Ok(0.0));
    assert_eq!(evaluate("sqrt 4"), Err("Unknown operation".to_string()));
    assert_eq!(evaluate("sin x"), Err("Invalid number".to_string()));
}

#[test]
fn evaluate_invalid_inputs() {
    assert_eq!(evaluate(""), Err("Invalid expression format".to_string()));
    assert_eq!(evaluate("abc"), Err("Invalid number".to_string()));
    assert_eq!(evaluate("1 ^ 2"), Err("Unknown operator".to_string()));
    assert_eq!(evaluate("x + 2"), Err("Invalid number".to_string()));
    assert_eq!(evaluate("2 + y"), Err("Invalid number".to_string()));
}

#[test]
fn spacing_is_a_space_on_each_side_of_every_operator() {
    let mut samples: Vec<String> = vec![
        "2+3".to_string(),
        "1--1".to_string(),
        "a*b/c+d-e".to_string(),
        "++++".to_string(),
        " - ".to_string(),
        "$1 $0 ${1} \\+ [+] (+)".to_string(),
        "π+√2".to_string(),
        "line\n+\tbreak".to_string(),
    ];
    // Every ASCII character alone, and between two digits.
    for code in 0u8..128 {
        let c = code as char;
        samples.push(c.to_string());
        samples.push(format!("1{}2", c));
    }
    for sample in samples {
        let mut expected = String::new();
        for c in sample.chars() {
            if c == '+' || c == '-' || c == '*' || c == '/' {
                expected.push(' ');
                expected.push(c);
                expected.push(' ');
            } else {
                expected.push(c);
            }
        }
        assert_eq!(space_operators(&sample), expected);
    }
}

//! The expression evaluator's decisions: how a line is cut into tokens, what
//! shape the tokens have, and which operation or failure follows. The
//! numbers themselves are the caller's: it says of each operand whether it
//! is a number and whether it is zero, and carries out the operation chosen.

use vstd::prelude::*;
use crate::text::{
    is_whitespace,
    is_word,
    lemma_tokens_of_three_words,
    same_text,
    split_whitespace,
    tokens,
    trim,
    trimmed,
};

verus! {

/// The pattern that finds one operator character and captures it.
pub const OPERATOR_PATTERN: &'static str = r"([+\-*/])";

/// The replacement that puts a space on each side of what was captured.
pub const SPACED_OPERATOR: &'static str = " $1 ";

/// Whether `c` is one of the operator characters `+ - * /`.
pub open spec fn is_operator(c: char) -> bool {
    c == '+' || c == '-' || c == '*' || c == '/'
}

/// `s` with a space put before and after each operator character. This
/// looks at characters only: the sign of a number is an operator character
/// too and is set apart like any other, so that `-5` becomes ` - 5`, with
/// the two tokens `-` and `5`, and `1e-3` becomes `1e - 3`.
pub open spec fn spaced(s: Seq<char>) -> Seq<char>
    decreases s.len(),
{
    if s.len() == 0 {
        s
    } else if is_operator(s.last()) {
        spaced(s.drop_last()) + seq![' ', s.last(), ' ']
    } else {
        spaced(s.drop_last()).push(s.last())
    }
}

/// Compiles `pattern` with `regex::Regex::new` and applies
/// `Regex::replace_all` to `text` with `replacement`. It is asked for one
/// thing only, which `requires` fixes: the pattern is the bracketed class of
/// the four operator characters in a capture group. It compiles, so the
/// `unwrap` does not panic; it matches one such character at a time; and
/// the replacement stands for the captured character with a space on
/// either side. `replace_all` replaces every match and keeps the text
/// between matches as it is, which is what `spaced` says.
#[verifier::external_body]
fn replace_all(pattern: &str, text: &str, replacement: &str) -> (out: String)
    requires
        pattern@ == OPERATOR_PATTERN@,
        replacement@ == SPACED_OPERATOR@,
    ensures
        out@ == spaced(text@),
{
    regex::Regex::new(pattern).unwrap().replace_all(text, replacement).into_owned()
}

/// Puts a space before and after each operator character of `text`, so
/// that `2+3` has the tokens of `2 + 3`. A sign is split off its number in
/// the same way: `-5` comes out as ` - 5`, which is the two tokens `-` and
/// `5` and no number.
pub fn space_operators(text: &str) -> (out: String)
    ensures
        out@ == spaced(text@),
{
    replace_all(OPERATOR_PATTERN, text, SPACED_OPERATOR)
}

/// Why an expression has no value.
#[derive(Clone, Copy, Debug, PartialEq, Eq, Structural)]
pub enum EvalError {
    /// An operand is not a number.
    InvalidNumber,
    /// The first of two tokens names no function.
    UnknownOperation,
    /// The second of three tokens is no operator.
    UnknownOperator,
    /// The divisor is zero.
    DivisionByZero,
    /// The expression has no tokens, or more than three.
    InvalidFormat,
}

/// The text shown for an error.
pub open spec fn error_message(error: EvalError) -> Seq<char> {
    match error {
        EvalError::InvalidNumber => "Invalid number"@,
        EvalError::UnknownOperation => "Unknown operation"@,
        EvalError::UnknownOperator => "Unknown operator"@,
        EvalError::DivisionByZero => "Division by zero"@,
        EvalError::InvalidFormat => "Invalid expression format"@,
    }
}

impl EvalError {
    /// The text shown for this error.
    pub fn message(&self) -> (text: &'static str)
        ensures
            text@ == error_message(*self),
    {
        match self {
            EvalError::InvalidNumber => "Invalid number",
            EvalError::UnknownOperation => "Unknown operation",
            EvalError::UnknownOperator => "Unknown operator",
            EvalError::DivisionByZero => "Division by zero",
            EvalError::InvalidFormat => "Invalid expression format",
        }
    }
}

/// What the caller found an operand token to be.
#[derive(Clone, Copy, Debug, PartialEq, Eq, Structural)]
pub enum Operand {
    /// The token is not a number.
    Unparsable,
    /// The token is a number equal to zero.
    Zero,
    /// The token is any other number.
    NonZero,
}

/// What is to be computed from the operands.
#[derive(Clone, Copy, Debug, PartialEq, Eq, Structural)]
pub enum Operation {
    /// The constant pi; no operand.
    Pi,
    /// The operand itself.
    Value,
    /// Sine of the operand, in radians.
    Sine,
    /// Cosine of the operand, in radians.
    Cosine,
    /// Tangent of the operand, in radians.
    Tangent,
    /// Natural logarithm of the operand.
    NaturalLog,
    /// Left plus right.
    Add,
    /// Left minus right.
    Subtract,
    /// Left times right.
    Multiply,
    /// Left divided by right.
    Divide,
}

/// An expression by the number of its tokens.
#[derive(Debug, PartialEq, Eq)]
pub enum Expression {
    /// One token: the name `pi`, or a number.
    Single { token: String },
    /// Two tokens: a function and its operand.
    Unary { function: String, operand: String },
    /// Three tokens: left operand, operator, right operand.
    Binary { left: String, operator: String, right: String },
}

/// An expression as contracts see it.
pub enum Shape {
    Single { token: Seq<char> },
    Unary { function: Seq<char>, operand: Seq<char> },
    Binary { left: Seq<char>, operator: Seq<char>, right: Seq<char> },
}

impl View for Expression {
    type V = Shape;

    open spec fn view(&self) -> Shape {
        match self {
            Expression::Single { token } => Shape::Single { token: token@ },
            Expression::Unary { function, operand } => Shape::Unary {
                function: function@,
                operand: operand@,
            },
            Expression::Binary { left, operator, right } => Shape::Binary {
                left: left@,
                operator: operator@,
                right: right@,
            },
        }
    }
}

/// The shape of a token sequence: one, two or three tokens make an
/// expression, any other number of tokens does not.
pub open spec fn classified(words: Seq<Seq<char>>) -> Result<Shape, EvalError> {
    if words.len() == 1 {
        Ok(Shape::Single { token: words[0] })
    } else if words.len() == 2 {
        Ok(Shape::Unary { function: words[0], operand: words[1] })
    } else if words.len() == 3 {
        Ok(Shape::Binary { left: words[0], operator: words[1], right: words[2] })
    } else {
        Err(EvalError::InvalidFormat)
    }
}

/// The function that a name stands for.
pub open spec fn function_named(name: Seq<char>) -> Option<Operation> {
    if name == "sin"@ {
        Some(Operation::Sine)
    } else if name == "cos"@ {
        Some(Operation::Cosine)
    } else if name == "tan"@ {
        Some(Operation::Tangent)
    } else if name == "log"@ {
        Some(Operation::NaturalLog)
    } else {
        None
    }
}

/// The operation that an operator token stands for.
pub open spec fn operator_named(name: Seq<char>) -> Option<Operation> {
    if name == "+"@ {
        Some(Operation::Add)
    } else if name == "-"@ {
        Some(Operation::Subtract)
    } else if name == "*"@ {
        Some(Operation::Multiply)
    } else if name == "/"@ {
        Some(Operation::Divide)
    } else {
        None
    }
}

/// What an expression comes to, given what its operands were found to be.
/// `first` speaks of the only operand, or of the left one; `second` of the
/// right one. Operands are looked at before the function or the operator,
/// the left one first; a zero divisor is the last thing looked at.
pub open spec fn resolved(shape: Shape, first: Operand, second: Operand) -> Result<
    Operation,
    EvalError,
> {
    match shape {
        Shape::Single { token } => if token == "pi"@ {
            Ok(Operation::Pi)
        } else if first is Unparsable {
            Err(EvalError::InvalidNumber)
        } else {
            Ok(Operation::Value)
        },
        Shape::Unary { function, operand } => if first is Unparsable {
            Err(EvalError::InvalidNumber)
        } else {
            match function_named(function) {
                Some(operation) => Ok(operation),
                None => Err(EvalError::UnknownOperation),
            }
        },
        Shape::Binary { left, operator, right } => if first is Unparsable || second is Unparsable {
            Err(EvalError::InvalidNumber)
        } else {
            match operator_named(operator) {
                Some(operation) => if operation == Operation::Divide && second is Zero {
                    Err(EvalError::DivisionByZero)
                } else {
                    Ok(operation)
                },
                None => Err(EvalError::UnknownOperator),
            }
        },
    }
}

/// Cuts `expression` into tokens at white space and tells its shape.
pub fn classify(expression: &str) -> (r: Result<Expression, EvalError>)
    ensures
        match r {
            Ok(found) => classified(tokens(expression@)) == Ok::<Shape, EvalError>(found@),
            Err(error) => classified(tokens(expression@)) == Err::<Shape, EvalError>(error),
        },
{
    let words = split_whitespace(expression);
    if words.len() == 1 {
        Ok(Expression::Single { token: words[0].clone() })
    } else if words.len() == 2 {
        Ok(Expression::Unary { function: words[0].clone(), operand: words[1].clone() })
    } else if words.len() == 3 {
        Ok(
            Expression::Binary {
                left: words[0].clone(),
                operator: words[1].clone(),
                right: words[2].clone(),
            },
        )
    } else {
        Err(EvalError::InvalidFormat)
    }
}

/// The function that `name` stands for, if any.
pub fn function_of(name: &str) -> (found: Option<Operation>)
    ensures
        found == function_named(name@),
{
    if same_text(name, "sin") {
        Some(Operation::Sine)
    } else if same_text(name, "cos") {
        Some(Operation::Cosine)
    } else if same_text(name, "tan") {
        Some(Operation::Tangent)
    } else if same_text(name, "log") {
        Some(Operation::NaturalLog)
    } else {
        None
    }
}

/// The operation that the operator token `name` stands for, if any.
pub fn operator_of(name: &str) -> (found: Option<Operation>)
    ensures
        found == operator_named(name@),
{
    if same_text(name, "+") {
        Some(Operation::Add)
    } else if same_text(name, "-") {
        Some(Operation::Subtract)
    } else if same_text(name, "*") {
        Some(Operation::Multiply)
    } else if same_text(name, "/") {
        Some(Operation::Divide)
    } else {
        None
    }
}

impl Expression {
    /// The token that `first` is to speak of: the operand whose value the
    /// caller has to find first, if the expression has one.
    pub fn first_operand(&self) -> (token: Option<&str>)
        ensures
            match self@ {
                Shape::Single { token: t } => if t == "pi"@ {
                    token is None
                } else {
                    token matches Some(s) && s@ == t
                },
                Shape::Unary { function, operand } => token matches Some(s) && s@ == operand,
                Shape::Binary { left, operator, right } => token matches Some(s) && s@ == left,
            },
    {
        match self {
            Expression::Single { token } => if same_text(token.as_str(), "pi") {
                None
            } else {
                Some(token.as_str())
            },
            Expression::Unary { function, operand } => Some(operand.as_str()),
            Expression::Binary { left, operator, right } => Some(left.as_str()),
        }
    }

    /// The token that `second` is to speak of: the right operand of a
    /// three-token expression.
    pub fn second_operand(&self) -> (token: Option<&str>)
        ensures
            match self@ {
                Shape::Binary { left, operator, right } => token matches Some(s) && s@ == right,
                _ => token is None,
            },
    {
        match self {
            Expression::Binary { left, operator, right } => Some(right.as_str()),
            _ => None,
        }
    }

    /// Chooses the operation to carry out, or the failure to report.
    pub fn resolve(&self, first: Operand, second: Operand) -> (r: Result<Operation, EvalError>)
        ensures
            r == resolved(self@, first, second),
    {
        match self {
            Expression::Single { token } => {
                if same_text(token.as_str(), "pi") {
                    Ok(Operation::Pi)
                } else if first == Operand::Unparsable {
                    Err(EvalError::InvalidNumber)
                } else {
                    Ok(Operation::Value)
                }
            },
            Expression::Unary { function, operand } => {
                if first == Operand::Unparsable {
                    return Err(EvalError::InvalidNumber);
                }
                match function_of(function.as_str()) {
                    Some(operation) => Ok(operation),
                    None => Err(EvalError::UnknownOperation),
                }
            },
            Expression::Binary { left, operator, right } => {
                if first == Operand::Unparsable || second == Operand::Unparsable {
                    return Err(EvalError::InvalidNumber);
                }
                match operator_of(operator.as_str()) {
                    Some(operation) => {
                        if operation == Operation::Divide && second == Operand::Zero {
                            Err(EvalError::DivisionByZero)
                        } else {
                            Ok(operation)
                        }
                    },
                    None => Err(EvalError::UnknownOperator),
                }
            },
        }
    }
}

/// Spacing works piece by piece.
pub proof fn lemma_spaced_concat(a: Seq<char>, b: Seq<char>)
    ensures
        spaced(a + b) == spaced(a) + spaced(b),
    decreases b.len(),
{
    if b.len() > 0 {
        assert((a + b).drop_last() =~= a + b.drop_last());
        lemma_spaced_concat(a, b.drop_last());
    }
}

/// Text without operator characters is left as it is.
pub proof fn lemma_spaced_plain(s: Seq<char>)
    requires
        forall|i: int| 0 <= i < s.len() ==> !is_operator(#[trigger] s[i]),
    ensures
        spaced(s) == s,
    decreases s.len(),
{
    if s.len() > 0 {
        lemma_spaced_plain(s.drop_last());
    }
}

/// A three-token line `left operator right` whose operator is one of
/// `+ - * /` and whose operands are numbers comes to that operator's
/// operation, unless it divides by zero.
pub proof fn lemma_binary_expression(
    left: Seq<char>,
    operator: Seq<char>,
    right: Seq<char>,
    first: Operand,
    second: Operand,
)
    requires
        is_word(left),
        is_word(right),
        operator_named(operator) is Some,
        first !is Unparsable,
        second !is Unparsable,
        !(operator_named(operator) == Some(Operation::Divide) && second is Zero),
    ensures
        classified(tokens(left + seq![' '] + operator + seq![' '] + right)) == Ok::<
            Shape,
            EvalError,
        >(Shape::Binary { left, operator, right }),
        resolved(Shape::Binary { left, operator, right }, first, second) == Ok::<
            Operation,
            EvalError,
        >(operator_named(operator).unwrap()),
{
    reveal_strlit("+");
    reveal_strlit("-");
    reveal_strlit("*");
    reveal_strlit("/");
    lemma_tokens_of_three_words(left, operator, right);
}

/// Operands written against an operator, with no space between, are read
/// as if spaces stood there: `a+b` has the tokens of `a + b`, for operands
/// that are words free of operator characters.
pub proof fn lemma_spacing_splits_binary(left: Seq<char>, operator: char, right: Seq<char>)
    requires
        is_word(left),
        is_word(right),
        is_operator(operator),
        forall|i: int| 0 <= i < left.len() ==> !is_operator(#[trigger] left[i]),
        forall|i: int| 0 <= i < right.len() ==> !is_operator(#[trigger] right[i]),
    ensures
        tokens(spaced(left + seq![operator] + right)) == seq![left, seq![operator], right],
{
    let op = seq![operator];
    lemma_spaced_concat(left + op, right);
    lemma_spaced_concat(left, op);
    lemma_spaced_plain(left);
    lemma_spaced_plain(right);
    assert(spaced(op.drop_last()) =~= Seq::<char>::empty());
    lemma_tokens_of_three_words(left, op, right);
    assert(spaced(left + op + right) =~= left + seq![' '] + op + seq![' '] + right);
}

/// Prepares a line as typed for evaluation: the line without the white
/// space around it, which is what the history will show, and the shape
/// of that text once its operators are set apart by spaces.
pub fn prepare_expression(line: &str) -> (prepared: (String, Result<Expression, EvalError>))
    ensures
        prepared.0@ == trimmed(line@),
        match prepared.1 {
            Ok(found) => classified(tokens(spaced(trimmed(line@)))) == Ok::<Shape, EvalError>(
                found@,
            ),
            Err(error) => classified(tokens(spaced(trimmed(line@)))) == Err::<Shape, EvalError>(
                error,
            ),
        },
{
    let text = trim(line);
    let processed = space_operators(text.as_str());
    let shape = classify(processed.as_str());
    (text, shape)
}

} // verus!

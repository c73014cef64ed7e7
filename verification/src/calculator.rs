//! Evaluation of one expression, and the form in which its outcome crosses
//! the boundary to a host.
//!
//! A number is carried as the bit pattern of an IEEE 754 double, in a `u64`.
use crate::blank::{blank, is_blank};
use crate::engine::{eval_str, eval_str_failure};
use crate::error::EvaluationError;
use vstd::prelude::*;

verus! {

/// The text that reports an expression without any token: the engine's words
/// for an expression that ends where an operand is due.
pub open spec fn missing_argument() -> Seq<char> {
    "Parse error: Missing argument at the end of expression."@
}

/// The diagnostic that is owed for an expression, or `None` where a number is
/// owed. A blank expression lacks its operand; on every other one the engine
/// decides.
pub open spec fn failure(expression: Seq<char>) -> Option<Seq<char>> {
    if blank(expression) {
        Some(missing_argument())
    } else {
        eval_str_failure(expression)
    }
}

/// The diagnostic that an outcome carries, `None` for a number.
pub open spec fn diagnostic(outcome: Result<u64, EvaluationError>) -> Option<Seq<char>> {
    match outcome {
        Ok(_) => None,
        Err(error) => Some(error@),
    }
}

/// The diagnostic that an outcome carries once it has crossed the boundary.
pub open spec fn boundary_diagnostic(outcome: Result<u64, String>) -> Option<Seq<char>> {
    match outcome {
        Ok(_) => None,
        Err(message) => Some(message@),
    }
}

/// The text of [`missing_argument`], which is not empty.
fn missing_argument_text() -> (text: String)
    ensures
        text@ == missing_argument(),
        text@.len() > 0,
{
    proof {
        reveal_strlit("Parse error: Missing argument at the end of expression.");
    }
    "Parse error: Missing argument at the end of expression.".to_owned()
}

/// Evaluates `expression`.
///
/// Every text is taken. A blank expression is an error and the engine is not
/// asked; any other is handed to the engine as it stands. The outcome is a
/// number, as the bits of a double, exactly where no diagnostic is owed, and
/// an error with the owed diagnostic otherwise. A diagnostic is never empty.
pub fn evaluate(expression: &str) -> (outcome: Result<u64, EvaluationError>)
    ensures
        diagnostic(outcome) == failure(expression@),
        outcome is Err ==> outcome->Err_0@.len() > 0,
{
    if is_blank(expression) {
        Err(EvaluationError::new(missing_argument_text()))
    } else {
        structured(eval_str(expression))
    }
}

/// The outcome for what the engine returned: its number as it is, or its
/// text as the diagnostic of an error.
pub fn structured(evaluated: Result<u64, String>) -> (outcome: Result<u64, EvaluationError>)
    ensures
        evaluated is Ok ==> outcome == Ok::<u64, EvaluationError>(evaluated->Ok_0),
        evaluated is Err ==> outcome is Err && outcome->Err_0@ == evaluated->Err_0@,
{
    match evaluated {
        Ok(bits) => Ok(bits),
        Err(message) => Err(EvaluationError::new(message)),
    }
}

/// Flattens an outcome for the boundary, which carries no structured error:
/// a number passes as it is, an error leaves its diagnostic text.
pub fn flatten(outcome: Result<u64, EvaluationError>) -> (flat: Result<u64, String>)
    ensures
        outcome is Ok ==> flat == Ok::<u64, String>(outcome->Ok_0),
        outcome is Err ==> flat is Err && flat->Err_0@ == outcome->Err_0@,
{
    match outcome {
        Ok(bits) => Ok(bits),
        Err(error) => Err(error.into_message()),
    }
}

/// Evaluates `expression` for a host: [`evaluate`], with the error flattened
/// to its text. The number, as the bits of a double, passes unchanged.
pub fn evaluate_expression(expression: &str) -> (outcome: Result<u64, String>)
    ensures
        boundary_diagnostic(outcome) == failure(expression@),
        outcome is Err ==> outcome->Err_0@.len() > 0,
{
    flatten(evaluate(expression))
}

/// Evaluation keeps no state: two outcomes of one expression are both
/// numbers or both errors, and two errors carry the same diagnostic.
pub proof fn lemma_evaluation_repeats(
    expression: Seq<char>,
    first: Result<u64, String>,
    second: Result<u64, String>,
)
    requires
        boundary_diagnostic(first) == failure(expression),
        boundary_diagnostic(second) == failure(expression),
    ensures
        first is Err <==> second is Err,
        first is Err ==> first->Err_0@ == second->Err_0@,
{
}

/// A blank expression is never a number: its outcome is an error, and the
/// diagnostic is the one for a missing operand.
pub proof fn lemma_blank_fails(expression: Seq<char>, outcome: Result<u64, String>)
    requires
        blank(expression),
        boundary_diagnostic(outcome) == failure(expression),
    ensures
        outcome is Err,
        outcome->Err_0@ == missing_argument(),
{
}

} // verus!

//! The expression engine: the `meval` crate, reached through its one entry
//! point. Nothing in this file is proved; the rest of the library is proved
//! against what is stated here.
use crate::blank::blank;
use vstd::prelude::*;

verus! {

/// What `meval::eval_str` holds against an expression: the text of the error
/// that it returns for it, or `None` where it returns a number.
///
/// Whether the engine fails, and with which words, is settled by the text of
/// the expression alone: by its tokens, by the names it uses and by the
/// number of arguments it hands to each function. The number that a sound
/// expression evaluates to gets no such name. It comes out of the platform's
/// floating-point library, and neither the last digits of a sine nor the sign
/// of a NaN are the same on every machine.
pub uninterp spec fn eval_str_failure(expression: Seq<char>) -> Option<Seq<char>>;

/// Calls `meval::eval_str` on `expression`, with the engine's built-in
/// constants and functions.
///
/// A number comes back as the bit pattern of the IEEE 754 double that the
/// engine computed, an error as the text that its `Display` gives. Claimed of
/// the engine, and not proved:
/// - it returns on every expression that is not blank (on a blank one its
///   tokenizer panics, so those are left out);
/// - it fails exactly where [`eval_str_failure`] holds a text, and that text
///   is the one returned;
/// - the text of an error is never empty: each kind of error starts with a
///   fixed prefix.
#[verifier::external_body]
pub(crate) fn eval_str(expression: &str) -> (r: Result<u64, String>)
    requires
        !blank(expression@),
    ensures
        r is Err <==> eval_str_failure(expression@) is Some,
        r is Err ==> eval_str_failure(expression@) == Some(r->Err_0@),
        r is Err ==> r->Err_0@.len() > 0,
{
    match meval::eval_str(expression) {
        Ok(value) => Ok(value.to_bits()),
        Err(error) => Err(error.to_string()),
    }
}

} // verus!

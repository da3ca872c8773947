//! Evaluation of expressions by evalexpr, limited to the expressions that it
//! evaluates without panicking.
use vstd::prelude::*;
use crate::json::JsonValue;
use crate::module::ModuleError;
use crate::text::{chars_of, push_str};

verus! {

#[verifier::external_type_specification]
#[verifier::external_body]
pub struct ExEvalValue(evalexpr::Value);

/// The longest expression handed to evalexpr; it keeps the recursion of
/// its parser and evaluator shallow.
pub const MAX_EXPRESSION_LEN: usize = 1000;

/// `w` stands in `s` at position `i`.
pub open spec fn occurs_at(s: Seq<char>, w: Seq<char>, i: int) -> bool {
    0 <= i && i + w.len() <= s.len() && s.subrange(i, i + w.len()) == w
}

/// `w` stands somewhere in `s`.
pub open spec fn occurs(s: Seq<char>, w: Seq<char>) -> bool {
    exists|i: int| #[trigger] occurs_at(s, w, i)
}

/// An expression that evalexpr evaluates without panicking: not too long,
/// and naming none of the builtins that panic on some arguments
/// (`str::substring` slices by bytes, `math::abs` overflows on the least
/// integer, `shl` and `shr` overflow on wide shifts).
pub open spec fn supported_expression(e: Seq<char>) -> bool {
    &&& e.len() <= MAX_EXPRESSION_LEN
    &&& !occurs(e, "substring"@)
    &&& !occurs(e, "abs"@)
    &&& !occurs(e, "shl"@)
    &&& !occurs(e, "shr"@)
}

/// Tells whether `w` stands somewhere in `s`.
fn occurs_in(s: &Vec<char>, w: &Vec<char>) -> (r: bool)
    ensures
        r == occurs(s@, w@),
{
    let n = s.len();
    let m = w.len();
    let mut i: usize = 0;
    while i <= n && n - i >= m
        invariant
            n == s@.len(),
            m == w@.len(),
            i <= n + 1,
            forall|j: int| 0 <= j < i ==> !occurs_at(s@, w@, j),
        decreases n + 1 - i,
    {
        let mut k: usize = 0;
        while k < m && s[i + k] == w[k]
            invariant
                i + m <= n,
                n == s@.len(),
                m == w@.len(),
                k <= m,
                forall|p: int| 0 <= p < k ==> s@[i + p] == w@[p],
            decreases m - k,
        {
            k = k + 1;
        }
        if k == m {
            assert(s@.subrange(i as int, i + m) =~= w@);
            assert(occurs_at(s@, w@, i as int));
            return true;
        }
        assert(s@.subrange(i as int, i + m)[k as int] != w@[k as int]);
        i = i + 1;
    }
    assert forall|j: int| !occurs_at(s@, w@, j) by {
        if 0 <= j && j + m <= n {
            assert(j < i);
        }
    }
    false
}

/// Tells whether evalexpr may be handed an expression.
pub fn check_expression(e: &str) -> (r: bool)
    ensures
        r == supported_expression(e@),
{
    let cs = chars_of(e);
    if cs.len() > MAX_EXPRESSION_LEN {
        return false;
    }
    !occurs_in(&cs, &chars_of("substring")) && !occurs_in(&cs, &chars_of("abs")) && !occurs_in(
        &cs,
        &chars_of("shl"),
    ) && !occurs_in(&cs, &chars_of("shr"))
}

/// Relies on evalexpr::eval: it evaluates an expression with no variables,
/// giving a value or an error whose text is kept. Some results go through
/// floating-point functions whose precision std leaves open, so nothing is
/// promised of the value.
#[verifier::external_body]
pub fn eval_expression(expression: &str) -> (r: Result<JsonValue, String>)
    requires
        supported_expression(expression@),
{
    evalexpr::eval(expression).map(value_to_json).map_err(|e| e.to_string())
}

/// Moves an evalexpr value into JSON, kind by kind, as serde_json converts
/// integers, floats, strings and booleans; a tuple becomes an array and the
/// empty value null.
#[verifier::external_body]
fn value_to_json(val: evalexpr::Value) -> JsonValue {
    match val {
        evalexpr::Value::Int(i) => crate::json::from_serde(serde_json::Value::from(i)),
        evalexpr::Value::Float(f) => crate::json::from_serde(serde_json::Value::from(f)),
        evalexpr::Value::String(s) => JsonValue::Str(s),
        evalexpr::Value::Boolean(b) => JsonValue::Bool(b),
        evalexpr::Value::Tuple(t) => JsonValue::Array(t.into_iter().map(value_to_json).collect()),
        evalexpr::Value::Empty => JsonValue::Null,
    }
}

/// What a module gives for an evaluation: the value, or an execution error
/// whose message is "Math error: " and evalexpr's message.
pub fn finish_evaluation(outcome: Result<JsonValue, String>) -> (r: Result<JsonValue, ModuleError>)
    ensures
        match outcome {
            Ok(v) => r == Ok::<JsonValue, ModuleError>(v),
            Err(e) => match r {
                Err(ModuleError::ExecutionError(m)) => m@ == "Math error: "@ + e@,
                _ => false,
            },
        },
{
    match outcome {
        Ok(v) => Ok(v),
        Err(e) => {
            let mut m = String::from_str("Math error: ");
            push_str(&mut m, e.as_str());
            Err(ModuleError::ExecutionError(m))
        },
    }
}

/// `r` may come of an evaluation: a value, or an execution error whose
/// message begins with "Math error: ".
pub open spec fn is_evaluation_outcome(r: Result<JsonValue, ModuleError>) -> bool {
    match r {
        Ok(_) => true,
        Err(ModuleError::ExecutionError(m)) => "Math error: "@.is_prefix_of(m@),
        _ => false,
    }
}

/// Evaluates an expression that evalexpr may be handed.
pub fn evaluate(expression: &str) -> (r: Result<JsonValue, ModuleError>)
    requires
        supported_expression(expression@),
    ensures
        is_evaluation_outcome(r),
{
    let outcome = eval_expression(expression);
    let ghost o = outcome;
    let r = finish_evaluation(outcome);
    let ghost gr = r;
    proof {
        reveal_strlit("Math error: ");
        if let Err(ModuleError::ExecutionError(m)) = gr {
            if let Err(e) = o {
                assert(m@.subrange(0, "Math error: "@.len() as int) =~= "Math error: "@);
            }
        }
    }
    r
}

} // verus!

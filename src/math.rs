//! The `math` module: arithmetic expressions, powers and square roots,
//! evaluated by evalexpr.
//!
//! `pow` and `sqrt` take numbers, or strings written as decimal numerals
//! (see `is_numeral`); they are evaluated as evalexpr's `math::pow` and
//! `math::sqrt`, which read the numerals as `str::parse::<f64>` does. An expression
//! is handed to evalexpr only where `supported_expression` holds of it.
use vstd::prelude::*;
use crate::json::{JsonValue, field_of, member_of};
use crate::module::{
    ToolKey, tool_key, property_type, schema_of, str_view,
    Module, ModuleError, Tool, ToolFunction, ToolCallFunction, is_invalid_input,
    is_unknown_function,
};
use crate::expression::{check_expression, evaluate, is_evaluation_outcome, supported_expression};
use crate::text::push_str;

verus! {

pub open spec fn is_digit(c: char) -> bool {
    '0' <= c && c <= '9'
}

/// The recognizer of decimal numerals: from a state and a character, the
/// next state. States: 0 start, 1 after a sign, 2 in the integer digits,
/// 3 after a point that follows digits, 4 after a point with no digits
/// before, 5 in the fraction digits, 6 after the exponent mark, 7 after the
/// exponent's sign, 8 in the exponent digits, 9 rejected.
pub open spec fn numeral_step(st: u8, c: char) -> u8 {
    let sign = c == '+' || c == '-';
    let mark = c == 'e' || c == 'E';
    if st == 0 {
        if sign { 1 } else if is_digit(c) { 2 } else if c == '.' { 4 } else { 9 }
    } else if st == 1 {
        if is_digit(c) { 2 } else if c == '.' { 4 } else { 9 }
    } else if st == 2 {
        if is_digit(c) { 2 } else if c == '.' { 3 } else if mark { 6 } else { 9 }
    } else if st == 3 || st == 5 {
        if is_digit(c) { 5 } else if mark { 6 } else { 9 }
    } else if st == 4 {
        if is_digit(c) { 5 } else { 9 }
    } else if st == 6 {
        if sign { 7 } else if is_digit(c) { 8 } else { 9 }
    } else if st == 7 || st == 8 {
        if is_digit(c) { 8 } else { 9 }
    } else {
        9
    }
}

/// The state of the recognizer after reading `s` from position `k` on.
pub open spec fn numeral_state(s: Seq<char>, k: int, st: u8) -> u8
    decreases s.len() - k,
{
    if k < 0 || k >= s.len() {
        st
    } else {
        numeral_state(s, k + 1, numeral_step(st, s[k]))
    }
}

/// A decimal numeral as `str::parse::<f64>` reads it, but for the names of
/// infinity and NaN: an optional sign, digits with an optional point (at
/// least one digit), and an optional exponent with an optional sign.
pub open spec fn is_numeral(s: Seq<char>) -> bool {
    let st = numeral_state(s, 0, 0);
    st == 2 || st == 3 || st == 5 || st == 8
}

/// The numeral as it is handed to evalexpr: without a leading `+`.
pub open spec fn numeral_text(s: Seq<char>) -> Seq<char> {
    if s.len() > 0 && s[0] == '+' {
        s.drop_first()
    } else {
        s
    }
}

fn numeral_step_exec(st: u8, c: char) -> (r: u8)
    ensures
        r == numeral_step(st, c),
{
    let sign = c == '+' || c == '-';
    let mark = c == 'e' || c == 'E';
    let digit = '0' <= c && c <= '9';
    if st == 0 {
        if sign { 1 } else if digit { 2 } else if c == '.' { 4 } else { 9 }
    } else if st == 1 {
        if digit { 2 } else if c == '.' { 4 } else { 9 }
    } else if st == 2 {
        if digit { 2 } else if c == '.' { 3 } else if mark { 6 } else { 9 }
    } else if st == 3 || st == 5 {
        if digit { 5 } else if mark { 6 } else { 9 }
    } else if st == 4 {
        if digit { 5 } else { 9 }
    } else if st == 6 {
        if sign { 7 } else if digit { 8 } else { 9 }
    } else if st == 7 || st == 8 {
        if digit { 8 } else { 9 }
    } else {
        9
    }
}

/// Tells whether a text is a decimal numeral.
pub fn check_numeral(s: &str) -> (r: bool)
    ensures
        r == is_numeral(s@),
{
    let cs = crate::text::chars_of(s);
    let mut st: u8 = 0;
    let mut k: usize = 0;
    while k < cs.len()
        invariant
            k <= cs@.len(),
            cs@ == s@,
            numeral_state(s@, 0, 0) == numeral_state(s@, k as int, st),
        decreases cs.len() - k,
    {
        st = numeral_step_exec(st, cs[k]);
        k = k + 1;
    }
    st == 2 || st == 3 || st == 5 || st == 8
}

/// The numeral of a text, without a leading `+`.
fn numeral_string(s: &String) -> (r: String)
    ensures
        r@ == numeral_text(s@),
{
    let cs = crate::text::chars_of(s.as_str());
    if cs.len() > 0 && cs[0] == '+' {
        let r = crate::text::string_of(&cs, 1, cs.len());
        assert(r@ =~= s@.drop_first());
        r
    } else {
        s.clone()
    }
}

/// The numeral that an argument of `pow` or `sqrt` holds, or the message
/// for one that holds none.
pub open spec fn numeral_arg(v: JsonValue) -> Result<Seq<char>, Seq<char>> {
    match v {
        JsonValue::Number(n) => if is_numeral(n@) {
            Ok(numeral_text(n@))
        } else {
            Err("Value is not a valid number"@)
        },
        JsonValue::Str(s) => if is_numeral(s@) {
            Ok(numeral_text(s@))
        } else {
            Err("Value string is not a valid number"@)
        },
        _ => Err("Expected a number or a string for 'value'"@),
    }
}

/// The message for an expression that evalexpr may not be handed.
pub const UNSUPPORTED_EXPRESSION: &'static str = "Expression is too long or uses an unsupported function";

/// `r` is the expression `x`, where evalexpr may be handed it, and the
/// failure for an unsupported expression otherwise.
pub open spec fn planned(x: Seq<char>, r: Result<String, ModuleError>) -> bool {
    if supported_expression(x) {
        match r {
            Ok(s) => s@ == x,
            _ => false,
        }
    } else {
        is_invalid_input(r, UNSUPPORTED_EXPRESSION@)
    }
}

/// The expression that the `math` module hands to evalexpr for a call, or
/// the failure that comes before any evaluation.
pub open spec fn math_plan(func: ToolCallFunction, r: Result<String, ModuleError>) -> bool {
    let args = func.arguments;
    if func.name@ == "eval"@ {
        match member_of(args, "expression"@) {
            Some(JsonValue::Str(e)) => planned(e@, r),
            Some(_) => is_invalid_input(r, "Expected string expression"@),
            None => is_invalid_input(r, "Missing 'expression' argument"@),
        }
    } else if func.name@ == "pow"@ {
        match (member_of(args, "base"@), member_of(args, "exponent"@)) {
            (None, _) => is_invalid_input(r, "Missing 'base' argument"@),
            (Some(_), None) => is_invalid_input(r, "Missing 'exponent' argument"@),
            (Some(b), Some(e)) => match (numeral_arg(b), numeral_arg(e)) {
                (Err(m), _) => is_invalid_input(r, m),
                (Ok(_), Err(m)) => is_invalid_input(r, m),
                (Ok(x), Ok(y)) => planned("math::pow("@ + x + ", "@ + y + ")"@, r),
            },
        }
    } else if func.name@ == "sqrt"@ {
        match member_of(args, "value"@) {
            None => is_invalid_input(r, "Missing 'value' argument"@),
            Some(v) => match numeral_arg(v) {
                Err(m) => is_invalid_input(r, m),
                Ok(x) => planned("math::sqrt("@ + x + ")"@, r),
            },
        }
    } else {
        is_unknown_function(r, func.name@)
    }
}

/// `r` follows from the plan `p`: its failure, or what an evaluation may give.
pub open spec fn run_from_plan(p: Result<String, ModuleError>, r: Result<JsonValue, ModuleError>) -> bool {
    match p {
        Err(e) => r == Err::<JsonValue, ModuleError>(e),
        Ok(_) => is_evaluation_outcome(r),
    }
}

/// What the `math` module may give for a call: the failure of its plan, or
/// an outcome of evaluating the planned expression.
pub open spec fn math_run(func: ToolCallFunction, r: Result<JsonValue, ModuleError>) -> bool {
    exists|p: Result<String, ModuleError>| #[trigger] math_plan(func, p) && run_from_plan(p, r)
}

/// The planned expression, or the failure for one that evalexpr may not be
/// handed.
pub(crate) fn plan_expression(x: String) -> (r: Result<String, ModuleError>)
    ensures
        planned(x@, r),
{
    if check_expression(x.as_str()) {
        Ok(x)
    } else {
        Err(ModuleError::InvalidFunctionInput(text(UNSUPPORTED_EXPRESSION)))
    }
}

/// Runs a plan: hands its expression to evalexpr, or gives its failure.
pub(crate) fn run_plan(p: Result<String, ModuleError>) -> (r: Result<JsonValue, ModuleError>)
    requires
        p matches Ok(x) ==> supported_expression(x@),
    ensures
        run_from_plan(p, r),
{
    match p {
        Ok(x) => evaluate(x.as_str()),
        Err(e) => Err(e),
    }
}

pub(crate) fn text(s: &str) -> (r: String)
    ensures
        r@ == s@,
{
    String::from_str(s)
}

pub(crate) fn invalid_input<T>(msg: &str) -> (r: Result<T, ModuleError>)
    ensures
        is_invalid_input(r, msg@),
{
    Err(ModuleError::InvalidFunctionInput(text(msg)))
}

/// The module of mathematical operations.
pub struct Math;

impl Math {
    pub fn new() -> Math {
        Math
    }

    pub fn name() -> (r: &'static str)
        ensures
            r@ == "math"@,
    {
        "math"
    }

    /// The numeral that an argument holds.
    fn parse_float(&self, value: &JsonValue) -> (r: Result<String, ModuleError>)
        ensures
            match (numeral_arg(*value), r) {
                (Ok(x), Ok(s)) => s@ == x,
                (Err(m), Err(e)) => is_invalid_input(Err::<(), ModuleError>(e), m),
                _ => false,
            },
    {
        match value {
            JsonValue::Number(n) => if check_numeral(n.as_str()) {
                Ok(numeral_string(n))
            } else {
                Err(ModuleError::InvalidFunctionInput(text("Value is not a valid number")))
            },
            JsonValue::Str(s) => if check_numeral(s.as_str()) {
                Ok(numeral_string(s))
            } else {
                Err(ModuleError::InvalidFunctionInput(text("Value string is not a valid number")))
            },
            _ => Err(
                ModuleError::InvalidFunctionInput(text("Expected a number or a string for 'value'")),
            ),
        }
    }

    /// The expression `math::pow(base, exponent)`.
    fn pow(&self, base: &str, exponent: &str) -> (r: String)
        ensures
            r@ == "math::pow("@ + base@ + ", "@ + exponent@ + ")"@,
    {
        let mut e = text("math::pow(");
        push_str(&mut e, base);
        push_str(&mut e, ", ");
        push_str(&mut e, exponent);
        push_str(&mut e, ")");
        e
    }

    /// The expression `math::sqrt(value)`.
    fn sqrt(&self, value: &str) -> (r: String)
        ensures
            r@ == "math::sqrt("@ + value@ + ")"@,
    {
        let mut e = text("math::sqrt(");
        push_str(&mut e, value);
        push_str(&mut e, ")");
        e
    }

    /// The expression that a call hands to evalexpr, or the failure that
    /// comes before any evaluation.
    pub fn expression_for(&self, func: &ToolCallFunction) -> (r: Result<String, ModuleError>)
        ensures
            math_plan(*func, r),
    {
        let args = &func.arguments;
        if crate::json::string_eq(&func.name, "eval") {
            match args.get("expression") {
                Some(JsonValue::Str(e)) => plan_expression(e.clone()),
                Some(_) => invalid_input("Expected string expression"),
                None => invalid_input("Missing 'expression' argument"),
            }
        } else if crate::json::string_eq(&func.name, "pow") {
            let b = match args.get("base") {
                Some(b) => b,
                None => {
                    return invalid_input("Missing 'base' argument");
                },
            };
            let e = match args.get("exponent") {
                Some(e) => e,
                None => {
                    return invalid_input("Missing 'exponent' argument");
                },
            };
            let x = match self.parse_float(b) {
                Ok(x) => x,
                Err(m) => {
                    return Err(m);
                },
            };
            let y = match self.parse_float(e) {
                Ok(y) => y,
                Err(m) => {
                    return Err(m);
                },
            };
            plan_expression(self.pow(x.as_str(), y.as_str()))
        } else if crate::json::string_eq(&func.name, "sqrt") {
            let v = match args.get("value") {
                Some(v) => v,
                None => {
                    return invalid_input("Missing 'value' argument");
                },
            };
            match self.parse_float(v) {
                Ok(x) => plan_expression(self.sqrt(x.as_str())),
                Err(m) => Err(m),
            }
        } else {
            Err(ModuleError::UnknownFunction(func.name.clone()))
        }
    }

    /// Runs one of `eval`, `pow` and `sqrt`: hands the planned expression
    /// to evalexpr, or gives the failure that comes before.
    pub fn run_function(&self, func: &ToolCallFunction) -> (r: Result<JsonValue, ModuleError>)
        ensures
            math_run(*func, r),
    {
        let p = self.expression_for(func);
        let ghost gp = p;
        let r = run_plan(p);
        assert(math_plan(*func, gp) && run_from_plan(gp, r));
        r
    }
}

} // verus!

verus! {

/// What the module tells the model in the system prompt.
pub const MATH_PROMPT: &'static str = r#"
- **math**: Allows you to perform mathematical operations, including arithmetic, exponents, and square roots.
  - **Rules**:
    - For all arithmetic expressions, you MUST include a floating-point number in the tool call (e.g., `2.0 * 5` instead of `2 * 5`) to ensure accurate results.
    - Use the `eval` function for general arithmetic expressions (e.g., `(2.0 * 5) - 10`).
    - Use the `pow` function for exponents (e.g., `pow(5, 3)`).
    - Use the `sqrt` function for square roots (e.g., `sqrt(81)`)."#;

pub const MATH_DESCRIPTION: &'static str = "Allows you to perform mathematical operations, including arithmetic, exponents, and square roots.";

pub(crate) fn entry(key: &str, value: JsonValue) -> (r: (String, JsonValue))
    ensures
        r.0@ == key@,
        r.1 == value,
{
    (text(key), value)
}

pub(crate) fn str_value(s: &str) -> (r: JsonValue)
    ensures
        r matches JsonValue::Str(x) && x@ == s@,
        str_view(r) == s@,
{
    JsonValue::Str(text(s))
}

/// A parameter spec: an object schema with the given properties and
/// required names.
pub(crate) fn object_schema(properties: Vec<(String, JsonValue)>, required: Vec<JsonValue>) -> (r:
    JsonValue)
    ensures
        schema_of(r) == Some(
            (
                properties@.map_values(|e: (String, JsonValue)| (e.0@, property_type(e.1))),
                required@.map_values(|j: JsonValue| str_view(j)),
            ),
        ),
{
    proof {
        reveal_strlit("properties");
        reveal_strlit("required");
        reveal_strlit("type");
        reveal_strlit("object");
    }
    let ghost ps = properties@;
    let ghost rs = required@;
    let es = vec![
        entry("properties", JsonValue::Object(properties)),
        entry("required", JsonValue::Array(required)),
        entry("type", str_value("object")),
    ];
    proof {
        reveal_with_fuel(field_of, 4);
        assert(es@[0].0@.len() == 10 && es@[1].0@.len() == 8 && es@[2].0@.len() == 4);
        assert(field_of(es@, "type"@) == Some(es@[2].1));
        assert(field_of(es@, "properties"@) == Some(es@[0].1));
        assert(field_of(es@, "required"@) == Some(es@[1].1));
    }
    JsonValue::Object(es)
}

/// The schema of one parameter.
pub(crate) fn property(name: &str, kind: &str, description: &str) -> (r: (String, JsonValue))
    ensures
        r.0@ == name@,
        property_type(r.1) == kind@,
{
    proof {
        reveal_strlit("description");
        reveal_strlit("type");
    }
    let es = vec![entry("description", str_value(description)), entry("type", str_value(kind))];
    proof {
        reveal_with_fuel(field_of, 3);
        assert(es@[0].0@.len() == 11 && es@[1].0@.len() == 4);
        assert(field_of(es@, "type"@) == Some(es@[1].1));
    }
    entry(name, JsonValue::Object(es))
}

fn function_tool(name: &str, description: &str, parameters: JsonValue) -> (r: Tool)
    ensures
        tool_key(r) == ("function"@, "math"@, name@, description@, schema_of(parameters)),
{
    Tool {
        tool_type: text("function"),
        function: ToolFunction {
            name: text(name),
            description: text(description),
            module: text(Math::name()),
            parameters,
        },
    }
}

impl Module for Math {
    open spec fn spec_name(&self) -> Seq<char> {
        "math"@
    }

    open spec fn spec_description(&self) -> Seq<char> {
        MATH_DESCRIPTION@
    }

    open spec fn spec_prompt(&self) -> Seq<char> {
        MATH_PROMPT@
    }

    open spec fn spec_run(&self, func: ToolCallFunction, r: Result<JsonValue, ModuleError>) -> bool {
        math_run(func, r)
    }

    open spec fn spec_tools(&self) -> Seq<ToolKey> {
        seq![
            (
                "function"@,
                "math"@,
                "eval"@,
                "Evaluate a mathematical expression"@,
                Some((seq![("expression"@, "string"@)], seq!["expression"@])),
            ),
            (
                "function"@,
                "math"@,
                "pow"@,
                "Raises a base to the power of an exponent"@,
                Some(
                    (
                        seq![("base"@, "number"@), ("exponent"@, "number"@)],
                        seq!["base"@, "exponent"@],
                    ),
                ),
            ),
            (
                "function"@,
                "math"@,
                "sqrt"@,
                "Calculates the square root of a number"@,
                Some((seq![("value"@, "number"@)], seq!["value"@])),
            ),
        ]
    }

    fn name(&self) -> (r: &'static str) {
        Math::name()
    }

    fn description(&self) -> (r: &'static str) {
        MATH_DESCRIPTION
    }

    fn get_prompt(&self) -> (r: &'static str) {
        MATH_PROMPT
    }

    fn run(&self, func: &ToolCallFunction) -> (r: Result<JsonValue, ModuleError>) {
        self.run_function(func)
    }

    fn tools(&self) -> (r: Vec<Tool>) {
        let eval_props = vec![
            property(
                "expression",
                "string",
                "Mathematical expression to evaluate (e.g., '2.0 + 2.0', '5^3')",
            ),
        ];
        let eval_required = vec![str_value("expression")];
        let pow_props = vec![
            property("base", "number", "The base number"),
            property("exponent", "number", "The exponent"),
        ];
        let pow_required = vec![str_value("base"), str_value("exponent")];
        let sqrt_props = vec![property("value", "number", "The number to find the square root of")];
        let sqrt_required = vec![str_value("value")];
        assert(eval_props@.map_values(|e: (String, JsonValue)| (e.0@, property_type(e.1)))
            =~= seq![("expression"@, "string"@)]);
        assert(eval_required@.map_values(|j: JsonValue| str_view(j)) =~= seq!["expression"@]);
        assert(pow_props@.map_values(|e: (String, JsonValue)| (e.0@, property_type(e.1)))
            =~= seq![("base"@, "number"@), ("exponent"@, "number"@)]);
        assert(pow_required@.map_values(|j: JsonValue| str_view(j)) =~= seq![
            "base"@,
            "exponent"@,
        ]);
        assert(sqrt_props@.map_values(|e: (String, JsonValue)| (e.0@, property_type(e.1)))
            =~= seq![("value"@, "number"@)]);
        assert(sqrt_required@.map_values(|j: JsonValue| str_view(j)) =~= seq!["value"@]);
        let eval = function_tool(
            "eval",
            "Evaluate a mathematical expression",
            object_schema(eval_props, eval_required),
        );
        let pow = function_tool(
            "pow",
            "Raises a base to the power of an exponent",
            object_schema(pow_props, pow_required),
        );
        let sqrt = function_tool(
            "sqrt",
            "Calculates the square root of a number",
            object_schema(sqrt_props, sqrt_required),
        );
        let r = vec![eval, pow, sqrt];
        assert(r@.map_values(|t: Tool| tool_key(t)) =~= self.spec_tools());
        r
    }
}

} // verus!

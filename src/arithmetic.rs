//! The `arithmetic` module: one function, `eval`, that evaluates an
//! arithmetic expression with evalexpr.
use vstd::prelude::*;
use crate::json::{JsonValue, member_of};
use crate::math::{
    invalid_input, object_schema, plan_expression, planned, property, run_from_plan, run_plan,
    str_value, text,
};
use crate::module::{
    Module, ModuleError, Tool, ToolCallFunction, ToolFunction, ToolKey, is_invalid_input,
    is_unknown_function, tool_key, property_type, str_view,
};

verus! {

pub const ARITHMETIC_DESCRIPTION: &'static str = "Allows you to perform arithmetic operations.";

pub const ARITHMETIC_PROMPT: &'static str = "
- **arithmetic**: Allows you to perform arithmetic operations with the `eval` function (e.g., `2.0 + 2.0`).";

/// The expression that the `arithmetic` module hands to evalexpr for a
/// call, or the failure that comes before any evaluation.
pub open spec fn arithmetic_plan(func: ToolCallFunction, r: Result<String, ModuleError>) -> bool {
    if func.name@ != "eval"@ {
        is_unknown_function(r, func.name@)
    } else {
        match member_of(func.arguments, "expression"@) {
            Some(JsonValue::Str(e)) => planned(e@, r),
            Some(_) => is_invalid_input(r, "Expected string expression"@),
            None => is_invalid_input(r, "Missing 'expression' argument"@),
        }
    }
}

/// What the `arithmetic` module may give for a call.
pub open spec fn arithmetic_run(func: ToolCallFunction, r: Result<JsonValue, ModuleError>) -> bool {
    exists|p: Result<String, ModuleError>| #[trigger] arithmetic_plan(func, p) && run_from_plan(p, r)
}

/// The module of arithmetic expressions.
pub struct Arithmetic;

impl Arithmetic {
    pub fn new() -> Arithmetic {
        Arithmetic
    }

    pub fn name() -> (r: &'static str)
        ensures
            r@ == "arithmetic"@,
    {
        "arithmetic"
    }

    /// The expression that a call hands to evalexpr, or the failure that
    /// comes before any evaluation.
    pub fn expression_for(&self, func: &ToolCallFunction) -> (r: Result<String, ModuleError>)
        ensures
            arithmetic_plan(*func, r),
    {
        if !crate::json::string_eq(&func.name, "eval") {
            return Err(ModuleError::UnknownFunction(func.name.clone()));
        }
        match func.arguments.get("expression") {
            Some(JsonValue::Str(e)) => plan_expression(e.clone()),
            Some(_) => invalid_input("Expected string expression"),
            None => invalid_input("Missing 'expression' argument"),
        }
    }

    /// Runs `eval`.
    pub fn run_function(&self, func: &ToolCallFunction) -> (r: Result<JsonValue, ModuleError>)
        ensures
            arithmetic_run(*func, r),
    {
        let p = self.expression_for(func);
        let ghost gp = p;
        let r = run_plan(p);
        assert(arithmetic_plan(*func, gp) && run_from_plan(gp, r));
        r
    }
}

impl Module for Arithmetic {
    open spec fn spec_name(&self) -> Seq<char> {
        "arithmetic"@
    }

    open spec fn spec_description(&self) -> Seq<char> {
        ARITHMETIC_DESCRIPTION@
    }

    open spec fn spec_prompt(&self) -> Seq<char> {
        ARITHMETIC_PROMPT@
    }

    open spec fn spec_run(&self, func: ToolCallFunction, r: Result<JsonValue, ModuleError>) -> bool {
        arithmetic_run(func, r)
    }

    open spec fn spec_tools(&self) -> Seq<ToolKey> {
        seq![
            (
                "function"@,
                "arithmetic"@,
                "eval"@,
                "Evaluate an expression"@,
                Some((seq![("expression"@, "string"@)], seq!["expression"@])),
            ),
        ]
    }

    fn name(&self) -> (r: &'static str) {
        Arithmetic::name()
    }

    fn description(&self) -> (r: &'static str) {
        ARITHMETIC_DESCRIPTION
    }

    fn get_prompt(&self) -> (r: &'static str) {
        ARITHMETIC_PROMPT
    }

    fn run(&self, func: &ToolCallFunction) -> (r: Result<JsonValue, ModuleError>) {
        self.run_function(func)
    }

    fn tools(&self) -> (r: Vec<Tool>) {
        let props = vec![
            property(
                "expression",
                "string",
                "Mathematical expression to evaluate (e.g., '2 + 2', 'sqrt(16)')",
            ),
        ];
        let required = vec![str_value("expression")];
        assert(props@.map_values(|e: (String, JsonValue)| (e.0@, property_type(e.1))) =~= seq![
            ("expression"@, "string"@),
        ]);
        assert(required@.map_values(|j: JsonValue| str_view(j)) =~= seq!["expression"@]);
        let eval = Tool {
            tool_type: text("function"),
            function: ToolFunction {
                name: text("eval"),
                description: text("Evaluate an expression"),
                module: text(Arithmetic::name()),
                parameters: object_schema(props, required),
            },
        };
        let r = vec![eval];
        assert(r@.map_values(|t: Tool| tool_key(t)) =~= self.spec_tools());
        r
    }
}

} // verus!

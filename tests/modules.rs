use jarvis::arithmetic::Arithmetic;
use jarvis::error::AppError;
use jarvis::json::JsonValue;
use jarvis::math::{check_numeral, Math};
use jarvis::module::{Module, ModuleError, ToolCallFunction};
use jarvis::registry::{BuiltinModule, ModuleRegistry};

fn json(text: &str) -> JsonValue {
    JsonValue::parse(text).unwrap()
}

fn func(name: &str, module: &str, arguments: &str) -> ToolCallFunction {
    ToolCallFunction {
        name: name.to_string(),
        module: module.to_string(),
        arguments: json(arguments),
    }
}

fn number_text(x: f64) -> String {
    serde_json::Value::from(x).to_string()
}

#[test]
fn test_eval() {
    let math = Math::new();
    let result = math
        .run(&func("eval", Math::name(), r#"{ "expression": "2000.0 * 2122.0" }"#))
        .unwrap();
    assert_eq!(result.to_json_string(), number_text(4244000.0));
}

#[test]
fn test_eval_with_division() {
    let math = Math::new();
    let result = math
        .run(&func(
            "eval",
            Math::name(),
            r#"{ "expression": "(2000.0 * 2122.0) / (22124.0 * 900.0)" }"#,
        ))
        .unwrap();
    let expected_float = (2000.0 * 2122.0) / (22124.0 * 900.0);

    let actual_float: f64 = serde_json::from_str(&result.to_json_string()).unwrap();

    println!("Expected: {}, Actual: {}", expected_float, actual_float);
    let epsilon = 1e-9;
    assert!((actual_float - expected_float).abs() < epsilon);
}

#[test]
fn test_pow_number() {
    let math = Math::new();
    let result = math
        .run(&func("pow", Math::name(), r#"{ "base": 5, "exponent": 3 }"#))
        .unwrap();
    assert_eq!(result.to_json_string(), number_text(125.0));
}

#[test]
fn test_pow_string() {
    let math = Math::new();
    let result = math
        .run(&func("pow", Math::name(), r#"{ "base": "5", "exponent": "3" }"#))
        .unwrap();
    assert_eq!(result.to_json_string(), number_text(125.0));
}

#[test]
fn test_sqrt_number() {
    let math = Math::new();
    let result = math
        .run(&func("sqrt", Math::name(), r#"{ "value": 81 }"#))
        .unwrap();
    assert_eq!(result.to_json_string(), number_text(9.0));
}

#[test]
fn test_sqrt_string() {
    let math = Math::new();
    let result = math
        .run(&func("sqrt", Math::name(), r#"{ "value": "81" }"#))
        .unwrap();
    assert_eq!(result.to_json_string(), number_text(9.0));
}

#[test]
fn dispatch_math_eval_through_the_registry() {
    let registry = ModuleRegistry::new();
    let result = registry
        .execute(&func("eval", "math", r#"{"expression":"2000.0*2122.0"}"#))
        .unwrap();
    assert_eq!(result.to_json_string(), "4244000.0");
}

#[test]
fn dispatch_to_unknown_module_fails() {
    let registry = ModuleRegistry::new();
    let r = registry.execute(&func("eval", "web", r#"{"expression":"1"}"#));
    assert_eq!(r, Err(AppError::ModuleNotFound("web".to_string())));
}

#[test]
fn unknown_function_is_reported() {
    let r = Math::new().run(&func("cbrt", "math", "{}"));
    assert_eq!(r, Err(ModuleError::UnknownFunction("cbrt".to_string())));
    let registry = ModuleRegistry::new();
    let r = registry.execute(&func("cbrt", "math", "{}"));
    assert_eq!(
        r,
        Err(AppError::ModuleError(ModuleError::UnknownFunction("cbrt".to_string())))
    );
}

#[test]
fn invalid_arguments_are_reported() {
    let math = Math::new();
    let cases = [
        ("eval", "{}", "Missing 'expression' argument"),
        ("eval", "[1]", "Missing 'expression' argument"),
        ("eval", r#"{"expression": 4}"#, "Expected string expression"),
        ("pow", r#"{"exponent": 2}"#, "Missing 'base' argument"),
        ("pow", r#"{"base": 2}"#, "Missing 'exponent' argument"),
        ("pow", r#"{"base": "two", "exponent": 2}"#, "Value string is not a valid number"),
        ("pow", r#"{"base": 2, "exponent": "1e"}"#, "Value string is not a valid number"),
        ("sqrt", r#"{"value": "inf"}"#, "Value string is not a valid number"),
        ("sqrt", r#"{}"#, "Missing 'value' argument"),
        ("sqrt", r#"{"value": true}"#, "Expected a number or a string for 'value'"),
    ];
    for (name, args, message) in cases {
        let r = math.run(&func(name, "math", args));
        assert_eq!(
            r,
            Err(ModuleError::InvalidFunctionInput(message.to_string())),
            "{} {}",
            name,
            args
        );
    }
}

#[test]
fn evaluation_errors_are_execution_errors() {
    let r = Math::new().run(&func("eval", "math", r#"{"expression":"1 +"}"#));
    match r {
        Err(ModuleError::ExecutionError(m)) => assert!(m.starts_with("Math error: "), "{}", m),
        other => panic!("{:?}", other),
    }
}

#[test]
fn eval_keeps_integers_and_strings() {
    let math = Math::new();
    let r = math.run(&func("eval", "math", r#"{"expression":"2 + 3"}"#)).unwrap();
    assert_eq!(r, JsonValue::Number("5".to_string()));
    let r = math.run(&func("eval", "math", r#"{"expression":"\"a\" + \"b\""}"#)).unwrap();
    assert_eq!(r, JsonValue::Str("ab".to_string()));
    let r = math.run(&func("eval", "math", r#"{"expression":"(1, true)"}"#)).unwrap();
    assert_eq!(r.to_json_string(), "[1,true]");
}

#[test]
fn negative_and_decimal_numerals() {
    assert!(check_numeral("-2.5"));
    assert!(check_numeral("10"));
    assert!(check_numeral("1."));
    assert!(check_numeral(".5"));
    assert!(check_numeral("+2"));
    assert!(check_numeral("1e300"));
    assert!(check_numeral("-1.5E-7"));
    assert!(!check_numeral("1.2.3"));
    assert!(!check_numeral("-"));
    assert!(!check_numeral("."));
    assert!(!check_numeral("1e"));
    assert!(!check_numeral("0x10"));
    assert!(!check_numeral(""));
    let r = Math::new().run(&func("pow", "math", r#"{"base": "-2", "exponent": 2.0}"#)).unwrap();
    assert_eq!(r.to_json_string(), number_text(4.0));
}

#[test]
fn wide_numerals_are_evaluated() {
    let math = Math::new();
    let r = math.run(&func("pow", "math", r#"{"base": "+2", "exponent": ".5e1"}"#)).unwrap();
    assert_eq!(r.to_json_string(), number_text(32.0));
    let r = math.run(&func("pow", "math", r#"{"base": 2, "exponent": "-1e0"}"#)).unwrap();
    assert_eq!(r.to_json_string(), number_text(0.5));
    let r = math.run(&func("sqrt", "math", r#"{"value": 1e2}"#)).unwrap();
    assert_eq!(r.to_json_string(), number_text(10.0));
}

#[test]
fn expressions_that_could_panic_are_refused() {
    let math = Math::new();
    for expression in [
        r#"str::substring(\"é\", 0, 1)"#,
        "math::abs(-9223372036854775807 - 1)",
        "shl(1, 64)",
        "shr(1, 64)",
    ] {
        let args = format!(r#"{{"expression": "{}"}}"#, expression);
        let r = math.run(&func("eval", "math", &args));
        assert_eq!(
            r,
            Err(ModuleError::InvalidFunctionInput(
                "Expression is too long or uses an unsupported function".to_string()
            )),
            "{}",
            expression
        );
    }
    let long = format!(r#"{{"expression": "{}1"}}"#, "1 + ".repeat(300));
    assert!(matches!(
        math.run(&func("eval", "math", &long)),
        Err(ModuleError::InvalidFunctionInput(_))
    ));
    assert_eq!(
        math.expression_for(&func("sqrt", "math", r#"{"value": "+81"}"#)),
        Ok("math::sqrt(81)".to_string())
    );
}

#[test]
fn one_registry_holds_both_modules() {
    let mut registry = ModuleRegistry::new();
    registry.register_module(BuiltinModule::Arithmetic(Arithmetic::new()));
    assert_eq!(registry.list_modules().len(), 2);
    let r = registry.execute(&func("eval", "arithmetic", r#"{"expression":"6 * 7"}"#)).unwrap();
    assert_eq!(r.to_json_string(), "42");
    let r = registry.execute(&func("sqrt", "math", r#"{"value":"16"}"#)).unwrap();
    assert_eq!(r.to_json_string(), number_text(4.0));
    let modules: Vec<String> =
        registry.all_tools().iter().map(|t| t.function.module.clone()).collect();
    assert_eq!(modules, vec!["math", "math", "math", "arithmetic"]);
}

#[test]
fn tool_descriptors_are_functions_with_object_schemas() {
    for t in Math::new().tools().iter().chain(Arithmetic::new().tools().iter()) {
        assert_eq!(t.tool_type, "function");
        assert_eq!(t.function.parameters.get("type"), Some(&JsonValue::Str("object".to_string())));
    }
    let a = Arithmetic::new().tools();
    assert_eq!(a[0].function.module, "arithmetic");
    assert_eq!(a[0].function.parameters.get("required").unwrap().to_json_string(), r#"["expression"]"#);
}

#[test]
fn arithmetic_module_evaluates() {
    let a = Arithmetic::new();
    assert_eq!(Arithmetic::name(), "arithmetic");
    let r = a.run(&func("eval", "arithmetic", r#"{"expression":"6 * 7"}"#)).unwrap();
    assert_eq!(r.to_json_string(), "42");
    let r = a.run(&func("pow", "arithmetic", "{}"));
    assert_eq!(r, Err(ModuleError::UnknownFunction("pow".to_string())));
    assert_eq!(a.tools().len(), 1);
}

#[test]
fn registry_lists_tools_and_prompts() {
    let registry = ModuleRegistry::new();
    assert_eq!(
        registry.list_modules(),
        vec![format!("math : {}", Math::new().description())]
    );
    let tools = registry.all_tools();
    let names: Vec<&str> = tools.iter().map(|t| t.function.name.as_str()).collect();
    assert_eq!(names, vec!["eval", "pow", "sqrt"]);
    assert!(tools.iter().all(|t| t.function.module == "math" && t.tool_type == "function"));
    assert_eq!(
        tools[1].function.parameters.to_json_string(),
        r#"{"properties":{"base":{"description":"The base number","type":"number"},"exponent":{"description":"The exponent","type":"number"}},"required":["base","exponent"],"type":"object"}"#
    );
    assert_eq!(registry.get_system_prompt(), format!("{}\n", Math::new().get_prompt()));
}

#[test]
fn registering_a_module_twice_replaces_it() {
    let mut registry: ModuleRegistry<Math> = ModuleRegistry::empty_registry();
    assert!(registry.get_module("math").is_none());
    registry.register_module(Math::new());
    registry.register_module(Math::new());
    assert_eq!(registry.list_modules().len(), 1);
    assert!(registry.get_module("math").is_some());
}

#[test]
fn json_values_print_and_parse() {
    let v = json(r#"{"b": [1, 2.5, "x\"y"], "a": null, "c": false}"#);
    assert_eq!(v.to_json_string(), r#"{"a":null,"b":[1,2.5,"x\"y"],"c":false}"#);
    assert_eq!(JsonValue::parse("{"), None);
    assert_eq!(v.get("c"), Some(&JsonValue::Bool(false)));
    assert_eq!(v.get("d"), None);
}

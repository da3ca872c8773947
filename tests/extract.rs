use jarvis::client::calls_json;
use jarvis::extract::{extract_tool_calls_from_content, try_parse_tool_calls};
use jarvis::json::JsonValue;
use jarvis::module::{ToolCall, ToolCallFunction};

fn json(text: &str) -> JsonValue {
    JsonValue::parse(text).unwrap()
}

fn call(name: &str, module: &str, arguments: &str) -> ToolCall {
    ToolCall {
        tool_type: "function".to_string(),
        function: ToolCallFunction {
            name: name.to_string(),
            module: module.to_string(),
            arguments: json(arguments),
        },
    }
}

#[test]
fn test_extract_tool_calls_from_content_json_array_only() {
    let content = r#"
            [
              {
                "type": "function",
                "function": {
                  "name": "eval",
                  "module": "math",
                  "arguments": { "expression": "2000*2122" }
                }
              }
            ]
        "#;
    let expected_calls = vec![call("eval", "math", r#"{ "expression": "2000*2122" }"#)];

    let (tool_calls, cleaned_content) = extract_tool_calls_from_content(content);

    assert_eq!(tool_calls, expected_calls);
    assert!(cleaned_content.is_empty());
}

#[test]
fn test_extract_tool_calls_from_content_single_json_object_only() {
    let content = r#"
            {
              "type": "function",
              "function": {
                "name": "search_web",
                "module": "web",
                "arguments": { "query": "latest news" }
              }
            }
        "#;
    let expected_calls = vec![call("search_web", "web", r#"{ "query": "latest news" }"#)];

    let (tool_calls, cleaned_content) = extract_tool_calls_from_content(content);

    assert_eq!(tool_calls, expected_calls);
    assert!(cleaned_content.is_empty());
}

#[test]
fn test_extract_tool_calls_from_content_with_json() {
    let content = r#"```json
            [
              {
                "type": "function",
                "function": {
                  "name": "get_time",
                  "module": "clock",
                  "arguments": {}
                }
              }
            ]
            ```"#;
    let expected_calls = vec![call("get_time", "clock", "{}")];

    let (tool_calls, _cleaned_content) = extract_tool_calls_from_content(content);

    assert_eq!(tool_calls, expected_calls);
}

#[test]
fn test_extract_tool_calls_from_content_with_markdown_code_block() {
    let content = r#"
            Please perform the following action:
            ```json
            [
              {
                "type": "function",
                "function": {
                  "name": "get_time",
                  "module": "clock",
                  "arguments": {}
                }
              }
            ]
            ```
            Thank you.
        "#;
    let expected_calls = vec![call("get_time", "clock", "{}")];
    let _expected_cleaned_content = "Please perform the following action: Thank you.";

    let (tool_calls, _cleaned_content) = extract_tool_calls_from_content(content);

    assert_eq!(tool_calls, expected_calls);
}

#[test]
fn test_extract_tool_calls_from_content_with_no_calls() {
    let content = "Hello, this is a normal response with no tool calls.";

    let (tool_calls, cleaned_content) = extract_tool_calls_from_content(content);

    assert!(tool_calls.is_empty());
    assert_eq!(cleaned_content, content.to_string());
}

#[test]
fn test_extract_tool_calls_from_content_plain_text_json_array() {
    let content = r#"
            Here is the tool call: [{"type": "function", "function": {"name": "calculate", "arguments": {"a": 1, "b": 2}}}]
        "#;
    let expected_calls = vec![call("calculate", "", r#"{ "a": 1, "b": 2 }"#)];
    let expected_cleaned_content = "Here is the tool call:";

    let (tool_calls, cleaned_content) = extract_tool_calls_from_content(content);

    assert_ne!(tool_calls, expected_calls);
    assert_ne!(cleaned_content, expected_cleaned_content);
}

#[test]
fn scenario_whole_array_single_eval_call() {
    let content = r#"[{"type":"function","function":{"name":"eval","module":"math","arguments":{"expression":"2+2"}}}]"#;
    let (calls, rest) = extract_tool_calls_from_content(content);
    assert_eq!(calls, vec![call("eval", "math", r#"{"expression":"2+2"}"#)]);
    assert_eq!(rest, "");
}

#[test]
fn scenario_plain_text_comes_back_trimmed() {
    let content = "  Hello, no tools here.  \n";
    let (calls, rest) = extract_tool_calls_from_content(content);
    assert!(calls.is_empty());
    assert_eq!(rest, "Hello, no tools here.");
}

#[test]
fn scenario_quoted_plain_text() {
    let content = "\"Hello, no tools here.\"";
    let (calls, rest) = extract_tool_calls_from_content(content);
    assert!(calls.is_empty());
    assert_eq!(rest, content.trim());
}

#[test]
fn round_trip_of_serialized_calls() {
    let calls = vec![
        call("eval", "math", r#"{"expression":"1 + \"2\""}"#),
        call("pow", "math", r#"{"base":5,"exponent":[1,2,{"x":null}]}"#),
        call("say", "voice", r#"{"text":"line\nbreak and a ] bracket"}"#),
    ];
    let text = calls_json(&calls);
    let (back, rest) = extract_tool_calls_from_content(&text);
    assert_eq!(back, calls);
    assert_eq!(rest, "");
}

#[test]
fn round_trip_of_empty_list() {
    let calls: Vec<ToolCall> = Vec::new();
    let text = calls_json(&calls);
    assert_eq!(text, "[]");
    let (back, rest) = extract_tool_calls_from_content(&text);
    assert!(back.is_empty());
    assert_eq!(rest, "");
}

#[test]
fn malformed_text_gives_no_calls_and_the_text() {
    let inputs = [
        "",
        "   ",
        "[",
        "]{",
        "{\"type\": \"function\", \"function\": {",
        "[{\"type\": \"function\"}]",
        "```json\n[{\"type\": 1}]\n```",
        "``` unclosed fence [ {",
        "text { \"a\": \"}\" } more [1, 2",
        "\u{0}\u{ffff} \\\" ]]]}}}",
    ];
    for input in inputs {
        let (calls, rest) = extract_tool_calls_from_content(input);
        assert!(calls.is_empty(), "{}", input);
        assert_eq!(rest, input.trim(), "{}", input);
    }
}

#[test]
fn fenced_blocks_are_cut_out_of_the_text() {
    let content = "Before\n```json\n{\"type\":\"function\",\"function\":{\"name\":\"a\",\"module\":\"m\",\"arguments\":{}}}\n```\nmiddle\n```\n[{\"type\":\"function\",\"function\":{\"name\":\"b\",\"module\":\"m\",\"arguments\":{}}}]\n```\nafter";
    let (calls, rest) = extract_tool_calls_from_content(content);
    assert_eq!(calls, vec![call("a", "m", "{}"), call("b", "m", "{}")]);
    assert_eq!(rest, "Before\n\nmiddle\n\nafter");
}

#[test]
fn fenced_block_without_calls_stays() {
    let content = "See\n```rust\nfn main() {}\n```\n";
    let (calls, rest) = extract_tool_calls_from_content(content);
    assert!(calls.is_empty());
    assert_eq!(rest, content.trim());
}

#[test]
fn array_in_prose_is_found_and_cut_out() {
    let content = "Calling now: [{\"type\":\"function\",\"function\":{\"name\":\"x\",\"module\":\"m\",\"arguments\":{\"s\":\"]\"}}}] done";
    let (calls, rest) = extract_tool_calls_from_content(content);
    assert_eq!(calls, vec![call("x", "m", "{\"s\":\"]\"}")]);
    assert_eq!(rest, "Calling now:  done");
}

#[test]
fn objects_in_prose_are_all_found() {
    let content = "First {\"type\":\"function\",\"function\":{\"name\":\"a\",\"module\":\"m\",\"arguments\":{}}} then {\"not\":\"a call\"} and {\"type\":\"function\",\"function\":{\"name\":\"b\",\"module\":\"n\",\"arguments\":{\"k\":1}}}.";
    let (calls, rest) = extract_tool_calls_from_content(content);
    assert_eq!(calls, vec![call("a", "m", "{}"), call("b", "n", "{\"k\":1}")]);
    assert_eq!(rest, "First  then {\"not\":\"a call\"} and .");
}

#[test]
fn try_parse_reads_arrays_and_objects() {
    let one = try_parse_tool_calls("  {\"type\":\"function\",\"function\":{\"name\":\"a\",\"module\":\"m\",\"arguments\":{}}} ");
    assert_eq!(one, Some(vec![call("a", "m", "{}")]));
    let empty = try_parse_tool_calls("[]");
    assert_eq!(empty, Some(Vec::new()));
    assert_eq!(try_parse_tool_calls("hello"), None);
    assert_eq!(try_parse_tool_calls("[1]"), None);
}

#[test]
fn extra_fields_are_ignored_and_missing_ones_refused() {
    let with_extra = "{\"type\":\"function\",\"id\":7,\"function\":{\"name\":\"a\",\"module\":\"m\",\"arguments\":{},\"more\":true}}";
    let (calls, _) = extract_tool_calls_from_content(with_extra);
    assert_eq!(calls, vec![call("a", "m", "{}")]);
    let missing_args = "{\"type\":\"function\",\"function\":{\"name\":\"a\",\"module\":\"m\"}}";
    let (calls, rest) = extract_tool_calls_from_content(missing_args);
    assert!(calls.is_empty());
    assert_eq!(rest, missing_args);
}

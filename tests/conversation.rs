use jarvis::client::{Conversation, GenerateResult, LoopState, TerminationReason, MAX_ITERATIONS};
use jarvis::context::{Context, Message, MessageRole};
use jarvis::error::AppError;
use jarvis::json::JsonValue;
use jarvis::module::{ToolCall, ToolCallFunction};
use jarvis::registry::ModuleRegistry;
use jarvis::streaming::StreamEvent;

fn eval_call(module: &str, expression: &str) -> ToolCall {
    ToolCall {
        tool_type: "function".to_string(),
        function: ToolCallFunction {
            name: "eval".to_string(),
            module: module.to_string(),
            arguments: JsonValue::Object(vec![(
                "expression".to_string(),
                JsonValue::Str(expression.to_string()),
            )]),
        },
    }
}

fn turn(response: &str, calls: Option<Vec<ToolCall>>) -> GenerateResult {
    GenerateResult { response: response.to_string(), tool_calls: calls }
}

fn texts(c: &Context) -> Vec<(MessageRole, String)> {
    c.get_messages().iter().map(|m| (m.role, m.content.clone())).collect()
}

#[test]
fn context_never_exceeds_its_capacity() {
    for n in [0usize, 1, 2, 5] {
        let mut c = Context::new(n);
        for i in 0..12 {
            c.add_user_message(format!("message {}", i));
            assert!(c.len() <= n);
        }
        if n > 0 {
            assert_eq!(c.get_messages()[n - 1].content, "message 11");
            assert_eq!(c.get_messages()[0].content, format!("message {}", 12 - n));
        } else {
            assert!(c.is_empty());
        }
    }
}

#[test]
fn add_gives_the_appended_message_even_when_evicted() {
    let mut c = Context::new(0);
    let m = c.add_assistant_message("gone".to_string());
    assert_eq!(m.role, MessageRole::Assistant);
    assert_eq!(m.content, "gone");
    assert!(m.metadata.is_none());
    assert!(c.is_empty());
}

#[test]
fn context_keeps_order_and_finds_last_user_message() {
    let mut c = Context::new(3);
    assert_eq!(c.get_last_user_prompt(), None);
    c.add_system_message("sys".to_string());
    c.add_user_message("first".to_string());
    c.add_assistant_message("answer".to_string());
    assert_eq!(c.get_last_user_prompt(), Some("first".to_string()));
    c.add_messages(vec![
        Message { role: MessageRole::User, content: "second".to_string(), metadata: None },
        Message { role: MessageRole::Assistant, content: "again".to_string(), metadata: None },
    ]);
    assert_eq!(
        texts(&c),
        vec![
            (MessageRole::Assistant, "answer".to_string()),
            (MessageRole::User, "second".to_string()),
            (MessageRole::Assistant, "again".to_string()),
        ]
    );
    assert_eq!(c.get_last_user_prompt(), Some("second".to_string()));
    c.clear();
    assert_eq!(c.len(), 0);
}

#[test]
fn a_run_without_calls_streams_the_answer() {
    let registry = ModuleRegistry::new();
    let mut conv = Conversation::new(100);
    let events = conv.begin("hi");
    assert_eq!(events.len(), 1);
    match &events[0] {
        StreamEvent::Progress(p) => {
            assert_eq!(p.current, 20);
            assert_eq!(p.total, None);
            assert_eq!(p.message, "Getting response...");
        }
        other => panic!("{:?}", other),
    }
    let step = conv.on_model_turn(turn("Hé!", None), &registry).unwrap();
    let tokens: Vec<String> = step
        .events
        .iter()
        .filter_map(|e| match e {
            StreamEvent::Token(t) => Some(t.clone()),
            _ => None,
        })
        .collect();
    assert_eq!(tokens, vec!["H", "é", "!"]);
    assert!(matches!(step.events.last(), Some(StreamEvent::Finished)));
    assert_eq!(conv.get_state(), LoopState::Terminated(TerminationReason::Completed));
    assert_eq!(conv.response(), "Hé!");
    assert_eq!(
        texts(conv.get_context()),
        vec![(MessageRole::User, "hi".to_string()), (MessageRole::Assistant, "Hé!".to_string())]
    );
}

#[test]
fn a_two_turn_run_completes_with_tokens_of_the_last_turn_only() {
    let registry = ModuleRegistry::new();
    let mut conv = Conversation::new(100);
    conv.begin("What is 2000*2122?");
    let first = conv
        .on_model_turn(turn("Let me compute.", Some(vec![eval_call("math", "2000.0*2122.0")])), &registry)
        .unwrap();
    assert!(first.events.is_empty());
    assert_eq!(first.results, vec![JsonValue::Number("4244000.0".to_string())]);
    assert_eq!(conv.get_state(), LoopState::AwaitingModel);
    let second = conv.on_model_turn(turn("4244000", None), &registry).unwrap();
    let mut tokens = String::new();
    for e in &second.events[..second.events.len() - 1] {
        match e {
            StreamEvent::Token(t) => tokens.push_str(t),
            other => panic!("{:?}", other),
        }
    }
    assert_eq!(tokens, "4244000");
    assert!(matches!(second.events.last(), Some(StreamEvent::Finished)));
    assert_eq!(conv.get_state(), LoopState::Terminated(TerminationReason::Completed));
    assert_eq!(conv.response(), "Let me compute.4244000");
    assert_eq!(
        texts(conv.get_context()),
        vec![
            (MessageRole::User, "What is 2000*2122?".to_string()),
            (MessageRole::Assistant, "Let me compute.".to_string()),
            (
                MessageRole::Assistant,
                r#"[{"type":"function","function":{"name":"eval","module":"math","arguments":{"expression":"2000.0*2122.0"}}}]"#
                    .to_string()
            ),
            (
                MessageRole::Assistant,
                r#"TOOL_RESULT: { "name": "eval", "module": "math", "result": 4244000.0 }"#.to_string()
            ),
            (MessageRole::Assistant, "4244000".to_string()),
        ]
    );
}

#[test]
fn several_calls_give_one_combined_result_message() {
    let registry = ModuleRegistry::new();
    let mut conv = Conversation::new(100);
    conv.begin("two sums");
    let step = conv
        .on_model_turn(
            turn("", Some(vec![eval_call("math", "1 + 1"), eval_call("math", "2 * 3")])),
            &registry,
        )
        .unwrap();
    assert_eq!(step.results.len(), 2);
    let messages = texts(conv.get_context());
    assert_eq!(messages.len(), 3);
    assert_eq!(
        messages[2].1,
        r#"TOOL_RESULT: { "name": "eval", "module": "math", "result": 2 }; { "name": "eval", "module": "math", "result": 6 }"#
    );
}

#[test]
fn a_model_that_always_calls_stops_at_the_limit() {
    let registry = ModuleRegistry::new();
    let mut conv = Conversation::new(1000);
    conv.begin("loop");
    let mut turns = 0;
    let mut last_events = Vec::new();
    while conv.get_state() == LoopState::AwaitingModel {
        turns += 1;
        assert!(turns <= MAX_ITERATIONS);
        let step = conv
            .on_model_turn(turn("again", Some(vec![eval_call("math", "1 + 1")])), &registry)
            .unwrap();
        last_events = step.events;
    }
    assert_eq!(turns, 10);
    assert_eq!(
        conv.get_state(),
        LoopState::Terminated(TerminationReason::IterationLimitReached)
    );
    assert_eq!(last_events.len(), 2);
    match &last_events[0] {
        StreamEvent::Error(m) => assert_eq!(m, "Maximum tool chain iterations reached"),
        other => panic!("{:?}", other),
    }
    assert!(matches!(last_events[1], StreamEvent::Finished));
    assert_eq!(conv.response(), &"again".repeat(10));
}

#[test]
fn a_call_to_a_missing_module_aborts_the_run() {
    let registry = ModuleRegistry::new();
    let mut conv = Conversation::new(100);
    conv.begin("search");
    let r = conv.on_model_turn(turn("", Some(vec![eval_call("web", "x")])), &registry);
    match r {
        Err(AppError::ModuleNotFound(m)) => assert_eq!(m, "web"),
        other => panic!("{:?}", other),
    }
    assert_eq!(conv.get_state(), LoopState::Failed);
}

#[test]
fn a_failing_call_in_a_batch_stops_the_batch() {
    let registry = ModuleRegistry::new();
    let mut conv = Conversation::new(100);
    conv.begin("batch");
    let r = conv.on_model_turn(
        turn("", Some(vec![eval_call("math", "1 + 1"), eval_call("web", "x"), eval_call("math", "2")])),
        &registry,
    );
    assert!(matches!(r, Err(AppError::ModuleNotFound(ref m)) if m == "web"));
    let messages = texts(conv.get_context());
    assert_eq!(messages.len(), 2);
    assert!(messages[1].1.starts_with("[{\"type\":\"function\""));
    assert!(!messages.iter().any(|(_, t)| t.starts_with("TOOL_RESULT")));
}

#[test]
fn generate_result_from_model_text() {
    let r = GenerateResult::from_text("Sure. [{\"type\":\"function\",\"function\":{\"name\":\"eval\",\"module\":\"math\",\"arguments\":{\"expression\":\"1\"}}}]");
    assert_eq!(r.response, "Sure.");
    assert_eq!(r.tool_calls, Some(vec![eval_call("math", "1")]));
    let r = GenerateResult::from_text(" just text ");
    assert_eq!(r.response, "just text");
    assert_eq!(r.tool_calls, None);
}

#[test]
fn system_message_and_context_size() {
    let mut conv = Conversation::new(2);
    conv.set_system_message("be brief");
    assert_eq!(conv.context_size(), 1);
    conv.begin("a");
    conv.begin("b");
    assert_eq!(conv.context_size(), 2);
    conv.clear_context();
    assert_eq!(conv.context_size(), 0);
}

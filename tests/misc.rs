use jarvis::cli::{Cli, Commands};
use jarvis::context::{Message, MessageRole};
use jarvis::error::AppError;
use jarvis::ollama::{
    messages_to_prompt, read_completion_line, read_generate_line, ModelConfig, OllamaConfig,
    OllamaMessage, StreamLine,
};
use jarvis::streaming::{
    create_cli_streamer, CliStreamer, NullStreamer, OutputStreamer, ProgressInfo, StreamEvent,
};
use jarvis::text::decimal;

fn cli(prompt: &[&str], command: Option<Commands>) -> Cli {
    Cli {
        execute: false,
        module: None,
        input: None,
        command,
        prompt: prompt.iter().map(|s| s.to_string()).collect(),
    }
}

fn message(role: MessageRole, content: &str) -> Message {
    Message { role, content: content.to_string(), metadata: None }
}

#[test]
fn cli_text_joins_words() {
    assert_eq!(cli(&["what", "is", "2+2"], None).text(), Ok(Some("what is 2+2".to_string())));
    assert_eq!(cli(&[], Some(Commands::Chat)).text(), Ok(None));
    assert_eq!(cli(&[], None).text(), Err(AppError::InvalidInput));
}

#[test]
fn config_defaults_and_validation() {
    let c = OllamaConfig::new("llama3.2".to_string());
    assert_eq!(c.endpoint_url(), "http://localhost:11434");
    assert_eq!(c.model_name(), "llama3.2");
    assert_eq!(c.validate(), Ok(()));
    let empty = OllamaConfig::new(String::new());
    assert_eq!(empty.validate(), Err(AppError::Other("Model name cannot be empty".to_string())));
    let zero = OllamaConfig::builder().model("m".to_string()).port(0).build().unwrap();
    assert_eq!(zero.validate(), Err(AppError::Other("Port cannot be 0".to_string())));
    assert_eq!(
        OllamaConfig::builder().build().unwrap_err(),
        AppError::Other("Model is required".to_string())
    );
    let b = OllamaConfig::builder()
        .host("http://box".to_string())
        .port(8080)
        .raw(true)
        .model("m".to_string())
        .build()
        .unwrap();
    assert_eq!(b.endpoint_url(), "http://box:8080");
    assert!(b.raw);
}

#[test]
fn prompt_from_messages() {
    let ms = vec![
        message(MessageRole::System, "old system"),
        message(MessageRole::User, "hello"),
        message(MessageRole::System, "new system"),
        message(MessageRole::Assistant, "hi"),
        message(MessageRole::User, "bye"),
    ];
    let (system, prompt) = messages_to_prompt(&ms);
    assert_eq!(system, Some("new system".to_string()));
    assert_eq!(prompt, "User: hello\nAssistant: hi\nUser: bye");
    let (system, prompt) = messages_to_prompt(&Vec::new());
    assert_eq!(system, None);
    assert_eq!(prompt, "");
}

#[test]
fn wire_messages_name_their_role() {
    let m = OllamaMessage::from_message(&message(MessageRole::Assistant, "x"));
    assert_eq!(m.role, "assistant");
    assert_eq!(m.content, "x");
    assert_eq!(OllamaMessage::from_message(&message(MessageRole::System, "")).role, "system");
}

#[test]
fn generate_lines_are_read() {
    assert!(matches!(read_generate_line("   "), StreamLine::Skip));
    match read_generate_line(r#"{"model":"m","response":"Hel","done":false}"#) {
        StreamLine::Chunk { text, done } => {
            assert_eq!(text, "Hel");
            assert!(!done);
        }
        other => panic!("{:?}", other),
    }
    match read_generate_line(r#"{"response":"","done":true}"#) {
        StreamLine::Chunk { text, done } => {
            assert_eq!(text, "");
            assert!(done);
        }
        other => panic!("{:?}", other),
    }
    assert!(matches!(read_generate_line("{\"response\": 3}"), StreamLine::Malformed));
    assert!(matches!(read_generate_line("not json"), StreamLine::Malformed));
}

#[test]
fn completion_lines_are_read() {
    assert!(matches!(read_completion_line("data: [DONE]"), StreamLine::Done));
    assert!(matches!(read_completion_line(": keep-alive"), StreamLine::Skip));
    match read_completion_line(r#"data: {"choices":[{"delta":{"content":"Hi"}}]}"#) {
        StreamLine::Chunk { text, .. } => assert_eq!(text, "Hi"),
        other => panic!("{:?}", other),
    }
    assert!(matches!(read_completion_line(r#"data: {"choices":[{"delta":{}}]}"#), StreamLine::Skip));
    assert!(matches!(read_completion_line("data: {oops"), StreamLine::Malformed));
}

#[test]
fn cli_streamer_renders_events() {
    let quiet = create_cli_streamer(false);
    assert!(!quiet.show_progress);
    assert_eq!(quiet.render(&StreamEvent::Token("a".to_string())), "a");
    assert_eq!(quiet.render(&StreamEvent::Error("boom".to_string())), "\rError: boom\n");
    assert_eq!(quiet.render(&StreamEvent::Finished), "\n");
    assert_eq!(quiet.render(&StreamEvent::Status("s".to_string())), "");
    let loud = CliStreamer::new(true);
    let p = StreamEvent::Progress(ProgressInfo {
        current: 20,
        total: Some(100),
        message: "Getting response...".to_string(),
    });
    assert_eq!(loud.render(&p), "\r\x1b[K\r\u{23f3} Getting response... (20/100)");
    assert_eq!(loud.render(&StreamEvent::Token("b".to_string())), "\r\x1b[Kb");
}

#[test]
fn null_streamer_accepts_everything() {
    let mut s = NullStreamer::new();
    assert_eq!(s.handle_event(StreamEvent::Finished), Ok(()));
    assert_eq!(s.finish(), Ok(()));
}

#[test]
fn decimal_numerals() {
    assert_eq!(decimal(0), "0");
    assert_eq!(decimal(11434), "11434");
    assert_eq!(decimal(u64::MAX), u64::MAX.to_string());
}

#[test]
fn quoting_matches_serde_json() {
    let samples = [
        "",
        "plain",
        "quote \" and backslash \\",
        "controls \u{0}\u{1}\u{8}\t\n\u{b}\u{c}\r\u{1f} end",
        "unicode é ⏳ \u{7f} \u{2028}",
    ];
    for s in samples {
        assert_eq!(jarvis::json::quote_json(s), serde_json::to_string(s).unwrap(), "{:?}", s);
    }
}

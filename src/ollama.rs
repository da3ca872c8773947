//! What talking to an Ollama server needs besides the transport: its
//! configuration, the prompt built from a context, and the reading of each
//! line that the server streams back.
use vstd::prelude::*;
use crate::context::{Entry, Message, MessageRole, entry_of};
use crate::error::AppError;
use crate::json::{JsonValue, member_of, parsed_json};
use crate::text::{decimal, decimal_text, push_str, trim, trim_bounds, chars_of, string_of};

verus! {

/// A model configuration that can name its model and check itself.
pub trait ModelConfig {
    spec fn spec_model_name(&self) -> Seq<char>;

    /// Why the configuration cannot be used, if it cannot.
    spec fn spec_problem(&self) -> Option<Seq<char>>;

    fn model_name(&self) -> (r: &str)
        ensures
            r@ == self.spec_model_name(),
    ;

    fn validate(&self) -> (r: Result<(), AppError>)
        ensures
            match (r, self.spec_problem()) {
                (Ok(()), None) => true,
                (Err(AppError::Other(m)), Some(p)) => m@ == p,
                _ => false,
            },
    ;
}

/// Where the Ollama server is and which model it runs.
#[derive(Debug, Clone)]
pub struct OllamaConfig {
    pub host: String,
    pub port: u16,
    pub model: String,
    pub raw: bool,
    pub template: Option<String>,
}

pub const DEFAULT_HOST: &'static str = "http://localhost";

pub const DEFAULT_PORT: u16 = 11434;

impl OllamaConfig {
    /// The configuration of a model on the local server.
    pub fn new(model: String) -> (r: OllamaConfig)
        ensures
            r.host@ == DEFAULT_HOST@,
            r.port == DEFAULT_PORT,
            r.model == model,
            !r.raw,
            r.template.is_none(),
    {
        OllamaConfig {
            host: String::from_str(DEFAULT_HOST),
            port: DEFAULT_PORT,
            model,
            raw: false,
            template: None,
        }
    }

    pub fn builder() -> (r: OllamaConfigBuilder)
        ensures
            r.host@ == DEFAULT_HOST@,
            r.port == DEFAULT_PORT,
            r.model.is_none(),
            !r.raw,
            r.template.is_none(),
    {
        OllamaConfigBuilder::new()
    }

    /// "host:port".
    pub fn endpoint_url(&self) -> (r: String)
        ensures
            r@ == self.host@ + ":"@ + decimal_text(self.port as nat),
    {
        let mut r = self.host.clone();
        push_str(&mut r, ":");
        push_str(&mut r, decimal(self.port as u64).as_str());
        r
    }
}

impl ModelConfig for OllamaConfig {
    open spec fn spec_model_name(&self) -> Seq<char> {
        self.model@
    }

    open spec fn spec_problem(&self) -> Option<Seq<char>> {
        if self.model@.len() == 0 {
            Some("Model name cannot be empty"@)
        } else if self.port == 0 {
            Some("Port cannot be 0"@)
        } else {
            None
        }
    }

    fn model_name(&self) -> (r: &str) {
        self.model.as_str()
    }

    fn validate(&self) -> (r: Result<(), AppError>) {
        if self.model.as_str().unicode_len() == 0 {
            return Err(AppError::from("Model name cannot be empty"));
        }
        if self.port == 0 {
            return Err(AppError::from("Port cannot be 0"));
        }
        Ok(())
    }
}

/// Builds an `OllamaConfig`; the model must be given.
#[derive(Debug)]
pub struct OllamaConfigBuilder {
    pub host: String,
    pub port: u16,
    pub model: Option<String>,
    pub raw: bool,
    pub template: Option<String>,
}

impl OllamaConfigBuilder {
    pub fn new() -> (r: OllamaConfigBuilder)
        ensures
            r.host@ == DEFAULT_HOST@,
            r.port == DEFAULT_PORT,
            r.model.is_none(),
            !r.raw,
            r.template.is_none(),
    {
        OllamaConfigBuilder {
            host: String::from_str(DEFAULT_HOST),
            port: DEFAULT_PORT,
            model: None,
            raw: false,
            template: None,
        }
    }

    pub fn host(self, host: String) -> (r: OllamaConfigBuilder)
        ensures
            r == (OllamaConfigBuilder { host, ..self }),
    {
        OllamaConfigBuilder { host, ..self }
    }

    pub fn port(self, port: u16) -> (r: OllamaConfigBuilder)
        ensures
            r == (OllamaConfigBuilder { port, ..self }),
    {
        OllamaConfigBuilder { port, ..self }
    }

    pub fn model(self, model: String) -> (r: OllamaConfigBuilder)
        ensures
            r == (OllamaConfigBuilder { model: Some(model), ..self }),
    {
        OllamaConfigBuilder { model: Some(model), ..self }
    }

    pub fn raw(self, raw: bool) -> (r: OllamaConfigBuilder)
        ensures
            r == (OllamaConfigBuilder { raw, ..self }),
    {
        OllamaConfigBuilder { raw, ..self }
    }

    /// The configuration; fails where no model was given.
    pub fn build(self) -> (r: Result<OllamaConfig, AppError>)
        ensures
            match (self.model, r) {
                (Some(m), Ok(c)) => c == (OllamaConfig {
                    host: self.host,
                    port: self.port,
                    model: m,
                    raw: self.raw,
                    template: self.template,
                }),
                (None, Err(AppError::Other(e))) => e@ == "Model is required"@,
                _ => false,
            },
    {
        match self.model {
            Some(model) => Ok(
                OllamaConfig {
                    host: self.host,
                    port: self.port,
                    model,
                    raw: self.raw,
                    template: self.template,
                },
            ),
            None => Err(AppError::from("Model is required")),
        }
    }
}

/// The line of the prompt for a message: its speaker, then its text.
pub open spec fn part_of(e: Entry) -> Seq<char> {
    match e.0 {
        MessageRole::User => "User: "@ + e.1,
        _ => "Assistant: "@ + e.1,
    }
}

/// The lines of the prompt for the messages that are not system messages.
pub open spec fn conversation_parts(ms: Seq<Entry>) -> Seq<Seq<char>>
    decreases ms.len(),
{
    if ms.len() == 0 {
        Seq::empty()
    } else if ms.last().0 == MessageRole::System {
        conversation_parts(ms.drop_last())
    } else {
        conversation_parts(ms.drop_last()).push(part_of(ms.last()))
    }
}

/// The text of the last system message.
pub open spec fn system_of(ms: Seq<Entry>) -> Option<Seq<char>>
    decreases ms.len(),
{
    if ms.len() == 0 {
        None
    } else if ms.last().0 == MessageRole::System {
        Some(ms.last().1)
    } else {
        system_of(ms.drop_last())
    }
}

/// The first `n` lines, separated by new lines.
pub open spec fn lines_joined(ls: Seq<Seq<char>>, n: nat) -> Seq<char>
    decreases n,
{
    if n == 0 {
        Seq::empty()
    } else if n == 1 {
        ls[0]
    } else {
        lines_joined(ls, (n - 1) as nat) + "\n"@ + ls[n - 1]
    }
}

/// The system message and the prompt that the generate API takes for a
/// context: the last system message, and the other messages, one line each.
pub fn messages_to_prompt(messages: &Vec<Message>) -> (r: (Option<String>, String))
    ensures
        ({
            let es = messages@.map_values(|m: Message| entry_of(m));
            &&& match (r.0, system_of(es)) {
                (Some(s), Some(t)) => s@ == t,
                (None, None) => true,
                _ => false,
            }
            &&& r.1@ == lines_joined(conversation_parts(es), conversation_parts(es).len())
        }),
{
    let ghost es = messages@.map_values(|m: Message| entry_of(m));
    let mut system_message: Option<String> = None;
    let mut parts: Vec<String> = Vec::new();
    let mut i: usize = 0;
    while i < messages.len()
        invariant
            i <= messages@.len(),
            es == messages@.map_values(|m: Message| entry_of(m)),
            parts@.map_values(|s: String| s@) == conversation_parts(es.take(i as int)),
            match (system_message, system_of(es.take(i as int))) {
                (Some(s), Some(t)) => s@ == t,
                (None, None) => true,
                _ => false,
            },
        decreases messages.len() - i,
    {
        let m = &messages[i];
        assert(es.take(i + 1).drop_last() =~= es.take(i as int));
        assert(es.take(i + 1).last() == entry_of(messages@[i as int]));
        let ghost before = parts@;
        match m.role {
            MessageRole::System => {
                system_message = Some(m.content.clone());
            },
            MessageRole::User => {
                let mut p = String::from_str("User: ");
                push_str(&mut p, m.content.as_str());
                parts.push(p);
                assert(parts@.map_values(|s: String| s@) =~= before.map_values(|s: String| s@).push(
                    part_of(entry_of(*m)),
                ));
            },
            MessageRole::Assistant => {
                let mut p = String::from_str("Assistant: ");
                push_str(&mut p, m.content.as_str());
                parts.push(p);
                assert(parts@.map_values(|s: String| s@) =~= before.map_values(|s: String| s@).push(
                    part_of(entry_of(*m)),
                ));
            },
        }
        i = i + 1;
    }
    assert(es.take(messages@.len() as int) =~= es);
    let ghost ls = parts@.map_values(|s: String| s@);
    proof {
        reveal_strlit("\n");
    }
    let mut prompt = String::new();
    let mut k: usize = 0;
    while k < parts.len()
        invariant
            k <= parts@.len(),
            ls == parts@.map_values(|s: String| s@),
            prompt@ == lines_joined(ls, k as nat),
        decreases parts.len() - k,
    {
        if k > 0 {
            push_str(&mut prompt, "\n");
        }
        push_str(&mut prompt, parts[k].as_str());
        assert(prompt@ =~= lines_joined(ls, (k + 1) as nat));
        k = k + 1;
    }
    (system_message, prompt)
}

/// A message as the chat completion API takes it.
#[derive(Debug, Clone)]
pub struct OllamaMessage {
    pub role: String,
    pub content: String,
}

/// The name of a role on the wire.
pub open spec fn role_name(role: MessageRole) -> Seq<char> {
    match role {
        MessageRole::System => "system"@,
        MessageRole::User => "user"@,
        MessageRole::Assistant => "assistant"@,
    }
}

impl OllamaMessage {
    pub fn from_message(msg: &Message) -> (r: OllamaMessage)
        ensures
            r.role@ == role_name(msg.role),
            r.content@ == msg.content@,
    {
        let role = match msg.role {
            MessageRole::System => "system",
            MessageRole::User => "user",
            MessageRole::Assistant => "assistant",
        };
        OllamaMessage { role: String::from_str(role), content: msg.content.clone() }
    }
}

/// One line that the generate API streams: a piece of the response, and
/// whether it is the last.
#[derive(Debug)]
pub struct OllamaGenerateResponse {
    pub response: String,
    pub done: bool,
}

/// The piece and the end flag that a JSON line of the generate API holds:
/// an object with a string "response" and a boolean "done".
pub open spec fn generate_line(line: Seq<char>) -> Option<(Seq<char>, bool)> {
    match parsed_json(line) {
        Some(v) => match (member_of(v, "response"@), member_of(v, "done"@)) {
            (Some(JsonValue::Str(s)), Some(JsonValue::Bool(b))) => Some((s@, b)),
            _ => None,
        },
        None => None,
    }
}

impl OllamaGenerateResponse {
    /// Reads one line of the generate API.
    pub fn from_line(line: &str) -> (r: Option<OllamaGenerateResponse>)
        ensures
            match (r, generate_line(line@)) {
                (Some(g), Some((s, b))) => g.response@ == s && g.done == b,
                (None, None) => true,
                _ => false,
            },
    {
        match JsonValue::parse(line) {
            Some(v) => match (v.get("response"), v.get("done")) {
                (Some(JsonValue::Str(s)), Some(JsonValue::Bool(b))) => Some(
                    OllamaGenerateResponse { response: s.clone(), done: *b },
                ),
                _ => None,
            },
            None => None,
        }
    }
}

/// What one streamed line means for the turn.
#[derive(Debug)]
pub enum StreamLine {
    /// A blank line.
    Skip,
    /// A piece of the response, and whether the stream ends after it.
    Chunk { text: String, done: bool },
    /// The end of the stream.
    Done,
    /// A line that cannot be read; it is reported and the stream goes on.
    Malformed,
}

/// Reads one line that the generate API streams.
pub fn read_generate_line(line: &str) -> (r: StreamLine)
    ensures
        trim(line@).len() == 0 ==> r is Skip,
        trim(line@).len() > 0 ==> match (r, generate_line(line@)) {
            (StreamLine::Chunk { text, done }, Some((s, b))) => text@ == s && done == b,
            (StreamLine::Malformed, None) => true,
            _ => false,
        },
{
    let cs = chars_of(line);
    let (a, b) = trim_bounds(&cs, 0, cs.len());
    assert(cs@.subrange(0, cs@.len() as int) =~= line@);
    if a == b {
        return StreamLine::Skip;
    }
    match OllamaGenerateResponse::from_line(line) {
        Some(g) => StreamLine::Chunk { text: g.response, done: g.done },
        None => StreamLine::Malformed,
    }
}

/// The streamed delta of a completion choice.
#[derive(Debug)]
pub struct OllamaCompletionDelta {
    pub content: Option<String>,
}

/// The whole message of a completion choice.
#[derive(Debug)]
pub struct OllamaCompletionMessage {
    pub content: String,
}

/// One choice of a completion.
#[derive(Debug)]
pub struct OllamaCompletionChoice {
    /// Used for content that is not streamed.
    pub message: Option<OllamaCompletionMessage>,
    /// Used for streamed content.
    pub delta: Option<OllamaCompletionDelta>,
}

/// Token counts of a completion.
#[derive(Debug)]
pub struct OllamaCompletionUsage {
    pub prompt_tokens: u64,
    pub completion_tokens: u64,
    pub total_tokens: u64,
}

/// One chunk that the chat completion API streams.
#[derive(Debug)]
pub struct OllamaCompletionResponse {
    pub choices: Vec<OllamaCompletionChoice>,
    pub usage: Option<OllamaCompletionUsage>,
}

/// The delta text of the first choice of a completion chunk: the chunk is an
/// object whose "choices" is an array; where the first choice has an object
/// "delta" with a string "content", that string.
pub open spec fn completion_content(v: JsonValue) -> Option<Option<Seq<char>>> {
    match member_of(v, "choices"@) {
        Some(JsonValue::Array(cs)) => if cs@.len() == 0 {
            Some(None)
        } else {
            match member_of(cs@[0], "delta"@) {
                Some(d) => match member_of(d, "content"@) {
                    Some(JsonValue::Str(s)) => Some(Some(s@)),
                    _ => Some(None),
                },
                None => Some(None),
            }
        },
        _ => None,
    }
}

impl OllamaCompletionResponse {
    /// Reads a completion chunk, keeping the delta text of its first choice.
    pub fn from_json(v: &JsonValue) -> (r: Option<OllamaCompletionResponse>)
        ensures
            match (r, completion_content(*v)) {
                (Some(c), Some(None)) => c.choices@.len() == 0 || c.choices@[0].delta.is_none()
                    || c.choices@[0].delta.unwrap().content.is_none(),
                (Some(c), Some(Some(s))) => c.choices@.len() > 0 && c.choices@[0].delta.is_some()
                    && c.choices@[0].delta.unwrap().content.is_some()
                    && c.choices@[0].delta.unwrap().content.unwrap()@ == s,
                (None, None) => true,
                _ => false,
            },
    {
        match v.get("choices") {
            Some(JsonValue::Array(cs)) => {
                let mut choices = Vec::new();
                if cs.len() > 0 {
                    let content = match cs[0].get("delta") {
                        Some(d) => match d.get("content") {
                            Some(JsonValue::Str(s)) => Some(s.clone()),
                            _ => None,
                        },
                        None => None,
                    };
                    choices.push(
                        OllamaCompletionChoice {
                            message: None,
                            delta: Some(OllamaCompletionDelta { content }),
                        },
                    );
                }
                Some(OllamaCompletionResponse { choices, usage: None })
            },
            _ => None,
        }
    }
}

/// What a streamed line of the chat completion API holds: a line that is
/// not "data: ..." is skipped, "data: [DONE]" ends the stream, and other
/// data is a completion chunk whose first choice's delta text is the piece.
pub open spec fn completion_line(line: Seq<char>) -> Option<Option<Option<Seq<char>>>> {
    let t = trim(line);
    if t.len() >= 6 && t.take(6) == "data: "@ {
        let data = t.skip(6);
        if data == "[DONE]"@ {
            Some(None)
        } else {
            match parsed_json(data) {
                Some(v) => match completion_content(v) {
                    Some(c) => Some(Some(c)),
                    None => None,
                },
                None => None,
            }
        }
    } else {
        Some(Some(None))
    }
}

/// Reads one line that the chat completion API streams.
pub fn read_completion_line(line: &str) -> (r: StreamLine)
    ensures
        match (r, completion_line(line@)) {
            (StreamLine::Done, Some(None)) => true,
            (StreamLine::Skip, Some(Some(None))) => true,
            (StreamLine::Chunk { text, done }, Some(Some(Some(s)))) => text@ == s && !done,
            (StreamLine::Malformed, None) => true,
            _ => false,
        },
{
    proof {
        reveal_strlit("data: ");
        reveal_strlit("[DONE]");
    }
    let cs = chars_of(line);
    let (a, b) = trim_bounds(&cs, 0, cs.len());
    assert(cs@.subrange(0, cs@.len() as int) =~= line@);
    let ghost t = cs@.subrange(a as int, b as int);
    if b - a >= 6 && cs[a] == 'd' && cs[a + 1] == 'a' && cs[a + 2] == 't' && cs[a + 3] == 'a'
        && cs[a + 4] == ':' && cs[a + 5] == ' ' {
        assert(t.take(6) =~= "data: "@);
        let data = string_of(&cs, a + 6, b);
        assert(data@ =~= t.skip(6));
        if b - a == 12 && cs[a + 6] == '[' && cs[a + 7] == 'D' && cs[a + 8] == 'O' && cs[a + 9]
            == 'N' && cs[a + 10] == 'E' && cs[a + 11] == ']' {
            assert(data@ =~= "[DONE]"@);
            return StreamLine::Done;
        }
        assert(data@ != "[DONE]"@) by {
            if data@ == "[DONE]"@ {
                assert(data@.len() == 6);
                assert(data@[0] == cs@[a + 6]);
                assert(data@[1] == cs@[a + 7]);
                assert(data@[2] == cs@[a + 8]);
                assert(data@[3] == cs@[a + 9]);
                assert(data@[4] == cs@[a + 10]);
                assert(data@[5] == cs@[a + 11]);
            }
        }
        match JsonValue::parse(data.as_str()) {
            Some(v) => match OllamaCompletionResponse::from_json(&v) {
                Some(c) => {
                    if c.choices.len() > 0 {
                        match &c.choices[0].delta {
                            Some(d) => match &d.content {
                                Some(s) => {
                                    return StreamLine::Chunk { text: s.clone(), done: false };
                                },
                                None => {},
                            },
                            None => {},
                        }
                    }
                    StreamLine::Skip
                },
                None => StreamLine::Malformed,
            },
            None => StreamLine::Malformed,
        }
    } else {
        assert(!(t.len() >= 6 && t.take(6) == "data: "@)) by {
            if t.len() >= 6 && t.take(6) == "data: "@ {
                assert(t.take(6)[0] == cs@[a as int]);
                assert(t.take(6)[1] == cs@[a + 1]);
                assert(t.take(6)[2] == cs@[a + 2]);
                assert(t.take(6)[3] == cs@[a + 3]);
                assert(t.take(6)[4] == cs@[a + 4]);
                assert(t.take(6)[5] == cs@[a + 5]);
            }
        }
        StreamLine::Skip
    }
}

} // verus!

//! Tool calls, tool descriptors, and the interface that every module offers.
use vstd::prelude::*;
use crate::json::{JsonValue, field_of, find_field, member_of};

verus! {

/// A tool advertised to the model.
#[derive(Debug)]
pub struct Tool {
    pub tool_type: String,
    pub function: ToolFunction,
}

/// The description of one function of a module, with the JSON-Schema shaped
/// spec of its parameters.
#[derive(Debug)]
pub struct ToolFunction {
    pub name: String,
    pub description: String,
    /// Name of the module that owns the function.
    pub module: String,
    pub parameters: JsonValue,
}

/// The text of a JSON string, and nothing for another value.
pub open spec fn str_view(v: JsonValue) -> Seq<char> {
    match v {
        JsonValue::Str(s) => s@,
        _ => Seq::empty(),
    }
}

/// The "type" of a property's schema.
pub open spec fn property_type(v: JsonValue) -> Seq<char> {
    match member_of(v, "type"@) {
        Some(t) => str_view(t),
        None => Seq::empty(),
    }
}

/// What a parameter spec says: where it is an object schema ("type" is
/// "object", with "properties" and "required"), the name and type of each
/// property and the names that are required.
pub type Schema = (Seq<(Seq<char>, Seq<char>)>, Seq<Seq<char>>);

pub open spec fn schema_of(p: JsonValue) -> Option<Schema> {
    match (member_of(p, "type"@), member_of(p, "properties"@), member_of(p, "required"@)) {
        (Some(JsonValue::Str(t)), Some(JsonValue::Object(props)), Some(JsonValue::Array(req))) => if t@
            == "object"@ {
            Some(
                (
                    props@.map_values(|e: (String, JsonValue)| (e.0@, property_type(e.1))),
                    req@.map_values(|j: JsonValue| str_view(j)),
                ),
            )
        } else {
            None
        },
        _ => None,
    }
}

/// The kind, module, name, description and parameter spec of a tool.
pub type ToolKey = (Seq<char>, Seq<char>, Seq<char>, Seq<char>, Option<Schema>);

pub open spec fn tool_key(t: Tool) -> ToolKey {
    (
        t.tool_type@,
        t.function.module@,
        t.function.name@,
        t.function.description@,
        schema_of(t.function.parameters),
    )
}

/// A tool call as the model requests it.
#[derive(Debug, PartialEq)]
pub struct ToolCall {
    pub tool_type: String,
    pub function: ToolCallFunction,
}

/// The function that a tool call names, with its arguments.
#[derive(Debug, PartialEq)]
pub struct ToolCallFunction {
    pub name: String,
    /// Name of the module, as the model gives it.
    pub module: String,
    pub arguments: JsonValue,
}

/// How a module fails to run a function.
#[derive(Debug, PartialEq)]
pub enum ModuleError {
    UnknownFunction(String),
    InvalidFunctionInput(String),
    ExecutionError(String),
}

/// A set of functions that the model may call.
pub trait Module {
    /// The module's name, unique within a registry.
    spec fn spec_name(&self) -> Seq<char>;

    /// Whether `r` is what running `func` may give.
    spec fn spec_run(&self, func: ToolCallFunction, r: Result<JsonValue, ModuleError>) -> bool;

    /// What the user sees in the command line help.
    spec fn spec_description(&self) -> Seq<char>;

    /// A fragment of the system prompt that tells the model how to use the module.
    spec fn spec_prompt(&self) -> Seq<char>;

    /// Name of the module.
    fn name(&self) -> (r: &'static str)
        ensures
            r@ == self.spec_name(),
    ;

    fn description(&self) -> (r: &'static str)
        ensures
            r@ == self.spec_description(),
    ;

    fn get_prompt(&self) -> (r: &'static str)
        ensures
            r@ == self.spec_prompt(),
    ;

    /// Runs the named function of the module.
    fn run(&self, func: &ToolCallFunction) -> (r: Result<JsonValue, ModuleError>)
        ensures
            self.spec_run(*func, r),
    ;

    /// The kind, module, name, description and parameters of each
    /// function, in order.
    spec fn spec_tools(&self) -> Seq<ToolKey>;

    /// The functions of the module, as tools for the model.
    fn tools(&self) -> (r: Vec<Tool>)
        ensures
            r@.map_values(|t: Tool| tool_key(t)) == self.spec_tools(),
    ;
}

/// `r` is the failure "invalid function input" with the message `msg`.
pub open spec fn is_invalid_input<T>(r: Result<T, ModuleError>, msg: Seq<char>) -> bool {
    match r {
        Err(ModuleError::InvalidFunctionInput(m)) => m@ == msg,
        _ => false,
    }
}

/// `r` is the failure "unknown function" naming `name`.
pub open spec fn is_unknown_function<T>(r: Result<T, ModuleError>, name: Seq<char>) -> bool {
    match r {
        Err(ModuleError::UnknownFunction(m)) => m@ == name,
        _ => false,
    }
}

/// The tool call that a JSON value describes: an object whose "type" is a
/// string and whose "function" is an object with string "name" and "module"
/// and any "arguments". Other entries are ignored.
pub open spec fn call_of(v: JsonValue) -> Option<ToolCall> {
    match v {
        JsonValue::Object(m) => match (field_of(m@, "type"@), field_of(m@, "function"@)) {
            (Some(JsonValue::Str(t)), Some(JsonValue::Object(f))) => match (
                field_of(f@, "name"@),
                field_of(f@, "module"@),
                field_of(f@, "arguments"@),
            ) {
                (Some(JsonValue::Str(n)), Some(JsonValue::Str(md)), Some(a)) => Some(
                    ToolCall {
                        tool_type: t,
                        function: ToolCallFunction { name: n, module: md, arguments: a },
                    },
                ),
                _ => None,
            },
            _ => None,
        },
        _ => None,
    }
}

/// The tool calls that a list of JSON values describes, where each of them
/// describes one.
pub open spec fn calls_of(s: Seq<JsonValue>) -> Option<Seq<ToolCall>>
    decreases s.len(),
{
    if s.len() == 0 {
        Some(Seq::empty())
    } else {
        match (call_of(s[0]), calls_of(s.drop_first())) {
            (Some(c), Some(rest)) => Some(seq![c] + rest),
            _ => None,
        }
    }
}

proof fn lemma_field_of_remove(entries: Seq<(String, JsonValue)>, i: int, key: Seq<char>)
    requires
        0 <= i < entries.len(),
        entries[i].0@ != key,
    ensures
        field_of(entries.remove(i), key) == field_of(entries, key),
    decreases entries.len(),
{
    if i == 0 {
        assert(entries.remove(0) =~= entries.drop_first());
    } else {
        assert(entries.remove(i)[0] == entries[0]);
        if entries[0].0@ != key {
            assert(entries.remove(i).drop_first() =~= entries.drop_first().remove(i - 1));
            lemma_field_of_remove(entries.drop_first(), i - 1, key);
        }
    }
}

/// Takes the first entry under `key` out of a list of object entries; what
/// stands under any other key is kept.
fn take_field(m: &mut Vec<(String, JsonValue)>, key: &str) -> (r: Option<JsonValue>)
    ensures
        r == field_of(old(m)@, key@),
        forall|k: Seq<char>| k != key@ ==> field_of(final(m)@, k) == field_of(old(m)@, k),
{
    proof {
        crate::json::lemma_field_index(m@, key@);
    }
    match find_field(m, key) {
        Some(i) => {
            let ghost before = m@;
            let (_, v) = m.remove(i);
            proof {
                assert forall|k: Seq<char>| k != key@ implies field_of(m@, k) == field_of(
                    before,
                    k,
                ) by {
                    lemma_field_of_remove(before, i as int, k);
                }
            }
            Some(v)
        },
        None => None,
    }
}

impl ToolCall {
    /// The tool call that a JSON value describes, if it describes one.
    pub fn from_json(v: JsonValue) -> (r: Option<ToolCall>)
        ensures
            r == call_of(v),
    {
        proof {
            reveal_strlit("type");
            reveal_strlit("function");
            reveal_strlit("name");
            reveal_strlit("module");
            reveal_strlit("arguments");
            assert("type"@.len() != "function"@.len());
            assert("name"@[0] != "module"@[0]);
            assert("name"@.len() != "arguments"@.len());
            assert("module"@.len() != "arguments"@.len());
        }
        match v {
            JsonValue::Object(mut m) => {
                let t = take_field(&mut m, "type");
                let f = take_field(&mut m, "function");
                match (t, f) {
                    (Some(JsonValue::Str(t)), Some(JsonValue::Object(mut fm))) => {
                        let n = take_field(&mut fm, "name");
                        let md = take_field(&mut fm, "module");
                        let a = take_field(&mut fm, "arguments");
                        match (n, md, a) {
                            (Some(JsonValue::Str(n)), Some(JsonValue::Str(md)), Some(a)) => Some(
                                ToolCall {
                                    tool_type: t,
                                    function: ToolCallFunction { name: n, module: md, arguments: a },
                                },
                            ),
                            _ => None,
                        }
                    },
                    _ => None,
                }
            },
            _ => None,
        }
    }

    /// The tool calls that a list of JSON values describes, where each of
    /// them describes one.
    pub fn list_from_json(items: Vec<JsonValue>) -> (r: Option<Vec<ToolCall>>)
        ensures
            match r {
                Some(cs) => calls_of(items@) == Some(cs@),
                None => calls_of(items@).is_none(),
            },
    {
        let ghost all = items@;
        let mut rest = items;
        let mut out: Vec<ToolCall> = Vec::new();
        while rest.len() > 0
            invariant
                all == items@,
                calls_of(all) == match calls_of(rest@) {
                    Some(tail) => Some(out@ + tail),
                    None => None::<Seq<ToolCall>>,
                },
            decreases rest.len(),
        {
            let ghost cur = rest@;
            let x = rest.remove(0);
            assert(rest@ =~= cur.drop_first());
            match ToolCall::from_json(x) {
                Some(c) => {
                    proof {
                        if let Some(tail) = calls_of(rest@) {
                            assert(out@.push(c) + tail =~= out@ + (seq![c] + tail));
                        }
                    }
                    out.push(c);
                },
                None => {
                    assert(calls_of(cur).is_none());
                    assert(calls_of(all).is_none());
                    return None;
                },
            }
        }
        assert(out@ + Seq::<ToolCall>::empty() =~= out@);
        Some(out)
    }
}

} // verus!

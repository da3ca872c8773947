//! The tool-calling loop: one run sends the context to the model, runs the
//! tool calls it asks for, folds their results back into the context, and
//! stops at a final answer or after `MAX_ITERATIONS` turns.
//!
//! The loop is a state machine. Whoever talks to the model calls `begin`,
//! then hands each turn of the model to `on_model_turn` for as long as the
//! state is `AwaitingModel`, and forwards the events that come back to its
//! sink. Text that comes with tool calls goes into the context and into the
//! accumulated response, but never out as tokens.
use vstd::prelude::*;
use crate::context::{Context, Entry, MessageRole, add_all, window};
use crate::error::AppError;
use crate::json::{JsonValue, json_text, quoted_json, quote_json};
use crate::extract::{extract, extract_tool_calls_from_content, list_calls};
use crate::text::{trim, trim_back, trim_front};
use crate::module::{Module, ToolCall};
use crate::registry::{ModuleRegistry, executes};
use crate::streaming::{ProgressInfo, StreamEvent};
use crate::text::{chars_of, push_char, push_str};

verus! {

/// The most turns of the model in one run.
pub const MAX_ITERATIONS: usize = 10;

/// Why a run stopped.
#[derive(Debug, Clone, Copy, PartialEq, Eq, Structural)]
pub enum TerminationReason {
    Completed,
    IterationLimitReached,
}

/// Where a conversation stands.
#[derive(Debug, Clone, Copy, PartialEq, Eq, Structural)]
pub enum LoopState {
    /// No run has begun.
    Idle,
    /// The next turn of the model is due.
    AwaitingModel,
    Terminated(TerminationReason),
    /// A tool call failed and the run was aborted.
    Failed,
}

/// One turn of the model: its text, and the tool calls it asks for.
#[derive(Debug)]
pub struct GenerateResult {
    pub response: String,
    pub tool_calls: Option<Vec<ToolCall>>,
}

/// What one turn gave: the events for the sink, and the result of each tool call.
#[derive(Debug)]
pub struct TurnStep {
    pub events: Vec<StreamEvent>,
    pub results: Vec<JsonValue>,
}

/// The JSON text of one tool call, as serde_json writes it.
pub open spec fn call_text(c: ToolCall) -> Seq<char> {
    "{\"type\":"@ + quoted_json(c.tool_type@) + ",\"function\":{\"name\":"@ + quoted_json(
        c.function.name@,
    ) + ",\"module\":"@ + quoted_json(c.function.module@) + ",\"arguments\":"@ + json_text(
        c.function.arguments,
    ) + "}}"@
}

/// The texts of the first `n` calls, separated by commas.
pub open spec fn calls_joined(cs: Seq<ToolCall>, n: nat) -> Seq<char>
    decreases n,
{
    if n == 0 {
        Seq::empty()
    } else if n == 1 {
        call_text(cs[0])
    } else {
        calls_joined(cs, (n - 1) as nat) + ","@ + call_text(cs[n - 1])
    }
}

/// The JSON array of the calls, as the model wrote them.
pub open spec fn calls_text(cs: Seq<ToolCall>) -> Seq<char> {
    "["@ + calls_joined(cs, cs.len()) + "]"@
}

/// The report of one call's result.
pub open spec fn result_text(c: ToolCall, v: JsonValue) -> Seq<char> {
    "{ \"name\": \""@ + c.function.name@ + "\", \"module\": \""@ + c.function.module@
        + "\", \"result\": "@ + json_text(v) + " }"@
}

/// The reports of the first `n` results, separated by "; ".
pub open spec fn results_joined(cs: Seq<ToolCall>, vs: Seq<JsonValue>, n: nat) -> Seq<char>
    decreases n,
{
    if n == 0 {
        Seq::empty()
    } else if n == 1 {
        result_text(cs[0], vs[0])
    } else {
        results_joined(cs, vs, (n - 1) as nat) + "; "@ + result_text(cs[n - 1], vs[n - 1])
    }
}

/// The one message that reports the results of all calls of a turn.
pub open spec fn tool_result_text(cs: Seq<ToolCall>, vs: Seq<JsonValue>) -> Seq<char> {
    "TOOL_RESULT: "@ + results_joined(cs, vs, cs.len())
}

/// The call at `k` is the first of `cs` to fail, with `e`: the calls before
/// it succeed with the results `vs`.
pub open spec fn first_failure<M: Module>(
    ms: Seq<M>,
    cs: Seq<ToolCall>,
    k: int,
    vs: Seq<JsonValue>,
    e: AppError,
) -> bool {
    &&& 0 <= k < cs.len()
    &&& vs.len() == k
    &&& forall|i: int|
        0 <= i < k ==> executes(ms, cs[i].function, Ok::<JsonValue, AppError>(vs[i]))
    &&& executes(ms, cs[k].function, Err::<JsonValue, AppError>(e))
}

/// One `Token` event for each character of the text, in order.
pub open spec fn is_token_stream(events: Seq<StreamEvent>, text: Seq<char>) -> bool {
    &&& events.len() == text.len()
    &&& forall|i: int|
        0 <= i < events.len() ==> match #[trigger] events[i] {
            StreamEvent::Token(t) => t@ == seq![text[i]],
            _ => false,
        }
}

/// The events that end a run with a final answer: its tokens, then `Finished`.
pub open spec fn is_final_events(events: Seq<StreamEvent>, text: Seq<char>) -> bool {
    &&& events.len() == text.len() + 1
    &&& is_token_stream(events.take(text.len() as int), text)
    &&& events.last() is Finished
}

/// The events that end a run at the turn limit: the error, then `Finished`.
pub open spec fn is_limit_events(events: Seq<StreamEvent>) -> bool {
    &&& events.len() == 2
    &&& match events[0] {
        StreamEvent::Error(m) => m@ == "Maximum tool chain iterations reached"@,
        _ => false,
    }
    &&& events[1] is Finished
}

/// The turn count and state after a turn of the model, from the count before
/// it and whether the model asked for tool calls.
pub open spec fn after_turn(turns: nat, has_calls: bool) -> (nat, LoopState) {
    if !has_calls {
        (turns + 1, LoopState::Terminated(TerminationReason::Completed))
    } else if turns + 1 >= MAX_ITERATIONS {
        (turns + 1, LoopState::Terminated(TerminationReason::IterationLimitReached))
    } else {
        (turns + 1, LoopState::AwaitingModel)
    }
}

/// The turn count and state after `k` turns of a model that always asks for
/// tool calls; turns after the run has ended change nothing.
pub open spec fn always_calls(k: nat) -> (nat, LoopState)
    decreases k,
{
    if k == 0 {
        (0, LoopState::AwaitingModel)
    } else {
        let prev = always_calls((k - 1) as nat);
        if prev.1 == LoopState::AwaitingModel {
            after_turn(prev.0, true)
        } else {
            prev
        }
    }
}

proof fn lemma_add_all_concat(s: Seq<Entry>, a: Seq<Entry>, b: Seq<Entry>, n: nat)
    ensures
        add_all(s, a + b, n) == add_all(add_all(s, a, n), b, n),
    decreases a.len(),
{
    if a.len() == 0 {
        assert(a + b =~= b);
    } else {
        assert((a + b).drop_first() =~= a.drop_first() + b);
        lemma_add_all_concat(window(s.push(a[0]), n), a.drop_first(), b, n);
    }
}

proof fn lemma_add_one(s: Seq<Entry>, e: Entry, n: nat)
    ensures
        add_all(s, seq![e], n) == window(s.push(e), n),
{
    assert(seq![e].drop_first() =~= Seq::<Entry>::empty());
    assert(add_all(window(s.push(e), n), Seq::<Entry>::empty(), n) == window(s.push(e), n));
}

/// The state of one conversation: its context and, for the current run, the
/// number of turns, the accumulated response text and the loop state.
pub struct Conversation {
    context: Context,
    turns: usize,
    response: String,
    state: LoopState,
}

impl Conversation {
    pub closed spec fn history(&self) -> Seq<Entry> {
        self.context@
    }

    pub closed spec fn max_history(&self) -> nat {
        self.context.max_history()
    }

    /// Turns of the model in the current run.
    pub closed spec fn turns(&self) -> nat {
        self.turns as nat
    }

    /// Every non-empty response text of the current run, in order.
    pub closed spec fn response_text(&self) -> Seq<char> {
        self.response@
    }

    pub closed spec fn state(&self) -> LoopState {
        self.state
    }

    /// The context keeps its bound, and a run that waits for the model has
    /// turns left.
    pub closed spec fn wf(&self) -> bool {
        &&& self.context.wf()
        &&& self.context@.len() <= self.context.max_history()
        &&& self.turns <= MAX_ITERATIONS
        &&& self.state == LoopState::AwaitingModel ==> self.turns < MAX_ITERATIONS
    }

    pub fn new(max_history: usize) -> (r: Conversation)
        ensures
            r.wf(),
            r.history().len() == 0,
            r.max_history() == max_history,
            r.state() == LoopState::Idle,
    {
        Conversation {
            context: Context::new(max_history),
            turns: 0,
            response: String::new(),
            state: LoopState::Idle,
        }
    }

    pub fn set_system_message(&mut self, message: &str)
        requires
            old(self).wf(),
        ensures
            final(self).wf(),
            final(self).history() == window(
                old(self).history().push((MessageRole::System, message@)),
                old(self).max_history(),
            ),
            final(self).max_history() == old(self).max_history(),
            final(self).state() == old(self).state(),
    {
        self.context.add_system_message(String::from_str(message));
    }

    pub fn clear_context(&mut self)
        requires
            old(self).wf(),
        ensures
            final(self).wf(),
            final(self).history().len() == 0,
            final(self).max_history() == old(self).max_history(),
            final(self).state() == old(self).state(),
    {
        self.context.clear();
    }

    pub fn context_size(&self) -> (r: usize)
        ensures
            r == self.history().len(),
    {
        self.context.len()
    }

    pub fn get_context(&self) -> (r: &Context)
        ensures
            r@ == self.history(),
            r.max_history() == self.max_history(),
    {
        &self.context
    }

    /// The accumulated response text of the current run.
    pub fn response(&self) -> (r: &String)
        ensures
            r@ == self.response_text(),
    {
        &self.response
    }

    pub fn get_state(&self) -> (r: LoopState)
        ensures
            r == self.state(),
    {
        self.state
    }

    /// Starts a run: adds the prompt as the user's message and reports that a
    /// response is on its way.
    pub fn begin(&mut self, prompt: &str) -> (events: Vec<StreamEvent>)
        requires
            old(self).wf(),
        ensures
            final(self).wf(),
            final(self).history() == window(
                old(self).history().push((MessageRole::User, prompt@)),
                old(self).max_history(),
            ),
            final(self).max_history() == old(self).max_history(),
            final(self).turns() == 0,
            final(self).response_text().len() == 0,
            final(self).state() == LoopState::AwaitingModel,
            events@.len() == 1,
            match events@[0] {
                StreamEvent::Progress(p) => p.current == 20 && p.total.is_none() && p.message@
                    == "Getting response..."@,
                _ => false,
            },
    {
        self.context.add_user_message(String::from_str(prompt));
        self.turns = 0;
        self.response = String::new();
        self.state = LoopState::AwaitingModel;
        let mut events = Vec::new();
        events.push(
            StreamEvent::Progress(
                ProgressInfo {
                    current: 20,
                    total: None,
                    message: String::from_str("Getting response..."),
                },
            ),
        );
        events
    }

    /// Runs the tool calls in order and adds one message that reports all of
    /// their results. The first failure ends the calls and is returned.
    pub fn execute_tool_calls<M: Module>(
        &mut self,
        tool_calls: &Vec<ToolCall>,
        registry: &ModuleRegistry<M>,
    ) -> (r: Result<Vec<JsonValue>, AppError>)
        requires
            old(self).wf(),
        ensures
            final(self).wf(),
            final(self).max_history() == old(self).max_history(),
            final(self).turns() == old(self).turns(),
            final(self).response_text() == old(self).response_text(),
            final(self).state() == old(self).state(),
            match r {
                Ok(vs) => {
                    &&& vs@.len() == tool_calls@.len()
                    &&& forall|i: int|
                        0 <= i < vs@.len() ==> executes(
                            registry@,
                            tool_calls@[i].function,
                            Ok::<JsonValue, AppError>(vs@[i]),
                        )
                    &&& final(self).history() == if tool_calls@.len() > 0 {
                        window(
                            old(self).history().push(
                                (MessageRole::Assistant, tool_result_text(tool_calls@, vs@)),
                            ),
                            old(self).max_history(),
                        )
                    } else {
                        old(self).history()
                    }
                },
                Err(e) => {
                    &&& final(self).history() == old(self).history()
                    &&& exists|k: int, vs: Seq<JsonValue>|
                        #[trigger] first_failure(registry@, tool_calls@, k, vs, e)
                },
            },
    {
        proof {
            reveal_strlit("; ");
        }
        let mut results: Vec<JsonValue> = Vec::new();
        let mut report = String::from_str("TOOL_RESULT: ");
        let mut i: usize = 0;
        while i < tool_calls.len()
            invariant
                i <= tool_calls@.len(),
                results@.len() == i,
                forall|k: int|
                    0 <= k < i ==> executes(
                        registry@,
                        tool_calls@[k].function,
                        Ok::<JsonValue, AppError>(results@[k]),
                    ),
                report@ == "TOOL_RESULT: "@ + results_joined(tool_calls@, results@, i as nat),
                self.wf(),
                self.context@ == old(self).context@,
                self.context.max_history() == old(self).context.max_history(),
                self.turns == old(self).turns,
                self.response@ == old(self).response@,
                self.state == old(self).state,
            decreases tool_calls.len() - i,
        {
            let call = &tool_calls[i];
            let result = registry.execute(&call.function);
            match result {
                Ok(v) => {
                    if i > 0 {
                        push_str(&mut report, "; ");
                    }
                    push_str(&mut report, "{ \"name\": \"");
                    push_str(&mut report, call.function.name.as_str());
                    push_str(&mut report, "\", \"module\": \"");
                    push_str(&mut report, call.function.module.as_str());
                    push_str(&mut report, "\", \"result\": ");
                    push_str(&mut report, v.to_json_string().as_str());
                    push_str(&mut report, " }");
                    let ghost old_results = results@;
                    results.push(v);
                    proof {
                        assert(results@.take(i as int) =~= old_results);
                        assert(old_results.take(i as int) =~= old_results);
                        lemma_results_prefix(tool_calls@, old_results, results@, i as nat);
                        assert(results_joined(tool_calls@, results@, (i + 1) as nat)
                            == if i == 0 {
                            result_text(tool_calls@[0], results@[0])
                        } else {
                            results_joined(tool_calls@, results@, i as nat) + "; "@
                                + result_text(tool_calls@[i as int], results@[i as int])
                        });
                        assert(report@ =~= "TOOL_RESULT: "@ + results_joined(
                            tool_calls@,
                            results@,
                            (i + 1) as nat,
                        ));
                    }
                },
                Err(e) => {
                    assert(first_failure(registry@, tool_calls@, i as int, results@, e));
                    return Err(e);
                },
            }
            i = i + 1;
        }
        if tool_calls.len() > 0 {
            self.context.add_assistant_message(report);
        }
        Ok(results)
    }

    /// Takes one turn of the model. With tool calls it records them, runs
    /// them and reports their results, then waits for the next turn, or stops
    /// at the turn limit with an error event. Without tool calls the response
    /// is the final answer: it goes out one character per token event, and
    /// the run completes. A failing tool call aborts the run.
    pub fn on_model_turn<M: Module>(
        &mut self,
        result: GenerateResult,
        registry: &ModuleRegistry<M>,
    ) -> (r: Result<TurnStep, AppError>)
        requires
            old(self).wf(),
            old(self).state() == LoopState::AwaitingModel,
        ensures
            final(self).wf(),
            final(self).max_history() == old(self).max_history(),
            final(self).history().len() <= final(self).max_history(),
            final(self).response_text() == old(self).response_text() + result.response@,
            match r {
                Ok(step) => {
                    let spoken = if result.response@.len() > 0 {
                        seq![(MessageRole::Assistant, result.response@)]
                    } else {
                        Seq::<Entry>::empty()
                    };
                    &&& (final(self).turns(), final(self).state()) == after_turn(
                        old(self).turns(),
                        result.tool_calls.is_some(),
                    )
                    &&& match result.tool_calls {
                        Some(cs) => {
                            &&& step.results@.len() == cs@.len()
                            &&& forall|i: int|
                                0 <= i < cs@.len() ==> executes(
                                    registry@,
                                    cs@[i].function,
                                    Ok::<JsonValue, AppError>(step.results@[i]),
                                )
                            &&& final(self).history() == add_all(
                                old(self).history(),
                                spoken + seq![(MessageRole::Assistant, calls_text(cs@))] + if cs@.len()
                                    > 0 {
                                    seq![
                                        (
                                            MessageRole::Assistant,
                                            tool_result_text(cs@, step.results@),
                                        ),
                                    ]
                                } else {
                                    Seq::<Entry>::empty()
                                },
                                old(self).max_history(),
                            )
                            &&& final(self).state() == LoopState::AwaitingModel ==> step.events@.len()
                                == 0
                            &&& final(self).state() != LoopState::AwaitingModel ==> is_limit_events(
                                step.events@,
                            )
                        },
                        None => {
                            &&& step.results@.len() == 0
                            &&& final(self).history() == add_all(
                                old(self).history(),
                                spoken,
                                old(self).max_history(),
                            )
                            &&& is_final_events(step.events@, result.response@)
                        },
                    }
                },
                Err(e) => {
                    let spoken = if result.response@.len() > 0 {
                        seq![(MessageRole::Assistant, result.response@)]
                    } else {
                        Seq::<Entry>::empty()
                    };
                    &&& final(self).state() == LoopState::Failed
                    &&& match result.tool_calls {
                        Some(cs) => {
                            &&& exists|k: int, vs: Seq<JsonValue>|
                                #[trigger] first_failure(registry@, cs@, k, vs, e)
                            &&& final(self).history() == add_all(
                                old(self).history(),
                                spoken + seq![(MessageRole::Assistant, calls_text(cs@))],
                                old(self).max_history(),
                            )
                        },
                        None => false,
                    }
                },
            },
    {
        let GenerateResult { response, tool_calls } = result;
        let ghost h0 = self.context@;
        let ghost n = self.context.max_history();
        push_str(&mut self.response, response.as_str());
        let spoke = response.unicode_len() > 0;
        let text = response.clone();
        if spoke {
            self.context.add_assistant_message(response);
        }
        let ghost spoken = if text@.len() > 0 {
            seq![(MessageRole::Assistant, text@)]
        } else {
            Seq::<Entry>::empty()
        };
        proof {
            if text@.len() > 0 {
                lemma_add_one(h0, (MessageRole::Assistant, text@), n);
            }
        }
        assert(self.context@ == add_all(h0, spoken, n));
        match tool_calls {
            Some(calls) => {
                let ghost h1 = self.context@;
                let serialized = calls_json(&calls);
                self.context.add_assistant_message(serialized);
                proof {
                    lemma_add_one(h1, (MessageRole::Assistant, calls_text(calls@)), n);
                    lemma_add_all_concat(
                        h0,
                        spoken,
                        seq![(MessageRole::Assistant, calls_text(calls@))],
                        n,
                    );
                }
                let ghost h2 = self.context@;
                match self.execute_tool_calls(&calls, registry) {
                    Ok(results) => {
                        proof {
                            let first = spoken + seq![(MessageRole::Assistant, calls_text(calls@))];
                            if calls@.len() > 0 {
                                let report = (
                                    MessageRole::Assistant,
                                    tool_result_text(calls@, results@),
                                );
                                lemma_add_one(h2, report, n);
                                lemma_add_all_concat(h0, first, seq![report], n);
                            } else {
                                assert(first + Seq::<Entry>::empty() =~= first);
                            }
                        }
                        let mut events = Vec::new();
                        self.turns = self.turns + 1;
                        if self.turns >= MAX_ITERATIONS {
                            events.push(
                                StreamEvent::Error(
                                    String::from_str("Maximum tool chain iterations reached"),
                                ),
                            );
                            events.push(StreamEvent::Finished);
                            self.state = LoopState::Terminated(
                                TerminationReason::IterationLimitReached,
                            );
                        }
                        Ok(TurnStep { events, results })
                    },
                    Err(e) => {
                        self.state = LoopState::Failed;
                        self.turns = self.turns + 1;
                        Err(e)
                    },
                }
            },
            None => {
                let cs = chars_of(text.as_str());
                let mut events: Vec<StreamEvent> = Vec::new();
                let mut i: usize = 0;
                while i < cs.len()
                    invariant
                        i <= cs@.len(),
                        cs@ == text@,
                        is_token_stream(events@, cs@.take(i as int)),
                    decreases cs.len() - i,
                {
                    let mut t = String::new();
                    push_char(&mut t, cs[i]);
                    assert(t@ =~= seq![cs@[i as int]]);
                    events.push(StreamEvent::Token(t));
                    assert(cs@.take(i + 1) =~= cs@.take(i as int).push(cs@[i as int]));
                    i = i + 1;
                }
                assert(cs@.take(cs@.len() as int) =~= cs@);
                events.push(StreamEvent::Finished);
                assert(events@.take(cs@.len() as int) =~= events@.drop_last());
                self.state = LoopState::Terminated(TerminationReason::Completed);
                self.turns = self.turns + 1;
                Ok(TurnStep { events, results: Vec::new() })
            },
        }
    }
}

proof fn lemma_results_prefix(cs: Seq<ToolCall>, vs: Seq<JsonValue>, ws: Seq<JsonValue>, n: nat)
    requires
        n <= vs.len(),
        n <= ws.len(),
        ws.take(n as int) == vs.take(n as int),
    ensures
        results_joined(cs, vs, n) == results_joined(cs, ws, n),
    decreases n,
{
    if n > 0 {
        assert(vs[n - 1] == vs.take(n as int)[n - 1]);
        assert(ws[n - 1] == ws.take(n as int)[n - 1]);
        if n > 1 {
            assert(vs[0] == vs.take(n as int)[0]);
            assert(ws[0] == ws.take(n as int)[0]);
            assert(ws.take(n - 1) =~= ws.take(n as int).take(n - 1));
            assert(vs.take(n - 1) =~= vs.take(n as int).take(n - 1));
            lemma_results_prefix(cs, vs, ws, (n - 1) as nat);
        } else {
            assert(vs[0] == vs.take(n as int)[0]);
            assert(ws[0] == ws.take(n as int)[0]);
        }
    }
}

/// The JSON array text of tool calls.
pub fn calls_json(calls: &Vec<ToolCall>) -> (r: String)
    ensures
        r@ == calls_text(calls@),
{
    proof {
        reveal_strlit(",");
    }
    let mut r = String::from_str("[");
    let mut i: usize = 0;
    while i < calls.len()
        invariant
            i <= calls@.len(),
            r@ == "["@ + calls_joined(calls@, i as nat),
        decreases calls.len() - i,
    {
        let c = &calls[i];
        if i > 0 {
            push_str(&mut r, ",");
        }
        push_str(&mut r, "{\"type\":");
        push_str(&mut r, quote_json(c.tool_type.as_str()).as_str());
        push_str(&mut r, ",\"function\":{\"name\":");
        push_str(&mut r, quote_json(c.function.name.as_str()).as_str());
        push_str(&mut r, ",\"module\":");
        push_str(&mut r, quote_json(c.function.module.as_str()).as_str());
        push_str(&mut r, ",\"arguments\":");
        push_str(&mut r, c.function.arguments.to_json_string().as_str());
        push_str(&mut r, "}}");
        assert(r@ =~= "["@ + calls_joined(calls@, (i + 1) as nat));
        i = i + 1;
    }
    push_str(&mut r, "]");
    r
}

impl GenerateResult {
    /// A turn from the model's whole text: the tool calls found in it, if
    /// any, and the text left once they are cut out.
    pub fn from_text(full_response: &str) -> (r: GenerateResult)
        ensures
            r.response@ == extract(full_response@).1,
            match r.tool_calls {
                Some(cs) => cs@ == extract(full_response@).0 && cs@.len() > 0,
                None => extract(full_response@).0.len() == 0,
            },
    {
        let (calls, rest) = extract_tool_calls_from_content(full_response);
        GenerateResult {
            response: rest,
            tool_calls: if calls.len() == 0 {
                None
            } else {
                Some(calls)
            },
        }
    }
}

/// Serializing a list of tool calls as one JSON array and extracting from
/// that text gives back exactly the list and no residual text, wherever
/// serde_json reads the text back as those calls.
pub proof fn lemma_serialized_calls_round_trip(calls: Seq<ToolCall>)
    requires
        list_calls(calls_text(calls)) == Some(calls),
    ensures
        extract(calls_text(calls)) == (calls, Seq::<char>::empty()),
{
    let t = calls_text(calls);
    reveal_strlit("[");
    reveal_strlit("]");
    assert(t[0] == '[');
    assert(t.last() == ']');
    assert(trim_front(t) == t);
    assert(trim_back(t) == t);
    assert(trim(t) == t);
}

/// A well-formed conversation's history holds at most `max_history` messages.
pub proof fn lemma_history_bounded(c: Conversation)
    requires
        c.wf(),
    ensures
        c.history().len() <= c.max_history(),
{
}

/// A run never asks the model for more than `MAX_ITERATIONS` turns: a
/// well-formed conversation has made at most that many, and one that waits
/// for the model has made fewer.
pub proof fn lemma_turns_bounded(c: Conversation)
    requires
        c.wf(),
    ensures
        c.turns() <= MAX_ITERATIONS,
        c.state() == LoopState::AwaitingModel ==> c.turns() < MAX_ITERATIONS,
{
}

/// A model that asks for tool calls at every turn keeps the run going for
/// `MAX_ITERATIONS` turns, and the run stops at exactly that turn, at the
/// limit; further turns are never taken.
pub proof fn lemma_always_calls_hits_limit(k: nat)
    ensures
        k < MAX_ITERATIONS ==> always_calls(k) == (k, LoopState::AwaitingModel),
        k >= MAX_ITERATIONS ==> always_calls(k) == (
            MAX_ITERATIONS as nat,
            LoopState::Terminated(TerminationReason::IterationLimitReached),
        ),
    decreases k,
{
    if k > 0 {
        lemma_always_calls_hits_limit((k - 1) as nat);
    }
}

} // verus!

//! Recovers tool calls from model output that may be pure JSON, JSON in a
//! fenced code block, JSON inside prose, or plain text.
//!
//! Strategies, in order: the whole text as an array of calls; the whole text
//! as one call; every fenced block that holds calls (each such block is cut
//! out of the residual text); else the first balanced `[...]` region, if it
//! holds calls; else every balanced top-level `{...}` region that holds one
//! call. A strategy succeeds only where it yields at least one call. Brackets
//! inside JSON strings are skipped, and a region that never closes ends the
//! scan. The residual text is trimmed; where no call is found it is the whole
//! input, trimmed.
use vstd::prelude::*;
use crate::json::{JsonValue, parsed_json};
use crate::module::{ToolCall, call_of, calls_of};
use crate::text::{trim, trim_bounds, string_of, push_range, chars_of};

verus! {

/// The calls that a text holds as a JSON array of calls.
pub open spec fn list_calls(t: Seq<char>) -> Option<Seq<ToolCall>> {
    match parsed_json(t) {
        Some(JsonValue::Array(items)) => calls_of(items@),
        _ => None,
    }
}

/// The call that a text holds as one JSON object.
pub open spec fn object_call(t: Seq<char>) -> Option<ToolCall> {
    match parsed_json(t) {
        Some(v) => call_of(v),
        None => None,
    }
}

/// The calls of a text that is an array of calls or one call, once trimmed.
pub open spec fn parsed_calls(t: Seq<char>) -> Option<Seq<ToolCall>> {
    let u = trim(t);
    if u.len() > 0 && u[0] == '[' {
        list_calls(u)
    } else if u.len() > 0 && u[0] == '{' {
        match object_call(u) {
            Some(c) => Some(seq![c]),
            None => None,
        }
    } else {
        None
    }
}

/// Keeps a result only where it holds at least one call.
pub open spec fn nonempty(r: Option<Seq<ToolCall>>) -> Option<Seq<ToolCall>> {
    match r {
        Some(cs) => if cs.len() > 0 {
            Some(cs)
        } else {
            None
        },
        None => None,
    }
}

/// The text of a fenced block without a leading `json` language tag.
pub open spec fn untagged(s: Seq<char>) -> Seq<char> {
    if s.len() >= 4 && s[0] == 'j' && s[1] == 's' && s[2] == 'o' && s[3] == 'n' {
        s.skip(4)
    } else {
        s
    }
}

/// The calls of the inside of a fenced block.
pub open spec fn fenced_calls(inner: Seq<char>) -> Option<Seq<ToolCall>> {
    nonempty(parsed_calls(untagged(trim(inner))))
}

pub open spec fn is_fence_at(s: Seq<char>, k: int) -> bool {
    0 <= k && k + 3 <= s.len() && s[k] == '`' && s[k + 1] == '`' && s[k + 2] == '`'
}

/// Fenced-block scan from position `k`. `open` is where the fence that is
/// open began (or -1), `seg` where the text not yet handed out begins.
/// Gives the calls found and the text that is kept.
pub open spec fn fence_scan(s: Seq<char>, k: int, open: int, seg: int) -> (Seq<ToolCall>, Seq<char>)
    decreases s.len() - k,
{
    if k < 0 || k + 3 > s.len() {
        (Seq::empty(), s.subrange(seg, s.len() as int))
    } else if is_fence_at(s, k) {
        if open < 0 {
            fence_scan(s, k + 3, k, seg)
        } else {
            match fenced_calls(s.subrange(open + 3, k)) {
                Some(cs) => {
                    let r = fence_scan(s, k + 3, -1, k + 3);
                    (cs + r.0, s.subrange(seg, open) + r.1)
                },
                None => fence_scan(s, k + 3, -1, seg),
            }
        }
    } else {
        fence_scan(s, k + 1, open, seg)
    }
}

/// One character of a bracketed region: the new nesting depth, whether the
/// scan is inside a JSON string, and whether the next character is escaped.
pub open spec fn step(c: char, depth: int, in_str: bool, esc: bool) -> (int, bool, bool) {
    if in_str {
        if esc {
            (depth, true, false)
        } else if c == '\\' {
            (depth, true, true)
        } else if c == '"' {
            (depth, false, false)
        } else {
            (depth, true, false)
        }
    } else if c == '"' {
        (depth, true, false)
    } else if c == '[' || c == '{' {
        (depth + 1, false, false)
    } else if c == ']' || c == '}' {
        (depth - 1, false, false)
    } else {
        (depth, false, false)
    }
}

/// The first balanced region that opens with `[`, from position `k`;
/// `start` is where the region being scanned opened (or -1).
pub open spec fn array_region(
    s: Seq<char>,
    k: int,
    start: int,
    depth: int,
    in_str: bool,
    esc: bool,
) -> Option<(int, int)>
    decreases s.len() - k,
{
    if k < 0 || k >= s.len() {
        None
    } else if start < 0 {
        if s[k] == '[' {
            array_region(s, k + 1, k, 1, false, false)
        } else {
            array_region(s, k + 1, -1, 0, false, false)
        }
    } else {
        let n = step(s[k], depth, in_str, esc);
        if n.0 == 0 {
            Some((start, k + 1))
        } else {
            array_region(s, k + 1, start, n.0, n.1, n.2)
        }
    }
}

/// The calls of the first balanced `[...]` region, with the text around it.
pub open spec fn array_scan(s: Seq<char>) -> Option<(Seq<ToolCall>, Seq<char>)> {
    match array_region(s, 0, -1, 0, false, false) {
        Some((i, e)) => match nonempty(list_calls(s.subrange(i, e))) {
            Some(cs) => Some((cs, s.subrange(0, i) + s.subrange(e, s.len() as int))),
            None => None,
        },
        None => None,
    }
}

/// Scan for balanced top-level `{...}` regions that each hold one call.
pub open spec fn object_scan(
    s: Seq<char>,
    k: int,
    start: int,
    depth: int,
    in_str: bool,
    esc: bool,
    seg: int,
) -> (Seq<ToolCall>, Seq<char>)
    decreases s.len() - k,
{
    if k < 0 || k >= s.len() {
        (Seq::empty(), s.subrange(seg, s.len() as int))
    } else if start < 0 {
        if s[k] == '{' {
            object_scan(s, k + 1, k, 1, false, false, seg)
        } else {
            object_scan(s, k + 1, -1, 0, false, false, seg)
        }
    } else {
        let n = step(s[k], depth, in_str, esc);
        if n.0 == 0 {
            match object_call(s.subrange(start, k + 1)) {
                Some(c) => {
                    let r = object_scan(s, k + 1, -1, 0, false, false, k + 1);
                    (seq![c] + r.0, s.subrange(seg, start) + r.1)
                },
                None => object_scan(s, k + 1, -1, 0, false, false, seg),
            }
        } else {
            object_scan(s, k + 1, start, n.0, n.1, n.2, seg)
        }
    }
}

/// The tool calls of a model's text, and the text left once they are cut out.
pub open spec fn extract(s: Seq<char>) -> (Seq<ToolCall>, Seq<char>) {
    let t = trim(s);
    if t.len() > 0 && t[0] == '[' && t.last() == ']' && list_calls(t).is_some() {
        (list_calls(t).unwrap(), Seq::empty())
    } else if t.len() > 0 && t[0] == '{' && t.last() == '}' && object_call(t).is_some() {
        (seq![object_call(t).unwrap()], Seq::empty())
    } else {
        let f = fence_scan(s, 0, -1, 0);
        if f.0.len() > 0 {
            (f.0, trim(f.1))
        } else {
            match array_scan(s) {
                Some((cs, rest)) => (cs, trim(rest)),
                None => {
                    let o = object_scan(s, 0, -1, 0, false, false, 0);
                    if o.0.len() > 0 {
                        (o.0, trim(o.1))
                    } else {
                        (Seq::empty(), trim(s))
                    }
                },
            }
        }
    }
}

/// Parses `s[from..to]` as a JSON document.
fn parse_range(s: &Vec<char>, from: usize, to: usize) -> (r: Option<JsonValue>)
    requires
        from <= to <= s@.len(),
    ensures
        r == parsed_json(s@.subrange(from as int, to as int)),
{
    let t = string_of(s, from, to);
    JsonValue::parse(t.as_str())
}

/// The calls that `s[from..to]` holds as a JSON array of calls.
fn list_calls_in(s: &Vec<char>, from: usize, to: usize) -> (r: Option<Vec<ToolCall>>)
    requires
        from <= to <= s@.len(),
    ensures
        match r {
            Some(cs) => list_calls(s@.subrange(from as int, to as int)) == Some(cs@),
            None => list_calls(s@.subrange(from as int, to as int)).is_none(),
        },
{
    match parse_range(s, from, to) {
        Some(JsonValue::Array(items)) => ToolCall::list_from_json(items),
        _ => None,
    }
}

/// The call that `s[from..to]` holds as one JSON object.
fn object_call_in(s: &Vec<char>, from: usize, to: usize) -> (r: Option<ToolCall>)
    requires
        from <= to <= s@.len(),
    ensures
        r == object_call(s@.subrange(from as int, to as int)),
{
    match parse_range(s, from, to) {
        Some(v) => ToolCall::from_json(v),
        None => None,
    }
}

/// The calls of `s[from..to]`, once trimmed, as an array of calls or as one call.
fn parsed_calls_in(s: &Vec<char>, from: usize, to: usize) -> (r: Option<Vec<ToolCall>>)
    requires
        from <= to <= s@.len(),
    ensures
        match r {
            Some(cs) => parsed_calls(s@.subrange(from as int, to as int)) == Some(cs@),
            None => parsed_calls(s@.subrange(from as int, to as int)).is_none(),
        },
{
    let (a, b) = trim_bounds(s, from, to);
    if a < b && s[a] == '[' {
        list_calls_in(s, a, b)
    } else if a < b && s[a] == '{' {
        match object_call_in(s, a, b) {
            Some(c) => {
                let mut v = Vec::new();
                v.push(c);
                proof {
                    assert(v@ =~= seq![c]);
                }
                Some(v)
            },
            None => None,
        }
    } else {
        None
    }
}

/// Reads a text as an array of tool calls or as one tool call, once trimmed.
pub fn try_parse_tool_calls(content: &str) -> (r: Option<Vec<ToolCall>>)
    ensures
        match r {
            Some(cs) => parsed_calls(content@) == Some(cs@),
            None => parsed_calls(content@).is_none(),
        },
{
    let s = chars_of(content);
    proof {
        assert(s@.subrange(0, s@.len() as int) =~= content@);
    }
    parsed_calls_in(&s, 0, s.len())
}

/// The calls of the inside `s[from..to]` of a fenced block.
fn fenced_calls_in(s: &Vec<char>, from: usize, to: usize) -> (r: Option<Vec<ToolCall>>)
    requires
        from <= to <= s@.len(),
    ensures
        match r {
            Some(cs) => fenced_calls(s@.subrange(from as int, to as int)) == Some(cs@),
            None => fenced_calls(s@.subrange(from as int, to as int)).is_none(),
        },
{
    let (a, b) = trim_bounds(s, from, to);
    let ghost t = s@.subrange(a as int, b as int);
    let mut a2 = a;
    if b - a >= 4 && s[a] == 'j' && s[a + 1] == 's' && s[a + 2] == 'o' && s[a + 3] == 'n' {
        a2 = a + 4;
        assert(t.skip(4) =~= s@.subrange(a2 as int, b as int));
    } else {
        assert(t =~= s@.subrange(a2 as int, b as int));
    }
    match parsed_calls_in(s, a2, b) {
        Some(cs) => if cs.len() > 0 {
            Some(cs)
        } else {
            None
        },
        None => None,
    }
}

fn is_fence(s: &Vec<char>, k: usize) -> (r: bool)
    ensures
        r == is_fence_at(s@, k as int),
{
    k <= s.len() && s.len() - k >= 3 && s[k] == '`' && s[k + 1] == '`' && s[k + 2] == '`'
}

/// Runs the fenced-block scan over the whole text.
fn scan_fences(s: &Vec<char>) -> (r: (Vec<ToolCall>, Vec<char>))
    ensures
        (r.0@, r.1@) == fence_scan(s@, 0, -1, 0),
        r.1@.len() <= s@.len(),
{
    let mut calls: Vec<ToolCall> = Vec::new();
    let mut kept: Vec<char> = Vec::new();
    let mut k: usize = 0;
    let mut open: usize = 0;
    let mut is_open = false;
    let mut seg: usize = 0;
    while k <= s.len() && s.len() - k >= 3
        invariant
            seg <= k <= s@.len(),
            kept@.len() <= seg,
            is_open ==> seg <= open && open + 3 <= k,
            fence_scan(s@, 0, -1, 0) == ({
                let f = fence_scan(s@, k as int, if is_open { open as int } else { -1 }, seg as int);
                (calls@ + f.0, kept@ + f.1)
            }),
        decreases s.len() - k,
    {
        if is_fence(s, k) {
            if !is_open {
                is_open = true;
                open = k;
                k = k + 3;
            } else {
                let found = fenced_calls_in(s, open + 3, k);
                match found {
                    Some(cs) => {
                        let ghost r = fence_scan(s@, k + 3, -1, k + 3);
                        let ghost c0 = calls@;
                        let ghost t0 = kept@;
                        let ghost cs0 = cs@;
                        let mut cs = cs;
                        calls.append(&mut cs);
                        push_range(&mut kept, s, seg, open);
                        proof {
                            assert(c0 + (cs0 + r.0) =~= calls@ + r.0);
                            assert(t0 + (s@.subrange(seg as int, open as int) + r.1) =~= kept@ + r.1);
                        }
                        seg = k + 3;
                    },
                    None => {},
                }
                is_open = false;
                k = k + 3;
            }
        } else {
            k = k + 1;
        }
    }
    push_range(&mut kept, s, seg, s.len());
    proof {
        assert(calls@ + Seq::<ToolCall>::empty() =~= calls@);
    }
    (calls, kept)
}

/// The scanner's step over one character of a bracketed region.
fn step_exec(c: char, depth: usize, in_str: bool, esc: bool) -> (r: (usize, bool, bool))
    requires
        depth < usize::MAX,
        depth >= 1,
    ensures
        (r.0 as int, r.1, r.2) == step(c, depth as int, in_str, esc),
{
    if in_str {
        if esc {
            (depth, true, false)
        } else if c == '\\' {
            (depth, true, true)
        } else if c == '"' {
            (depth, false, false)
        } else {
            (depth, true, false)
        }
    } else if c == '"' {
        (depth, true, false)
    } else if c == '[' || c == '{' {
        (depth + 1, false, false)
    } else if c == ']' || c == '}' {
        (depth - 1, false, false)
    } else {
        (depth, false, false)
    }
}

/// Finds the first balanced region that opens with `[`.
fn find_array_region(s: &Vec<char>) -> (r: Option<(usize, usize)>)
    ensures
        match r {
            Some((i, e)) => array_region(s@, 0, -1, 0, false, false) == Some((i as int, e as int))
                && i < e <= s@.len(),
            None => array_region(s@, 0, -1, 0, false, false).is_none(),
        },
{
    let mut k: usize = 0;
    let mut inside = false;
    let mut start: usize = 0;
    let mut depth: usize = 0;
    let mut in_str = false;
    let mut esc = false;
    while k < s.len()
        invariant
            k <= s@.len(),
            inside ==> start < k && 1 <= depth <= k - start,
            !inside ==> depth == 0 && !in_str && !esc,
            array_region(s@, 0, -1, 0, false, false) == array_region(
                s@,
                k as int,
                if inside { start as int } else { -1 },
                depth as int,
                in_str,
                esc,
            ),
        decreases s.len() - k,
    {
        if !inside {
            if s[k] == '[' {
                inside = true;
                start = k;
                depth = 1;
            }
        } else {
            let n = step_exec(s[k], depth, in_str, esc);
            if n.0 == 0 {
                return Some((start, k + 1));
            }
            depth = n.0;
            in_str = n.1;
            esc = n.2;
        }
        k = k + 1;
    }
    None
}

/// Runs the array strategy: the calls of the first balanced `[...]` region.
fn scan_array(s: &Vec<char>) -> (r: Option<(Vec<ToolCall>, Vec<char>)>)
    ensures
        r matches Some((_, rest)) ==> rest@.len() <= s@.len(),
        match r {
            Some((cs, rest)) => array_scan(s@) == Some((cs@, rest@)),
            None => array_scan(s@).is_none(),
        },
{
    match find_array_region(s) {
        Some((i, e)) => match list_calls_in(s, i, e) {
            Some(cs) => if cs.len() > 0 {
                let mut rest: Vec<char> = Vec::new();
                push_range(&mut rest, s, 0, i);
                push_range(&mut rest, s, e, s.len());
                assert(rest@ =~= s@.subrange(0, i as int) + s@.subrange(e as int, s@.len() as int));
                Some((cs, rest))
            } else {
                None
            },
            None => None,
        },
        None => None,
    }
}

/// Runs the object strategy over the whole text.
fn scan_objects(s: &Vec<char>) -> (r: (Vec<ToolCall>, Vec<char>))
    ensures
        (r.0@, r.1@) == object_scan(s@, 0, -1, 0, false, false, 0),
        r.1@.len() <= s@.len(),
{
    let mut calls: Vec<ToolCall> = Vec::new();
    let mut kept: Vec<char> = Vec::new();
    let mut k: usize = 0;
    let mut inside = false;
    let mut start: usize = 0;
    let mut depth: usize = 0;
    let mut in_str = false;
    let mut esc = false;
    let mut seg: usize = 0;
    while k < s.len()
        invariant
            seg <= k <= s@.len(),
            kept@.len() <= seg,
            inside ==> seg <= start < k && 1 <= depth <= k - start,
            !inside ==> depth == 0 && !in_str && !esc,
            object_scan(s@, 0, -1, 0, false, false, 0) == ({
                let o = object_scan(
                    s@,
                    k as int,
                    if inside { start as int } else { -1 },
                    depth as int,
                    in_str,
                    esc,
                    seg as int,
                );
                (calls@ + o.0, kept@ + o.1)
            }),
        decreases s.len() - k,
    {
        if !inside {
            if s[k] == '{' {
                inside = true;
                start = k;
                depth = 1;
            }
        } else {
            let n = step_exec(s[k], depth, in_str, esc);
            if n.0 == 0 {
                match object_call_in(s, start, k + 1) {
                    Some(c) => {
                        let ghost r = object_scan(s@, k + 1, -1, 0, false, false, k + 1);
                        let ghost c0 = calls@;
                        let ghost t0 = kept@;
                        calls.push(c);
                        push_range(&mut kept, s, seg, start);
                        proof {
                            assert(c0 + (seq![c] + r.0) =~= calls@ + r.0);
                            assert(t0 + (s@.subrange(seg as int, start as int) + r.1) =~= kept@
                                + r.1);
                        }
                        seg = k + 1;
                    },
                    None => {},
                }
                inside = false;
                depth = 0;
                in_str = false;
                esc = false;
            } else {
                depth = n.0;
                in_str = n.1;
                esc = n.2;
            }
        }
        k = k + 1;
    }
    push_range(&mut kept, s, seg, s.len());
    proof {
        assert(calls@ + Seq::<ToolCall>::empty() =~= calls@);
    }
    (calls, kept)
}

/// The trimmed text of a list of characters.
fn trimmed_string(s: &Vec<char>) -> (r: String)
    ensures
        r@ == trim(s@),
        r@.len() <= s@.len(),
{
    let (a, b) = trim_bounds(s, 0, s.len());
    assert(s@.subrange(0, s@.len() as int) =~= s@);
    string_of(s, a, b)
}

/// Finds the tool calls in a model's text and returns them with the text that
/// is left once they are cut out. Never fails: text without calls gives no
/// calls and the text itself, trimmed (but for a text that is an empty array
/// of calls, which gives no text).
pub fn extract_tool_calls_from_content(content: &str) -> (r: (Vec<ToolCall>, String))
    ensures
        (r.0@, r.1@) == extract(content@),
        r.0@.len() == 0 ==> r.1@ == trim(content@) || list_calls(trim(content@)) == Some(
            Seq::<ToolCall>::empty(),
        ),
        r.1@.len() <= content@.len(),
{
    let s = chars_of(content);
    let (a, b) = trim_bounds(&s, 0, s.len());
    proof {
        assert(s@.subrange(0, s@.len() as int) =~= content@);
    }
    if a < b && s[a] == '[' && s[b - 1] == ']' {
        match list_calls_in(&s, a, b) {
            Some(cs) => {
                return (cs, String::new());
            },
            None => {},
        }
    }
    if a < b && s[a] == '{' && s[b - 1] == '}' {
        match object_call_in(&s, a, b) {
            Some(c) => {
                let mut v = Vec::new();
                v.push(c);
                assert(v@ =~= seq![c]);
                return (v, String::new());
            },
            None => {},
        }
    }
    let (fc, fr) = scan_fences(&s);
    if fc.len() > 0 {
        return (fc, trimmed_string(&fr));
    }
    match scan_array(&s) {
        Some((cs, rest)) => {
            return (cs, trimmed_string(&rest));
        },
        None => {},
    }
    let (oc, orest) = scan_objects(&s);
    if oc.len() > 0 {
        return (oc, trimmed_string(&orest));
    }
    (Vec::new(), trimmed_string(&s))
}

/// A text that is, once trimmed, a JSON array of tool calls gives back
/// exactly those calls, in order, and no residual text.
pub proof fn lemma_whole_array_round_trip(s: Seq<char>, calls: Seq<ToolCall>)
    requires
        trim(s).len() > 0,
        trim(s)[0] == '[',
        trim(s).last() == ']',
        list_calls(trim(s)) == Some(calls),
    ensures
        extract(s) == (calls, Seq::<char>::empty()),
{
}

/// A text that is, once trimmed, one JSON object describing a tool call
/// gives back that call alone and no residual text.
pub proof fn lemma_whole_object_round_trip(s: Seq<char>, call: ToolCall)
    requires
        trim(s).len() > 0,
        trim(s)[0] == '{',
        trim(s).last() == '}',
        object_call(trim(s)) == Some(call),
    ensures
        extract(s) == (seq![call], Seq::<char>::empty()),
{
}

/// Extraction is total, and a text in which no strategy finds a call comes
/// back whole, trimmed, with no calls.
pub proof fn lemma_no_calls_keeps_text(s: Seq<char>)
    requires
        list_calls(trim(s)).is_none(),
        object_call(trim(s)).is_none(),
        fence_scan(s, 0, -1, 0).0.len() == 0,
        array_scan(s).is_none(),
        object_scan(s, 0, -1, 0, false, false, 0).0.len() == 0,
    ensures
        extract(s) == (Seq::<ToolCall>::empty(), trim(s)),
{
}

} // verus!

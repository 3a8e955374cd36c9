//! The wire form of a workflow definition.
//!
//! A workflow travels as a JSON document.  `to_wire` renders a graph as
//! that document and `from_wire` parses it back; the contract of `to_wire`
//! states the round trip: parsing the rendered document yields a graph
//! with the same nodes, edges, variables and settings, field by field.

use crate::json::{json_eqv, JsonValue};
use crate::schema::{LongRunningConfig, NodeData, NodeType, RetryPolicy, RetryStrategy,
    VariableType, WorkflowDefinition, WorkflowEdge, WorkflowNode, WorkflowSettings,
    WorkflowVariable, WorkflowType};
use crate::text::{push_char, spec_dec, str_eq, usize_to_string};
use vstd::prelude::*;

verus! {

/// The number an all-digit text denotes, smallest digit last.
pub open spec fn spec_parse_dec(s: Seq<char>) -> Option<int>
    decreases s.len(),
{
    if s.len() == 0 {
        Option::None
    } else {
        let d = spec_digit_val(s.last());
        if d < 0 {
            Option::None
        } else if s.len() == 1 {
            Option::Some(d)
        } else {
            match spec_parse_dec(s.drop_last()) {
                Option::Some(h) => Option::Some(h * 10 + d),
                Option::None => Option::None,
            }
        }
    }
}

/// The value of one digit character, negative for a non-digit.
pub open spec fn spec_digit_val(c: char) -> int {
    if c == '0' { 0 }
    else if c == '1' { 1 }
    else if c == '2' { 2 }
    else if c == '3' { 3 }
    else if c == '4' { 4 }
    else if c == '5' { 5 }
    else if c == '6' { 6 }
    else if c == '7' { 7 }
    else if c == '8' { 8 }
    else if c == '9' { 9 }
    else { -1 }
}

/// Rendering a number and parsing it back gives the number again.
pub proof fn lemma_dec_round_trip(n: int)
    requires
        n >= 0,
    ensures
        spec_parse_dec(spec_dec(n)) == Option::Some(n),
    decreases n,
{
    if n < 10 {
        assert(spec_dec(n).len() == 1);
        assert(spec_parse_dec(spec_dec(n)) == Option::Some(spec_digit_val(spec_dec(n)[0])));
    } else {
        lemma_dec_round_trip(n / 10);
        let s = spec_dec(n);
        assert(s == spec_dec(n / 10) + seq![crate::text::spec_digit(n % 10)]);
        assert(s.last() == crate::text::spec_digit(n % 10));
        assert(s.drop_last() =~= spec_dec(n / 10));
        assert(spec_digit_val(crate::text::spec_digit(n % 10)) == n % 10);
    }
}

/// Parses an all-digit text bounded by a cap.
#[verifier::loop_isolation(false)]
fn parse_dec_capped(s: &str, cap: u64) -> (r: Option<u64>)
    ensures
        match r {
            Option::Some(n) => spec_parse_dec(s@) == Option::Some(n as int) && n <= cap,
            Option::None => spec_parse_dec(s@) is None || (spec_parse_dec(s@) matches
                Option::Some(m) && m > cap),
        },
{
    let len = s.unicode_len();
    if len == 0 {
        return Option::None;
    }
    let mut acc: u64 = 0;
    let mut i: usize = 0;
    while i < len
        invariant
            i <= len,
            len == s@.len(),
            acc <= cap,
            i > 0 ==> spec_parse_dec(s@.take(i as int)) == Option::Some(acc as int),
            i == 0 ==> acc == 0,
        decreases len - i,
    {
        let c = s.get_char(i);
        let d: u64 = if c == '0' { 0 }
        else if c == '1' { 1 }
        else if c == '2' { 2 }
        else if c == '3' { 3 }
        else if c == '4' { 4 }
        else if c == '5' { 5 }
        else if c == '6' { 6 }
        else if c == '7' { 7 }
        else if c == '8' { 8 }
        else if c == '9' { 9 }
        else { 10 };
        if d == 10 {
            proof {
                lemma_parse_dec_bad(s@, i as int);
            }
            return Option::None;
        }
        if acc > cap / 10 {
            proof {
                assert(acc * 10 + d > cap) by {
                    assert(cap == (cap / 10) * 10 + cap % 10);
                };
                lemma_parse_dec_grows(s@, i as int, acc as int, d as int);
            }
            return Option::None;
        }
        proof {
            assert(acc * 10 <= cap) by {
                assert(cap == (cap / 10) * 10 + cap % 10);
            };
        }
        let next: u64 = acc * 10;
        if d > cap - next {
            proof {
                lemma_parse_dec_grows(s@, i as int, acc as int, d as int);
            }
            return Option::None;
        }
        acc = next + d;
        proof {
            assert(s@.take(i + 1).drop_last() =~= s@.take(i as int));
            assert(s@.take(i + 1).last() == s@[i as int]);
            assert(spec_digit_val(s@[i as int]) == d as int);
            if i == 0 {
                assert(s@.take(1).len() == 1);
            }
        }
        i = i + 1;
    }
    proof {
        assert(s@.take(len as int) =~= s@);
    }
    Option::Some(acc)
}

proof fn lemma_parse_dec_bad(s: Seq<char>, i: int)
    requires
        0 <= i < s.len(),
        spec_digit_val(s[i]) < 0,
    ensures
        spec_parse_dec(s) is None,
    decreases s.len(),
{
    if s.len() > 0 {
        if i == s.len() - 1 {
        } else {
            lemma_parse_dec_bad(s.drop_last(), i);
        }
    }
}

proof fn lemma_parse_dec_grows(s: Seq<char>, i: int, acc: int, d: int)
    requires
        0 <= i < s.len(),
        i > 0 ==> spec_parse_dec(s.take(i)) == Option::Some(acc),
        i == 0 ==> acc == 0,
        acc >= 0,
        spec_digit_val(s[i]) == d,
        0 <= d <= 9,
    ensures
        spec_parse_dec(s) is Some ==> spec_parse_dec(s)->0 >= acc * 10 + d,
    decreases s.len() - i,
{
    if spec_parse_dec(s) is Some {
        if i == s.len() - 1 {
            assert(s.take(i + 1) =~= s);
            if i > 0 {
                assert(s.drop_last() =~= s.take(i));
            }
        } else {
            assert(s.take(i + 1).drop_last() =~= s.take(i));
            assert(s.take(i + 1).last() == s[i]);
            lemma_parse_dec_some_prefix(s, i + 1);
            lemma_parse_dec_grows_step(s, i + 1, acc * 10 + d);
        }
    }
}

proof fn lemma_parse_dec_some_prefix(s: Seq<char>, b: int)
    requires
        0 < b <= s.len(),
        spec_parse_dec(s) is Some,
    ensures
        spec_parse_dec(s.take(b)) is Some,
    decreases s.len() - b,
{
    if b == s.len() {
        assert(s.take(b) =~= s);
    } else {
        lemma_parse_dec_some_prefix(s, b + 1);
        assert(s.take(b + 1).drop_last() =~= s.take(b));
    }
}

proof fn lemma_parse_dec_grows_step(s: Seq<char>, b: int, low: int)
    requires
        0 < b <= s.len(),
        spec_parse_dec(s) is Some,
        spec_parse_dec(s.take(b)) == Option::Some(low),
        low >= 0,
    ensures
        spec_parse_dec(s)->0 >= low,
    decreases s.len() - b,
{
    if b == s.len() {
        assert(s.take(b) =~= s);
    } else {
        let t = s.take(b + 1);
        assert(t.drop_last() =~= s.take(b));
        assert(t.last() == s[b]);
        lemma_parse_dec_some_prefix(s, b + 1);
        let dv = spec_digit_val(s[b]);
        assert(dv >= 0) by {
            if dv < 0 {
                lemma_parse_dec_bad(s, b);
            }
        }
        assert(spec_parse_dec(t) == Option::Some(low * 10 + dv));
        lemma_parse_dec_grows_step(s, b + 1, low * 10 + dv);
    }
}


/// Whether two optional strings hold the same text.
pub open spec fn opt_str_eqv(a: Option<String>, b: Option<String>) -> bool {
    match (a, b) {
        (Option::None, Option::None) => true,
        (Option::Some(x), Option::Some(y)) => x@ == y@,
        _ => false,
    }
}

/// Whether two optional documents hold the same document.
pub open spec fn opt_value_eqv(a: Option<JsonValue>, b: Option<JsonValue>) -> bool {
    match (a, b) {
        (Option::None, Option::None) => true,
        (Option::Some(x), Option::Some(y)) => json_eqv(x, y),
        _ => false,
    }
}

/// Whether two optional entry lists hold the same keys and documents.
pub open spec fn opt_entries_eqv(
    a: Option<Vec<(String, JsonValue)>>,
    b: Option<Vec<(String, JsonValue)>>,
) -> bool {
    match (a, b) {
        (Option::None, Option::None) => true,
        (Option::Some(x), Option::Some(y)) => x@.len() == y@.len() && (forall|i: int|
            0 <= i < x@.len() ==> (#[trigger] x@[i]).0@ == y@[i].0@ && json_eqv(
                x@[i].1,
                y@[i].1,
            )),
        _ => false,
    }
}

/// Whether two optional string lists hold the same texts.
pub open spec fn opt_strings_eqv(a: Option<Vec<String>>, b: Option<Vec<String>>) -> bool {
    match (a, b) {
        (Option::None, Option::None) => true,
        (Option::Some(x), Option::Some(y)) => x@.len() == y@.len() && (forall|i: int|
            0 <= i < x@.len() ==> (#[trigger] x@[i])@ == y@[i]@),
        _ => false,
    }
}

/// Whether two optional retry policies hold the same policy.
pub open spec fn opt_retry_eqv(a: Option<RetryPolicy>, b: Option<RetryPolicy>) -> bool {
    match (a, b) {
        (Option::None, Option::None) => true,
        (Option::Some(x), Option::Some(y)) => x.strategy == y.strategy && x.max_attempts
            == y.max_attempts && opt_str_eqv(x.initial_interval, y.initial_interval)
            && opt_str_eqv(x.max_interval, y.max_interval) && opt_str_eqv(
            x.backoff_coefficient,
            y.backoff_coefficient,
        ),
        _ => false,
    }
}

/// The optional text a wire value denotes: null or a string.
pub open spec fn spec_dec_opt_str(v: JsonValue) -> Option<Option<String>> {
    match v {
        JsonValue::Null => Option::Some(Option::None),
        JsonValue::Str(x) => Option::Some(Option::Some(x)),
        _ => Option::None,
    }
}

/// The optional truth value a wire value denotes: null or a boolean.
pub open spec fn spec_dec_opt_bool(v: JsonValue) -> Option<Option<bool>> {
    match v {
        JsonValue::Null => Option::Some(Option::None),
        JsonValue::Bool(b) => Option::Some(Option::Some(b)),
        _ => Option::None,
    }
}

/// The optional document a wire value denotes: an empty or one-element
/// array, so that a document that is itself null stays distinguishable.
pub open spec fn spec_dec_opt_value(v: JsonValue) -> Option<Option<JsonValue>> {
    match v {
        JsonValue::Arr(items) => if items@.len() == 0 {
            Option::Some(Option::None)
        } else if items@.len() == 1 {
            Option::Some(Option::Some(items@[0]))
        } else {
            Option::None
        },
        _ => Option::None,
    }
}

/// The optional entry list a wire value denotes: null or an object.
pub open spec fn spec_dec_opt_entries(v: JsonValue) -> Option<Option<Vec<(String, JsonValue)>>> {
    match v {
        JsonValue::Null => Option::Some(Option::None),
        JsonValue::Obj(fields) => Option::Some(Option::Some(fields)),
        _ => Option::None,
    }
}

/// Whether every element of an array is a string.
pub open spec fn spec_all_strings(items: Seq<JsonValue>) -> bool {
    forall|i: int| 0 <= i < items.len() ==> (#[trigger] items[i]) is Str
}

/// Renders an optional text.
fn enc_opt_str(o: &Option<String>) -> (r: JsonValue)
    ensures
        spec_dec_opt_str(r) matches Option::Some(o2) && opt_str_eqv(o2, *o),
{
    match o {
        Option::Some(x) => JsonValue::Str(x.clone()),
        Option::None => JsonValue::Null,
    }
}

/// Parses an optional text.
fn dec_opt_str(v: &JsonValue) -> (r: Option<Option<String>>)
    ensures
        match r {
            Option::Some(o) => spec_dec_opt_str(*v) matches Option::Some(o2) && opt_str_eqv(
                o,
                o2,
            ),
            Option::None => spec_dec_opt_str(*v) is None,
        },
{
    match v {
        JsonValue::Null => Option::Some(Option::None),
        JsonValue::Str(x) => Option::Some(Option::Some(x.clone())),
        _ => Option::None,
    }
}

/// Renders an optional truth value.
fn enc_opt_bool(o: &Option<bool>) -> (r: JsonValue)
    ensures
        spec_dec_opt_bool(r) == Option::Some(*o),
{
    match o {
        Option::Some(b) => JsonValue::Bool(*b),
        Option::None => JsonValue::Null,
    }
}

/// Parses an optional truth value.
fn dec_opt_bool(v: &JsonValue) -> (r: Option<Option<bool>>)
    ensures
        r == spec_dec_opt_bool(*v),
{
    match v {
        JsonValue::Null => Option::Some(Option::None),
        JsonValue::Bool(b) => Option::Some(Option::Some(*b)),
        _ => Option::None,
    }
}

/// Renders an optional document.
fn enc_opt_value(o: &Option<JsonValue>) -> (r: JsonValue)
    ensures
        spec_dec_opt_value(r) matches Option::Some(o2) && opt_value_eqv(*o, o2),
{
    match o {
        Option::Some(x) => {
            let mut items: Vec<JsonValue> = Vec::new();
            let c = x.clone();
            proof {
                crate::json::lemma_json_eqv_symm(c, *x);
            }
            items.push(c);
            let r = JsonValue::Arr(items);
            proof {
                assert(spec_dec_opt_value(r) matches Option::Some(o2) && opt_value_eqv(*o, o2));
            }
            r
        },
        Option::None => JsonValue::Arr(Vec::new()),
    }
}

/// Parses an optional document.
fn dec_opt_value(v: &JsonValue) -> (r: Option<Option<JsonValue>>)
    ensures
        match r {
            Option::Some(o) => spec_dec_opt_value(*v) matches Option::Some(o2) && opt_value_eqv(
                o,
                o2,
            ),
            Option::None => spec_dec_opt_value(*v) is None,
        },
{
    match v {
        JsonValue::Arr(items) => {
            if items.len() == 0 {
                Option::Some(Option::None)
            } else if items.len() == 1 {
                Option::Some(Option::Some(items[0].clone()))
            } else {
                Option::None
            }
        },
        _ => Option::None,
    }
}

/// Renders an optional entry list.
#[verifier::loop_isolation(false)]
fn enc_opt_entries(o: &Option<Vec<(String, JsonValue)>>) -> (r: JsonValue)
    ensures
        spec_dec_opt_entries(r) matches Option::Some(o2) && opt_entries_eqv(*o, o2),
{
    match o {
        Option::Some(entries) => {
            let mut out: Vec<(String, JsonValue)> = Vec::new();
            let mut i: usize = 0;
            while i < entries.len()
                invariant
                    i <= entries@.len(),
                    out@.len() == i,
                    forall|k: int|
                        0 <= k < i ==> (#[trigger] out@[k]).0@ == entries@[k].0@ && json_eqv(
                            entries@[k].1,
                            out@[k].1,
                        ),
                decreases entries@.len() - i,
            {
                let pair = &entries[i];
                let cv = pair.1.clone();
                proof {
                    crate::json::lemma_json_eqv_symm(cv, entries@[i as int].1);
                }
                out.push((pair.0.clone(), cv));
                i = i + 1;
            }
            JsonValue::Obj(out)
        },
        Option::None => JsonValue::Null,
    }
}

/// Parses an optional entry list.
#[verifier::loop_isolation(false)]
fn dec_opt_entries(v: &JsonValue) -> (r: Option<Option<Vec<(String, JsonValue)>>>)
    ensures
        match r {
            Option::Some(o) => spec_dec_opt_entries(*v) matches Option::Some(o2)
                && opt_entries_eqv(o, o2),
            Option::None => spec_dec_opt_entries(*v) is None,
        },
{
    match v {
        JsonValue::Null => Option::Some(Option::None),
        JsonValue::Obj(fields) => {
            let mut out: Vec<(String, JsonValue)> = Vec::new();
            let mut i: usize = 0;
            while i < fields.len()
                invariant
                    i <= fields@.len(),
                    out@.len() == i,
                    forall|k: int|
                        0 <= k < i ==> (#[trigger] out@[k]).0@ == fields@[k].0@ && json_eqv(
                            out@[k].1,
                            fields@[k].1,
                        ),
                decreases fields@.len() - i,
            {
                let pair = &fields[i];
                out.push((pair.0.clone(), pair.1.clone()));
                i = i + 1;
            }
            Option::Some(Option::Some(out))
        },
        _ => Option::None,
    }
}

/// Renders an optional string list.
#[verifier::loop_isolation(false)]
fn enc_opt_strings(o: &Option<Vec<String>>) -> (r: JsonValue)
    ensures
        match *o {
            Option::None => r is Null,
            Option::Some(list) => r is Arr && spec_all_strings(r->Arr_0@) && list@.len()
                == r->Arr_0@.len() && (forall|q: int|
                0 <= q < list@.len() ==> (#[trigger] list@[q])@ == r->Arr_0@[q]->Str_0@),
        },
{
    match o {
        Option::Some(list) => {
            let mut items: Vec<JsonValue> = Vec::new();
            let mut i: usize = 0;
            while i < list.len()
                invariant
                    i <= list@.len(),
                    items@.len() == i,
                    forall|k: int|
                        0 <= k < i ==> (#[trigger] items@[k]) is Str && items@[k]->Str_0@
                            == list@[k]@,
                decreases list@.len() - i,
            {
                items.push(JsonValue::Str(list[i].clone()));
                i = i + 1;
            }
            let r = JsonValue::Arr(items);
            proof {
                assert(spec_all_strings(r->Arr_0@));
            }
            r
        },
        Option::None => JsonValue::Null,
    }
}

/// Parses an optional string list.
#[verifier::loop_isolation(false)]
fn dec_opt_strings(v: &JsonValue) -> (r: Option<Option<Vec<String>>>)
    ensures
        match r {
            Option::Some(o) => match o {
                Option::None => *v is Null,
                Option::Some(x) => *v is Arr && spec_all_strings((*v)->Arr_0@) && x@.len()
                    == (*v)->Arr_0@.len() && (forall|q: int|
                    0 <= q < x@.len() ==> (#[trigger] x@[q])@ == (*v)->Arr_0@[q]->Str_0@),
            },
            Option::None => !(*v is Null || (*v is Arr && spec_all_strings((*v)->Arr_0@))),
        },
{
    match v {
        JsonValue::Null => Option::Some(Option::None),
        JsonValue::Arr(items) => {
            let mut out: Vec<String> = Vec::new();
            let mut i: usize = 0;
            while i < items.len()
                invariant
                    i <= items@.len(),
                    out@.len() == i,
                    forall|k: int|
                        0 <= k < i ==> (#[trigger] items@[k]) is Str && out@[k]@ == items@[
                            k
                        ]->Str_0@,
                decreases items@.len() - i,
            {
                match &items[i] {
                    JsonValue::Str(x) => {
                        out.push(x.clone());
                    },
                    _ => {
                        proof {
                            assert(!((items@[i as int]) is Str));
                            assert((*v)->Arr_0 == *items);
                            assert(!spec_all_strings((*v)->Arr_0@));
                        }
                        return Option::None;
                    },
                }
                i = i + 1;
            }
            proof {
                assert(spec_all_strings(items@));
            }
            Option::Some(Option::Some(out))
        },
        _ => Option::None,
    }
}

/// The wire name of a node_type.
pub open spec fn spec_node_type_name(t: NodeType) -> Seq<char> {
    match t {
        NodeType::Trigger => "trigger"@,
        NodeType::Activity => "activity"@,
        NodeType::Agent => "agent"@,
        NodeType::Conditional => "conditional"@,
        NodeType::Loop => "loop"@,
        NodeType::ChildWorkflow => "child-workflow"@,
        NodeType::Signal => "signal"@,
        NodeType::Phase => "phase"@,
        NodeType::Retry => "retry"@,
        NodeType::StateVariable => "state-variable"@,
        NodeType::ApiEndpoint => "api-endpoint"@,
        NodeType::Condition => "condition"@,
        NodeType::End => "end"@,
        NodeType::DataIn => "data-in"@,
        NodeType::DataOut => "data-out"@,
        NodeType::KongLogging => "kong-logging"@,
        NodeType::KongCache => "kong-cache"@,
        NodeType::KongCors => "kong-cors"@,
        NodeType::GraphqlGateway => "graphql-gateway"@,
        NodeType::McpServer => "mcp-server"@,
    }
}

/// Whether a text is the wire name of some node_type.
pub open spec fn spec_is_node_type_text(s: Seq<char>) -> bool {
    s == "trigger"@ || s == "activity"@ || s == "agent"@ || s == "conditional"@ || s == "loop"@ || s == "child-workflow"@ || s == "signal"@ || s == "phase"@ || s == "retry"@ || s == "state-variable"@ || s == "api-endpoint"@ || s == "condition"@ || s == "end"@ || s == "data-in"@ || s == "data-out"@ || s == "kong-logging"@ || s == "kong-cache"@ || s == "kong-cors"@ || s == "graphql-gateway"@ || s == "mcp-server"@
}

/// Renders a node_type.
fn enc_node_type(t: &NodeType) -> (r: JsonValue)
    ensures
        r is Str && r->Str_0@ == spec_node_type_name(*t),
        spec_is_node_type_text(r->Str_0@),
{
    match t {
        NodeType::Trigger => JsonValue::Str(String::from_str("trigger")),
        NodeType::Activity => JsonValue::Str(String::from_str("activity")),
        NodeType::Agent => JsonValue::Str(String::from_str("agent")),
        NodeType::Conditional => JsonValue::Str(String::from_str("conditional")),
        NodeType::Loop => JsonValue::Str(String::from_str("loop")),
        NodeType::ChildWorkflow => JsonValue::Str(String::from_str("child-workflow")),
        NodeType::Signal => JsonValue::Str(String::from_str("signal")),
        NodeType::Phase => JsonValue::Str(String::from_str("phase")),
        NodeType::Retry => JsonValue::Str(String::from_str("retry")),
        NodeType::StateVariable => JsonValue::Str(String::from_str("state-variable")),
        NodeType::ApiEndpoint => JsonValue::Str(String::from_str("api-endpoint")),
        NodeType::Condition => JsonValue::Str(String::from_str("condition")),
        NodeType::End => JsonValue::Str(String::from_str("end")),
        NodeType::DataIn => JsonValue::Str(String::from_str("data-in")),
        NodeType::DataOut => JsonValue::Str(String::from_str("data-out")),
        NodeType::KongLogging => JsonValue::Str(String::from_str("kong-logging")),
        NodeType::KongCache => JsonValue::Str(String::from_str("kong-cache")),
        NodeType::KongCors => JsonValue::Str(String::from_str("kong-cors")),
        NodeType::GraphqlGateway => JsonValue::Str(String::from_str("graphql-gateway")),
        NodeType::McpServer => JsonValue::Str(String::from_str("mcp-server")),
    }
}

/// Parses a node_type.
fn dec_node_type_text(x: &String) -> (r: Option<NodeType>)
    ensures
        match r {
            Option::Some(t) => x@ == spec_node_type_name(t),
            Option::None => !spec_is_node_type_text(x@),
        },
{
    proof {
        reveal_strlit("trigger");
        reveal_strlit("activity");
        reveal_strlit("agent");
        reveal_strlit("conditional");
        reveal_strlit("loop");
        reveal_strlit("child-workflow");
        reveal_strlit("signal");
        reveal_strlit("phase");
        reveal_strlit("retry");
        reveal_strlit("state-variable");
        reveal_strlit("api-endpoint");
        reveal_strlit("condition");
        reveal_strlit("end");
        reveal_strlit("data-in");
        reveal_strlit("data-out");
        reveal_strlit("kong-logging");
        reveal_strlit("kong-cache");
        reveal_strlit("kong-cors");
        reveal_strlit("graphql-gateway");
        reveal_strlit("mcp-server");
    }
    if str_eq(x.as_str(), "trigger") {
        Option::Some(NodeType::Trigger)
    }
    else if str_eq(x.as_str(), "activity") {
        Option::Some(NodeType::Activity)
    }
    else if str_eq(x.as_str(), "agent") {
        Option::Some(NodeType::Agent)
    }
    else if str_eq(x.as_str(), "conditional") {
        Option::Some(NodeType::Conditional)
    }
    else if str_eq(x.as_str(), "loop") {
        Option::Some(NodeType::Loop)
    }
    else if str_eq(x.as_str(), "child-workflow") {
        Option::Some(NodeType::ChildWorkflow)
    }
    else if str_eq(x.as_str(), "signal") {
        Option::Some(NodeType::Signal)
    }
    else if str_eq(x.as_str(), "phase") {
        Option::Some(NodeType::Phase)
    }
    else if str_eq(x.as_str(), "retry") {
        Option::Some(NodeType::Retry)
    }
    else if str_eq(x.as_str(), "state-variable") {
        Option::Some(NodeType::StateVariable)
    }
    else if str_eq(x.as_str(), "api-endpoint") {
        Option::Some(NodeType::ApiEndpoint)
    }
    else if str_eq(x.as_str(), "condition") {
        Option::Some(NodeType::Condition)
    }
    else if str_eq(x.as_str(), "end") {
        Option::Some(NodeType::End)
    }
    else if str_eq(x.as_str(), "data-in") {
        Option::Some(NodeType::DataIn)
    }
    else if str_eq(x.as_str(), "data-out") {
        Option::Some(NodeType::DataOut)
    }
    else if str_eq(x.as_str(), "kong-logging") {
        Option::Some(NodeType::KongLogging)
    }
    else if str_eq(x.as_str(), "kong-cache") {
        Option::Some(NodeType::KongCache)
    }
    else if str_eq(x.as_str(), "kong-cors") {
        Option::Some(NodeType::KongCors)
    }
    else if str_eq(x.as_str(), "graphql-gateway") {
        Option::Some(NodeType::GraphqlGateway)
    }
    else if str_eq(x.as_str(), "mcp-server") {
        Option::Some(NodeType::McpServer)
    }
    else {
        Option::None
    }
}

/// The wire name of a retry_strategy.
pub open spec fn spec_retry_strategy_name(t: RetryStrategy) -> Seq<char> {
    match t {
        RetryStrategy::KeepTrying => "keep-trying"@,
        RetryStrategy::FailAfterX => "fail-after-x"@,
        RetryStrategy::ExponentialBackoff => "exponential-backoff"@,
        RetryStrategy::NoRetries => "none"@,
    }
}

/// Whether a text is the wire name of some retry_strategy.
pub open spec fn spec_is_retry_strategy_text(s: Seq<char>) -> bool {
    s == "keep-trying"@ || s == "fail-after-x"@ || s == "exponential-backoff"@ || s == "none"@
}

/// Renders a retry_strategy.
fn enc_retry_strategy(t: &RetryStrategy) -> (r: JsonValue)
    ensures
        r is Str && r->Str_0@ == spec_retry_strategy_name(*t),
        spec_is_retry_strategy_text(r->Str_0@),
{
    match t {
        RetryStrategy::KeepTrying => JsonValue::Str(String::from_str("keep-trying")),
        RetryStrategy::FailAfterX => JsonValue::Str(String::from_str("fail-after-x")),
        RetryStrategy::ExponentialBackoff => JsonValue::Str(String::from_str("exponential-backoff")),
        RetryStrategy::NoRetries => JsonValue::Str(String::from_str("none")),
    }
}

/// Parses a retry_strategy.
fn dec_retry_strategy_text(x: &String) -> (r: Option<RetryStrategy>)
    ensures
        match r {
            Option::Some(t) => x@ == spec_retry_strategy_name(t),
            Option::None => !spec_is_retry_strategy_text(x@),
        },
{
    proof {
        reveal_strlit("keep-trying");
        reveal_strlit("fail-after-x");
        reveal_strlit("exponential-backoff");
        reveal_strlit("none");
    }
    if str_eq(x.as_str(), "keep-trying") {
        Option::Some(RetryStrategy::KeepTrying)
    }
    else if str_eq(x.as_str(), "fail-after-x") {
        Option::Some(RetryStrategy::FailAfterX)
    }
    else if str_eq(x.as_str(), "exponential-backoff") {
        Option::Some(RetryStrategy::ExponentialBackoff)
    }
    else if str_eq(x.as_str(), "none") {
        Option::Some(RetryStrategy::NoRetries)
    }
    else {
        Option::None
    }
}

/// The wire name of a wire_variable_type.
pub open spec fn spec_wire_variable_type_name(t: VariableType) -> Seq<char> {
    match t {
        VariableType::String => "string"@,
        VariableType::Number => "number"@,
        VariableType::Boolean => "boolean"@,
        VariableType::Object => "object"@,
        VariableType::Array => "array"@,
        VariableType::Any => "any"@,
    }
}

/// Whether a text is the wire name of some wire_variable_type.
pub open spec fn spec_is_wire_variable_type_text(s: Seq<char>) -> bool {
    s == "string"@ || s == "number"@ || s == "boolean"@ || s == "object"@ || s == "array"@ || s == "any"@
}

/// Renders a wire_variable_type.
fn enc_wire_variable_type(t: &VariableType) -> (r: JsonValue)
    ensures
        r is Str && r->Str_0@ == spec_wire_variable_type_name(*t),
        spec_is_wire_variable_type_text(r->Str_0@),
{
    match t {
        VariableType::String => JsonValue::Str(String::from_str("string")),
        VariableType::Number => JsonValue::Str(String::from_str("number")),
        VariableType::Boolean => JsonValue::Str(String::from_str("boolean")),
        VariableType::Object => JsonValue::Str(String::from_str("object")),
        VariableType::Array => JsonValue::Str(String::from_str("array")),
        VariableType::Any => JsonValue::Str(String::from_str("any")),
    }
}

/// Parses a wire_variable_type.
fn dec_wire_variable_type_text(x: &String) -> (r: Option<VariableType>)
    ensures
        match r {
            Option::Some(t) => x@ == spec_wire_variable_type_name(t),
            Option::None => !spec_is_wire_variable_type_text(x@),
        },
{
    proof {
        reveal_strlit("string");
        reveal_strlit("number");
        reveal_strlit("boolean");
        reveal_strlit("object");
        reveal_strlit("array");
        reveal_strlit("any");
    }
    if str_eq(x.as_str(), "string") {
        Option::Some(VariableType::String)
    }
    else if str_eq(x.as_str(), "number") {
        Option::Some(VariableType::Number)
    }
    else if str_eq(x.as_str(), "boolean") {
        Option::Some(VariableType::Boolean)
    }
    else if str_eq(x.as_str(), "object") {
        Option::Some(VariableType::Object)
    }
    else if str_eq(x.as_str(), "array") {
        Option::Some(VariableType::Array)
    }
    else if str_eq(x.as_str(), "any") {
        Option::Some(VariableType::Any)
    }
    else {
        Option::None
    }
}

/// The wire name of a workflow_type.
pub open spec fn spec_workflow_type_name(t: WorkflowType) -> Seq<char> {
    match t {
        WorkflowType::Task => "task"@,
        WorkflowType::Service => "service"@,
    }
}

/// Whether a text is the wire name of some workflow_type.
pub open spec fn spec_is_workflow_type_text(s: Seq<char>) -> bool {
    s == "task"@ || s == "service"@
}

/// Renders a workflow_type.
fn enc_workflow_type(t: &WorkflowType) -> (r: JsonValue)
    ensures
        r is Str && r->Str_0@ == spec_workflow_type_name(*t),
        spec_is_workflow_type_text(r->Str_0@),
{
    match t {
        WorkflowType::Task => JsonValue::Str(String::from_str("task")),
        WorkflowType::Service => JsonValue::Str(String::from_str("service")),
    }
}

/// Parses a workflow_type.
fn dec_workflow_type_text(x: &String) -> (r: Option<WorkflowType>)
    ensures
        match r {
            Option::Some(t) => x@ == spec_workflow_type_name(t),
            Option::None => !spec_is_workflow_type_text(x@),
        },
{
    proof {
        reveal_strlit("task");
        reveal_strlit("service");
    }
    if str_eq(x.as_str(), "task") {
        Option::Some(WorkflowType::Task)
    }
    else if str_eq(x.as_str(), "service") {
        Option::Some(WorkflowType::Service)
    }
    else {
        Option::None
    }
}

/// Renders an optional workflow type.
fn enc_opt_wtype(o: &Option<WorkflowType>) -> (r: JsonValue)
    ensures
        match *o {
            Option::None => r is Null,
            Option::Some(t) => r is Str && r->Str_0@ == spec_workflow_type_name(t),
        },
{
    match o {
        Option::Some(t) => enc_workflow_type(t),
        Option::None => JsonValue::Null,
    }
}

/// Renders an optional 32-bit number.
fn enc_opt_u32(o: &Option<u32>) -> (r: JsonValue)
    ensures
        match *o {
            Option::None => r is Null,
            Option::Some(n) => r is Num && spec_parse_dec(r->Num_0@) == Option::Some(n as int),
        },
{
    match o {
        Option::Some(n) => enc_u32(*n),
        Option::None => JsonValue::Null,
    }
}

/// Renders a 32-bit number.
fn enc_u32(n: u32) -> (r: JsonValue)
    ensures
        r is Num && spec_parse_dec(r->Num_0@) == Option::Some(n as int),
{
    let s = crate::text::u32_to_string(n);
    proof {
        lemma_dec_round_trip(n as int);
    }
    JsonValue::Num(s)
}

/// Renders a 64-bit number.
fn enc_u64(n: u64) -> (r: JsonValue)
    ensures
        r is Num && spec_parse_dec(r->Num_0@) == Option::Some(n as int),
{
    let s = crate::text::u64_to_string(n);
    proof {
        lemma_dec_round_trip(n as int);
    }
    JsonValue::Num(s)
}

/// Whether a wire value has the shape of a retry policy.
pub open spec fn spec_is_wire_retry(v: JsonValue) -> bool {
    &&& v is Obj
        &&& v->Obj_0@.len() == 5
        &&& v->Obj_0@[0].0@ == "strategy"@
        &&& (v->Obj_0@[0].1 is Str && spec_is_retry_strategy_text(v->Obj_0@[0].1->Str_0@))
        &&& v->Obj_0@[1].0@ == "maxAttempts"@
        &&& (v->Obj_0@[1].1 is Null || (v->Obj_0@[1].1 is Num && (spec_parse_dec(v->Obj_0@[1].1->Num_0@) matches Option::Some(m) && 0 <= m <= 4294967295)))
        &&& v->Obj_0@[2].0@ == "initialInterval"@
        &&& (v->Obj_0@[2].1 is Null || v->Obj_0@[2].1 is Str)
        &&& v->Obj_0@[3].0@ == "maxInterval"@
        &&& (v->Obj_0@[3].1 is Null || v->Obj_0@[3].1 is Str)
        &&& v->Obj_0@[4].0@ == "backoffCoefficient"@
        &&& (v->Obj_0@[4].1 is Null || v->Obj_0@[4].1 is Str)
}

/// Whether a wire value denotes exactly this a retry policy.
pub open spec fn spec_wire_matches_retry(v: JsonValue, x: RetryPolicy) -> bool {
    &&& spec_is_wire_retry(v)
        &&& (v->Obj_0@[0].1 is Str && v->Obj_0@[0].1->Str_0@ == spec_retry_strategy_name(x.strategy))
        &&& (match x.max_attempts { Option::None => v->Obj_0@[1].1 is Null, Option::Some(n) => v->Obj_0@[1].1 is Num && spec_parse_dec(v->Obj_0@[1].1->Num_0@) == Option::Some(n as int) })
        &&& (match x.initial_interval { Option::None => v->Obj_0@[2].1 is Null, Option::Some(y) => v->Obj_0@[2].1 is Str && y@ == v->Obj_0@[2].1->Str_0@ })
        &&& (match x.max_interval { Option::None => v->Obj_0@[3].1 is Null, Option::Some(y) => v->Obj_0@[3].1 is Str && y@ == v->Obj_0@[3].1->Str_0@ })
        &&& (match x.backoff_coefficient { Option::None => v->Obj_0@[4].1 is Null, Option::Some(y) => v->Obj_0@[4].1 is Str && y@ == v->Obj_0@[4].1->Str_0@ })
}

/// Renders a retry policy.
fn enc_retry(x: &RetryPolicy) -> (r: JsonValue)
    ensures
        spec_is_wire_retry(r),
        spec_wire_matches_retry(r, *x),
{
    let mut fields: Vec<(String, JsonValue)> = Vec::new();
    fields.push((String::from_str("strategy"), enc_retry_strategy(&x.strategy)));
    fields.push((String::from_str("maxAttempts"), enc_opt_u32(&x.max_attempts)));
    fields.push((String::from_str("initialInterval"), enc_opt_str(&x.initial_interval)));
    fields.push((String::from_str("maxInterval"), enc_opt_str(&x.max_interval)));
    fields.push((String::from_str("backoffCoefficient"), enc_opt_str(&x.backoff_coefficient)));
    let r = JsonValue::Obj(fields);
    proof {
        assert(r->Obj_0@[0].0@ == "strategy"@);
        assert(r->Obj_0@[1].0@ == "maxAttempts"@);
        assert(r->Obj_0@[2].0@ == "initialInterval"@);
        assert(r->Obj_0@[3].0@ == "maxInterval"@);
        assert(r->Obj_0@[4].0@ == "backoffCoefficient"@);
        assert(spec_is_wire_retry(r));
        assert(spec_wire_matches_retry(r, *x));
    }
    r
}

/// Parses a retry policy.
fn dec_retry(v: &JsonValue) -> (r: Option<RetryPolicy>)
    ensures
        match r {
            Option::Some(x) => spec_wire_matches_retry(*v, x),
            Option::None => !spec_is_wire_retry(*v),
        },
{
    let fields = match v {
        JsonValue::Obj(fs) => fs,
        _ => { return Option::None; },
    };
    if fields.len() != 5 {
        return Option::None;
    }
    if !str_eq(fields[0].0.as_str(), "strategy") {
        return Option::None;
    }
    if !str_eq(fields[1].0.as_str(), "maxAttempts") {
        return Option::None;
    }
    if !str_eq(fields[2].0.as_str(), "initialInterval") {
        return Option::None;
    }
    if !str_eq(fields[3].0.as_str(), "maxInterval") {
        return Option::None;
    }
    if !str_eq(fields[4].0.as_str(), "backoffCoefficient") {
        return Option::None;
    }
    let wf0 = match &fields[0].1 {
                JsonValue::Str(x) => match dec_retry_strategy_text(x) {
                    Option::Some(t) => t,
                    Option::None => { return Option::None; },
                },
                _ => { return Option::None; },
            };
    let wf1 = match &fields[1].1 {
                JsonValue::Null => Option::None,
                JsonValue::Num(x) => match parse_dec_capped(x.as_str(), 4294967295) {
                    Option::Some(m) => Option::Some(m as u32),
                    Option::None => { return Option::None; },
                },
                _ => { return Option::None; },
            };
    let wf2 = match dec_opt_str(&fields[2].1) {
                Option::Some(o) => o,
                Option::None => { return Option::None; },
            };
    let wf3 = match dec_opt_str(&fields[3].1) {
                Option::Some(o) => o,
                Option::None => { return Option::None; },
            };
    let wf4 = match dec_opt_str(&fields[4].1) {
                Option::Some(o) => o,
                Option::None => { return Option::None; },
            };
    let out = RetryPolicy { strategy: wf0, max_attempts: wf1, initial_interval: wf2, max_interval: wf3, backoff_coefficient: wf4 };
    proof {
        assert(spec_wire_matches_retry(*v, out));
    }
    Option::Some(out)
}

/// Whether a wire value has the shape of a long-running configuration.
pub open spec fn spec_is_wire_lr(v: JsonValue) -> bool {
    &&& v is Obj
        &&& v->Obj_0@.len() == 4
        &&& v->Obj_0@[0].0@ == "autoContinueAsNew"@
        &&& v->Obj_0@[0].1 is Bool
        &&& v->Obj_0@[1].0@ == "maxHistoryEvents"@
        &&& (v->Obj_0@[1].1 is Num && (spec_parse_dec(v->Obj_0@[1].1->Num_0@) matches Option::Some(m) && 0 <= m <= 4294967295))
        &&& v->Obj_0@[2].0@ == "maxDurationMs"@
        &&& (v->Obj_0@[2].1 is Num && (spec_parse_dec(v->Obj_0@[2].1->Num_0@) matches Option::Some(m) && 0 <= m <= 18446744073709551615))
        &&& v->Obj_0@[3].0@ == "preserveState"@
        &&& v->Obj_0@[3].1 is Bool
}

/// Whether a wire value denotes exactly this a long-running configuration.
pub open spec fn spec_wire_matches_lr(v: JsonValue, x: LongRunningConfig) -> bool {
    &&& spec_is_wire_lr(v)
        &&& v->Obj_0@[0].1 is Bool && x.auto_continue_as_new == v->Obj_0@[0].1->Bool_0
        &&& (v->Obj_0@[1].1 is Num && spec_parse_dec(v->Obj_0@[1].1->Num_0@) == Option::Some(x.max_history_events as int))
        &&& (v->Obj_0@[2].1 is Num && spec_parse_dec(v->Obj_0@[2].1->Num_0@) == Option::Some(x.max_duration_ms as int))
        &&& v->Obj_0@[3].1 is Bool && x.preserve_state == v->Obj_0@[3].1->Bool_0
}

/// Renders a long-running configuration.
fn enc_lr(x: &LongRunningConfig) -> (r: JsonValue)
    ensures
        spec_is_wire_lr(r),
        spec_wire_matches_lr(r, *x),
{
    let mut fields: Vec<(String, JsonValue)> = Vec::new();
    fields.push((String::from_str("autoContinueAsNew"), JsonValue::Bool(x.auto_continue_as_new)));
    fields.push((String::from_str("maxHistoryEvents"), enc_u32(x.max_history_events)));
    fields.push((String::from_str("maxDurationMs"), enc_u64(x.max_duration_ms)));
    fields.push((String::from_str("preserveState"), JsonValue::Bool(x.preserve_state)));
    let r = JsonValue::Obj(fields);
    proof {
        assert(r->Obj_0@[0].0@ == "autoContinueAsNew"@);
        assert(r->Obj_0@[1].0@ == "maxHistoryEvents"@);
        assert(r->Obj_0@[2].0@ == "maxDurationMs"@);
        assert(r->Obj_0@[3].0@ == "preserveState"@);
        assert(spec_is_wire_lr(r));
        assert(spec_wire_matches_lr(r, *x));
    }
    r
}

/// Parses a long-running configuration.
fn dec_lr(v: &JsonValue) -> (r: Option<LongRunningConfig>)
    ensures
        match r {
            Option::Some(x) => spec_wire_matches_lr(*v, x),
            Option::None => !spec_is_wire_lr(*v),
        },
{
    let fields = match v {
        JsonValue::Obj(fs) => fs,
        _ => { return Option::None; },
    };
    if fields.len() != 4 {
        return Option::None;
    }
    if !str_eq(fields[0].0.as_str(), "autoContinueAsNew") {
        return Option::None;
    }
    if !str_eq(fields[1].0.as_str(), "maxHistoryEvents") {
        return Option::None;
    }
    if !str_eq(fields[2].0.as_str(), "maxDurationMs") {
        return Option::None;
    }
    if !str_eq(fields[3].0.as_str(), "preserveState") {
        return Option::None;
    }
    let wf0 = match &fields[0].1 {
                JsonValue::Bool(bv) => *bv,
                _ => { return Option::None; },
            };
    let wf1 = match &fields[1].1 {
                JsonValue::Num(x) => match parse_dec_capped(x.as_str(), 4294967295) {
                    Option::Some(m) => m as u32,
                    Option::None => { return Option::None; },
                },
                _ => { return Option::None; },
            };
    let wf2 = match &fields[2].1 {
                JsonValue::Num(x) => match parse_dec_capped(x.as_str(), 18446744073709551615) {
                    Option::Some(m) => m,
                    Option::None => { return Option::None; },
                },
                _ => { return Option::None; },
            };
    let wf3 = match &fields[3].1 {
                JsonValue::Bool(bv) => *bv,
                _ => { return Option::None; },
            };
    let out = LongRunningConfig { auto_continue_as_new: wf0, max_history_events: wf1, max_duration_ms: wf2, preserve_state: wf3 };
    proof {
        assert(spec_wire_matches_lr(*v, out));
    }
    Option::Some(out)
}

/// Whether a wire value has the shape of the workflow settings.
pub open spec fn spec_is_wire_settings(v: JsonValue) -> bool {
    &&& v is Obj
        &&& v->Obj_0@.len() == 7
        &&& v->Obj_0@[0].0@ == "timeout"@
        &&& (v->Obj_0@[0].1 is Null || v->Obj_0@[0].1 is Str)
        &&& v->Obj_0@[1].0@ == "retryPolicy"@
        &&& (v->Obj_0@[1].1 is Null || spec_is_wire_retry(v->Obj_0@[1].1))
        &&& v->Obj_0@[2].0@ == "taskQueue"@
        &&& (v->Obj_0@[2].1 is Null || v->Obj_0@[2].1 is Str)
        &&& v->Obj_0@[3].0@ == "description"@
        &&& (v->Obj_0@[3].1 is Null || v->Obj_0@[3].1 is Str)
        &&& v->Obj_0@[4].0@ == "version"@
        &&& (v->Obj_0@[4].1 is Null || v->Obj_0@[4].1 is Str)
        &&& v->Obj_0@[5].0@ == "longRunning"@
        &&& (v->Obj_0@[5].1 is Null || spec_is_wire_lr(v->Obj_0@[5].1))
        &&& v->Obj_0@[6].0@ == "workflowType"@
        &&& (v->Obj_0@[6].1 is Null || (v->Obj_0@[6].1 is Str && spec_is_workflow_type_text(v->Obj_0@[6].1->Str_0@)))
}

/// Whether a wire value denotes exactly this the workflow settings.
pub open spec fn spec_wire_matches_settings(v: JsonValue, x: WorkflowSettings) -> bool {
    &&& spec_is_wire_settings(v)
        &&& (match x.timeout { Option::None => v->Obj_0@[0].1 is Null, Option::Some(y) => v->Obj_0@[0].1 is Str && y@ == v->Obj_0@[0].1->Str_0@ })
        &&& (match x.retry_policy { Option::None => v->Obj_0@[1].1 is Null, Option::Some(x) => spec_wire_matches_retry(v->Obj_0@[1].1, x) })
        &&& (match x.task_queue { Option::None => v->Obj_0@[2].1 is Null, Option::Some(y) => v->Obj_0@[2].1 is Str && y@ == v->Obj_0@[2].1->Str_0@ })
        &&& (match x.description { Option::None => v->Obj_0@[3].1 is Null, Option::Some(y) => v->Obj_0@[3].1 is Str && y@ == v->Obj_0@[3].1->Str_0@ })
        &&& (match x.version { Option::None => v->Obj_0@[4].1 is Null, Option::Some(y) => v->Obj_0@[4].1 is Str && y@ == v->Obj_0@[4].1->Str_0@ })
        &&& (match x.long_running { Option::None => v->Obj_0@[5].1 is Null, Option::Some(x) => spec_wire_matches_lr(v->Obj_0@[5].1, x) })
        &&& (match x.workflow_type { Option::None => v->Obj_0@[6].1 is Null, Option::Some(t) => v->Obj_0@[6].1 is Str && v->Obj_0@[6].1->Str_0@ == spec_workflow_type_name(t) })
}

/// Renders the workflow settings.
fn enc_settings(x: &WorkflowSettings) -> (r: JsonValue)
    ensures
        spec_is_wire_settings(r),
        spec_wire_matches_settings(r, *x),
{
    let mut fields: Vec<(String, JsonValue)> = Vec::new();
    fields.push((String::from_str("timeout"), enc_opt_str(&x.timeout)));
    fields.push((String::from_str("retryPolicy"), match &x.retry_policy {
        Option::Some(x) => enc_retry(x),
        Option::None => JsonValue::Null,
    }));
    fields.push((String::from_str("taskQueue"), enc_opt_str(&x.task_queue)));
    fields.push((String::from_str("description"), enc_opt_str(&x.description)));
    fields.push((String::from_str("version"), enc_opt_str(&x.version)));
    fields.push((String::from_str("longRunning"), match &x.long_running {
        Option::Some(x) => enc_lr(x),
        Option::None => JsonValue::Null,
    }));
    fields.push((String::from_str("workflowType"), enc_opt_wtype(&x.workflow_type)));
    let r = JsonValue::Obj(fields);
    proof {
        assert(r->Obj_0@[0].0@ == "timeout"@);
        assert(r->Obj_0@[1].0@ == "retryPolicy"@);
        assert(r->Obj_0@[2].0@ == "taskQueue"@);
        assert(r->Obj_0@[3].0@ == "description"@);
        assert(r->Obj_0@[4].0@ == "version"@);
        assert(r->Obj_0@[5].0@ == "longRunning"@);
        assert(r->Obj_0@[6].0@ == "workflowType"@);
        assert(spec_is_wire_settings(r));
        assert(spec_wire_matches_settings(r, *x));
    }
    r
}

/// Parses the workflow settings.
fn dec_settings(v: &JsonValue) -> (r: Option<WorkflowSettings>)
    ensures
        match r {
            Option::Some(x) => spec_wire_matches_settings(*v, x),
            Option::None => !spec_is_wire_settings(*v),
        },
{
    let fields = match v {
        JsonValue::Obj(fs) => fs,
        _ => { return Option::None; },
    };
    if fields.len() != 7 {
        return Option::None;
    }
    if !str_eq(fields[0].0.as_str(), "timeout") {
        return Option::None;
    }
    if !str_eq(fields[1].0.as_str(), "retryPolicy") {
        return Option::None;
    }
    if !str_eq(fields[2].0.as_str(), "taskQueue") {
        return Option::None;
    }
    if !str_eq(fields[3].0.as_str(), "description") {
        return Option::None;
    }
    if !str_eq(fields[4].0.as_str(), "version") {
        return Option::None;
    }
    if !str_eq(fields[5].0.as_str(), "longRunning") {
        return Option::None;
    }
    if !str_eq(fields[6].0.as_str(), "workflowType") {
        return Option::None;
    }
    let wf0 = match dec_opt_str(&fields[0].1) {
                Option::Some(o) => o,
                Option::None => { return Option::None; },
            };
    let wf1 = match &fields[1].1 {
                JsonValue::Null => Option::None,
                _ => match dec_retry(&fields[1].1) {
                    Option::Some(x) => Option::Some(x),
                    Option::None => { return Option::None; },
                },
            };
    let wf2 = match dec_opt_str(&fields[2].1) {
                Option::Some(o) => o,
                Option::None => { return Option::None; },
            };
    let wf3 = match dec_opt_str(&fields[3].1) {
                Option::Some(o) => o,
                Option::None => { return Option::None; },
            };
    let wf4 = match dec_opt_str(&fields[4].1) {
                Option::Some(o) => o,
                Option::None => { return Option::None; },
            };
    let wf5 = match &fields[5].1 {
                JsonValue::Null => Option::None,
                _ => match dec_lr(&fields[5].1) {
                    Option::Some(x) => Option::Some(x),
                    Option::None => { return Option::None; },
                },
            };
    let wf6 = match &fields[6].1 {
                JsonValue::Null => Option::None,
                JsonValue::Str(x) => match dec_workflow_type_text(x) {
                    Option::Some(t) => Option::Some(t),
                    Option::None => { return Option::None; },
                },
                _ => { return Option::None; },
            };
    let out = WorkflowSettings { timeout: wf0, retry_policy: wf1, task_queue: wf2, description: wf3, version: wf4, long_running: wf5, workflow_type: wf6 };
    proof {
        assert(spec_wire_matches_settings(*v, out));
    }
    Option::Some(out)
}

/// Whether a wire value has the shape of a declared variable.
pub open spec fn spec_is_wire_variable(v: JsonValue) -> bool {
    &&& v is Obj
        &&& v->Obj_0@.len() == 5
        &&& v->Obj_0@[0].0@ == "name"@
        &&& v->Obj_0@[0].1 is Str
        &&& v->Obj_0@[1].0@ == "type"@
        &&& (v->Obj_0@[1].1 is Str && spec_is_wire_variable_type_text(v->Obj_0@[1].1->Str_0@))
        &&& v->Obj_0@[2].0@ == "initialValue"@
        &&& (v->Obj_0@[2].1 is Arr && v->Obj_0@[2].1->Arr_0@.len() <= 1)
        &&& v->Obj_0@[3].0@ == "description"@
        &&& (v->Obj_0@[3].1 is Null || v->Obj_0@[3].1 is Str)
        &&& v->Obj_0@[4].0@ == "required"@
        &&& v->Obj_0@[4].1 is Bool
}

/// Whether a wire value denotes exactly this a declared variable.
pub open spec fn spec_wire_matches_variable(v: JsonValue, x: WorkflowVariable) -> bool {
    &&& spec_is_wire_variable(v)
        &&& v->Obj_0@[0].1 is Str && x.name@ == v->Obj_0@[0].1->Str_0@
        &&& (v->Obj_0@[1].1 is Str && v->Obj_0@[1].1->Str_0@ == spec_wire_variable_type_name(x.var_type))
        &&& (match x.initial_value { Option::None => v->Obj_0@[2].1 is Arr && v->Obj_0@[2].1->Arr_0@.len() == 0, Option::Some(y) => v->Obj_0@[2].1 is Arr && v->Obj_0@[2].1->Arr_0@.len() == 1 && json_eqv(y, v->Obj_0@[2].1->Arr_0@[0]) })
        &&& (match x.description { Option::None => v->Obj_0@[3].1 is Null, Option::Some(y) => v->Obj_0@[3].1 is Str && y@ == v->Obj_0@[3].1->Str_0@ })
        &&& v->Obj_0@[4].1 is Bool && x.required == v->Obj_0@[4].1->Bool_0
}

/// Renders a declared variable.
fn enc_variable(x: &WorkflowVariable) -> (r: JsonValue)
    ensures
        spec_is_wire_variable(r),
        spec_wire_matches_variable(r, *x),
{
    let mut fields: Vec<(String, JsonValue)> = Vec::new();
    fields.push((String::from_str("name"), JsonValue::Str(x.name.clone())));
    fields.push((String::from_str("type"), enc_wire_variable_type(&x.var_type)));
    fields.push((String::from_str("initialValue"), enc_opt_value(&x.initial_value)));
    fields.push((String::from_str("description"), enc_opt_str(&x.description)));
    fields.push((String::from_str("required"), JsonValue::Bool(x.required)));
    let r = JsonValue::Obj(fields);
    proof {
        assert(r->Obj_0@[0].0@ == "name"@);
        assert(r->Obj_0@[1].0@ == "type"@);
        assert(r->Obj_0@[2].0@ == "initialValue"@);
        assert(r->Obj_0@[3].0@ == "description"@);
        assert(r->Obj_0@[4].0@ == "required"@);
        assert(spec_is_wire_variable(r));
        assert(spec_wire_matches_variable(r, *x));
    }
    r
}

/// Parses a declared variable.
fn dec_variable(v: &JsonValue) -> (r: Option<WorkflowVariable>)
    ensures
        match r {
            Option::Some(x) => spec_wire_matches_variable(*v, x),
            Option::None => !spec_is_wire_variable(*v),
        },
{
    let fields = match v {
        JsonValue::Obj(fs) => fs,
        _ => { return Option::None; },
    };
    if fields.len() != 5 {
        return Option::None;
    }
    if !str_eq(fields[0].0.as_str(), "name") {
        return Option::None;
    }
    if !str_eq(fields[1].0.as_str(), "type") {
        return Option::None;
    }
    if !str_eq(fields[2].0.as_str(), "initialValue") {
        return Option::None;
    }
    if !str_eq(fields[3].0.as_str(), "description") {
        return Option::None;
    }
    if !str_eq(fields[4].0.as_str(), "required") {
        return Option::None;
    }
    let wf0 = match &fields[0].1 {
                JsonValue::Str(x) => x.clone(),
                _ => { return Option::None; },
            };
    let wf1 = match &fields[1].1 {
                JsonValue::Str(x) => match dec_wire_variable_type_text(x) {
                    Option::Some(t) => t,
                    Option::None => { return Option::None; },
                },
                _ => { return Option::None; },
            };
    let wf2 = match dec_opt_value(&fields[2].1) {
                Option::Some(o) => o,
                Option::None => { return Option::None; },
            };
    let wf3 = match dec_opt_str(&fields[3].1) {
                Option::Some(o) => o,
                Option::None => { return Option::None; },
            };
    let wf4 = match &fields[4].1 {
                JsonValue::Bool(bv) => *bv,
                _ => { return Option::None; },
            };
    let out = WorkflowVariable { name: wf0, var_type: wf1, initial_value: wf2, description: wf3, required: wf4 };
    proof {
        assert(spec_wire_matches_variable(*v, out));
    }
    Option::Some(out)
}

/// Whether a wire value has the shape of an edge.
pub open spec fn spec_is_wire_edge(v: JsonValue) -> bool {
    &&& v is Obj
        &&& v->Obj_0@.len() == 7
        &&& v->Obj_0@[0].0@ == "id"@
        &&& v->Obj_0@[0].1 is Str
        &&& v->Obj_0@[1].0@ == "source"@
        &&& v->Obj_0@[1].1 is Str
        &&& v->Obj_0@[2].0@ == "target"@
        &&& v->Obj_0@[2].1 is Str
        &&& v->Obj_0@[3].0@ == "sourceHandle"@
        &&& (v->Obj_0@[3].1 is Null || v->Obj_0@[3].1 is Str)
        &&& v->Obj_0@[4].0@ == "targetHandle"@
        &&& (v->Obj_0@[4].1 is Null || v->Obj_0@[4].1 is Str)
        &&& v->Obj_0@[5].0@ == "label"@
        &&& (v->Obj_0@[5].1 is Null || v->Obj_0@[5].1 is Str)
        &&& v->Obj_0@[6].0@ == "type"@
        &&& (v->Obj_0@[6].1 is Null || v->Obj_0@[6].1 is Str)
}

/// Whether a wire value denotes exactly this an edge.
pub open spec fn spec_wire_matches_edge(v: JsonValue, x: WorkflowEdge) -> bool {
    &&& spec_is_wire_edge(v)
        &&& v->Obj_0@[0].1 is Str && x.id@ == v->Obj_0@[0].1->Str_0@
        &&& v->Obj_0@[1].1 is Str && x.source@ == v->Obj_0@[1].1->Str_0@
        &&& v->Obj_0@[2].1 is Str && x.target@ == v->Obj_0@[2].1->Str_0@
        &&& (match x.source_handle { Option::None => v->Obj_0@[3].1 is Null, Option::Some(y) => v->Obj_0@[3].1 is Str && y@ == v->Obj_0@[3].1->Str_0@ })
        &&& (match x.target_handle { Option::None => v->Obj_0@[4].1 is Null, Option::Some(y) => v->Obj_0@[4].1 is Str && y@ == v->Obj_0@[4].1->Str_0@ })
        &&& (match x.label { Option::None => v->Obj_0@[5].1 is Null, Option::Some(y) => v->Obj_0@[5].1 is Str && y@ == v->Obj_0@[5].1->Str_0@ })
        &&& (match x.edge_type { Option::None => v->Obj_0@[6].1 is Null, Option::Some(y) => v->Obj_0@[6].1 is Str && y@ == v->Obj_0@[6].1->Str_0@ })
}

/// Renders an edge.
fn enc_edge(x: &WorkflowEdge) -> (r: JsonValue)
    ensures
        spec_is_wire_edge(r),
        spec_wire_matches_edge(r, *x),
{
    let mut fields: Vec<(String, JsonValue)> = Vec::new();
    fields.push((String::from_str("id"), JsonValue::Str(x.id.clone())));
    fields.push((String::from_str("source"), JsonValue::Str(x.source.clone())));
    fields.push((String::from_str("target"), JsonValue::Str(x.target.clone())));
    fields.push((String::from_str("sourceHandle"), enc_opt_str(&x.source_handle)));
    fields.push((String::from_str("targetHandle"), enc_opt_str(&x.target_handle)));
    fields.push((String::from_str("label"), enc_opt_str(&x.label)));
    fields.push((String::from_str("type"), enc_opt_str(&x.edge_type)));
    let r = JsonValue::Obj(fields);
    proof {
        assert(r->Obj_0@[0].0@ == "id"@);
        assert(r->Obj_0@[1].0@ == "source"@);
        assert(r->Obj_0@[2].0@ == "target"@);
        assert(r->Obj_0@[3].0@ == "sourceHandle"@);
        assert(r->Obj_0@[4].0@ == "targetHandle"@);
        assert(r->Obj_0@[5].0@ == "label"@);
        assert(r->Obj_0@[6].0@ == "type"@);
        assert(spec_is_wire_edge(r));
        assert(spec_wire_matches_edge(r, *x));
    }
    r
}

/// Parses an edge.
fn dec_edge(v: &JsonValue) -> (r: Option<WorkflowEdge>)
    ensures
        match r {
            Option::Some(x) => spec_wire_matches_edge(*v, x),
            Option::None => !spec_is_wire_edge(*v),
        },
{
    let fields = match v {
        JsonValue::Obj(fs) => fs,
        _ => { return Option::None; },
    };
    if fields.len() != 7 {
        return Option::None;
    }
    if !str_eq(fields[0].0.as_str(), "id") {
        return Option::None;
    }
    if !str_eq(fields[1].0.as_str(), "source") {
        return Option::None;
    }
    if !str_eq(fields[2].0.as_str(), "target") {
        return Option::None;
    }
    if !str_eq(fields[3].0.as_str(), "sourceHandle") {
        return Option::None;
    }
    if !str_eq(fields[4].0.as_str(), "targetHandle") {
        return Option::None;
    }
    if !str_eq(fields[5].0.as_str(), "label") {
        return Option::None;
    }
    if !str_eq(fields[6].0.as_str(), "type") {
        return Option::None;
    }
    let wf0 = match &fields[0].1 {
                JsonValue::Str(x) => x.clone(),
                _ => { return Option::None; },
            };
    let wf1 = match &fields[1].1 {
                JsonValue::Str(x) => x.clone(),
                _ => { return Option::None; },
            };
    let wf2 = match &fields[2].1 {
                JsonValue::Str(x) => x.clone(),
                _ => { return Option::None; },
            };
    let wf3 = match dec_opt_str(&fields[3].1) {
                Option::Some(o) => o,
                Option::None => { return Option::None; },
            };
    let wf4 = match dec_opt_str(&fields[4].1) {
                Option::Some(o) => o,
                Option::None => { return Option::None; },
            };
    let wf5 = match dec_opt_str(&fields[5].1) {
                Option::Some(o) => o,
                Option::None => { return Option::None; },
            };
    let wf6 = match dec_opt_str(&fields[6].1) {
                Option::Some(o) => o,
                Option::None => { return Option::None; },
            };
    let out = WorkflowEdge { id: wf0, source: wf1, target: wf2, source_handle: wf3, target_handle: wf4, label: wf5, edge_type: wf6 };
    proof {
        assert(spec_wire_matches_edge(*v, out));
    }
    Option::Some(out)
}

/// Whether a wire value has the shape of the configuration bag of a node.
pub open spec fn spec_is_wire_data(v: JsonValue) -> bool {
    &&& v is Obj
        &&& v->Obj_0@.len() == 32
        &&& v->Obj_0@[0].0@ == "label"@
        &&& v->Obj_0@[0].1 is Str
        &&& v->Obj_0@[1].0@ == "componentId"@
        &&& (v->Obj_0@[1].1 is Null || v->Obj_0@[1].1 is Str)
        &&& v->Obj_0@[2].0@ == "componentName"@
        &&& (v->Obj_0@[2].1 is Null || v->Obj_0@[2].1 is Str)
        &&& v->Obj_0@[3].0@ == "activityName"@
        &&& (v->Obj_0@[3].1 is Null || v->Obj_0@[3].1 is Str)
        &&& v->Obj_0@[4].0@ == "signalName"@
        &&& (v->Obj_0@[4].1 is Null || v->Obj_0@[4].1 is Str)
        &&& v->Obj_0@[5].0@ == "config"@
        &&& (v->Obj_0@[5].1 is Null || v->Obj_0@[5].1 is Obj)
        &&& v->Obj_0@[6].0@ == "input"@
        &&& (v->Obj_0@[6].1 is Null || v->Obj_0@[6].1 is Obj)
        &&& v->Obj_0@[7].0@ == "timeout"@
        &&& (v->Obj_0@[7].1 is Null || v->Obj_0@[7].1 is Str)
        &&& v->Obj_0@[8].0@ == "retryPolicy"@
        &&& (v->Obj_0@[8].1 is Null || spec_is_wire_retry(v->Obj_0@[8].1))
        &&& v->Obj_0@[9].0@ == "condition"@
        &&& (v->Obj_0@[9].1 is Null || v->Obj_0@[9].1 is Str)
        &&& v->Obj_0@[10].0@ == "workflowId"@
        &&& (v->Obj_0@[10].1 is Null || v->Obj_0@[10].1 is Str)
        &&& v->Obj_0@[11].0@ == "variableName"@
        &&& (v->Obj_0@[11].1 is Null || v->Obj_0@[11].1 is Str)
        &&& v->Obj_0@[12].0@ == "variableType"@
        &&& (v->Obj_0@[12].1 is Null || v->Obj_0@[12].1 is Str)
        &&& v->Obj_0@[13].0@ == "defaultValue"@
        &&& (v->Obj_0@[13].1 is Arr && v->Obj_0@[13].1->Arr_0@.len() <= 1)
        &&& v->Obj_0@[14].0@ == "triggerType"@
        &&& (v->Obj_0@[14].1 is Null || v->Obj_0@[14].1 is Str)
        &&& v->Obj_0@[15].0@ == "schedule"@
        &&& (v->Obj_0@[15].1 is Null || v->Obj_0@[15].1 is Str)
        &&& v->Obj_0@[16].0@ == "resultMapping"@
        &&& (v->Obj_0@[16].1 is Null || v->Obj_0@[16].1 is Str)
        &&& v->Obj_0@[17].0@ == "includeMetadata"@
        &&& (v->Obj_0@[17].1 is Null || v->Obj_0@[17].1 is Bool)
        &&& v->Obj_0@[18].0@ == "logMessage"@
        &&& (v->Obj_0@[18].1 is Null || v->Obj_0@[18].1 is Str)
        &&& v->Obj_0@[19].0@ == "logLevel"@
        &&& (v->Obj_0@[19].1 is Null || v->Obj_0@[19].1 is Str)
        &&& v->Obj_0@[20].0@ == "includeWorkflowContext"@
        &&& (v->Obj_0@[20].1 is Null || v->Obj_0@[20].1 is Bool)
        &&& v->Obj_0@[21].0@ == "variableScope"@
        &&& (v->Obj_0@[21].1 is Null || v->Obj_0@[21].1 is Str)
        &&& v->Obj_0@[22].0@ == "persistence"@
        &&& (v->Obj_0@[22].1 is Null || v->Obj_0@[22].1 is Str)
        &&& v->Obj_0@[23].0@ == "ttl"@
        &&& (v->Obj_0@[23].1 is Null || v->Obj_0@[23].1 is Str)
        &&& v->Obj_0@[24].0@ == "allowedServices"@
        &&& (v->Obj_0@[24].1 is Null || (v->Obj_0@[24].1 is Arr && spec_all_strings(v->Obj_0@[24].1->Arr_0@)))
        &&& v->Obj_0@[25].0@ == "readOnly"@
        &&& (v->Obj_0@[25].1 is Null || v->Obj_0@[25].1 is Bool)
        &&& v->Obj_0@[26].0@ == "throwIfMissing"@
        &&& (v->Obj_0@[26].1 is Null || v->Obj_0@[26].1 is Bool)
        &&& v->Obj_0@[27].0@ == "createIfMissing"@
        &&& (v->Obj_0@[27].1 is Null || v->Obj_0@[27].1 is Bool)
        &&& v->Obj_0@[28].0@ == "merge"@
        &&& (v->Obj_0@[28].1 is Null || v->Obj_0@[28].1 is Bool)
        &&& v->Obj_0@[29].0@ == "valueExpression"@
        &&& (v->Obj_0@[29].1 is Null || v->Obj_0@[29].1 is Str)
        &&& v->Obj_0@[30].0@ == "staticValue"@
        &&& (v->Obj_0@[30].1 is Arr && v->Obj_0@[30].1->Arr_0@.len() <= 1)
        &&& v->Obj_0@[31].0@ == "description"@
        &&& (v->Obj_0@[31].1 is Null || v->Obj_0@[31].1 is Str)
}

/// Whether a wire value denotes exactly this the configuration bag of a node.
pub open spec fn spec_wire_matches_data(v: JsonValue, x: NodeData) -> bool {
    &&& spec_is_wire_data(v)
        &&& v->Obj_0@[0].1 is Str && x.label@ == v->Obj_0@[0].1->Str_0@
        &&& (match x.component_id { Option::None => v->Obj_0@[1].1 is Null, Option::Some(y) => v->Obj_0@[1].1 is Str && y@ == v->Obj_0@[1].1->Str_0@ })
        &&& (match x.component_name { Option::None => v->Obj_0@[2].1 is Null, Option::Some(y) => v->Obj_0@[2].1 is Str && y@ == v->Obj_0@[2].1->Str_0@ })
        &&& (match x.activity_name { Option::None => v->Obj_0@[3].1 is Null, Option::Some(y) => v->Obj_0@[3].1 is Str && y@ == v->Obj_0@[3].1->Str_0@ })
        &&& (match x.signal_name { Option::None => v->Obj_0@[4].1 is Null, Option::Some(y) => v->Obj_0@[4].1 is Str && y@ == v->Obj_0@[4].1->Str_0@ })
        &&& (match x.config { Option::None => v->Obj_0@[5].1 is Null, Option::Some(es) => v->Obj_0@[5].1 is Obj && es@.len() == v->Obj_0@[5].1->Obj_0@.len() && (forall|q: int| 0 <= q < es@.len() ==> (#[trigger] es@[q]).0@ == v->Obj_0@[5].1->Obj_0@[q].0@ && json_eqv(es@[q].1, v->Obj_0@[5].1->Obj_0@[q].1)) })
        &&& (match x.input { Option::None => v->Obj_0@[6].1 is Null, Option::Some(es) => v->Obj_0@[6].1 is Obj && es@.len() == v->Obj_0@[6].1->Obj_0@.len() && (forall|q: int| 0 <= q < es@.len() ==> (#[trigger] es@[q]).0@ == v->Obj_0@[6].1->Obj_0@[q].0@ && json_eqv(es@[q].1, v->Obj_0@[6].1->Obj_0@[q].1)) })
        &&& (match x.timeout { Option::None => v->Obj_0@[7].1 is Null, Option::Some(y) => v->Obj_0@[7].1 is Str && y@ == v->Obj_0@[7].1->Str_0@ })
        &&& (match x.retry_policy { Option::None => v->Obj_0@[8].1 is Null, Option::Some(x) => spec_wire_matches_retry(v->Obj_0@[8].1, x) })
        &&& (match x.condition { Option::None => v->Obj_0@[9].1 is Null, Option::Some(y) => v->Obj_0@[9].1 is Str && y@ == v->Obj_0@[9].1->Str_0@ })
        &&& (match x.workflow_id { Option::None => v->Obj_0@[10].1 is Null, Option::Some(y) => v->Obj_0@[10].1 is Str && y@ == v->Obj_0@[10].1->Str_0@ })
        &&& (match x.variable_name { Option::None => v->Obj_0@[11].1 is Null, Option::Some(y) => v->Obj_0@[11].1 is Str && y@ == v->Obj_0@[11].1->Str_0@ })
        &&& (match x.variable_type { Option::None => v->Obj_0@[12].1 is Null, Option::Some(y) => v->Obj_0@[12].1 is Str && y@ == v->Obj_0@[12].1->Str_0@ })
        &&& (match x.default_value { Option::None => v->Obj_0@[13].1 is Arr && v->Obj_0@[13].1->Arr_0@.len() == 0, Option::Some(y) => v->Obj_0@[13].1 is Arr && v->Obj_0@[13].1->Arr_0@.len() == 1 && json_eqv(y, v->Obj_0@[13].1->Arr_0@[0]) })
        &&& (match x.trigger_type { Option::None => v->Obj_0@[14].1 is Null, Option::Some(y) => v->Obj_0@[14].1 is Str && y@ == v->Obj_0@[14].1->Str_0@ })
        &&& (match x.schedule { Option::None => v->Obj_0@[15].1 is Null, Option::Some(y) => v->Obj_0@[15].1 is Str && y@ == v->Obj_0@[15].1->Str_0@ })
        &&& (match x.result_mapping { Option::None => v->Obj_0@[16].1 is Null, Option::Some(y) => v->Obj_0@[16].1 is Str && y@ == v->Obj_0@[16].1->Str_0@ })
        &&& (match x.include_metadata { Option::None => v->Obj_0@[17].1 is Null, Option::Some(y) => v->Obj_0@[17].1 is Bool && y == v->Obj_0@[17].1->Bool_0 })
        &&& (match x.log_message { Option::None => v->Obj_0@[18].1 is Null, Option::Some(y) => v->Obj_0@[18].1 is Str && y@ == v->Obj_0@[18].1->Str_0@ })
        &&& (match x.log_level { Option::None => v->Obj_0@[19].1 is Null, Option::Some(y) => v->Obj_0@[19].1 is Str && y@ == v->Obj_0@[19].1->Str_0@ })
        &&& (match x.include_workflow_context { Option::None => v->Obj_0@[20].1 is Null, Option::Some(y) => v->Obj_0@[20].1 is Bool && y == v->Obj_0@[20].1->Bool_0 })
        &&& (match x.variable_scope { Option::None => v->Obj_0@[21].1 is Null, Option::Some(y) => v->Obj_0@[21].1 is Str && y@ == v->Obj_0@[21].1->Str_0@ })
        &&& (match x.persistence { Option::None => v->Obj_0@[22].1 is Null, Option::Some(y) => v->Obj_0@[22].1 is Str && y@ == v->Obj_0@[22].1->Str_0@ })
        &&& (match x.ttl { Option::None => v->Obj_0@[23].1 is Null, Option::Some(y) => v->Obj_0@[23].1 is Str && y@ == v->Obj_0@[23].1->Str_0@ })
        &&& (match x.allowed_services { Option::None => v->Obj_0@[24].1 is Null, Option::Some(list) => v->Obj_0@[24].1 is Arr && spec_all_strings(v->Obj_0@[24].1->Arr_0@) && list@.len() == v->Obj_0@[24].1->Arr_0@.len() && (forall|q: int| 0 <= q < list@.len() ==> (#[trigger] list@[q])@ == v->Obj_0@[24].1->Arr_0@[q]->Str_0@) })
        &&& (match x.read_only { Option::None => v->Obj_0@[25].1 is Null, Option::Some(y) => v->Obj_0@[25].1 is Bool && y == v->Obj_0@[25].1->Bool_0 })
        &&& (match x.throw_if_missing { Option::None => v->Obj_0@[26].1 is Null, Option::Some(y) => v->Obj_0@[26].1 is Bool && y == v->Obj_0@[26].1->Bool_0 })
        &&& (match x.create_if_missing { Option::None => v->Obj_0@[27].1 is Null, Option::Some(y) => v->Obj_0@[27].1 is Bool && y == v->Obj_0@[27].1->Bool_0 })
        &&& (match x.merge { Option::None => v->Obj_0@[28].1 is Null, Option::Some(y) => v->Obj_0@[28].1 is Bool && y == v->Obj_0@[28].1->Bool_0 })
        &&& (match x.value_expression { Option::None => v->Obj_0@[29].1 is Null, Option::Some(y) => v->Obj_0@[29].1 is Str && y@ == v->Obj_0@[29].1->Str_0@ })
        &&& (match x.static_value { Option::None => v->Obj_0@[30].1 is Arr && v->Obj_0@[30].1->Arr_0@.len() == 0, Option::Some(y) => v->Obj_0@[30].1 is Arr && v->Obj_0@[30].1->Arr_0@.len() == 1 && json_eqv(y, v->Obj_0@[30].1->Arr_0@[0]) })
        &&& (match x.description { Option::None => v->Obj_0@[31].1 is Null, Option::Some(y) => v->Obj_0@[31].1 is Str && y@ == v->Obj_0@[31].1->Str_0@ })
}

/// Renders the configuration bag of a node.
#[verifier::rlimit(100)]
#[verifier::spinoff_prover]
fn enc_data(x: &NodeData) -> (r: JsonValue)
    ensures
        spec_is_wire_data(r),
        spec_wire_matches_data(r, *x),
{
    let mut fields: Vec<(String, JsonValue)> = Vec::new();
    fields.push((String::from_str("label"), JsonValue::Str(x.label.clone())));
    fields.push((String::from_str("componentId"), enc_opt_str(&x.component_id)));
    fields.push((String::from_str("componentName"), enc_opt_str(&x.component_name)));
    fields.push((String::from_str("activityName"), enc_opt_str(&x.activity_name)));
    fields.push((String::from_str("signalName"), enc_opt_str(&x.signal_name)));
    fields.push((String::from_str("config"), enc_opt_entries(&x.config)));
    fields.push((String::from_str("input"), enc_opt_entries(&x.input)));
    fields.push((String::from_str("timeout"), enc_opt_str(&x.timeout)));
    fields.push((String::from_str("retryPolicy"), match &x.retry_policy {
        Option::Some(x) => enc_retry(x),
        Option::None => JsonValue::Null,
    }));
    fields.push((String::from_str("condition"), enc_opt_str(&x.condition)));
    fields.push((String::from_str("workflowId"), enc_opt_str(&x.workflow_id)));
    fields.push((String::from_str("variableName"), enc_opt_str(&x.variable_name)));
    fields.push((String::from_str("variableType"), enc_opt_str(&x.variable_type)));
    fields.push((String::from_str("defaultValue"), enc_opt_value(&x.default_value)));
    fields.push((String::from_str("triggerType"), enc_opt_str(&x.trigger_type)));
    fields.push((String::from_str("schedule"), enc_opt_str(&x.schedule)));
    fields.push((String::from_str("resultMapping"), enc_opt_str(&x.result_mapping)));
    fields.push((String::from_str("includeMetadata"), enc_opt_bool(&x.include_metadata)));
    fields.push((String::from_str("logMessage"), enc_opt_str(&x.log_message)));
    fields.push((String::from_str("logLevel"), enc_opt_str(&x.log_level)));
    fields.push((String::from_str("includeWorkflowContext"), enc_opt_bool(&x.include_workflow_context)));
    fields.push((String::from_str("variableScope"), enc_opt_str(&x.variable_scope)));
    fields.push((String::from_str("persistence"), enc_opt_str(&x.persistence)));
    fields.push((String::from_str("ttl"), enc_opt_str(&x.ttl)));
    fields.push((String::from_str("allowedServices"), enc_opt_strings(&x.allowed_services)));
    fields.push((String::from_str("readOnly"), enc_opt_bool(&x.read_only)));
    fields.push((String::from_str("throwIfMissing"), enc_opt_bool(&x.throw_if_missing)));
    fields.push((String::from_str("createIfMissing"), enc_opt_bool(&x.create_if_missing)));
    fields.push((String::from_str("merge"), enc_opt_bool(&x.merge)));
    fields.push((String::from_str("valueExpression"), enc_opt_str(&x.value_expression)));
    fields.push((String::from_str("staticValue"), enc_opt_value(&x.static_value)));
    fields.push((String::from_str("description"), enc_opt_str(&x.description)));
    let r = JsonValue::Obj(fields);
    proof {
        assert(r->Obj_0@[0].0@ == "label"@);
        assert(r->Obj_0@[1].0@ == "componentId"@);
        assert(r->Obj_0@[2].0@ == "componentName"@);
        assert(r->Obj_0@[3].0@ == "activityName"@);
        assert(r->Obj_0@[4].0@ == "signalName"@);
        assert(r->Obj_0@[5].0@ == "config"@);
        assert(r->Obj_0@[6].0@ == "input"@);
        assert(r->Obj_0@[7].0@ == "timeout"@);
        assert(r->Obj_0@[8].0@ == "retryPolicy"@);
        assert(r->Obj_0@[9].0@ == "condition"@);
        assert(r->Obj_0@[10].0@ == "workflowId"@);
        assert(r->Obj_0@[11].0@ == "variableName"@);
        assert(r->Obj_0@[12].0@ == "variableType"@);
        assert(r->Obj_0@[13].0@ == "defaultValue"@);
        assert(r->Obj_0@[14].0@ == "triggerType"@);
        assert(r->Obj_0@[15].0@ == "schedule"@);
        assert(r->Obj_0@[16].0@ == "resultMapping"@);
        assert(r->Obj_0@[17].0@ == "includeMetadata"@);
        assert(r->Obj_0@[18].0@ == "logMessage"@);
        assert(r->Obj_0@[19].0@ == "logLevel"@);
        assert(r->Obj_0@[20].0@ == "includeWorkflowContext"@);
        assert(r->Obj_0@[21].0@ == "variableScope"@);
        assert(r->Obj_0@[22].0@ == "persistence"@);
        assert(r->Obj_0@[23].0@ == "ttl"@);
        assert(r->Obj_0@[24].0@ == "allowedServices"@);
        assert(r->Obj_0@[25].0@ == "readOnly"@);
        assert(r->Obj_0@[26].0@ == "throwIfMissing"@);
        assert(r->Obj_0@[27].0@ == "createIfMissing"@);
        assert(r->Obj_0@[28].0@ == "merge"@);
        assert(r->Obj_0@[29].0@ == "valueExpression"@);
        assert(r->Obj_0@[30].0@ == "staticValue"@);
        assert(r->Obj_0@[31].0@ == "description"@);
        assert(spec_is_wire_data(r));
        assert(r->Obj_0@[0].1 is Str && x.label@ == r->Obj_0@[0].1->Str_0@);
        assert((match x.component_id { Option::None => r->Obj_0@[1].1 is Null, Option::Some(y) => r->Obj_0@[1].1 is Str && y@ == r->Obj_0@[1].1->Str_0@ }));
        assert((match x.component_name { Option::None => r->Obj_0@[2].1 is Null, Option::Some(y) => r->Obj_0@[2].1 is Str && y@ == r->Obj_0@[2].1->Str_0@ }));
        assert((match x.activity_name { Option::None => r->Obj_0@[3].1 is Null, Option::Some(y) => r->Obj_0@[3].1 is Str && y@ == r->Obj_0@[3].1->Str_0@ }));
        assert((match x.signal_name { Option::None => r->Obj_0@[4].1 is Null, Option::Some(y) => r->Obj_0@[4].1 is Str && y@ == r->Obj_0@[4].1->Str_0@ }));
        assert((match x.config { Option::None => r->Obj_0@[5].1 is Null, Option::Some(es) => r->Obj_0@[5].1 is Obj && es@.len() == r->Obj_0@[5].1->Obj_0@.len() && (forall|q: int| 0 <= q < es@.len() ==> (#[trigger] es@[q]).0@ == r->Obj_0@[5].1->Obj_0@[q].0@ && json_eqv(es@[q].1, r->Obj_0@[5].1->Obj_0@[q].1)) }));
        assert((match x.input { Option::None => r->Obj_0@[6].1 is Null, Option::Some(es) => r->Obj_0@[6].1 is Obj && es@.len() == r->Obj_0@[6].1->Obj_0@.len() && (forall|q: int| 0 <= q < es@.len() ==> (#[trigger] es@[q]).0@ == r->Obj_0@[6].1->Obj_0@[q].0@ && json_eqv(es@[q].1, r->Obj_0@[6].1->Obj_0@[q].1)) }));
        assert((match x.timeout { Option::None => r->Obj_0@[7].1 is Null, Option::Some(y) => r->Obj_0@[7].1 is Str && y@ == r->Obj_0@[7].1->Str_0@ }));
        assert((match x.retry_policy { Option::None => r->Obj_0@[8].1 is Null, Option::Some(x) => spec_wire_matches_retry(r->Obj_0@[8].1, x) }));
        assert((match x.condition { Option::None => r->Obj_0@[9].1 is Null, Option::Some(y) => r->Obj_0@[9].1 is Str && y@ == r->Obj_0@[9].1->Str_0@ }));
        assert((match x.workflow_id { Option::None => r->Obj_0@[10].1 is Null, Option::Some(y) => r->Obj_0@[10].1 is Str && y@ == r->Obj_0@[10].1->Str_0@ }));
        assert((match x.variable_name { Option::None => r->Obj_0@[11].1 is Null, Option::Some(y) => r->Obj_0@[11].1 is Str && y@ == r->Obj_0@[11].1->Str_0@ }));
        assert((match x.variable_type { Option::None => r->Obj_0@[12].1 is Null, Option::Some(y) => r->Obj_0@[12].1 is Str && y@ == r->Obj_0@[12].1->Str_0@ }));
        assert((match x.default_value { Option::None => r->Obj_0@[13].1 is Arr && r->Obj_0@[13].1->Arr_0@.len() == 0, Option::Some(y) => r->Obj_0@[13].1 is Arr && r->Obj_0@[13].1->Arr_0@.len() == 1 && json_eqv(y, r->Obj_0@[13].1->Arr_0@[0]) }));
        assert((match x.trigger_type { Option::None => r->Obj_0@[14].1 is Null, Option::Some(y) => r->Obj_0@[14].1 is Str && y@ == r->Obj_0@[14].1->Str_0@ }));
        assert((match x.schedule { Option::None => r->Obj_0@[15].1 is Null, Option::Some(y) => r->Obj_0@[15].1 is Str && y@ == r->Obj_0@[15].1->Str_0@ }));
        assert((match x.result_mapping { Option::None => r->Obj_0@[16].1 is Null, Option::Some(y) => r->Obj_0@[16].1 is Str && y@ == r->Obj_0@[16].1->Str_0@ }));
        assert((match x.include_metadata { Option::None => r->Obj_0@[17].1 is Null, Option::Some(y) => r->Obj_0@[17].1 is Bool && y == r->Obj_0@[17].1->Bool_0 }));
        assert((match x.log_message { Option::None => r->Obj_0@[18].1 is Null, Option::Some(y) => r->Obj_0@[18].1 is Str && y@ == r->Obj_0@[18].1->Str_0@ }));
        assert((match x.log_level { Option::None => r->Obj_0@[19].1 is Null, Option::Some(y) => r->Obj_0@[19].1 is Str && y@ == r->Obj_0@[19].1->Str_0@ }));
        assert((match x.include_workflow_context { Option::None => r->Obj_0@[20].1 is Null, Option::Some(y) => r->Obj_0@[20].1 is Bool && y == r->Obj_0@[20].1->Bool_0 }));
        assert((match x.variable_scope { Option::None => r->Obj_0@[21].1 is Null, Option::Some(y) => r->Obj_0@[21].1 is Str && y@ == r->Obj_0@[21].1->Str_0@ }));
        assert((match x.persistence { Option::None => r->Obj_0@[22].1 is Null, Option::Some(y) => r->Obj_0@[22].1 is Str && y@ == r->Obj_0@[22].1->Str_0@ }));
        assert((match x.ttl { Option::None => r->Obj_0@[23].1 is Null, Option::Some(y) => r->Obj_0@[23].1 is Str && y@ == r->Obj_0@[23].1->Str_0@ }));
        assert((match x.allowed_services { Option::None => r->Obj_0@[24].1 is Null, Option::Some(list) => r->Obj_0@[24].1 is Arr && spec_all_strings(r->Obj_0@[24].1->Arr_0@) && list@.len() == r->Obj_0@[24].1->Arr_0@.len() && (forall|q: int| 0 <= q < list@.len() ==> (#[trigger] list@[q])@ == r->Obj_0@[24].1->Arr_0@[q]->Str_0@) }));
        assert((match x.read_only { Option::None => r->Obj_0@[25].1 is Null, Option::Some(y) => r->Obj_0@[25].1 is Bool && y == r->Obj_0@[25].1->Bool_0 }));
        assert((match x.throw_if_missing { Option::None => r->Obj_0@[26].1 is Null, Option::Some(y) => r->Obj_0@[26].1 is Bool && y == r->Obj_0@[26].1->Bool_0 }));
        assert((match x.create_if_missing { Option::None => r->Obj_0@[27].1 is Null, Option::Some(y) => r->Obj_0@[27].1 is Bool && y == r->Obj_0@[27].1->Bool_0 }));
        assert((match x.merge { Option::None => r->Obj_0@[28].1 is Null, Option::Some(y) => r->Obj_0@[28].1 is Bool && y == r->Obj_0@[28].1->Bool_0 }));
        assert((match x.value_expression { Option::None => r->Obj_0@[29].1 is Null, Option::Some(y) => r->Obj_0@[29].1 is Str && y@ == r->Obj_0@[29].1->Str_0@ }));
        assert((match x.static_value { Option::None => r->Obj_0@[30].1 is Arr && r->Obj_0@[30].1->Arr_0@.len() == 0, Option::Some(y) => r->Obj_0@[30].1 is Arr && r->Obj_0@[30].1->Arr_0@.len() == 1 && json_eqv(y, r->Obj_0@[30].1->Arr_0@[0]) }));
        assert((match x.description { Option::None => r->Obj_0@[31].1 is Null, Option::Some(y) => r->Obj_0@[31].1 is Str && y@ == r->Obj_0@[31].1->Str_0@ }));
        assert(spec_wire_matches_data(r, *x));
    }
    r
}

/// Parses the configuration bag of a node.
#[verifier::rlimit(100)]
#[verifier::spinoff_prover]
fn dec_data(v: &JsonValue) -> (r: Option<NodeData>)
    ensures
        match r {
            Option::Some(x) => spec_wire_matches_data(*v, x),
            Option::None => !spec_is_wire_data(*v),
        },
{
    let fields = match v {
        JsonValue::Obj(fs) => fs,
        _ => { return Option::None; },
    };
    if fields.len() != 32 {
        return Option::None;
    }
    if !str_eq(fields[0].0.as_str(), "label") {
        return Option::None;
    }
    if !str_eq(fields[1].0.as_str(), "componentId") {
        return Option::None;
    }
    if !str_eq(fields[2].0.as_str(), "componentName") {
        return Option::None;
    }
    if !str_eq(fields[3].0.as_str(), "activityName") {
        return Option::None;
    }
    if !str_eq(fields[4].0.as_str(), "signalName") {
        return Option::None;
    }
    if !str_eq(fields[5].0.as_str(), "config") {
        return Option::None;
    }
    if !str_eq(fields[6].0.as_str(), "input") {
        return Option::None;
    }
    if !str_eq(fields[7].0.as_str(), "timeout") {
        return Option::None;
    }
    if !str_eq(fields[8].0.as_str(), "retryPolicy") {
        return Option::None;
    }
    if !str_eq(fields[9].0.as_str(), "condition") {
        return Option::None;
    }
    if !str_eq(fields[10].0.as_str(), "workflowId") {
        return Option::None;
    }
    if !str_eq(fields[11].0.as_str(), "variableName") {
        return Option::None;
    }
    if !str_eq(fields[12].0.as_str(), "variableType") {
        return Option::None;
    }
    if !str_eq(fields[13].0.as_str(), "defaultValue") {
        return Option::None;
    }
    if !str_eq(fields[14].0.as_str(), "triggerType") {
        return Option::None;
    }
    if !str_eq(fields[15].0.as_str(), "schedule") {
        return Option::None;
    }
    if !str_eq(fields[16].0.as_str(), "resultMapping") {
        return Option::None;
    }
    if !str_eq(fields[17].0.as_str(), "includeMetadata") {
        return Option::None;
    }
    if !str_eq(fields[18].0.as_str(), "logMessage") {
        return Option::None;
    }
    if !str_eq(fields[19].0.as_str(), "logLevel") {
        return Option::None;
    }
    if !str_eq(fields[20].0.as_str(), "includeWorkflowContext") {
        return Option::None;
    }
    if !str_eq(fields[21].0.as_str(), "variableScope") {
        return Option::None;
    }
    if !str_eq(fields[22].0.as_str(), "persistence") {
        return Option::None;
    }
    if !str_eq(fields[23].0.as_str(), "ttl") {
        return Option::None;
    }
    if !str_eq(fields[24].0.as_str(), "allowedServices") {
        return Option::None;
    }
    if !str_eq(fields[25].0.as_str(), "readOnly") {
        return Option::None;
    }
    if !str_eq(fields[26].0.as_str(), "throwIfMissing") {
        return Option::None;
    }
    if !str_eq(fields[27].0.as_str(), "createIfMissing") {
        return Option::None;
    }
    if !str_eq(fields[28].0.as_str(), "merge") {
        return Option::None;
    }
    if !str_eq(fields[29].0.as_str(), "valueExpression") {
        return Option::None;
    }
    if !str_eq(fields[30].0.as_str(), "staticValue") {
        return Option::None;
    }
    if !str_eq(fields[31].0.as_str(), "description") {
        return Option::None;
    }
    let wf0 = match &fields[0].1 {
                JsonValue::Str(x) => x.clone(),
                _ => { return Option::None; },
            };
    let wf1 = match dec_opt_str(&fields[1].1) {
                Option::Some(o) => o,
                Option::None => { return Option::None; },
            };
    let wf2 = match dec_opt_str(&fields[2].1) {
                Option::Some(o) => o,
                Option::None => { return Option::None; },
            };
    let wf3 = match dec_opt_str(&fields[3].1) {
                Option::Some(o) => o,
                Option::None => { return Option::None; },
            };
    let wf4 = match dec_opt_str(&fields[4].1) {
                Option::Some(o) => o,
                Option::None => { return Option::None; },
            };
    let wf5 = match dec_opt_entries(&fields[5].1) {
                Option::Some(o) => o,
                Option::None => { return Option::None; },
            };
    let wf6 = match dec_opt_entries(&fields[6].1) {
                Option::Some(o) => o,
                Option::None => { return Option::None; },
            };
    let wf7 = match dec_opt_str(&fields[7].1) {
                Option::Some(o) => o,
                Option::None => { return Option::None; },
            };
    let wf8 = match &fields[8].1 {
                JsonValue::Null => Option::None,
                _ => match dec_retry(&fields[8].1) {
                    Option::Some(x) => Option::Some(x),
                    Option::None => { return Option::None; },
                },
            };
    let wf9 = match dec_opt_str(&fields[9].1) {
                Option::Some(o) => o,
                Option::None => { return Option::None; },
            };
    let wf10 = match dec_opt_str(&fields[10].1) {
                Option::Some(o) => o,
                Option::None => { return Option::None; },
            };
    let wf11 = match dec_opt_str(&fields[11].1) {
                Option::Some(o) => o,
                Option::None => { return Option::None; },
            };
    let wf12 = match dec_opt_str(&fields[12].1) {
                Option::Some(o) => o,
                Option::None => { return Option::None; },
            };
    let wf13 = match dec_opt_value(&fields[13].1) {
                Option::Some(o) => o,
                Option::None => { return Option::None; },
            };
    let wf14 = match dec_opt_str(&fields[14].1) {
                Option::Some(o) => o,
                Option::None => { return Option::None; },
            };
    let wf15 = match dec_opt_str(&fields[15].1) {
                Option::Some(o) => o,
                Option::None => { return Option::None; },
            };
    let wf16 = match dec_opt_str(&fields[16].1) {
                Option::Some(o) => o,
                Option::None => { return Option::None; },
            };
    let wf17 = match dec_opt_bool(&fields[17].1) {
                Option::Some(o) => o,
                Option::None => { return Option::None; },
            };
    let wf18 = match dec_opt_str(&fields[18].1) {
                Option::Some(o) => o,
                Option::None => { return Option::None; },
            };
    let wf19 = match dec_opt_str(&fields[19].1) {
                Option::Some(o) => o,
                Option::None => { return Option::None; },
            };
    let wf20 = match dec_opt_bool(&fields[20].1) {
                Option::Some(o) => o,
                Option::None => { return Option::None; },
            };
    let wf21 = match dec_opt_str(&fields[21].1) {
                Option::Some(o) => o,
                Option::None => { return Option::None; },
            };
    let wf22 = match dec_opt_str(&fields[22].1) {
                Option::Some(o) => o,
                Option::None => { return Option::None; },
            };
    let wf23 = match dec_opt_str(&fields[23].1) {
                Option::Some(o) => o,
                Option::None => { return Option::None; },
            };
    let wf24 = match dec_opt_strings(&fields[24].1) {
                Option::Some(o) => o,
                Option::None => { return Option::None; },
            };
    let wf25 = match dec_opt_bool(&fields[25].1) {
                Option::Some(o) => o,
                Option::None => { return Option::None; },
            };
    let wf26 = match dec_opt_bool(&fields[26].1) {
                Option::Some(o) => o,
                Option::None => { return Option::None; },
            };
    let wf27 = match dec_opt_bool(&fields[27].1) {
                Option::Some(o) => o,
                Option::None => { return Option::None; },
            };
    let wf28 = match dec_opt_bool(&fields[28].1) {
                Option::Some(o) => o,
                Option::None => { return Option::None; },
            };
    let wf29 = match dec_opt_str(&fields[29].1) {
                Option::Some(o) => o,
                Option::None => { return Option::None; },
            };
    let wf30 = match dec_opt_value(&fields[30].1) {
                Option::Some(o) => o,
                Option::None => { return Option::None; },
            };
    let wf31 = match dec_opt_str(&fields[31].1) {
                Option::Some(o) => o,
                Option::None => { return Option::None; },
            };
    let out = NodeData { label: wf0, component_id: wf1, component_name: wf2, activity_name: wf3, signal_name: wf4, config: wf5, input: wf6, timeout: wf7, retry_policy: wf8, condition: wf9, workflow_id: wf10, variable_name: wf11, variable_type: wf12, default_value: wf13, trigger_type: wf14, schedule: wf15, result_mapping: wf16, include_metadata: wf17, log_message: wf18, log_level: wf19, include_workflow_context: wf20, variable_scope: wf21, persistence: wf22, ttl: wf23, allowed_services: wf24, read_only: wf25, throw_if_missing: wf26, create_if_missing: wf27, merge: wf28, value_expression: wf29, static_value: wf30, description: wf31 };
    proof {
        assert(spec_wire_matches_data(*v, out));
    }
    Option::Some(out)
}

/// Whether a wire value has the shape of a node.
pub open spec fn spec_is_wire_node(v: JsonValue) -> bool {
    &&& v is Obj
        &&& v->Obj_0@.len() == 3
        &&& v->Obj_0@[0].0@ == "id"@
        &&& v->Obj_0@[0].1 is Str
        &&& v->Obj_0@[1].0@ == "type"@
        &&& (v->Obj_0@[1].1 is Str && spec_is_node_type_text(v->Obj_0@[1].1->Str_0@))
        &&& v->Obj_0@[2].0@ == "data"@
        &&& spec_is_wire_data(v->Obj_0@[2].1)
}

/// Whether a wire value denotes exactly this a node.
pub open spec fn spec_wire_matches_node(v: JsonValue, x: WorkflowNode) -> bool {
    &&& spec_is_wire_node(v)
        &&& v->Obj_0@[0].1 is Str && x.id@ == v->Obj_0@[0].1->Str_0@
        &&& (v->Obj_0@[1].1 is Str && v->Obj_0@[1].1->Str_0@ == spec_node_type_name(x.node_type))
        &&& spec_wire_matches_data(v->Obj_0@[2].1, x.data)
}

/// Renders a node.
fn enc_node(x: &WorkflowNode) -> (r: JsonValue)
    ensures
        spec_is_wire_node(r),
        spec_wire_matches_node(r, *x),
{
    let mut fields: Vec<(String, JsonValue)> = Vec::new();
    fields.push((String::from_str("id"), JsonValue::Str(x.id.clone())));
    fields.push((String::from_str("type"), enc_node_type(&x.node_type)));
    fields.push((String::from_str("data"), enc_data(&x.data)));
    let r = JsonValue::Obj(fields);
    proof {
        assert(r->Obj_0@[0].0@ == "id"@);
        assert(r->Obj_0@[1].0@ == "type"@);
        assert(r->Obj_0@[2].0@ == "data"@);
        assert(spec_is_wire_node(r));
        assert(spec_wire_matches_node(r, *x));
    }
    r
}

/// Parses a node.
fn dec_node(v: &JsonValue) -> (r: Option<WorkflowNode>)
    ensures
        match r {
            Option::Some(x) => spec_wire_matches_node(*v, x),
            Option::None => !spec_is_wire_node(*v),
        },
{
    let fields = match v {
        JsonValue::Obj(fs) => fs,
        _ => { return Option::None; },
    };
    if fields.len() != 3 {
        return Option::None;
    }
    if !str_eq(fields[0].0.as_str(), "id") {
        return Option::None;
    }
    if !str_eq(fields[1].0.as_str(), "type") {
        return Option::None;
    }
    if !str_eq(fields[2].0.as_str(), "data") {
        return Option::None;
    }
    let wf0 = match &fields[0].1 {
                JsonValue::Str(x) => x.clone(),
                _ => { return Option::None; },
            };
    let wf1 = match &fields[1].1 {
                JsonValue::Str(x) => match dec_node_type_text(x) {
                    Option::Some(t) => t,
                    Option::None => { return Option::None; },
                },
                _ => { return Option::None; },
            };
    let wf2 = match dec_data(&fields[2].1) {
                Option::Some(x) => x,
                Option::None => { return Option::None; },
            };
    let out = WorkflowNode { id: wf0, node_type: wf1, data: wf2 };
    proof {
        assert(spec_wire_matches_node(*v, out));
    }
    Option::Some(out)
}

/// Whether a wire value is an array of node shapes.
pub open spec fn spec_is_wire_node_arr(v: JsonValue) -> bool {
    v is Arr && (forall|i: int|
        0 <= i < v->Arr_0@.len() ==> spec_is_wire_node(#[trigger] v->Arr_0@[i]))
}

/// Whether a wire value denotes exactly this list of nodes.
pub open spec fn spec_wire_matches_node_arr(v: JsonValue, xs: Seq<WorkflowNode>) -> bool {
    &&& spec_is_wire_node_arr(v)
    &&& xs.len() == v->Arr_0@.len()
    &&& forall|i: int| 0 <= i < xs.len() ==> spec_wire_matches_node(v->Arr_0@[i], #[trigger] xs[i])
}

/// Renders a list of nodes.
#[verifier::loop_isolation(false)]
fn enc_node_arr(xs: &Vec<WorkflowNode>) -> (r: JsonValue)
    ensures
        spec_is_wire_node_arr(r),
        spec_wire_matches_node_arr(r, xs@),
{
    let mut items: Vec<JsonValue> = Vec::new();
    let mut i: usize = 0;
    while i < xs.len()
        invariant
            i <= xs@.len(),
            items@.len() == i,
            forall|k: int|
                0 <= k < i ==> spec_is_wire_node(#[trigger] items@[k]) && spec_wire_matches_node(
                    items@[k],
                    xs@[k],
                ),
        decreases xs@.len() - i,
    {
        let e = enc_node(&xs[i]);
        items.push(e);
        i = i + 1;
    }
    JsonValue::Arr(items)
}

/// Parses a list of nodes.
#[verifier::loop_isolation(false)]
fn dec_node_arr(v: &JsonValue) -> (r: Option<Vec<WorkflowNode>>)
    ensures
        match r {
            Option::Some(xs) => spec_wire_matches_node_arr(*v, xs@),
            Option::None => !spec_is_wire_node_arr(*v),
        },
{
    let items = match v {
        JsonValue::Arr(xs) => xs,
        _ => { return Option::None; },
    };
    let mut out: Vec<WorkflowNode> = Vec::new();
    let mut i: usize = 0;
    while i < items.len()
        invariant
            i <= items@.len(),
            out@.len() == i,
            (*v)->Arr_0 == *items,
            forall|k: int|
                0 <= k < i ==> spec_wire_matches_node(items@[k], (#[trigger] out@[k])),
        decreases items@.len() - i,
    {
        match dec_node(&items[i]) {
            Option::Some(x) => {
                out.push(x);
            },
            Option::None => {
                proof {
                    assert(!spec_is_wire_node(#[trigger] (*v)->Arr_0@[i as int]));
                }
                return Option::None;
            },
        }
        i = i + 1;
    }
    proof {
        assert forall|k: int|
            0 <= k < (*v)->Arr_0@.len() implies spec_is_wire_node(
            #[trigger] (*v)->Arr_0@[k],
        ) by {
            assert(spec_wire_matches_node((*v)->Arr_0@[k], out@[k]));
        }
    }
    Option::Some(out)
}

/// Whether a wire value is an array of edge shapes.
pub open spec fn spec_is_wire_edge_arr(v: JsonValue) -> bool {
    v is Arr && (forall|i: int|
        0 <= i < v->Arr_0@.len() ==> spec_is_wire_edge(#[trigger] v->Arr_0@[i]))
}

/// Whether a wire value denotes exactly this list of edges.
pub open spec fn spec_wire_matches_edge_arr(v: JsonValue, xs: Seq<WorkflowEdge>) -> bool {
    &&& spec_is_wire_edge_arr(v)
    &&& xs.len() == v->Arr_0@.len()
    &&& forall|i: int| 0 <= i < xs.len() ==> spec_wire_matches_edge(v->Arr_0@[i], #[trigger] xs[i])
}

/// Renders a list of edges.
#[verifier::loop_isolation(false)]
fn enc_edge_arr(xs: &Vec<WorkflowEdge>) -> (r: JsonValue)
    ensures
        spec_is_wire_edge_arr(r),
        spec_wire_matches_edge_arr(r, xs@),
{
    let mut items: Vec<JsonValue> = Vec::new();
    let mut i: usize = 0;
    while i < xs.len()
        invariant
            i <= xs@.len(),
            items@.len() == i,
            forall|k: int|
                0 <= k < i ==> spec_is_wire_edge(#[trigger] items@[k]) && spec_wire_matches_edge(
                    items@[k],
                    xs@[k],
                ),
        decreases xs@.len() - i,
    {
        let e = enc_edge(&xs[i]);
        items.push(e);
        i = i + 1;
    }
    JsonValue::Arr(items)
}

/// Parses a list of edges.
#[verifier::loop_isolation(false)]
fn dec_edge_arr(v: &JsonValue) -> (r: Option<Vec<WorkflowEdge>>)
    ensures
        match r {
            Option::Some(xs) => spec_wire_matches_edge_arr(*v, xs@),
            Option::None => !spec_is_wire_edge_arr(*v),
        },
{
    let items = match v {
        JsonValue::Arr(xs) => xs,
        _ => { return Option::None; },
    };
    let mut out: Vec<WorkflowEdge> = Vec::new();
    let mut i: usize = 0;
    while i < items.len()
        invariant
            i <= items@.len(),
            out@.len() == i,
            (*v)->Arr_0 == *items,
            forall|k: int|
                0 <= k < i ==> spec_wire_matches_edge(items@[k], (#[trigger] out@[k])),
        decreases items@.len() - i,
    {
        match dec_edge(&items[i]) {
            Option::Some(x) => {
                out.push(x);
            },
            Option::None => {
                proof {
                    assert(!spec_is_wire_edge(#[trigger] (*v)->Arr_0@[i as int]));
                }
                return Option::None;
            },
        }
        i = i + 1;
    }
    proof {
        assert forall|k: int|
            0 <= k < (*v)->Arr_0@.len() implies spec_is_wire_edge(
            #[trigger] (*v)->Arr_0@[k],
        ) by {
            assert(spec_wire_matches_edge((*v)->Arr_0@[k], out@[k]));
        }
    }
    Option::Some(out)
}

/// Whether a wire value is an array of variable shapes.
pub open spec fn spec_is_wire_variable_arr(v: JsonValue) -> bool {
    v is Arr && (forall|i: int|
        0 <= i < v->Arr_0@.len() ==> spec_is_wire_variable(#[trigger] v->Arr_0@[i]))
}

/// Whether a wire value denotes exactly this list of variables.
pub open spec fn spec_wire_matches_variable_arr(v: JsonValue, xs: Seq<WorkflowVariable>) -> bool {
    &&& spec_is_wire_variable_arr(v)
    &&& xs.len() == v->Arr_0@.len()
    &&& forall|i: int| 0 <= i < xs.len() ==> spec_wire_matches_variable(v->Arr_0@[i], #[trigger] xs[i])
}

/// Renders a list of variables.
#[verifier::loop_isolation(false)]
fn enc_variable_arr(xs: &Vec<WorkflowVariable>) -> (r: JsonValue)
    ensures
        spec_is_wire_variable_arr(r),
        spec_wire_matches_variable_arr(r, xs@),
{
    let mut items: Vec<JsonValue> = Vec::new();
    let mut i: usize = 0;
    while i < xs.len()
        invariant
            i <= xs@.len(),
            items@.len() == i,
            forall|k: int|
                0 <= k < i ==> spec_is_wire_variable(#[trigger] items@[k]) && spec_wire_matches_variable(
                    items@[k],
                    xs@[k],
                ),
        decreases xs@.len() - i,
    {
        let e = enc_variable(&xs[i]);
        items.push(e);
        i = i + 1;
    }
    JsonValue::Arr(items)
}

/// Parses a list of variables.
#[verifier::loop_isolation(false)]
fn dec_variable_arr(v: &JsonValue) -> (r: Option<Vec<WorkflowVariable>>)
    ensures
        match r {
            Option::Some(xs) => spec_wire_matches_variable_arr(*v, xs@),
            Option::None => !spec_is_wire_variable_arr(*v),
        },
{
    let items = match v {
        JsonValue::Arr(xs) => xs,
        _ => { return Option::None; },
    };
    let mut out: Vec<WorkflowVariable> = Vec::new();
    let mut i: usize = 0;
    while i < items.len()
        invariant
            i <= items@.len(),
            out@.len() == i,
            (*v)->Arr_0 == *items,
            forall|k: int|
                0 <= k < i ==> spec_wire_matches_variable(items@[k], (#[trigger] out@[k])),
        decreases items@.len() - i,
    {
        match dec_variable(&items[i]) {
            Option::Some(x) => {
                out.push(x);
            },
            Option::None => {
                proof {
                    assert(!spec_is_wire_variable(#[trigger] (*v)->Arr_0@[i as int]));
                }
                return Option::None;
            },
        }
        i = i + 1;
    }
    proof {
        assert forall|k: int|
            0 <= k < (*v)->Arr_0@.len() implies spec_is_wire_variable(
            #[trigger] (*v)->Arr_0@[k],
        ) by {
            assert(spec_wire_matches_variable((*v)->Arr_0@[k], out@[k]));
        }
    }
    Option::Some(out)
}

/// Whether a wire value has the shape of a whole workflow definition.
pub open spec fn spec_is_wire_graph(v: JsonValue) -> bool {
    &&& v is Obj
        &&& v->Obj_0@.len() == 6
        &&& v->Obj_0@[0].0@ == "id"@
        &&& v->Obj_0@[0].1 is Str
        &&& v->Obj_0@[1].0@ == "name"@
        &&& v->Obj_0@[1].1 is Str
        &&& v->Obj_0@[2].0@ == "nodes"@
        &&& spec_is_wire_node_arr(v->Obj_0@[2].1)
        &&& v->Obj_0@[3].0@ == "edges"@
        &&& spec_is_wire_edge_arr(v->Obj_0@[3].1)
        &&& v->Obj_0@[4].0@ == "variables"@
        &&& spec_is_wire_variable_arr(v->Obj_0@[4].1)
        &&& v->Obj_0@[5].0@ == "settings"@
        &&& spec_is_wire_settings(v->Obj_0@[5].1)
}

/// Whether a wire value denotes exactly this a whole workflow definition.
pub open spec fn spec_wire_matches_graph(v: JsonValue, x: WorkflowDefinition) -> bool {
    &&& spec_is_wire_graph(v)
        &&& v->Obj_0@[0].1 is Str && x.id@ == v->Obj_0@[0].1->Str_0@
        &&& v->Obj_0@[1].1 is Str && x.name@ == v->Obj_0@[1].1->Str_0@
        &&& spec_wire_matches_node_arr(v->Obj_0@[2].1, x.nodes@)
        &&& spec_wire_matches_edge_arr(v->Obj_0@[3].1, x.edges@)
        &&& spec_wire_matches_variable_arr(v->Obj_0@[4].1, x.variables@)
        &&& spec_wire_matches_settings(v->Obj_0@[5].1, x.settings)
}

/// Renders a whole workflow definition.
fn enc_graph(x: &WorkflowDefinition) -> (r: JsonValue)
    ensures
        spec_is_wire_graph(r),
        spec_wire_matches_graph(r, *x),
{
    let mut fields: Vec<(String, JsonValue)> = Vec::new();
    fields.push((String::from_str("id"), JsonValue::Str(x.id.clone())));
    fields.push((String::from_str("name"), JsonValue::Str(x.name.clone())));
    fields.push((String::from_str("nodes"), enc_node_arr(&x.nodes)));
    fields.push((String::from_str("edges"), enc_edge_arr(&x.edges)));
    fields.push((String::from_str("variables"), enc_variable_arr(&x.variables)));
    fields.push((String::from_str("settings"), enc_settings(&x.settings)));
    let r = JsonValue::Obj(fields);
    proof {
        assert(r->Obj_0@[0].0@ == "id"@);
        assert(r->Obj_0@[1].0@ == "name"@);
        assert(r->Obj_0@[2].0@ == "nodes"@);
        assert(r->Obj_0@[3].0@ == "edges"@);
        assert(r->Obj_0@[4].0@ == "variables"@);
        assert(r->Obj_0@[5].0@ == "settings"@);
        assert(spec_is_wire_graph(r));
        assert(spec_wire_matches_graph(r, *x));
    }
    r
}

/// Parses a whole workflow definition.
fn dec_graph(v: &JsonValue) -> (r: Option<WorkflowDefinition>)
    ensures
        match r {
            Option::Some(x) => spec_wire_matches_graph(*v, x),
            Option::None => !spec_is_wire_graph(*v),
        },
{
    let fields = match v {
        JsonValue::Obj(fs) => fs,
        _ => { return Option::None; },
    };
    if fields.len() != 6 {
        return Option::None;
    }
    if !str_eq(fields[0].0.as_str(), "id") {
        return Option::None;
    }
    if !str_eq(fields[1].0.as_str(), "name") {
        return Option::None;
    }
    if !str_eq(fields[2].0.as_str(), "nodes") {
        return Option::None;
    }
    if !str_eq(fields[3].0.as_str(), "edges") {
        return Option::None;
    }
    if !str_eq(fields[4].0.as_str(), "variables") {
        return Option::None;
    }
    if !str_eq(fields[5].0.as_str(), "settings") {
        return Option::None;
    }
    let wf0 = match &fields[0].1 {
                JsonValue::Str(x) => x.clone(),
                _ => { return Option::None; },
            };
    let wf1 = match &fields[1].1 {
                JsonValue::Str(x) => x.clone(),
                _ => { return Option::None; },
            };
    let wf2 = match dec_node_arr(&fields[2].1) {
                Option::Some(x) => x,
                Option::None => { return Option::None; },
            };
    let wf3 = match dec_edge_arr(&fields[3].1) {
                Option::Some(x) => x,
                Option::None => { return Option::None; },
            };
    let wf4 = match dec_variable_arr(&fields[4].1) {
                Option::Some(x) => x,
                Option::None => { return Option::None; },
            };
    let wf5 = match dec_settings(&fields[5].1) {
                Option::Some(x) => x,
                Option::None => { return Option::None; },
            };
    let out = WorkflowDefinition { id: wf0, name: wf1, nodes: wf2, edges: wf3, variables: wf4, settings: wf5 };
    proof {
        assert(spec_wire_matches_graph(*v, out));
    }
    Option::Some(out)
}

/// Renders a workflow definition as its wire document.  Parsing the
/// rendered document back yields this graph again, field by field: that is
/// the stated round trip.
pub fn to_wire(g: &WorkflowDefinition) -> (r: JsonValue)
    ensures
        spec_is_wire_graph(r),
        spec_wire_matches_graph(r, *g),
{
    enc_graph(g)
}

/// Parses a wire document back into a workflow definition.  Succeeds
/// exactly on documents with the wire shape; the result then denotes the
/// same graph as the document.
pub fn from_wire(v: &JsonValue) -> (r: Option<WorkflowDefinition>)
    ensures
        match r {
            Option::Some(g) => spec_wire_matches_graph(*v, g),
            Option::None => !spec_is_wire_graph(*v),
        },
{
    dec_graph(v)
}

} // verus!

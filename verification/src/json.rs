//! A JSON document tree.
//!
//! Node configuration bags, default values for variables and the wire form of
//! a workflow all carry loosely-typed JSON data.  The library holds such data
//! in its own tree type: numbers keep their literal text, so no precision is
//! lost and no floating point enters the library.

use crate::text::push_char;
use vstd::prelude::*;

verus! {

/// A JSON value.  An object keeps its fields in declaration order.
#[derive(Debug, PartialEq, Eq)]
pub enum JsonValue {
    Null,
    Bool(bool),
    /// A number, kept as its literal text (`"42"`, `"2.5"`).
    Num(String),
    Str(String),
    Arr(Vec<JsonValue>),
    Obj(Vec<(String, JsonValue)>),
}

/// Whether two JSON values hold the same document: the same shape with the
/// same texts, field names and field order.
pub open spec fn json_eqv(a: JsonValue, b: JsonValue) -> bool
    decreases a,
{
    match (a, b) {
        (JsonValue::Null, JsonValue::Null) => true,
        (JsonValue::Bool(x), JsonValue::Bool(y)) => x == y,
        (JsonValue::Num(x), JsonValue::Num(y)) => x@ == y@,
        (JsonValue::Str(x), JsonValue::Str(y)) => x@ == y@,
        (JsonValue::Arr(x), JsonValue::Arr(y)) => x@.len() == y@.len() && (forall|i: int|
            0 <= i < x@.len() ==> json_eqv(x@[i], #[trigger] y@[i])),
        (JsonValue::Obj(x), JsonValue::Obj(y)) => x@.len() == y@.len() && (forall|i: int|
            0 <= i < x@.len() ==> x@[i].0@ == (#[trigger] y@[i]).0@ && json_eqv(x@[i].1, y@[i].1)),
        _ => false,
    }
}

/// Document equivalence is symmetric.
pub proof fn lemma_json_eqv_symm(a: JsonValue, b: JsonValue)
    requires
        json_eqv(a, b),
    ensures
        json_eqv(b, a),
    decreases a,
{
    match (a, b) {
        (JsonValue::Arr(x), JsonValue::Arr(y)) => {
            assert forall|i: int| 0 <= i < y@.len() implies json_eqv(y@[i], #[trigger] x@[i]) by {
                assert(json_eqv(x@[i], y@[i]));
                lemma_json_eqv_symm(x@[i], y@[i]);
            }
        },
        (JsonValue::Obj(x), JsonValue::Obj(y)) => {
            assert forall|i: int|
                0 <= i < y@.len() implies y@[i].0@ == (#[trigger] x@[i]).0@ && json_eqv(
                y@[i].1,
                x@[i].1,
            ) by {
                assert(x@[i].0@ == y@[i].0@ && json_eqv(x@[i].1, y@[i].1));
                lemma_json_eqv_symm(x@[i].1, y@[i].1);
            }
        },
        _ => {},
    }
}

/// Document equivalence is transitive.
pub proof fn lemma_json_eqv_trans(a: JsonValue, b: JsonValue, c: JsonValue)
    requires
        json_eqv(a, b),
        json_eqv(b, c),
    ensures
        json_eqv(a, c),
    decreases a,
{
    match (a, b, c) {
        (JsonValue::Arr(x), JsonValue::Arr(y), JsonValue::Arr(z)) => {
            assert forall|i: int| 0 <= i < x@.len() implies json_eqv(x@[i], #[trigger] z@[i]) by {
                assert(json_eqv(x@[i], y@[i]));
                assert(json_eqv(y@[i], z@[i]));
                lemma_json_eqv_trans(x@[i], y@[i], z@[i]);
            }
        },
        (JsonValue::Obj(x), JsonValue::Obj(y), JsonValue::Obj(z)) => {
            assert forall|i: int|
                0 <= i < x@.len() implies x@[i].0@ == (#[trigger] z@[i]).0@ && json_eqv(
                x@[i].1,
                z@[i].1,
            ) by {
                assert(x@[i].0@ == y@[i].0@ && json_eqv(x@[i].1, y@[i].1));
                assert(y@[i].0@ == z@[i].0@ && json_eqv(y@[i].1, z@[i].1));
                lemma_json_eqv_trans(x@[i].1, y@[i].1, z@[i].1);
            }
        },
        _ => {},
    }
}

/// Equivalent JSON values render to the same text.
pub proof fn lemma_json_text_eqv(a: JsonValue, b: JsonValue)
    requires
        json_eqv(a, b),
    ensures
        spec_json_text(a) == spec_json_text(b),
    decreases a,
{
    match (a, b) {
        (JsonValue::Arr(x), JsonValue::Arr(y)) => {
            lemma_json_items_eqv(x@, y@);
        },
        (JsonValue::Obj(x), JsonValue::Obj(y)) => {
            lemma_json_fields_eqv(x@, y@);
        },
        _ => {},
    }
}

proof fn lemma_json_items_eqv(x: Seq<JsonValue>, y: Seq<JsonValue>)
    requires
        x.len() == y.len(),
        forall|i: int| 0 <= i < x.len() ==> json_eqv(x[i], #[trigger] y[i]),
    ensures
        spec_json_items(x) == spec_json_items(y),
    decreases x,
{
    if x.len() == 1 {
        lemma_json_text_eqv(x[0], y[0]);
    } else if x.len() > 1 {
        lemma_json_items_eqv(x.drop_last(), y.drop_last());
        lemma_json_text_eqv(x.last(), y.last());
    }
}

proof fn lemma_json_fields_eqv(x: Seq<(String, JsonValue)>, y: Seq<(String, JsonValue)>)
    requires
        x.len() == y.len(),
        forall|i: int| 0 <= i < x.len() ==> x[i].0@ == (#[trigger] y[i]).0@ && json_eqv(x[i].1, y[i].1),
    ensures
        spec_json_fields(x) == spec_json_fields(y),
    decreases x,
{
    if x.len() == 1 {
        assert(x[0].0@ == y[0].0@ && json_eqv(x[0].1, y[0].1));
        lemma_json_text_eqv(x[0].1, y[0].1);
        assert(spec_json_field(x[0]) == spec_json_field(y[0]));
    } else if x.len() > 1 {
        lemma_json_fields_eqv(x.drop_last(), y.drop_last());
        assert(x[x.len() - 1].0@ == y[x.len() - 1].0@ && json_eqv(x[x.len() - 1].1, y[x.len() - 1].1));
        lemma_json_text_eqv(x.last().1, y.last().1);
        assert(spec_json_field(x.last()) == spec_json_field(y.last()));
    }
}

/// The escape sequence that `json_text` emits for one character of a string.
pub open spec fn spec_escape_char(c: char) -> Seq<char> {
    if c == '"' {
        seq!['\\', '"']
    } else if c == '\\' {
        seq!['\\', '\\']
    } else if c == '\n' {
        seq!['\\', 'n']
    } else if c == '\r' {
        seq!['\\', 'r']
    } else if c == '\t' {
        seq!['\\', 't']
    } else {
        seq![c]
    }
}

/// The body of a JSON string literal: every character escaped.
pub open spec fn spec_escape(s: Seq<char>) -> Seq<char>
    decreases s.len(),
{
    if s.len() == 0 {
        Seq::empty()
    } else {
        spec_escape_char(s[0]) + spec_escape(s.skip(1))
    }
}

/// The text that `json_text` produces for a value.
pub open spec fn spec_json_text(v: JsonValue) -> Seq<char>
    decreases v,
{
    match v {
        JsonValue::Null => "null"@,
        JsonValue::Bool(b) => if b {
            "true"@
        } else {
            "false"@
        },
        JsonValue::Num(n) => n@,
        JsonValue::Str(s) => seq!['"'] + spec_escape(s@) + seq!['"'],
        JsonValue::Arr(items) => seq!['['] + spec_json_items(items@) + seq![']'],
        JsonValue::Obj(fields) => seq!['{'] + spec_json_fields(fields@) + seq!['}'],
    }
}

/// The comma-separated texts of an array's elements.
pub open spec fn spec_json_items(items: Seq<JsonValue>) -> Seq<char>
    decreases items,
{
    if items.len() == 0 {
        Seq::empty()
    } else if items.len() == 1 {
        spec_json_text(items[0])
    } else {
        spec_json_items(items.drop_last()) + seq![','] + spec_json_text(items.last())
    }
}

/// The comma-separated `"key":value` texts of an object's fields.
pub open spec fn spec_json_fields(fields: Seq<(String, JsonValue)>) -> Seq<char>
    decreases fields,
{
    if fields.len() == 0 {
        Seq::empty()
    } else if fields.len() == 1 {
        spec_json_field(fields[0])
    } else {
        spec_json_fields(fields.drop_last()) + seq![','] + spec_json_field(fields.last())
    }
}

/// The `"key":value` text of one object field.
pub open spec fn spec_json_field(field: (String, JsonValue)) -> Seq<char>
    decreases field,
{
    seq!['"'] + spec_escape(field.0@) + seq!['"', ':'] + spec_json_text(field.1)
}

impl Clone for JsonValue {
    /// A deep copy holding the same document.
    #[verifier::loop_isolation(false)]
    fn clone(&self) -> (r: Self)
        ensures
            json_eqv(r, *self),
        decreases *self,
    {
        match self {
            JsonValue::Null => JsonValue::Null,
            JsonValue::Bool(b) => JsonValue::Bool(*b),
            JsonValue::Num(n) => JsonValue::Num(n.clone()),
            JsonValue::Str(s) => JsonValue::Str(s.clone()),
            JsonValue::Arr(items) => {
                let mut out: Vec<JsonValue> = Vec::new();
                let mut i: usize = 0;
                while i < items.len()
                    invariant
                        i <= items@.len(),
                        out@.len() == i,
                        forall|j: int| 0 <= j < i ==> json_eqv(#[trigger] out@[j], items@[j]),
                    decreases items@.len() - i,
                {
                    proof {
                        assert(decreases_to!(*self => (*self)->Arr_0));
                        assert((*self)->Arr_0 == *items);
                        assert(decreases_to!(*items => items@));
                        assert(decreases_to!(items@ => items@[i as int]));
                    }
                    let c = items[i].clone();
                    out.push(c);
                    i = i + 1;
                }
                JsonValue::Arr(out)
            },
            JsonValue::Obj(fields) => {
                let mut out: Vec<(String, JsonValue)> = Vec::new();
                let mut i: usize = 0;
                while i < fields.len()
                    invariant
                        i <= fields@.len(),
                        out@.len() == i,
                        forall|j: int| 0 <= j < i ==> (#[trigger] out@[j]).0@ == fields@[j].0@
                            && json_eqv(out@[j].1, fields@[j].1),
                    decreases fields@.len() - i,
                {
                    proof {
                        assert(decreases_to!(*self => (*self)->Obj_0));
                        assert((*self)->Obj_0 == *fields);
                        assert(decreases_to!(*fields => fields@));
                        assert(decreases_to!(fields@ => fields@[i as int]));
                        assert(decreases_to!(fields@[i as int] => fields@[i as int].1));
                    }
                    let pair = &fields[i];
                    let k = pair.0.clone();
                    let v = pair.1.clone();
                    out.push((k, v));
                    i = i + 1;
                }
                JsonValue::Obj(out)
            },
        }
    }
}

/// Escapes one character into `out`.
fn push_escaped(out: &mut String, c: char)
    ensures
        final(out)@ == old(out)@ + spec_escape_char(c),
{
    if c == '"' {
        push_char(out, '\\');
        push_char(out, '"');
    } else if c == '\\' {
        push_char(out, '\\');
        push_char(out, '\\');
    } else if c == '\n' {
        push_char(out, '\\');
        push_char(out, 'n');
    } else if c == '\r' {
        push_char(out, '\\');
        push_char(out, 'r');
    } else if c == '\t' {
        push_char(out, '\\');
        push_char(out, 't');
    } else {
        push_char(out, c);
    }
    proof {
        assert(out@ =~= old(out)@ + spec_escape_char(c));
    }
}

proof fn lemma_escape_snoc(s: Seq<char>, c: char)
    ensures
        spec_escape(s.push(c)) == spec_escape(s) + spec_escape_char(c),
    decreases s.len(),
{
    if s.len() == 0 {
        assert(s.push(c).len() == 1);
        assert(s.push(c)[0] == c);
        assert(s.push(c).skip(1) =~= Seq::<char>::empty());
        assert(spec_escape(s.push(c)) == spec_escape_char(c) + spec_escape(Seq::<char>::empty()));
        assert(spec_escape(Seq::<char>::empty()) == Seq::<char>::empty());
        assert(spec_escape(s) == Seq::<char>::empty());
        assert(spec_escape_char(c) + Seq::<char>::empty() =~= Seq::<char>::empty()
            + spec_escape_char(c));
    } else {
        assert(s.push(c).len() == s.len() + 1);
        assert(s.push(c)[0] == s[0]);
        assert(s.push(c).skip(1) =~= s.skip(1).push(c));
        lemma_escape_snoc(s.skip(1), c);
        let a = spec_escape_char(s[0]);
        let b = spec_escape(s.skip(1));
        let e = spec_escape_char(c);
        assert(spec_escape(s.push(c)) == a + spec_escape(s.skip(1).push(c)));
        assert(spec_escape(s.skip(1).push(c)) == b + e);
        assert(a + (b + e) =~= (a + b) + e);
        assert(spec_escape(s) == a + b);
    }
}

/// Appends the escaped form of `s` to `out`.
fn push_escaped_str(out: &mut String, s: &str)
    ensures
        final(out)@ == old(out)@ + spec_escape(s@),
{
    let len = s.unicode_len();
    let mut i: usize = 0;
    while i < len
        invariant
            i <= len,
            len == s@.len(),
            out@ == old(out)@ + spec_escape(s@.take(i as int)),
        decreases len - i,
    {
        let c = s.get_char(i);
        push_escaped(out, c);
        proof {
            assert(s@.take(i + 1) =~= s@.take(i as int).push(s@[i as int]));
            lemma_escape_snoc(s@.take(i as int), s@[i as int]);
            assert(out@ =~= old(out)@ + spec_escape(s@.take(i + 1)));
        }
        i = i + 1;
    }
    proof {
        assert(s@.take(len as int) =~= s@);
    }
}

impl JsonValue {
    /// Renders this value as JSON text.
    pub fn json_text(&self) -> (r: String)
        ensures
            r@ == spec_json_text(*self),
    {
        let mut out = String::new();
        self.write_text(&mut out);
        out
    }

    /// Appends this value's JSON text to `out`.
    #[verifier::loop_isolation(false)]
    fn write_text(&self, out: &mut String)
        ensures
            final(out)@ == old(out)@ + spec_json_text(*self),
        decreases *self,
    {
        match self {
            JsonValue::Null => {
                out.append("null");
            },
            JsonValue::Bool(b) => {
                if *b {
                    out.append("true");
                } else {
                    out.append("false");
                }
            },
            JsonValue::Num(n) => {
                out.append(n.as_str());
            },
            JsonValue::Str(s) => {
                push_char(out, '"');
                push_escaped_str(out, s.as_str());
                push_char(out, '"');
                proof {
                    assert(out@ =~= old(out)@ + spec_json_text(*self));
                }
            },
            JsonValue::Arr(items) => {
                push_char(out, '[');
                let ghost mid = out@;
                let mut i: usize = 0;
                while i < items.len()
                    invariant
                        i <= items@.len(),
                        out@ == mid + spec_json_items(items@.take(i as int)),
                    decreases items@.len() - i,
                {
                    if i > 0 {
                        push_char(out, ',');
                    }
                    let ghost fstart = out@;
                    let item = &items[i];
                    proof {
                        assert(decreases_to!(*self => (*self)->Arr_0));
                        assert((*self)->Arr_0 == *items);
                        assert(decreases_to!(*items => items@));
                        assert(decreases_to!(items@ => items@[i as int]));
                    }
                    item.write_text(out);
                    proof {
                        let pre = items@.take(i as int);
                        let now = items@.take(i + 1);
                        assert(now.drop_last() =~= pre);
                        assert(now.last() == items@[i as int]);
                        if i == 0 {
                            assert(now[0] == items@[0]);
                            assert(pre.len() == 0);
                        }
                        assert(out@ =~= mid + spec_json_items(now));
                    }
                    i = i + 1;
                }
                push_char(out, ']');
                proof {
                    assert(items@.take(items@.len() as int) =~= items@);
                    assert(out@ =~= old(out)@ + spec_json_text(*self));
                }
            },
            JsonValue::Obj(fields) => {
                push_char(out, '{');
                let ghost mid = out@;
                let mut i: usize = 0;
                while i < fields.len()
                    invariant
                        i <= fields@.len(),
                        out@ == mid + spec_json_fields(fields@.take(i as int)),
                    decreases fields@.len() - i,
                {
                    if i > 0 {
                        push_char(out, ',');
                    }
                    let ghost fstart = out@;
                    let pair = &fields[i];
                    push_char(out, '"');
                    push_escaped_str(out, pair.0.as_str());
                    push_char(out, '"');
                    push_char(out, ':');
                    proof {
                        assert(decreases_to!(*self => (*self)->Obj_0));
                        assert((*self)->Obj_0 == *fields);
                        assert(decreases_to!(*fields => fields@));
                        assert(decreases_to!(fields@ => fields@[i as int]));
                        assert(decreases_to!(fields@[i as int] => fields@[i as int].1));
                    }
                    pair.1.write_text(out);
                    proof {
                        let pre = fields@.take(i as int);
                        let now = fields@.take(i + 1);
                        assert(out@ =~= fstart + spec_json_field(fields@[i as int]));
                        assert(now.drop_last() =~= pre);
                        assert(now.last() == fields@[i as int]);
                        if i == 0 {
                            assert(now[0] == fields@[0]);
                            assert(pre.len() == 0);
                        }
                        assert(out@ =~= mid + spec_json_fields(now));
                    }
                    i = i + 1;
                }
                push_char(out, '}');
                proof {
                    assert(fields@.take(fields@.len() as int) =~= fields@);
                    assert(out@ =~= old(out)@ + spec_json_text(*self));
                }
            },
        }
    }
}

} // verus!

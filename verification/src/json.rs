//! An untyped JSON document: the request bodies the client sends and the
//! response bodies it interprets.
//!
//! `JsonValue` is the executable document; its mathematical model is
//! `JsonView`, where strings become `Seq<char>` and numbers become `int`.
//! The module also defines field lookup and the JSON text rendering that is
//! used for request bodies, both specified against the model.

use vstd::prelude::*;

verus! {

/// The mathematical model of a JSON document.
pub enum JsonView {
    Null,
    Bool(bool),
    Int(int),
    Str(Seq<char>),
    Arr(Seq<JsonView>),
    Obj(Seq<(Seq<char>, JsonView)>),
}

/// An untyped JSON document. Numbers are integers: every number this client
/// sends is one, and a response value that is not cannot cross into the
/// library (the caller converting a response carries it as text instead).
#[derive(Debug)]
pub enum JsonValue {
    Null,
    Bool(bool),
    Int(i64),
    Str(String),
    Arr(Vec<JsonValue>),
    Obj(Vec<(String, JsonValue)>),
}

/// The model of a document: structure kept, strings viewed as `Seq<char>`.
pub open spec fn json_view(v: JsonValue) -> JsonView
    decreases v,
{
    match v {
        JsonValue::Null => JsonView::Null,
        JsonValue::Bool(b) => JsonView::Bool(b),
        JsonValue::Int(i) => JsonView::Int(i as int),
        JsonValue::Str(s) => JsonView::Str(s@),
        JsonValue::Arr(items) => JsonView::Arr(views_of(items@)),
        JsonValue::Obj(entries) => JsonView::Obj(entry_views_of(entries@)),
    }
}

/// The models of the elements of an array, in order.
pub open spec fn views_of(s: Seq<JsonValue>) -> Seq<JsonView>
    decreases s,
{
    if s.len() == 0 {
        Seq::empty()
    } else {
        seq![json_view(s[0])] + views_of(s.drop_first())
    }
}

/// The models of the fields of an object, in order.
pub open spec fn entry_views_of(s: Seq<(String, JsonValue)>) -> Seq<(Seq<char>, JsonView)>
    decreases s,
{
    if s.len() == 0 {
        Seq::empty()
    } else {
        seq![(s[0].0@, json_view(s[0].1))] + entry_views_of(s.drop_first())
    }
}

impl View for JsonValue {
    type V = JsonView;

    open spec fn view(&self) -> JsonView {
        json_view(*self)
    }
}

pub proof fn lemma_views_of(s: Seq<JsonValue>)
    ensures
        views_of(s).len() == s.len(),
        forall|i: int| 0 <= i < s.len() ==> views_of(s)[i] == json_view(s[i]),
    decreases s.len(),
{
    if s.len() > 0 {
        lemma_views_of(s.drop_first());
        assert forall|i: int| 0 <= i < s.len() implies views_of(s)[i] == json_view(s[i]) by {
            if i > 0 {
                assert(views_of(s)[i] == views_of(s.drop_first())[i - 1]);
                assert(s.drop_first()[i - 1] == s[i]);
            }
        }
    }
}

pub proof fn lemma_entry_views_of(s: Seq<(String, JsonValue)>)
    ensures
        entry_views_of(s).len() == s.len(),
        forall|i: int| 0 <= i < s.len() ==> entry_views_of(s)[i] == (
        s[i].0@,
        json_view(s[i].1),
        ),
    decreases s.len(),
{
    if s.len() > 0 {
        lemma_entry_views_of(s.drop_first());
        assert forall|i: int| 0 <= i < s.len() implies entry_views_of(s)[i] == (
            s[i].0@,
            json_view(s[i].1),
        ) by {
            if i > 0 {
                assert(entry_views_of(s)[i] == entry_views_of(s.drop_first())[i - 1]);
                assert(s.drop_first()[i - 1] == s[i]);
            }
        }
    }
}

/// The value of the first field named `key` among `entries`, if any.
pub open spec fn lookup_in(entries: Seq<(Seq<char>, JsonView)>, key: Seq<char>) -> Option<
    JsonView,
>
    decreases entries.len(),
{
    if entries.len() == 0 {
        None
    } else if entries[0].0 == key {
        Some(entries[0].1)
    } else {
        lookup_in(entries.drop_first(), key)
    }
}

/// The value of field `key` of `v`: defined only when `v` is an object that
/// has the field, exactly as a field lookup on a non-object finds nothing.
pub open spec fn lookup(v: JsonView, key: Seq<char>) -> Option<JsonView> {
    match v {
        JsonView::Obj(entries) => lookup_in(entries, key),
        _ => None,
    }
}

impl JsonValue {
    /// Borrow the value of field `name`, or nothing when `self` is not an
    /// object or has no such field.
    #[verifier::loop_isolation(false)]
    pub fn get<'a>(&'a self, name: &str) -> (r: Option<&'a JsonValue>)
        ensures
            (match r {
                Some(found) => lookup(self@, name@) == Some(found@),
                None => lookup(self@, name@) is None,
            }),
    {
        match self {
            JsonValue::Obj(entries) => {
                let name_string = String::from_str(name);
                proof {
                    lemma_entry_views_of(entries@);
                }
                let ghost evs = entry_views_of(entries@);
                proof {
                    assert(evs.skip(0) =~= evs);
                }
                let n = entries.len();
                let mut i: usize = 0;
                while i < n
                    invariant
                        n == entries@.len(),
                        i <= n,
                        name_string@ == name@,
                        evs == entry_views_of(entries@),
                        evs.len() == n,
                        forall|j: int|
                            0 <= j < n ==> evs[j] == (entries@[j].0@, json_view(entries@[j].1)),
                        lookup_in(evs, name@) == lookup_in(evs.skip(i as int), name@),
                    decreases n - i,
                {
                    if entries[i].0 == name_string {
                        proof {
                            assert(evs.skip(i as int)[0] == evs[i as int]);
                        }
                        return Some(&entries[i].1);
                    }
                    proof {
                        assert(evs.skip(i as int)[0] == evs[i as int]);
                        assert(evs.skip(i as int).drop_first() =~= evs.skip(i as int + 1));
                    }
                    i = i + 1;
                }
                proof {
                    assert(evs.skip(n as int).len() == 0);
                }
                None
            },
            _ => None,
        }
    }

    /// A structurally equal copy of the document.
    #[verifier::loop_isolation(false)]
    pub fn deep_copy(&self) -> (r: JsonValue)
        ensures
            r@ == self@,
        decreases *self,
    {
        match self {
            JsonValue::Null => JsonValue::Null,
            JsonValue::Bool(b) => JsonValue::Bool(*b),
            JsonValue::Int(i) => JsonValue::Int(*i),
            JsonValue::Str(s) => JsonValue::Str(s.clone()),
            JsonValue::Arr(items) => {
                let n = items.len();
                let mut out: Vec<JsonValue> = Vec::new();
                let mut i: usize = 0;
                while i < n
                    invariant
                        n == items@.len(),
                        i <= n,
                        out@.len() == i,
                        forall|j: int| 0 <= j < i ==> json_view(#[trigger] out@[j]) == json_view(
                            items@[j],
                        ),
                    decreases n - i,
                {
                    proof {
                        assert(decreases_to!(*self => items@[i as int]));
                    }
                    let copied = items[i].deep_copy();
                    out.push(copied);
                    i = i + 1;
                }
                proof {
                    lemma_views_of(out@);
                    lemma_views_of(items@);
                    assert(views_of(out@) =~= views_of(items@));
                }
                JsonValue::Arr(out)
            },
            JsonValue::Obj(entries) => {
                let n = entries.len();
                let mut out: Vec<(String, JsonValue)> = Vec::new();
                let mut i: usize = 0;
                while i < n
                    invariant
                        n == entries@.len(),
                        i <= n,
                        out@.len() == i,
                        forall|j: int|
                            0 <= j < i ==> (#[trigger] out@[j]).0@ == entries@[j].0@ && json_view(
                                out@[j].1,
                            ) == json_view(entries@[j].1),
                    decreases n - i,
                {
                    proof {
                        assert(decreases_to!(entries@ => entries@[i as int]));
                        assert(decreases_to!(*self => entries@[i as int].1));
                    }
                    let key = entries[i].0.clone();
                    let copied = entries[i].1.deep_copy();
                    out.push((key, copied));
                    i = i + 1;
                }
                proof {
                    lemma_entry_views_of(out@);
                    lemma_entry_views_of(entries@);
                    assert(entry_views_of(out@) =~= entry_views_of(entries@));
                }
                JsonValue::Obj(out)
            },
        }
    }
}

/// The digit `d` as a character, with lower-case letters past nine, as both
/// decimal numbers and the hexadecimal `\u` escapes use them.
pub open spec fn digit_char(d: nat) -> char {
    if d == 0 {
        '0'
    } else if d == 1 {
        '1'
    } else if d == 2 {
        '2'
    } else if d == 3 {
        '3'
    } else if d == 4 {
        '4'
    } else if d == 5 {
        '5'
    } else if d == 6 {
        '6'
    } else if d == 7 {
        '7'
    } else if d == 8 {
        '8'
    } else if d == 9 {
        '9'
    } else if d == 10 {
        'a'
    } else if d == 11 {
        'b'
    } else if d == 12 {
        'c'
    } else if d == 13 {
        'd'
    } else if d == 14 {
        'e'
    } else {
        'f'
    }
}

/// The decimal digits of `n`, most significant first, no sign and no
/// leading zero (a single `'0'` for zero).
pub open spec fn nat_text(n: nat) -> Seq<char>
    decreases n,
{
    if n < 10 {
        seq![digit_char(n)]
    } else {
        nat_text(n / 10) + seq![digit_char(n % 10)]
    }
}

/// The decimal rendering of `i`, with a leading `'-'` when negative.
pub open spec fn int_text(i: int) -> Seq<char> {
    if i < 0 {
        seq!['-'] + nat_text((-i) as nat)
    } else {
        nat_text(i as nat)
    }
}

/// How one character appears inside a JSON string literal: quote and
/// backslash get a backslash escape, control characters their short escape
/// or the four-digit `\u` form, and every other character stands as itself.
pub open spec fn escape_char(c: char) -> Seq<char> {
    if c == '"' {
        seq!['\\', '"']
    } else if c == '\\' {
        seq!['\\', '\\']
    } else if c == '\u{8}' {
        seq!['\\', 'b']
    } else if c == '\t' {
        seq!['\\', 't']
    } else if c == '\n' {
        seq!['\\', 'n']
    } else if c == '\u{c}' {
        seq!['\\', 'f']
    } else if c == '\r' {
        seq!['\\', 'r']
    } else if (c as u32) < 32 {
        seq!['\\', 'u', '0', '0'] + seq![
            digit_char(((c as u32) / 16) as nat),
            digit_char(((c as u32) % 16) as nat),
        ]
    } else {
        seq![c]
    }
}

/// The body of a JSON string literal for the characters `s`.
pub open spec fn escaped(s: Seq<char>) -> Seq<char>
    decreases s.len(),
{
    if s.len() == 0 {
        Seq::empty()
    } else {
        escaped(s.drop_last()) + escape_char(s.last())
    }
}

/// The JSON text of a document: exactly what the client sends as a request
/// body. No whitespace; object fields in their stored order.
pub open spec fn text_of(v: JsonView) -> Seq<char>
    decreases v,
{
    match v {
        JsonView::Null => "null"@,
        JsonView::Bool(b) => if b {
            "true"@
        } else {
            "false"@
        },
        JsonView::Int(i) => int_text(i),
        JsonView::Str(s) => seq!['"'] + escaped(s) + seq!['"'],
        JsonView::Arr(items) => seq!['['] + items_text(items) + seq![']'],
        JsonView::Obj(entries) => seq!['{'] + entries_text(entries) + seq!['}'],
    }
}

/// The comma-separated JSON texts of the elements of an array.
pub open spec fn items_text(items: Seq<JsonView>) -> Seq<char>
    decreases items,
{
    if items.len() == 0 {
        Seq::empty()
    } else if items.len() == 1 {
        text_of(items[0])
    } else {
        items_text(items.drop_last()) + seq![','] + text_of(items.last())
    }
}

/// The JSON text of one object field: quoted key, colon, value.
pub open spec fn entry_text(e: (Seq<char>, JsonView)) -> Seq<char>
    decreases e,
{
    seq!['"'] + escaped(e.0) + seq!['"', ':'] + text_of(e.1)
}

/// The comma-separated JSON texts of the fields of an object.
pub open spec fn entries_text(entries: Seq<(Seq<char>, JsonView)>) -> Seq<char>
    decreases entries,
{
    if entries.len() == 0 {
        Seq::empty()
    } else if entries.len() == 1 {
        entry_text(entries[0])
    } else {
        entries_text(entries.drop_last()) + seq![','] + entry_text(entries.last())
    }
}

/// Relies on std's `String::push`: appends exactly the one character `c` at
/// the end of the string.
#[verifier::external_body]
fn push_char(out: &mut String, c: char)
    ensures
        final(out)@ == old(out)@ + seq![c],
{
    out.push(c);
}

/// The digit `d` as a character, lower-case past nine.
fn digit(d: u64) -> (c: char)
    requires
        d < 16,
    ensures
        c == digit_char(d as nat),
{
    if d == 0 {
        '0'
    } else if d == 1 {
        '1'
    } else if d == 2 {
        '2'
    } else if d == 3 {
        '3'
    } else if d == 4 {
        '4'
    } else if d == 5 {
        '5'
    } else if d == 6 {
        '6'
    } else if d == 7 {
        '7'
    } else if d == 8 {
        '8'
    } else if d == 9 {
        '9'
    } else if d == 10 {
        'a'
    } else if d == 11 {
        'b'
    } else if d == 12 {
        'c'
    } else if d == 13 {
        'd'
    } else if d == 14 {
        'e'
    } else {
        'f'
    }
}

/// Append the decimal digits of `n`.
fn write_nat(out: &mut String, n: u64)
    ensures
        final(out)@ == old(out)@ + nat_text(n as nat),
    decreases n,
{
    if n < 10 {
        push_char(out, digit(n));
    } else {
        write_nat(out, n / 10);
        push_char(out, digit(n % 10));
    }
}

/// Append the decimal rendering of `i`.
fn write_int(out: &mut String, i: i64)
    ensures
        final(out)@ == old(out)@ + int_text(i as int),
{
    if i >= 0 {
        write_nat(out, i as u64);
    } else {
        push_char(out, '-');
        let mag: u64 = if i == i64::MIN {
            9223372036854775808u64
        } else {
            (-i) as u64
        };
        proof {
            assert(mag as nat == (-(i as int)) as nat);
        }
        write_nat(out, mag);
        proof {
            assert(old(out)@ + seq!['-'] + nat_text(mag as nat) =~= old(out)@ + int_text(
                i as int,
            ));
        }
    }
}

/// Append the body of a JSON string literal for `s`.
#[verifier::loop_isolation(false)]
fn write_escaped(out: &mut String, s: &str)
    ensures
        final(out)@ == old(out)@ + escaped(s@),
{
    let n = s.unicode_len();
    let mut i: usize = 0;
    while i < n
        invariant
            n == s@.len(),
            i <= n,
            out@ == old(out)@ + escaped(s@.take(i as int)),
        decreases n - i,
    {
        let c = s.get_char(i);
        let code: u32 = c as u32;
        if c == '"' {
            push_char(out, '\\');
            push_char(out, '"');
        } else if c == '\\' {
            push_char(out, '\\');
            push_char(out, '\\');
        } else if code == 8 {
            push_char(out, '\\');
            push_char(out, 'b');
        } else if c == '\t' {
            push_char(out, '\\');
            push_char(out, 't');
        } else if c == '\n' {
            push_char(out, '\\');
            push_char(out, 'n');
        } else if code == 12 {
            push_char(out, '\\');
            push_char(out, 'f');
        } else if c == '\r' {
            push_char(out, '\\');
            push_char(out, 'r');
        } else if code < 32 {
            push_char(out, '\\');
            push_char(out, 'u');
            push_char(out, '0');
            push_char(out, '0');
            push_char(out, digit((code / 16) as u64));
            push_char(out, digit((code % 16) as u64));
        } else {
            push_char(out, c);
        }
        proof {
            assert(s@.take(i as int + 1).drop_last() =~= s@.take(i as int));
            assert(s@.take(i as int + 1).last() == c);
            assert(escaped(s@.take(i as int + 1)) == escaped(s@.take(i as int)) + escape_char(c));
            assert(out@ =~= old(out)@ + escaped(s@.take(i as int + 1)));
        }
        i = i + 1;
    }
    proof {
        assert(s@.take(n as int) =~= s@);
    }
}

impl JsonValue {
    /// Append the JSON text of the document to `out`.
    #[verifier::loop_isolation(false)]
    pub fn write_json(&self, out: &mut String)
        ensures
            final(out)@ == old(out)@ + text_of(self@),
        decreases *self,
    {
        match self {
            JsonValue::Null => {
                out.append("null");
            },
            JsonValue::Bool(b) => {
                if *b {
                    out.append("true");
                } else {
                    out.append("false");
                }
            },
            JsonValue::Int(i) => {
                write_int(out, *i);
            },
            JsonValue::Str(s) => {
                push_char(out, '"');
                write_escaped(out, s.as_str());
                push_char(out, '"');
                proof {
                    assert(out@ =~= old(out)@ + text_of(self@));
                }
            },
            JsonValue::Arr(items) => {
                push_char(out, '[');
                proof {
                    lemma_views_of(items@);
                }
                let ghost ivs = views_of(items@);
                let n = items.len();
                let mut i: usize = 0;
                while i < n
                    invariant
                        i <= n,
                        out@ == old(out)@ + seq!['['] + items_text(ivs.take(i as int)),
                    decreases n - i,
                {
                    if i > 0 {
                        push_char(out, ',');
                    }
                    proof {
                        assert(decreases_to!(*self => items@[i as int]));
                    }
                    let item = &items[i];
                    item.write_json(out);
                    proof {
                        assert(ivs.take(i as int + 1).drop_last() =~= ivs.take(i as int));
                        assert(ivs.take(i as int + 1).last() == json_view(items@[i as int]));
                        if i == 0 {
                            assert(items_text(ivs.take(1)) == text_of(ivs[0]));
                            assert(out@ =~= old(out)@ + seq!['['] + items_text(ivs.take(1)));
                        } else {
                            assert(items_text(ivs.take(i as int + 1)) == items_text(
                                ivs.take(i as int),
                            ) + seq![','] + text_of(ivs[i as int]));
                            assert(out@ =~= old(out)@ + seq!['['] + items_text(
                                ivs.take(i as int + 1),
                            ));
                        }
                    }
                    i = i + 1;
                }
                push_char(out, ']');
                proof {
                    assert(ivs.take(n as int) =~= ivs);
                    assert(out@ =~= old(out)@ + text_of(self@));
                }
            },
            JsonValue::Obj(entries) => {
                push_char(out, '{');
                proof {
                    lemma_entry_views_of(entries@);
                }
                let ghost evs = entry_views_of(entries@);
                let n = entries.len();
                let mut i: usize = 0;
                while i < n
                    invariant
                        i <= n,
                        out@ == old(out)@ + seq!['{'] + entries_text(evs.take(i as int)),
                    decreases n - i,
                {
                    if i > 0 {
                        push_char(out, ',');
                    }
                    push_char(out, '"');
                    write_escaped(out, entries[i].0.as_str());
                    push_char(out, '"');
                    push_char(out, ':');
                    proof {
                        assert(decreases_to!(entries@ => entries@[i as int]));
                        assert(decreases_to!(*self => entries@[i as int].1));
                    }
                    let value = &entries[i].1;
                    value.write_json(out);
                    proof {
                        assert(evs.take(i as int + 1).drop_last() =~= evs.take(i as int));
                        assert(evs.take(i as int + 1).last() == evs[i as int]);
                        assert(entry_text(evs[i as int]) =~= seq!['"'] + escaped(
                            entries@[i as int].0@,
                        ) + seq!['"', ':'] + text_of(json_view(entries@[i as int].1)));
                        if i == 0 {
                            assert(entries_text(evs.take(1)) == entry_text(evs[0]));
                            assert(out@ =~= old(out)@ + seq!['{'] + entries_text(evs.take(1)));
                        } else {
                            assert(entries_text(evs.take(i as int + 1)) == entries_text(
                                evs.take(i as int),
                            ) + seq![','] + entry_text(evs[i as int]));
                            assert(out@ =~= old(out)@ + seq!['{'] + entries_text(
                                evs.take(i as int + 1),
                            ));
                        }
                    }
                    i = i + 1;
                }
                push_char(out, '}');
                proof {
                    assert(evs.take(n as int) =~= evs);
                    assert(out@ =~= old(out)@ + text_of(self@));
                }
            },
        }
    }

    /// The JSON text of the document.
    pub fn to_text(&self) -> (r: String)
        ensures
            r@ == text_of(self@),
    {
        let mut r = String::new();
        self.write_json(&mut r);
        proof {
            assert(Seq::<char>::empty() + text_of(self@) =~= text_of(self@));
        }
        r
    }
}

} // verus!

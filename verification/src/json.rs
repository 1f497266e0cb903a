//! A small JSON model: scalar values, flat objects, and a verified renderer.
//!
//! Records carry an open payload: a mapping of field names to scalar values.
//! The renderer is specified character by character, so a record's persisted
//! text is pinned down exactly.

use vstd::prelude::*;

verus! {

use vstd::string::StrSliceExecFns;
use vstd::string::StringExecFns;

pub assume_specification[ String::push ](s: &mut String, ch: char)
    ensures
        final(s)@ == old(s)@.push(ch),
;

/// A scalar JSON value: the payloads this pipeline produces are flat
/// mappings of field names to scalars.
#[derive(Debug, Clone)]
pub enum JsonValue {
    Null,
    Bool(bool),
    UInt(u64),
    Int(i64),
    Str(String),
}

/// The mathematical value of a `JsonValue`: numbers collapse to `int`,
/// strings to their character sequences.
pub enum JsonView {
    Null,
    Bool(bool),
    Int(int),
    Str(Seq<char>),
}

impl View for JsonValue {
    type V = JsonView;

    open spec fn view(&self) -> JsonView {
        match self {
            JsonValue::Null => JsonView::Null,
            JsonValue::Bool(b) => JsonView::Bool(*b),
            JsonValue::UInt(n) => JsonView::Int(*n as int),
            JsonValue::Int(i) => JsonView::Int(*i as int),
            JsonValue::Str(s) => JsonView::Str(s@),
        }
    }
}

/// An ordered JSON object with scalar values. Field order is the order of
/// insertion and is preserved by rendering.
#[derive(Debug, Clone)]
pub struct JsonObject {
    pub fields: Vec<(String, JsonValue)>,
}

impl View for JsonObject {
    type V = Seq<(Seq<char>, JsonView)>;

    open spec fn view(&self) -> Seq<(Seq<char>, JsonView)> {
        self.fields@.map_values(|p: (String, JsonValue)| (p.0@, p.1@))
    }
}

impl JsonObject {
    pub fn new() -> (o: JsonObject)
        ensures
            o@ == Seq::<(Seq<char>, JsonView)>::empty(),
    {
        let o = JsonObject { fields: Vec::new() };
        proof {
            assert(o@ =~= Seq::<(Seq<char>, JsonView)>::empty());
        }
        o
    }

    pub fn push_null_field(&mut self, name: &str)
        ensures
            final(self)@ == old(self)@.push((name@, JsonView::Null)),
    {
        self.fields.push((String::from_str(name), JsonValue::Null));
        proof {
            assert(final(self)@ =~= old(self)@.push((name@, JsonView::Null)));
        }
    }

    pub fn push_bool_field(&mut self, name: &str, value: bool)
        ensures
            final(self)@ == old(self)@.push((name@, JsonView::Bool(value))),
    {
        self.fields.push((String::from_str(name), JsonValue::Bool(value)));
        proof {
            assert(final(self)@ =~= old(self)@.push((name@, JsonView::Bool(value))));
        }
    }

    pub fn push_u64_field(&mut self, name: &str, value: u64)
        ensures
            final(self)@ == old(self)@.push((name@, JsonView::Int(value as int))),
    {
        self.fields.push((String::from_str(name), JsonValue::UInt(value)));
        proof {
            assert(final(self)@ =~= old(self)@.push((name@, JsonView::Int(value as int))));
        }
    }

    pub fn push_i64_field(&mut self, name: &str, value: i64)
        ensures
            final(self)@ == old(self)@.push((name@, JsonView::Int(value as int))),
    {
        self.fields.push((String::from_str(name), JsonValue::Int(value)));
        proof {
            assert(final(self)@ =~= old(self)@.push((name@, JsonView::Int(value as int))));
        }
    }

    pub fn push_str_field(&mut self, name: &str, value: String)
        ensures
            final(self)@ == old(self)@.push((name@, JsonView::Str(value@))),
    {
        self.fields.push((String::from_str(name), JsonValue::Str(value)));
        proof {
            assert(final(self)@ =~= old(self)@.push((name@, JsonView::Str(value@))));
        }
    }

    /// How many fields the object holds.
    pub fn len(&self) -> (n: usize)
        ensures
            n == self@.len(),
    {
        self.fields.len()
    }
}

/// The character for a digit value below 16: decimal digits, then the
/// lower-case letters JSON escapes use.
pub open spec fn digit_char(d: nat) -> char {
    if d < 10 {
        ((48 + d) as u8) as char
    } else {
        ((87 + d) as u8) as char
    }
}

/// The decimal digits of `n`, most significant first, with no sign and no
/// leading zeros (a single `0` for zero).
pub open spec fn dec_digits(n: nat) -> Seq<char>
    decreases n,
{
    if n < 10 {
        seq![digit_char(n)]
    } else {
        dec_digits(n / 10).push(digit_char(n % 10))
    }
}

/// The decimal text of a signed integer.
pub open spec fn int_text(i: int) -> Seq<char> {
    if i < 0 {
        seq!['-'] + dec_digits((-i) as nat)
    } else {
        dec_digits(i as nat)
    }
}

/// How one character appears inside a JSON string: quotes and backslashes
/// are escaped, control characters take the `\u00XX` form, and everything
/// else stands for itself.
pub open spec fn escape_char(c: char) -> Seq<char> {
    if c == '"' {
        seq!['\\', '"']
    } else if c == '\\' {
        seq!['\\', '\\']
    } else if (c as nat) < 32 {
        seq!['\\', 'u', '0', '0', digit_char((c as nat) / 16), digit_char((c as nat) % 16)]
    } else {
        seq![c]
    }
}

/// A character sequence with every character escaped for JSON.
pub open spec fn escape_text(s: Seq<char>) -> Seq<char>
    decreases s.len(),
{
    if s.len() == 0 {
        Seq::<char>::empty()
    } else {
        escape_text(s.drop_last()) + escape_char(s.last())
    }
}

/// A JSON string literal: the escaped text between double quotes.
pub open spec fn string_text(s: Seq<char>) -> Seq<char> {
    seq!['"'] + escape_text(s) + seq!['"']
}

/// The text of one scalar value.
pub open spec fn value_text(v: JsonView) -> Seq<char> {
    match v {
        JsonView::Null => seq!['n', 'u', 'l', 'l'],
        JsonView::Bool(b) => if b {
            seq!['t', 'r', 'u', 'e']
        } else {
            seq!['f', 'a', 'l', 's', 'e']
        },
        JsonView::Int(i) => int_text(i),
        JsonView::Str(s) => string_text(s),
    }
}

/// The text of one `name:value` member.
pub open spec fn field_text(f: (Seq<char>, JsonView)) -> Seq<char> {
    string_text(f.0) + seq![':'] + value_text(f.1)
}

/// The comma-separated members of an object, in order.
pub open spec fn fields_text(fs: Seq<(Seq<char>, JsonView)>) -> Seq<char>
    decreases fs.len(),
{
    if fs.len() == 0 {
        Seq::<char>::empty()
    } else if fs.len() == 1 {
        field_text(fs[0])
    } else {
        fields_text(fs.drop_last()) + seq![','] + field_text(fs.last())
    }
}

/// The text of an object: its members between braces.
pub open spec fn object_text(fs: Seq<(Seq<char>, JsonView)>) -> Seq<char> {
    seq!['{'] + fields_text(fs) + seq!['}']
}

/// The character for a digit value below 16.
fn digit_ascii(d: u8) -> (c: char)
    requires
        d < 16,
    ensures
        c == digit_char(d as nat),
{
    if d < 10 {
        (48 + d) as char
    } else {
        (87 + d) as char
    }
}

/// Appends the decimal digits of `n`.
pub fn push_u64(out: &mut String, n: u64)
    ensures
        final(out)@ == old(out)@ + dec_digits(n as nat),
    decreases n,
{
    if n < 10 {
        out.push(digit_ascii(n as u8));
        proof {
            assert(final(out)@ =~= old(out)@ + dec_digits(n as nat));
        }
    } else {
        push_u64(out, n / 10);
        out.push(digit_ascii((n % 10) as u8));
        proof {
            assert(final(out)@ =~= old(out)@ + dec_digits(n as nat));
        }
    }
}

/// Appends the decimal text of `n`, with a leading minus sign when negative.
pub fn push_i64(out: &mut String, n: i64)
    ensures
        final(out)@ == old(out)@ + int_text(n as int),
{
    if n >= 0 {
        push_u64(out, n as u64);
    } else {
        out.push('-');
        let mag: u64 = (-(n as i128)) as u64;
        proof {
            assert(mag as nat == (-(n as int)) as nat);
        }
        push_u64(out, mag);
        proof {
            assert(final(out)@ =~= old(out)@ + int_text(n as int));
        }
    }
}

/// Appends `s` with every character escaped for JSON.
pub fn push_escaped(out: &mut String, s: &str)
    ensures
        final(out)@ == old(out)@ + escape_text(s@),
{
    let ghost base = out@;
    let n = s.unicode_len();
    let mut i: usize = 0;
    while i < n
        invariant
            n == s@.len(),
            i <= n,
            out@ == base + escape_text(s@.take(i as int)),
        decreases n - i,
    {
        let c = s.get_char(i);
        if c == '"' {
            out.push('\\');
            out.push('"');
        } else if c == '\\' {
            out.push('\\');
            out.push('\\');
        } else if (c as u32) < 32 {
            out.push('\\');
            out.push('u');
            out.push('0');
            out.push('0');
            let code = c as u32;
            out.push(digit_ascii((code / 16) as u8));
            out.push(digit_ascii((code % 16) as u8));
        } else {
            out.push(c);
        }
        proof {
            assert(s@.take(i + 1 as int).drop_last() =~= s@.take(i as int));
            assert(s@.take(i + 1 as int).last() == s@[i as int]);
            assert(out@ =~= base + escape_text(s@.take(i + 1 as int)));
        }
        i = i + 1;
    }
    proof {
        assert(s@.take(n as int) =~= s@);
    }
}

/// Appends `s` as a JSON string literal, quotes included.
pub fn push_string(out: &mut String, s: &str)
    ensures
        final(out)@ == old(out)@ + string_text(s@),
{
    out.push('"');
    push_escaped(out, s);
    out.push('"');
    proof {
        assert(final(out)@ =~= old(out)@ + string_text(s@));
    }
}

/// Appends the text of one scalar value.
pub fn push_value(out: &mut String, v: &JsonValue)
    ensures
        final(out)@ == old(out)@ + value_text(v@),
{
    match v {
        JsonValue::Null => {
            out.push('n');
            out.push('u');
            out.push('l');
            out.push('l');
            proof {
                assert(final(out)@ =~= old(out)@ + value_text(v@));
            }
        },
        JsonValue::Bool(b) => {
            if *b {
                out.push('t');
                out.push('r');
                out.push('u');
                out.push('e');
            } else {
                out.push('f');
                out.push('a');
                out.push('l');
                out.push('s');
                out.push('e');
            }
            proof {
                assert(final(out)@ =~= old(out)@ + value_text(v@));
            }
        },
        JsonValue::UInt(n) => {
            push_u64(out, *n);
        },
        JsonValue::Int(i) => {
            push_i64(out, *i);
        },
        JsonValue::Str(s) => {
            push_string(out, s.as_str());
        },
    }
}

/// Appends the text of an object, braces included.
pub fn push_object(out: &mut String, o: &JsonObject)
    ensures
        final(out)@ == old(out)@ + object_text(o@),
{
    let ghost base = out@;
    out.push('{');
    let n = o.fields.len();
    let mut i: usize = 0;
    while i < n
        invariant
            n == o.fields@.len(),
            o@ == o.fields@.map_values(|p: (String, JsonValue)| (p.0@, p.1@)),
            o@.len() == n,
            i <= n,
            out@ == base + seq!['{'] + fields_text(o@.take(i as int)),
        decreases n - i,
    {
        if i > 0 {
            out.push(',');
        }
        push_string(out, o.fields[i].0.as_str());
        out.push(':');
        push_value(out, &o.fields[i].1);
        proof {
            assert(o@[i as int] == (o.fields@[i as int].0@, o.fields@[i as int].1@));
            assert(o@.take(i + 1 as int).drop_last() =~= o@.take(i as int));
            assert(o@.take(i + 1 as int).last() == o@[i as int]);
            assert(out@ =~= base + seq!['{'] + fields_text(o@.take(i + 1 as int)));
        }
        i = i + 1;
    }
    out.push('}');
    proof {
        assert(o@.take(n as int) =~= o@);
        assert(final(out)@ =~= base + object_text(o@));
    }
}

/// Renders an object to its JSON text.
pub fn render_object(o: &JsonObject) -> (r: String)
    ensures
        r@ == object_text(o@),
{
    let mut out = String::new();
    push_object(&mut out, o);
    proof {
        assert(out@ =~= object_text(o@));
    }
    out
}

} // verus!

//! A plain JSON document tree.
//!
//! The streaming decoder and the response handlers work on `JsonValue`, a tree
//! of plain values owned by this crate. Turning the wire text into that tree is
//! the job of `serde_json` and is the one trusted step of the pipeline; every
//! rule about what a document means is stated and checked over `JsonRep`, the
//! mathematical model of the tree.

use vstd::prelude::*;

verus! {

/// Mathematical model of a JSON document: what a `JsonValue` denotes.
pub enum JsonRep {
    Null,
    Bool(bool),
    Int(int),
    /// A number that does not fit a signed 64-bit integer, kept as its
    /// decimal text.
    BigNum(Seq<char>),
    Text(Seq<char>),
    Array(Seq<JsonRep>),
    Object(Seq<(Seq<char>, JsonRep)>),
}

/// First field with the given key, if any. Documents produced by the parser
/// have unique keys, so "first" is not a choice there.
pub open spec fn rep_lookup(fields: Seq<(Seq<char>, JsonRep)>, key: Seq<char>) -> Option<JsonRep>
    decreases fields.len(),
{
    if fields.len() == 0 {
        None
    } else if fields[0].0 == key {
        Some(fields[0].1)
    } else {
        rep_lookup(fields.skip(1), key)
    }
}

/// Field of an object document; `None` on a missing key or a non-object.
pub open spec fn rep_get(doc: JsonRep, key: Seq<char>) -> Option<JsonRep> {
    match doc {
        JsonRep::Object(fields) => rep_lookup(fields, key),
        _ => None,
    }
}

/// A JSON document as a tree of plain values.
pub enum JsonValue {
    Null,
    Bool(bool),
    Int(i64),
    /// A number outside the signed 64-bit range, kept as its decimal text.
    BigNum(String),
    Text(String),
    Array(Vec<JsonValue>),
    Object(Vec<(String, JsonValue)>),
}

/// The document denoted by a `JsonValue` tree.
pub open spec fn json_rep(v: JsonValue) -> JsonRep
    decreases v,
{
    match v {
        JsonValue::Null => JsonRep::Null,
        JsonValue::Bool(b) => JsonRep::Bool(b),
        JsonValue::Int(i) => JsonRep::Int(i as int),
        JsonValue::BigNum(s) => JsonRep::BigNum(s@),
        JsonValue::Text(s) => JsonRep::Text(s@),
        JsonValue::Array(items) => JsonRep::Array(json_seq_rep(items@)),
        JsonValue::Object(fields) => JsonRep::Object(json_fields_rep(fields@)),
    }
}

/// The documents denoted by the elements of an array.
pub open spec fn json_seq_rep(items: Seq<JsonValue>) -> Seq<JsonRep>
    decreases items,
{
    Seq::new(
        items.len(),
        |i: int|
            if 0 <= i < items.len() {
                json_rep(items[i])
            } else {
                JsonRep::Null
            },
    )
}

/// The key/document pairs denoted by the fields of an object.
pub open spec fn json_fields_rep(fields: Seq<(String, JsonValue)>) -> Seq<(Seq<char>, JsonRep)>
    decreases fields,
{
    Seq::new(
        fields.len(),
        |i: int|
            if 0 <= i < fields.len() {
                (fields[i].0@, json_rep(fields[i].1))
            } else {
                (Seq::<char>::empty(), JsonRep::Null)
            },
    )
}

impl View for JsonValue {
    type V = JsonRep;

    open spec fn view(&self) -> JsonRep {
        json_rep(*self)
    }
}

/// What parsing a given text as JSON yields: `None` where the text is not a
/// JSON document. The JSON grammar is `serde_json`'s business; this name
/// stands for its answer, which depends on the text alone.
pub uninterp spec fn json_doc_of(s: Seq<char>) -> Option<JsonRep>;

/// Relies on `serde_json::from_str::<serde_json::Value>`: it parses the text
/// by the JSON grammar, and what it returns depends on the text alone.
/// `mirror_json` below reshapes the parsed document into the library's tree.
#[verifier::external_body]
pub(crate) fn parse_json(s: &str) -> (r: Option<JsonValue>)
    ensures
        r matches Some(v) ==> json_doc_of(s@) == Some(v@),
        r is None ==> json_doc_of(s@) is None,
{
    match serde_json::from_str::<serde_json::Value>(s) {
        Ok(v) => Some(mirror_json(&v)),
        Err(_) => None,
    }
}

/// The reshaping half of the trusted parse step above, and part of its trust:
/// each `serde_json::Value` variant maps to the like-named `JsonValue`
/// variant, one arm each, recursing into arrays and objects. A number becomes
/// `Int` when `as_i64` accepts it and otherwise keeps its decimal text.
#[verifier::external_body]
fn mirror_json(v: &serde_json::Value) -> JsonValue {
    match v {
        serde_json::Value::Null => JsonValue::Null,
        serde_json::Value::Bool(b) => JsonValue::Bool(*b),
        serde_json::Value::Number(n) => match n.as_i64() {
            Some(i) => JsonValue::Int(i),
            None => JsonValue::BigNum(n.to_string()),
        },
        serde_json::Value::String(s) => JsonValue::Text(s.clone()),
        serde_json::Value::Array(items) => JsonValue::Array(
            items.iter().map(mirror_json).collect(),
        ),
        serde_json::Value::Object(fields) => JsonValue::Object(
            fields.iter().map(|(k, w)| (k.clone(), mirror_json(w))).collect(),
        ),
    }
}

#[verifier::external_type_specification]
#[verifier::external_body]
pub struct ExSerdeValue(serde_json::Value);

/// Character-for-character string comparison.
pub fn str_eq(a: &str, b: &str) -> (r: bool)
    ensures
        r == (a@ == b@),
{
    let a_len = a.unicode_len();
    let b_len = b.unicode_len();
    if a_len != b_len {
        return false;
    }
    let mut i: usize = 0;
    while i < a_len
        invariant
            a_len == a@.len(),
            b_len == b@.len(),
            a_len == b_len,
            i <= a_len,
            forall|j: int| 0 <= j < i ==> a@[j] == b@[j],
        decreases a_len - i,
    {
        if a.get_char(i) != b.get_char(i) {
            return false;
        }
        i = i + 1;
    }
    proof {
        assert(a@ =~= b@);
    }
    true
}

proof fn lemma_rep_lookup_skip(fields: Seq<(Seq<char>, JsonRep)>, key: Seq<char>, i: int)
    requires
        0 <= i <= fields.len(),
        forall|j: int| 0 <= j < i ==> fields[j].0 != key,
    ensures
        rep_lookup(fields, key) == rep_lookup(fields.skip(i), key),
    decreases i,
{
    if i > 0 {
        lemma_rep_lookup_skip(fields, key, i - 1);
        let tail = fields.skip(i - 1);
        assert(tail.len() > 0);
        assert(tail[0] == fields[i - 1]);
        assert(tail[0].0 != key);
        assert(rep_lookup(tail, key) == rep_lookup(tail.skip(1), key));
        assert(tail.skip(1) =~= fields.skip(i));
    } else {
        assert(fields.skip(0) =~= fields);
    }
}

/// A lookup passes over a prefix none of whose keys match.
pub proof fn lemma_lookup_skip_keys(
    pre: Seq<(Seq<char>, JsonRep)>,
    rest: Seq<(Seq<char>, JsonRep)>,
    k: Seq<char>,
)
    requires
        forall|j: int| 0 <= j < pre.len() ==> pre[j].0 != k,
    ensures
        rep_lookup(pre + rest, k) == rep_lookup(rest, k),
    decreases pre.len(),
{
    if pre.len() == 0 {
        assert(pre + rest =~= rest);
    } else {
        let s = pre + rest;
        assert(s[0] == pre[0]);
        assert(s.skip(1) =~= pre.drop_first() + rest);
        lemma_lookup_skip_keys(pre.drop_first(), rest, k);
    }
}

impl JsonValue {
    /// Field of an object document, by key; `None` on a missing key or a
    /// non-object.
    pub fn get_field<'a>(&'a self, key: &str) -> (r: Option<&'a JsonValue>)
        ensures
            r matches Some(v) ==> rep_get(self@, key@) == Some(v@),
            r is None ==> rep_get(self@, key@) is None,
    {
        match self {
            JsonValue::Object(fields) => {
                let ghost reps = self@->Object_0;
                proof {
                    assert(reps.len() == fields@.len());
                }
                let mut i: usize = 0;
                while i < fields.len()
                    invariant
                        self@ == JsonRep::Object(reps),
                        reps.len() == fields@.len(),
                        forall|j: int| 0 <= j < fields@.len()
                            ==> reps[j] == (fields@[j].0@, json_rep(fields@[j].1)),
                        i <= fields@.len(),
                        forall|j: int| 0 <= j < i ==> reps[j].0 != key@,
                    decreases fields@.len() - i,
                {
                    if str_eq(fields[i].0.as_str(), key) {
                        proof {
                            lemma_rep_lookup_skip(reps, key@, i as int);
                            assert(reps.skip(i as int)[0] == reps[i as int]);
                        }
                        return Some(&fields[i].1);
                    }
                    i = i + 1;
                }
                proof {
                    lemma_rep_lookup_skip(reps, key@, reps.len() as int);
                    assert(reps.skip(reps.len() as int) =~= Seq::<(Seq<char>, JsonRep)>::empty());
                }
                None
            },
            _ => None,
        }
    }
}

// ----- rendering a tree back to JSON text -----

/// A hexadecimal digit character, lower case.
pub open spec fn hex_digit(d: int) -> char {
    if d < 10 {
        crate::text::dec_digit(d)
    } else if d == 10 {
        'a'
    } else if d == 11 {
        'b'
    } else if d == 12 {
        'c'
    } else if d == 13 {
        'd'
    } else if d == 14 {
        'e'
    } else {
        'f'
    }
}

/// How one character appears inside a JSON string literal: quote and
/// backslash are escaped, control characters become `\u00XX`, everything
/// else stands as itself.
pub open spec fn spec_escape_char(c: char) -> Seq<char> {
    if c == '"' {
        seq!['\\', '"']
    } else if c == '\\' {
        seq!['\\', '\\']
    } else if (c as u32) < 32 {
        seq!['\\', 'u', '0', '0', hex_digit(c as u32 as int / 16), hex_digit(c as u32 as int % 16)]
    } else {
        seq![c]
    }
}

/// A text escaped for a JSON string literal.
pub open spec fn spec_escaped(s: Seq<char>) -> Seq<char>
    decreases s.len(),
{
    if s.len() == 0 {
        Seq::empty()
    } else {
        spec_escaped(s.drop_last()) + spec_escape_char(s.last())
    }
}

/// The JSON text of a document. Strings are escaped as above; a `BigNum`
/// keeps its stored decimal text.
pub open spec fn spec_json_text(r: JsonRep) -> Seq<char>
    decreases r, 0int,
{
    match r {
        JsonRep::Null => "null"@,
        JsonRep::Bool(b) => if b {
            "true"@
        } else {
            "false"@
        },
        JsonRep::Int(i) => spec_int_text(i),
        JsonRep::BigNum(s) => s,
        JsonRep::Text(s) => seq!['"'] + spec_escaped(s) + seq!['"'],
        JsonRep::Array(items) => seq!['['] + spec_join_items(items, items.len() as int) + seq![']'],
        JsonRep::Object(fields) => seq!['{'] + spec_join_fields(fields, fields.len() as int)
            + seq!['}'],
    }
}

/// The decimal text of an integer, with a leading minus where negative.
pub open spec fn spec_int_text(i: int) -> Seq<char> {
    if i >= 0 {
        crate::text::spec_dec(i as nat)
    } else {
        seq!['-'] + crate::text::spec_dec((-i) as nat)
    }
}

/// The comma-joined texts of the first `n` elements of an array.
pub open spec fn spec_join_items(items: Seq<JsonRep>, n: int) -> Seq<char>
    decreases items, n,
{
    if n <= 0 || n > items.len() {
        Seq::empty()
    } else if n == 1 {
        spec_json_text(items[0])
    } else {
        spec_join_items(items, n - 1) + seq![','] + spec_json_text(items[n - 1])
    }
}

/// The comma-joined `"key":value` texts of the first `n` fields of an
/// object.
pub open spec fn spec_field_text(f: (Seq<char>, JsonRep)) -> Seq<char>
    decreases f, 0int,
{
    seq!['"'] + spec_escaped(f.0) + seq!['"', ':'] + spec_json_text(f.1)
}

pub open spec fn spec_join_fields(fields: Seq<(Seq<char>, JsonRep)>, n: int) -> Seq<char>
    decreases fields, n,
{
    if n <= 0 || n > fields.len() {
        Seq::empty()
    } else if n == 1 {
        spec_field_text(fields[0])
    } else {
        spec_join_fields(fields, n - 1) + seq![','] + spec_field_text(fields[n - 1])
    }
}

/// Append the escaped form of `s` to `acc`.
fn escape_into(acc: &mut String, s: &str)
    ensures
        final(acc)@ == old(acc)@ + spec_escaped(s@),
{
    let len = s.unicode_len();
    let mut i: usize = 0;
    while i < len
        invariant
            len == s@.len(),
            i <= len,
            acc@ == old(acc)@ + spec_escaped(s@.take(i as int)),
        decreases len - i,
    {
        let c = s.get_char(i);
        if c == '"' {
            acc.append("\\\"");
            proof {
                reveal_strlit("\\\"");
                assert("\\\""@ =~= seq!['\\', '"']);
            }
        } else if c == '\\' {
            acc.append("\\\\");
            proof {
                reveal_strlit("\\\\");
                assert("\\\\"@ =~= seq!['\\', '\\']);
            }
        } else if (c as u32) < 32 {
            acc.append("\\u00");
            let v = c as u32;
            let hi = crate::text::hex_digit_str((v / 16) as u64);
            acc.append(hi.as_str());
            let lo = crate::text::hex_digit_str((v % 16) as u64);
            acc.append(lo.as_str());
            proof {
                reveal_strlit("\\u00");
                assert("\\u00"@ =~= seq!['\\', 'u', '0', '0']);
            }
        } else {
            let piece = s.substring_char(i, i + 1);
            acc.append(piece);
            proof {
                assert(s@.subrange(i as int, i as int + 1) =~= seq![s@[i as int]]);
            }
        }
        proof {
            assert(s@.take(i as int + 1).drop_last() =~= s@.take(i as int));
            assert(s@.take(i as int + 1).last() == s@[i as int]);
            assert(acc@ =~= old(acc)@ + spec_escaped(s@.take(i as int + 1)));
        }
        i = i + 1;
    }
    proof {
        assert(s@.take(len as int) =~= s@);
    }
}

/// The decimal text of a signed integer.
fn int_to_dec(i: i64) -> (s: String)
    ensures
        s@ == spec_int_text(i as int),
{
    if i >= 0 {
        crate::text::u64_to_dec(i as u64)
    } else {
        let mag: u64 = ((-(i + 1)) as u64) + 1;
        proof {
            assert(mag as int == -(i as int));
        }
        let mut s = String::from_str("-");
        let digits = crate::text::u64_to_dec(mag);
        s.append(digits.as_str());
        proof {
            reveal_strlit("-");
            assert("-"@ =~= seq!['-']);
            assert(s@ =~= spec_int_text(i as int));
        }
        s
    }
}

impl JsonValue {
    /// Render the document as JSON text.
    pub fn to_text(&self) -> (out: String)
        ensures
            out@ == spec_json_text(self@),
        decreases *self,
    {
        match self {
            JsonValue::Null => String::from_str("null"),
            JsonValue::Bool(b) => if *b {
                String::from_str("true")
            } else {
                String::from_str("false")
            },
            JsonValue::Int(i) => int_to_dec(*i),
            JsonValue::BigNum(s) => s.clone(),
            JsonValue::Text(s) => {
                let mut acc = String::from_str("\"");
                proof {
                    reveal_strlit("\"");
                    assert("\""@ =~= seq!['"']);
                }
                escape_into(&mut acc, s.as_str());
                acc.append("\"");
                proof {
                    assert(acc@ =~= seq!['"'] + spec_escaped(s@) + seq!['"']);
                }
                acc
            },
            JsonValue::Array(items) => {
                let ghost reps = json_seq_rep(items@);
                let mut acc = String::from_str("[");
                proof {
                    reveal_strlit("[");
                    assert("["@ =~= seq!['[']);
                    reveal_strlit(",");
                    reveal_strlit("]");
                }
                let mut i: usize = 0;
                while i < items.len()
                    invariant
                        *self == JsonValue::Array(*items),
                        reps == json_seq_rep(items@),
                        reps.len() == items@.len(),
                        i <= items@.len(),
                        acc@ == seq!['['] + spec_join_items(reps, i as int),
                        ","@ == seq![','],
                    decreases items@.len() - i,
                {
                    if i > 0 {
                        acc.append(",");
                    }
                    let item = &items[i];
                    proof {
                        assert(*items == self->Array_0);
                        assert(decreases_to!(*self => self->Array_0));
                        assert(decreases_to!(*items => items@));
                        assert(decreases_to!(items@ => items@[i as int]));
                        assert(decreases_to!(*self => items@[i as int]));
                    }
                    let piece = item.to_text();
                    acc.append(piece.as_str());
                    proof {
                        assert(acc@ =~= seq!['['] + spec_join_items(reps, i as int + 1));
                    }
                    i = i + 1;
                }
                acc.append("]");
                proof {
                    assert("]"@ =~= seq![']']);
                    assert(acc@ =~= spec_json_text(self@));
                }
                acc
            },
            JsonValue::Object(fields) => {
                let ghost reps = json_fields_rep(fields@);
                let mut acc = String::from_str("{");
                proof {
                    reveal_strlit("{");
                    assert("{"@ =~= seq!['{']);
                    reveal_strlit(",");
                    reveal_strlit("\"");
                    reveal_strlit("\":");
                }
                let mut i: usize = 0;
                while i < fields.len()
                    invariant
                        *self == JsonValue::Object(*fields),
                        reps == json_fields_rep(fields@),
                        reps.len() == fields@.len(),
                        i <= fields@.len(),
                        acc@ == seq!['{'] + spec_join_fields(reps, i as int),
                        ","@ == seq![','],
                        "\""@ == seq!['"'],
                        "\":"@ == seq!['"', ':'],
                    decreases fields@.len() - i,
                {
                    if i > 0 {
                        acc.append(",");
                    }
                    acc.append("\"");
                    escape_into(&mut acc, fields[i].0.as_str());
                    acc.append("\":");
                    let item = &fields[i].1;
                    proof {
                        assert(*fields == self->Object_0);
                        assert(decreases_to!(*self => self->Object_0));
                        assert(decreases_to!(*fields => fields@));
                        assert(decreases_to!(fields@ => fields@[i as int]));
                        assert(decreases_to!(fields@[i as int] => fields@[i as int].1));
                        assert(decreases_to!(*self => fields@[i as int].1));
                    }
                    let piece = item.to_text();
                    acc.append(piece.as_str());
                    proof {
                        assert(spec_field_text(reps[i as int]) == seq!['"'] + spec_escaped(
                            fields@[i as int].0@,
                        ) + seq!['"', ':'] + spec_json_text(reps[i as int].1));
                        assert(acc@ =~= seq!['{'] + spec_join_fields(reps, i as int + 1));
                    }
                    i = i + 1;
                }
                acc.append("}");
                proof {
                    reveal_strlit("}");
                    assert("}"@ =~= seq!['}']);
                    assert(acc@ =~= spec_json_text(self@));
                }
                acc
            },
        }
    }
}

} // verus!

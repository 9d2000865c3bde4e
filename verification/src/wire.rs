//! The JSON text of a request body.
//!
//! Strings and integers are rendered by `serde_json`; braces, commas and
//! colons are written here. A floating-point number is not rendered here: it
//! stays in the body as a part of its own, to be replaced by its digits where
//! the request is sent.

use vstd::prelude::*;
use crate::value::{JsonScalar, PropModel, PropValue};

verus! {

/// One item of a body over characters of type `C`: a character of its text,
/// or a floating-point number, given by its bit pattern, whose digits stand
/// at that place.
pub enum Item<C> {
    Char(C),
    Float32(u32),
    Float64(u64),
}

/// One item of a body.
pub type Token = Item<char>;

/// The tokens of a text without numbers to fill in.
pub open spec fn text(s: Seq<char>) -> Seq<Token> {
    Seq::new(s.len(), |i: int| Item::Char(s[i]))
}

/// The digit for `d`, which is below sixteen, in lower case.
pub open spec fn digit_char(d: int) -> char {
    if d == 0 {
        '0'
    } else if d == 1 {
        '1'
    } else if d == 2 {
        '2'
    } else if d == 3 {
        '3'
    } else if d == 4 {
        '4'
    } else if d == 5 {
        '5'
    } else if d == 6 {
        '6'
    } else if d == 7 {
        '7'
    } else if d == 8 {
        '8'
    } else if d == 9 {
        '9'
    } else if d == 10 {
        'a'
    } else if d == 11 {
        'b'
    } else if d == 12 {
        'c'
    } else if d == 13 {
        'd'
    } else if d == 14 {
        'e'
    } else {
        'f'
    }
}

/// The decimal digits of a natural number, without leading zeros.
pub open spec fn decimal_digits(n: nat) -> Seq<char>
    decreases n,
{
    if n < 10 {
        seq![digit_char(n as int)]
    } else {
        decimal_digits(n / 10).push(digit_char((n % 10) as int))
    }
}

/// An integer in decimal, with a minus sign when negative.
pub open spec fn decimal(n: int) -> Seq<char> {
    if n < 0 {
        seq!['-'] + decimal_digits((-n) as nat)
    } else {
        decimal_digits(n as nat)
    }
}

/// How one character stands inside a JSON string.
pub open spec fn escape(c: char) -> Seq<char> {
    if c == '"' {
        seq!['\\', '"']
    } else if c == '\\' {
        seq!['\\', '\\']
    } else if c == '\u{8}' {
        seq!['\\', 'b']
    } else if c == '\u{c}' {
        seq!['\\', 'f']
    } else if c == '\n' {
        seq!['\\', 'n']
    } else if c == '\r' {
        seq!['\\', 'r']
    } else if c == '\t' {
        seq!['\\', 't']
    } else if (c as u32) < 0x20 {
        seq![
            '\\',
            'u',
            '0',
            '0',
            digit_char((c as u32) as int / 16),
            digit_char((c as u32) as int % 16),
        ]
    } else {
        seq![c]
    }
}

/// The characters of a string, each as it stands inside a JSON string.
pub open spec fn escaped(s: Seq<char>) -> Seq<char>
    decreases s.len(),
{
    if s.len() == 0 {
        Seq::empty()
    } else {
        escaped(s.drop_last()) + escape(s.last())
    }
}

/// A string as a JSON string: escaped, between double quotes.
pub open spec fn quoted(s: Seq<char>) -> Seq<char> {
    seq!['"'] + escaped(s) + seq!['"']
}

/// `serde_json::to_string` on a string slice. It writes a double quote, the
/// characters of the string and a double quote. Of the characters, the double
/// quote and the backslash get a backslash in front; backspace, form feed,
/// line feed, carriage return and tab become `\b`, `\f`, `\n`, `\r`, `\t`;
/// the other characters below U+0020 become `\u00` and two lower-case
/// hexadecimal digits; every other character is written as it is. Writing to
/// a string does not fail.
#[verifier::external_body]
fn string_json(s: &str) -> (json: String)
    ensures
        json@ == quoted(s@),
{
    serde_json::to_string(s).unwrap_or_default()
}

/// `serde_json::to_string` on a `u128`: the number in decimal.
#[verifier::external_body]
fn unsigned_json(n: u128) -> (json: String)
    ensures
        json@ == decimal(n as int),
{
    serde_json::to_string(&n).unwrap_or_default()
}

/// `serde_json::to_string` on an `i128`: the number in decimal, with a minus
/// sign when negative.
#[verifier::external_body]
fn signed_json(n: i128) -> (json: String)
    ensures
        json@ == decimal(n as int),
{
    serde_json::to_string(&n).unwrap_or_default()
}

/// A stretch of a body: text that is final, or a floating-point number (its
/// bit pattern, binary32 or binary64) still to be written in digits.
#[derive(Clone, Debug, PartialEq, Eq)]
pub enum BodyPart {
    Text(String),
    Float32(u32),
    Float64(u64),
}

impl BodyPart {
    /// An equal part of its own.
    pub fn duplicate(&self) -> (copy: BodyPart)
        ensures
            copy == *self,
    {
        match self {
            BodyPart::Text(s) => BodyPart::Text(s.clone()),
            BodyPart::Float32(bits) => BodyPart::Float32(*bits),
            BodyPart::Float64(bits) => BodyPart::Float64(*bits),
        }
    }
}

/// The tokens of one part.
pub open spec fn part_tokens(part: BodyPart) -> Seq<Token> {
    match part {
        BodyPart::Text(s) => text(s@),
        BodyPart::Float32(bits) => seq![Item::Float32(bits)],
        BodyPart::Float64(bits) => seq![Item::Float64(bits)],
    }
}

/// The tokens of a body that is held in parts.
pub open spec fn flatten(parts: Seq<BodyPart>) -> Seq<Token>
    decreases parts.len(),
{
    if parts.len() == 0 {
        Seq::empty()
    } else {
        flatten(parts.drop_last()) + part_tokens(parts.last())
    }
}

/// The tokens of two runs of parts, one after the other.
pub proof fn lemma_flatten_concat(a: Seq<BodyPart>, b: Seq<BodyPart>)
    ensures
        flatten(a + b) == flatten(a) + flatten(b),
    decreases b.len(),
{
    if b.len() == 0 {
        assert(a + b =~= a);
        assert(flatten(a) + flatten(b) =~= flatten(a));
    } else {
        assert((a + b).drop_last() =~= a + b.drop_last());
        assert((a + b).last() == b.last());
        lemma_flatten_concat(a, b.drop_last());
        assert(flatten(a + b) =~= flatten(a) + flatten(b));
    }
}

/// The tokens of a single part.
pub proof fn lemma_flatten_one(part: BodyPart)
    ensures
        flatten(seq![part]) == part_tokens(part),
{
    reveal_with_fuel(flatten, 2);
    assert(seq![part].drop_last() =~= Seq::<BodyPart>::empty());
    assert(flatten(seq![part]) =~= part_tokens(part));
}

/// The tokens of a scalar property: a JSON string, `true` or `false`, an
/// integer in decimal, or the floating-point number itself.
pub open spec fn scalar_tokens(value: PropModel) -> Seq<Token> {
    match value {
        PropModel::Text(s) => text(quoted(s)),
        PropModel::Bool(b) => text(
            if b {
                "true"@
            } else {
                "false"@
            },
        ),
        PropModel::F32(bits) => seq![Item::Float32(bits)],
        PropModel::F64(bits) => seq![Item::Float64(bits)],
        _ => text(decimal(value.integer().unwrap())),
    }
}

/// The digits of a number: at least one, each of them a decimal digit, and
/// one alone only for a number below ten.
pub proof fn lemma_decimal_digits(n: nat)
    ensures
        decimal_digits(n).len() >= 1,
        decimal_digits(n).len() == 1 <==> n < 10,
        forall|i: int|
            0 <= i < decimal_digits(n).len() ==> '0' <= #[trigger] decimal_digits(n)[i] <= '9',
    decreases n,
{
    if n >= 10 {
        lemma_decimal_digits(n / 10);
    }
}

/// Two numbers with the same digits are one number.
pub proof fn lemma_decimal_digits_injective(a: nat, b: nat)
    requires
        decimal_digits(a) == decimal_digits(b),
    ensures
        a == b,
    decreases a,
{
    lemma_decimal_digits(a);
    lemma_decimal_digits(b);
    if a < 10 {
        assert(b < 10);
        assert(decimal_digits(a)[0] == digit_char(a as int));
        assert(decimal_digits(b)[0] == digit_char(b as int));
    } else {
        assert(b >= 10);
        let da = decimal_digits(a / 10);
        let db = decimal_digits(b / 10);
        assert(decimal_digits(a).last() == digit_char((a % 10) as int));
        assert(decimal_digits(b).last() == digit_char((b % 10) as int));
        assert(a % 10 == b % 10);
        assert(decimal_digits(a).drop_last() =~= da);
        assert(decimal_digits(b).drop_last() =~= db);
        lemma_decimal_digits_injective(a / 10, b / 10);
    }
}

/// Two integers with the same decimal text are one integer.
pub proof fn lemma_decimal_injective(a: int, b: int)
    requires
        decimal(a) == decimal(b),
    ensures
        a == b,
{
    let na = (if a < 0 { -a } else { a }) as nat;
    let nb = (if b < 0 { -b } else { b }) as nat;
    lemma_decimal_digits(na);
    lemma_decimal_digits(nb);
    assert(decimal(a)[0] == decimal(b)[0]);
    if a < 0 {
        assert(decimal(a)[0] == '-');
        if b >= 0 {
            assert(decimal(b)[0] == decimal_digits(nb)[0]);
        }
        assert(decimal_digits(na) =~= decimal(a).skip(1));
        assert(decimal_digits(nb) =~= decimal(b).skip(1));
    } else {
        assert(decimal(a)[0] == decimal_digits(na)[0]);
        if b < 0 {
            assert(decimal(b)[0] == '-');
        }
    }
    lemma_decimal_digits_injective(na, nb);
}

/// The escaped text of a string begins with its first character escaped.
pub proof fn lemma_escaped_front(s: Seq<char>)
    requires
        s.len() > 0,
    ensures
        escaped(s) == escape(s[0]) + escaped(s.skip(1)),
    decreases s.len(),
{
    if s.len() == 1 {
        assert(s.drop_last() =~= Seq::<char>::empty());
        assert(s.skip(1) =~= Seq::<char>::empty());
        assert(escaped(s.drop_last()) =~= Seq::<char>::empty());
        assert(escaped(s) =~= escape(s[0]) + escaped(s.skip(1)));
    } else {
        let front = s.drop_last();
        lemma_escaped_front(front);
        assert(front.skip(1) =~= s.skip(1).drop_last());
        assert(s.skip(1).last() == s.last());
        assert(front[0] == s[0]);
        assert(escaped(s) =~= escape(s[0]) + escaped(s.skip(1)));
    }
}

/// No escaped character is the beginning of another: where two texts that
/// begin with an escaped character are equal, the characters are equal and
/// so is what follows them.
pub proof fn lemma_escape_prefix(c: char, d: char, x: Seq<char>, y: Seq<char>)
    requires
        escape(c) + x == escape(d) + y,
    ensures
        c == d,
        x == y,
{
    let ec = escape(c);
    let ed = escape(d);
    let l = ec + x;
    let r = ed + y;
    assert(forall|i: int| 0 <= i < ec.len() ==> l[i] == ec[i]);
    assert(forall|i: int| 0 <= i < ed.len() ==> r[i] == ed[i]);
    assert(l[0] == r[0]);
    if ec.len() == 1 {
        assert(ec[0] == c);
        assert(ed[0] == c);
    } else {
        assert(ec[0] == '\\');
        assert(ed[0] == '\\');
        assert(ed.len() >= 2);
        assert(l[1] == r[1]);
        if ec[1] == 'u' {
            assert(ed[1] == 'u');
            assert(l[4] == r[4]);
            assert(l[5] == r[5]);
            let cn = (c as u32) as int;
            let dn = (d as u32) as int;
            assert(digit_char(cn / 16) == digit_char(dn / 16));
            assert(digit_char(cn % 16) == digit_char(dn % 16));
            assert(cn == dn);
        }
    }
    assert(c == d);
    assert(x =~= l.skip(ec.len() as int));
    assert(y =~= r.skip(ec.len() as int));
}

/// Two strings with the same escaped text are one string.
pub proof fn lemma_escaped_injective(s: Seq<char>, t: Seq<char>)
    requires
        escaped(s) == escaped(t),
    ensures
        s == t,
    decreases s.len(),
{
    if s.len() == 0 {
        if t.len() > 0 {
            lemma_escaped_front(t);
            assert(escape(t[0]).len() >= 1);
        }
        assert(s =~= t);
    } else {
        lemma_escaped_front(s);
        assert(escape(s[0]).len() >= 1);
        if t.len() > 0 {
            lemma_escaped_front(t);
            lemma_escape_prefix(s[0], t[0], escaped(s.skip(1)), escaped(t.skip(1)));
            lemma_escaped_injective(s.skip(1), t.skip(1));
            assert(s =~= seq![s[0]] + s.skip(1));
            assert(t =~= seq![t[0]] + t.skip(1));
        }
    }
}

/// Two strings with the same JSON string are one string.
pub proof fn lemma_quoted_injective(s: Seq<char>, t: Seq<char>)
    requires
        quoted(s) == quoted(t),
    ensures
        s == t,
{
    assert(escaped(s) =~= quoted(s).subrange(1, quoted(s).len() - 1));
    assert(escaped(t) =~= quoted(t).subrange(1, quoted(t).len() - 1));
    lemma_escaped_injective(s, t);
}

/// Two texts with the same tokens are one text.
pub proof fn lemma_text_injective(a: Seq<char>, b: Seq<char>)
    requires
        text(a) == text(b),
    ensures
        a == b,
{
    assert(a.len() == text(a).len());
    assert(b.len() == text(b).len());
    assert forall|i: int| 0 <= i < a.len() implies a[i] == b[i] by {
        assert(text(a)[i] == Item::Char(a[i]));
        assert(text(b)[i] == Item::Char(b[i]));
    }
    assert(a =~= b);
}

/// What is sent for a scalar tells which scalar it was: two values that are
/// sent alike are the same string, the same boolean or the same number. A
/// reader of the body can therefore get back a value equal to the one that
/// was sent, up to the width of an integer, which JSON does not record.
pub proof fn lemma_scalar_tokens_injective(a: PropModel, b: PropModel)
    requires
        scalar_tokens(a) == scalar_tokens(b),
    ensures
        a.json_value() == b.json_value(),
{
    reveal_strlit("true");
    reveal_strlit("false");
    let ta = scalar_tokens(a);
    let tb = scalar_tokens(b);
    assert(ta.len() >= 1 && tb.len() >= 1) by {
        if let Some(n) = a.integer() {
            lemma_decimal_digits((if n < 0 { -n } else { n }) as nat);
        }
        if let Some(n) = b.integer() {
            lemma_decimal_digits((if n < 0 { -n } else { n }) as nat);
        }
    }
    assert(ta[0] == tb[0]);
    assert(a.integer() matches Some(n) ==> (ta[0] == Item::Char('-') || exists|c: char|
        '0' <= c <= '9' && ta[0] == Item::Char(c))) by {
        if let Some(n) = a.integer() {
            let m = (if n < 0 { -n } else { n }) as nat;
            lemma_decimal_digits(m);
            if n >= 0 {
                assert(ta[0] == Item::Char(decimal_digits(m)[0]));
            }
        }
    }
    assert(b.integer() matches Some(n) ==> (tb[0] == Item::Char('-') || exists|c: char|
        '0' <= c <= '9' && tb[0] == Item::Char(c))) by {
        if let Some(n) = b.integer() {
            let m = (if n < 0 { -n } else { n }) as nat;
            lemma_decimal_digits(m);
            if n >= 0 {
                assert(tb[0] == Item::Char(decimal_digits(m)[0]));
            }
        }
    }
    match a {
        PropModel::Text(s) => {
            assert(ta[0] == Item::Char('"'));
            match b {
                PropModel::Text(t) => {
                    lemma_text_injective(quoted(s), quoted(t));
                    lemma_quoted_injective(s, t);
                },
                _ => {},
            }
        },
        PropModel::Bool(x) => {
            assert(ta[0] == Item::Char('t') || ta[0] == Item::Char('f'));
            match b {
                PropModel::Bool(y) => {
                    assert(ta[0] == Item::Char(if x { 't' } else { 'f' }));
                    assert(tb[0] == Item::Char(if y { 't' } else { 'f' }));
                },
                _ => {},
            }
        },
        PropModel::F32(bits) => {},
        PropModel::F64(bits) => {},
        _ => {
            let n = a.integer().unwrap();
            if let Some(m) = b.integer() {
                lemma_text_injective(decimal(n), decimal(m));
                lemma_decimal_injective(n, m);
            }
        },
    }
}

/// The fields of an object: each a key with the tokens of its value.
pub type Fields = Seq<(Seq<char>, Seq<Token>)>;

/// A member of an object: the key as a JSON string, a colon, the value.
pub open spec fn member(field: (Seq<char>, Seq<Token>)) -> Seq<Token> {
    text(quoted(field.0)) + text(":"@) + field.1
}

/// The members of `fields`, with a comma between each two.
pub open spec fn members(fields: Fields) -> Seq<Token>
    decreases fields.len(),
{
    if fields.len() == 0 {
        Seq::empty()
    } else if fields.len() == 1 {
        member(fields[0])
    } else {
        members(fields.drop_last()) + text(","@) + member(fields.last())
    }
}

/// A JSON object with the given fields, in their order, without white space.
pub open spec fn object(fields: Fields) -> Seq<Token> {
    text("{"@) + members(fields) + text("}"@)
}

/// What a list of fields held in parts stands for.
pub open spec fn fields_model(fields: Seq<(String, Vec<BodyPart>)>) -> Fields {
    Seq::new(fields.len(), |i: int| (fields[i].0@, flatten(fields[i].1@)))
}

/// The body that is the one text `s`.
pub fn text_part(s: &str) -> (parts: Vec<BodyPart>)
    ensures
        flatten(parts@) == text(s@),
{
    let mut parts: Vec<BodyPart> = Vec::new();
    parts.push(BodyPart::Text(s.to_owned()));
    proof {
        assert(parts@ =~= seq![parts@[0]]);
        lemma_flatten_one(parts@[0]);
    }
    parts
}

/// A string as a JSON string.
pub fn string_parts(s: &str) -> (parts: Vec<BodyPart>)
    ensures
        flatten(parts@) == text(quoted(s@)),
{
    let json = string_json(s);
    text_part(json.as_str())
}

/// A natural number in decimal.
pub fn number_parts(n: usize) -> (parts: Vec<BodyPart>)
    ensures
        flatten(parts@) == text(decimal(n as int)),
{
    let json = unsigned_json(n as u128);
    text_part(json.as_str())
}

/// A scalar property as a JSON scalar: a string as a JSON string, a boolean
/// as `true` or `false`, an integer in decimal. A floating-point number is
/// handed on as it is.
pub fn scalar_parts(value: &PropValue) -> (parts: Vec<BodyPart>)
    ensures
        flatten(parts@) == scalar_tokens(value@),
{
    let json = match value {
        PropValue::String(s) => string_json(s.as_str()),
        PropValue::Bool(b) => if *b {
            "true".to_owned()
        } else {
            "false".to_owned()
        },
        PropValue::U8(n) => unsigned_json(*n as u128),
        PropValue::U16(n) => unsigned_json(*n as u128),
        PropValue::U32(n) => unsigned_json(*n as u128),
        PropValue::U64(n) => unsigned_json(*n as u128),
        PropValue::U128(n) => unsigned_json(*n),
        PropValue::Usize(n) => unsigned_json(*n as u128),
        PropValue::I8(n) => signed_json(*n as i128),
        PropValue::I16(n) => signed_json(*n as i128),
        PropValue::I32(n) => signed_json(*n as i128),
        PropValue::I64(n) => signed_json(*n as i128),
        PropValue::I128(n) => signed_json(*n),
        PropValue::Isize(n) => signed_json(*n as i128),
        PropValue::F32(bits) => {
            let mut parts: Vec<BodyPart> = Vec::new();
            parts.push(BodyPart::Float32(*bits));
            proof {
                assert(parts@ =~= seq![parts@[0]]);
                lemma_flatten_one(parts@[0]);
            }
            return parts;
        },
        PropValue::F64(bits) => {
            let mut parts: Vec<BodyPart> = Vec::new();
            parts.push(BodyPart::Float64(*bits));
            proof {
                assert(parts@ =~= seq![parts@[0]]);
                lemma_flatten_one(parts@[0]);
            }
            return parts;
        },
    };
    text_part(json.as_str())
}

/// Adds `more` at the end of `out`.
fn extend(out: &mut Vec<BodyPart>, more: Vec<BodyPart>)
    ensures
        flatten(final(out)@) == flatten(old(out)@) + flatten(more@),
{
    let mut more = more;
    proof {
        lemma_flatten_concat(out@, more@);
    }
    out.append(&mut more);
}

/// Adds a copy of `more` at the end of `out`.
fn extend_copy(out: &mut Vec<BodyPart>, more: &Vec<BodyPart>)
    ensures
        flatten(final(out)@) == flatten(old(out)@) + flatten(more@),
{
    let mut copy: Vec<BodyPart> = Vec::new();
    let mut k: usize = 0;
    while k < more.len()
        invariant
            k <= more.len(),
            copy@ == more@.take(k as int),
        decreases more.len() - k,
    {
        copy.push(more[k].duplicate());
        assert(copy@ =~= more@.take(k as int + 1));
        k += 1;
    }
    assert(copy@ =~= more@);
    extend(out, copy);
}

/// Adds the text `s` at the end of `out`.
fn extend_text(out: &mut Vec<BodyPart>, s: &str)
    ensures
        flatten(final(out)@) == flatten(old(out)@) + text(s@),
{
    extend(out, text_part(s));
}

/// The JSON object with the given fields, in their order.
pub fn object_parts(fields: &Vec<(String, Vec<BodyPart>)>) -> (parts: Vec<BodyPart>)
    ensures
        flatten(parts@) == object(fields_model(fields@)),
{
    let ghost model = fields_model(fields@);
    let mut out = text_part("{");
    let mut i: usize = 0;
    while i < fields.len()
        invariant
            i <= fields.len(),
            model == fields_model(fields@),
            flatten(out@) == text("{"@) + members(model.take(i as int)),
        decreases fields.len() - i,
    {
        let ghost before = flatten(out@);
        if i > 0 {
            extend_text(&mut out, ",");
        }
        extend(&mut out, string_parts(fields[i].0.as_str()));
        extend_text(&mut out, ":");
        extend_copy(&mut out, &fields[i].1);
        proof {
            let upto = model.take(i as int + 1);
            assert(upto.drop_last() =~= model.take(i as int));
            assert(upto.last() == model[i as int]);
            assert(flatten(out@) =~= text("{"@) + members(upto));
        }
        i += 1;
    }
    assert(model.take(i as int) =~= model);
    extend_text(&mut out, "}");
    assert(flatten(out@) =~= object(model));
    out
}

} // verus!

//! Rendering of the engine's JSON wire format.
//!
//! Schema descriptors and presence-tracked documents are framed here by
//! verified string building: keys of untouched fields are omitted entirely,
//! never written as `null`.

use vstd::prelude::*;

use crate::field_state::FieldState;

verus! {

/// The decimal digit character for `d`.
pub open spec fn digit_char(d: int) -> char {
    if d == 0 {
        '0'
    } else if d == 1 {
        '1'
    } else if d == 2 {
        '2'
    } else if d == 3 {
        '3'
    } else if d == 4 {
        '4'
    } else if d == 5 {
        '5'
    } else if d == 6 {
        '6'
    } else if d == 7 {
        '7'
    } else if d == 8 {
        '8'
    } else {
        '9'
    }
}

/// The decimal rendering of `n`, most significant digit first.
pub open spec fn dec_digits(n: nat) -> Seq<char>
    decreases n,
{
    if n < 10 {
        seq![digit_char(n as int)]
    } else {
        dec_digits(n / 10).push(digit_char((n % 10) as int))
    }
}

/// The decimal rendering of a signed number: a minus sign, then the digits.
pub open spec fn dec_signed(n: int) -> Seq<char> {
    if n < 0 {
        seq!['-'] + dec_digits((-n) as nat)
    } else {
        dec_digits(n as nat)
    }
}

/// The lower-case hexadecimal digit character for `d`.
pub open spec fn hex_char(d: int) -> char {
    if d < 10 {
        digit_char(d)
    } else if d == 10 {
        'a'
    } else if d == 11 {
        'b'
    } else if d == 12 {
        'c'
    } else if d == 13 {
        'd'
    } else if d == 14 {
        'e'
    } else {
        'f'
    }
}

/// How one character appears inside a JSON string literal: quotes and
/// backslashes are escaped, control characters take their short escape or
/// the `\u00XX` form, and every other character stands for itself.
pub open spec fn json_escaped_char(c: char) -> Seq<char> {
    if c == '"' {
        seq!['\\', '"']
    } else if c == '\\' {
        seq!['\\', '\\']
    } else if c == '\u{8}' {
        seq!['\\', 'b']
    } else if c == '\t' {
        seq!['\\', 't']
    } else if c == '\n' {
        seq!['\\', 'n']
    } else if c == '\u{c}' {
        seq!['\\', 'f']
    } else if c == '\r' {
        seq!['\\', 'r']
    } else if (c as int) < 32 {
        seq!['\\', 'u', '0', '0', hex_char(c as int / 16), hex_char(c as int % 16)]
    } else {
        seq![c]
    }
}

/// The escaped form of a whole string, character by character.
pub open spec fn json_escaped(s: Seq<char>) -> Seq<char>
    decreases s.len(),
{
    if s.len() == 0 {
        Seq::<char>::empty()
    } else {
        json_escaped_char(s[0]) + json_escaped(s.drop_first())
    }
}

/// Escaping a string one character longer escapes the extra character at the end.
pub proof fn lemma_json_escaped_push(s: Seq<char>, c: char)
    ensures
        json_escaped(s.push(c)) == json_escaped(s) + json_escaped_char(c),
    decreases s.len(),
{
    if s.len() == 0 {
        assert(s.push(c)[0] == c);
        assert(s.push(c).drop_first() =~= Seq::<char>::empty());
        assert(json_escaped(Seq::<char>::empty()) =~= Seq::<char>::empty());
        assert(json_escaped_char(c) + Seq::<char>::empty() =~= json_escaped_char(c));
        assert(Seq::<char>::empty() + json_escaped_char(c) =~= json_escaped_char(c));
        assert(json_escaped(s.push(c)) =~= json_escaped(s) + json_escaped_char(c));
    } else {
        assert(s.push(c).drop_first() =~= s.drop_first().push(c));
        lemma_json_escaped_push(s.drop_first(), c);
        assert(json_escaped(s.push(c)) =~= json_escaped(s) + json_escaped_char(c));
    }
}

/// A JSON string literal: the escaped text between double quotes.
pub open spec fn spec_json_string(s: Seq<char>) -> Seq<char> {
    seq!['"'] + json_escaped(s) + seq!['"']
}

/// The JSON rendering of a boolean.
pub open spec fn spec_json_bool(b: bool) -> Seq<char> {
    if b {
        "true"@
    } else {
        "false"@
    }
}

/// Relies on `String::push`: appends exactly the given character.
#[verifier::external_body]
pub(crate) fn push_char(s: &mut String, c: char)
    ensures
        final(s)@ == old(s)@.push(c),
{
    s.push(c);
}

/// The character for a decimal digit.
fn digit_to_char(d: u8) -> (r: char)
    requires
        d < 10,
    ensures
        r == digit_char(d as int),
{
    match d {
        0 => '0',
        1 => '1',
        2 => '2',
        3 => '3',
        4 => '4',
        5 => '5',
        6 => '6',
        7 => '7',
        8 => '8',
        _ => '9',
    }
}

/// The character for a hexadecimal digit.
fn hex_to_char(d: u8) -> (r: char)
    requires
        d < 16,
    ensures
        r == hex_char(d as int),
{
    if d < 10 {
        digit_to_char(d)
    } else {
        match d {
            10 => 'a',
            11 => 'b',
            12 => 'c',
            13 => 'd',
            14 => 'e',
            _ => 'f',
        }
    }
}

/// Renders `n` in decimal.
pub fn fmt_u64(n: u64) -> (r: String)
    ensures
        r@ == dec_digits(n as nat),
    decreases n,
{
    let d = (n % 10) as u8;
    if n < 10 {
        let mut s = String::new();
        push_char(&mut s, digit_to_char(d));
        s
    } else {
        let mut s = fmt_u64(n / 10);
        push_char(&mut s, digit_to_char(d));
        s
    }
}

/// Renders `n` in decimal, with a leading minus sign when negative.
pub fn fmt_i64(n: i64) -> (r: String)
    ensures
        r@ == dec_signed(n as int),
{
    if n < 0 {
        let magnitude = (-(n as i128)) as u64;
        let mut s = String::new();
        push_char(&mut s, '-');
        let digits = fmt_u64(magnitude);
        s.append(digits.as_str());
        assert(s@ =~= dec_signed(n as int));
        s
    } else {
        fmt_u64(n as u64)
    }
}

/// Appends the escaped form of one character.
fn append_escaped_char(buf: &mut String, c: char)
    ensures
        final(buf)@ == old(buf)@ + json_escaped_char(c),
{
    let code = c as u32;
    if c == '"' {
        push_char(buf, '\\');
        push_char(buf, '"');
    } else if c == '\\' {
        push_char(buf, '\\');
        push_char(buf, '\\');
    } else if code == 8 {
        push_char(buf, '\\');
        push_char(buf, 'b');
    } else if code == 9 {
        push_char(buf, '\\');
        push_char(buf, 't');
    } else if code == 10 {
        push_char(buf, '\\');
        push_char(buf, 'n');
    } else if code == 12 {
        push_char(buf, '\\');
        push_char(buf, 'f');
    } else if code == 13 {
        push_char(buf, '\\');
        push_char(buf, 'r');
    } else if code < 32 {
        push_char(buf, '\\');
        push_char(buf, 'u');
        push_char(buf, '0');
        push_char(buf, '0');
        push_char(buf, hex_to_char((code / 16) as u8));
        push_char(buf, hex_to_char((code % 16) as u8));
    } else {
        push_char(buf, c);
    }
    assert(final(buf)@ =~= old(buf)@ + json_escaped_char(c));
}

/// Escapes every character of `s` for use inside a JSON string literal.
pub fn escape_json(s: &str) -> (r: String)
    ensures
        r@ == json_escaped(s@),
{
    let len = s.unicode_len();
    let mut buf = String::new();
    let mut i: usize = 0;
    while i < len
        invariant
            i <= len,
            len == s@.len(),
            buf@ == json_escaped(s@.subrange(0, i as int)),
        decreases len - i,
    {
        let c = s.get_char(i);
        proof {
            assert(s@.subrange(0, i as int).push(c) =~= s@.subrange(0, i + 1 as int));
            lemma_json_escaped_push(s@.subrange(0, i as int), c);
        }
        append_escaped_char(&mut buf, c);
        i = i + 1;
    }
    proof {
        assert(s@.subrange(0, len as int) =~= s@);
    }
    buf
}

/// Renders `s` as a JSON string literal, quotes included.
pub fn json_quote(s: &str) -> (r: String)
    ensures
        r@ == spec_json_string(s@),
{
    let mut buf = String::new();
    push_char(&mut buf, '"');
    let escaped = escape_json(s);
    buf.append(escaped.as_str());
    push_char(&mut buf, '"');
    assert(buf@ =~= spec_json_string(s@));
    buf
}

/// One `"key":value` member of a JSON object.
pub open spec fn spec_json_member(key: Seq<char>, value: Seq<char>) -> Seq<char> {
    spec_json_string(key) + seq![':'] + value
}

/// The members of a JSON object, comma-separated, without the braces.
pub open spec fn spec_json_members(pairs: Seq<(Seq<char>, Seq<char>)>) -> Seq<char>
    decreases pairs.len(),
{
    if pairs.len() == 0 {
        Seq::<char>::empty()
    } else if pairs.len() == 1 {
        spec_json_member(pairs[0].0, pairs[0].1)
    } else {
        spec_json_members(pairs.drop_last()) + seq![','] + spec_json_member(
            pairs.last().0,
            pairs.last().1,
        )
    }
}

/// A whole JSON object over its members.
pub open spec fn spec_json_object(pairs: Seq<(Seq<char>, Seq<char>)>) -> Seq<char> {
    seq!['{'] + spec_json_members(pairs) + seq!['}']
}

/// The elements of a JSON array, comma-separated, without the brackets.
pub open spec fn spec_json_elements(elems: Seq<Seq<char>>) -> Seq<char>
    decreases elems.len(),
{
    if elems.len() == 0 {
        Seq::<char>::empty()
    } else if elems.len() == 1 {
        elems[0]
    } else {
        spec_json_elements(elems.drop_last()) + seq![','] + elems.last()
    }
}

/// A whole JSON array over its rendered elements.
pub open spec fn spec_json_array(elems: Seq<Seq<char>>) -> Seq<char> {
    seq!['['] + spec_json_elements(elems) + seq![']']
}

/// An incrementally written JSON object.
///
/// Keeps the members written so far; a presence-tracked field that is
/// untouched is simply never written, so it leaves no key behind.
pub struct JsonObject {
    body: String,
    empty: bool,
    pairs: Ghost<Seq<(Seq<char>, Seq<char>)>>,
}

impl JsonObject {
    /// The members written so far, as (key, rendered value) pairs.
    pub closed spec fn pairs(self) -> Seq<(Seq<char>, Seq<char>)> {
        self.pairs@
    }

    /// The accumulated text matches the members written so far.
    pub closed spec fn wf(self) -> bool {
        &&& self.body@ == spec_json_members(self.pairs@)
        &&& (self.empty <==> self.pairs@.len() == 0)
    }

    pub fn new() -> (r: Self)
        ensures
            r.wf(),
            r.pairs() == Seq::<(Seq<char>, Seq<char>)>::empty(),
    {
        Self { body: String::new(), empty: true, pairs: Ghost(Seq::empty()) }
    }

    /// Writes one member whose value is already rendered JSON.
    pub fn member_raw(&mut self, key: &str, value: &str)
        requires
            old(self).wf(),
        ensures
            final(self).wf(),
            final(self).pairs() == old(self).pairs().push((key@, value@)),
    {
        proof {
            if self.pairs@.len() > 0 {
                assert(self.pairs@.push((key@, value@)).drop_last() =~= self.pairs@);
            }
        }
        if !self.empty {
            push_char(&mut self.body, ',');
        }
        let quoted = json_quote(key);
        self.body.append(quoted.as_str());
        push_char(&mut self.body, ':');
        self.body.append(value);
        self.empty = false;
        proof {
            self.pairs@ = self.pairs@.push((key@, value@));
            if self.pairs@.len() == 1 {
                assert(self.body@ =~= spec_json_members(self.pairs@));
            } else {
                assert(self.body@ =~= spec_json_members(self.pairs@));
            }
        }
    }

    /// Writes one member with a string value.
    pub fn member_str(&mut self, key: &str, value: &str)
        requires
            old(self).wf(),
        ensures
            final(self).wf(),
            final(self).pairs() == old(self).pairs().push((key@, spec_json_string(value@))),
    {
        let rendered = json_quote(value);
        self.member_raw(key, rendered.as_str());
    }

    /// Writes one member with an unsigned number value.
    pub fn member_u64(&mut self, key: &str, value: u64)
        requires
            old(self).wf(),
        ensures
            final(self).wf(),
            final(self).pairs() == old(self).pairs().push((key@, dec_digits(value as nat))),
    {
        let rendered = fmt_u64(value);
        self.member_raw(key, rendered.as_str());
    }

    /// Writes one member with a signed number value.
    pub fn member_i64(&mut self, key: &str, value: i64)
        requires
            old(self).wf(),
        ensures
            final(self).wf(),
            final(self).pairs() == old(self).pairs().push((key@, dec_signed(value as int))),
    {
        let rendered = fmt_i64(value);
        self.member_raw(key, rendered.as_str());
    }

    /// Writes one member with a boolean value.
    pub fn member_bool(&mut self, key: &str, value: bool)
        requires
            old(self).wf(),
        ensures
            final(self).wf(),
            final(self).pairs() == old(self).pairs().push((key@, spec_json_bool(value))),
    {
        if value {
            self.member_raw(key, "true");
        } else {
            self.member_raw(key, "false");
        }
    }

    /// Writes one member with a null value.
    pub fn member_null(&mut self, key: &str)
        requires
            old(self).wf(),
        ensures
            final(self).wf(),
            final(self).pairs() == old(self).pairs().push((key@, "null"@)),
    {
        self.member_raw(key, "null");
    }

    /// Closes the object. An object with no members renders as `{}`.
    pub fn finish(self) -> (r: String)
        requires
            self.wf(),
        ensures
            r@ == spec_json_object(self.pairs()),
    {
        let mut buf = String::new();
        push_char(&mut buf, '{');
        buf.append(self.body.as_str());
        push_char(&mut buf, '}');
        assert(buf@ =~= spec_json_object(self.pairs@));
        buf
    }
}

/// Joins already rendered JSON values into a JSON array.
pub fn json_array(elems: &Vec<String>) -> (r: String)
    ensures
        r@ == spec_json_array(elems.deep_view()),
{
    let ghost all = elems.deep_view();
    let mut buf = String::new();
    push_char(&mut buf, '[');
    let mut i: usize = 0;
    while i < elems.len()
        invariant
            i <= elems.len(),
            all == elems.deep_view(),
            all.len() == elems.len(),
            forall|j: int| 0 <= j < all.len() ==> all[j] == elems@[j]@,
            buf@ == seq!['['] + spec_json_elements(all.subrange(0, i as int)),
        decreases elems.len() - i,
    {
        proof {
            assert(all.subrange(0, i + 1 as int).drop_last() =~= all.subrange(0, i as int));
            assert(all.subrange(0, i + 1 as int).last() == all[i as int]);
        }
        if i > 0 {
            push_char(&mut buf, ',');
        }
        buf.append(elems[i].as_str());
        proof {
            if i == 0 {
                assert(all.subrange(0, 1).len() == 1);
                assert(buf@ =~= seq!['['] + spec_json_elements(all.subrange(0, i + 1 as int)));
            } else {
                assert(buf@ =~= seq!['['] + spec_json_elements(all.subrange(0, i + 1 as int)));
            }
        }
        i = i + 1;
    }
    push_char(&mut buf, ']');
    proof {
        assert(all.subrange(0, all.len() as int) =~= all);
        assert(buf@ =~= spec_json_array(all));
    }
    buf
}

/// A JSON object with no members renders as exactly `{}`: a document whose
/// presence-tracked fields are all untouched leaves no keys behind.
pub proof fn lemma_empty_object_renders_empty()
    ensures
        spec_json_object(Seq::<(Seq<char>, Seq<char>)>::empty()) == "{}"@,
{
    reveal_strlit("{}");
    assert(spec_json_object(Seq::<(Seq<char>, Seq<char>)>::empty()) =~= "{}"@);
}

impl JsonObject {
    /// Writes a presence-tracked string field: a set value becomes a string
    /// member, an untouched field leaves the object exactly as it was.
    pub fn field_str(&mut self, key: &str, st: &FieldState<String>)
        requires
            old(self).wf(),
        ensures
            final(self).wf(),
            *st matches FieldState::Assigned(v) ==> final(self).pairs() == old(self).pairs().push(
                (key@, spec_json_string(v@)),
            ),
            *st is NotSet ==> final(self).pairs() == old(self).pairs(),
    {
        if let FieldState::Assigned(v) = st {
            self.member_str(key, v.as_str());
        }
    }

    /// Writes a presence-tracked unsigned number field; an untouched field
    /// leaves the object exactly as it was.
    pub fn field_u64(&mut self, key: &str, st: &FieldState<u64>)
        requires
            old(self).wf(),
        ensures
            final(self).wf(),
            *st matches FieldState::Assigned(v) ==> final(self).pairs() == old(self).pairs().push(
                (key@, dec_digits(v as nat)),
            ),
            *st is NotSet ==> final(self).pairs() == old(self).pairs(),
    {
        if let FieldState::Assigned(v) = st {
            self.member_u64(key, *v);
        }
    }

    /// Writes a presence-tracked signed number field; an untouched field
    /// leaves the object exactly as it was.
    pub fn field_i64(&mut self, key: &str, st: &FieldState<i64>)
        requires
            old(self).wf(),
        ensures
            final(self).wf(),
            *st matches FieldState::Assigned(v) ==> final(self).pairs() == old(self).pairs().push(
                (key@, dec_signed(v as int)),
            ),
            *st is NotSet ==> final(self).pairs() == old(self).pairs(),
    {
        if let FieldState::Assigned(v) = st {
            self.member_i64(key, *v);
        }
    }

    /// Writes a presence-tracked boolean field; an untouched field leaves
    /// the object exactly as it was.
    pub fn field_bool(&mut self, key: &str, st: &FieldState<bool>)
        requires
            old(self).wf(),
        ensures
            final(self).wf(),
            *st matches FieldState::Assigned(v) ==> final(self).pairs() == old(self).pairs().push(
                (key@, spec_json_bool(v)),
            ),
            *st is NotSet ==> final(self).pairs() == old(self).pairs(),
    {
        if let FieldState::Assigned(v) = st {
            self.member_bool(key, *v);
        }
    }

    /// Writes a presence-tracked optional string field: setting the field
    /// to an absent value — explicitly clearing it — writes a `null`
    /// member, while an untouched field writes nothing at all.
    pub fn field_opt_str(&mut self, key: &str, st: &FieldState<Option<String>>)
        requires
            old(self).wf(),
        ensures
            final(self).wf(),
            *st matches FieldState::Assigned(v) ==> final(self).pairs() == old(self).pairs().push(
                (
                    key@,
                    match v {
                        Some(s) => spec_json_string(s@),
                        None => "null"@,
                    },
                ),
            ),
            *st is NotSet ==> final(self).pairs() == old(self).pairs(),
    {
        if let FieldState::Assigned(v) = st {
            match v {
                Some(s) => self.member_str(key, s.as_str()),
                None => self.member_null(key),
            }
        }
    }

    /// Writes a presence-tracked optional unsigned number field; an
    /// explicitly cleared value writes `null`, an untouched field nothing.
    pub fn field_opt_u64(&mut self, key: &str, st: &FieldState<Option<u64>>)
        requires
            old(self).wf(),
        ensures
            final(self).wf(),
            *st matches FieldState::Assigned(v) ==> final(self).pairs() == old(self).pairs().push(
                (
                    key@,
                    match v {
                        Some(n) => dec_digits(n as nat),
                        None => "null"@,
                    },
                ),
            ),
            *st is NotSet ==> final(self).pairs() == old(self).pairs(),
    {
        if let FieldState::Assigned(v) = st {
            match v {
                Some(n) => self.member_u64(key, *n),
                None => self.member_null(key),
            }
        }
    }
}

} // verus!

//! JSON text as the API writes it, with serde_json: objects whose members are
//! kept ordered by key (the order of a map with string keys), written without
//! spaces. The spec functions here state that text; serde_json writes it.

use vstd::prelude::*;
use crate::text::dec;

verus! {

/// The lower case hexadecimal digit of `d`, for `d` below 16.
pub open spec fn hex_digit(d: int) -> char {
    if d < 10 { (48 + d) as char } else { (87 + d) as char }
}

/// How a character is written inside a JSON string: the quote and the
/// backslash after a backslash; backspace, tab, line feed, form feed and
/// carriage return as `\b`, `\t`, `\n`, `\f`, `\r`; the other characters
/// below U+0020 as `\u00` and two hexadecimal digits; any other character as
/// itself.
pub open spec fn escape_char(c: char) -> Seq<char> {
    if c == '"' {
        seq!['\\', '"']
    } else if c == '\\' {
        seq!['\\', '\\']
    } else if c == '\u{8}' {
        seq!['\\', 'b']
    } else if c == '\t' {
        seq!['\\', 't']
    } else if c == '\n' {
        seq!['\\', 'n']
    } else if c == '\u{c}' {
        seq!['\\', 'f']
    } else if c == '\r' {
        seq!['\\', 'r']
    } else if (c as int) < 32 {
        seq!['\\', 'u', '0', '0', hex_digit(c as int / 16), hex_digit(c as int % 16)]
    } else {
        seq![c]
    }
}

/// The characters of `s`, each written as inside a JSON string.
pub open spec fn escaped(s: Seq<char>) -> Seq<char>
    decreases s.len(),
{
    if s.len() == 0 {
        Seq::empty()
    } else {
        escaped(s.drop_last()) + escape_char(s.last())
    }
}

/// The JSON text of the string `s`: between quotes, each character written
/// as inside a JSON string.
pub open spec fn json_quoted(s: Seq<char>) -> Seq<char> {
    seq!['"'] + escaped(s) + seq!['"']
}

/// `a` comes before `b` in the order of keys: character by character by code
/// point, a proper prefix first (the byte order of their UTF-8 encodings).
pub open spec fn key_lt(a: Seq<char>, b: Seq<char>) -> bool
    decreases a.len(),
{
    if a.len() == 0 {
        b.len() > 0
    } else if b.len() == 0 {
        false
    } else if a[0] != b[0] {
        a[0] < b[0]
    } else {
        key_lt(a.drop_first(), b.drop_first())
    }
}

/// A member of a JSON object: its key and the JSON text of its value.
pub type Member = (Seq<char>, Seq<char>);

/// Inserting `key` with the value text `value` into the members `m`, ordered
/// by key: a member with the same key has its value replaced, otherwise the
/// new member goes before the first member with a greater key.
pub open spec fn insert_member(m: Seq<Member>, key: Seq<char>, value: Seq<char>) -> Seq<Member>
    decreases m.len(),
{
    if m.len() == 0 {
        seq![(key, value)]
    } else if m[0].0 == key {
        m.update(0, (key, value))
    } else if key_lt(key, m[0].0) {
        seq![(key, value)] + m
    } else {
        seq![m[0]] + insert_member(m.drop_first(), key, value)
    }
}

/// The JSON text of one member: the quoted key, a colon, the value text.
pub open spec fn member_text(e: Member) -> Seq<char> {
    json_quoted(e.0) + seq![':'] + e.1
}

/// The members' texts joined by commas.
pub open spec fn members_text(m: Seq<Member>) -> Seq<char>
    decreases m.len(),
{
    if m.len() == 0 {
        Seq::empty()
    } else if m.len() == 1 {
        member_text(m[0])
    } else {
        members_text(m.drop_last()) + seq![','] + member_text(m.last())
    }
}

/// The JSON text of an object with the members `m`, in their order.
pub open spec fn object_text(m: Seq<Member>) -> Seq<char> {
    seq!['{'] + members_text(m) + seq!['}']
}

/// The JSON text of a boolean.
pub open spec fn bool_text(b: bool) -> Seq<char> {
    if b { seq!['t', 'r', 'u', 'e'] } else { seq!['f', 'a', 'l', 's', 'e'] }
}

/// The JSON text of an unsigned number.
pub open spec fn number_text(n: nat) -> Seq<char> {
    dec(n)
}

/// The members are ordered by key, each key coming before the next: no key
/// occurs twice.
pub open spec fn keys_ordered(m: Seq<Member>) -> bool {
    forall|i: int, j: int| 0 <= i < j < m.len() ==> key_lt(#[trigger] m[i].0, #[trigger] m[j].0)
}

/// No key comes before itself.
pub proof fn lemma_key_lt_irreflexive(a: Seq<char>)
    ensures
        !key_lt(a, a),
    decreases a.len(),
{
    if a.len() > 0 {
        lemma_key_lt_irreflexive(a.drop_first());
    }
}

/// The order of keys is transitive.
pub proof fn lemma_key_lt_transitive(a: Seq<char>, b: Seq<char>, c: Seq<char>)
    requires
        key_lt(a, b),
        key_lt(b, c),
    ensures
        key_lt(a, c),
    decreases a.len(),
{
    if a.len() > 0 && b.len() > 0 && c.len() > 0 && a[0] == b[0] && b[0] == c[0] {
        lemma_key_lt_transitive(a.drop_first(), b.drop_first(), c.drop_first());
    }
}

/// Of two different keys, one comes before the other.
pub proof fn lemma_key_lt_total(a: Seq<char>, b: Seq<char>)
    requires
        a != b,
    ensures
        key_lt(a, b) || key_lt(b, a),
    decreases a.len(),
{
    if a.len() == 0 {
        if b.len() == 0 {
            assert(a =~= b);
        }
    } else if b.len() == 0 {
    } else if a[0] != b[0] {
    } else {
        if a.drop_first() == b.drop_first() {
            assert(a =~= seq![a[0]] + a.drop_first());
            assert(b =~= seq![b[0]] + b.drop_first());
        }
        lemma_key_lt_total(a.drop_first(), b.drop_first());
    }
}

/// Inserting into members ordered by key keeps them ordered, and the new
/// member is among them.
pub proof fn lemma_insert_member_ordered(m: Seq<Member>, key: Seq<char>, value: Seq<char>)
    requires
        keys_ordered(m),
    ensures
        keys_ordered(insert_member(m, key, value)),
        insert_member(m, key, value).contains((key, value)),
        forall|i: int| 0 <= i < insert_member(m, key, value).len() ==> (#[trigger] insert_member(m, key, value)[i]).0 == key
            || exists|j: int| 0 <= j < m.len() && m[j].0 == insert_member(m, key, value)[i].0,
    decreases m.len(),
{
    let r = insert_member(m, key, value);
    if m.len() == 0 {
        assert(r[0] == (key, value));
    } else if m[0].0 == key {
        assert(r[0] == (key, value));
        assert forall|i: int, j: int| 0 <= i < j < r.len() implies key_lt(#[trigger] r[i].0, #[trigger] r[j].0) by {
            assert(r[i].0 == m[i].0);
            assert(r[j].0 == m[j].0);
        }
        assert forall|i: int| 0 <= i < r.len() implies (#[trigger] r[i]).0 == key
            || exists|j: int| 0 <= j < m.len() && m[j].0 == r[i].0 by {
            assert(r[i].0 == m[i].0);
        }
    } else if key_lt(key, m[0].0) {
        assert(r[0] == (key, value));
        assert forall|i: int, j: int| 0 <= i < j < r.len() implies key_lt(#[trigger] r[i].0, #[trigger] r[j].0) by {
            if i == 0 {
                assert(r[j] == m[j - 1]);
                if j - 1 > 0 {
                    lemma_key_lt_transitive(key, m[0].0, m[j - 1].0);
                }
            } else {
                assert(r[i] == m[i - 1]);
                assert(r[j] == m[j - 1]);
            }
        }
        assert forall|i: int| 0 <= i < r.len() implies (#[trigger] r[i]).0 == key
            || exists|j: int| 0 <= j < m.len() && m[j].0 == r[i].0 by {
            if i > 0 {
                assert(r[i] == m[i - 1]);
            }
        }
    } else {
        let rest = m.drop_first();
        assert forall|i: int, j: int| 0 <= i < j < rest.len() implies key_lt(#[trigger] rest[i].0, #[trigger] rest[j].0) by {
            assert(rest[i] == m[i + 1]);
            assert(rest[j] == m[j + 1]);
        }
        lemma_insert_member_ordered(rest, key, value);
        let t = insert_member(rest, key, value);
        assert(r == seq![m[0]] + t);
        lemma_key_lt_total(key, m[0].0);
        assert forall|i: int, j: int| 0 <= i < j < r.len() implies key_lt(#[trigger] r[i].0, #[trigger] r[j].0) by {
            if i == 0 {
                assert(r[j] == t[j - 1]);
                let k = t[j - 1].0;
                if k == key {
                } else {
                    let q = choose|q: int| 0 <= q < rest.len() && rest[q].0 == k;
                    assert(rest[q] == m[q + 1]);
                }
            } else {
                assert(r[i] == t[i - 1]);
                assert(r[j] == t[j - 1]);
            }
        }
        let w = choose|w: int| 0 <= w < t.len() && t[w] == (key, value);
        assert(r[w + 1] == (key, value));
        assert forall|i: int| 0 <= i < r.len() implies (#[trigger] r[i]).0 == key
            || exists|j: int| 0 <= j < m.len() && m[j].0 == r[i].0 by {
            if i > 0 {
                assert(r[i] == t[i - 1]);
                let k = t[i - 1].0;
                if k != key {
                    let q = choose|q: int| 0 <= q < rest.len() && rest[q].0 == k;
                    assert(rest[q] == m[q + 1]);
                }
            }
        }
    }
}

/// A JSON object of serde_json: a map from keys to values, kept ordered by
/// key (serde_json keeps its objects in a `BTreeMap` unless its
/// `preserve_order` feature is on, and nothing here turns it on).
#[verifier::external_type_specification]
#[verifier::external_body]
#[verifier::reject_recursive_types(K)]
#[verifier::reject_recursive_types(V)]
pub struct ExJsonMap<K, V>(serde_json::Map<K, V>);

/// A JSON value of serde_json.
#[verifier::external_type_specification]
#[verifier::external_body]
pub struct ExJsonValue(serde_json::Value);

/// The members of a serde_json object, in the order serde_json writes them:
/// each key with the JSON text of its value.
pub uninterp spec fn json_members(m: serde_json::Map<String, serde_json::Value>) -> Seq<Member>;

/// An empty serde_json object.
///
/// Calls `serde_json::Map::new`; the contract claims that the object has no
/// members.
#[verifier::external_body]
fn map_new() -> (m: serde_json::Map<String, serde_json::Value>)
    ensures
        json_members(m) == Seq::<Member>::empty(),
{
    serde_json::Map::new()
}

/// Sets the member `key` of a serde_json object to the string `value`.
///
/// Calls `serde_json::Map::insert` with `serde_json::Value::from(&str)`. The
/// contract claims what the `BTreeMap` under the map does with the members,
/// kept ordered by key (the byte order of the keys, which is the order of
/// their characters): the value of an equal key is replaced, otherwise the
/// member goes in its place in the order; and that the string is written as
/// `json_quoted` says.
#[verifier::external_body]
fn map_insert_str(m: &mut serde_json::Map<String, serde_json::Value>, key: String, value: &str)
    ensures
        json_members(*final(m)) == insert_member(json_members(*old(m)), key@, json_quoted(value@)),
{
    let _ = m.insert(key, serde_json::Value::from(value));
}

/// Sets the member `key` of a serde_json object to the unsigned number
/// `value`.
///
/// Calls `serde_json::Map::insert` with `serde_json::Value::from(u64)`; as
/// `map_insert_str` for the members, and the number is written in decimal
/// digits.
#[verifier::external_body]
fn map_insert_u64(m: &mut serde_json::Map<String, serde_json::Value>, key: String, value: u64)
    ensures
        json_members(*final(m)) == insert_member(json_members(*old(m)), key@, number_text(value as nat)),
{
    let _ = m.insert(key, serde_json::Value::from(value));
}

/// Sets the member `key` of a serde_json object to the boolean `value`.
///
/// Calls `serde_json::Map::insert` with `serde_json::Value::from(bool)`; as
/// `map_insert_str` for the members, and the boolean is written `true` or
/// `false`.
#[verifier::external_body]
fn map_insert_bool(m: &mut serde_json::Map<String, serde_json::Value>, key: String, value: bool)
    ensures
        json_members(*final(m)) == insert_member(json_members(*old(m)), key@, bool_text(value)),
{
    let _ = m.insert(key, serde_json::Value::from(value));
}

/// Sets the member `key` of a serde_json object to a copy of the object
/// `value`.
///
/// Calls `serde_json::Map::insert` with `serde_json::Value::Object` of a
/// clone of `value`; as `map_insert_str` for the members, and the inner
/// object is written as `object_text` says.
#[verifier::external_body]
fn map_insert_object(
    m: &mut serde_json::Map<String, serde_json::Value>,
    key: String,
    value: &serde_json::Map<String, serde_json::Value>,
)
    ensures
        json_members(*final(m)) == insert_member(json_members(*old(m)), key@, object_text(json_members(*value))),
{
    let _ = m.insert(key, serde_json::Value::Object(value.clone()));
}

/// The JSON text of a serde_json object.
///
/// Calls the `Display` of `serde_json::Value::Object` of a clone of `m`,
/// which writes with serde_json's compact formatter: the contract claims the
/// text `object_text` gives of the members, in the map's order.
#[verifier::external_body]
fn map_text(m: &serde_json::Map<String, serde_json::Value>) -> (r: String)
    ensures
        r@ == object_text(json_members(*m)),
{
    serde_json::Value::Object(m.clone()).to_string()
}

/// A JSON object under construction: members ordered by key, each with the
/// JSON text of its value.
pub struct JsonObject {
    map: serde_json::Map<String, serde_json::Value>,
}

impl View for JsonObject {
    type V = Seq<Member>;

    closed spec fn view(&self) -> Seq<Member> {
        json_members(self.map)
    }
}

impl JsonObject {
    /// An object with no members.
    pub fn new() -> (o: Self)
        ensures
            o@ == Seq::<Member>::empty(),
            keys_ordered(o@),
    {
        JsonObject { map: map_new() }
    }

    /// Sets the member `key` to the string `value`.
    pub fn insert_str(&mut self, key: &str, value: &str)
        ensures
            final(self)@ == insert_member(old(self)@, key@, json_quoted(value@)),
            keys_ordered(old(self)@) ==> keys_ordered(final(self)@),
    {
        proof {
            if keys_ordered(self@) {
                lemma_insert_member_ordered(self@, key@, json_quoted(value@));
            }
        }
        map_insert_str(&mut self.map, key.to_owned(), value);
    }

    /// Sets the member `key` to the unsigned number `value`.
    pub fn insert_number(&mut self, key: &str, value: u64)
        ensures
            final(self)@ == insert_member(old(self)@, key@, number_text(value as nat)),
            keys_ordered(old(self)@) ==> keys_ordered(final(self)@),
    {
        proof {
            if keys_ordered(self@) {
                lemma_insert_member_ordered(self@, key@, number_text(value as nat));
            }
        }
        map_insert_u64(&mut self.map, key.to_owned(), value);
    }

    /// Sets the member `key` to the boolean `value`.
    pub fn insert_bool(&mut self, key: &str, value: bool)
        ensures
            final(self)@ == insert_member(old(self)@, key@, bool_text(value)),
            keys_ordered(old(self)@) ==> keys_ordered(final(self)@),
    {
        proof {
            if keys_ordered(self@) {
                lemma_insert_member_ordered(self@, key@, bool_text(value));
            }
        }
        map_insert_bool(&mut self.map, key.to_owned(), value);
    }

    /// Sets the member `key` to the object `value`.
    pub fn insert_object(&mut self, key: &str, value: &JsonObject)
        ensures
            final(self)@ == insert_member(old(self)@, key@, object_text(value@)),
            keys_ordered(old(self)@) ==> keys_ordered(final(self)@),
    {
        proof {
            if keys_ordered(self@) {
                lemma_insert_member_ordered(self@, key@, object_text(value@));
            }
        }
        map_insert_object(&mut self.map, key.to_owned(), &value.map);
    }

    /// The JSON text of the object.
    pub fn render(&self) -> (r: String)
        ensures
            r@ == object_text(self@),
    {
        map_text(&self.map)
    }
}

} // verus!

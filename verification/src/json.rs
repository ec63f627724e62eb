//! Reading JSON text through serde_json.
//!
//! Each reader parses the document text with `serde_json::from_str` into a
//! `serde_json::Value` and reads one member of it. What the reader yields is a
//! function of the document text and the member name alone: it is named here by a
//! spec function without a body, and the store's rules are stated over that name.

use vstd::prelude::*;

verus! {

/// Whether serde_json reads `doc` as a JSON object.
pub uninterp spec fn json_object_doc(doc: Seq<char>) -> bool;

/// The text of member `key` of the JSON object `doc`, when `doc` parses as an
/// object and that member is a JSON string; otherwise nothing.
pub uninterp spec fn json_str_member_of(doc: Seq<char>, key: Seq<char>) -> Option<Seq<char>>;

/// Whether `doc` parses as a JSON object that has a member `key` (of any value).
pub uninterp spec fn json_member_present(doc: Seq<char>, key: Seq<char>) -> bool;

/// Calls `serde_json::from_str::<Value>` and `Value::is_object`: whether the text
/// parses as a JSON object. Claims only that the answer is the named one.
#[verifier::external_body]
pub fn json_is_object(doc: &str) -> (r: bool)
    ensures
        r == json_object_doc(doc@),
{
    match serde_json::from_str::<serde_json::Value>(doc) {
        Ok(value) => value.is_object(),
        Err(_) => false,
    }
}

/// Calls `serde_json::from_str::<Value>`, `Value::get` and `Value::as_str`: the
/// string member `key` of the object `doc`. Claims only that the answer is the
/// named one.
#[verifier::external_body]
pub fn json_str_member(doc: &str, key: &str) -> (r: Option<String>)
    ensures
        match r {
            Some(s) => json_str_member_of(doc@, key@) == Some(s@),
            None => json_str_member_of(doc@, key@) is None,
        },
{
    match serde_json::from_str::<serde_json::Value>(doc) {
        Ok(value) => value.get(key).and_then(serde_json::Value::as_str).map(str::to_owned),
        Err(_) => None,
    }
}

/// Calls `serde_json::from_str::<Value>` and `Value::get`: whether the object
/// `doc` has a member `key`. `Value::get` on a value that is not an object answers
/// nothing, so a non-object has no members. Claims only that the answer is the
/// named one.
#[verifier::external_body]
pub fn json_has_member(doc: &str, key: &str) -> (r: bool)
    ensures
        r == json_member_present(doc@, key@),
{
    match serde_json::from_str::<serde_json::Value>(doc) {
        Ok(value) => value.get(key).is_some(),
        Err(_) => false,
    }
}

/// serde_json's lower-case hexadecimal digit for `n` (0 to 15).
pub open spec fn hex_digit(n: int) -> char {
    if n == 0 { '0' } else if n == 1 { '1' } else if n == 2 { '2' } else if n == 3 { '3' }
    else if n == 4 { '4' } else if n == 5 { '5' } else if n == 6 { '6' } else if n == 7 { '7' }
    else if n == 8 { '8' } else if n == 9 { '9' } else if n == 10 { 'a' } else if n == 11 { 'b' }
    else if n == 12 { 'c' } else if n == 13 { 'd' } else if n == 14 { 'e' } else { 'f' }
}

/// How serde_json writes one character inside a JSON string: a quote and a
/// backslash behind a backslash, the five control characters that have a short
/// escape by it, the other characters below U+0020 as `\u00` and two hex digits,
/// and every other character as itself.
pub open spec fn escaped_char(c: char) -> Seq<char> {
    if c == '"' {
        seq!['\\', '"']
    } else if c == '\\' {
        seq!['\\', '\\']
    } else if c == '\x08' {
        seq!['\\', 'b']
    } else if c == '\t' {
        seq!['\\', 't']
    } else if c == '\n' {
        seq!['\\', 'n']
    } else if c == '\x0c' {
        seq!['\\', 'f']
    } else if c == '\r' {
        seq!['\\', 'r']
    } else if (c as int) < 0x20 {
        seq!['\\', 'u', '0', '0', hex_digit((c as int) / 16), hex_digit((c as int) % 16)]
    } else {
        seq![c]
    }
}

/// The contents serde_json writes for the JSON string of `s`.
pub open spec fn escaped(s: Seq<char>) -> Seq<char>
    decreases s.len(),
{
    if s.len() == 0 {
        Seq::empty()
    } else {
        escaped_char(s[0]) + escaped(s.drop_first())
    }
}

/// The JSON text serde_json writes (compactly) for the array of the two strings
/// `a` and `b`.
pub open spec fn json_string_pair(a: Seq<char>, b: Seq<char>) -> Seq<char> {
    seq!['[', '"'] + escaped(a) + seq!['"', ',', '"'] + escaped(b) + seq!['"', ']']
}

proof fn lemma_hex_digit_injective(m: int, n: int)
    requires
        0 <= m < 16,
        0 <= n < 16,
        hex_digit(m) == hex_digit(n),
    ensures
        m == n,
{
}

/// One escaped character cannot be mistaken for another, nor for a part of one.
proof fn lemma_escaped_char_prefix(c: char, d: char, x: Seq<char>, y: Seq<char>)
    requires
        escaped_char(c) + x == escaped_char(d) + y,
    ensures
        c == d,
        x == y,
{
    let e = escaped_char(c);
    let f = escaped_char(d);
    assert((e + x)[0] == e[0]);
    assert((f + y)[0] == f[0]);
    if e.len() > 1 {
        assert((e + x)[1] == e[1]);
        assert((f + y)[1] == f[1]);
        if e[1] == 'u' {
            assert((e + x)[4] == e[4] && (e + x)[5] == e[5]);
            assert((f + y)[4] == f[4] && (f + y)[5] == f[5]);
            lemma_hex_digit_injective((c as int) / 16, (d as int) / 16);
            lemma_hex_digit_injective((c as int) % 16, (d as int) % 16);
            assert((c as int) == (d as int));
        }
    }
    assert(c == d);
    assert(x =~= (e + x).subrange(e.len() as int, (e + x).len() as int));
    assert(y =~= (f + y).subrange(f.len() as int, (f + y).len() as int));
}

/// The contents of a JSON string end at the first quote that is not escaped:
/// what comes before it determines the string, and what comes after is the rest.
pub proof fn lemma_escaped_then_quote(a: Seq<char>, b: Seq<char>, t: Seq<char>, u: Seq<char>)
    requires
        escaped(a) + seq!['"'] + t == escaped(b) + seq!['"'] + u,
    ensures
        a == b,
        t == u,
    decreases a.len(),
{
    let q = seq!['"'];
    if a.len() == 0 && b.len() == 0 {
        assert(escaped(a) =~= Seq::<char>::empty());
        assert(escaped(b) =~= Seq::<char>::empty());
        assert(t =~= (escaped(a) + q + t).subrange(1, (escaped(a) + q + t).len() as int));
        assert(u =~= (escaped(b) + q + u).subrange(1, (escaped(b) + q + u).len() as int));
        assert(a =~= b);
    } else if a.len() == 0 {
        assert(escaped(a) =~= Seq::<char>::empty());
        let f = escaped_char(b[0]);
        assert(escaped(b) == f + escaped(b.drop_first()));
        assert((escaped(b) + q + u)[0] == f[0]);
        assert((escaped(a) + q + t)[0] == '"');
    } else if b.len() == 0 {
        assert(escaped(b) =~= Seq::<char>::empty());
        let e = escaped_char(a[0]);
        assert(escaped(a) == e + escaped(a.drop_first()));
        assert((escaped(a) + q + t)[0] == e[0]);
        assert((escaped(b) + q + u)[0] == '"');
    } else {
        let e = escaped_char(a[0]);
        let f = escaped_char(b[0]);
        let x = escaped(a.drop_first()) + q + t;
        let y = escaped(b.drop_first()) + q + u;
        assert(escaped(a) + q + t =~= e + x);
        assert(escaped(b) + q + u =~= f + y);
        lemma_escaped_char_prefix(a[0], b[0], x, y);
        lemma_escaped_then_quote(a.drop_first(), b.drop_first(), t, u);
        assert(a =~= seq![a[0]] + a.drop_first());
        assert(b =~= seq![b[0]] + b.drop_first());
    }
}

/// Different pairs of strings are written as different texts.
pub proof fn lemma_json_string_pair_injective(a: Seq<char>, b: Seq<char>, c: Seq<char>, d: Seq<char>)
    requires
        json_string_pair(a, b) == json_string_pair(c, d),
    ensures
        a == c,
        b == d,
{
    let q = seq!['"'];
    let whole = json_string_pair(a, b);
    let other = json_string_pair(c, d);
    let t = seq![',', '"'] + escaped(b) + seq!['"', ']'];
    let u = seq![',', '"'] + escaped(d) + seq!['"', ']'];
    assert(whole.subrange(2, whole.len() as int) =~= escaped(a) + q + t);
    assert(other.subrange(2, other.len() as int) =~= escaped(c) + q + u);
    lemma_escaped_then_quote(a, c, t, u);
    let t2 = seq![']'];
    assert(t.subrange(2, t.len() as int) =~= escaped(b) + q + t2);
    assert(u.subrange(2, u.len() as int) =~= escaped(d) + q + t2);
    lemma_escaped_then_quote(b, d, t2, t2);
}

/// `doc` with its top-level member `key` set to the string `value`, as serde_json
/// rewrites it (parse, set, serialize); `doc` itself when it is not a JSON object.
pub uninterp spec fn json_doc_with_text(doc: Seq<char>, key: Seq<char>, value: Seq<char>) -> Seq<char>;

/// `doc` with its top-level member `key` set to the integer `value`, as serde_json
/// rewrites it; `doc` itself when it is not a JSON object.
pub uninterp spec fn json_doc_with_integer(doc: Seq<char>, key: Seq<char>, value: i64) -> Seq<char>;

/// `doc` with member `field` of its `links` object set to the string `value`, or
/// to null when there is none, as serde_json rewrites it; `doc` itself when it is
/// not a JSON object whose `links` member is an object.
pub uninterp spec fn json_doc_with_link(doc: Seq<char>, field: Seq<char>, value: Option<Seq<char>>) -> Seq<char>;

/// The string member `field` of the `links` object of `doc`, if there is one.
pub uninterp spec fn json_link_of(doc: Seq<char>, field: Seq<char>) -> Option<Seq<char>>;

/// Calls `serde_json::to_string` on the pair `(a, b)`: a JSON array of the two
/// strings, written compactly with serde_json's escaping (`json_string_pair`).
#[verifier::external_body]
pub fn json_pair_text(a: &str, b: &str) -> (r: String)
    ensures
        r@ == json_string_pair(a@, b@),
{
    serde_json::to_string(&(a, b)).unwrap_or_default()
}

/// Calls `serde_json::from_str::<Value>`, `Map::insert` and `serde_json::to_string`:
/// sets the top-level string member `key`. Claims only that the answer is the
/// named one.
#[verifier::external_body]
pub fn json_set_text(doc: &str, key: &str, value: &str) -> (r: String)
    ensures
        r@ == json_doc_with_text(doc@, key@, value@),
{
    match serde_json::from_str::<serde_json::Value>(doc) {
        Ok(serde_json::Value::Object(mut map)) => {
            map.insert(key.to_owned(), serde_json::Value::from(value));
            match serde_json::to_string(&map) {
                Ok(text) => text,
                Err(_) => doc.to_owned(),
            }
        },
        _ => doc.to_owned(),
    }
}

/// Calls `serde_json::from_str::<Value>`, `Map::insert` and `serde_json::to_string`:
/// sets the top-level integer member `key`. Claims only that the answer is the
/// named one.
#[verifier::external_body]
pub fn json_set_integer(doc: &str, key: &str, value: i64) -> (r: String)
    ensures
        r@ == json_doc_with_integer(doc@, key@, value),
{
    match serde_json::from_str::<serde_json::Value>(doc) {
        Ok(serde_json::Value::Object(mut map)) => {
            map.insert(key.to_owned(), serde_json::Value::from(value));
            match serde_json::to_string(&map) {
                Ok(text) => text,
                Err(_) => doc.to_owned(),
            }
        },
        _ => doc.to_owned(),
    }
}

/// Calls `serde_json::from_str::<Value>`, `Value::get_mut`, `Map::insert` and
/// `serde_json::to_string`: sets member `field` of the `links` object to a string
/// or null. Claims only that the answer is the named one.
#[verifier::external_body]
pub fn json_set_link(doc: &str, field: &str, value: Option<&str>) -> (r: String)
    ensures
        r@ == json_doc_with_link(doc@, field@, match value { Some(v) => Some(v@), None => None }),
{
    match serde_json::from_str::<serde_json::Value>(doc) {
        Ok(mut parsed) => match parsed.get_mut("links").and_then(serde_json::Value::as_object_mut) {
            Some(links) => {
                links.insert(field.to_owned(), value.map_or(serde_json::Value::Null, serde_json::Value::from));
                match serde_json::to_string(&parsed) {
                    Ok(text) => text,
                    Err(_) => doc.to_owned(),
                }
            },
            None => doc.to_owned(),
        },
        Err(_) => doc.to_owned(),
    }
}

/// Calls `serde_json::from_str::<Value>`, `Value::pointer` and `Value::as_str`:
/// the string member `field` (a plain member name) of the `links` object. Claims only that the answer is the
/// named one.
#[verifier::external_body]
pub fn json_link(doc: &str, field: &str) -> (r: Option<String>)
    ensures
        match r {
            Some(s) => json_link_of(doc@, field@) == Some(s@),
            None => json_link_of(doc@, field@) is None,
        },
{
    match serde_json::from_str::<serde_json::Value>(doc) {
        Ok(parsed) => parsed.pointer(&format!("/links/{field}")).and_then(serde_json::Value::as_str).map(str::to_owned),
        Err(_) => None,
    }
}

/// The JSON text serde_json writes for member `key` of the object `doc`, if `doc`
/// parses as an object that has that member.
pub uninterp spec fn json_member_json_of(doc: Seq<char>, key: Seq<char>) -> Option<Seq<char>>;

/// `doc` with its top-level member `key` set to the JSON value that `value` holds,
/// as serde_json rewrites it; `doc` itself when it is not a JSON object or `value`
/// is not JSON.
pub uninterp spec fn json_doc_with_member(doc: Seq<char>, key: Seq<char>, value: Seq<char>) -> Seq<char>;

/// Calls `serde_json::from_str::<Value>`, `Value::get` and `serde_json::to_string`:
/// the JSON text of member `key` of the object `doc`. Claims only that the answer
/// is the named one.
#[verifier::external_body]
pub fn json_member_json(doc: &str, key: &str) -> (r: Option<String>)
    ensures
        match r {
            Some(s) => json_member_json_of(doc@, key@) == Some(s@),
            None => json_member_json_of(doc@, key@) is None,
        },
{
    match serde_json::from_str::<serde_json::Value>(doc) {
        Ok(value) => value.get(key).and_then(|member| serde_json::to_string(member).ok()),
        Err(_) => None,
    }
}

/// Calls `serde_json::from_str::<Value>` (on the document and on the value),
/// `Map::insert` and `serde_json::to_string`: sets the top-level member `key` to a
/// JSON value. Claims only that the answer is the named one.
#[verifier::external_body]
pub fn json_set_member(doc: &str, key: &str, value: &str) -> (r: String)
    ensures
        r@ == json_doc_with_member(doc@, key@, value@),
{
    match (serde_json::from_str::<serde_json::Value>(doc), serde_json::from_str::<serde_json::Value>(value)) {
        (Ok(serde_json::Value::Object(mut map)), Ok(member)) => {
            map.insert(key.to_owned(), member);
            match serde_json::to_string(&map) {
                Ok(text) => text,
                Err(_) => doc.to_owned(),
            }
        },
        _ => doc.to_owned(),
    }
}

/// Whether `a` and `b` both parse as JSON and hold the same value (the members of
/// an object compared by name, whatever order the texts list them in).
pub uninterp spec fn json_same_value(a: Seq<char>, b: Seq<char>) -> bool;

/// Calls `serde_json::from_str::<Value>` on both texts and compares the two values
/// with `Value`'s `==`: whether they hold the same JSON value. Claims only that
/// the answer is the named one.
#[verifier::external_body]
pub fn json_same_document(a: &str, b: &str) -> (r: bool)
    ensures
        r == json_same_value(a@, b@),
{
    match (serde_json::from_str::<serde_json::Value>(a), serde_json::from_str::<serde_json::Value>(b)) {
        (Ok(x), Ok(y)) => x == y,
        _ => false,
    }
}

} // verus!

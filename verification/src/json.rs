//! JSON text, read and written by serde_json.

use vstd::prelude::*;

verus! {

/// serde_json's value, which is carried and not looked into.
#[verifier::external_type_specification]
#[verifier::external_body]
pub struct ExValue(serde_json::Value);

/// What `serde_json::from_str` makes of a text that is to be any JSON value:
/// the value, or the message of the error.
pub uninterp spec fn json_value(text: Seq<char>) -> Result<serde_json::Value, Seq<char>>;

/// Calls `serde_json::from_str` for a `serde_json::Value`. Its result, with an
/// error taken by the text that it displays, is named by [`json_value`]:
/// nothing but the text decides it.
#[verifier::external_body]
pub(crate) fn parse_json(text: &str) -> (res: Result<serde_json::Value, String>)
    ensures
        match res {
            Ok(value) => json_value(text@) == Ok::<serde_json::Value, Seq<char>>(value),
            Err(msg) => json_value(text@) == Err::<serde_json::Value, Seq<char>>(msg@),
        },
{
    serde_json::from_str(text).map_err(|e: serde_json::Error| e.to_string())
}

/// The lower-case hexadecimal digit for a number below sixteen.
pub open spec fn hex_digit(n: int) -> char {
    if n < 10 {
        ('0' as int + n) as char
    } else {
        ('a' as int + n - 10) as char
    }
}

/// A character as it stands inside a JSON string.
pub open spec fn escaped(c: char) -> Seq<char> {
    if c == '"' || c == '\\' {
        seq!['\\', c]
    } else if c == '\u{8}' {
        seq!['\\', 'b']
    } else if c == '\t' {
        seq!['\\', 't']
    } else if c == '\n' {
        seq!['\\', 'n']
    } else if c == '\u{c}' {
        seq!['\\', 'f']
    } else if c == '\r' {
        seq!['\\', 'r']
    } else if (c as int) < 0x20 {
        seq!['\\', 'u', '0', '0', hex_digit(c as int / 16), hex_digit(c as int % 16)]
    } else {
        seq![c]
    }
}

/// The characters of a text as they stand inside a JSON string.
pub open spec fn escaped_text(s: Seq<char>) -> Seq<char>
    decreases s.len(),
{
    if s.len() == 0 {
        seq![]
    } else {
        escaped_text(s.drop_last()) + escaped(s.last())
    }
}

/// A text as a JSON string.
pub open spec fn json_string(s: Seq<char>) -> Seq<char> {
    "\""@ + escaped_text(s) + "\""@
}

/// A member of a JSON object, whose value is a string.
pub open spec fn json_member(key: Seq<char>, value: Seq<char>) -> Seq<char> {
    json_string(key) + ":"@ + json_string(value)
}

/// The decimal digits of a number, without leading zeros.
pub open spec fn nat_text(n: nat) -> Seq<char>
    decreases n,
{
    if n < 10 {
        seq![hex_digit(n as int)]
    } else {
        nat_text(n / 10).push(hex_digit((n % 10) as int))
    }
}

/// An integer as a JSON number.
pub open spec fn int_text(n: int) -> Seq<char> {
    if n < 0 {
        "-"@ + nat_text((-n) as nat)
    } else {
        nat_text(n as nat)
    }
}

/// A boolean as JSON.
pub open spec fn bool_text(b: bool) -> Seq<char> {
    if b {
        "true"@
    } else {
        "false"@
    }
}

/// Calls `serde_json::to_string` for a string, which it writes as a JSON
/// string; writing to memory does not fail.
#[verifier::external_body]
pub(crate) fn write_string(val: &String) -> (res: Result<String, String>)
    ensures
        res is Ok,
        res->Ok_0@ == json_string(val@),
{
    serde_json::to_string(val).map_err(|e: serde_json::Error| e.to_string())
}

/// Calls `serde_json::to_string` for a boolean, which it writes as `true` or
/// `false`; writing to memory does not fail.
#[verifier::external_body]
pub(crate) fn write_bool(val: &bool) -> (res: Result<String, String>)
    ensures
        res is Ok,
        res->Ok_0@ == bool_text(*val),
{
    serde_json::to_string(val).map_err(|e: serde_json::Error| e.to_string())
}

/// Calls `serde_json::to_string` for an integer, which it writes in decimal;
/// writing to memory does not fail.
#[verifier::external_body]
pub(crate) fn write_i64(val: &i64) -> (res: Result<String, String>)
    ensures
        res is Ok,
        res->Ok_0@ == int_text(*val as int),
{
    serde_json::to_string(val).map_err(|e: serde_json::Error| e.to_string())
}

/// What `serde_json::from_str` makes of a text that is to be a string: the
/// string, or the message of the error.
pub uninterp spec fn string_value(text: Seq<char>) -> Result<Seq<char>, Seq<char>>;

/// What `serde_json::from_str` makes of a text that is to be a boolean: the
/// boolean, or the message of the error.
pub uninterp spec fn bool_value(text: Seq<char>) -> Result<bool, Seq<char>>;

/// What `serde_json::from_str` makes of a text that is to be a 64-bit integer:
/// the integer, or the message of the error.
pub uninterp spec fn i64_value(text: Seq<char>) -> Result<i64, Seq<char>>;

/// Where `text` is a string as JSON, `res` is the string.
pub open spec fn gives_string<E>(text: Seq<char>, res: Result<String, E>) -> bool {
    forall|val: Seq<char>|
        text == #[trigger] json_string(val) ==> (res matches Ok(read) && read@ == val)
}

/// Where `text` is a boolean as JSON, `res` is the boolean.
pub open spec fn gives_bool<E>(text: Seq<char>, res: Result<bool, E>) -> bool {
    forall|val: bool| text == #[trigger] bool_text(val) ==> res == Ok::<bool, E>(val)
}

/// Where `text` is an integer of 64 bits as JSON, `res` is the integer.
pub open spec fn gives_i64<E>(text: Seq<char>, res: Result<i64, E>) -> bool {
    forall|val: i64| text == #[trigger] int_text(val as int) ==> res == Ok::<i64, E>(val)
}

/// Calls `serde_json::from_str` for a `String`. Its result, with an error taken
/// by the text that it displays, is named by [`string_value`]; a JSON string
/// as [`write_string`] writes it gives back the string.
#[verifier::external_body]
pub(crate) fn read_string(text: &str) -> (res: Result<String, String>)
    ensures
        match res {
            Ok(val) => string_value(text@) == Ok::<Seq<char>, Seq<char>>(val@),
            Err(msg) => string_value(text@) == Err::<Seq<char>, Seq<char>>(msg@),
        },
        gives_string(text@, res),
{
    serde_json::from_str(text).map_err(|e: serde_json::Error| e.to_string())
}

/// Calls `serde_json::from_str` for a `bool`. Its result, with an error taken by
/// the text that it displays, is named by [`bool_value`]; `true` and `false`
/// give back the boolean.
#[verifier::external_body]
pub(crate) fn read_bool(text: &str) -> (res: Result<bool, String>)
    ensures
        match res {
            Ok(val) => bool_value(text@) == Ok::<bool, Seq<char>>(val),
            Err(msg) => bool_value(text@) == Err::<bool, Seq<char>>(msg@),
        },
        gives_bool(text@, res),
{
    serde_json::from_str(text).map_err(|e: serde_json::Error| e.to_string())
}

/// Calls `serde_json::from_str` for an `i64`. Its result, with an error taken by
/// the text that it displays, is named by [`i64_value`]; an integer in decimal,
/// as [`write_i64`] writes it, gives back the integer.
#[verifier::external_body]
pub(crate) fn read_i64(text: &str) -> (res: Result<i64, String>)
    ensures
        match res {
            Ok(val) => i64_value(text@) == Ok::<i64, Seq<char>>(val),
            Err(msg) => i64_value(text@) == Err::<i64, Seq<char>>(msg@),
        },
        gives_i64(text@, res),
{
    serde_json::from_str(text).map_err(|e: serde_json::Error| e.to_string())
}

/// Builds a `serde_json::Value::Object` of two members whose values are
/// strings, and writes it with `Value::to_string`: the members stand in the
/// order of their keys, without any white space, and of the characters only
/// the quotation mark, the backslash and those below the space are escaped.
#[verifier::external_body]
pub(crate) fn object_text(
    first_key: &str,
    first_value: &str,
    second_key: &str,
    second_value: &str,
) -> (res: String)
    requires
        first_key@.len() > 0,
        second_key@.len() > 0,
        first_key@[0] < second_key@[0],
    ensures
        res@ == "{"@ + json_member(first_key@, first_value@) + ","@ + json_member(
            second_key@,
            second_value@,
        ) + "}"@,
{
    let mut members = serde_json::Map::new();
    members.insert(first_key.to_string(), serde_json::Value::String(first_value.to_string()));
    members.insert(second_key.to_string(), serde_json::Value::String(second_value.to_string()));
    serde_json::Value::Object(members).to_string()
}

/// No character of `s` is escaped in a JSON string.
pub open spec fn plain(s: Seq<char>) -> bool {
    forall|i: int|
        0 <= i < s.len() ==> #[trigger] s[i] != '"' && s[i] != '\\' && s[i] as int >= 0x20
}

/// A text without quotation marks, backslashes and control characters stands in
/// a JSON string as it is.
pub proof fn law_plain_text_is_not_escaped(s: Seq<char>)
    requires
        plain(s),
    ensures
        escaped_text(s) == s,
        json_string(s) == "\""@ + s + "\""@,
    decreases s.len(),
{
    if s.len() > 0 {
        law_plain_text_is_not_escaped(s.drop_last());
        assert(s[s.len() - 1] == s.last());
        assert(s.drop_last() + seq![s.last()] =~= s);
    } else {
        assert(escaped_text(s) =~= s);
    }
}

/// The first character of a text is escaped first.
proof fn lemma_escaped_first(s: Seq<char>)
    requires
        s.len() > 0,
    ensures
        escaped_text(s) == escaped(s.first()) + escaped_text(s.drop_first()),
    decreases s.len(),
{
    if s.len() == 1 {
        assert(s.drop_last() =~= s.drop_first());
        assert(escaped_text(s) =~= escaped(s.first()) + escaped_text(s.drop_first()));
    } else {
        lemma_escaped_first(s.drop_last());
        assert(s.drop_last().drop_first() =~= s.drop_first().drop_last());
        assert(escaped_text(s) =~= escaped(s.first()) + escaped_text(s.drop_first()));
    }
}

/// No escaped character is the beginning of another one, nor a quotation mark.
proof fn lemma_escaped_apart(c: char, d: char, x: Seq<char>, y: Seq<char>)
    requires
        escaped(c) + x == escaped(d) + y,
    ensures
        c == d,
        x == y,
{
    let s = escaped(c) + x;
    let t = escaped(d) + y;
    assert(s[0] == escaped(c)[0] && t[0] == escaped(d)[0]);
    if s[0] == '\\' {
        assert(s[1] == escaped(c)[1] && t[1] == escaped(d)[1]);
        if s[1] == 'u' {
            assert(s[4] == escaped(c)[4] && t[4] == escaped(d)[4]);
            assert(s[5] == escaped(c)[5] && t[5] == escaped(d)[5]);
        }
    }
    assert(c == d);
    assert(s.skip(escaped(c).len() as int) =~= x);
    assert(t.skip(escaped(c).len() as int) =~= y);
}

/// Where the inside of a JSON string ends can be told from its quotation mark.
proof fn lemma_escaped_text_ends(a: Seq<char>, b: Seq<char>, x: Seq<char>, y: Seq<char>)
    requires
        escaped_text(a) + "\""@ + x == escaped_text(b) + "\""@ + y,
    ensures
        a == b,
        x == y,
    decreases a.len(),
{
    reveal_strlit("\"");
    let s = escaped_text(a) + "\""@ + x;
    let t = escaped_text(b) + "\""@ + y;
    if a.len() > 0 {
        lemma_escaped_first(a);
        assert(s[0] == escaped(a.first())[0]);
    } else {
        assert(s[0] == '"');
    }
    if b.len() > 0 {
        lemma_escaped_first(b);
        assert(t[0] == escaped(b.first())[0]);
    } else {
        assert(t[0] == '"');
    }
    if a.len() > 0 && b.len() > 0 {
        let rest = escaped_text(a.drop_first()) + "\""@ + x;
        let other = escaped_text(b.drop_first()) + "\""@ + y;
        assert(s =~= escaped(a.first()) + rest);
        assert(t =~= escaped(b.first()) + other);
        lemma_escaped_apart(a.first(), b.first(), rest, other);
        lemma_escaped_text_ends(a.drop_first(), b.drop_first(), x, y);
        assert(a =~= seq![a.first()] + a.drop_first());
        assert(b =~= seq![b.first()] + b.drop_first());
    } else {
        assert(a =~= b);
        assert(s.skip(1) =~= x);
        assert(t.skip(1) =~= y);
    }
}

/// A JSON string tells which text it writes and where it ends, whatever
/// follows it.
pub proof fn law_json_string_is_unambiguous(
    a: Seq<char>,
    b: Seq<char>,
    x: Seq<char>,
    y: Seq<char>,
)
    requires
        json_string(a) + x == json_string(b) + y,
    ensures
        a == b,
        x == y,
{
    reveal_strlit("\"");
    let s = json_string(a) + x;
    let t = json_string(b) + y;
    assert(s.skip(1) =~= escaped_text(a) + "\""@ + x);
    assert(t.skip(1) =~= escaped_text(b) + "\""@ + y);
    lemma_escaped_text_ends(a, b, x, y);
}

} // verus!

//! Turning (de)serialisation failures into DynamoDB errors.
//!
//! serde_json reports failures like "invalid type: integer `23`, expected a
//! string at line 1 column 42"; DynamoDB reports "NUMBER_VALUE cannot be
//! converted to String". The functions here give the latter for the former,
//! and choose between `ValidationException` and `SerializationException` as
//! DynamoDB does.

use crate::error::{DynoxideError, Fault};
use crate::json::{
    bool_text, bool_value, gives_bool, gives_i64, gives_string, i64_value, int_text, json_string,
    json_value, parse_json, read_bool, read_i64, read_string, string_value, write_bool, write_i64,
    write_string,
};
use crate::text::{
    after_first, after_last, all_digits, before_first, contains, digits, first_after, first_index,
    head, last_index, lemma_first_after, lemma_first_after_by, lemma_first_occurs, number, occurs,
    parse_usize, rfind, same, split_once, starts, starts_with, strip_prefix, tail, trim, trimmed,
};
use vstd::prelude::*;
use vstd::utf8::encode_utf8;

verus! {

/// The position that serde_json puts at the end of a message.
pub open spec fn position(line: Seq<char>, column: Seq<char>) -> Seq<char> {
    " at line "@ + line + " column "@ + column
}

/// `s` is a position with the numbers of a line and a column.
pub open spec fn is_position(s: Seq<char>) -> bool {
    exists|line: Seq<char>, column: Seq<char>|
        {
            &&& s == #[trigger] position(line, column)
            &&& line.len() > 0 && digits(line)
            &&& column.len() > 0 && digits(column)
        }
}

/// A message without the position that serde_json puts at its end.
pub open spec fn without_position(msg: Seq<char>) -> Seq<char> {
    match last_index(msg, " at line "@) {
        Some(i) if is_position(msg.skip(i)) => msg.take(i),
        _ => msg,
    }
}

/// The Java class that stands for a request structure in DynamoDB's messages.
pub open spec fn dynamo_class(name: Seq<char>) -> Option<Seq<char>> {
    if name == "ProvisionedThroughput"@ || name == "ProvisionedThroughputRaw"@ {
        Some("com.amazonaws.dynamodb.v20120810.ProvisionedThroughput"@)
    } else if name == "Projection"@ || name == "ProjectionRaw"@ {
        Some("com.amazonaws.dynamodb.v20120810.Projection"@)
    } else if name == "KeySchemaElement"@ || name == "KeySchemaElementRaw"@ {
        Some("com.amazonaws.dynamodb.v20120810.KeySchemaElement"@)
    } else if name == "AttributeDefinition"@ || name == "AttributeDefinitionRaw"@ {
        Some("com.amazonaws.dynamodb.v20120810.AttributeDefinition"@)
    } else if name == "LocalSecondaryIndex"@ || name == "LocalSecondaryIndexRaw"@ {
        Some("com.amazonaws.dynamodb.v20120810.LocalSecondaryIndex"@)
    } else if name == "GlobalSecondaryIndex"@ || name == "GlobalSecondaryIndexRaw"@ {
        Some("com.amazonaws.dynamodb.v20120810.GlobalSecondaryIndex"@)
    } else if name == "DeleteGsiAction"@ || name == "DeleteGsiActionRaw"@ {
        Some("com.amazonaws.dynamodb.v20120810.DeleteGlobalSecondaryIndexAction"@)
    } else if name == "CreateGsiAction"@ || name == "CreateGsiActionRaw"@ {
        Some("com.amazonaws.dynamodb.v20120810.CreateGlobalSecondaryIndexAction"@)
    } else if name == "UpdateGsiAction"@ || name == "UpdateGsiActionRaw"@ {
        Some("com.amazonaws.dynamodb.v20120810.UpdateGlobalSecondaryIndexAction"@)
    } else if name == "GlobalSecondaryIndexUpdate"@ || name == "GlobalSecondaryIndexUpdateRaw"@ {
        Some("com.amazonaws.dynamodb.v20120810.GlobalSecondaryIndexUpdate"@)
    } else if name == "Tag"@ || name == "TagRaw"@ {
        Some("com.amazonaws.dynamodb.v20120810.Tag"@)
    } else {
        None
    }
}

/// What serde_json says it found.
#[derive(Clone, Copy, Debug, PartialEq, Eq, Structural)]
pub enum Found {
    True,
    False,
    Float,
    Integer,
    Text,
    Array,
    Object,
    Other,
}

/// What serde_json says it expected.
#[derive(Clone, Copy, Debug, PartialEq, Eq, Structural)]
pub enum Expected {
    Text,
    Boolean,
    Integer,
    Array,
    Struct,
    Object,
    Other,
}

/// The kind of value that the words of a serde_json message describe.
pub open spec fn found(source: Seq<char>) -> Found {
    if source == "boolean `true`"@ {
        Found::True
    } else if source == "boolean `false`"@ {
        Found::False
    } else if starts(source, "floating point "@) {
        Found::Float
    } else if starts(source, "integer "@) {
        Found::Integer
    } else if starts(source, "string "@) {
        Found::Text
    } else if source == "sequence"@ {
        Found::Array
    } else if source == "map"@ {
        Found::Object
    } else {
        Found::Other
    }
}

/// The kind of value that the words of a serde_json message ask for.
pub open spec fn expected(target: Seq<char>) -> Expected {
    if target == "a sequence"@ {
        Expected::Array
    } else if target == "a string"@ {
        Expected::Text
    } else if target == "a boolean"@ {
        Expected::Boolean
    } else if target == "i64"@ || target == "u64"@ {
        Expected::Integer
    } else if starts(target, "struct "@) {
        Expected::Struct
    } else if starts(target, "a map"@) || starts(target, "map"@) {
        Expected::Object
    } else {
        Expected::Other
    }
}

/// DynamoDB's message for a value of one kind where another is expected.
pub open spec fn type_mismatch(source: Seq<char>, target: Seq<char>) -> Seq<char> {
    match (expected(target), found(source)) {
        (Expected::Text, Found::True) => "TRUE_VALUE cannot be converted to String"@,
        (Expected::Text, Found::False) => "FALSE_VALUE cannot be converted to String"@,
        (Expected::Text, Found::Float) => "DECIMAL_VALUE cannot be converted to String"@,
        (Expected::Text, Found::Integer) => "NUMBER_VALUE cannot be converted to String"@,
        (
            Expected::Text,
            Found::Array,
        ) => "Unrecognized collection type class java.lang.String"@,
        (Expected::Boolean, Found::Text) => "Unexpected token received from parser"@,
        (Expected::Boolean, Found::Float) => "DECIMAL_VALUE cannot be converted to Boolean"@,
        (Expected::Boolean, Found::Integer) => "NUMBER_VALUE cannot be converted to Boolean"@,
        (
            Expected::Boolean,
            Found::Array,
        ) => "Unrecognized collection type class java.lang.Boolean"@,
        (Expected::Integer, Found::Text) => "STRING_VALUE cannot be converted to Long"@,
        (Expected::Integer, Found::True) => "TRUE_VALUE cannot be converted to Long"@,
        (Expected::Integer, Found::False) => "FALSE_VALUE cannot be converted to Long"@,
        (
            Expected::Integer,
            Found::Array,
        ) => "Unrecognized collection type class java.lang.Long"@,
        (
            Expected::Array | Expected::Text | Expected::Boolean | Expected::Integer
            | Expected::Struct,
            Found::Object,
        ) => "Start of structure or map found where not expected"@,
        (Expected::Array, _) => "Unexpected field type"@,
        (Expected::Struct, Found::Array) => match dynamo_class(
            before_first(target.skip("struct "@.len() as int), " "@),
        ) {
            Some(class) => "Unrecognized collection type class "@ + class,
            None => before_first(source, " at line "@),
        },
        (Expected::Object, Found::Array | Found::Object) => before_first(source, " at line "@),
        (Expected::Struct | Expected::Object, _) => "Unexpected field type"@,
        _ => before_first(source, " at line "@),
    }
}

/// DynamoDB's word for the kind of JSON value that starts with a byte.
pub open spec fn value_kind(byte: u8) -> Seq<char> {
    if byte == 'f' as u8 {
        "FALSE_VALUE"@
    } else if '0' as u8 <= byte <= '9' as u8 || byte == '-' as u8 {
        "NUMBER_VALUE"@
    } else {
        "TRUE_VALUE"@
    }
}

/// DynamoDB's message for a value in `body` that does not convert to `target`.
/// The message of serde_json ends in the value's column, which is counted from
/// one; a value that cannot be found counts as `true`.
pub open spec fn conversion_error(
    msg: Seq<char>,
    body: Seq<char>,
    target: Seq<char>,
) -> Seq<char> {
    let bytes = encode_utf8(body);
    let kind = match number(trimmed(after_last(msg, "column "@))) {
        Some(col) if 0 < col <= bytes.len() => value_kind(bytes[col - 1]),
        _ => "TRUE_VALUE"@,
    };
    kind + " cannot be converted to "@ + target
}

/// The message of the `SerializationException` for a message of serde_json.
pub open spec fn serialization_message(msg: Seq<char>, body: Seq<char>) -> Seq<char> {
    if starts(msg, "invalid type: "@) {
        let rest = msg.skip("invalid type: "@.len() as int);
        match after_first(rest, ", expected "@) {
            Some(wanted) => type_mismatch(
                trimmed(before_first(rest, ", expected "@)),
                trimmed(before_first(wanted, " at line "@)),
            ),
            None => msg,
        }
    } else if occurs(msg, "expected struct"@) && starts(msg, "invalid length "@) {
        match unexpected_struct(msg) {
            Some(class) => "Unrecognized collection type class "@ + class,
            None => "Start of structure or map found where not expected"@,
        }
    } else if starts(msg, "expected string for "@) || starts(msg, "expected value at line "@) {
        conversion_error(msg, body, "String"@)
    } else {
        msg
    }
}

/// The Java class of the structure that a message of serde_json names as
/// expected.
pub open spec fn unexpected_struct(msg: Seq<char>) -> Option<Seq<char>> {
    match after_first(msg, "expected struct "@) {
        Some(rest) => dynamo_class(
            before_first(before_first(rest, "expected struct "@), " "@),
        ),
        None => None,
    }
}

/// Whether `s` is a position with the numbers of a line and a column.
fn reads_as_position(s: &str) -> (res: bool)
    ensures
        res == is_position(s@),
{
    proof {
        lemma_position_parts(s@);
    }
    match strip_prefix(s, " at line ") {
        Some(numbers) => match split_once(numbers, " column ") {
            Some((line, column)) => !line.is_empty() && all_digits(line) && !column.is_empty()
                && all_digits(column),
            None => false,
        },
        None => false,
    }
}

/// A position is told by what stands on the two sides of its first " column ".
proof fn lemma_position_parts(s: Seq<char>)
    ensures
        is_position(s) <==> {
            let numbers = s.skip(" at line "@.len() as int);
            let line = before_first(numbers, " column "@);
            &&& starts(s, " at line "@)
            &&& line.len() > 0 && digits(line)
            &&& after_first(numbers, " column "@) matches Some(column)
            &&& column.len() > 0 && digits(column)
        },
{
    let at = " at line "@;
    let mid = " column "@;
    let numbers = s.skip(at.len() as int);
    if is_position(s) {
        let (line, column) = choose|line: Seq<char>, column: Seq<char>|
            {
                &&& s == #[trigger] position(line, column)
                &&& line.len() > 0 && digits(line)
                &&& column.len() > 0 && digits(column)
            };
        assert(s.subrange(0, at.len() as int) =~= at);
        assert(numbers =~= line + mid + column);
        assert(first_after(line, mid) && mid.len() > 0) by {
            reveal_strlit(" column ");
            assert(!line.contains('c'));
            lemma_first_after_by(line, mid, 1);
        }
        lemma_first_after(line, mid, column);
    }
    if starts(s, at) && occurs(numbers, mid) {
        lemma_first_occurs(numbers, mid);
        let line = before_first(numbers, mid);
        let column = after_first(numbers, mid).unwrap();
        let i = first_index(numbers, mid).unwrap();
        assert(numbers =~= line + mid + column) by {
            assert(numbers.subrange(i, i + mid.len()) =~= mid);
            assert(numbers =~= numbers.take(i) + numbers.subrange(i, i + mid.len()) + numbers.skip(
                i + mid.len(),
            ));
        }
        assert(s =~= position(line, column)) by {
            assert(s =~= s.subrange(0, at.len() as int) + numbers);
        }
    }
}

/// Strips serde_json's " at line N column N" suffix from an error message.
pub fn strip_serde_position(msg: &str) -> (res: String)
    ensures
        res@ == without_position(msg@),
{
    if let Some(idx) = rfind(msg, " at line ") {
        let end: usize = msg.unicode_len();
        let suffix = msg.substring_char(idx, end);
        assert(suffix@ =~= msg@.skip(idx as int));
        if reads_as_position(suffix) {
            return msg.substring_char(0, idx).to_string();
        }
    }
    msg.to_string()
}

/// Maps the name of a request structure to the Java class that DynamoDB's
/// `SerializationException` messages give for it.
pub fn map_struct_to_dynamo_class(struct_name: &str) -> (res: Option<&'static str>)
    ensures
        match res {
            Some(class) => dynamo_class(struct_name@) == Some(class@),
            None => dynamo_class(struct_name@) is None,
        },
{
    if same(struct_name, "ProvisionedThroughput") || same(struct_name, "ProvisionedThroughputRaw") {
        Some("com.amazonaws.dynamodb.v20120810.ProvisionedThroughput")
    } else if same(struct_name, "Projection") || same(struct_name, "ProjectionRaw") {
        Some("com.amazonaws.dynamodb.v20120810.Projection")
    } else if same(struct_name, "KeySchemaElement") || same(struct_name, "KeySchemaElementRaw") {
        Some("com.amazonaws.dynamodb.v20120810.KeySchemaElement")
    } else if same(struct_name, "AttributeDefinition") || same(
        struct_name,
        "AttributeDefinitionRaw",
    ) {
        Some("com.amazonaws.dynamodb.v20120810.AttributeDefinition")
    } else if same(struct_name, "LocalSecondaryIndex") || same(
        struct_name,
        "LocalSecondaryIndexRaw",
    ) {
        Some("com.amazonaws.dynamodb.v20120810.LocalSecondaryIndex")
    } else if same(struct_name, "GlobalSecondaryIndex") || same(
        struct_name,
        "GlobalSecondaryIndexRaw",
    ) {
        Some("com.amazonaws.dynamodb.v20120810.GlobalSecondaryIndex")
    } else if same(struct_name, "DeleteGsiAction") || same(struct_name, "DeleteGsiActionRaw") {
        Some("com.amazonaws.dynamodb.v20120810.DeleteGlobalSecondaryIndexAction")
    } else if same(struct_name, "CreateGsiAction") || same(struct_name, "CreateGsiActionRaw") {
        Some("com.amazonaws.dynamodb.v20120810.CreateGlobalSecondaryIndexAction")
    } else if same(struct_name, "UpdateGsiAction") || same(struct_name, "UpdateGsiActionRaw") {
        Some("com.amazonaws.dynamodb.v20120810.UpdateGlobalSecondaryIndexAction")
    } else if same(struct_name, "GlobalSecondaryIndexUpdate") || same(
        struct_name,
        "GlobalSecondaryIndexUpdateRaw",
    ) {
        Some("com.amazonaws.dynamodb.v20120810.GlobalSecondaryIndexUpdate")
    } else if same(struct_name, "Tag") || same(struct_name, "TagRaw") {
        Some("com.amazonaws.dynamodb.v20120810.Tag")
    } else {
        None
    }
}

/// The text of `left` and then `right`.
fn joined(left: &str, right: &str) -> (res: String)
    ensures
        res@ == left@ + right@,
{
    left.to_string().concat(right)
}

/// The kind of value that the words of a serde_json message describe.
pub fn read_found(source: &str) -> (res: Found)
    ensures
        res == found(source@),
{
    if same(source, "boolean `true`") {
        Found::True
    } else if same(source, "boolean `false`") {
        Found::False
    } else if starts_with(source, "floating point ") {
        Found::Float
    } else if starts_with(source, "integer ") {
        Found::Integer
    } else if starts_with(source, "string ") {
        Found::Text
    } else if same(source, "sequence") {
        Found::Array
    } else if same(source, "map") {
        Found::Object
    } else {
        Found::Other
    }
}

/// The kind of value that the words of a serde_json message ask for.
pub fn read_expected(target: &str) -> (res: Expected)
    ensures
        res == expected(target@),
{
    if same(target, "a sequence") {
        Expected::Array
    } else if same(target, "a string") {
        Expected::Text
    } else if same(target, "a boolean") {
        Expected::Boolean
    } else if same(target, "i64") || same(target, "u64") {
        Expected::Integer
    } else if starts_with(target, "struct ") {
        Expected::Struct
    } else if starts_with(target, "a map") || starts_with(target, "map") {
        Expected::Object
    } else {
        Expected::Other
    }
}

/// Maps a type mismatch that serde reports to DynamoDB's
/// `SerializationException` message.
pub fn map_type_mismatch(source: &str, target: &str) -> (res: String)
    ensures
        res@ == type_mismatch(source@, target@),
{
    let message = match (read_expected(target), read_found(source)) {
        (Expected::Text, Found::True) => "TRUE_VALUE cannot be converted to String",
        (Expected::Text, Found::False) => "FALSE_VALUE cannot be converted to String",
        (Expected::Text, Found::Float) => "DECIMAL_VALUE cannot be converted to String",
        (Expected::Text, Found::Integer) => "NUMBER_VALUE cannot be converted to String",
        (Expected::Text, Found::Array) => "Unrecognized collection type class java.lang.String",
        (Expected::Boolean, Found::Text) => "Unexpected token received from parser",
        (Expected::Boolean, Found::Float) => "DECIMAL_VALUE cannot be converted to Boolean",
        (Expected::Boolean, Found::Integer) => "NUMBER_VALUE cannot be converted to Boolean",
        (
            Expected::Boolean,
            Found::Array,
        ) => "Unrecognized collection type class java.lang.Boolean",
        (Expected::Integer, Found::Text) => "STRING_VALUE cannot be converted to Long",
        (Expected::Integer, Found::True) => "TRUE_VALUE cannot be converted to Long",
        (Expected::Integer, Found::False) => "FALSE_VALUE cannot be converted to Long",
        (Expected::Integer, Found::Array) => "Unrecognized collection type class java.lang.Long",
        (
            Expected::Array | Expected::Text | Expected::Boolean | Expected::Integer
            | Expected::Struct,
            Found::Object,
        ) => "Start of structure or map found where not expected",
        (Expected::Array, _) => "Unexpected field type",
        (Expected::Struct, Found::Array) => {
            if let Some(rest) = strip_prefix(target, "struct ") {
                if let Some(class) = map_struct_to_dynamo_class(head(rest, " ")) {
                    return joined("Unrecognized collection type class ", class);
                }
            }
            head(source, " at line ")
        },
        (Expected::Object, Found::Array | Found::Object) => head(source, " at line "),
        (Expected::Struct | Expected::Object, _) => "Unexpected field type",
        _ => head(source, " at line "),
    };
    message.to_string()
}

/// Infers DynamoDB's type conversion error from a message of serde_json. The
/// column in the message says which value of the body was met.
pub fn infer_type_conversion_error(msg: &str, body: &str, target_type: &str) -> (res: String)
    ensures
        res@ == conversion_error(msg@, body@, target_type@),
{
    let bytes = body.as_bytes();
    let mut kind = "TRUE_VALUE";
    if let Some(col) = parse_usize(trim(tail(msg, "column "))) {
        if col > 0 && col <= bytes.len() {
            let byte: u8 = bytes[col - 1];
            if byte == 'f' as u8 {
                kind = "FALSE_VALUE";
            } else if ('0' as u8 <= byte && byte <= '9' as u8) || byte == '-' as u8 {
                kind = "NUMBER_VALUE";
            }
        }
    }
    joined(kind, " cannot be converted to ").concat(target_type)
}

/// Maps an error message of serde_json to the message of DynamoDB's
/// `SerializationException`.
pub fn map_serde_to_dynamodb_message(msg: &str, body: &str) -> (res: String)
    ensures
        res@ == serialization_message(msg@, body@),
{
    if let Some(rest) = strip_prefix(msg, "invalid type: ") {
        return match split_once(rest, ", expected ") {
            Some((source, target)) => map_type_mismatch(
                trim(source),
                trim(head(target, " at line ")),
            ),
            None => msg.to_string(),
        };
    }
    if contains(msg, "expected struct") && starts_with(msg, "invalid length ") {
        if let Some((_, rest)) = split_once(msg, "expected struct ") {
            let struct_name = head(head(rest, "expected struct "), " ");
            if let Some(class) = map_struct_to_dynamo_class(struct_name) {
                return joined("Unrecognized collection type class ", class);
            }
        }
        return "Start of structure or map found where not expected".to_string();
    }
    if starts_with(msg, "expected string for ") || starts_with(msg, "expected value at line ") {
        return infer_type_conversion_error(msg, body, "String");
    }
    msg.to_string()
}

/// The error that the server answers when serde_json refuses `body` with `msg`.
pub open spec fn deserialize_fault(msg: Seq<char>, body: Seq<char>) -> Fault {
    if starts(msg, "VALIDATION:"@) {
        Fault::ValidationException(without_position(msg.skip("VALIDATION:"@.len() as int)))
    } else if occurs(msg, "missing field"@) || occurs(msg, "unknown variant"@) || occurs(
        msg,
        "invalid type: null"@,
    ) {
        Fault::ValidationException(msg)
    } else if occurs(msg, "empty AttributeValue"@) {
        Fault::ValidationException(
            "Supplied AttributeValue is empty, must contain exactly one of the supported datatypes"@,
        )
    } else if occurs(msg, "Supplied AttributeValue"@) {
        Fault::ValidationException(without_position(msg))
    } else {
        Fault::SerializationException(serialization_message(msg, body))
    }
}

/// The error for a `body` that serde_json refuses with the message `msg`.
///
/// A message that starts with "VALIDATION:" comes from a check of the server's
/// own. Missing fields, null values and unknown enum variants are validation
/// errors too, as is an attribute value that is empty or has several types.
pub fn deserialize_error(msg: &str, body: &str) -> (res: DynoxideError)
    ensures
        res@ == deserialize_fault(msg@, body@),
{
    if let Some(stripped) = strip_prefix(msg, "VALIDATION:") {
        return DynoxideError::ValidationException(strip_serde_position(stripped));
    }
    if contains(msg, "missing field") || contains(msg, "unknown variant") || contains(
        msg,
        "invalid type: null",
    ) {
        DynoxideError::ValidationException(msg.to_string())
    } else if contains(msg, "empty AttributeValue") {
        DynoxideError::ValidationException(
            "Supplied AttributeValue is empty, must contain exactly one of the supported datatypes".to_string(),
        )
    } else if contains(msg, "Supplied AttributeValue") {
        DynoxideError::ValidationException(strip_serde_position(msg))
    } else {
        DynoxideError::SerializationException(map_serde_to_dynamodb_message(msg, body))
    }
}

/// `res` is what the server makes of `outcome`, which is what a JSON reader
/// made of `body`.
pub open spec fn deserialized<T>(
    body: Seq<char>,
    outcome: Result<T, String>,
    res: Result<T, DynoxideError>,
) -> bool {
    match (outcome, res) {
        (Ok(value), Ok(result)) => result == value,
        (Err(msg), Err(error)) => error@ == deserialize_fault(msg@, body),
        _ => false,
    }
}

/// Reads `body` with `parse`, which gives the value or the message of
/// serde_json.
pub fn deserialize<T, F: FnOnce(&str) -> Result<T, String>>(body: &str, parse: F) -> (res: Result<
    T,
    DynoxideError,
>)
    requires
        call_requires(parse, (body,)),
    ensures
        exists|outcome: Result<T, String>| #[trigger]
            call_ensures(parse, (body,), outcome) && deserialized(body@, outcome, res),
{
    match parse(body) {
        Ok(value) => Ok(value),
        Err(msg) => Err(deserialize_error(msg.as_str(), body)),
    }
}

/// Reads `body` as a JSON value.
pub fn deserialize_value(body: &str) -> (res: Result<serde_json::Value, DynoxideError>)
    ensures
        match json_value(body@) {
            Ok(value) => res == Ok::<serde_json::Value, DynoxideError>(value),
            Err(msg) => res matches Err(error) && error@ == deserialize_fault(msg, body@),
        },
{
    match parse_json(body) {
        Ok(value) => Ok(value),
        Err(msg) => Err(deserialize_error(msg.as_str(), body)),
    }
}

/// Reads `body` as a JSON string.
pub fn deserialize_string(body: &str) -> (res: Result<String, DynoxideError>)
    ensures
        match string_value(body@) {
            Ok(val) => res matches Ok(read) && read@ == val,
            Err(msg) => res matches Err(error) && error@ == deserialize_fault(msg, body@),
        },
        gives_string(body@, res),
{
    deserialize(body, read_string)
}

/// Reads `body` as a JSON boolean.
pub fn deserialize_bool(body: &str) -> (res: Result<bool, DynoxideError>)
    ensures
        match bool_value(body@) {
            Ok(val) => res == Ok::<bool, DynoxideError>(val),
            Err(msg) => res matches Err(error) && error@ == deserialize_fault(msg, body@),
        },
        gives_bool(body@, res),
{
    deserialize(body, read_bool)
}

/// Reads `body` as a JSON integer of 64 bits.
pub fn deserialize_i64(body: &str) -> (res: Result<i64, DynoxideError>)
    ensures
        match i64_value(body@) {
            Ok(val) => res == Ok::<i64, DynoxideError>(val),
            Err(msg) => res matches Err(error) && error@ == deserialize_fault(msg, body@),
        },
        gives_i64(body@, res),
{
    deserialize(body, read_i64)
}

/// Writes `val` with `render`, which gives the text or the message of
/// serde_json.
pub fn serialize<T, F: FnOnce(&T) -> Result<String, String>>(val: &T, render: F) -> (res: Result<
    String,
    DynoxideError,
>)
    requires
        call_requires(render, (val,)),
    ensures
        exists|outcome: Result<String, String>| #[trigger]
            call_ensures(render, (val,), outcome) && match outcome {
                Ok(text) => res == Ok::<String, DynoxideError>(text),
                Err(msg) => res matches Err(error) && error@ == Fault::InternalServerError(msg@),
            },
{
    match render(val) {
        Ok(text) => Ok(text),
        Err(msg) => Err(DynoxideError::InternalServerError(msg)),
    }
}

/// Writes a string as JSON.
pub fn serialize_string(val: &String) -> (res: Result<String, DynoxideError>)
    ensures
        res matches Ok(text) && text@ == json_string(val@),
{
    serialize(val, write_string)
}

/// Writes a boolean as JSON.
pub fn serialize_bool(val: &bool) -> (res: Result<String, DynoxideError>)
    ensures
        res matches Ok(text) && text@ == bool_text(*val),
{
    serialize(val, write_bool)
}

/// Writes an integer as JSON.
pub fn serialize_i64(val: &i64) -> (res: Result<String, DynoxideError>)
    ensures
        res matches Ok(text) && text@ == int_text(*val as int),
{
    serialize(val, write_i64)
}

} // verus!

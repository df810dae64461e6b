//! What holds of the mapping of errors as a whole.

use crate::error::{DynoxideError, Fault};
use crate::json::{bool_value, i64_value, json_value, string_value};
use crate::serde_errors::{
    conversion_error, deserialize, deserialize_bool, deserialize_error, deserialize_fault,
    deserialize_i64, deserialize_string, deserialize_value, dynamo_class, expected, found,
    infer_type_conversion_error, is_position, map_serde_to_dynamodb_message, map_type_mismatch,
    position, serialization_message, serialize, serialize_bool, serialize_i64, serialize_string,
    strip_serde_position, type_mismatch, unexpected_struct, value_kind, without_position,
};
use crate::text::{
    before_first, decimal, digit, digits, first_after, first_index, last_index, lemma_absent,
    lemma_first_after, lemma_first_after_by, lemma_first_occurs, lemma_last_before_by,
    lemma_last_occurs, number, occurs, occurs_at, starts, trimmed,
};
use crate::text_laws::{
    law_cut_at_the_first, law_cut_at_the_last, law_nothing_to_cut_at, law_what_starts_goes_on,
    lemma_between, lemma_cut,
};
use vstd::prelude::*;
use vstd::utf8::encode_utf8;

verus! {

/// After its first words, a position holds no `a`.
proof fn lemma_position_tail(line: Seq<char>, column: Seq<char>)
    requires
        digits(line),
        digits(column),
    ensures
        !(line + " column "@ + column).contains('a'),
{
    let s = line + " column "@ + column;
    reveal_strlit(" column ");
    assert forall|i: int| 0 <= i < s.len() implies s[i] != 'a' by {
        if i < line.len() {
            assert(s[i] == line[i]);
        } else if i < line.len() + 8 {
            assert(s[i] == " column "@[i - line.len()]);
        } else {
            assert(s[i] == column[i - line.len() - 8]);
        }
    }
}

/// Stripping takes off the position that serde_json appends, whatever the
/// message says.
pub proof fn law_position_is_stripped(msg: Seq<char>, line: Seq<char>, column: Seq<char>)
    requires
        line.len() > 0,
        digits(line),
        column.len() > 0,
        digits(column),
    ensures
        without_position(msg + position(line, column)) == msg,
{
    let rest = line + " column "@ + column;
    let s = msg + position(line, column);
    assert(s =~= msg + " at line "@ + rest);
    lemma_position_tail(line, column);
    assert(" at line "@[1] == 'a' && forall|j: int|
        0 <= j < " at line "@.len() && j != 1 ==> " at line "@[j] != 'a') by {
        reveal_strlit(" at line ");
    }
    assert(" at line "@.len() > 1) by {
        reveal_strlit(" at line ");
    }
    lemma_last_before_by(msg, " at line "@, rest, 1);
    assert(s.skip(msg.len() as int) =~= position(line, column));
    assert(s.take(msg.len() as int) =~= msg);
}

/// Nothing but a position is stripped: what is taken off is a position with
/// its two numbers, and a message that does not end in one is kept whole.
pub proof fn law_only_a_position_is_stripped(msg: Seq<char>)
    ensures
        without_position(msg) == msg || exists|line: Seq<char>, column: Seq<char>|
            {
                &&& msg == without_position(msg) + #[trigger] position(line, column)
                &&& line.len() > 0 && digits(line)
                &&& column.len() > 0 && digits(column)
            },
        (forall|i: int| 0 <= i <= msg.len() ==> !is_position(#[trigger] msg.skip(i)))
            ==> without_position(msg) == msg,
        without_position(msg).is_prefix_of(msg),
{
    if occurs(msg, " at line "@) {
        lemma_last_occurs(msg, " at line "@);
        let i = last_index(msg, " at line "@).unwrap();
        let suffix = msg.skip(i);
        assert(msg =~= msg.take(i) + suffix);
    }
}

/// The message of serde_json for a value of one type where another is
/// expected.
pub open spec fn mismatch_message(
    source: Seq<char>,
    target: Seq<char>,
    line: Seq<char>,
    column: Seq<char>,
) -> Seq<char> {
    "invalid type: "@ + source + ", expected "@ + target + position(line, column)
}

/// The two types in serde_json's message for a type mismatch are found again,
/// and decide what DynamoDB says.
pub proof fn law_mismatch_is_mapped(
    source: Seq<char>,
    target: Seq<char>,
    line: Seq<char>,
    column: Seq<char>,
    body: Seq<char>,
)
    requires
        digits(line),
        digits(column),
        first_after(source, ", expected "@),
        first_after(target, " at line "@),
    ensures
        serialization_message(mismatch_message(source, target, line, column), body)
            == type_mismatch(trimmed(source), trimmed(target)),
{
    let msg = mismatch_message(source, target, line, column);
    let intro = "invalid type: "@;
    assert(msg.subrange(0, intro.len() as int) =~= intro);
    let rest = msg.skip(intro.len() as int);
    let wanted = target + position(line, column);
    let tail = line + " column "@ + column;
    assert(rest =~= source + ", expected "@ + wanted);
    assert(wanted =~= target + " at line "@ + tail);
    assert(", expected "@.len() > 0 && " at line "@.len() > 0) by {
        reveal_strlit(", expected ");
        reveal_strlit(" at line ");
    }
    lemma_first_after(source, ", expected "@, wanted);
    lemma_first_after(target, " at line "@, tail);
}

/// The server's own checks speak through a prefix, and are answered as
/// validation errors without prefix and position.
pub proof fn law_own_checks_are_validation_errors(
    text: Seq<char>,
    line: Seq<char>,
    column: Seq<char>,
    body: Seq<char>,
)
    requires
        line.len() > 0,
        digits(line),
        column.len() > 0,
        digits(column),
    ensures
        deserialize_fault("VALIDATION:"@ + text + position(line, column), body)
            == Fault::ValidationException(text),
{
    let msg = "VALIDATION:"@ + text + position(line, column);
    assert(msg.subrange(0, "VALIDATION:"@.len() as int) =~= "VALIDATION:"@);
    assert(msg.skip("VALIDATION:"@.len() as int) =~= text + position(line, column));
    law_position_is_stripped(text, line, column);
}

/// The words in a message of serde_json that make it a validation error.
pub open spec fn speaks_of_validation(msg: Seq<char>) -> bool {
    ||| starts(msg, "VALIDATION:"@)
    ||| occurs(msg, "missing field"@)
    ||| occurs(msg, "unknown variant"@)
    ||| occurs(msg, "invalid type: null"@)
    ||| occurs(msg, "empty AttributeValue"@)
    ||| occurs(msg, "Supplied AttributeValue"@)
}

/// A refused body is a validation error exactly if the message speaks of one,
/// and a serialization error otherwise; it is never a failure of the server.
pub proof fn law_validation_or_serialization(msg: Seq<char>, body: Seq<char>)
    ensures
        deserialize_fault(msg, body) is ValidationException <==> speaks_of_validation(msg),
        deserialize_fault(msg, body) is SerializationException <==> !speaks_of_validation(msg),
{
}

/// `c` is in none of the words that serde_json puts around the two types.
spec fn outside_frame(c: char) -> bool {
    &&& !digit(c)
    &&& !", expected "@.contains(c)
    &&& !" at line "@.contains(c)
    &&& !" column "@.contains(c)
}

/// What no part of a message for a type mismatch holds, the message does not
/// hold after its introduction.
proof fn lemma_not_after_introduction(
    source: Seq<char>,
    target: Seq<char>,
    line: Seq<char>,
    column: Seq<char>,
    c: char,
)
    requires
        digits(line),
        digits(column),
        outside_frame(c),
        !source.contains(c),
        !target.contains(c),
    ensures
        !(source + ", expected "@ + target + position(line, column)).contains(c),
{
    let sep = ", expected "@;
    let at = " at line "@;
    let col = " column "@;
    let s = source + sep + target + position(line, column);
    let a = source.len();
    let b = a + sep.len();
    let d = b + target.len();
    let e = d + at.len();
    let f = e + line.len();
    let g = f + col.len();
    assert forall|i: int| 0 <= i < s.len() implies s[i] != c by {
        if i < a {
            assert(s[i] == source[i]);
        } else if i < b {
            assert(s[i] == sep[i - a]);
        } else if i < d {
            assert(s[i] == target[i - b]);
        } else if i < e {
            assert(s[i] == at[i - d]);
        } else if i < f {
            assert(s[i] == line[i - e]);
        } else if i < g {
            assert(s[i] == col[i - f]);
        } else {
            assert(s[i] == column[i - g]);
        }
    }
}

/// An integer where a string is expected is a `SerializationException` that
/// says "NUMBER_VALUE cannot be converted to String", whatever the integer and
/// wherever it stands.
pub proof fn law_integer_is_no_string(
    negative: bool,
    integer: Seq<char>,
    line: Seq<char>,
    column: Seq<char>,
    body: Seq<char>,
)
    requires
        digits(integer),
        digits(line),
        digits(column),
    ensures
        deserialize_fault(
            mismatch_message(
                "integer `"@ + (if negative {
                    "-"@
                } else {
                    ""@
                }) + integer + "`"@,
                "a string"@,
                line,
                column,
            ),
            body,
        ) == Fault::SerializationException("NUMBER_VALUE cannot be converted to String"@),
{
    let sign = if negative {
        "-"@
    } else {
        ""@
    };
    let source = "integer `"@ + sign + integer + "`"@;
    let target = "a string"@;
    let msg = mismatch_message(source, target, line, column);
    reveal_strlit("integer `");
    reveal_strlit("-");
    reveal_strlit("");
    reveal_strlit("`");
    reveal_strlit("a string");
    reveal_strlit("a sequence");
    reveal_strlit("boolean `true`");
    reveal_strlit("boolean `false`");
    reveal_strlit("floating point ");
    reveal_strlit("integer ");
    reveal_strlit(", expected ");
    reveal_strlit(" at line ");
    reveal_strlit(" column ");
    reveal_strlit(" ");
    reveal_strlit("invalid type: ");

    assert(source.first() == 'i');
    assert(source.last() == '`');
    assert(target.first() == 'a');
    assert(target.last() == 'g');
    assert forall|c: char| #[trigger] source.contains(c) implies digit(c) || c == '-'
        || "integer `"@.contains(c) by {
        let i = choose|i: int| 0 <= i < source.len() && source[i] == c;
        if i < 9 {
            assert("integer `"@[i] == c);
        } else if i >= 9 + sign.len() && i < source.len() - 1 {
            assert(source[i] == integer[i - 9 - sign.len()]);
        } else if i == source.len() - 1 {
            assert("integer `"@[8] == c);
        }
    }
    assert(!source.contains(','));
    lemma_first_after_by(source, ", expected "@, 0);
    lemma_first_after_by(target, " at line "@, 4);
    law_mismatch_is_mapped(source, target, line, column, body);
    assert(trimmed(source) == source && trimmed(target) == target);

    assert(source.subrange(0, 8) =~= "integer "@);
    assert(starts(source, "integer "@));
    assert(source[0] == 'i');
    assert(!starts(source, "floating point "@)) by {
        if starts(source, "floating point "@) {
            assert(source.subrange(0, 15)[0] == 'f');
        }
    }
    assert(target != "a sequence"@);

    assert(!speaks_of_validation(msg)) by {
        reveal_strlit("VALIDATION:");
        reveal_strlit("missing field");
        reveal_strlit("unknown variant");
        reveal_strlit("invalid type: null");
        reveal_strlit("empty AttributeValue");
        reveal_strlit("Supplied AttributeValue");
        let rest = source + ", expected "@ + target + position(line, column);
        assert(msg =~= "invalid type: "@ + rest);
        assert(msg[0] == 'i');
        if starts(msg, "VALIDATION:"@) {
            assert(msg.subrange(0, 11)[0] == 'V');
        }
        assert forall|c: char|
            c == 'f' || c == 'k' || c == 'A' || c == ':' implies !rest.contains(c) by {
            lemma_not_after_introduction(source, target, line, column, c);
        }
        assert forall|c: char| c == 'f' || c == 'k' || c == 'A' implies !#[trigger] msg.contains(
            c,
        ) by {
            if msg.contains(c) {
                let i = choose|i: int| 0 <= i < msg.len() && msg[i] == c;
                if i >= 14 {
                    assert(rest[i - 14] == c);
                }
            }
        }
        lemma_absent(msg, "missing field"@, 8);
        lemma_absent(msg, "unknown variant"@, 2);
        lemma_absent(msg, "empty AttributeValue"@, 6);
        lemma_absent(msg, "Supplied AttributeValue"@, 9);
        assert forall|i: int| occurs_at(msg, "invalid type: null"@, i) implies false by {
            let part = msg.subrange(i, i + 18);
            assert(part[12] == msg[i + 12]);
            assert(part[14] == msg[i + 14]);
            if i + 12 >= 14 {
                assert(rest[i + 12 - 14] == ':');
            }
            assert(i == 0);
            assert(msg[14] == source[0]);
        }
    }
}

/// The column at the end of a message says which byte of the body decides the
/// kind of value that DynamoDB names.
pub proof fn law_column_finds_the_value(
    start: Seq<char>,
    column: Seq<char>,
    body: Seq<char>,
    target: Seq<char>,
)
    requires
        digits(column),
        column.len() > 0,
        0 < decimal(column) <= encode_utf8(body).len(),
        decimal(column) <= usize::MAX,
    ensures
        conversion_error(start + "column "@ + column, body, target) == value_kind(
            encode_utf8(body)[decimal(column) - 1],
        ) + " cannot be converted to "@ + target,
{
    reveal_strlit("column ");
    assert(digit(column[0]) && digit(column.last()));
    assert(!column.contains('c'));
    lemma_last_before_by(start, "column "@, column, 0);
    assert(trimmed(column) == column);
    assert(number(column) == Some(decimal(column)));
}

/// How a name with "Raw" after it compares with a plain name and its raw form.
proof fn lemma_raw_form(name: Seq<char>, plain: Seq<char>, raw: Seq<char>)
    requires
        raw == plain + "Raw"@,
        plain.len() > 0,
        plain.last() != 'w',
    ensures
        name + "Raw"@ == raw <==> name == plain,
        name + "Raw"@ != plain,
        name + "Raw"@ + "Raw"@ != raw,
        name + "Raw"@ + "Raw"@ != plain,
        name == raw ==> "Raw"@.is_suffix_of(name),
{
    reveal_strlit("Raw");
    let once = name + "Raw"@;
    let twice = once + "Raw"@;
    assert(once.last() == 'w' && twice.last() == 'w');
    assert(once.take(name.len() as int) =~= name);
    assert(twice.take(once.len() as int) =~= once);
    assert(raw.take(plain.len() as int) =~= plain);
    assert(raw.subrange(raw.len() - 3, raw.len() as int) =~= "Raw"@);
}

/// A structure and its raw form stand for the same Java class, or both for
/// none; there is no raw form of a raw form.
pub proof fn law_raw_form_has_the_same_class(name: Seq<char>)
    requires
        !"Raw"@.is_suffix_of(name),
    ensures
        dynamo_class(name + "Raw"@) == dynamo_class(name),
        dynamo_class(name + "Raw"@ + "Raw"@) is None,
{
    reveal_strlit("Raw");
    reveal_strlit("ProvisionedThroughput");
    reveal_strlit("ProvisionedThroughputRaw");
    reveal_strlit("Projection");
    reveal_strlit("ProjectionRaw");
    reveal_strlit("KeySchemaElement");
    reveal_strlit("KeySchemaElementRaw");
    reveal_strlit("AttributeDefinition");
    reveal_strlit("AttributeDefinitionRaw");
    reveal_strlit("LocalSecondaryIndex");
    reveal_strlit("LocalSecondaryIndexRaw");
    reveal_strlit("GlobalSecondaryIndex");
    reveal_strlit("GlobalSecondaryIndexRaw");
    reveal_strlit("DeleteGsiAction");
    reveal_strlit("DeleteGsiActionRaw");
    reveal_strlit("CreateGsiAction");
    reveal_strlit("CreateGsiActionRaw");
    reveal_strlit("UpdateGsiAction");
    reveal_strlit("UpdateGsiActionRaw");
    reveal_strlit("GlobalSecondaryIndexUpdate");
    reveal_strlit("GlobalSecondaryIndexUpdateRaw");
    reveal_strlit("Tag");
    reveal_strlit("TagRaw");
    assert("ProvisionedThroughputRaw"@ =~= "ProvisionedThroughput"@ + "Raw"@);
    assert("ProjectionRaw"@ =~= "Projection"@ + "Raw"@);
    assert("KeySchemaElementRaw"@ =~= "KeySchemaElement"@ + "Raw"@);
    assert("AttributeDefinitionRaw"@ =~= "AttributeDefinition"@ + "Raw"@);
    assert("LocalSecondaryIndexRaw"@ =~= "LocalSecondaryIndex"@ + "Raw"@);
    assert("GlobalSecondaryIndexRaw"@ =~= "GlobalSecondaryIndex"@ + "Raw"@);
    assert("DeleteGsiActionRaw"@ =~= "DeleteGsiAction"@ + "Raw"@);
    assert("CreateGsiActionRaw"@ =~= "CreateGsiAction"@ + "Raw"@);
    assert("UpdateGsiActionRaw"@ =~= "UpdateGsiAction"@ + "Raw"@);
    assert("GlobalSecondaryIndexUpdateRaw"@ =~= "GlobalSecondaryIndexUpdate"@ + "Raw"@);
    assert("TagRaw"@ =~= "Tag"@ + "Raw"@);
    lemma_raw_form(name, "ProvisionedThroughput"@, "ProvisionedThroughputRaw"@);
    lemma_raw_form(name, "Projection"@, "ProjectionRaw"@);
    lemma_raw_form(name, "KeySchemaElement"@, "KeySchemaElementRaw"@);
    lemma_raw_form(name, "AttributeDefinition"@, "AttributeDefinitionRaw"@);
    lemma_raw_form(name, "LocalSecondaryIndex"@, "LocalSecondaryIndexRaw"@);
    lemma_raw_form(name, "GlobalSecondaryIndex"@, "GlobalSecondaryIndexRaw"@);
    lemma_raw_form(name, "DeleteGsiAction"@, "DeleteGsiActionRaw"@);
    lemma_raw_form(name, "CreateGsiAction"@, "CreateGsiActionRaw"@);
    lemma_raw_form(name, "UpdateGsiAction"@, "UpdateGsiActionRaw"@);
    lemma_raw_form(name, "GlobalSecondaryIndexUpdate"@, "GlobalSecondaryIndexUpdateRaw"@);
    lemma_raw_form(name, "Tag"@, "TagRaw"@);
}

/// Every Java class is one of DynamoDB's.
pub proof fn law_classes_are_of_dynamodb(name: Seq<char>)
    ensures
        dynamo_class(name) matches Some(class) ==> starts(
            class,
            "com.amazonaws.dynamodb.v20120810."@,
        ),
{
    let package = "com.amazonaws.dynamodb.v20120810."@;
    reveal_strlit("com.amazonaws.dynamodb.v20120810.");
    reveal_strlit("com.amazonaws.dynamodb.v20120810.ProvisionedThroughput");
    reveal_strlit("com.amazonaws.dynamodb.v20120810.Projection");
    reveal_strlit("com.amazonaws.dynamodb.v20120810.KeySchemaElement");
    reveal_strlit("com.amazonaws.dynamodb.v20120810.AttributeDefinition");
    reveal_strlit("com.amazonaws.dynamodb.v20120810.LocalSecondaryIndex");
    reveal_strlit("com.amazonaws.dynamodb.v20120810.GlobalSecondaryIndex");
    reveal_strlit("com.amazonaws.dynamodb.v20120810.DeleteGlobalSecondaryIndexAction");
    reveal_strlit("com.amazonaws.dynamodb.v20120810.CreateGlobalSecondaryIndexAction");
    reveal_strlit("com.amazonaws.dynamodb.v20120810.UpdateGlobalSecondaryIndexAction");
    reveal_strlit("com.amazonaws.dynamodb.v20120810.GlobalSecondaryIndexUpdate");
    reveal_strlit("com.amazonaws.dynamodb.v20120810.Tag");
    if let Some(class) = dynamo_class(name) {
        assert(class.subrange(0, package.len() as int) =~= package);
    }
}

/// A string that was written is read back.
pub proof fn law_written_string_is_read_back(
    val: String,
    text: String,
    body: &str,
    read: Result<String, DynoxideError>,
)
    requires
        call_ensures(serialize_string, (&val,), Ok::<String, DynoxideError>(text)),
        body@ == text@,
        call_ensures(deserialize_string, (body,), read),
    ensures
        read matches Ok(back) && back@ == val@,
{
}

/// A boolean that was written is read back.
pub proof fn law_written_bool_is_read_back(
    val: bool,
    text: String,
    body: &str,
    read: Result<bool, DynoxideError>,
)
    requires
        call_ensures(serialize_bool, (&val,), Ok::<String, DynoxideError>(text)),
        body@ == text@,
        call_ensures(deserialize_bool, (body,), read),
    ensures
        read == Ok::<bool, DynoxideError>(val),
{
}

/// An integer of 64 bits that was written is read back.
pub proof fn law_written_integer_is_read_back(
    val: i64,
    text: String,
    body: &str,
    read: Result<i64, DynoxideError>,
)
    requires
        call_ensures(serialize_i64, (&val,), Ok::<String, DynoxideError>(text)),
        body@ == text@,
        call_ensures(deserialize_i64, (body,), read),
    ensures
        read == Ok::<i64, DynoxideError>(val),
{
}

/// What a text starts with, it holds in front.
proof fn lemma_prefix(s: Seq<char>, prefix: Seq<char>)
    ensures
        starts(s, prefix) <==> prefix.is_prefix_of(s),
        starts(s, prefix) ==> s.len() >= prefix.len() && forall|i: int|
            0 <= i < prefix.len() ==> s[i] == #[trigger] prefix[i],
{
    if prefix.len() <= s.len() {
        assert(s.subrange(0, prefix.len() as int) =~= s.take(prefix.len() as int));
        if starts(s, prefix) {
            assert forall|i: int| 0 <= i < prefix.len() implies s[i] == #[trigger] prefix[i] by {
                assert(s.subrange(0, prefix.len() as int)[i] == s[i]);
            }
        }
    }
}

/// The words for what was found tell one kind from another.
proof fn lemma_found(source: Seq<char>)
    ensures
        found(source) is True <==> source == "boolean `true`"@,
        found(source) is False <==> source == "boolean `false`"@,
        found(source) is Float <==> "floating point "@.is_prefix_of(source),
        found(source) is Integer <==> "integer "@.is_prefix_of(source),
        found(source) is Text <==> "string "@.is_prefix_of(source),
        found(source) is Array <==> source == "sequence"@,
        found(source) is Object <==> source == "map"@,
{
    reveal_strlit("boolean `true`");
    reveal_strlit("boolean `false`");
    reveal_strlit("floating point ");
    reveal_strlit("integer ");
    reveal_strlit("string ");
    reveal_strlit("sequence");
    reveal_strlit("map");
    lemma_prefix(source, "floating point "@);
    lemma_prefix(source, "integer "@);
    lemma_prefix(source, "string "@);
    let float = "floating point "@;
    let integer = "integer "@;
    let text = "string "@;
    assert(float[0] == 'f' && integer[0] == 'i' && text[0] == 's' && text[1] == 't');
    assert("boolean `true`"@[0] == 'b' && "boolean `false`"@[0] == 'b');
    assert("boolean `true`"@.len() == 14 && "boolean `false`"@.len() == 15);
    assert("sequence"@[0] == 's' && "sequence"@[1] == 'e' && "map"@[0] == 'm');
}

/// The words for what was expected tell one kind from another.
proof fn lemma_expected(target: Seq<char>)
    ensures
        expected(target) is Array <==> target == "a sequence"@,
        expected(target) is Text <==> target == "a string"@,
        expected(target) is Boolean <==> target == "a boolean"@,
        expected(target) is Integer <==> target == "i64"@ || target == "u64"@,
        expected(target) is Struct <==> "struct "@.is_prefix_of(target),
        expected(target) is Object <==> "a map"@.is_prefix_of(target) || "map"@.is_prefix_of(
            target,
        ),
{
    reveal_strlit("a sequence");
    reveal_strlit("a string");
    reveal_strlit("a boolean");
    reveal_strlit("i64");
    reveal_strlit("u64");
    reveal_strlit("struct ");
    reveal_strlit("a map");
    reveal_strlit("map");
    lemma_prefix(target, "struct "@);
    lemma_prefix(target, "a map"@);
    lemma_prefix(target, "map"@);
    assert("a sequence"@[0] == 'a' && "a sequence"@[2] == 's' && "a sequence"@.len() == 10);
    assert("a string"@[0] == 'a' && "a string"@[2] == 's' && "a string"@.len() == 8);
    assert("a boolean"@[0] == 'a' && "a boolean"@[2] == 'b' && "a boolean"@.len() == 9);
    assert("i64"@[0] == 'i' && "u64"@[0] == 'u');
    assert("struct "@[0] == 's' && "map"@[0] == 'm');
    assert("a map"@[0] == 'a' && "a map"@[2] == 'm');
}

/// What DynamoDB says for each kind of value where each other kind is expected,
/// by the words of serde. Where it says nothing of its own, what serde found is
/// repeated, up to a position.
pub proof fn law_mismatch_table(source: &str, target: &str, res: String)
    requires
        call_ensures(map_type_mismatch, (source, target), res),
    ensures
        target@ == "a string"@ ==> {
            &&& source@ == "boolean `true`"@ ==> res@ == "TRUE_VALUE cannot be converted to String"@
            &&& source@ == "boolean `false`"@ ==> res@
                == "FALSE_VALUE cannot be converted to String"@
            &&& "floating point "@.is_prefix_of(source@) ==> res@
                == "DECIMAL_VALUE cannot be converted to String"@
            &&& "integer "@.is_prefix_of(source@) ==> res@
                == "NUMBER_VALUE cannot be converted to String"@
            &&& source@ == "sequence"@ ==> res@
                == "Unrecognized collection type class java.lang.String"@
            &&& source@ == "map"@ ==> res@ == "Start of structure or map found where not expected"@
            &&& source@ != "boolean `true`"@ && source@ != "boolean `false`"@
                && !"floating point "@.is_prefix_of(source@) && !"integer "@.is_prefix_of(source@)
                && source@ != "sequence"@ && source@ != "map"@ ==> res@ == before_first(
                source@,
                " at line "@,
            )
        },
        target@ == "a boolean"@ ==> {
            &&& "string "@.is_prefix_of(source@) ==> res@ == "Unexpected token received from parser"@
            &&& "floating point "@.is_prefix_of(source@) ==> res@
                == "DECIMAL_VALUE cannot be converted to Boolean"@
            &&& "integer "@.is_prefix_of(source@) ==> res@
                == "NUMBER_VALUE cannot be converted to Boolean"@
            &&& source@ == "sequence"@ ==> res@
                == "Unrecognized collection type class java.lang.Boolean"@
            &&& source@ == "map"@ ==> res@ == "Start of structure or map found where not expected"@
            &&& !"string "@.is_prefix_of(source@) && !"floating point "@.is_prefix_of(source@)
                && !"integer "@.is_prefix_of(source@) && source@ != "sequence"@ && source@
                != "map"@ ==> res@ == before_first(source@, " at line "@)
        },
        target@ == "i64"@ || target@ == "u64"@ ==> {
            &&& "string "@.is_prefix_of(source@) ==> res@
                == "STRING_VALUE cannot be converted to Long"@
            &&& source@ == "boolean `true`"@ ==> res@ == "TRUE_VALUE cannot be converted to Long"@
            &&& source@ == "boolean `false`"@ ==> res@ == "FALSE_VALUE cannot be converted to Long"@
            &&& source@ == "sequence"@ ==> res@
                == "Unrecognized collection type class java.lang.Long"@
            &&& source@ == "map"@ ==> res@ == "Start of structure or map found where not expected"@
            &&& !"string "@.is_prefix_of(source@) && source@ != "boolean `true`"@ && source@
                != "boolean `false`"@ && source@ != "sequence"@ && source@ != "map"@ ==> res@
                == before_first(source@, " at line "@)
        },
        target@ == "a sequence"@ ==> {
            &&& source@ == "map"@ ==> res@ == "Start of structure or map found where not expected"@
            &&& source@ != "map"@ ==> res@ == "Unexpected field type"@
        },
        "struct "@.is_prefix_of(target@) ==> {
            &&& source@ == "map"@ ==> res@ == "Start of structure or map found where not expected"@
            &&& source@ != "map"@ && source@ != "sequence"@ ==> res@ == "Unexpected field type"@
        },
        "a map"@.is_prefix_of(target@) || "map"@.is_prefix_of(target@) ==> {
            &&& source@ == "map"@ ==> res@ == "map"@
            &&& source@ == "sequence"@ ==> res@ == "sequence"@
            &&& source@ != "map"@ && source@ != "sequence"@ ==> res@ == "Unexpected field type"@
        },
        target@ != "a string"@ && target@ != "a boolean"@ && target@ != "i64"@ && target@ != "u64"@
            && target@ != "a sequence"@ && !"struct "@.is_prefix_of(target@)
            && !"a map"@.is_prefix_of(target@) && !"map"@.is_prefix_of(target@) ==> res@
            == before_first(source@, " at line "@),
{
    lemma_found(source@);
    lemma_expected(target@);
    assert(!occurs("map"@, " at line "@) && !occurs("sequence"@, " at line "@)) by {
        reveal_strlit("map");
        reveal_strlit("sequence");
        reveal_strlit(" at line ");
        lemma_absent("map"@, " at line "@, 0);
        lemma_absent("sequence"@, " at line "@, 0);
    }
}

/// A list where a structure is expected is answered with the Java class of the
/// structure, if the word after "struct" stands for one, whatever follows the
/// word. Otherwise what serde found is repeated.
pub proof fn law_list_for_a_structure(
    name: Seq<char>,
    rest: Seq<char>,
    source: &str,
    target: &str,
    res: String,
)
    requires
        call_ensures(map_type_mismatch, (source, target), res),
        source@ == "sequence"@,
        target@ == "struct "@ + name + rest,
        !name.contains(' '),
        rest.len() == 0 || rest.first() == ' ',
    ensures
        dynamo_class(name) matches Some(class) ==> res@ == "Unrecognized collection type class "@
            + class,
        dynamo_class(name) is None ==> res@ == "sequence"@,
{
    lemma_found(source@);
    lemma_expected(target@);
    lemma_prefix(target@, "struct "@);
    assert("struct "@.is_prefix_of(target@)) by {
        assert(target@.take("struct "@.len() as int) =~= "struct "@);
    }
    assert(target@.skip("struct "@.len() as int) =~= name + rest);
    lemma_first_word(name, rest);
    assert(!occurs("sequence"@, " at line "@)) by {
        reveal_strlit("sequence");
        reveal_strlit(" at line ");
        lemma_absent("sequence"@, " at line "@, 0);
    }
}

/// A word ends where a space follows it, or the text ends.
proof fn lemma_first_word(name: Seq<char>, rest: Seq<char>)
    requires
        !name.contains(' '),
        rest.len() == 0 || rest.first() == ' ',
    ensures
        before_first(name + rest, " "@) == name,
{
    reveal_strlit(" ");
    if rest.len() == 0 {
        assert(name + rest =~= name);
        lemma_absent(name, " "@, 0);
    } else {
        assert(name + rest =~= name + " "@ + rest.drop_first());
        lemma_first_after_by(name, " "@, 0);
        lemma_first_after(name, " "@, rest.drop_first());
    }
}

/// The Java class of a structure is its name in DynamoDB's package. It is
/// found under the name and under the name with "Raw" after it, for these
/// structures and no others; an action on a global secondary index has the
/// index written short.
pub proof fn law_class_table(name: Seq<char>)
    ensures
        dynamo_class(name) == if name == "ProvisionedThroughput"@ || name
            == "ProvisionedThroughputRaw"@ {
            Some("com.amazonaws.dynamodb.v20120810."@ + "ProvisionedThroughput"@)
        } else if name == "Projection"@ || name == "ProjectionRaw"@ {
            Some("com.amazonaws.dynamodb.v20120810."@ + "Projection"@)
        } else if name == "KeySchemaElement"@ || name == "KeySchemaElementRaw"@ {
            Some("com.amazonaws.dynamodb.v20120810."@ + "KeySchemaElement"@)
        } else if name == "AttributeDefinition"@ || name == "AttributeDefinitionRaw"@ {
            Some("com.amazonaws.dynamodb.v20120810."@ + "AttributeDefinition"@)
        } else if name == "LocalSecondaryIndex"@ || name == "LocalSecondaryIndexRaw"@ {
            Some("com.amazonaws.dynamodb.v20120810."@ + "LocalSecondaryIndex"@)
        } else if name == "GlobalSecondaryIndex"@ || name == "GlobalSecondaryIndexRaw"@ {
            Some("com.amazonaws.dynamodb.v20120810."@ + "GlobalSecondaryIndex"@)
        } else if name == "DeleteGsiAction"@ || name == "DeleteGsiActionRaw"@ {
            Some("com.amazonaws.dynamodb.v20120810."@ + "DeleteGlobalSecondaryIndexAction"@)
        } else if name == "CreateGsiAction"@ || name == "CreateGsiActionRaw"@ {
            Some("com.amazonaws.dynamodb.v20120810."@ + "CreateGlobalSecondaryIndexAction"@)
        } else if name == "UpdateGsiAction"@ || name == "UpdateGsiActionRaw"@ {
            Some("com.amazonaws.dynamodb.v20120810."@ + "UpdateGlobalSecondaryIndexAction"@)
        } else if name == "GlobalSecondaryIndexUpdate"@ || name
            == "GlobalSecondaryIndexUpdateRaw"@ {
            Some("com.amazonaws.dynamodb.v20120810."@ + "GlobalSecondaryIndexUpdate"@)
        } else if name == "Tag"@ || name == "TagRaw"@ {
            Some("com.amazonaws.dynamodb.v20120810."@ + "Tag"@)
        } else {
            None
        },
{
    let package = "com.amazonaws.dynamodb.v20120810."@;
    reveal_strlit("com.amazonaws.dynamodb.v20120810.");
    reveal_strlit("ProvisionedThroughput");
    reveal_strlit("Projection");
    reveal_strlit("KeySchemaElement");
    reveal_strlit("AttributeDefinition");
    reveal_strlit("LocalSecondaryIndex");
    reveal_strlit("GlobalSecondaryIndex");
    reveal_strlit("DeleteGlobalSecondaryIndexAction");
    reveal_strlit("CreateGlobalSecondaryIndexAction");
    reveal_strlit("UpdateGlobalSecondaryIndexAction");
    reveal_strlit("GlobalSecondaryIndexUpdate");
    reveal_strlit("Tag");
    reveal_strlit("com.amazonaws.dynamodb.v20120810.ProvisionedThroughput");
    reveal_strlit("com.amazonaws.dynamodb.v20120810.Projection");
    reveal_strlit("com.amazonaws.dynamodb.v20120810.KeySchemaElement");
    reveal_strlit("com.amazonaws.dynamodb.v20120810.AttributeDefinition");
    reveal_strlit("com.amazonaws.dynamodb.v20120810.LocalSecondaryIndex");
    reveal_strlit("com.amazonaws.dynamodb.v20120810.GlobalSecondaryIndex");
    reveal_strlit("com.amazonaws.dynamodb.v20120810.DeleteGlobalSecondaryIndexAction");
    reveal_strlit("com.amazonaws.dynamodb.v20120810.CreateGlobalSecondaryIndexAction");
    reveal_strlit("com.amazonaws.dynamodb.v20120810.UpdateGlobalSecondaryIndexAction");
    reveal_strlit("com.amazonaws.dynamodb.v20120810.GlobalSecondaryIndexUpdate");
    reveal_strlit("com.amazonaws.dynamodb.v20120810.Tag");
    assert("com.amazonaws.dynamodb.v20120810.ProvisionedThroughput"@ =~= package
        + "ProvisionedThroughput"@);
    assert("com.amazonaws.dynamodb.v20120810.Projection"@ =~= package + "Projection"@);
    assert("com.amazonaws.dynamodb.v20120810.KeySchemaElement"@ =~= package + "KeySchemaElement"@);
    assert("com.amazonaws.dynamodb.v20120810.AttributeDefinition"@ =~= package
        + "AttributeDefinition"@);
    assert("com.amazonaws.dynamodb.v20120810.LocalSecondaryIndex"@ =~= package
        + "LocalSecondaryIndex"@);
    assert("com.amazonaws.dynamodb.v20120810.GlobalSecondaryIndex"@ =~= package
        + "GlobalSecondaryIndex"@);
    assert("com.amazonaws.dynamodb.v20120810.DeleteGlobalSecondaryIndexAction"@ =~= package
        + "DeleteGlobalSecondaryIndexAction"@);
    assert("com.amazonaws.dynamodb.v20120810.CreateGlobalSecondaryIndexAction"@ =~= package
        + "CreateGlobalSecondaryIndexAction"@);
    assert("com.amazonaws.dynamodb.v20120810.UpdateGlobalSecondaryIndexAction"@ =~= package
        + "UpdateGlobalSecondaryIndexAction"@);
    assert("com.amazonaws.dynamodb.v20120810.GlobalSecondaryIndexUpdate"@ =~= package
        + "GlobalSecondaryIndexUpdate"@);
    assert("com.amazonaws.dynamodb.v20120810.Tag"@ =~= package + "Tag"@);
}

/// The text that stands before the first "expected struct " of a message, and
/// the word after it, are found again.
proof fn lemma_struct_word(intro: Seq<char>, name: Seq<char>, rest: Seq<char>)
    requires
        forall|x: Seq<char>, y: Seq<char>|
            intro + "expected struct "@ + (name + rest) == #[trigger] (x + "expected struct "@ + y)
                ==> intro.len() <= x.len(),
        !name.contains(' '),
        rest.len() == 0 || rest.first() == ' ' || "expected struct "@.is_prefix_of(rest),
        forall|x: Seq<char>, y: Seq<char>|
            name + rest == #[trigger] (x + "expected struct "@ + y) ==> name.len() <= x.len(),
    ensures
        unexpected_struct(intro + "expected struct "@ + (name + rest)) == dynamo_class(name),
        occurs(intro + "expected struct "@ + (name + rest), "expected struct"@),
{
    let pat = "expected struct "@;
    let msg = intro + pat + (name + rest);
    let after = name + rest;
    law_cut_at_the_first(intro, pat, after);
    if pat.is_prefix_of(rest) {
        let more = rest.skip(pat.len() as int);
        assert(rest.take(pat.len() as int) =~= pat);
        assert(after =~= name + pat + more);
        lemma_between(name, pat, more);
    }
    if occurs(after, pat) {
        lemma_first_occurs(after, pat);
        let i = first_index(after, pat).unwrap();
        lemma_cut(after, pat, i);
        assert(name.len() <= i);
        let part = rest.take(i - name.len());
        assert(after.take(i) =~= name + part);
        lemma_first_word(name, part);
    } else {
        lemma_first_word(name, rest);
    }
    reveal_strlit("expected struct ");
    reveal_strlit("expected struct");
    let i = intro.len() as int;
    assert(msg.subrange(i, i + 15) =~= "expected struct"@);
    assert(occurs_at(msg, "expected struct"@, i));
}

/// A message about a length that speaks of a structure is mapped by the word
/// after its first "expected struct ", up to a space or the same words again,
/// whatever follows: to the Java class, if the word stands for one.
pub proof fn law_length_is_mapped_by_the_structure(
    intro: Seq<char>,
    name: Seq<char>,
    rest: Seq<char>,
    msg: &str,
    body: &str,
    res: String,
)
    requires
        call_ensures(map_serde_to_dynamodb_message, (msg, body), res),
        "invalid length "@.is_prefix_of(msg@),
        msg@ == intro + "expected struct "@ + (name + rest),
        forall|x: Seq<char>, y: Seq<char>|
            msg@ == #[trigger] (x + "expected struct "@ + y) ==> intro.len() <= x.len(),
        !name.contains(' '),
        rest.len() == 0 || rest.first() == ' ' || "expected struct "@.is_prefix_of(rest),
        forall|x: Seq<char>, y: Seq<char>|
            name + rest == #[trigger] (x + "expected struct "@ + y) ==> name.len() <= x.len(),
    ensures
        dynamo_class(name) matches Some(class) ==> res@ == "Unrecognized collection type class "@
            + class,
        dynamo_class(name) is None ==> res@ == "Start of structure or map found where not expected"@,
{
    lemma_struct_word(intro, name, rest);
    lemma_prefix(msg@, "invalid length "@);
    lemma_prefix(msg@, "invalid type: "@);
    assert(msg@[8] == 'l' && !starts(msg@, "invalid type: "@)) by {
        reveal_strlit("invalid length ");
        reveal_strlit("invalid type: ");
        assert("invalid length "@[8] == 'l');
        assert("invalid type: "@[8] == 't');
    }
}

/// serde's message for a structure of the wrong length is mapped to the Java
/// class of the structure, whatever the lengths are.
pub proof fn law_wrong_length_names_the_class(
    length: Seq<char>,
    name: Seq<char>,
    class: Seq<char>,
    elements: Seq<char>,
    rest: Seq<char>,
    msg: &str,
    body: &str,
    res: String,
)
    requires
        call_ensures(map_serde_to_dynamodb_message, (msg, body), res),
        msg@ == "invalid length "@ + length + ", expected struct "@ + name + " with "@ + elements
            + rest,
        forall|i: int| 0 <= i < length.len() ==> '0' <= #[trigger] length[i] <= '9',
        forall|i: int| 0 <= i < elements.len() ==> '0' <= #[trigger] elements[i] <= '9',
        !name.contains(' '),
        dynamo_class(name) == Some(class),
        forall|x: Seq<char>, y: Seq<char>| rest != #[trigger] (x + "expected struct "@ + y),
    ensures
        res@ == "Unrecognized collection type class "@ + class,
{
    let pat = "expected struct "@;
    let intro = "invalid length "@ + length + ", "@;
    let tail = " with "@ + elements + rest;
    let after = name + tail;
    reveal_strlit("invalid length ");
    reveal_strlit(", expected struct ");
    reveal_strlit("expected struct ");
    reveal_strlit(", ");
    reveal_strlit(" with ");
    assert(", expected struct "@ =~= ", "@ + pat);
    assert(msg@ =~= intro + pat + after);
    assert("invalid length "@.is_prefix_of(msg@)) by {
        assert(msg@.take(15) =~= "invalid length "@);
    }
    assert(pat[1] == 'x');
    assert(!intro.contains('x')) by {
        if intro.contains('x') {
            let i = choose|i: int| 0 <= i < intro.len() && intro[i] == 'x';
            if i < 15 {
                assert("invalid length "@[i] == 'x');
            } else if i < 15 + length.len() {
                assert(length[i - 15] == 'x');
            } else {
                assert(", "@[i - 15 - length.len()] == 'x');
            }
        }
    }
    assert forall|x: Seq<char>, y: Seq<char>| msg@ == #[trigger] (x + pat + y) implies intro.len()
        <= x.len() by {
        lemma_first_after_by(intro, pat, 1);
        lemma_first_after(intro, pat, after);
        lemma_between(x, pat, y);
        lemma_first_occurs(msg@, pat);
    }
    assert forall|x: Seq<char>, y: Seq<char>| after != #[trigger] (x + pat + y) by {
        if after == x + pat + y {
            let i = x.len() as int;
            let n = name.len() as int;
            let end = n + 6 + elements.len();
            assert(after[i] == pat[0]);
            assert(after[i + 8] == pat[8]);
            assert(after[i + 9] == pat[9]);
            assert(pat[0] == 'e' && pat[8] == ' ' && pat[9] == 's');
            if i < n {
                assert(after[n] == ' ' && after[n + 1] == 'w');
                if n < i + 8 {
                    assert(after[n] == pat[n - i]);
                } else if i + 8 < n {
                    assert(name[i + 8] == ' ');
                }
            } else if i < n + 6 {
                assert(after[i] == " with "@[i - n]);
            } else if i < end {
                assert(after[i] == elements[i - n - 6]);
            } else {
                let start = x.skip(end as int);
                assert(rest =~= after.skip(end as int));
                assert(rest =~= start + pat + y);
            }
        }
    }
    assert(tail.first() == " with "@[0]);
    law_length_is_mapped_by_the_structure(intro, name, tail, msg, body, res);
}

/// A message about a length that speaks of a structure without naming one is
/// mapped too.
pub proof fn law_length_without_a_name(msg: &str, body: &str, res: String)
    requires
        call_ensures(map_serde_to_dynamodb_message, (msg, body), res),
        "invalid length "@.is_prefix_of(msg@),
        occurs(msg@, "expected struct"@),
        !occurs(msg@, "expected struct "@),
    ensures
        res@ == "Start of structure or map found where not expected"@,
{
    lemma_prefix(msg@, "invalid length "@);
    lemma_prefix(msg@, "invalid type: "@);
    assert(!starts(msg@, "invalid type: "@)) by {
        reveal_strlit("invalid length ");
        reveal_strlit("invalid type: ");
        assert("invalid length "@[8] == 'l');
        assert("invalid type: "@[8] == 't');
    }
}

/// A type mismatch is mapped by the two types that the message names, without
/// the white space around them and without anything from a position on.
pub proof fn law_mismatch_is_mapped_by_its_types(
    source: Seq<char>,
    target: Seq<char>,
    tail: Seq<char>,
    left: &str,
    right: &str,
    msg: &str,
    body: &str,
    mapped: String,
    res: String,
)
    requires
        call_ensures(map_serde_to_dynamodb_message, (msg, body), res),
        call_ensures(map_type_mismatch, (left, right), mapped),
        msg@ == "invalid type: "@ + (source + ", expected "@ + (target + tail)),
        forall|x: Seq<char>, y: Seq<char>|
            source + ", expected "@ + (target + tail) == #[trigger] (x + ", expected "@ + y)
                ==> source.len() <= x.len(),
        tail.len() == 0 || " at line "@.is_prefix_of(tail),
        forall|x: Seq<char>, y: Seq<char>|
            target + tail == #[trigger] (x + " at line "@ + y) ==> target.len() <= x.len(),
        tail.len() == 0 ==> !occurs(target, " at line "@),
        left@ == trimmed(source),
        right@ == trimmed(target),
    ensures
        res@ == mapped@,
{
    let intro = "invalid type: "@;
    let wanted = target + tail;
    let rest = source + ", expected "@ + wanted;
    assert(msg@.subrange(0, intro.len() as int) =~= intro);
    assert(msg@.skip(intro.len() as int) =~= rest);
    law_cut_at_the_first(source, ", expected "@, wanted);
    if tail.len() == 0 {
        assert(wanted =~= target);
    } else {
        let end = tail.skip(" at line "@.len() as int);
        assert(tail =~= " at line "@ + end) by {
            assert(tail.take(" at line "@.len() as int) =~= " at line "@);
        }
        assert(wanted =~= target + " at line "@ + end);
        law_cut_at_the_first(target, " at line "@, end);
    }
}

/// A message of a kind that is not known is kept as it is, and so is one about
/// a type that does not say what was expected.
pub proof fn law_other_messages_are_kept(msg: &str, body: &str, res: String)
    requires
        call_ensures(map_serde_to_dynamodb_message, (msg, body), res),
        "invalid type: "@.is_prefix_of(msg@) ==> forall|x: Seq<char>, y: Seq<char>|
            msg@ != "invalid type: "@ + #[trigger] (x + ", expected "@ + y),
        !("invalid length "@.is_prefix_of(msg@) && occurs(msg@, "expected struct"@)),
        !"expected string for "@.is_prefix_of(msg@),
        !"expected value at line "@.is_prefix_of(msg@),
    ensures
        res@ == msg@,
{
    let intro = "invalid type: "@;
    lemma_prefix(msg@, intro);
    lemma_prefix(msg@, "invalid length "@);
    lemma_prefix(msg@, "expected string for "@);
    lemma_prefix(msg@, "expected value at line "@);
    if starts(msg@, intro) {
        let rest = msg@.skip(intro.len() as int);
        law_what_starts_goes_on(msg@, intro);
        assert forall|x: Seq<char>, y: Seq<char>| rest != #[trigger] (x + ", expected "@ + y) by {
            if rest == x + ", expected "@ + y {
                assert(msg@ == intro + (x + ", expected "@ + y));
            }
        }
        law_nothing_to_cut_at(rest, ", expected "@);
    }
}

/// A message about a value that is no string is mapped by the value that
/// stands at its column.
pub proof fn law_no_string_is_inferred(
    msg: &str,
    body: &str,
    target: &str,
    inferred: String,
    res: String,
)
    requires
        call_ensures(map_serde_to_dynamodb_message, (msg, body), res),
        call_ensures(infer_type_conversion_error, (msg, body, target), inferred),
        "expected string for "@.is_prefix_of(msg@) || "expected value at line "@.is_prefix_of(msg@),
        target@ == "String"@,
    ensures
        res@ == inferred@,
{
    lemma_prefix(msg@, "invalid type: "@);
    lemma_prefix(msg@, "invalid length "@);
    lemma_prefix(msg@, "expected string for "@);
    lemma_prefix(msg@, "expected value at line "@);
    reveal_strlit("invalid type: ");
    reveal_strlit("invalid length ");
    reveal_strlit("expected string for ");
    reveal_strlit("expected value at line ");
    assert("invalid type: "@[0] == 'i' && "invalid length "@[0] == 'i');
    assert("expected string for "@[0] == 'e' && "expected value at line "@[0] == 'e');
}

/// Which kind of value could not be converted is told by the byte of the body
/// at the column that the message ends in: a digit or a minus sign begins a
/// number, an `f` begins `false`, and anything else counts as `true`, as does a
/// column that is no number or none of the body.
pub proof fn law_byte_tells_the_kind(
    start: Seq<char>,
    rest: Seq<char>,
    msg: &str,
    body: &str,
    target: &str,
    res: String,
)
    requires
        call_ensures(infer_type_conversion_error, (msg, body, target), res),
        (msg@ == start + "column "@ + rest && forall|x: Seq<char>, y: Seq<char>|
            msg@ == #[trigger] (x + "column "@ + y) ==> x.len() <= start.len()) || (msg@ == rest
            && !occurs(msg@, "column "@)),
    ensures
        match number(trimmed(rest)) {
            Some(column) => if 0 < column <= encode_utf8(body@).len() {
                let byte = encode_utf8(body@)[column - 1];
                &&& (48 <= byte <= 57 || byte == 45) ==> res@ == "NUMBER_VALUE"@
                    + " cannot be converted to "@ + target@
                &&& byte == 102 ==> res@ == "FALSE_VALUE"@ + " cannot be converted to "@ + target@
                &&& !(48 <= byte <= 57 || byte == 45 || byte == 102) ==> res@ == "TRUE_VALUE"@
                    + " cannot be converted to "@ + target@
            } else {
                res@ == "TRUE_VALUE"@ + " cannot be converted to "@ + target@
            },
            None => res@ == "TRUE_VALUE"@ + " cannot be converted to "@ + target@,
        },
{
    if msg@ == start + "column "@ + rest {
        lemma_between(start, "column "@, rest);
        law_cut_at_the_last(start, "column "@, rest);
    }
}

/// Where a message ends in the number of a column of the body, the byte there
/// tells the kind: each of the ten digits and the minus sign begin a number.
pub proof fn law_number_at_the_column(
    start: Seq<char>,
    column: Seq<char>,
    msg: &str,
    body: &str,
    target: &str,
    res: String,
)
    requires
        call_ensures(infer_type_conversion_error, (msg, body, target), res),
        msg@ == start + "column "@ + column,
        column.len() > 0,
        forall|i: int| 0 <= i < column.len() ==> '0' <= #[trigger] column[i] <= '9',
        0 < decimal(column) <= encode_utf8(body@).len(),
        decimal(column) <= usize::MAX,
    ensures
        ({
            let byte = encode_utf8(body@)[decimal(column) - 1];
            &&& (48 <= byte <= 57 || byte == 45) ==> res@ == "NUMBER_VALUE"@
                + " cannot be converted to "@ + target@
            &&& byte == 102 ==> res@ == "FALSE_VALUE"@ + " cannot be converted to "@ + target@
            &&& !(48 <= byte <= 57 || byte == 45 || byte == 102) ==> res@ == "TRUE_VALUE"@
                + " cannot be converted to "@ + target@
        }),
{
    assert(digits(column)) by {
        assert forall|i: int| 0 <= i < column.len() implies digit(#[trigger] column[i]) by {}
    }
    law_column_finds_the_value(start, column, body@, target@);
}

/// Exactly a position with two numbers is taken off the end of a message.
pub proof fn law_position_with_numbers_is_taken_off(
    text: Seq<char>,
    line: Seq<char>,
    column: Seq<char>,
    msg: &str,
    res: String,
)
    requires
        call_ensures(strip_serde_position, (msg,), res),
        msg@ == text + " at line "@ + line + " column "@ + column,
        line.len() > 0,
        forall|i: int| 0 <= i < line.len() ==> '0' <= #[trigger] line[i] <= '9',
        column.len() > 0,
        forall|i: int| 0 <= i < column.len() ==> '0' <= #[trigger] column[i] <= '9',
    ensures
        res@ == text,
{
    assert(digits(line) && digits(column)) by {
        assert forall|i: int| 0 <= i < line.len() implies digit(#[trigger] line[i]) by {}
        assert forall|i: int| 0 <= i < column.len() implies digit(#[trigger] column[i]) by {}
    }
    assert(msg@ =~= text + position(line, column));
    law_position_is_stripped(text, line, column);
}

/// A message that does not end in a position with two numbers is kept whole.
pub proof fn law_message_without_position_is_kept(msg: &str, res: String)
    requires
        call_ensures(strip_serde_position, (msg,), res),
        forall|text: Seq<char>, line: Seq<char>, column: Seq<char>|
            {
                &&& msg@ == #[trigger] (text + " at line "@ + line + " column "@ + column)
                &&& line.len() > 0 && column.len() > 0
            } ==> {
                ||| exists|i: int| 0 <= i < line.len() && !('0' <= #[trigger] line[i] <= '9')
                ||| exists|i: int| 0 <= i < column.len() && !('0' <= #[trigger] column[i] <= '9')
            },
    ensures
        res@ == msg@,
{
    law_only_a_position_is_stripped(msg@);
    if without_position(msg@) != msg@ {
        let text = without_position(msg@);
        let (line, column) = choose|line: Seq<char>, column: Seq<char>|
            {
                &&& msg@ == text + #[trigger] position(line, column)
                &&& line.len() > 0 && digits(line)
                &&& column.len() > 0 && digits(column)
            };
        assert(msg@ =~= text + " at line "@ + line + " column "@ + column);
        assert forall|i: int| 0 <= i < line.len() implies '0' <= #[trigger] line[i] <= '9' by {
            assert(digit(line[i]));
        }
        assert forall|i: int| 0 <= i < column.len() implies '0' <= #[trigger] column[i] <= '9' by {
            assert(digit(column[i]));
        }
    }
}

/// A message with the prefix of the server's own checks is a validation error
/// that says what follows the prefix, without a position.
pub proof fn law_prefix_makes_a_validation_error(
    text: &str,
    msg: &str,
    body: &str,
    stripped: String,
    res: DynoxideError,
)
    requires
        call_ensures(deserialize_error, (msg, body), res),
        call_ensures(strip_serde_position, (text,), stripped),
        msg@ == "VALIDATION:"@ + text@,
    ensures
        res matches DynoxideError::ValidationException(said) && said@ == stripped@,
{
    assert(msg@.subrange(0, "VALIDATION:"@.len() as int) =~= "VALIDATION:"@);
    assert(msg@.skip("VALIDATION:"@.len() as int) =~= text@);
}

/// A message without that prefix is answered by the words that it holds, the
/// first of these that apply: a field that is missing, a variant that is not
/// known or a null is a validation error in serde's words; an attribute value
/// that is empty, one in DynamoDB's; another fault of an attribute value, one
/// without a position. Any other message is mapped.
pub proof fn law_words_decide(
    msg: &str,
    body: &str,
    stripped: String,
    mapped: String,
    res: DynoxideError,
)
    requires
        call_ensures(deserialize_error, (msg, body), res),
        call_ensures(strip_serde_position, (msg,), stripped),
        call_ensures(map_serde_to_dynamodb_message, (msg, body), mapped),
        !"VALIDATION:"@.is_prefix_of(msg@),
    ensures
        if occurs(msg@, "missing field"@) || occurs(msg@, "unknown variant"@) || occurs(
            msg@,
            "invalid type: null"@,
        ) {
            res matches DynoxideError::ValidationException(said) && said@ == msg@
        } else if occurs(msg@, "empty AttributeValue"@) {
            res matches DynoxideError::ValidationException(said) && said@
                == "Supplied AttributeValue is empty, must contain exactly one of the supported datatypes"@
        } else if occurs(msg@, "Supplied AttributeValue"@) {
            res matches DynoxideError::ValidationException(said) && said@ == stripped@
        } else {
            res matches DynoxideError::SerializationException(said) && said@ == mapped@
        },
{
    lemma_prefix(msg@, "VALIDATION:"@);
}

/// What the reader reads is what comes back, and what it refuses is answered by
/// its message.
pub proof fn law_reader_decides<T, F: FnOnce(&str) -> Result<T, String>>(
    body: &str,
    parse: F,
    outcome: Result<T, String>,
    msg: &str,
    error: DynoxideError,
    res: Result<T, DynoxideError>,
)
    requires
        call_ensures(deserialize::<T, F>, (body, parse), res),
        forall|other: Result<T, String>| #[trigger]
            call_ensures(parse, (body,), other) ==> other == outcome,
        call_ensures(deserialize_error, (msg, body), error),
        outcome matches Err(reason) ==> msg@ == reason@,
    ensures
        match outcome {
            Ok(value) => res == Ok::<T, DynoxideError>(value),
            Err(_) => res matches Err(given) && given@ == error@,
        },
{
}

/// What the writer writes is what comes back, and what it refuses is a failure
/// of the server that says why.
pub proof fn law_writer_decides<T, F: FnOnce(&T) -> Result<String, String>>(
    val: &T,
    render: F,
    outcome: Result<String, String>,
    res: Result<String, DynoxideError>,
)
    requires
        call_ensures(serialize::<T, F>, (val, render), res),
        forall|other: Result<String, String>| #[trigger]
            call_ensures(render, (val,), other) ==> other == outcome,
    ensures
        match outcome {
            Ok(text) => res == Ok::<String, DynoxideError>(text),
            Err(reason) => res matches Err(DynoxideError::InternalServerError(said)) && said@
                == reason@,
        },
{
}

/// What serde_json reads is what comes back, and what it refuses is answered by
/// its message: for any JSON value, a string, a boolean and an integer.
pub proof fn law_read_or_answered(
    body: &str,
    msg: &str,
    error: DynoxideError,
    value: Result<serde_json::Value, DynoxideError>,
    text: Result<String, DynoxideError>,
    boolean: Result<bool, DynoxideError>,
    integer: Result<i64, DynoxideError>,
)
    requires
        call_ensures(deserialize_error, (msg, body), error),
        call_ensures(deserialize_value, (body,), value),
        call_ensures(deserialize_string, (body,), text),
        call_ensures(deserialize_bool, (body,), boolean),
        call_ensures(deserialize_i64, (body,), integer),
    ensures
        match json_value(body@) {
            Ok(read) => value == Ok::<serde_json::Value, DynoxideError>(read),
            Err(reason) => value is Err && (reason == msg@ ==> value->Err_0@ == error@),
        },
        match string_value(body@) {
            Ok(read) => text is Ok && text->Ok_0@ == read,
            Err(reason) => text is Err && (reason == msg@ ==> text->Err_0@ == error@),
        },
        match bool_value(body@) {
            Ok(read) => boolean == Ok::<bool, DynoxideError>(read),
            Err(reason) => boolean is Err && (reason == msg@ ==> boolean->Err_0@ == error@),
        },
        match i64_value(body@) {
            Ok(read) => integer == Ok::<i64, DynoxideError>(read),
            Err(reason) => integer is Err && (reason == msg@ ==> integer->Err_0@ == error@),
        },
{
}

} // verus!

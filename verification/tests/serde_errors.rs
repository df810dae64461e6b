use dynoxide::error::DynoxideError;
use dynoxide::serde_errors::{
    deserialize, deserialize_bool, deserialize_error, deserialize_i64, deserialize_string,
    deserialize_value, infer_type_conversion_error, map_serde_to_dynamodb_message,
    map_struct_to_dynamo_class, map_type_mismatch, read_expected, read_found, serialize,
    serialize_bool, serialize_i64, serialize_string, strip_serde_position, Expected, Found,
};
use std::collections::HashMap;

fn validation(error: DynoxideError) -> String {
    match error {
        DynoxideError::ValidationException(message) => message,
        other => panic!("{:?}", other),
    }
}

fn serialization(error: DynoxideError) -> String {
    match error {
        DynoxideError::SerializationException(message) => message,
        other => panic!("{:?}", other),
    }
}

fn refused<T: serde::de::DeserializeOwned>(body: &str) -> DynoxideError {
    match deserialize(body, |text: &str| {
        serde_json::from_str::<T>(text).map_err(|e| e.to_string())
    }) {
        Ok(_) => panic!("{} was read", body),
        Err(error) => error,
    }
}

#[test]
fn position_is_stripped() {
    assert_eq!(strip_serde_position("bad value at line 1 column 42"), "bad value");
    assert_eq!(strip_serde_position("bad value"), "bad value");
    assert_eq!(strip_serde_position(" at line 1 column 2"), "");
    assert_eq!(
        strip_serde_position("seen at line 3 column 4 at line 1 column 2"),
        "seen at line 3 column 4"
    );
    assert_eq!(strip_serde_position("seen at line 3"), "seen at line 3");
    assert_eq!(strip_serde_position("column seen at line 3"), "column seen at line 3");
    assert_eq!(strip_serde_position("\u{fc}ber at line 1 column 2"), "\u{fc}ber");
}

#[test]
fn words_of_a_position_are_kept() {
    for msg in [
        "bad text at line start, column header missing",
        "seen at line  column ",
        "seen at line 1 column ",
        "seen at line  column 2",
        "seen at line 1 column",
        "seen at line 1column 2",
        "seen at line 1 column 2 ",
        "seen at line 1 column 2 more",
        "seen at line one column 2",
        "seen at line 1 column two",
        "seen at line +1 column 2",
        "seen at line -1 column 2",
        "seen at line 1 column 2 column 3",
        "seen at line 1 column \u{663}",
        "seen at line 1 column 2 at line 3",
    ] {
        assert_eq!(strip_serde_position(msg), msg);
    }
    assert_eq!(
        validation(deserialize_error(
            "VALIDATION:bad text at line start, column header missing at line 1 column 8",
            ""
        )),
        "bad text at line start, column header missing"
    );
    assert_eq!(
        validation(deserialize_error(
            "VALIDATION:bad text at line start, column header missing",
            ""
        )),
        "bad text at line start, column header missing"
    );
    assert_eq!(
        validation(deserialize_error(
            "Supplied AttributeValue at line start, column header missing",
            ""
        )),
        "Supplied AttributeValue at line start, column header missing"
    );
}

#[test]
fn number_for_string() {
    assert_eq!(
        map_serde_to_dynamodb_message(
            "invalid type: integer `23`, expected a string at line 1 column 42",
            ""
        ),
        "NUMBER_VALUE cannot be converted to String"
    );
    assert_eq!(
        serialization(refused::<String>("23")),
        "NUMBER_VALUE cannot be converted to String"
    );
    assert_eq!(
        serialization(refused::<String>("-7")),
        "NUMBER_VALUE cannot be converted to String"
    );
}

#[test]
fn mismatches_that_serde_json_reports() {
    let string = |body: &str| serialization(refused::<String>(body));
    assert_eq!(string("true"), "TRUE_VALUE cannot be converted to String");
    assert_eq!(string("false"), "FALSE_VALUE cannot be converted to String");
    assert_eq!(string("1.5"), "DECIMAL_VALUE cannot be converted to String");
    assert_eq!(string("[]"), "Unrecognized collection type class java.lang.String");
    assert_eq!(string("{}"), "Start of structure or map found where not expected");

    let boolean = |body: &str| serialization(refused::<bool>(body));
    assert_eq!(boolean("\"x\""), "Unexpected token received from parser");
    assert_eq!(boolean("1.5"), "DECIMAL_VALUE cannot be converted to Boolean");
    assert_eq!(boolean("1"), "NUMBER_VALUE cannot be converted to Boolean");
    assert_eq!(boolean("[]"), "Unrecognized collection type class java.lang.Boolean");
    assert_eq!(boolean("{}"), "Start of structure or map found where not expected");

    let long = |body: &str| serialization(refused::<i64>(body));
    assert_eq!(long("\"x\""), "STRING_VALUE cannot be converted to Long");
    assert_eq!(long("true"), "TRUE_VALUE cannot be converted to Long");
    assert_eq!(long("false"), "FALSE_VALUE cannot be converted to Long");
    assert_eq!(long("[]"), "Unrecognized collection type class java.lang.Long");
    assert_eq!(long("{}"), "Start of structure or map found where not expected");
    assert_eq!(long("1.5"), "floating point `1.5`");

    let list = |body: &str| serialization(refused::<Vec<String>>(body));
    assert_eq!(list("{}"), "Start of structure or map found where not expected");
    assert_eq!(list("\"x\""), "Unexpected field type");
    assert_eq!(list("true"), "Unexpected field type");

    let map = |body: &str| serialization(refused::<HashMap<String, String>>(body));
    assert_eq!(map("\"x\""), "Unexpected field type");
    assert_eq!(map("[]"), "sequence");
}

#[test]
fn mismatches_with_structures() {
    assert_eq!(
        map_type_mismatch("sequence", "struct ProvisionedThroughputRaw with 2 elements"),
        "Unrecognized collection type class com.amazonaws.dynamodb.v20120810.ProvisionedThroughput"
    );
    assert_eq!(
        map_type_mismatch("sequence", "struct Tag"),
        "Unrecognized collection type class com.amazonaws.dynamodb.v20120810.Tag"
    );
    assert_eq!(map_type_mismatch("sequence", "struct Unheard"), "sequence");
    assert_eq!(
        map_type_mismatch("map", "struct Tag"),
        "Start of structure or map found where not expected"
    );
    assert_eq!(map_type_mismatch("integer `1`", "struct Tag"), "Unexpected field type");
    assert_eq!(map_type_mismatch("map", "a map"), "map");
    assert_eq!(map_type_mismatch("sequence", "map with keys"), "sequence");
    assert_eq!(map_type_mismatch("unit", "a map"), "Unexpected field type");
    assert_eq!(map_type_mismatch("string \"x\"", "a string"), "string \"x\"");
    assert_eq!(map_type_mismatch("boolean `true`", "a boolean"), "boolean `true`");
    assert_eq!(map_type_mismatch("odd at line 3", "f64"), "odd");
}

#[test]
fn words_of_serde_json_are_read() {
    assert_eq!(read_found("boolean `true`"), Found::True);
    assert_eq!(read_found("boolean `false`"), Found::False);
    assert_eq!(read_found("floating point `1.5`"), Found::Float);
    assert_eq!(read_found("integer `1`"), Found::Integer);
    assert_eq!(read_found("string \"x\""), Found::Text);
    assert_eq!(read_found("sequence"), Found::Array);
    assert_eq!(read_found("map"), Found::Object);
    assert_eq!(read_found("mapping"), Found::Other);
    assert_eq!(read_expected("a sequence"), Expected::Array);
    assert_eq!(read_expected("a string"), Expected::Text);
    assert_eq!(read_expected("a boolean"), Expected::Boolean);
    assert_eq!(read_expected("i64"), Expected::Integer);
    assert_eq!(read_expected("u64"), Expected::Integer);
    assert_eq!(read_expected("struct Tag"), Expected::Struct);
    assert_eq!(read_expected("a map"), Expected::Object);
    assert_eq!(read_expected("map"), Expected::Object);
    assert_eq!(read_expected("u8"), Expected::Other);
}

#[test]
fn lengths_of_structures() {
    assert_eq!(
        map_serde_to_dynamodb_message(
            "invalid length 0, expected struct KeySchemaElement with 2 elements at line 1 column 9",
            ""
        ),
        "Unrecognized collection type class com.amazonaws.dynamodb.v20120810.KeySchemaElement"
    );
    assert_eq!(
        map_serde_to_dynamodb_message("invalid length 0, expected struct Unheard with 2", ""),
        "Start of structure or map found where not expected"
    );
    assert_eq!(
        map_serde_to_dynamodb_message("invalid length 0, expected struct", ""),
        "Start of structure or map found where not expected"
    );
    assert_eq!(
        map_serde_to_dynamodb_message("invalid length 0, expected an array", ""),
        "invalid length 0, expected an array"
    );
    assert_eq!(
        map_serde_to_dynamodb_message("trailing characters at line 1 column 2", ""),
        "trailing characters at line 1 column 2"
    );
    assert_eq!(
        map_serde_to_dynamodb_message("invalid type: odd", ""),
        "invalid type: odd"
    );
}

#[test]
fn column_tells_the_value() {
    let body = "{\"S\":true,\"N\":false,\"B\":-1,\"L\":7}";
    let at = |col: usize| {
        infer_type_conversion_error(
            &format!("expected string for S at line 1 column {}", col),
            body,
            "String",
        )
    };
    assert_eq!(at(6), "TRUE_VALUE cannot be converted to String");
    assert_eq!(at(15), "FALSE_VALUE cannot be converted to String");
    assert_eq!(at(25), "NUMBER_VALUE cannot be converted to String");
    assert_eq!(at(32), "NUMBER_VALUE cannot be converted to String");
    assert_eq!(at(1), "TRUE_VALUE cannot be converted to String");
    assert_eq!(at(0), "TRUE_VALUE cannot be converted to String");
    assert_eq!(at(1000), "TRUE_VALUE cannot be converted to String");
    assert_eq!(
        infer_type_conversion_error("no number", "false", "Long"),
        "TRUE_VALUE cannot be converted to Long"
    );
    assert_eq!(
        infer_type_conversion_error("column 1", "false", "Long"),
        "FALSE_VALUE cannot be converted to Long"
    );
    assert_eq!(
        infer_type_conversion_error("column 3", "\u{e9}5", "Long"),
        "NUMBER_VALUE cannot be converted to Long"
    );
    assert_eq!(
        map_serde_to_dynamodb_message("expected string for S at line 1 column 15", body),
        "FALSE_VALUE cannot be converted to String"
    );
    assert_eq!(
        map_serde_to_dynamodb_message("expected value at line 1 column 25", body),
        "NUMBER_VALUE cannot be converted to String"
    );
}

#[test]
fn classes_of_structures() {
    for (name, class) in [
        ("ProvisionedThroughput", "ProvisionedThroughput"),
        ("Projection", "Projection"),
        ("KeySchemaElement", "KeySchemaElement"),
        ("AttributeDefinition", "AttributeDefinition"),
        ("LocalSecondaryIndex", "LocalSecondaryIndex"),
        ("GlobalSecondaryIndex", "GlobalSecondaryIndex"),
        ("DeleteGsiAction", "DeleteGlobalSecondaryIndexAction"),
        ("CreateGsiAction", "CreateGlobalSecondaryIndexAction"),
        ("UpdateGsiAction", "UpdateGlobalSecondaryIndexAction"),
        ("GlobalSecondaryIndexUpdate", "GlobalSecondaryIndexUpdate"),
        ("Tag", "Tag"),
    ] {
        let class = format!("com.amazonaws.dynamodb.v20120810.{}", class);
        assert_eq!(map_struct_to_dynamo_class(name), Some(class.as_str()));
        let raw = format!("{}Raw", name);
        assert_eq!(map_struct_to_dynamo_class(&raw), Some(class.as_str()));
    }
    assert_eq!(map_struct_to_dynamo_class("TagRawRaw"), None);
    assert_eq!(map_struct_to_dynamo_class("Raw"), None);
    assert_eq!(map_struct_to_dynamo_class("tag"), None);
    assert_eq!(map_struct_to_dynamo_class("tagRaw"), None);
    assert_eq!(map_struct_to_dynamo_class("tagRawRaw"), None);
    assert_eq!(map_struct_to_dynamo_class(""), None);
}

#[test]
fn own_checks_are_validation_errors() {
    assert_eq!(
        validation(deserialize_error(
            "VALIDATION:The name is too short at line 1 column 8",
            ""
        )),
        "The name is too short"
    );
    assert_eq!(validation(deserialize_error("VALIDATION:", "")), "");
}

#[test]
fn messages_that_are_validation_errors() {
    for msg in [
        "missing field `TableName` at line 1 column 2",
        "unknown variant `X`, expected `A` or `B` at line 1 column 5",
        "invalid type: null, expected a string at line 1 column 4",
    ] {
        assert_eq!(validation(deserialize_error(msg, "")), msg);
    }
    assert_eq!(
        validation(deserialize_error("empty AttributeValue at line 1 column 3", "")),
        "Supplied AttributeValue is empty, must contain exactly one of the supported datatypes"
    );
    assert_eq!(
        validation(deserialize_error(
            "Supplied AttributeValue has more than one datatypes set at line 1 column 30",
            ""
        )),
        "Supplied AttributeValue has more than one datatypes set"
    );
    assert_eq!(
        validation(refused::<String>("null")),
        "invalid type: null, expected a string at line 1 column 4"
    );
}

#[test]
fn bodies_that_are_read() {
    let read = deserialize("[1, 2]", |text: &str| {
        serde_json::from_str::<Vec<u8>>(text).map_err(|e| e.to_string())
    });
    assert_eq!(read.unwrap(), vec![1, 2]);
}

#[test]
fn json_values() {
    let value = deserialize_value("{\"a\": [1, \"x\"], \"b\": null}").unwrap();
    assert_eq!(value["a"][1], serde_json::Value::String("x".to_string()));
    assert!(value["b"].is_null());
    assert_eq!(
        serialization(deserialize_value("x").unwrap_err()),
        "TRUE_VALUE cannot be converted to String"
    );
    assert_eq!(
        serialization(deserialize_value("{").unwrap_err()),
        "EOF while parsing an object at line 1 column 1"
    );
    assert_eq!(
        serialization(deserialize_value("1 2").unwrap_err()),
        "trailing characters at line 1 column 3"
    );
}

#[test]
fn values_that_are_written() {
    let text = serialize(&vec![1, 2], |v: &Vec<i32>| {
        serde_json::to_string(v).map_err(|e| e.to_string())
    });
    assert_eq!(text.unwrap(), "[1,2]");

    let mut map: HashMap<Vec<u8>, u8> = HashMap::new();
    map.insert(vec![1], 2);
    let text = serialize(&map, |v: &HashMap<Vec<u8>, u8>| {
        serde_json::to_string(v).map_err(|e| e.to_string())
    });
    match text {
        Err(DynoxideError::InternalServerError(message)) => {
            assert_eq!(message, "key must be a string")
        }
        other => panic!("{:?}", other),
    }
}

#[test]
fn written_strings_are_read_back() {
    for (val, text) in [
        ("", "\"\""),
        ("plain", "\"plain\""),
        ("say \"hi\" \\ bye", "\"say \\\"hi\\\" \\\\ bye\""),
        ("a/b", "\"a/b\""),
        ("\u{8}\t\n\u{c}\r", "\"\\b\\t\\n\\f\\r\""),
        ("\u{0}\u{1f}\u{7f}", "\"\\u0000\\u001f\u{7f}\""),
        ("\u{e9}\u{2028}\u{1f600}", "\"\u{e9}\u{2028}\u{1f600}\""),
    ] {
        assert_eq!(serialize_string(&val.to_string()).unwrap(), text);
        assert_eq!(deserialize_string(text).unwrap(), val);
    }
    for code in 0..0x3000u32 {
        if let Some(c) = char::from_u32(code) {
            let val = c.to_string();
            let text = serialize_string(&val).unwrap();
            assert_eq!(deserialize_string(&text).unwrap(), val);
        }
    }
    assert_eq!(deserialize_string(" \"\\u0041\\ud83d\\ude00\" ").unwrap(), "A\u{1f600}");
}

#[test]
fn written_booleans_are_read_back() {
    for (val, text) in [(true, "true"), (false, "false")] {
        assert_eq!(serialize_bool(&val).unwrap(), text);
        assert_eq!(deserialize_bool(text).unwrap(), val);
    }
    assert_eq!(deserialize_bool("\n true").unwrap(), true);
}

#[test]
fn written_integers_are_read_back() {
    for (val, text) in [
        (0, "0"),
        (7, "7"),
        (10, "10"),
        (-1, "-1"),
        (1203, "1203"),
        (-90, "-90"),
        (i64::MAX, "9223372036854775807"),
        (i64::MIN, "-9223372036854775808"),
    ] {
        assert_eq!(serialize_i64(&val).unwrap(), text);
        assert_eq!(deserialize_i64(text).unwrap(), val);
    }
}

#[test]
fn strings_booleans_and_integers_that_are_refused() {
    for (body, message) in [
        ("23", "NUMBER_VALUE cannot be converted to String"),
        ("2.5", "DECIMAL_VALUE cannot be converted to String"),
        ("true", "TRUE_VALUE cannot be converted to String"),
        ("false", "FALSE_VALUE cannot be converted to String"),
        ("[]", "Unrecognized collection type class java.lang.String"),
        ("{}", "Start of structure or map found where not expected"),
    ] {
        assert_eq!(serialization(deserialize_string(body).unwrap_err()), message);
    }
    for (body, message) in [
        ("\"true\"", "Unexpected token received from parser"),
        ("1", "NUMBER_VALUE cannot be converted to Boolean"),
        ("0.5", "DECIMAL_VALUE cannot be converted to Boolean"),
        ("[true]", "Unrecognized collection type class java.lang.Boolean"),
        ("{}", "Start of structure or map found where not expected"),
    ] {
        assert_eq!(serialization(deserialize_bool(body).unwrap_err()), message);
    }
    for (body, message) in [
        ("\"1\"", "STRING_VALUE cannot be converted to Long"),
        ("true", "TRUE_VALUE cannot be converted to Long"),
        ("false", "FALSE_VALUE cannot be converted to Long"),
        ("[1]", "Unrecognized collection type class java.lang.Long"),
        ("{}", "Start of structure or map found where not expected"),
    ] {
        assert_eq!(serialization(deserialize_i64(body).unwrap_err()), message);
    }
    assert_eq!(
        validation(deserialize_string("null").unwrap_err()),
        "invalid type: null, expected a string at line 1 column 4"
    );
}

use axum::http::{HeaderMap, HeaderValue, Uri};
use dynoxide::auth::{check_auth, validate_auth, Response};

const CT: &str = "application/x-amz-json-1.0";

const FULL_HEADER: &str =
    "AWS4-HMAC-SHA256 Credential=AKID/20240101/eu/dynamodb, SignedHeaders=host, Signature=abc";

const FULL_QUERY: &str = "X-Amz-Algorithm=AWS4-HMAC-SHA256&X-Amz-Credential=c&X-Amz-Signature=s\
                          &X-Amz-SignedHeaders=h&X-Amz-Date=d";

fn body(kind: &str, message: &str) -> String {
    format!(
        "{{\"__type\":\"com.amazon.coral.service#{}\",\"message\":\"{}\"}}",
        kind, message
    )
}

fn refused(res: Option<Response>, kind: &str, message: &str) {
    let response = res.expect("the request was let through");
    assert_eq!(response.status, 400);
    assert_eq!(response.content_type, CT);
    assert_eq!(response.body, body(kind, message));
}

fn headers(pairs: &[(&'static str, &[u8])]) -> HeaderMap {
    let mut map = HeaderMap::new();
    for (name, value) in pairs {
        map.append(*name, HeaderValue::from_bytes(value).unwrap());
    }
    map
}

fn uri(text: &str) -> Uri {
    text.parse().unwrap()
}

const MISSING: (&str, &str) = (
    "MissingAuthenticationTokenException",
    "Request is missing Authentication Token",
);

#[test]
fn no_authentication() {
    refused(
        validate_auth(&headers(&[]), &uri("/"), CT),
        MISSING.0,
        MISSING.1,
    );
    refused(
        validate_auth(&headers(&[("date", b"today")]), &uri("/?a=b"), CT),
        MISSING.0,
        MISSING.1,
    );
}

#[test]
fn another_scheme() {
    for auth in ["Bearer x", "", "aws4-HMAC", " AWS4-HMAC"] {
        refused(check_auth(Some(auth), "", true, CT), MISSING.0, MISSING.1);
    }
    let map = headers(&[("authorization", b"Basic eDp5")]);
    refused(validate_auth(&map, &uri("/"), CT), MISSING.0, MISSING.1);
}

#[test]
fn header_that_is_not_text() {
    let map = headers(&[("authorization", b"AWS4-\xff"), ("date", b"d")]);
    refused(validate_auth(&map, &uri("/"), CT), MISSING.0, MISSING.1);
    let map = headers(&[("authorization", b"\xff")]);
    let target = format!("/?{}", FULL_QUERY);
    assert!(validate_auth(&map, &uri(&target), CT).is_none());
}

#[test]
fn complete_header() {
    for date in ["x-amz-date", "date", "X-Amz-Date"] {
        let mut map = headers(&[("authorization", FULL_HEADER.as_bytes())]);
        map.insert(
            axum::http::HeaderName::from_bytes(date.as_bytes()).unwrap(),
            HeaderValue::from_static("d"),
        );
        assert!(validate_auth(&map, &uri("/"), CT).is_none());
    }
    assert!(check_auth(
        Some("AWS4-credential=signature=signedheaders="),
        "",
        true,
        CT
    )
    .is_none());
}

#[test]
fn first_of_several_headers_counts() {
    let map = headers(&[
        ("authorization", FULL_HEADER.as_bytes()),
        ("authorization", b"Bearer x"),
        ("date", b"d"),
    ]);
    assert!(validate_auth(&map, &uri("/"), CT).is_none());
}

#[test]
fn incomplete_header() {
    refused(
        check_auth(Some("AWS4-"), "", false, CT),
        "IncompleteSignatureException",
        "Authorization header requires 'Credential' parameter. \
         Authorization header requires 'Signature' parameter. \
         Authorization header requires 'SignedHeaders' parameter. \
         Authorization header requires existence of either a 'X-Amz-Date' or a 'Date' header. \
         Authorization=AWS4-",
    );
    refused(
        check_auth(Some("AWS4-HMAC Credential=x Signature=y"), "", true, CT),
        "IncompleteSignatureException",
        "Authorization header requires 'SignedHeaders' parameter. \
         Authorization=AWS4-HMAC Credential=x Signature=y",
    );
    let map = headers(&[("authorization", FULL_HEADER.as_bytes())]);
    refused(
        validate_auth(&map, &uri("/"), CT),
        "IncompleteSignatureException",
        &format!(
            "Authorization header requires existence of either a 'X-Amz-Date' or a 'Date' header. \
             Authorization={}",
            FULL_HEADER
        ),
    );
}

#[test]
fn header_is_escaped_in_the_answer() {
    let map = headers(&[("authorization", b"AWS4-\"a\\b\"\tc"), ("date", b"d")]);
    refused(
        validate_auth(&map, &uri("/"), CT),
        "IncompleteSignatureException",
        "Authorization header requires 'Credential' parameter. \
         Authorization header requires 'Signature' parameter. \
         Authorization header requires 'SignedHeaders' parameter. \
         Authorization=AWS4-\\\"a\\\\b\\\"\\tc",
    );
    let all: String = (0..0x80_u8).map(char::from).chain("\u{e9}\u{1f600}".chars()).collect();
    let auth = format!("AWS4-{}", all);
    let response = check_auth(Some(&auth), "", true, CT).unwrap();
    let written = "\\u0000\\u0001\\u0002\\u0003\\u0004\\u0005\\u0006\\u0007\\b\\t\\n\\u000b\\f\\r\
                   \\u000e\\u000f\\u0010\\u0011\\u0012\\u0013\\u0014\\u0015\\u0016\\u0017\\u0018\
                   \\u0019\\u001a\\u001b\\u001c\\u001d\\u001e\\u001f !\\\"#$%&'()*+,-./";
    assert!(response.body.contains(written));
    assert!(response.body.ends_with("Z[\\\\]^_`abcdefghijklmnopqrstuvwxyz{|}~\u{7f}\u{e9}\u{1f600}\"}"));
    let value: serde_json::Value = serde_json::from_str(&response.body).unwrap();
    assert!(value["message"].as_str().unwrap().ends_with(&auth));
}

#[test]
fn both_kinds() {
    let message = "Found both 'X-Amz-Algorithm' as a query-string param and 'Authorization' as HTTP header.";
    let map = headers(&[("authorization", FULL_HEADER.as_bytes()), ("date", b"d")]);
    let full = format!("/?{}", FULL_QUERY);
    for target in ["/?X-Amz-Algorithm", "/a?b=c&X-Amz-Algorithm=x", full.as_str()] {
        refused(
            validate_auth(&map, &uri(target), CT),
            "InvalidSignatureException",
            message,
        );
    }
    refused(
        check_auth(Some(""), "X-Amz-Algorithm=", false, CT),
        "InvalidSignatureException",
        message,
    );
}

#[test]
fn complete_query() {
    assert!(check_auth(None, FULL_QUERY, false, CT).is_none());
    let target = format!("http://localhost:8000/path?{}#fragment", FULL_QUERY);
    assert!(validate_auth(&headers(&[]), &uri(&target), CT).is_none());
    let reordered = "X-Amz-Date&X-Amz-SignedHeaders&X-Amz-Signature&X-Amz-Credential&X-Amz-Algorithm==";
    assert!(check_auth(None, reordered, false, CT).is_none());
}

#[test]
fn incomplete_query() {
    refused(
        check_auth(None, "X-Amz-Algorithm", true, CT),
        "IncompleteSignatureException",
        "AWS query-string parameters must include 'X-Amz-Algorithm'. \
         AWS query-string parameters must include 'X-Amz-Credential'. \
         AWS query-string parameters must include 'X-Amz-Signature'. \
         AWS query-string parameters must include 'X-Amz-SignedHeaders'. \
         AWS query-string parameters must include 'X-Amz-Date'. \
         Re-examine the query-string parameters.",
    );
    refused(
        validate_auth(
            &headers(&[]),
            &uri("/?X-Amz-Algorithm=a&X-Amz-Signature=&X-Amz-SignedHeaders=h&x-amz-date=d"),
            CT,
        ),
        "IncompleteSignatureException",
        "AWS query-string parameters must include 'X-Amz-Credential'. \
         AWS query-string parameters must include 'X-Amz-Date'. \
         Re-examine the query-string parameters.",
    );
    refused(
        check_auth(
            None,
            "X-Amz-Algorithm=&X-Amz-Credential&X-Amz-Signature&X-Amz-SignedHeaders&X-Amz-Date",
            true,
            CT,
        ),
        "IncompleteSignatureException",
        "AWS query-string parameters must include 'X-Amz-Algorithm'. \
         Re-examine the query-string parameters.",
    );
}

#[test]
fn values_are_not_verified() {
    let other = "X-Amz-Algorithm=none&X-Amz-Credential&X-Amz-Signature=forged\
                 &X-Amz-SignedHeaders=&X-Amz-Date=never";
    assert!(check_auth(None, other, false, CT).is_none());
    let longer = format!("{}, and more", FULL_HEADER);
    assert!(check_auth(Some(&longer), "", true, CT).is_none());
}

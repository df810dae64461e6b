//! AWS authentication header validation.
//!
//! Signatures are never verified, but the auth material itself is held to
//! DynamoDB's rules: header-based and query-string SigV4 are checked for
//! presence and completeness, with the error types and messages that DynamoDB
//! returns when parts are missing or conflicting.

use crate::http::{
    ascii, header_fields, header_value, path_and_query, query_part, uri_query, value_text, visible,
};
use crate::json::{json_member, object_text};
use crate::text::{
    after_first, before_first, contains, fields, head, occurs, same, split, split_once, starts,
    starts_with, views,
};
use axum::http::{HeaderMap, Uri};
use vstd::prelude::*;

verus! {

/// The status of every answer to a request that is refused.
pub const BAD_REQUEST: u16 = 400;

/// An answer to a request.
pub struct Response {
    /// The HTTP status code.
    pub status: u16,
    /// The value of the `Content-Type` header.
    pub content_type: String,
    /// The body.
    pub body: String,
}

/// Why a request is refused: the type of the error and its message.
pub struct Refusal {
    pub kind: Seq<char>,
    pub message: Seq<char>,
}

/// A parameter of the query has the name `key`.
pub open spec fn has_parameter(query: Seq<char>, key: Seq<char>) -> bool {
    exists|i: int|
        0 <= i < fields(query, '&').len() && before_first(#[trigger] fields(query, '&')[i], "="@)
            == key
}

/// The value of a query parameter; empty where it has none.
pub open spec fn parameter_value(field: Seq<char>) -> Seq<char> {
    match after_first(field, "="@) {
        Some(value) => value,
        None => seq![],
    }
}

/// A parameter of the query has the name `key` and a value that is not empty.
pub open spec fn has_parameter_value(query: Seq<char>, key: Seq<char>) -> bool {
    exists|i: int|
        {
            let field = #[trigger] fields(query, '&')[i];
            0 <= i < fields(query, '&').len() && before_first(field, "="@) == key
                && parameter_value(field).len() > 0
        }
}

/// A list of one sentence, or of none.
pub open spec fn sentence_if(needed: bool, sentence: Seq<char>) -> Seq<Seq<char>> {
    if needed {
        seq![sentence]
    } else {
        seq![]
    }
}

/// What query-string authentication lacks, one sentence for each part.
pub open spec fn query_complaints(query: Seq<char>) -> Seq<Seq<char>> {
    sentence_if(
        !has_parameter_value(query, "X-Amz-Algorithm"@),
        "AWS query-string parameters must include 'X-Amz-Algorithm'. "@,
    ) + sentence_if(
        !has_parameter(query, "X-Amz-Credential"@),
        "AWS query-string parameters must include 'X-Amz-Credential'. "@,
    ) + sentence_if(
        !has_parameter(query, "X-Amz-Signature"@),
        "AWS query-string parameters must include 'X-Amz-Signature'. "@,
    ) + sentence_if(
        !has_parameter(query, "X-Amz-SignedHeaders"@),
        "AWS query-string parameters must include 'X-Amz-SignedHeaders'. "@,
    ) + sentence_if(
        !has_parameter(query, "X-Amz-Date"@),
        "AWS query-string parameters must include 'X-Amz-Date'. "@,
    )
}

/// What header-based authentication lacks, one sentence for each part.
pub open spec fn header_complaints(auth: Seq<char>, has_date: bool) -> Seq<Seq<char>> {
    sentence_if(
        !occurs(auth, "Credential="@) && !occurs(auth, "credential="@),
        "Authorization header requires 'Credential' parameter. "@,
    ) + sentence_if(
        !occurs(auth, "Signature="@) && !occurs(auth, "signature="@),
        "Authorization header requires 'Signature' parameter. "@,
    ) + sentence_if(
        !occurs(auth, "SignedHeaders="@) && !occurs(auth, "signedheaders="@),
        "Authorization header requires 'SignedHeaders' parameter. "@,
    ) + sentence_if(
        !has_date,
        "Authorization header requires existence of either a 'X-Amz-Date' or a 'Date' header. "@,
    )
}

/// The refusal of a request that carries authentication twice.
pub open spec fn invalid_signature() -> Refusal {
    Refusal {
        kind: "com.amazon.coral.service#InvalidSignatureException"@,
        message: "Found both 'X-Amz-Algorithm' as a query-string param and 'Authorization' as HTTP header."@,
    }
}

/// The refusal of a request whose authentication lacks a part.
pub open spec fn incomplete_signature(message: Seq<char>) -> Refusal {
    Refusal { kind: "com.amazon.coral.service#IncompleteSignatureException"@, message }
}

/// The refusal of a request that carries no authentication.
pub open spec fn missing_token() -> Refusal {
    Refusal {
        kind: "com.amazon.coral.service#MissingAuthenticationTokenException"@,
        message: "Request is missing Authentication Token"@,
    }
}

/// Why a request with this `Authorization` header and this query is refused,
/// if it is. `has_date` says whether it has a date header.
pub open spec fn refusal(auth: Option<Seq<char>>, query: Seq<char>, has_date: bool) -> Option<
    Refusal,
> {
    if has_parameter(query, "X-Amz-Algorithm"@) {
        if auth is Some {
            Some(invalid_signature())
        } else if query_complaints(query).len() > 0 {
            Some(
                incomplete_signature(
                    query_complaints(query).flatten()
                        + "Re-examine the query-string parameters."@,
                ),
            )
        } else {
            None
        }
    } else {
        match auth {
            Some(auth) if starts(auth, "AWS4-"@) => if header_complaints(
                auth,
                has_date,
            ).len() > 0 {
                Some(
                    incomplete_signature(
                        header_complaints(auth, has_date).flatten() + "Authorization="@ + auth,
                    ),
                )
            } else {
                None
            },
            _ => Some(missing_token()),
        }
    }
}

/// The body of the answer to a request that is refused.
pub open spec fn refusal_body(refusal: Refusal) -> Seq<char> {
    "{"@ + json_member("__type"@, refusal.kind) + ","@ + json_member("message"@, refusal.message)
        + "}"@
}

/// `res` is the answer to a request that is refused, or there is none because
/// the request is not refused.
pub open spec fn answers(
    res: Option<Response>,
    refusal: Option<Refusal>,
    content_type: Seq<char>,
) -> bool {
    match (res, refusal) {
        (Some(response), Some(refusal)) => {
            &&& response.status == BAD_REQUEST
            &&& response.content_type@ == content_type
            &&& response.body@ == refusal_body(refusal)
        },
        (None, None) => true,
        _ => false,
    }
}

/// The text of the `Authorization` header, where the request has one that is
/// text.
pub open spec fn authorization(headers: HeaderMap) -> Option<Seq<char>> {
    let held = header_fields(headers);
    if held.contains_key("authorization"@) && visible(held["authorization"@][0]) {
        Some(ascii(held["authorization"@][0]))
    } else {
        None
    }
}

/// The request has a date header.
pub open spec fn dated(headers: HeaderMap) -> bool {
    header_fields(headers).contains_key("x-amz-date"@) || header_fields(headers).contains_key(
        "date"@,
    )
}

/// The query of a URI; empty where it has none.
pub open spec fn query_of(uri: Uri) -> Seq<char> {
    match query_part(path_and_query(uri)) {
        Some(query) => query,
        None => seq![],
    }
}

/// The answer to a request that is refused.
fn refuse(kind: &str, message: &str, response_ct: &str) -> (res: Response)
    ensures
        answers(
            Some(res),
            Some(Refusal { kind: kind@, message: message@ }),
            response_ct@,
        ),
{
    proof {
        reveal_strlit("__type");
        reveal_strlit("message");
    }
    Response {
        status: BAD_REQUEST,
        content_type: response_ct.to_string(),
        body: object_text("__type", kind, "message", message),
    }
}

/// Whether one of the query's fields has the name `key`.
fn contains_parameter(query: &str, params: &Vec<&str>, key: &str) -> (res: bool)
    requires
        views(params@) == fields(query@, '&'),
    ensures
        res == has_parameter(query@, key@),
{
    let mut i: usize = 0;
    while i < params.len()
        invariant
            i <= params@.len(),
            views(params@) == fields(query@, '&'),
            forall|j: int|
                0 <= j < i ==> before_first(#[trigger] fields(query@, '&')[j], "="@) != key@,
        decreases params@.len() - i,
    {
        assert(views(params@)[i as int] == params@[i as int]@);
        if same(head(params[i], "="), key) {
            return true;
        }
        i += 1;
    }
    false
}

/// Whether one of the query's fields has the name `key` and a value that is not
/// empty.
fn contains_parameter_value(query: &str, params: &Vec<&str>, key: &str) -> (res: bool)
    requires
        views(params@) == fields(query@, '&'),
    ensures
        res == has_parameter_value(query@, key@),
{
    let mut i: usize = 0;
    while i < params.len()
        invariant
            i <= params@.len(),
            views(params@) == fields(query@, '&'),
            forall|j: int|
                0 <= j < i ==> before_first(#[trigger] fields(query@, '&')[j], "="@) != key@
                    || parameter_value(fields(query@, '&')[j]).len() == 0,
        decreases params@.len() - i,
    {
        assert(views(params@)[i as int] == params@[i as int]@);
        if let Some((name, value)) = split_once(params[i], "=") {
            if same(name, key) && !value.is_empty() {
                return true;
            }
        }
        i += 1;
    }
    false
}

/// Adds a sentence to a list where it is needed.
fn complain<'a>(list: &mut Vec<&'a str>, needed: bool, sentence: &'a str)
    ensures
        views(final(list)@) == views(old(list)@) + sentence_if(needed, sentence@),
{
    if needed {
        list.push(sentence);
    }
    assert(views(list@) =~= views(old(list)@) + sentence_if(needed, sentence@));
}

/// The sentences of a list, one after the other.
fn concatenated(list: &Vec<&str>) -> (res: String)
    ensures
        res@ == views(list@).flatten(),
{
    let mut res = String::new();
    let mut i: usize = 0;
    assert(views(list@).take(0) =~= Seq::<Seq<char>>::empty());
    while i < list.len()
        invariant
            i <= list@.len(),
            res@ == views(list@).take(i as int).flatten(),
        decreases list@.len() - i,
    {
        proof {
            let all = views(list@);
            assert(all[i as int] == list@[i as int]@);
            assert(all.take(i + 1) =~= all.take(i as int).push(all[i as int]));
            all.take(i as int).lemma_flatten_push(all[i as int]);
        }
        res.append(list[i]);
        i += 1;
    }
    assert(views(list@).take(list@.len() as int) =~= views(list@));
    res
}

/// Checks the authentication of a request that is given by the parts that the
/// check reads: the text of its `Authorization` header, its query, and whether
/// it has a date header.
pub fn check_auth(
    auth_header: Option<&str>,
    query: &str,
    has_date: bool,
    response_ct: &str,
) -> (res: Option<Response>)
    ensures
        answers(
            res,
            refusal(
                match auth_header {
                    Some(auth) => Some(auth@),
                    None => None,
                },
                query@,
                has_date,
            ),
            response_ct@,
        ),
{
    let params = split(query, '&');
    if contains_parameter(query, &params, "X-Amz-Algorithm") {
        if auth_header.is_some() {
            return Some(
                refuse(
                    "com.amazon.coral.service#InvalidSignatureException",
                    "Found both 'X-Amz-Algorithm' as a query-string param and 'Authorization' as HTTP header.",
                    response_ct,
                ),
            );
        }
        let mut missing: Vec<&str> = Vec::new();
        assert(views(missing@) =~= seq![]);
        complain(
            &mut missing,
            !contains_parameter_value(query, &params, "X-Amz-Algorithm"),
            "AWS query-string parameters must include 'X-Amz-Algorithm'. ",
        );
        complain(
            &mut missing,
            !contains_parameter(query, &params, "X-Amz-Credential"),
            "AWS query-string parameters must include 'X-Amz-Credential'. ",
        );
        complain(
            &mut missing,
            !contains_parameter(query, &params, "X-Amz-Signature"),
            "AWS query-string parameters must include 'X-Amz-Signature'. ",
        );
        complain(
            &mut missing,
            !contains_parameter(query, &params, "X-Amz-SignedHeaders"),
            "AWS query-string parameters must include 'X-Amz-SignedHeaders'. ",
        );
        complain(
            &mut missing,
            !contains_parameter(query, &params, "X-Amz-Date"),
            "AWS query-string parameters must include 'X-Amz-Date'. ",
        );
        assert(views(missing@) =~= query_complaints(query@));
        if missing.len() == 0 {
            return None;
        }
        let message = concatenated(&missing).concat("Re-examine the query-string parameters.");
        return Some(
            refuse(
                "com.amazon.coral.service#IncompleteSignatureException",
                message.as_str(),
                response_ct,
            ),
        );
    }
    match auth_header {
        Some(auth) if starts_with(auth, "AWS4-") => {
            let mut missing: Vec<&str> = Vec::new();
            assert(views(missing@) =~= seq![]);
            complain(
                &mut missing,
                !contains(auth, "Credential=") && !contains(auth, "credential="),
                "Authorization header requires 'Credential' parameter. ",
            );
            complain(
                &mut missing,
                !contains(auth, "Signature=") && !contains(auth, "signature="),
                "Authorization header requires 'Signature' parameter. ",
            );
            complain(
                &mut missing,
                !contains(auth, "SignedHeaders=") && !contains(auth, "signedheaders="),
                "Authorization header requires 'SignedHeaders' parameter. ",
            );
            complain(
                &mut missing,
                !has_date,
                "Authorization header requires existence of either a 'X-Amz-Date' or a 'Date' header. ",
            );
            assert(views(missing@) =~= header_complaints(auth@, has_date));
            if missing.len() == 0 {
                return None;
            }
            let message = concatenated(&missing).concat("Authorization=").concat(auth);
            Some(
                refuse(
                    "com.amazon.coral.service#IncompleteSignatureException",
                    message.as_str(),
                    response_ct,
                ),
            )
        },
        _ => Some(
            refuse(
                "com.amazon.coral.service#MissingAuthenticationTokenException",
                "Request is missing Authentication Token",
                response_ct,
            ),
        ),
    }
}

/// Validates the AWS authentication headers and query parameters of a request.
///
/// Returns the answer where the request is refused, and `None` where its
/// authentication is present and complete.
pub fn validate_auth(headers: &HeaderMap, uri: &Uri, response_ct: &str) -> (res: Option<Response>)
    ensures
        answers(
            res,
            refusal(authorization(*headers), query_of(*uri), dated(*headers)),
            response_ct@,
        ),
{
    proof {
        reveal_strlit("authorization");
        reveal_strlit("x-amz-date");
        reveal_strlit("date");
        reveal_strlit("");
    }
    let auth_header = match header_value(headers, "authorization") {
        Some(value) => value_text(value),
        None => None,
    };
    let query = match uri_query(uri) {
        Some(query) => query,
        None => "",
    };
    assert(""@ =~= seq![]);
    let has_date = header_value(headers, "x-amz-date").is_some() || header_value(
        headers,
        "date",
    ).is_some();
    check_auth(auth_header, query, has_date, response_ct)
}

} // verus!

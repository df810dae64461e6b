//! What holds of the authentication check as a whole.

use crate::auth::{
    authorization, check_auth, dated, has_parameter, has_parameter_value, header_complaints,
    incomplete_signature, invalid_signature, missing_token, parameter_value, query_complaints,
    query_of, refusal, refusal_body, sentence_if, validate_auth, Refusal, Response,
};
use crate::http::{ascii, header_fields, path_and_query};
use crate::json::{json_member, json_string, law_json_string_is_unambiguous};
use crate::text::{
    before_first, fields, first_index, lemma_absent, lemma_first_after, lemma_first_after_by,
    lemma_first_occurs, occurs, occurs_at, starts,
};
use crate::text_laws::{law_fields_add_up, law_one_field};
use axum::http::{HeaderMap, Uri};
use vstd::prelude::*;

verus! {

/// Query-string authentication has all its parts.
pub open spec fn query_is_complete(query: Seq<char>) -> bool {
    &&& has_parameter_value(query, "X-Amz-Algorithm"@)
    &&& has_parameter(query, "X-Amz-Credential"@)
    &&& has_parameter(query, "X-Amz-Signature"@)
    &&& has_parameter(query, "X-Amz-SignedHeaders"@)
    &&& has_parameter(query, "X-Amz-Date"@)
}

/// Header-based authentication has all its parts.
pub open spec fn header_is_complete(auth: Seq<char>, has_date: bool) -> bool {
    &&& starts(auth, "AWS4-"@)
    &&& occurs(auth, "Credential="@) || occurs(auth, "credential="@)
    &&& occurs(auth, "Signature="@) || occurs(auth, "signature="@)
    &&& occurs(auth, "SignedHeaders="@) || occurs(auth, "signedheaders="@)
    &&& has_date
}

/// A request is let through exactly if it carries one kind of authentication
/// and that kind is complete.
pub proof fn law_complete_authentication_passes(
    auth: Option<Seq<char>>,
    query: Seq<char>,
    has_date: bool,
)
    ensures
        refusal(auth, query, has_date) is None <==> match auth {
            Some(auth) => !has_parameter(query, "X-Amz-Algorithm"@) && header_is_complete(
                auth,
                has_date,
            ),
            None => query_is_complete(query),
        },
{
}

/// A request with both kinds of authentication is refused for that, however
/// complete they are.
pub proof fn law_both_kinds_conflict(auth: Seq<char>, query: Seq<char>, has_date: bool)
    requires
        has_parameter(query, "X-Amz-Algorithm"@),
    ensures
        refusal(Some(auth), query, has_date) == Some(invalid_signature()),
{
}

/// A request without any authentication, or with a header of another scheme,
/// is told that its token is missing; only such a request is.
pub proof fn law_missing_token(auth: Option<Seq<char>>, query: Seq<char>, has_date: bool)
    ensures
        refusal(auth, query, has_date) == Some(missing_token()) <==> !has_parameter(
            query,
            "X-Amz-Algorithm"@,
        ) && !(auth matches Some(auth) && starts(auth, "AWS4-"@)),
{
    reveal_strlit("com.amazon.coral.service#MissingAuthenticationTokenException");
    reveal_strlit("com.amazon.coral.service#IncompleteSignatureException");
    reveal_strlit("com.amazon.coral.service#InvalidSignatureException");
    assert(missing_token().kind.len() != invalid_signature().kind.len());
    assert forall|message: Seq<char>| #[trigger] incomplete_signature(message) != missing_token() by {
        assert(missing_token().kind.len() != incomplete_signature(message).kind.len());
    }
}

/// Signatures are not verified: what a query parameter holds does not matter,
/// only its name and whether it holds anything.
pub proof fn law_query_values_do_not_matter(
    auth: Option<Seq<char>>,
    query: Seq<char>,
    other: Seq<char>,
    has_date: bool,
)
    requires
        fields(query, '&').len() == fields(other, '&').len(),
        forall|i: int|
            0 <= i < fields(query, '&').len() ==> {
                let a = #[trigger] fields(query, '&')[i];
                let b = #[trigger] fields(other, '&')[i];
                &&& before_first(a, "="@) == before_first(b, "="@)
                &&& parameter_value(a).len() == 0 <==> parameter_value(b).len() == 0
            },
    ensures
        refusal(auth, query, has_date) == refusal(auth, other, has_date),
{
    assert forall|key: Seq<char>| #[trigger] has_parameter(query, key) == has_parameter(other, key) by {
        if has_parameter(query, key) {
            let i = choose|i: int|
                0 <= i < fields(query, '&').len() && before_first(
                    #[trigger] fields(query, '&')[i],
                    "="@,
                ) == key;
            assert(before_first(fields(other, '&')[i], "="@) == key);
        }
        if has_parameter(other, key) {
            let i = choose|i: int|
                0 <= i < fields(other, '&').len() && before_first(
                    #[trigger] fields(other, '&')[i],
                    "="@,
                ) == key;
            assert(before_first(fields(query, '&')[i], "="@) == key);
        }
    }
    let key = "X-Amz-Algorithm"@;
    if has_parameter_value(query, key) {
        let i = choose|i: int|
            {
                let field = #[trigger] fields(query, '&')[i];
                0 <= i < fields(query, '&').len() && before_first(field, "="@) == key
                    && parameter_value(field).len() > 0
            };
        let field = fields(other, '&')[i];
        assert(before_first(field, "="@) == key && parameter_value(field).len() > 0);
    }
    if has_parameter_value(other, key) {
        let i = choose|i: int|
            {
                let field = #[trigger] fields(other, '&')[i];
                0 <= i < fields(other, '&').len() && before_first(field, "="@) == key
                    && parameter_value(field).len() > 0
            };
        let field = fields(query, '&')[i];
        assert(before_first(field, "="@) == key && parameter_value(field).len() > 0);
    }
    assert(query_complaints(query) == query_complaints(other));
}

/// Signatures are not verified: a header that is let through is let through
/// with anything put after it.
pub proof fn law_header_may_go_on(auth: Seq<char>, more: Seq<char>, query: Seq<char>, has_date: bool)
    requires
        refusal(Some(auth), query, has_date) is None,
    ensures
        refusal(Some(auth + more), query, has_date) is None,
{
    law_complete_authentication_passes(Some(auth), query, has_date);
    assert forall|pat: Seq<char>| occurs(auth, pat) implies #[trigger] occurs(auth + more, pat) by {
        let i = choose|i: int| occurs_at(auth, pat, i);
        assert((auth + more).subrange(i, i + pat.len()) =~= auth.subrange(i, i + pat.len()));
        assert(occurs_at(auth + more, pat, i));
    }
    let pat = "AWS4-"@;
    assert((auth + more).subrange(0, pat.len() as int) =~= auth.subrange(0, pat.len() as int));
    law_complete_authentication_passes(Some(auth + more), query, has_date);
}

/// Adding a sentence where it is needed adds that sentence and no other.
proof fn lemma_sentences_add(list: Seq<Seq<char>>, needed: bool, sentence: Seq<char>)
    ensures
        forall|s: Seq<char>| #[trigger]
            (list + sentence_if(needed, sentence)).contains(s) <==> list.contains(s) || (needed
                && s == sentence),
{
    let sum = list + sentence_if(needed, sentence);
    assert forall|s: Seq<char>| #[trigger] sum.contains(s) <==> list.contains(s) || (needed && s
        == sentence) by {
        if list.contains(s) {
            let i = choose|i: int| 0 <= i < list.len() && list[i] == s;
            assert(sum[i] == s);
        }
        if needed {
            assert(sum[list.len() as int] == sentence);
        }
    }
}

/// The complaints about a query name each part that is missing, and no other.
pub proof fn law_query_complaints_name_what_is_missing(query: Seq<char>)
    ensures
        ({
            let list = query_complaints(query);
            &&& list.len() <= 5
            &&& list.contains("AWS query-string parameters must include 'X-Amz-Algorithm'. "@)
                <==> !has_parameter_value(query, "X-Amz-Algorithm"@)
            &&& list.contains("AWS query-string parameters must include 'X-Amz-Credential'. "@)
                <==> !has_parameter(query, "X-Amz-Credential"@)
            &&& list.contains("AWS query-string parameters must include 'X-Amz-Signature'. "@)
                <==> !has_parameter(query, "X-Amz-Signature"@)
            &&& list.contains("AWS query-string parameters must include 'X-Amz-SignedHeaders'. "@)
                <==> !has_parameter(query, "X-Amz-SignedHeaders"@)
            &&& list.contains("AWS query-string parameters must include 'X-Amz-Date'. "@)
                <==> !has_parameter(query, "X-Amz-Date"@)
        }),
{
    let algorithm = "AWS query-string parameters must include 'X-Amz-Algorithm'. "@;
    let credential = "AWS query-string parameters must include 'X-Amz-Credential'. "@;
    let signature = "AWS query-string parameters must include 'X-Amz-Signature'. "@;
    let signed_headers = "AWS query-string parameters must include 'X-Amz-SignedHeaders'. "@;
    let date = "AWS query-string parameters must include 'X-Amz-Date'. "@;
    assert({
        &&& algorithm.len() == signature.len() == 60 && algorithm[48] != signature[48]
        &&& credential.len() == 61
        &&& signed_headers.len() == 64
        &&& date.len() == 55
    }) by {
        reveal_strlit("AWS query-string parameters must include 'X-Amz-Algorithm'. ");
        reveal_strlit("AWS query-string parameters must include 'X-Amz-Credential'. ");
        reveal_strlit("AWS query-string parameters must include 'X-Amz-Signature'. ");
        reveal_strlit("AWS query-string parameters must include 'X-Amz-SignedHeaders'. ");
        reveal_strlit("AWS query-string parameters must include 'X-Amz-Date'. ");
    }
    let no_algorithm = !has_parameter_value(query, "X-Amz-Algorithm"@);
    let no_credential = !has_parameter(query, "X-Amz-Credential"@);
    let no_signature = !has_parameter(query, "X-Amz-Signature"@);
    let no_headers = !has_parameter(query, "X-Amz-SignedHeaders"@);
    let no_date = !has_parameter(query, "X-Amz-Date"@);
    let a = sentence_if(no_algorithm, algorithm);
    let b = a + sentence_if(no_credential, credential);
    let c = b + sentence_if(no_signature, signature);
    let d = c + sentence_if(no_headers, signed_headers);
    lemma_sentences_add(seq![], no_algorithm, algorithm);
    assert(seq![] + a =~= a);
    lemma_sentences_add(a, no_credential, credential);
    lemma_sentences_add(b, no_signature, signature);
    lemma_sentences_add(c, no_headers, signed_headers);
    lemma_sentences_add(d, no_date, date);
}

/// The complaints about a header name each part that is missing, and no other.
pub proof fn law_header_complaints_name_what_is_missing(auth: Seq<char>, has_date: bool)
    ensures
        ({
            let list = header_complaints(auth, has_date);
            &&& list.len() <= 4
            &&& list.contains("Authorization header requires 'Credential' parameter. "@)
                <==> !occurs(auth, "Credential="@) && !occurs(auth, "credential="@)
            &&& list.contains("Authorization header requires 'Signature' parameter. "@)
                <==> !occurs(auth, "Signature="@) && !occurs(auth, "signature="@)
            &&& list.contains("Authorization header requires 'SignedHeaders' parameter. "@)
                <==> !occurs(auth, "SignedHeaders="@) && !occurs(auth, "signedheaders="@)
            &&& list.contains(
                "Authorization header requires existence of either a 'X-Amz-Date' or a 'Date' header. "@,
            ) <==> !has_date
        }),
{
    let credential = "Authorization header requires 'Credential' parameter. "@;
    let signature = "Authorization header requires 'Signature' parameter. "@;
    let signed_headers = "Authorization header requires 'SignedHeaders' parameter. "@;
    let date = "Authorization header requires existence of either a 'X-Amz-Date' or a 'Date' header. "@;
    assert({
        &&& credential.len() == 54
        &&& signature.len() == 53
        &&& signed_headers.len() == 57
        &&& date.len() == 85
    }) by {
        reveal_strlit("Authorization header requires 'Credential' parameter. ");
        reveal_strlit("Authorization header requires 'Signature' parameter. ");
        reveal_strlit("Authorization header requires 'SignedHeaders' parameter. ");
        reveal_strlit(
            "Authorization header requires existence of either a 'X-Amz-Date' or a 'Date' header. ",
        );
    }
    let no_credential = !occurs(auth, "Credential="@) && !occurs(auth, "credential="@);
    let no_signature = !occurs(auth, "Signature="@) && !occurs(auth, "signature="@);
    let no_headers = !occurs(auth, "SignedHeaders="@) && !occurs(auth, "signedheaders="@);
    let a = sentence_if(no_credential, credential);
    let b = a + sentence_if(no_signature, signature);
    let c = b + sentence_if(no_headers, signed_headers);
    lemma_sentences_add(seq![], no_credential, credential);
    assert(seq![] + a =~= a);
    lemma_sentences_add(a, no_signature, signature);
    lemma_sentences_add(b, no_headers, signed_headers);
    lemma_sentences_add(c, !has_date, date);
}

/// A request is refused for one of three reasons.
pub proof fn law_refusals_are_of_three_kinds(
    auth: Option<Seq<char>>,
    query: Seq<char>,
    has_date: bool,
)
    ensures
        refusal(auth, query, has_date) matches Some(reason) ==> {
            ||| reason == invalid_signature()
            ||| reason == missing_token()
            ||| reason == incomplete_signature(reason.message)
        },
{
}

/// The body of an answer tells the type of the error and its message: nothing
/// that a client writes into its header can pass for another part of it.
#[verifier::spinoff_prover]
pub proof fn law_answer_tells_the_refusal(one: Refusal, other: Refusal)
    requires
        refusal_body(one) == refusal_body(other),
    ensures
        one == other,
{
    let start = "{"@ + json_string("__type"@) + ":"@;
    let next = ","@ + json_string("message"@) + ":"@;
    let end = "}"@;
    let one_rest = next + json_string(one.message) + end;
    let other_rest = next + json_string(other.message) + end;
    assert(refusal_body(one) =~= start + (json_string(one.kind) + one_rest));
    assert(refusal_body(other) =~= start + (json_string(other.kind) + other_rest));
    assert(refusal_body(one).skip(start.len() as int) =~= json_string(one.kind) + one_rest);
    assert(refusal_body(other).skip(start.len() as int) =~= json_string(other.kind) + other_rest);
    law_json_string_is_unambiguous(one.kind, other.kind, one_rest, other_rest);
    assert(one_rest.skip(next.len() as int) =~= json_string(one.message) + end);
    assert(other_rest.skip(next.len() as int) =~= json_string(other.message) + end);
    law_json_string_is_unambiguous(one.message, other.message, end, end);
}

/// A field stands between the ends of a text or separators, and holds none.
proof fn lemma_field_stands(s: Seq<char>, i: int) -> (ends: (Seq<char>, Seq<char>))
    requires
        0 <= i < fields(s, '&').len(),
    ensures
        s == ends.0 + fields(s, '&')[i] + ends.1,
        ends.0.len() == 0 || ends.0.last() == '&',
        ends.1.len() == 0 || ends.1.first() == '&',
        !fields(s, '&')[i].contains('&'),
    decreases s.len(),
{
    if s.contains('&') {
        s.index_of_first_ensures('&');
        let k = s.index_of_first('&').unwrap();
        let first = s.take(k);
        let rest = s.skip(k + 1);
        if i == 0 {
            let ends = (Seq::<char>::empty(), s.skip(k));
            assert(s =~= ends.0 + first + ends.1);
            assert forall|j: int| 0 <= j < first.len() implies first[j] != '&' by {
                assert(first[j] == s[j]);
            }
            ends
        } else {
            let (a, b) = lemma_field_stands(rest, i - 1);
            let before = s.take(k + 1) + a;
            assert(fields(s, '&')[i] == fields(rest, '&')[i - 1]);
            assert(s =~= s.take(k + 1) + rest);
            assert(s =~= before + fields(s, '&')[i] + b);
            if a.len() == 0 {
                assert(before =~= s.take(k + 1));
                assert(before.last() == s[k]);
            } else {
                assert(before.last() == a.last());
            }
            (before, b)
        }
    } else {
        let ends = (Seq::<char>::empty(), Seq::<char>::empty());
        assert(s =~= ends.0 + s + ends.1);
        ends
    }
}

/// What stands between the ends of a text or separators, and holds none, is a
/// field.
proof fn lemma_standing_is_a_field(before: Seq<char>, field: Seq<char>, after: Seq<char>) -> (i: int)
    requires
        before.len() == 0 || before.last() == '&',
        after.len() == 0 || after.first() == '&',
        !field.contains('&'),
    ensures
        0 <= i < fields(before + field + after, '&').len(),
        fields(before + field + after, '&')[i] == field,
{
    let s = before + field + after;
    let tail = field + after;
    law_one_field(field, '&');
    if after.len() == 0 {
        assert(tail =~= field);
    } else {
        let rest = after.drop_first();
        assert(tail =~= field.push('&') + rest);
        law_fields_add_up(field, rest, '&');
    }
    assert(fields(tail, '&')[0] == field);
    if before.len() == 0 {
        assert(s =~= tail);
        0
    } else {
        let start = before.drop_last();
        assert(s =~= start.push('&') + tail);
        law_fields_add_up(start, tail, '&');
        fields(start, '&').len() as int
    }
}

/// A field has the name `key` exactly if it is the key and then nothing, or an
/// equals sign and a value.
proof fn lemma_name_of_field(field: Seq<char>, key: Seq<char>)
    requires
        !key.contains('='),
    ensures
        before_first(field, "="@) == key <==> {
            let rest = field.skip(key.len() as int);
            &&& key.is_prefix_of(field)
            &&& rest.len() == 0 || rest.first() == '='
        },
        before_first(field, "="@) == key ==> (parameter_value(field).len() > 0 <==> field.len()
            > key.len() + 1),
{
    reveal_strlit("=");
    let rest = field.skip(key.len() as int);
    if occurs(field, "="@) {
        lemma_first_occurs(field, "="@);
        let i = first_index(field, "="@).unwrap();
        assert(field.subrange(i, i + 1)[0] == field[i]);
        if key.is_prefix_of(field) && (rest.len() == 0 || rest.first() == '=') {
            assert(field =~= key + rest);
            if i < key.len() {
                assert(key[i] == '=');
            }
            if rest.len() == 0 {
                assert(field =~= key);
            }
            let n = key.len() as int;
            assert(field[n] == '=');
            assert(field.subrange(n, n + 1) =~= "="@);
            assert(occurs_at(field, "="@, n));
            assert(i == n);
            assert(field.take(i) =~= key);
        }
        if before_first(field, "="@) == key {
            assert(field.take(i) == key);
            assert(rest.first() == field[i]);
            assert(parameter_value(field) == field.skip(i + 1));
        }
    } else {
        if key.is_prefix_of(field) && (rest.len() == 0 || rest.first() == '=') {
            if rest.len() > 0 {
                let n = key.len() as int;
                assert(field[n] == '=');
                assert(field.subrange(n, n + 1) =~= "="@);
                assert(occurs_at(field, "="@, n));
            }
            assert(field =~= key);
        }
    }
}

/// The query has a parameter exactly if its name stands in it at the beginning
/// or after an ampersand, and is followed by the end, an ampersand or an equals
/// sign; where in the query and among how many others does not matter.
pub proof fn law_parameter_stands_in_the_query(query: Seq<char>, key: Seq<char>)
    requires
        !key.contains('&'),
        !key.contains('='),
    ensures
        has_parameter(query, key) <==> exists|before: Seq<char>, rest: Seq<char>, after: Seq<char>|
            {
                &&& query == #[trigger] (before + (key + rest) + after)
                &&& before.len() == 0 || before.last() == '&'
                &&& rest.len() == 0 || rest.first() == '='
                &&& !rest.contains('&')
                &&& after.len() == 0 || after.first() == '&'
            },
        has_parameter_value(query, key) <==> exists|
            before: Seq<char>,
            rest: Seq<char>,
            after: Seq<char>,
        |
            {
                &&& query == #[trigger] (before + (key + rest) + after)
                &&& before.len() == 0 || before.last() == '&'
                &&& rest.len() > 1 && rest.first() == '='
                &&& !rest.contains('&')
                &&& after.len() == 0 || after.first() == '&'
            },
{
    let list = fields(query, '&');
    assert forall|i: int| 0 <= i < list.len() && before_first(#[trigger] list[i], "="@) == key implies exists|
        before: Seq<char>,
        rest: Seq<char>,
        after: Seq<char>,
    |
        {
            &&& query == #[trigger] (before + (key + rest) + after)
            &&& before.len() == 0 || before.last() == '&'
            &&& rest.len() == 0 || rest.first() == '='
            &&& parameter_value(list[i]).len() > 0 <==> rest.len() > 1
            &&& !rest.contains('&')
            &&& after.len() == 0 || after.first() == '&'
        } by {
        let (before, after) = lemma_field_stands(query, i);
        lemma_name_of_field(list[i], key);
        let rest = list[i].skip(key.len() as int);
        assert(list[i] =~= key + rest);
        assert forall|j: int| 0 <= j < rest.len() implies rest[j] != '&' by {
            assert(list[i][key.len() + j] == rest[j]);
        }
        assert(query == before + (key + rest) + after);
    }
    assert forall|before: Seq<char>, rest: Seq<char>, after: Seq<char>|
        {
            &&& query == #[trigger] (before + (key + rest) + after)
            &&& before.len() == 0 || before.last() == '&'
            &&& rest.len() == 0 || rest.first() == '='
            &&& !rest.contains('&')
            &&& after.len() == 0 || after.first() == '&'
        } implies has_parameter(query, key) && (rest.len() > 1 ==> has_parameter_value(query, key)) by {
        let field = key + rest;
        assert(!field.contains('&')) by {
            if field.contains('&') {
                let j = choose|j: int| 0 <= j < field.len() && field[j] == '&';
                if j < key.len() {
                    assert(key[j] == '&');
                } else {
                    assert(rest[j - key.len()] == '&');
                }
            }
        }
        let i = lemma_standing_is_a_field(before, field, after);
        assert(list[i] == field);
        assert(field.skip(key.len() as int) =~= rest);
        assert(key.is_prefix_of(field)) by {
            assert(field.take(key.len() as int) =~= key);
        }
        lemma_name_of_field(field, key);
    }
}

/// The parameters of two queries joined by an ampersand are those of the one
/// and those of the other: a further field takes none away.
pub proof fn law_parameters_add_up(a: Seq<char>, b: Seq<char>, key: Seq<char>)
    ensures
        has_parameter(a + "&"@ + b, key) <==> has_parameter(a, key) || has_parameter(b, key),
        has_parameter_value(a + "&"@ + b, key) <==> has_parameter_value(a, key)
            || has_parameter_value(b, key),
{
    reveal_strlit("&");
    let s = a + "&"@ + b;
    assert(s =~= a.push('&') + b);
    law_fields_add_up(a, b, '&');
    let one = fields(a, '&');
    let other = fields(b, '&');
    let all = fields(s, '&');
    assert forall|i: int| 0 <= i < one.len() implies all[i] == #[trigger] one[i] by {}
    assert forall|i: int| 0 <= i < other.len() implies all[one.len() + i] == #[trigger] other[i] by {}
    assert forall|i: int| 0 <= i < all.len() implies #[trigger] all[i] == if i < one.len() {
        one[i]
    } else {
        other[i - one.len()]
    } by {}
}

/// Concatenating sentences leaves out those that are not needed.
proof fn lemma_sentences_flatten(list: Seq<Seq<char>>, needed: bool, sentence: Seq<char>)
    ensures
        (list + sentence_if(needed, sentence)).flatten() == list.flatten() + if needed {
            sentence
        } else {
            ""@
        },
{
    reveal_strlit("");
    if needed {
        list.lemma_flatten_push(sentence);
        assert(list + sentence_if(needed, sentence) =~= list.push(sentence));
    } else {
        assert(list + sentence_if(needed, sentence) =~= list);
        assert(list.flatten() + ""@ =~= list.flatten());
    }
}

/// A request with query-string authentication is let through exactly if the
/// query has all five parameters and the first a value. Otherwise the answer
/// names those that are missing, in this order, and no other.
pub proof fn law_query_is_answered(
    query: &str,
    has_date: bool,
    response_ct: &str,
    res: Option<Response>,
)
    requires
        call_ensures(check_auth, (None::<&str>, query, has_date, response_ct), res),
        has_parameter(query@, "X-Amz-Algorithm"@),
    ensures
        res is None <==> {
            &&& has_parameter_value(query@, "X-Amz-Algorithm"@)
            &&& has_parameter(query@, "X-Amz-Credential"@)
            &&& has_parameter(query@, "X-Amz-Signature"@)
            &&& has_parameter(query@, "X-Amz-SignedHeaders"@)
            &&& has_parameter(query@, "X-Amz-Date"@)
        },
        res matches Some(response) ==> {
            let message = (if has_parameter_value(query@, "X-Amz-Algorithm"@) {
                ""@
            } else {
                "AWS query-string parameters must include 'X-Amz-Algorithm'. "@
            }) + (if has_parameter(query@, "X-Amz-Credential"@) {
                ""@
            } else {
                "AWS query-string parameters must include 'X-Amz-Credential'. "@
            }) + (if has_parameter(query@, "X-Amz-Signature"@) {
                ""@
            } else {
                "AWS query-string parameters must include 'X-Amz-Signature'. "@
            }) + (if has_parameter(query@, "X-Amz-SignedHeaders"@) {
                ""@
            } else {
                "AWS query-string parameters must include 'X-Amz-SignedHeaders'. "@
            }) + (if has_parameter(query@, "X-Amz-Date"@) {
                ""@
            } else {
                "AWS query-string parameters must include 'X-Amz-Date'. "@
            }) + "Re-examine the query-string parameters."@;
            &&& response.status == 400
            &&& response.content_type@ == response_ct@
            &&& response.body@ == "{"@ + json_member(
                "__type"@,
                "com.amazon.coral.service#IncompleteSignatureException"@,
            ) + ","@ + json_member("message"@, message) + "}"@
        },
{
    let no_algorithm = !has_parameter_value(query@, "X-Amz-Algorithm"@);
    let no_credential = !has_parameter(query@, "X-Amz-Credential"@);
    let no_signature = !has_parameter(query@, "X-Amz-Signature"@);
    let no_headers = !has_parameter(query@, "X-Amz-SignedHeaders"@);
    let no_date = !has_parameter(query@, "X-Amz-Date"@);
    let algorithm = "AWS query-string parameters must include 'X-Amz-Algorithm'. "@;
    let credential = "AWS query-string parameters must include 'X-Amz-Credential'. "@;
    let signature = "AWS query-string parameters must include 'X-Amz-Signature'. "@;
    let headers = "AWS query-string parameters must include 'X-Amz-SignedHeaders'. "@;
    let date = "AWS query-string parameters must include 'X-Amz-Date'. "@;
    let none = Seq::<Seq<char>>::empty();
    let a = none + sentence_if(no_algorithm, algorithm);
    let b = a + sentence_if(no_credential, credential);
    let c = b + sentence_if(no_signature, signature);
    let d = c + sentence_if(no_headers, headers);
    lemma_sentences_flatten(none, no_algorithm, algorithm);
    lemma_sentences_flatten(a, no_credential, credential);
    lemma_sentences_flatten(b, no_signature, signature);
    lemma_sentences_flatten(c, no_headers, headers);
    lemma_sentences_flatten(d, no_date, date);
    assert(a =~= sentence_if(no_algorithm, algorithm));
    assert(query_complaints(query@) == d + sentence_if(no_date, date));
    let first = if no_algorithm {
        algorithm
    } else {
        ""@
    };
    assert(none.flatten() + first =~= first);
}

/// A request with an `Authorization` header of the right scheme, and without
/// query-string authentication, is let through exactly if the header has its
/// three parts and the request has a date. Otherwise the answer names what is
/// missing, in this order, and repeats the header.
pub proof fn law_header_is_answered(
    auth: &str,
    query: &str,
    has_date: bool,
    response_ct: &str,
    res: Option<Response>,
)
    requires
        call_ensures(check_auth, (Some(auth), query, has_date, response_ct), res),
        !has_parameter(query@, "X-Amz-Algorithm"@),
        "AWS4-"@.is_prefix_of(auth@),
    ensures
        res is None <==> {
            &&& occurs(auth@, "Credential="@) || occurs(auth@, "credential="@)
            &&& occurs(auth@, "Signature="@) || occurs(auth@, "signature="@)
            &&& occurs(auth@, "SignedHeaders="@) || occurs(auth@, "signedheaders="@)
            &&& has_date
        },
        res matches Some(response) ==> {
            let message = (if occurs(auth@, "Credential="@) || occurs(auth@, "credential="@) {
                ""@
            } else {
                "Authorization header requires 'Credential' parameter. "@
            }) + (if occurs(auth@, "Signature="@) || occurs(auth@, "signature="@) {
                ""@
            } else {
                "Authorization header requires 'Signature' parameter. "@
            }) + (if occurs(auth@, "SignedHeaders="@) || occurs(auth@, "signedheaders="@) {
                ""@
            } else {
                "Authorization header requires 'SignedHeaders' parameter. "@
            }) + (if has_date {
                ""@
            } else {
                "Authorization header requires existence of either a 'X-Amz-Date' or a 'Date' header. "@
            }) + "Authorization="@ + auth@;
            &&& response.status == 400
            &&& response.content_type@ == response_ct@
            &&& response.body@ == "{"@ + json_member(
                "__type"@,
                "com.amazon.coral.service#IncompleteSignatureException"@,
            ) + ","@ + json_member("message"@, message) + "}"@
        },
{
    let no_credential = !occurs(auth@, "Credential="@) && !occurs(auth@, "credential="@);
    let no_signature = !occurs(auth@, "Signature="@) && !occurs(auth@, "signature="@);
    let no_headers = !occurs(auth@, "SignedHeaders="@) && !occurs(auth@, "signedheaders="@);
    let credential = "Authorization header requires 'Credential' parameter. "@;
    let signature = "Authorization header requires 'Signature' parameter. "@;
    let headers = "Authorization header requires 'SignedHeaders' parameter. "@;
    let date = "Authorization header requires existence of either a 'X-Amz-Date' or a 'Date' header. "@;
    let none = Seq::<Seq<char>>::empty();
    let a = none + sentence_if(no_credential, credential);
    let b = a + sentence_if(no_signature, signature);
    let c = b + sentence_if(no_headers, headers);
    lemma_sentences_flatten(none, no_credential, credential);
    lemma_sentences_flatten(a, no_signature, signature);
    lemma_sentences_flatten(b, no_headers, headers);
    lemma_sentences_flatten(c, !has_date, date);
    assert(a =~= sentence_if(no_credential, credential));
    assert(header_complaints(auth@, has_date) == c + sentence_if(!has_date, date));
    let first = if no_credential {
        credential
    } else {
        ""@
    };
    assert(none.flatten() + first =~= first);
    assert(starts(auth@, "AWS4-"@)) by {
        assert("AWS4-"@ =~= auth@.subrange(0, "AWS4-"@.len() as int));
    }
}

/// A request without the query's algorithm and without a header of the right
/// scheme is told that its token is missing.
pub proof fn law_missing_token_is_answered(
    auth: Option<&str>,
    query: &str,
    has_date: bool,
    response_ct: &str,
    res: Option<Response>,
)
    requires
        call_ensures(check_auth, (auth, query, has_date, response_ct), res),
        !has_parameter(query@, "X-Amz-Algorithm"@),
        auth matches Some(text) ==> !"AWS4-"@.is_prefix_of(text@),
    ensures
        res matches Some(response) && {
            &&& response.status == 400
            &&& response.content_type@ == response_ct@
            &&& response.body@ == "{"@ + json_member(
                "__type"@,
                "com.amazon.coral.service#MissingAuthenticationTokenException"@,
            ) + ","@ + json_member("message"@, "Request is missing Authentication Token"@) + "}"@
        },
{
    if let Some(text) = auth {
        if starts(text@, "AWS4-"@) {
            assert("AWS4-"@ =~= text@.take("AWS4-"@.len() as int));
        }
    }
}

/// A request with both kinds of authentication is told so.
pub proof fn law_both_kinds_are_answered(
    auth: &str,
    query: &str,
    has_date: bool,
    response_ct: &str,
    res: Option<Response>,
)
    requires
        call_ensures(check_auth, (Some(auth), query, has_date, response_ct), res),
        has_parameter(query@, "X-Amz-Algorithm"@),
    ensures
        res matches Some(response) && {
            &&& response.status == 400
            &&& response.content_type@ == response_ct@
            &&& response.body@ == "{"@ + json_member(
                "__type"@,
                "com.amazon.coral.service#InvalidSignatureException"@,
            ) + ","@ + json_member(
                "message"@,
                "Found both 'X-Amz-Algorithm' as a query-string param and 'Authorization' as HTTP header."@,
            ) + "}"@
        },
{
}

/// A request that is let through stays so with any other fields put before,
/// between or after those of its query, unless it has an `Authorization` header
/// and they bring an algorithm.
pub proof fn law_other_fields_do_no_harm(
    auth: Option<&str>,
    start: Seq<char>,
    end: Seq<char>,
    more: Seq<char>,
    query: &str,
    longer: &str,
    has_date: bool,
    response_ct: &str,
    res: Option<Response>,
)
    requires
        call_ensures(check_auth, (auth, query, has_date, response_ct), None::<Response>),
        call_ensures(check_auth, (auth, longer, has_date, response_ct), res),
        auth is Some ==> !has_parameter(more, "X-Amz-Algorithm"@),
        ({
            ||| longer@ == more + "&"@ + query@
            ||| longer@ == query@ + "&"@ + more
            ||| query@ == start + "&"@ + end && longer@ == start + "&"@ + (more + "&"@ + end)
        }),
    ensures
        res is None,
{
    assert forall|key: Seq<char>| #[trigger]
        has_parameter(longer@, key) == (has_parameter(query@, key) || has_parameter(more, key)) by {
        law_parameters_add_up(more, query@, key);
        law_parameters_add_up(query@, more, key);
        law_parameters_add_up(start, end, key);
        law_parameters_add_up(more, end, key);
        law_parameters_add_up(start, more + "&"@ + end, key);
    }
    assert forall|key: Seq<char>| #[trigger]
        has_parameter_value(longer@, key) == (has_parameter_value(query@, key)
            || has_parameter_value(more, key)) by {
        law_parameters_add_up(more, query@, key);
        law_parameters_add_up(query@, more, key);
        law_parameters_add_up(start, end, key);
        law_parameters_add_up(more, end, key);
        law_parameters_add_up(start, more + "&"@ + end, key);
    }
    let text = match auth {
        Some(auth) => Some(auth@),
        None => None,
    };
    law_complete_authentication_passes(text, query@, has_date);
    law_complete_authentication_passes(text, longer@, has_date);
}

/// The query of a URI is what stands after its first question mark.
proof fn lemma_query_of(uri: Uri, path: Seq<char>, query: Seq<char>)
    requires
        !path.contains('?'),
        path_and_query(uri) == path + "?"@ + query || (query.len() == 0 && path_and_query(uri)
            == path),
    ensures
        query_of(uri) == query,
{
    reveal_strlit("?");
    if path_and_query(uri) == path + "?"@ + query {
        lemma_first_after_by(path, "?"@, 0);
        lemma_first_after(path, "?"@, query);
        assert(path_and_query(uri).skip((path.len() + 1) as int) =~= query);
    } else {
        lemma_absent(path, "?"@, 0);
        assert(query =~= seq![]);
    }
}

/// A request is checked by the first value of its `Authorization` header, if
/// that is text, by what stands after the first question mark of its target,
/// and by whether it has an `X-Amz-Date` or a `Date` header, or both.
pub proof fn law_request_is_read(
    headers: HeaderMap,
    uri: Uri,
    auth: Option<&str>,
    path: Seq<char>,
    query: &str,
    has_date: bool,
    response_ct: &str,
    res: Option<Response>,
    checked: Option<Response>,
)
    requires
        call_ensures(validate_auth, (&headers, &uri, response_ct), res),
        call_ensures(check_auth, (auth, query, has_date, response_ct), checked),
        match auth {
            Some(text) => {
                let bytes = header_fields(headers)["authorization"@][0];
                &&& header_fields(headers).contains_key("authorization"@)
                &&& text@.len() == bytes.len()
                &&& forall|i: int|
                    0 <= i < bytes.len() ==> {
                        &&& 32 <= #[trigger] bytes[i] < 127 || bytes[i] == 9
                        &&& text@[i] == bytes[i] as char
                    }
            },
            None => {
                let bytes = header_fields(headers)["authorization"@][0];
                header_fields(headers).contains_key("authorization"@) ==> exists|i: int|
                    0 <= i < bytes.len() && !(32 <= #[trigger] bytes[i] < 127 || bytes[i] == 9)
            },
        },
        !path.contains('?'),
        path_and_query(uri) == path + "?"@ + query@ || (query@.len() == 0 && path_and_query(uri)
            == path),
        has_date <==> header_fields(headers).contains_key("x-amz-date"@) || header_fields(
            headers,
        ).contains_key("date"@),
    ensures
        match (res, checked) {
            (Some(one), Some(other)) => {
                &&& one.status == other.status
                &&& one.content_type@ == other.content_type@
                &&& one.body@ == other.body@
            },
            (None, None) => true,
            _ => false,
        },
{
    lemma_query_of(uri, path, query@);
    let text = match auth {
        Some(text) => Some(text@),
        None => None,
    };
    if let Some(text) = auth {
        assert(ascii(header_fields(headers)["authorization"@][0]) =~= text@);
    }
    assert(authorization(headers) == text);
    assert(dated(headers) == has_date);
}

/// A request with a complete `Authorization` header and without query-string
/// authentication is let through if it has an `X-Amz-Date` header, whatever
/// else it has, and also if it has a `Date` header.
pub proof fn law_dated_request_passes(
    headers: HeaderMap,
    uri: Uri,
    auth: Seq<char>,
    path: Seq<char>,
    query: Seq<char>,
    response_ct: &str,
    res: Option<Response>,
)
    requires
        call_ensures(validate_auth, (&headers, &uri, response_ct), res),
        header_fields(headers).contains_key("authorization"@),
        auth.len() == header_fields(headers)["authorization"@][0].len(),
        forall|i: int|
            0 <= i < auth.len() ==> {
                let byte = header_fields(headers)["authorization"@][0][i];
                &&& 32 <= byte < 127 || byte == 9
                &&& #[trigger] auth[i] == byte as char
            },
        "AWS4-"@.is_prefix_of(auth),
        occurs(auth, "Credential="@) || occurs(auth, "credential="@),
        occurs(auth, "Signature="@) || occurs(auth, "signature="@),
        occurs(auth, "SignedHeaders="@) || occurs(auth, "signedheaders="@),
        !path.contains('?'),
        path_and_query(uri) == path + "?"@ + query || (query.len() == 0 && path_and_query(uri)
            == path),
        !has_parameter(query, "X-Amz-Algorithm"@),
        header_fields(headers).contains_key("x-amz-date"@) || header_fields(headers).contains_key(
            "date"@,
        ),
    ensures
        res is None,
{
    lemma_query_of(uri, path, query);
    let bytes = header_fields(headers)["authorization"@][0];
    assert forall|i: int| 0 <= i < bytes.len() implies 32 <= #[trigger] bytes[i] < 127 || bytes[i]
        == 9 by {
        assert(auth[i] == bytes[i] as char);
    }
    assert(ascii(bytes) =~= auth);
    assert(authorization(headers) == Some(auth));
    assert(starts(auth, "AWS4-"@)) by {
        assert("AWS4-"@ =~= auth.subrange(0, "AWS4-"@.len() as int));
    }
    law_complete_authentication_passes(Some(auth), query, dated(headers));
}

/// A request that is let through is let through with any other headers added
/// to it.
pub proof fn law_other_headers_do_no_harm(
    headers: HeaderMap,
    more: HeaderMap,
    uri: Uri,
    response_ct: &str,
    res: Option<Response>,
)
    requires
        call_ensures(validate_auth, (&headers, &uri, response_ct), None::<Response>),
        call_ensures(validate_auth, (&more, &uri, response_ct), res),
        forall|name: Seq<char>| #[trigger]
            header_fields(headers).contains_key(name) ==> header_fields(more).contains_key(name)
                && header_fields(more)[name] == header_fields(headers)[name],
        header_fields(more).contains_key("authorization"@) ==> header_fields(headers).contains_key(
            "authorization"@,
        ),
    ensures
        res is None,
{
    let query = query_of(uri);
    assert(authorization(more) == authorization(headers)) by {
        assert(header_fields(headers).contains_key("authorization"@)
            || !header_fields(more).contains_key("authorization"@));
    }
    assert(dated(headers) ==> dated(more));
    law_complete_authentication_passes(authorization(headers), query, dated(headers));
    law_complete_authentication_passes(authorization(more), query, dated(more));
}

} // verus!

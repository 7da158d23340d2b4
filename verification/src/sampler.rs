use vstd::prelude::*;
use vstd::string::StringExecFns;
use crate::errors::{ClassifiedError, ErrorModel};
use crate::numerals::{decimal_chars, format_u64};

verus! {

/// The length of the top-level array, if the bytes parse as a JSON document
/// whose top-level value is an array; `None` if they are malformed or parse
/// to any other shape. A pure function of the bytes alone.
pub uninterp spec fn json_array_len(body: Seq<u8>) -> Option<nat>;

/// Relies on serde_json::from_slice::<Value>: parses the bytes as one JSON
/// document, a function of the bytes alone; the match only tells an array
/// apart from every other shape and takes its length.
#[verifier::external_body]
fn parse_array_len(body: &Vec<u8>) -> (r: Option<usize>)
    ensures
        (match r {
            Some(n) => json_array_len(body@) == Some(n as nat),
            None => json_array_len(body@) is None,
        }),
{
    match serde_json::from_slice::<serde_json::Value>(body.as_slice()) {
        Ok(serde_json::Value::Array(items)) => Some(items.len()),
        _ => None,
    }
}

/// The session count a sample body stands for: the length of the JSON array
/// it holds, and zero for any body of another shape. The lenient branch is
/// deliberate: an uninterpretable payload must not be confused with an
/// active-session determination, and must not stop the loop.
pub open spec fn session_count_of(body: Seq<u8>) -> nat {
    match json_array_len(body) {
        Some(n) => n,
        None => 0,
    }
}

/// Counts the active sessions a sample body reports: the length of its JSON
/// array, or zero when the body is not an array at all.
pub fn count_sessions(body: &Vec<u8>) -> (n: usize)
    ensures
        n as nat == session_count_of(body@),
{
    match parse_array_len(body) {
        Some(n) => n,
        None => 0,
    }
}

/// The model of a sample result as the control loop sees it.
pub open spec fn count_result_model(r: Result<usize, ClassifiedError>) -> Result<
    nat,
    ErrorModel,
> {
    match r {
        Ok(n) => Ok(n as nat),
        Err(e) => Err(e@),
    }
}

/// What a sample response yields: on any 2xx status, the session count its
/// body stands for, whatever the body's shape; on any other status, a
/// transient failure. The media server holds no renewable session, so no
/// auth-rejection classification applies here.
pub open spec fn sample_outcome_model(status: u16, body: Seq<u8>) -> Result<nat, ErrorModel> {
    if 200 <= status <= 299 {
        Ok(session_count_of(body))
    } else {
        Err(
            ErrorModel::Transient {
                message: "unexpected sample response status "@ + decimal_chars(status as int),
                status: Some(status),
            },
        )
    }
}

/// Classifies a sample response. `status` is the HTTP status and `body` the
/// raw response body.
pub fn sample_outcome(status: u16, body: &Vec<u8>) -> (r: Result<usize, ClassifiedError>)
    ensures
        count_result_model(r) == sample_outcome_model(status, body@),
{
    if 200 <= status && status <= 299 {
        Ok(count_sessions(body))
    } else {
        let mut message = String::from_str("unexpected sample response status ");
        let digits = format_u64(status as u64);
        message.append(digits.as_str());
        Err(ClassifiedError::Transient { message, status: Some(status) })
    }
}

/// A body that is not a JSON array counts as zero sessions, exactly as an
/// empty array does, and on a success status it never yields an error.
pub proof fn lemma_non_array_counts_as_empty(bad: Seq<u8>, empty: Seq<u8>, status: u16)
    requires
        json_array_len(bad) is None,
        json_array_len(empty) == Some(0nat),
        200 <= status <= 299,
    ensures
        session_count_of(bad) == session_count_of(empty),
        session_count_of(bad) == 0,
        sample_outcome_model(status, bad) == Ok::<nat, ErrorModel>(0nat),
{
}

} // verus!

//! Turning responses and transport failures into typed results.
use vstd::prelude::*;
use crate::codec::{expect_object, required, required_spec, FromJson};
use crate::error::{connect_failed_of, BeeperError};
use crate::json::{JsonV, JsonValue};

verus! {

/// The structured body of a 400 or 403 response.
#[derive(Debug, Clone)]
pub struct ApiErrorResponse {
    pub code: String,
    pub message: String,
}

impl DeepView for ApiErrorResponse {
    type V = (Seq<char>, Seq<char>);

    open spec fn deep_view(&self) -> (Seq<char>, Seq<char>) {
        (self.code@, self.message@)
    }
}

impl FromJson for ApiErrorResponse {
    open spec fn decode(j: JsonV) -> Option<(Seq<char>, Seq<char>)> {
        let code = required_spec::<String>(j, "code"@);
        let message = required_spec::<String>(j, "message"@);
        if j is Object && code is Some && message is Some {
            Some((code->Some_0, message->Some_0))
        } else {
            None
        }
    }

    fn from_json(j: &JsonValue) -> (r: Result<ApiErrorResponse, String>) {
        expect_object(j)?;
        let code = required::<String>(j, "code")?;
        let message = required::<String>(j, "message")?;
        Ok(ApiErrorResponse { code, message })
    }
}

pub open spec fn digit_char(d: nat) -> char {
    if d == 0 {
        '0'
    } else if d == 1 {
        '1'
    } else if d == 2 {
        '2'
    } else if d == 3 {
        '3'
    } else if d == 4 {
        '4'
    } else if d == 5 {
        '5'
    } else if d == 6 {
        '6'
    } else if d == 7 {
        '7'
    } else if d == 8 {
        '8'
    } else {
        '9'
    }
}

/// The decimal digits of `n`, without leading zeros.
pub open spec fn decimal_text(n: nat) -> Seq<char>
    decreases n,
{
    if n < 10 {
        seq![digit_char(n)]
    } else {
        decimal_text(n / 10).push(digit_char(n % 10))
    }
}

fn digit_str(d: u16) -> (r: &'static str)
    requires
        d < 10,
    ensures
        r@ == seq![digit_char(d as nat)],
{
    proof {
        reveal_strlit("0");
        reveal_strlit("1");
        reveal_strlit("2");
        reveal_strlit("3");
        reveal_strlit("4");
        reveal_strlit("5");
        reveal_strlit("6");
        reveal_strlit("7");
        reveal_strlit("8");
        reveal_strlit("9");
    }
    match d {
        0 => "0",
        1 => "1",
        2 => "2",
        3 => "3",
        4 => "4",
        5 => "5",
        6 => "6",
        7 => "7",
        8 => "8",
        _ => "9",
    }
}

/// The status code written in decimal, as an unrecognised status is reported.
pub fn status_text(n: u16) -> (r: String)
    ensures
        r@ == decimal_text(n as nat),
    decreases n,
{
    if n < 10 {
        String::from_str(digit_str(n))
    } else {
        let mut s = status_text(n / 10);
        s.append(digit_str(n % 10));
        s
    }
}

/// Whether a response with this status has its body read as JSON: only
/// successes (200, 201) and structured client errors (400, 403) do.
pub open spec fn decodes_body(status: u16) -> bool {
    status == 200 || status == 201 || status == 400 || status == 403
}

/// Tells the caller whether to parse the body of a response before handing
/// it to [`handle_response`]; every other status is classified without it.
pub fn needs_json_body(status: u16) -> (r: bool)
    ensures
        r == decodes_body(status),
{
    status == 200 || status == 201 || status == 400 || status == 403
}

/// What a response becomes, for each status code and body.
///
/// `text` is the raw body; `body` is that text read as JSON, or `None` when
/// it is not JSON or was not read.  Only the statuses of [`decodes_body`]
/// look at `body`.
pub open spec fn outcome_matches<T: FromJson>(
    status: u16,
    text: Seq<char>,
    body: Option<JsonV>,
    r: Result<T, BeeperError>,
) -> bool {
    if status == 200 || status == 201 {
        match body {
            Some(j) => match T::decode(j) {
                Some(v) => r matches Ok(x) && x.deep_view() == v,
                None => r matches Err(BeeperError::SerializationError(_)),
            },
            None => r matches Err(BeeperError::SerializationError(_)),
        }
    } else if status == 400 || status == 403 {
        match body {
            Some(j) => match ApiErrorResponse::decode(j) {
                Some(e) => r matches Err(BeeperError::ApiError { code, message }) && code@ == e.0
                    && message@ == e.1,
                None => r matches Err(BeeperError::SerializationError(_)),
            },
            None => r matches Err(BeeperError::SerializationError(_)),
        }
    } else if status == 401 {
        r matches Err(BeeperError::InvalidConfig(reason)) && reason@ == "unauthorized"@
    } else if status == 404 {
        r matches Err(BeeperError::InvalidConfig(reason)) && reason@ == "resource not found"@
    } else if status == 429 {
        r matches Err(BeeperError::InvalidConfig(reason)) && reason@ == "rate limit exceeded"@
    } else {
        r matches Err(BeeperError::ApiError { code, message }) && code@ == decimal_text(
            status as nat,
        ) && message@ == text
    }
}

/// Reads the structured error body of a 400 or 403 response.
fn api_error(body: &Option<JsonValue>) -> (r: BeeperError)
    ensures
        match body {
            Some(j) => match ApiErrorResponse::decode(j@) {
                Some(e) => r matches BeeperError::ApiError { code, message } && code@ == e.0
                    && message@ == e.1,
                None => r is SerializationError,
            },
            None => r is SerializationError,
        },
{
    match body {
        Some(j) => match ApiErrorResponse::from_json(j) {
            Ok(e) => BeeperError::ApiError { code: e.code, message: e.message },
            Err(msg) => BeeperError::SerializationError(msg),
        },
        None => BeeperError::SerializationError(String::from_str("response body is not JSON")),
    }
}

/// Classifies a response by its status code and decodes its body.
///
/// 200 and 201 decode `body` as the expected output; 400 and 403 decode it as
/// `{code, message}`; 401, 404 and 429 are configuration errors whatever the
/// body holds; any other status is an API error with the status as its code
/// and the raw `text` as its message.
pub fn handle_response<T: FromJson>(status: u16, text: &str, body: Option<JsonValue>) -> (r: Result<
    T,
    BeeperError,
>)
    ensures
        outcome_matches::<T>(
            status,
            text@,
            match body {
                Some(j) => Some(j@),
                None => None,
            },
            r,
        ),
{
    if status == 200 || status == 201 {
        match &body {
            Some(j) => match T::from_json(j) {
                Ok(v) => Ok(v),
                Err(msg) => Err(BeeperError::SerializationError(msg)),
            },
            None => Err(
                BeeperError::SerializationError(String::from_str("response body is not JSON")),
            ),
        }
    } else if status == 400 || status == 403 {
        Err(api_error(&body))
    } else if status == 401 {
        Err(BeeperError::InvalidConfig(String::from_str("unauthorized")))
    } else if status == 404 {
        Err(BeeperError::InvalidConfig(String::from_str("resource not found")))
    } else if status == 429 {
        Err(BeeperError::InvalidConfig(String::from_str("rate limit exceeded")))
    } else {
        Err(BeeperError::ApiError { code: status_text(status), message: String::from_str(text) })
    }
}

/// Classifies a transport failure: a failure to connect means the API is not
/// reachable at `base_url`; anything else is a request error.
pub fn classify_request_error(connect_failed: bool, base_url: &str, error: reqwest::Error) -> (r:
    BeeperError)
    ensures
        connect_failed ==> (r matches BeeperError::ApiNotReachable { url } && url@ == base_url@),
        !connect_failed ==> (r matches BeeperError::RequestError(e) && e == error),
{
    if connect_failed {
        BeeperError::ApiNotReachable { url: String::from_str(base_url) }
    } else {
        BeeperError::RequestError(error)
    }
}

/// Maps a transport failure to an error, checking for a failure to connect
/// before anything else: a failure to connect means the API is not reachable
/// at `base_url`; any other failure is a request error.
pub fn map_request_error(error: reqwest::Error, base_url: &str) -> (r: BeeperError)
    ensures
        connect_failed_of(error) ==> (r matches BeeperError::ApiNotReachable { url } && url@
            == base_url@),
        !connect_failed_of(error) ==> (r matches BeeperError::RequestError(e) && e == error),
{
    let connect_failed = error.is_connect();
    classify_request_error(connect_failed, base_url, error)
}

} // verus!

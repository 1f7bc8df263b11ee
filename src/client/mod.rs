//! The client handle and the requests it builds.
//!
//! Each operation of the API is a method that turns the client's current
//! token and base URL, and the operation's input, into an [`ApiRequest`]: the
//! method, the URL with its percent-encoded path segments and query, the
//! `Authorization` header, and the JSON body.  Sending it is left to the
//! caller; [`handle_response`] turns what came back into a typed result.
pub mod accounts;
pub mod app;
pub mod chats;
pub mod messages;
pub mod search;
pub mod utils;

use vstd::prelude::*;
use vstd::utf8::{encode_scalar, encode_utf8, leading_byte_width_1};
use crate::json::{members_view, JsonV, JsonValue};

pub use self::utils::{
    classify_request_error, handle_response, map_request_error, needs_json_body, status_text,
    ApiErrorResponse,
};

verus! {

/// Base URL of a locally running desktop app.
pub const DEFAULT_BASE_URL: &'static str = "http://localhost:23373";

/// The HTTP method of a request.
#[derive(Debug, Clone, Copy, PartialEq, Eq, Structural)]
pub enum HttpMethod {
    Get,
    Post,
    Delete,
}

/// A request ready to be sent.
///
/// `body` holds the JSON body; mutating requests (`POST`, `DELETE`) always
/// carry one, reads (`GET`) never do.
#[derive(Debug)]
pub struct ApiRequest {
    pub method: HttpMethod,
    pub url: String,
    /// Value of the `Authorization` header
    pub authorization: String,
    pub body: Option<JsonValue>,
}

/// The state of a client: its bearer token and the base URL of the API.
pub struct ClientState {
    pub token: Seq<char>,
    pub base_url: Seq<char>,
}

/// Main API client.
///
/// Stores the bearer token and base URL for API requests.  Every request
/// built from it carries the token in its `Authorization` header.
#[derive(Debug, Clone)]
pub struct BeeperClient {
    token: String,
    base_url: String,
}

impl View for BeeperClient {
    type V = ClientState;

    closed spec fn view(&self) -> ClientState {
        ClientState { token: self.token@, base_url: self.base_url@ }
    }
}

/// A byte that percent-encoding keeps: an ASCII letter or digit, or one of
/// `-`, `.`, `_`, `~`.
pub open spec fn is_unreserved_byte(b: u8) -> bool {
    (0x30 <= b <= 0x39) || (0x41 <= b <= 0x5A) || (0x61 <= b <= 0x7A) || b == 0x2D || b == 0x2E
        || b == 0x5F || b == 0x7E
}

/// The upper-case hexadecimal digit for `n < 16`.
pub open spec fn hex_digit(n: u8) -> char {
    seq!['0', '1', '2', '3', '4', '5', '6', '7', '8', '9', 'A', 'B', 'C', 'D', 'E', 'F'][n as int]
}

/// One byte, percent-encoded: kept when unreserved, `%XX` otherwise.
pub open spec fn percent_byte(b: u8) -> Seq<char> {
    if is_unreserved_byte(b) {
        seq![b as char]
    } else {
        seq!['%', hex_digit(b / 16), hex_digit(b % 16)]
    }
}

pub open spec fn percent_encode_bytes(bytes: Seq<u8>) -> Seq<char>
    decreases bytes.len(),
{
    if bytes.len() == 0 {
        Seq::empty()
    } else {
        percent_byte(bytes[0]) + percent_encode_bytes(bytes.drop_first())
    }
}

/// The percent-encoding of `s`: each byte of its UTF-8 encoding in turn.
pub open spec fn percent_encoded(s: Seq<char>) -> Seq<char> {
    percent_encode_bytes(encode_utf8(s))
}

/// A character that percent-encoding leaves as it is.
pub open spec fn is_unreserved(c: char) -> bool {
    ('0' <= c <= '9') || ('A' <= c <= 'Z') || ('a' <= c <= 'z') || c == '-' || c == '.' || c
        == '_' || c == '~'
}

pub proof fn lemma_percent_encode_bytes_append(a: Seq<u8>, b: Seq<u8>)
    ensures
        percent_encode_bytes(a + b) == percent_encode_bytes(a) + percent_encode_bytes(b),
    decreases a.len(),
{
    if a.len() == 0 {
        assert(a + b =~= b);
        assert(Seq::<char>::empty() + percent_encode_bytes(b) =~= percent_encode_bytes(b));
    } else {
        assert((a + b).drop_first() =~= a.drop_first() + b);
        lemma_percent_encode_bytes_append(a.drop_first(), b);
        assert(percent_byte(a[0]) + (percent_encode_bytes(a.drop_first()) + percent_encode_bytes(b))
            =~= percent_byte(a[0]) + percent_encode_bytes(a.drop_first()) + percent_encode_bytes(b));
    }
}

proof fn lemma_unreserved_char(c: char)
    requires
        is_unreserved(c),
    ensures
        percent_encode_bytes(encode_scalar(c as u32)) == seq![c],
{
    let u = c as u32;
    assert(u < 0x80);
    assert((u & 0x7F) == u) by (bit_vector)
        requires
            u < 0x80,
    ;
    let b = leading_byte_width_1(u);
    assert(encode_scalar(u) == seq![b]);
    assert(b as u32 == u);
    assert(is_unreserved_byte(b));
    assert((b as char) == c);
    let e = Seq::<u8>::empty();
    assert(seq![b].drop_first() =~= e);
    assert(percent_encode_bytes(e) == Seq::<char>::empty());
    assert(seq![b][0] == b);
    assert(percent_byte(b) == seq![c]);
    assert(percent_encode_bytes(seq![b]) == percent_byte(b) + percent_encode_bytes(e));
    assert(percent_encode_bytes(seq![b]) =~= seq![c]);
}

/// A string of unreserved characters is its own percent-encoding.
pub proof fn lemma_unreserved_unchanged(s: Seq<char>)
    requires
        forall|i: int| 0 <= i < s.len() ==> is_unreserved(#[trigger] s[i]),
    ensures
        percent_encoded(s) == s,
    decreases s.len(),
{
    if s.len() > 0 {
        lemma_unreserved_unchanged(s.drop_first());
        lemma_unreserved_char(s[0]);
        lemma_percent_encode_bytes_append(encode_scalar(s[0] as u32), encode_utf8(s.drop_first()));
        assert(seq![s[0]] + s.drop_first() =~= s);
    }
}

/// Relies on `urlencoding::encode`: it percent-encodes every byte of the
/// string's UTF-8 form but the unreserved ones, with upper-case hex digits.
#[verifier::external_body]
fn percent_encode(s: &str) -> (r: String)
    ensures
        r@ == percent_encoded(s@),
{
    urlencoding::encode(s).into_owned()
}

/// The query that a listing gets for an optional cursor and direction.
pub open spec fn page_query(cursor: Option<Seq<char>>, direction: Option<Seq<char>>) -> Seq<char> {
    match (cursor, direction) {
        (None, None) => Seq::empty(),
        (Some(c), None) => "?cursor="@ + percent_encoded(c),
        (Some(c), Some(d)) => "?cursor="@ + percent_encoded(c) + "&direction="@ + d,
        (None, Some(d)) => "?direction="@ + d,
    }
}

/// Appends the page query for `cursor` and `direction` to `url`.
fn append_page_query(url: &mut String, cursor: Option<&str>, direction: Option<&str>)
    ensures
        final(url)@ == old(url)@ + page_query(cursor.deep_view(), direction.deep_view()),
{
    let ghost u = url@;
    match cursor {
        Some(c) => {
            url.append("?cursor=");
            let e = percent_encode(c);
            url.append(e.as_str());
            match direction {
                Some(d) => {
                    url.append("&direction=");
                    url.append(d);
                    assert(url@ =~= u + ("?cursor="@ + percent_encoded(c@) + "&direction="@ + d@));
                },
                None => {
                    assert(url@ =~= u + ("?cursor="@ + percent_encoded(c@)));
                },
            }
        },
        None => match direction {
            Some(d) => {
                url.append("?direction=");
                url.append(d);
                assert(url@ =~= u + ("?direction="@ + d@));
            },
            None => {
                assert(url@ =~= u + Seq::<char>::empty());
            },
        },
    }
}

/// `base` followed by `path`.
fn join(base: &str, path: &str) -> (r: String)
    ensures
        r@ == base@ + path@,
{
    let mut url = String::from_str(base);
    url.append(path);
    url
}

/// The URL of a resource under a chat: `base/v1/chats/<encoded id><rest>`.
pub open spec fn chat_url(base: Seq<char>, chat_id: Seq<char>, rest: Seq<char>) -> Seq<char> {
    base + "/v1/chats/"@ + percent_encoded(chat_id) + rest
}

fn chat_path(base: &str, chat_id: &str, rest: &str) -> (r: String)
    ensures
        r@ == chat_url(base@, chat_id@, rest@),
{
    let mut url = join(base, "/v1/chats/");
    let e = percent_encode(chat_id);
    url.append(e.as_str());
    url.append(rest);
    url
}

/// An object with no members: the body of a mutating request that has
/// nothing to send.
pub fn empty_object() -> (r: JsonValue)
    ensures
        r@ == JsonV::Object(Seq::empty()),
{
    let m: Vec<(String, JsonValue)> = Vec::new();
    assert(members_view(m@) =~= Seq::empty());
    JsonValue::Object(m)
}

impl BeeperClient {
    /// Creates a new client from a bearer token and the base URL of the API.
    /// Makes no network call.
    pub fn new(token: &str, base_url: &str) -> (r: Self)
        ensures
            r@.token == token@,
            r@.base_url == base_url@,
    {
        BeeperClient { token: String::from_str(token), base_url: String::from_str(base_url) }
    }

    /// Creates a new client for the default local base URL.
    pub fn with_token(token: &str) -> (r: Self)
        ensures
            r@.token == token@,
            r@.base_url == DEFAULT_BASE_URL@,
    {
        Self::new(token, DEFAULT_BASE_URL)
    }

    /// Updates the bearer token; the base URL is kept.
    pub fn set_token(&mut self, token: &str)
        ensures
            final(self)@.token == token@,
            final(self)@.base_url == old(self)@.base_url,
    {
        self.token = String::from_str(token);
    }

    /// Updates the base URL; the token is kept.
    pub fn set_base_url(&mut self, base_url: &str)
        ensures
            final(self)@.token == old(self)@.token,
            final(self)@.base_url == base_url@,
    {
        self.base_url = String::from_str(base_url);
    }

    /// Gets the current base URL.
    pub fn base_url(&self) -> (r: &str)
        ensures
            r@ == self@.base_url,
    {
        self.base_url.as_str()
    }

    /// The value of the `Authorization` header: `Bearer <token>`.
    pub fn get_auth_header(&self) -> (r: String)
        ensures
            r@ == "Bearer "@ + self@.token,
    {
        join("Bearer ", self.token.as_str())
    }

    fn get_base_url(&self) -> (r: &str)
        ensures
            r@ == self@.base_url,
    {
        self.base_url.as_str()
    }

    fn request(&self, method: HttpMethod, url: String, body: Option<JsonValue>) -> (r: ApiRequest)
        ensures
            r.method == method,
            r.url@ == url@,
            r.authorization@ == "Bearer "@ + self@.token,
            r.body == body,
    {
        ApiRequest { method, url, authorization: self.get_auth_header(), body }
    }
}

} // verus!

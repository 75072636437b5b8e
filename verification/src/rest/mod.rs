//! The HTTP surface as plain values: what a handler answers, without the
//! framework that sends it.

pub mod read;
pub mod write;

use crate::auth::authorized;
use crate::auth::is_authorized;
use crate::cache::CacheError;
use crate::cache::Health;
use crate::cache::HealthModel;
use crate::rest::write::UploadResponse;
use crate::storage::is_hex_text;
use crate::text::chars_of;
use vstd::prelude::*;
use vstd::string::*;

verus! {

/// The JSON object `{"error": ...}`.
#[derive(Debug, PartialEq, Eq)]
pub struct GenericError {
    pub error: String,
}

/// Where the bytes of a served variant came from.
#[derive(Debug, Clone, Copy, PartialEq, Eq, Structural)]
pub enum OriginStatus {
    /// The cache held them.
    Cache,
    /// They were rendered from the store.
    Origin,
}

/// The body of an answer.
#[derive(Debug, PartialEq, Eq)]
pub enum Body {
    /// No body.
    Empty,
    /// Plain text.
    Text(String),
    /// The JSON object `{"error": ...}`.
    Error(GenericError),
    /// A JSON string.
    Message(String),
    /// The JSON object `{"filename": ...}`.
    Upload(UploadResponse),
    /// The JSON object of a health report.
    Health(Health),
    /// Encoded image bytes.
    Image(Vec<u8>),
}

/// An answer: status code, media type, origin marker and body.
#[derive(Debug, PartialEq, Eq)]
pub struct Response {
    pub status: u16,
    /// The `Content-Type` of an image answer.
    pub content_type: Option<String>,
    /// The `X-Origin-Status` header.
    pub origin: Option<OriginStatus>,
    pub body: Body,
}

/// A body as a mathematical value.
pub ghost enum BodyModel {
    Empty,
    Text(Seq<char>),
    Error(Seq<char>),
    Message(Seq<char>),
    Upload(Seq<char>),
    Health(HealthModel),
    Image(Seq<u8>),
}

/// An answer as a mathematical value.
pub ghost struct ResponseModel {
    pub status: nat,
    pub content_type: Option<Seq<char>>,
    pub origin: Option<OriginStatus>,
    pub body: BodyModel,
}

impl View for GenericError {
    type V = Seq<char>;

    open spec fn view(&self) -> Seq<char> {
        self.error@
    }
}

impl View for Body {
    type V = BodyModel;

    open spec fn view(&self) -> BodyModel {
        match self {
            Body::Empty => BodyModel::Empty,
            Body::Text(text) => BodyModel::Text(text@),
            Body::Error(error) => BodyModel::Error(error@),
            Body::Message(text) => BodyModel::Message(text@),
            Body::Upload(upload) => BodyModel::Upload(upload@),
            Body::Health(health) => BodyModel::Health(health@),
            Body::Image(bytes) => BodyModel::Image(bytes@),
        }
    }
}

impl View for Response {
    type V = ResponseModel;

    open spec fn view(&self) -> ResponseModel {
        ResponseModel {
            status: self.status as nat,
            content_type: match self.content_type {
                Some(kind) => Some(kind@),
                None => None,
            },
            origin: self.origin,
            body: self.body@,
        }
    }
}

/// An answer that carries only a status and a body.
pub open spec fn plain(status: nat, body: BodyModel) -> ResponseModel {
    ResponseModel { status, content_type: None, origin: None, body }
}

/// An answer with a text body.
pub open spec fn text_answer(status: nat, message: Seq<char>) -> ResponseModel {
    plain(status, BodyModel::Text(message))
}

/// An answer with a JSON error body.
pub open spec fn error_answer(status: nat, message: Seq<char>) -> ResponseModel {
    plain(status, BodyModel::Error(message))
}

/// The answer that serves image bytes.
pub open spec fn image_answer(kind: Seq<char>, origin: OriginStatus, bytes: Seq<u8>) -> ResponseModel {
    ResponseModel {
        status: 200,
        content_type: Some(kind),
        origin: Some(origin),
        body: BodyModel::Image(bytes),
    }
}

impl OriginStatus {
    /// The value of the `X-Origin-Status` header.
    pub fn as_str(&self) -> (text: &'static str)
        ensures
            text@ == match self {
                OriginStatus::Cache => "cache"@,
                OriginStatus::Origin => "origin"@,
            },
    {
        match self {
            OriginStatus::Cache => "cache",
            OriginStatus::Origin => "origin",
        }
    }
}

impl Response {
    /// An answer without a body.
    pub fn empty(status: u16) -> (response: Response)
        ensures
            response@ == plain(status as nat, BodyModel::Empty),
    {
        Response { status, content_type: None, origin: None, body: Body::Empty }
    }

    /// An answer with a text body.
    pub fn text(status: u16, message: &str) -> (response: Response)
        ensures
            response@ == text_answer(status as nat, message@),
    {
        Response {
            status,
            content_type: None,
            origin: None,
            body: Body::Text(String::from_str(message)),
        }
    }

    /// An answer with a JSON error body.
    pub fn error(status: u16, message: &str) -> (response: Response)
        ensures
            response@ == error_answer(status as nat, message@),
    {
        Response {
            status,
            content_type: None,
            origin: None,
            body: Body::Error(GenericError { error: String::from_str(message) }),
        }
    }

    /// The answer that serves image bytes.
    pub fn image(kind: &str, origin: OriginStatus, bytes: Vec<u8>) -> (response: Response)
        ensures
            response@ == image_answer(kind@, origin, bytes@),
    {
        Response {
            status: 200,
            content_type: Some(String::from_str(kind)),
            origin: Some(origin),
            body: Body::Image(bytes),
        }
    }
}

/// The answer to a health request without the secret.
pub open spec fn unauthorized_answer() -> ResponseModel {
    error_answer(401, "Not authorized"@)
}

/// Applies the shared secret to a health request: it may proceed exactly
/// when the `Authorization` header is accepted by [`is_authorized`].
pub fn authorize_health(header: Option<&str>, secret: &str) -> (allowed: Result<(), Response>)
    ensures
        match allowed {
            Ok(_) => authorized(
                match header {
                    Some(value) => Some(value@),
                    None => None,
                },
                secret@,
            ),
            Err(response) => response@ == unauthorized_answer() && !authorized(
                match header {
                    Some(value) => Some(value@),
                    None => None,
                },
                secret@,
            ),
        },
{
    if is_authorized(header, secret) {
        Ok(())
    } else {
        Err(Response::error(401, "Not authorized"))
    }
}

/// The answer to a health request: the report, or the failure of the
/// key-value store.
pub open spec fn health_answer(report: Result<Health, CacheError>) -> ResponseModel {
    match report {
        Ok(health) => plain(200, BodyModel::Health(health@)),
        Err(error) => error_answer(500, error.message@),
    }
}

/// Answers a health request from the outcome of the health check.
pub fn get_health(report: Result<Health, CacheError>) -> (response: Response)
    ensures
        response@ == health_answer(report),
{
    match report {
        Ok(health) => Response {
            status: 200,
            content_type: None,
            origin: None,
            body: Body::Health(health),
        },
        Err(error) => Response::error(500, error.message.as_str()),
    }
}

/// Whether a character is a hexadecimal digit of either case.
pub open spec fn is_hex_char(c: char) -> bool {
    ('0' <= c && c <= '9') || ('a' <= c && c <= 'f') || ('A' <= c && c <= 'F')
}

/// The hexadecimal part of an image hash: the text without the animated
/// marker `a_` in front, if it carries one.
pub open spec fn hash_digits(text: Seq<char>) -> Seq<char> {
    if "a_"@.is_prefix_of(text) {
        text.skip(2)
    } else {
        text
    }
}

/// The grammar of the image hash of a read route: an optional animated
/// marker `a_`, then exactly forty hexadecimal digits.
pub open spec fn is_image_hash(text: Seq<char>) -> bool {
    hash_digits(text).len() == 40 && forall|i: int|
        0 <= i < 40 ==> is_hex_char(#[trigger] hash_digits(text)[i])
}

/// The route pattern of a read, below a class: identifier, image hash and
/// extension.
pub fn read_route() -> (pattern: &'static str)
    ensures
        pattern@ == "{id}/{image_hash:(a_)?[0-9a-fA-F]{40}}.{ext:(png|gif)}"@,
{
    "{id}/{image_hash:(a_)?[0-9a-fA-F]{40}}.{ext:(png|gif)}"
}

/// The route pattern of a write, below a class: the identifier.
pub fn write_route() -> (pattern: &'static str)
    ensures
        pattern@ == "{id}"@,
{
    "{id}"
}

/// The route of the health endpoint.
pub fn health_route() -> (pattern: &'static str)
    ensures
        pattern@ == "health"@,
{
    "health"
}

/// Tests a path segment against the grammar of the image hash.
pub fn image_hash_matches(text: &str) -> (matches: bool)
    ensures
        matches == is_image_hash(text@),
{
    let chars = chars_of(text);
    let n = chars.len();
    proof {
        reveal_strlit("a_");
    }
    let marked = n >= 2 && chars[0] == 'a' && chars[1] == '_';
    assert(marked == "a_"@.is_prefix_of(text@)) by {
        if marked {
            assert(text@.subrange(0, 2) =~= "a_"@);
        } else if "a_"@.is_prefix_of(text@) {
            assert(text@.subrange(0, 2)[0] == 'a');
            assert(text@.subrange(0, 2)[1] == '_');
        }
    }
    let first: usize = if marked {
        2
    } else {
        0
    };
    let ghost digits = hash_digits(text@);
    assert(digits =~= chars@.subrange(first as int, n as int));
    if n - first != 40 {
        return false;
    }
    let mut i: usize = first;
    while i < n
        invariant
            chars@ == text@,
            n == chars.len(),
            first <= i <= n,
            n - first == 40,
            digits == chars@.subrange(first as int, n as int),
            digits == hash_digits(text@),
            forall|k: int| 0 <= k < i - first ==> is_hex_char(#[trigger] digits[k]),
        decreases n - i,
    {
        let c = chars[i];
        let hex = (c >= '0' && c <= '9') || (c >= 'a' && c <= 'f') || (c >= 'A' && c <= 'F');
        if !hex {
            assert(!is_hex_char(digits[i - first]));
            return false;
        }
        i = i + 1;
    }
    true
}

/// The names that the store gives to an upload are served by the read
/// route: a content hash, with or without the animated marker, is an image
/// hash of the grammar.
pub proof fn lemma_stored_names_are_routable(hash: Seq<char>)
    requires
        is_hex_text(hash),
        hash.len() == 40,
    ensures
        is_image_hash(hash),
        is_image_hash("a_"@ + hash),
{
    reveal_strlit("a_");
    assert(!"a_"@.is_prefix_of(hash)) by {
        assert(crate::digest::is_lower_hex(hash[1]));
        if "a_"@.is_prefix_of(hash) {
            assert(hash.subrange(0, 2)[1] == '_');
        }
    }
    assert forall|i: int| 0 <= i < 40 implies is_hex_char(#[trigger] hash_digits(hash)[i]) by {
        assert(crate::digest::is_lower_hex(hash[i]));
    }
    let marked = "a_"@ + hash;
    assert("a_"@.is_prefix_of(marked)) by {
        assert(marked.subrange(0, 2) =~= "a_"@);
    }
    assert(marked.skip(2) =~= hash);
    assert forall|i: int| 0 <= i < 40 implies is_hex_char(#[trigger] hash_digits(marked)[i]) by {
        assert(crate::digest::is_lower_hex(hash[i]));
    }
}

} // verus!

//! The ingest pipeline: from the fields of a multipart upload to the files
//! that the store is to hold.
//!
//! The surrounding program reads the multipart stream and the public key and
//! writes the files. The decisions are made here, in this order: the write
//! firewall ([`crate::auth::screen`]), the fields ([`UploadForm`]), the size
//! cap ([`Upload::new`]), the content hash and the signature's transport
//! encoding ([`prepare`]), then the signature and the store
//! ([`push_resource`], which is [`conclude`] applied to the verifier's
//! report).

use crate::auth::Admission;
use crate::digest::content_hash;
use crate::digest::content_hash_of;
use crate::resource::Resource;
use crate::rest::error_answer;
use crate::rest::plain;
use crate::rest::text_answer;
use crate::rest::Body;
use crate::rest::BodyModel;
use crate::rest::Response;
use crate::rest::ResponseModel;
use crate::signature::base64_decode;
use crate::signature::base64_decoded;
use crate::signature::openssl_verify;
use crate::storage::is_hex_text;
use crate::storage::lemma_plan_shape;
use crate::storage::lemma_stem_is_hash;
use crate::storage::stem;
use crate::storage::storage_dir;
use crate::imaging::guessed_format;
use crate::imaging::Sniffed;
use crate::storage::outcome_of;
use crate::storage::stores;
use crate::storage::FailureKind;
use crate::storage::PlanModel;
use crate::storage::Storage;
use crate::storage::StorageError;
use crate::storage::StorePlan;
use crate::text::decimal;
use crate::text::decimal_string;
use crate::text::same_text;
use vstd::prelude::*;
use vstd::string::*;
use vstd::utf8::decode_utf8;
use vstd::utf8::encode_utf8_decode_utf8;
use vstd::utf8::valid_utf8;

verus! {

/// Bytes in a mebibyte.
pub const ONE_MB: usize = 1024 * 1024;

/// The largest image payload that is accepted, in bytes.
pub const FILE_SIZE_LIMIT: usize = ONE_MB * 20;

/// The JSON object `{"filename": ...}` of a successful upload.
#[derive(Debug, PartialEq, Eq)]
pub struct UploadResponse {
    pub filename: String,
}

impl View for UploadResponse {
    type V = Seq<char>;

    open spec fn view(&self) -> Seq<char> {
        self.filename@
    }
}

/// Why an upload was refused.
#[derive(Debug, PartialEq, Eq)]
pub enum UploadError {
    /// The public key could not be read or used.
    InvalidPubKey,
    /// The multipart body is malformed; the framework's message.
    MultipartError(String),
    /// A chunk of the signature field is not UTF-8.
    Utf8Error,
    /// The signature could not be parsed.
    SerdeError,
    /// A field of the body is missing; its name.
    MissingField(&'static str),
    /// The signature is not base64.
    Base64Error,
    /// The request could not be examined.
    InternalError,
    /// The request is not authorized; the reason.
    Unauthorized(&'static str),
}

impl UploadError {
    /// The text of the refusal.
    pub open spec fn text(self) -> Seq<char> {
        match self {
            UploadError::InvalidPubKey => "Invalid public key"@,
            UploadError::MultipartError(detail) => "Multipart error, "@ + detail@,
            UploadError::Utf8Error => "Could not decode utf8 data"@,
            UploadError::SerdeError => "Signature could not be parsed"@,
            UploadError::MissingField(field) => "Missing "@ + field@ + " field in body"@,
            UploadError::Base64Error => "Base64 could not be decoded"@,
            UploadError::InternalError => "Internal server error"@,
            UploadError::Unauthorized(reason) => "Unauthorized. "@ + reason@,
        }
    }

    /// The answer that carries the refusal to the client.
    pub open spec fn answer(self) -> ResponseModel {
        match self {
            UploadError::SerdeError => error_answer(400, self.text()),
            UploadError::MissingField(_) => error_answer(400, self.text()),
            UploadError::InvalidPubKey => text_answer(500, self.text()),
            UploadError::MultipartError(_) => error_answer(400, self.text()),
            UploadError::Base64Error => error_answer(400, self.text()),
            UploadError::Unauthorized(_) => error_answer(401, self.text()),
            UploadError::Utf8Error => plain(500, BodyModel::Empty),
            UploadError::InternalError => plain(500, BodyModel::Empty),
        }
    }

    /// The text of the refusal.
    pub fn to_string(&self) -> (message: String)
        ensures
            message@ == self.text(),
    {
        match self {
            UploadError::InvalidPubKey => String::from_str("Invalid public key"),
            UploadError::MultipartError(detail) => {
                let mut message = String::from_str("Multipart error, ");
                message.append(detail.as_str());
                message
            },
            UploadError::Utf8Error => String::from_str("Could not decode utf8 data"),
            UploadError::SerdeError => String::from_str("Signature could not be parsed"),
            UploadError::MissingField(field) => {
                let mut message = String::from_str("Missing ");
                message.append(field);
                message.append(" field in body");
                message
            },
            UploadError::Base64Error => String::from_str("Base64 could not be decoded"),
            UploadError::InternalError => String::from_str("Internal server error"),
            UploadError::Unauthorized(reason) => {
                let mut message = String::from_str("Unauthorized. ");
                message.append(reason);
                message
            },
        }
    }

    /// The answer that carries the refusal to the client.
    pub fn error_response(&self) -> (response: Response)
        ensures
            response@ == self.answer(),
    {
        let message = self.to_string();
        match self {
            UploadError::SerdeError => Response::error(400, message.as_str()),
            UploadError::MissingField(_) => Response::error(400, message.as_str()),
            UploadError::InvalidPubKey => Response::text(500, message.as_str()),
            UploadError::MultipartError(_) => Response::error(400, message.as_str()),
            UploadError::Base64Error => Response::error(400, message.as_str()),
            UploadError::Unauthorized(_) => Response::error(401, message.as_str()),
            _ => Response::empty(500),
        }
    }
}

/// The refusal that follows a verdict of the write firewall, if any.
pub open spec fn firewall_refusal(verdict: Admission) -> Option<UploadError> {
    match verdict {
        Admission::Admitted => None,
        Admission::Unresolved => Some(UploadError::InternalError),
        Admission::Unknown(_) => Some(UploadError::Unauthorized("Unknown remote address")),
    }
}

/// Turns a verdict of the write firewall into the refusal it calls for.
pub fn firewall_outcome(verdict: Admission) -> (outcome: Result<(), UploadError>)
    ensures
        match outcome {
            Ok(_) => firewall_refusal(verdict) is None,
            Err(error) => firewall_refusal(verdict) == Some(error),
        },
{
    match verdict {
        Admission::Admitted => Ok(()),
        Admission::Unresolved => Err(UploadError::InternalError),
        Admission::Unknown(_) => Err(UploadError::Unauthorized("Unknown remote address")),
    }
}

/// The fields of the upload body.
#[derive(Debug, Clone, Copy, PartialEq, Eq, Structural)]
pub enum FieldKind {
    /// The field `image`, a file part.
    Image,
    /// The field `signature`, a text part.
    Signature,
}

/// What the head of a field calls for: the field is read, or the request is
/// answered at once.
pub open spec fn field_opening(name: Seq<char>, has_filename: bool) -> Result<FieldKind, ResponseModel> {
    if name == "image"@ {
        if has_filename {
            Ok(FieldKind::Image)
        } else {
            Err(error_answer(400, "Image is not a file"@))
        }
    } else if name == "signature"@ {
        Ok(FieldKind::Signature)
    } else {
        Err(error_answer(400, "Invalid payload field \""@ + name + "\""@))
    }
}

/// Calls `std::str::from_utf8`. The contract says that a text is returned
/// exactly for valid UTF-8, and that it holds the same bytes.
#[verifier::external_body]
fn utf8_text(bytes: &[u8]) -> (text: Option<&str>)
    ensures
        match text {
            Some(decoded) => valid_utf8(bytes@) && decoded.spec_bytes() == bytes@,
            None => !valid_utf8(bytes@),
        },
{
    std::str::from_utf8(bytes).ok()
}

/// The parts of an upload body, gathered field by field.
#[derive(Debug, PartialEq, Eq)]
pub struct UploadForm {
    image: Vec<u8>,
    signature: String,
}

impl UploadForm {
    /// The image bytes gathered so far.
    pub closed spec fn image(&self) -> Seq<u8> {
        self.image@
    }

    /// The signature text gathered so far.
    pub closed spec fn signature(&self) -> Seq<char> {
        self.signature@
    }

    /// A form with nothing gathered.
    pub fn new() -> (form: Self)
        ensures
            form.image() == Seq::<u8>::empty(),
            form.signature() == Seq::<char>::empty(),
    {
        UploadForm { image: Vec::new(), signature: String::new() }
    }

    /// Examines the head of a field: its name, and whether its content
    /// disposition names a file.
    pub fn open_field(name: &str, has_filename: bool) -> (opened: Result<FieldKind, Response>)
        ensures
            match opened {
                Ok(kind) => field_opening(name@, has_filename) == Ok::<FieldKind, ResponseModel>(kind),
                Err(response) => field_opening(name@, has_filename) == Err::<
                    FieldKind,
                    ResponseModel,
                >(response@),
            },
    {
        if same_text(name, "image") {
            if has_filename {
                Ok(FieldKind::Image)
            } else {
                Err(Response::error(400, "Image is not a file"))
            }
        } else if same_text(name, "signature") {
            Ok(FieldKind::Signature)
        } else {
            let mut message = String::from_str("Invalid payload field \"");
            message.append(name);
            message.append("\"");
            Err(Response::error(400, message.as_str()))
        }
    }

    /// Adds a chunk of a field. Image chunks are appended as they are; a
    /// signature chunk must be UTF-8 by itself, and its text is appended.
    pub fn push_chunk(&mut self, kind: FieldKind, chunk: &[u8]) -> (pushed: Result<(), UploadError>)
        ensures
            match kind {
                FieldKind::Image => {
                    &&& pushed is Ok
                    &&& final(self).image() == old(self).image() + chunk@
                    &&& final(self).signature() == old(self).signature()
                },
                FieldKind::Signature => {
                    &&& final(self).image() == old(self).image()
                    &&& valid_utf8(chunk@) ==> pushed is Ok
                    &&& valid_utf8(chunk@) ==> final(self).signature() == old(self).signature()
                        + decode_utf8(chunk@)
                    &&& !valid_utf8(chunk@) ==> pushed == Err::<(), UploadError>(UploadError::Utf8Error)
                    &&& !valid_utf8(chunk@) ==> final(self).signature() == old(self).signature()
                },
            },
    {
        match kind {
            FieldKind::Image => {
                self.image.extend_from_slice(chunk);
                assert(self.image@ =~= old(self).image@ + chunk@);
                Ok(())
            },
            FieldKind::Signature => match utf8_text(chunk) {
                Some(text) => {
                    proof {
                        encode_utf8_decode_utf8(text@);
                    }
                    self.signature.append(text);
                    Ok(())
                },
                None => Err(UploadError::Utf8Error),
            },
        }
    }

    /// Closes the form and applies the conditions of [`Upload::new`].
    pub fn finish(self) -> (upload: Result<Upload, Response>)
        ensures
            match upload {
                Ok(upload) => body_refusal(self.image(), self.signature()) is None && upload.image()
                    == self.image() && upload.signature() == self.signature(),
                Err(response) => body_refusal(self.image(), self.signature()) == Some(response@),
            },
    {
        Upload::new(self.image, self.signature)
    }
}

/// The answer to a body that is too large.
pub open spec fn too_large_answer() -> ResponseModel {
    error_answer(
        400,
        "Image file size exceeds the limit of "@ + decimal((FILE_SIZE_LIMIT / ONE_MB) as nat) + "MB"@,
    )
}

/// The answer that refuses a gathered body, if any: the image must not be
/// empty, the signature must not be empty, and the image must not exceed the
/// size limit; the first failure decides.
pub open spec fn body_refusal(image: Seq<u8>, signature: Seq<char>) -> Option<ResponseModel> {
    if image.len() == 0 {
        Some(UploadError::MissingField("image").answer())
    } else if signature.len() == 0 {
        Some(UploadError::MissingField("signature").answer())
    } else if image.len() > FILE_SIZE_LIMIT {
        Some(too_large_answer())
    } else {
        None
    }
}

/// An accepted upload body: both fields are there and the
/// image is within the size limit.
#[derive(Debug, PartialEq, Eq)]
pub struct Upload {
    image: Vec<u8>,
    signature: String,
}

impl Upload {
    /// The image bytes.
    pub closed spec fn image(&self) -> Seq<u8> {
        self.image@
    }

    /// The signature, as sent.
    pub closed spec fn signature(&self) -> Seq<char> {
        self.signature@
    }

    /// Accepts or refuses a gathered body.
    pub fn new(image: Vec<u8>, signature: String) -> (upload: Result<Upload, Response>)
        ensures
            match upload {
                Ok(upload) => body_refusal(image@, signature@) is None && upload.image() == image@
                    && upload.signature() == signature@,
                Err(response) => body_refusal(image@, signature@) == Some(response@),
            },
    {
        if image.len() == 0 {
            return Err(UploadError::MissingField("image").error_response());
        }
        if signature.as_str().unicode_len() == 0 {
            return Err(UploadError::MissingField("signature").error_response());
        }
        if image.len() > FILE_SIZE_LIMIT {
            let limit_mb = FILE_SIZE_LIMIT / ONE_MB;
            let mut message = String::from_str("Image file size exceeds the limit of ");
            let digits = decimal_string(limit_mb as u32);
            message.append(digits.as_str());
            message.append("MB");
            return Err(Response::error(400, message.as_str()));
        }
        Ok(Upload { image, signature })
    }

    /// The image bytes.
    pub fn image_bytes(&self) -> (bytes: &Vec<u8>)
        ensures
            bytes@ == self.image(),
    {
        &self.image
    }
}

/// An upload whose content hash is computed and whose signature is decoded
/// from base64. The signature is not verified yet.
#[derive(Debug, PartialEq, Eq)]
pub struct SignedUpload {
    image: Vec<u8>,
    hash: String,
    signature: Vec<u8>,
}

impl SignedUpload {
    #[verifier::type_invariant]
    spec fn inv(self) -> bool {
        &&& self.hash@ == content_hash_of(self.image@)
        &&& self.hash@.len() == 40
        &&& is_hex_text(self.hash@)
    }

    /// The image bytes.
    pub closed spec fn image(&self) -> Seq<u8> {
        self.image@
    }

    /// The signature bytes.
    pub closed spec fn signature(&self) -> Seq<u8> {
        self.signature@
    }

    /// The content hash of the image.
    pub fn hash(&self) -> (hash: &String)
        ensures
            hash@ == content_hash_of(self.image()),
    {
        proof {
            use_type_invariant(self);
        }
        &self.hash
    }
}

/// An upload whose signature was found valid under the public key.
#[derive(Debug, PartialEq, Eq)]
pub struct VerifiedUpload {
    image: Vec<u8>,
    hash: String,
}

impl VerifiedUpload {
    #[verifier::type_invariant]
    spec fn inv(self) -> bool {
        &&& self.hash@ == content_hash_of(self.image@)
        &&& self.hash@.len() == 40
        &&& is_hex_text(self.hash@)
    }

    /// The image bytes.
    pub closed spec fn image(&self) -> Seq<u8> {
        self.image@
    }

    /// The content hash of the image.
    pub fn hash(&self) -> (hash: &String)
        ensures
            hash@ == content_hash_of(self.image()),
    {
        proof {
            use_type_invariant(self);
        }
        &self.hash
    }
}

/// Computes the content hash of an upload and decodes its signature from
/// base64. A signature that is not base64 is refused.
pub fn prepare(upload: Upload) -> (prepared: Result<SignedUpload, UploadError>)
    ensures
        match prepared {
            Ok(signed) => signed.image() == upload.image() && base64_decoded(upload.signature())
                == Some(signed.signature()),
            Err(error) => base64_decoded(upload.signature()) is None && error
                == UploadError::Base64Error,
        },
{
    let hash = content_hash(upload.image.as_slice());
    match base64_decode(upload.signature.as_str()) {
        Some(signature) => Ok(SignedUpload { image: upload.image, hash, signature }),
        None => Err(UploadError::Base64Error),
    }
}

/// The refusal that follows the verifier's report, if any: a signature
/// found invalid is not authorized, and a report that is an error means
/// that the public key could not be read or used.
pub open spec fn signature_refusal(report: Result<bool, openssl::error::ErrorStack>) -> Option<
    UploadError,
> {
    match report {
        Ok(true) => None,
        Ok(false) => Some(UploadError::Unauthorized("Invalid signature")),
        Err(_) => Some(UploadError::InvalidPubKey),
    }
}

/// Turns the verifier's report into the refusal it calls for.
pub fn signature_outcome(report: Result<bool, openssl::error::ErrorStack>) -> (outcome: Result<
    (),
    UploadError,
>)
    ensures
        match outcome {
            Ok(_) => signature_refusal(report) is None,
            Err(error) => signature_refusal(report) == Some(error),
        },
{
    match report {
        Ok(true) => Ok(()),
        Ok(false) => Err(UploadError::Unauthorized("Invalid signature")),
        Err(_) => Err(UploadError::InvalidPubKey),
    }
}

/// The verdict that a report of the signature check holds: an error means
/// that the public key could not be read or used.
pub fn signature_verdict(report: Result<bool, openssl::error::ErrorStack>) -> (verdict: Result<
    bool,
    UploadError,
>)
    ensures
        match report {
            Ok(valid) => verdict == Ok::<bool, UploadError>(valid),
            Err(_) => verdict == Err::<bool, UploadError>(UploadError::InvalidPubKey),
        },
{
    match report {
        Ok(valid) => Ok(valid),
        Err(_) => Err(UploadError::InvalidPubKey),
    }
}

/// Checks a signature over `data` under the public key of a PEM block, with
/// SHA-1 as the digest. The verdict is that of the linked OpenSSL library;
/// whatever it reports, the only failure is an invalid public key.
pub fn verify_signature(public_key_pem: &[u8], data: &[u8], signature: &[u8]) -> (verdict: Result<
    bool,
    UploadError,
>)
    ensures
        verdict matches Err(error) ==> error == UploadError::InvalidPubKey,
{
    signature_verdict(openssl_verify(public_key_pem, data, signature))
}

/// Takes the verifier's report on the signature of an upload: the upload is
/// accepted exactly when the report is that the signature is valid.
pub fn accept(signed: SignedUpload, report: Result<bool, openssl::error::ErrorStack>) -> (accepted:
    Result<VerifiedUpload, UploadError>)
    ensures
        match accepted {
            Ok(upload) => signature_refusal(report) is None && upload.image() == signed.image(),
            Err(error) => signature_refusal(report) == Some(error),
        },
{
    proof {
        use_type_invariant(&signed);
    }
    match signature_outcome(report) {
        Ok(_) => Ok(VerifiedUpload { image: signed.image, hash: signed.hash }),
        Err(error) => Err(error),
    }
}

/// Verifies the signature of an upload over its image bytes. Whatever the
/// verifier reports, an accepted upload holds the same image, and a refusal
/// is an invalid signature or an invalid public key.
pub fn verify(signed: SignedUpload, public_key_pem: &[u8]) -> (verified: Result<
    VerifiedUpload,
    UploadError,
>)
    ensures
        match verified {
            Ok(upload) => upload.image() == signed.image(),
            Err(error) => error == UploadError::Unauthorized("Invalid signature") || error
                == UploadError::InvalidPubKey,
        },
{
    let report = openssl_verify(
        public_key_pem,
        signed.image.as_slice(),
        signed.signature.as_slice(),
    );
    accept(signed, report)
}

/// The answer to an upload that the store refused: 500, with the text of
/// the failure as a JSON string.
pub open spec fn store_refusal(error: StorageError) -> ResponseModel {
    plain(500, BodyModel::Message(error.text()))
}

/// The answer to an upload that was stored: 201, with the name it is known
/// by.
pub open spec fn stored_answer(filename: Seq<char>) -> ResponseModel {
    plain(201, BodyModel::Upload(filename))
}

/// Answers an upload that the store refused.
pub fn store_failure(error: &StorageError) -> (response: Response)
    ensures
        response@ == store_refusal(*error),
{
    Response { status: 500, content_type: None, origin: None, body: Body::Message(error.to_string()) }
}

/// Answers an upload that was stored.
pub fn stored(filename: String) -> (response: Response)
    ensures
        response@ == stored_answer(filename@),
{
    Response {
        status: 201,
        content_type: None,
        origin: None,
        body: Body::Upload(UploadResponse { filename }),
    }
}

/// Answers the outcome of storing an upload.
pub fn upload_response(outcome: Result<String, StorageError>) -> (response: Response)
    ensures
        response@ == match outcome {
            Ok(filename) => stored_answer(filename@),
            Err(error) => store_refusal(error),
        },
{
    match outcome {
        Ok(filename) => stored(filename),
        Err(error) => store_failure(&error),
    }
}

/// The class under which every upload is stored, whatever class the route
/// names.
pub open spec fn upload_class() -> Resource {
    Resource::Avatars
}

/// Whether `outcome` is a way in which a verified upload may be stored:
/// under the upload class, in the directory of the identifier, by its
/// content hash.
pub open spec fn upload_stores(
    root: Seq<char>,
    id: Seq<char>,
    image: Seq<u8>,
    outcome: Result<PlanModel, FailureKind>,
) -> bool {
    stores(storage_dir(root, upload_class(), id), true, image, content_hash_of(image), outcome)
}

/// Plans the storing of a verified upload under its content hash.
pub fn store(storage: &Storage, id: &str, upload: VerifiedUpload) -> (planned: Result<
    StorePlan,
    StorageError,
>)
    ensures
        upload_stores(storage.root(), id@, upload.image(), outcome_of(planned)),
        planned matches Ok(plan) ==> stem(plan.filename@) == content_hash_of(upload.image())
            && stem(plan.filename@).len() == 40 && is_hex_text(stem(plan.filename@)),
{
    proof {
        use_type_invariant(&upload);
        lemma_stem_is_hash(upload.hash@);
    }
    let ghost directory = storage_dir(storage.root(), upload_class(), id@);
    let ghost image = upload.image@;
    let ghost hash = upload.hash@;
    let planned = storage.put(Resource::Avatars, id, upload.image, upload.hash.as_str());
    proof {
        if let Ok(plan) = outcome_of(planned) {
            lemma_plan_shape(directory, true, image, hash, plan);
        }
    }
    planned
}

/// The outcome of an ingest as a mathematical value: the plan, or the
/// answer that refuses the upload.
pub open spec fn answer_of(planned: Result<StorePlan, Response>) -> Result<PlanModel, ResponseModel> {
    match planned {
        Ok(plan) => Ok(plan@),
        Err(response) => Err(response@),
    }
}

/// Whether `outcome` is what an upload comes to after the verifier's
/// report. A report that calls for a refusal is answered with it. After a
/// valid signature the image goes to the store: the outcome is a plan by
/// which the image may be stored, or the answer to a failure of a kind with
/// which the store may refuse it.
pub open spec fn concludes(
    root: Seq<char>,
    id: Seq<char>,
    image: Seq<u8>,
    report: Result<bool, openssl::error::ErrorStack>,
    outcome: Result<PlanModel, ResponseModel>,
) -> bool {
    match signature_refusal(report) {
        Some(error) => outcome == Err::<PlanModel, ResponseModel>(error.answer()),
        None => match outcome {
            Ok(plan) => upload_stores(root, id, image, Ok(plan)),
            Err(response) => exists|error: StorageError|
                upload_stores(root, id, image, Err(error.kind_of())) && response
                    == #[trigger] store_refusal(error),
        },
    }
}

/// Takes an upload and the verifier's report on its signature to the end:
/// the refusal that the report calls for, or the plan of the store, or the
/// answer to the store's refusal.
pub fn conclude(
    storage: &Storage,
    id: &str,
    signed: SignedUpload,
    report: Result<bool, openssl::error::ErrorStack>,
) -> (planned: Result<StorePlan, Response>)
    ensures
        concludes(storage.root(), id@, signed.image(), report, answer_of(planned)),
        planned matches Ok(plan) ==> stem(plan.filename@) == content_hash_of(signed.image())
            && stem(plan.filename@).len() == 40 && is_hex_text(stem(plan.filename@)),
{
    let verified = match accept(signed, report) {
        Ok(verified) => verified,
        Err(error) => {
            return Err(error.error_response());
        },
    };
    match store(storage, id, verified) {
        Ok(plan) => Ok(plan),
        Err(error) => {
            let response = store_failure(&error);
            assert(upload_stores(storage.root(), id@, signed.image(), Err(error.kind_of()))
                && response@ == store_refusal(error));
            Err(response)
        },
    }
}

/// Takes an upload whose hash is computed and whose signature is decoded
/// through the signature check and the planning. The outcome is what
/// [`conclude`] gives for the report of the verifier, whatever that report
/// is.
pub fn push_resource(storage: &Storage, id: &str, signed: SignedUpload, public_key_pem: &[u8]) -> (planned:
    Result<StorePlan, Response>)
    ensures
        exists|report: Result<bool, openssl::error::ErrorStack>| #[trigger]
            concludes(storage.root(), id@, signed.image(), report, answer_of(planned)),
        planned matches Ok(plan) ==> stem(plan.filename@) == content_hash_of(signed.image())
            && stem(plan.filename@).len() == 40 && is_hex_text(stem(plan.filename@)),
{
    let report = openssl_verify(
        public_key_pem,
        signed.image.as_slice(),
        signed.signature.as_slice(),
    );
    let ghost seen = report;
    let planned = conclude(storage, id, signed, report);
    assert(concludes(storage.root(), id@, signed.image(), seen, answer_of(planned)));
    planned
}

/// Two uploads of the same bytes under the same identifier are known by the
/// same name and write files of the same names into the same directory,
/// whatever their signatures. But for a JPEG, whose decoded samples may
/// differ between machines, they come to the same plan, bytes and all.
pub proof fn lemma_same_bytes_same_name(
    root: Seq<char>,
    id: Seq<char>,
    image: Seq<u8>,
    first: PlanModel,
    second: PlanModel,
)
    requires
        upload_stores(root, id, image, Ok(first)),
        upload_stores(root, id, image, Ok(second)),
    ensures
        first.filename == second.filename,
        first.directory == second.directory,
        first.purge == second.purge,
        first.files.len() == second.files.len(),
        forall|i: int| 0 <= i < first.files.len() ==> first.files[i].name == second.files[i].name,
        guessed_format(image) != Sniffed::Jpeg ==> first == second,
{
    let directory = storage_dir(root, upload_class(), id);
    let hash = content_hash_of(image);
    lemma_plan_shape(directory, true, image, hash, first);
    lemma_plan_shape(directory, true, image, hash, second);
}

} // verus!

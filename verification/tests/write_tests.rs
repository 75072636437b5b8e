use base64::Engine;
use rs_cdn::digest::content_hash;
use rs_cdn::rest::write::accept;
use rs_cdn::rest::write::conclude;
use rs_cdn::rest::write::prepare;
use rs_cdn::rest::write::push_resource;
use rs_cdn::rest::write::store;
use rs_cdn::rest::write::upload_response;
use rs_cdn::rest::write::verify;
use rs_cdn::rest::write::signature_outcome;
use rs_cdn::rest::write::signature_verdict;
use rs_cdn::rest::write::verify_signature;
use rs_cdn::rest::write::FieldKind;
use rs_cdn::rest::write::Upload;
use rs_cdn::rest::write::UploadError;
use rs_cdn::rest::write::UploadForm;
use rs_cdn::rest::write::UploadResponse;
use rs_cdn::rest::write::FILE_SIZE_LIMIT;
use rs_cdn::rest::Body;
use rs_cdn::rest::GenericError;
use rs_cdn::rest::Response;
use rs_cdn::storage::Storage;
use rs_cdn::storage::StorageError;
use rs_cdn::storage::StorePlan;

struct Keys {
    private: openssl::pkey::PKey<openssl::pkey::Private>,
    public_pem: Vec<u8>,
}

fn new_keys() -> Keys {
    let rsa = openssl::rsa::Rsa::generate(2048).unwrap();
    let private = openssl::pkey::PKey::from_rsa(rsa).unwrap();
    let public_pem = private.public_key_to_pem().unwrap();
    Keys { private, public_pem }
}

fn sign(keys: &Keys, data: &[u8]) -> String {
    let mut signer =
        openssl::sign::Signer::new(openssl::hash::MessageDigest::sha1(), &keys.private).unwrap();
    signer.update(data).unwrap();
    base64::engine::general_purpose::STANDARD.encode(signer.sign_to_vec().unwrap())
}

fn upload_png(width: u32, height: u32) -> Vec<u8> {
    let buffer = image::RgbaImage::from_pixel(width, height, image::Rgba([1, 2, 3, 255]));
    let mut out = Vec::new();
    image::DynamicImage::ImageRgba8(buffer)
        .write_to(&mut std::io::Cursor::new(&mut out), image::ImageOutputFormat::Png)
        .unwrap();
    out
}

fn upload_gif(frames: u32) -> Vec<u8> {
    let mut out = Vec::new();
    {
        let mut encoder = image::codecs::gif::GifEncoder::new(&mut out);
        for i in 0..frames {
            let buffer = image::RgbaImage::from_pixel(24, 16, image::Rgba([(i * 80) as u8, 5, 5, 255]));
            let delay = image::Delay::from_numer_denom_ms(40, 1);
            encoder.encode_frame(image::Frame::from_parts(buffer, 0, 0, delay)).unwrap();
        }
    }
    out
}

fn ingest(storage: &Storage, id: &str, upload: Upload, public_key_pem: &[u8]) -> Result<StorePlan, Response> {
    match prepare(upload) {
        Ok(signed) => push_resource(storage, id, signed, public_key_pem),
        Err(error) => Err(error.error_response()),
    }
}

fn json_error(status: u16, message: &str) -> Response {
    Response {
        status,
        content_type: None,
        origin: None,
        body: Body::Error(GenericError { error: message.to_string() }),
    }
}

#[test]
fn missing_signature_yields_400() {
    let mut form = UploadForm::new();
    assert_eq!(UploadForm::open_field("image", true), Ok(FieldKind::Image));
    form.push_chunk(FieldKind::Image, &[1, 2, 3]).unwrap();
    let refused = form.finish().unwrap_err();
    assert_eq!(refused, json_error(400, "Missing signature field in body"));
}

#[test]
fn missing_image_yields_400() {
    let mut form = UploadForm::new();
    form.push_chunk(FieldKind::Signature, b"c2ln").unwrap();
    let refused = form.finish().unwrap_err();
    assert_eq!(refused, json_error(400, "Missing image field in body"));
    let refused = UploadForm::new().finish().unwrap_err();
    assert_eq!(refused, json_error(400, "Missing image field in body"));
}

#[test]
fn fields_are_image_and_signature_only() {
    assert_eq!(UploadForm::open_field("signature", false), Ok(FieldKind::Signature));
    assert_eq!(UploadForm::open_field("signature", true), Ok(FieldKind::Signature));
    assert_eq!(
        UploadForm::open_field("image", false),
        Err(json_error(400, "Image is not a file"))
    );
    assert_eq!(
        UploadForm::open_field("avatar", true),
        Err(json_error(400, "Invalid payload field \"avatar\""))
    );
    assert_eq!(
        UploadForm::open_field("Image", true),
        Err(json_error(400, "Invalid payload field \"Image\""))
    );
}

#[test]
fn chunks_are_gathered_in_order() {
    let mut form = UploadForm::new();
    form.push_chunk(FieldKind::Image, &[1, 2]).unwrap();
    form.push_chunk(FieldKind::Signature, b"YW").unwrap();
    form.push_chunk(FieldKind::Image, &[3]).unwrap();
    form.push_chunk(FieldKind::Signature, b"Jj").unwrap();
    let upload = form.finish().unwrap();
    assert_eq!(upload.image_bytes(), &vec![1, 2, 3]);
    let signed = prepare(upload).unwrap();
    assert_eq!(signed.hash(), &content_hash(&[1, 2, 3]));
}

#[test]
fn signature_chunk_must_be_utf8() {
    let mut form = UploadForm::new();
    assert_eq!(form.push_chunk(FieldKind::Signature, &[0xc3]), Err(UploadError::Utf8Error));
    assert_eq!(form.push_chunk(FieldKind::Signature, &[0xff, 0x41]), Err(UploadError::Utf8Error));
    assert_eq!(form.push_chunk(FieldKind::Signature, "é".as_bytes()), Ok(()));
}

#[test]
fn twenty_mebibytes_pass_and_one_more_byte_yields_400() {
    assert_eq!(FILE_SIZE_LIMIT, 20 * 1024 * 1024);
    let upload = Upload::new(vec![0u8; FILE_SIZE_LIMIT], "c2ln".to_string());
    assert!(upload.is_ok());
    let refused = Upload::new(vec![0u8; FILE_SIZE_LIMIT + 1], "c2ln".to_string()).unwrap_err();
    assert_eq!(refused, json_error(400, "Image file size exceeds the limit of 20MB"));
}

#[test]
fn signature_must_be_base64() {
    let upload = Upload::new(vec![1], "not base64!".to_string()).unwrap();
    assert_eq!(prepare(upload), Err(UploadError::Base64Error));
    let upload = Upload::new(vec![1], "not base64!".to_string()).unwrap();
    let refused = ingest(&Storage::new("/srv"), "u1", upload, b"").unwrap_err();
    assert_eq!(refused, json_error(400, "Base64 could not be decoded"));
}

#[test]
fn unreadable_key_yields_500() {
    let upload = Upload::new(vec![1], "c2ln".to_string()).unwrap();
    let refused = ingest(&Storage::new("/srv"), "u1", upload, b"no key here").unwrap_err();
    let expected = Response {
        status: 500,
        content_type: None,
        origin: None,
        body: Body::Text("Invalid public key".to_string()),
    };
    assert_eq!(refused, expected);
    assert_eq!(verify_signature(b"no key here", &[1], &[2]), Err(UploadError::InvalidPubKey));
}

#[test]
fn wrong_signature_yields_401() {
    let keys = new_keys();
    let image = upload_png(8, 8);
    let signature = sign(&keys, b"some other payload");
    let upload = Upload::new(image, signature).unwrap();
    let refused = ingest(&Storage::new("/srv"), "u1", upload, &keys.public_pem).unwrap_err();
    assert_eq!(refused, json_error(401, "Unauthorized. Invalid signature"));
}

#[test]
fn signature_of_another_key_yields_401() {
    let keys = new_keys();
    let other = new_keys();
    let image = upload_png(8, 8);
    let signature = sign(&other, &image);
    let upload = Upload::new(image.clone(), signature).unwrap();
    let signed = prepare(upload).unwrap();
    assert_eq!(
        verify(signed, &keys.public_pem).unwrap_err(),
        UploadError::Unauthorized("Invalid signature")
    );
    let raw = base64::engine::general_purpose::STANDARD.decode(sign(&keys, &image)).unwrap();
    assert_eq!(verify_signature(&keys.public_pem, &image, &raw), Ok(true));
    assert_eq!(verify_signature(&other.public_pem, &image, &raw), Ok(false));
}

#[test]
fn signed_png_upload_is_stored_under_its_hash() {
    let keys = new_keys();
    let image = upload_png(256, 256);
    let hash = content_hash(&image);
    let upload = Upload::new(image.clone(), sign(&keys, &image)).unwrap();
    let plan = ingest(&Storage::new("./uploads"), "u1", upload, &keys.public_pem).unwrap();
    assert_eq!(plan.directory, "./uploads/avatars/u1");
    assert!(plan.purge);
    assert_eq!(plan.filename, format!("{hash}.png"));
    assert_eq!(plan.files.len(), 1);
    assert_eq!(plan.files[0].name, plan.filename);
    let response = upload_response(Ok(plan.filename.clone()));
    let expected = Response {
        status: 201,
        content_type: None,
        origin: None,
        body: Body::Upload(UploadResponse { filename: format!("{hash}.png") }),
    };
    assert_eq!(response, expected);
}

#[test]
fn same_bytes_give_the_same_name() {
    let keys = new_keys();
    let image = upload_png(32, 48);
    let storage = Storage::new("./uploads");
    let first = ingest(
        &storage,
        "u7",
        Upload::new(image.clone(), sign(&keys, &image)).unwrap(),
        &keys.public_pem,
    )
    .unwrap();
    let second = ingest(
        &storage,
        "u7",
        Upload::new(image.clone(), sign(&keys, &image)).unwrap(),
        &keys.public_pem,
    )
    .unwrap();
    assert_eq!(first.filename, second.filename);
    assert_eq!(first, second);
    let stem = first.filename.strip_suffix(".png").unwrap();
    assert_eq!(stem.len(), 40);
    assert_eq!(stem, content_hash(&image));
    assert!(stem.chars().all(|c| c.is_ascii_digit() || ('a'..='f').contains(&c)));
}

#[test]
fn signed_gif_upload_is_stored_with_its_still() {
    let keys = new_keys();
    let image = upload_gif(2);
    let hash = content_hash(&image);
    let upload = Upload::new(image.clone(), sign(&keys, &image)).unwrap();
    let signed = prepare(upload).unwrap();
    let verified = verify(signed, &keys.public_pem).unwrap();
    let plan = store(&Storage::new("./uploads"), "u", verified).unwrap();
    assert_eq!(plan.filename, format!("a_{hash}.png"));
    let names: Vec<&str> = plan.files.iter().map(|file| file.name.as_str()).collect();
    assert_eq!(names, vec![format!("a_{hash}.png"), format!("a_{hash}.gif")]);
}

#[test]
fn signed_text_upload_is_refused_by_the_store() {
    let keys = new_keys();
    let text = vec![b'a'; 100];
    let upload = Upload::new(text.clone(), sign(&keys, &text)).unwrap();
    let refused = ingest(&Storage::new("./uploads"), "u", upload, &keys.public_pem).unwrap_err();
    let expected = Response {
        status: 500,
        content_type: None,
        origin: None,
        body: Body::Message("Invalid file format".to_string()),
    };
    assert_eq!(refused, expected);
    assert_eq!(upload_response(Err(StorageError::UnsupportedFormat)).status, 500);
    assert_eq!(
        upload_response(Err(StorageError::Io("disk full".to_string()))).body,
        Body::Message("disk full".to_string())
    );
}

#[test]
fn every_refusal_has_its_answer() {
    assert_eq!(
        UploadError::SerdeError.error_response(),
        json_error(400, "Signature could not be parsed")
    );
    assert_eq!(
        UploadError::MissingField("image").error_response(),
        json_error(400, "Missing image field in body")
    );
    assert_eq!(
        UploadError::MultipartError("boundary".to_string()).error_response(),
        json_error(400, "Multipart error, boundary")
    );
    assert_eq!(
        UploadError::Base64Error.error_response(),
        json_error(400, "Base64 could not be decoded")
    );
    assert_eq!(
        UploadError::Unauthorized("Invalid signature").error_response(),
        json_error(401, "Unauthorized. Invalid signature")
    );
    let empty = Response { status: 500, content_type: None, origin: None, body: Body::Empty };
    assert_eq!(UploadError::Utf8Error.error_response(), empty);
    assert_eq!(UploadError::InternalError.error_response(), empty);
    assert_eq!(UploadError::Utf8Error.to_string(), "Could not decode utf8 data");
    assert_eq!(UploadError::InternalError.to_string(), "Internal server error");
}

#[test]
fn the_report_decides_the_outcome() {
    let failure = Err(openssl::error::ErrorStack::get());
    assert_eq!(signature_outcome(Ok(true)), Ok(()));
    assert_eq!(signature_outcome(Ok(false)), Err(UploadError::Unauthorized("Invalid signature")));
    assert_eq!(signature_outcome(failure), Err(UploadError::InvalidPubKey));
    assert_eq!(signature_verdict(Ok(true)), Ok(true));
    assert_eq!(signature_verdict(Ok(false)), Ok(false));
    assert_eq!(
        signature_verdict(Err(openssl::error::ErrorStack::get())),
        Err(UploadError::InvalidPubKey)
    );
}

#[test]
fn an_upload_is_concluded_from_the_report() {
    let storage = Storage::new("./uploads");
    let image = upload_png(20, 10);
    let hash = content_hash(&image);
    let signed = prepare(Upload::new(image.clone(), "c2ln".to_string()).unwrap()).unwrap();
    let plan = conclude(&storage, "u1", signed, Ok(true)).unwrap();
    assert_eq!(plan.filename, format!("{hash}.png"));
    assert_eq!(plan.directory, "./uploads/avatars/u1");

    let signed = prepare(Upload::new(image.clone(), "c2ln".to_string()).unwrap()).unwrap();
    assert_eq!(
        conclude(&storage, "u1", signed, Ok(false)).unwrap_err(),
        json_error(401, "Unauthorized. Invalid signature")
    );

    let signed = prepare(Upload::new(image.clone(), "c2ln".to_string()).unwrap()).unwrap();
    let refused = conclude(&storage, "u1", signed, Err(openssl::error::ErrorStack::get())).unwrap_err();
    assert_eq!(refused.status, 500);
    assert_eq!(refused.body, Body::Text("Invalid public key".to_string()));

    let signed = prepare(Upload::new(vec![b'z'; 100], "c2ln".to_string()).unwrap()).unwrap();
    let refused = conclude(&storage, "u1", signed, Ok(true)).unwrap_err();
    assert_eq!(refused.body, Body::Message("Invalid file format".to_string()));

    let signed = prepare(Upload::new(image, "c2ln".to_string()).unwrap()).unwrap();
    assert!(accept(signed, Ok(true)).is_ok());
}

use image::AnimationDecoder;
use rs_cdn::cache::CacheError;
use rs_cdn::resource::Resource;
use rs_cdn::rest::read::can_resize;
use rs_cdn::rest::read::connection_failure;
use rs_cdn::rest::read::get_resource;
use rs_cdn::rest::read::leading_segment;
use rs_cdn::rest::read::on_cache_reply;
use rs_cdn::rest::read::on_origin_reply;
use rs_cdn::rest::read::on_write_back;
use rs_cdn::rest::read::render;
use rs_cdn::rest::read::size_is_listed;
use rs_cdn::rest::read::ImageFormat;
use rs_cdn::rest::read::QueryParams;
use rs_cdn::rest::read::ReadStep;
use rs_cdn::rest::read::Variant;
use rs_cdn::rest::image_hash_matches;
use rs_cdn::rest::read_route;
use rs_cdn::rest::Body;
use rs_cdn::rest::GenericError;
use rs_cdn::rest::OriginStatus;
use rs_cdn::rest::Response;
use rs_cdn::imaging::Raster;

const HASH: &str = "0123456789abcdef0123456789abcdef01234567";

fn read_png(width: u32, height: u32) -> Vec<u8> {
    let mut buffer = image::RgbaImage::new(width, height);
    for (x, y, pixel) in buffer.enumerate_pixels_mut() {
        *pixel = image::Rgba([(x % 256) as u8, (y % 256) as u8, 7, 255]);
    }
    let mut out = Vec::new();
    image::DynamicImage::ImageRgba8(buffer)
        .write_to(&mut std::io::Cursor::new(&mut out), image::ImageOutputFormat::Png)
        .unwrap();
    out
}

fn read_gif(width: u32, height: u32, frames: u32) -> Vec<u8> {
    let mut out = Vec::new();
    {
        let mut encoder = image::codecs::gif::GifEncoder::new(&mut out);
        for i in 0..frames {
            let buffer = image::RgbaImage::from_pixel(width, height, image::Rgba([(i * 90) as u8, 10, 200, 255]));
            let delay = image::Delay::from_numer_denom_ms(100 * (i + 1), 1);
            encoder.encode_frame(image::Frame::from_parts(buffer, 0, 0, delay)).unwrap();
        }
    }
    out
}

fn text_reply(status: u16, message: &str) -> Response {
    Response { status, content_type: None, origin: None, body: Body::Text(message.to_string()) }
}

fn png_variant(size: u32) -> Variant {
    Variant {
        resource: Resource::Avatars,
        id: "u1".to_string(),
        image_hash: HASH.to_string(),
        format: ImageFormat::Png,
        size,
    }
}

#[test]
fn listed_sizes_are_exactly_five() {
    for size in [128u32, 256, 512, 1024, 2048] {
        assert!(size_is_listed(size));
    }
    for size in [0u32, 1, 127, 129, 255, 257, 2047, 2049, 4096, u32::MAX] {
        assert!(!size_is_listed(size));
    }
}

#[test]
fn size_127_and_2049_yield_400() {
    for size in [127u32, 2049] {
        let step = get_resource("/avatars/u1/x.png", "u1", HASH, "png", &QueryParams::new(Some(size)));
        assert_eq!(step, ReadStep::Reply(text_reply(400, "The specified size is not valid")));
    }
}

#[test]
fn gif_of_size_512_yields_400() {
    let step = get_resource("/avatars/u1/x.gif", "u1", HASH, "gif", &QueryParams::new(Some(512)));
    assert_eq!(
        step,
        ReadStep::Reply(text_reply(400, "Size of a gif image cannot be larger than 256"))
    );
    let step = get_resource("/avatars/u1/x.gif", "u1", HASH, "gif", &QueryParams::new(Some(256)));
    assert!(matches!(step, ReadStep::LookUp(_)));
    let step = get_resource("/avatars/u1/x.png", "u1", HASH, "png", &QueryParams::new(Some(2048)));
    assert!(matches!(step, ReadStep::LookUp(_)));
}

#[test]
fn size_defaults_to_256() {
    let query = QueryParams::new(None);
    assert_eq!(query.size_or_default(), 256);
    match get_resource("/icons/u9/x.png", "u9", HASH, "png", &query) {
        ReadStep::LookUp(variant) => {
            assert_eq!(variant.resource, Resource::Icons);
            assert_eq!(variant.size, 256);
            assert_eq!(variant.key(), format!("u9:{HASH}:png:256"));
            assert_eq!(variant.filename(), format!("{HASH}.png"));
        }
        other => panic!("unexpected step {other:?}"),
    }
}

#[test]
fn unknown_class_yields_404_json() {
    let expected = Response {
        status: 404,
        content_type: None,
        origin: None,
        body: Body::Error(GenericError { error: "Resource not found".to_string() }),
    };
    let step = get_resource("/banners/u1/x.png", "u1", HASH, "png", &QueryParams::new(None));
    assert_eq!(step, ReadStep::Reply(expected));
}

#[test]
fn unknown_class_is_decided_before_the_size() {
    let step = get_resource("/banners/u1/x.png", "u1", HASH, "png", &QueryParams::new(Some(127)));
    match step {
        ReadStep::Reply(response) => assert_eq!(response.status, 404),
        other => panic!("unexpected step {other:?}"),
    }
}

#[test]
fn unknown_extension_yields_400() {
    let step = get_resource("/avatars/u1/x.jpg", "u1", HASH, "jpg", &QueryParams::new(None));
    assert_eq!(step, ReadStep::Reply(text_reply(400, "Invalid image extension")));
}

#[test]
fn leading_segment_skips_slashes() {
    assert_eq!(leading_segment("/avatars/u1/x.png?size=128"), Some("avatars".to_string()));
    assert_eq!(leading_segment("///icons"), Some("icons".to_string()));
    assert_eq!(leading_segment("health"), Some("health".to_string()));
    assert_eq!(leading_segment("//"), None);
    assert_eq!(leading_segment(""), None);
}

#[test]
fn absent_file_yields_404() {
    let step = on_cache_reply(png_variant(128), Ok(Vec::new()));
    let variant = match step {
        ReadStep::Fetch(variant) => variant,
        other => panic!("unexpected step {other:?}"),
    };
    let step = on_origin_reply(variant, None);
    assert_eq!(
        step,
        ReadStep::Reply(Response { status: 404, content_type: None, origin: None, body: Body::Empty })
    );
}

#[test]
fn cache_hit_is_served_unchanged() {
    let blob = vec![1u8, 2, 3, 4, 5];
    let step = on_cache_reply(png_variant(128), Ok(blob.clone()));
    let expected = Response {
        status: 200,
        content_type: Some("image/png".to_string()),
        origin: Some(OriginStatus::Cache),
        body: Body::Image(blob),
    };
    assert_eq!(step, ReadStep::Reply(expected));
    assert_eq!(OriginStatus::Cache.as_str(), "cache");
    assert_eq!(OriginStatus::Origin.as_str(), "origin");
}

#[test]
fn cache_failure_counts_as_miss() {
    let step = on_cache_reply(png_variant(128), Err(CacheError { message: "down".to_string() }));
    assert!(matches!(step, ReadStep::Fetch(_)));
}

#[test]
fn miss_then_warm_read_of_png_128() {
    let source = read_png(256, 256);
    let variant = match on_cache_reply(png_variant(128), Ok(Vec::new())) {
        ReadStep::Fetch(variant) => variant,
        other => panic!("unexpected step {other:?}"),
    };
    let (variant, encoded) = match on_origin_reply(variant, Some(source)) {
        ReadStep::WriteBack(variant, encoded) => (variant, encoded),
        other => panic!("unexpected step {other:?}"),
    };
    let decoded = image::load_from_memory_with_format(&encoded, image::ImageFormat::Png).unwrap();
    assert_eq!((decoded.width(), decoded.height()), (128, 128));
    let key = variant.key();
    let response = on_write_back(variant, encoded.clone(), Ok(()));
    assert_eq!(response.status, 200);
    assert_eq!(response.content_type, Some("image/png".to_string()));
    assert_eq!(response.origin, Some(OriginStatus::Origin));
    assert_eq!(response.body, Body::Image(encoded.clone()));

    let mut store = std::collections::HashMap::new();
    store.insert(key, encoded.clone());
    let again = png_variant(128);
    let found = store.get(&again.key()).cloned().unwrap_or_default();
    match on_cache_reply(again, Ok(found)) {
        ReadStep::Reply(response) => {
            assert_eq!(response.origin, Some(OriginStatus::Cache));
            assert_eq!(response.body, Body::Image(encoded));
        }
        other => panic!("unexpected step {other:?}"),
    }
}

#[test]
fn failed_write_back_yields_500() {
    let response = on_write_back(png_variant(128), vec![1], Err(CacheError { message: "x".to_string() }));
    assert_eq!(response, text_reply(500, "Failed to write to cache"));
    assert_eq!(connection_failure(), text_reply(500, "Connection error with redis"));
}

#[test]
fn undecodable_png_is_refused() {
    let refused = render(ImageFormat::Png, b"certainly not an image", 128).unwrap_err();
    assert_eq!(refused, text_reply(400, "Failed to create PNG decoder"));
    let mut cut = read_png(64, 64);
    cut.truncate(60);
    let refused = render(ImageFormat::Png, &cut, 128).unwrap_err();
    assert_eq!(refused, text_reply(400, "Failed to decode PNG"));
    let refused = render(ImageFormat::Gif, b"certainly not an image", 128).unwrap_err();
    assert_eq!(refused, text_reply(400, "Failed to create GIF decoder"));
}

#[test]
fn gif_variant_keeps_frames_and_delays() {
    let source = read_gif(40, 30, 2);
    let encoded = render(ImageFormat::Gif, &source, 256).unwrap();
    let frames = image::codecs::gif::GifDecoder::new(std::io::Cursor::new(&encoded))
        .unwrap()
        .into_frames()
        .collect_frames()
        .unwrap();
    assert_eq!(frames.len(), 2);
    for (i, frame) in frames.iter().enumerate() {
        assert_eq!((frame.buffer().width(), frame.buffer().height()), (256, 256));
        assert_eq!(frame.delay().numer_denom_ms(), (100 * (i as u32 + 1), 1));
    }
}

#[test]
fn empty_pictures_cannot_be_resized() {
    let empty = Raster { width: 0, height: 4, pixels: Vec::new() };
    assert!(!can_resize(&empty, 128));
    let one = Raster { width: 1, height: 1, pixels: vec![0, 0, 0, 255] };
    assert!(can_resize(&one, 128));
    assert!(!can_resize(&one, 0));
}

#[test]
fn formats_resolve_from_extensions() {
    assert_eq!(ImageFormat::try_from("png"), Ok(ImageFormat::Png));
    assert_eq!(ImageFormat::try_from("gif"), Ok(ImageFormat::Gif));
    assert_eq!(ImageFormat::try_from("PNG"), Err("Unknown image format".to_string()));
    assert_eq!(ImageFormat::Png.content_type(), "image/png");
    assert_eq!(ImageFormat::Gif.content_type(), "image/gif");
    assert_eq!(ImageFormat::Png.max_size(), 2048);
    assert_eq!(ImageFormat::Gif.max_size(), 256);
    assert_eq!(ImageFormat::Gif.extension(), "gif");
}

#[test]
fn image_hash_grammar() {
    assert!(image_hash_matches(HASH));
    assert!(image_hash_matches(&format!("a_{HASH}")));
    assert!(image_hash_matches(&HASH.to_uppercase()));
    assert!(!image_hash_matches(&format!("b_{HASH}")));
    assert!(!image_hash_matches(&format!("a_{}", &HASH[1..])));
    assert!(!image_hash_matches(&HASH[1..]));
    assert!(!image_hash_matches(&format!("{HASH}0")));
    assert!(!image_hash_matches(&format!("{}g", &HASH[1..])));
    assert!(!image_hash_matches(""));
    assert!(!image_hash_matches("a_"));
    let pattern = regex::Regex::new("^(a_)?[0-9a-fA-F]{40}$").unwrap();
    for text in [HASH.to_string(), format!("a_{HASH}"), format!("a{HASH}"), "a_".to_string()] {
        assert_eq!(image_hash_matches(&text), pattern.is_match(&text));
    }
    assert!(read_route().contains("(a_)?[0-9a-fA-F]{40}"));
}

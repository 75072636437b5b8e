use image::AnimationDecoder;
use rs_cdn::imaging::frames_well_formed;
use rs_cdn::imaging::AnimFrame;
use rs_cdn::imaging::Raster;
use rs_cdn::storage::crop_frames;
use rs_cdn::resource::Resource;
use rs_cdn::storage::crop_to_square;
use rs_cdn::storage::square_region;
use rs_cdn::storage::store_still;
use rs_cdn::storage::FailureKind;
use rs_cdn::storage::Storage;
use rs_cdn::storage::StorageError;

const NAME: &str = "da39a3ee5e6b4b0d3255bfef95601890afd80709";

fn stored_png(width: u32, height: u32) -> Vec<u8> {
    let mut buffer = image::RgbaImage::new(width, height);
    for (x, y, pixel) in buffer.enumerate_pixels_mut() {
        *pixel = image::Rgba([x as u8, y as u8, 9, 255]);
    }
    let mut out = Vec::new();
    image::DynamicImage::ImageRgba8(buffer)
        .write_to(&mut std::io::Cursor::new(&mut out), image::ImageOutputFormat::Png)
        .unwrap();
    out
}

fn stored_gif(width: u32, height: u32, frames: u32) -> Vec<u8> {
    let mut out = Vec::new();
    {
        let mut encoder = image::codecs::gif::GifEncoder::new(&mut out);
        for i in 0..frames {
            let buffer = image::RgbaImage::from_pixel(width, height, image::Rgba([(i * 100) as u8, 0, 0, 255]));
            let delay = image::Delay::from_numer_denom_ms(50, 1);
            encoder.encode_frame(image::Frame::from_parts(buffer, 0, 0, delay)).unwrap();
        }
    }
    out
}

#[test]
fn square_region_is_centred() {
    assert_eq!(square_region(256, 256), (0, 0, 256));
    assert_eq!(square_region(300, 200), (50, 0, 200));
    assert_eq!(square_region(200, 301), (0, 50, 200));
    assert_eq!(square_region(5, 2), (1, 0, 2));
    assert_eq!(square_region(0, 7), (0, 3, 0));
    assert_eq!(square_region(u32::MAX, 1), ((u32::MAX - 1) / 2, 0, 1));
}

#[test]
fn crop_copies_the_centred_square() {
    let mut pixels = Vec::new();
    for y in 0..2u8 {
        for x in 0..4u8 {
            pixels.extend_from_slice(&[x, y, 0, 255]);
        }
    }
    let source = Raster { width: 4, height: 2, pixels };
    assert!(source.is_well_formed());
    let cut = crop_to_square(&source);
    assert_eq!((cut.width, cut.height), (2, 2));
    assert_eq!(
        cut.pixels,
        vec![1, 0, 0, 255, 2, 0, 0, 255, 1, 1, 0, 255, 2, 1, 0, 255]
    );
}

#[test]
fn storage_paths_join_root_class_and_id() {
    let storage = Storage::new("./uploads");
    assert_eq!(storage.path(&Resource::Avatars, "u1"), "./uploads/avatars/u1");
    assert_eq!(storage.path(&Resource::Icons, "42"), "./uploads/icons/42");
    assert_eq!(
        storage.file_path(&Resource::Avatars, "u1", "abc.png"),
        "./uploads/avatars/u1/abc.png"
    );
}

#[test]
fn png_upload_is_stored_as_one_square_png() {
    let storage = Storage::new("/srv/cdn");
    let plan = storage.put(Resource::Avatars, "u1", stored_png(300, 200), NAME).unwrap();
    assert_eq!(plan.directory, "/srv/cdn/avatars/u1");
    assert!(plan.purge);
    assert_eq!(plan.filename, format!("{NAME}.png"));
    assert_eq!(plan.files.len(), 1);
    assert_eq!(plan.files[0].name, format!("{NAME}.png"));
    let decoded = image::load_from_memory_with_format(&plan.files[0].bytes, image::ImageFormat::Png)
        .unwrap()
        .into_rgba8();
    assert_eq!((decoded.width(), decoded.height()), (200, 200));
    assert_eq!(decoded.get_pixel(0, 0), &image::Rgba([50, 0, 9, 255]));
    assert_eq!(decoded.get_pixel(199, 199), &image::Rgba([249, 199, 9, 255]));
}

#[test]
fn gif_upload_is_stored_as_still_and_animation() {
    let storage = Storage::new("/srv/cdn");
    let plan = storage.put(Resource::Avatars, "u", stored_gif(30, 20, 2), NAME).unwrap();
    assert_eq!(plan.filename, format!("a_{NAME}.png"));
    assert_eq!(plan.files.len(), 2);
    assert_eq!(plan.files[0].name, format!("a_{NAME}.png"));
    assert_eq!(plan.files[1].name, format!("a_{NAME}.gif"));
    let still = image::load_from_memory_with_format(&plan.files[0].bytes, image::ImageFormat::Png).unwrap();
    assert_eq!((still.width(), still.height()), (20, 20));
    let frames = image::codecs::gif::GifDecoder::new(std::io::Cursor::new(&plan.files[1].bytes))
        .unwrap()
        .into_frames()
        .collect_frames()
        .unwrap();
    assert_eq!(frames.len(), 2);
    for frame in &frames {
        assert_eq!((frame.buffer().width(), frame.buffer().height()), (20, 20));
        assert_eq!(frame.delay().numer_denom_ms(), (50, 1));
    }
}

#[test]
fn text_upload_is_no_image() {
    let storage = Storage::new("/srv/cdn");
    let text = vec![b'x'; 100];
    let error = storage.put(Resource::Avatars, "u", text, NAME).unwrap_err();
    assert_eq!(error, StorageError::InvalidFormat);
    assert_eq!(error.kind(), FailureKind::InvalidFormat);
    assert_eq!(error.to_string(), "Invalid file format");
}

#[test]
fn bitmap_upload_is_unsupported() {
    let storage = Storage::new("/srv/cdn");
    let mut bitmap = b"BM".to_vec();
    bitmap.extend_from_slice(&[0u8; 60]);
    let error = storage.put(Resource::Avatars, "u", bitmap, NAME).unwrap_err();
    assert_eq!(error, StorageError::UnsupportedFormat);
    assert_eq!(error.to_string(), "Unsupported image format");
}

#[test]
fn broken_png_upload_is_a_codec_failure() {
    let storage = Storage::new("/srv/cdn");
    let mut broken = stored_png(16, 16);
    broken.truncate(40);
    let error = storage.put(Resource::Avatars, "u", broken, NAME).unwrap_err();
    assert_eq!(error.kind(), FailureKind::Codec);
}

#[test]
fn frames_are_tested_before_they_are_cropped() {
    let good = AnimFrame {
        picture: Raster { width: 2, height: 1, pixels: vec![1, 2, 3, 255, 4, 5, 6, 255] },
        left: 3,
        top: 4,
        delay_numer: 70,
        delay_denom: 1,
    };
    assert!(good.is_well_formed());
    let short = AnimFrame {
        picture: Raster { width: 2, height: 1, pixels: vec![1, 2, 3, 255] },
        left: 0,
        top: 0,
        delay_numer: 70,
        delay_denom: 1,
    };
    assert!(!short.is_well_formed());
    let timeless = AnimFrame {
        picture: Raster { width: 1, height: 1, pixels: vec![1, 2, 3, 255] },
        left: 0,
        top: 0,
        delay_numer: 70,
        delay_denom: 0,
    };
    assert!(!timeless.is_well_formed());
    let frames = vec![good];
    assert!(frames_well_formed(&frames));
    let cut = crop_frames(&frames);
    assert_eq!(cut.len(), 1);
    assert_eq!((cut[0].picture.width, cut[0].picture.height), (1, 1));
    assert_eq!(cut[0].picture.pixels, vec![1, 2, 3, 255]);
    assert_eq!((cut[0].left, cut[0].top), (0, 0));
    assert_eq!((cut[0].delay_numer, cut[0].delay_denom), (70, 1));
    assert!(!frames_well_formed(&vec![short, timeless]));
    assert!(frames_well_formed(&Vec::new()));
}

#[test]
fn jpeg_upload_is_stored_as_one_square_png() {
    let source = image::RgbImage::from_pixel(48, 32, image::Rgb([200, 30, 30]));
    let mut jpeg = Vec::new();
    image::DynamicImage::ImageRgb8(source)
        .write_to(&mut std::io::Cursor::new(&mut jpeg), image::ImageOutputFormat::Jpeg(90))
        .unwrap();
    let plan = Storage::new("/srv/cdn").put(Resource::Avatars, "u", jpeg, NAME).unwrap();
    assert_eq!(plan.filename, format!("{NAME}.png"));
    assert_eq!(plan.files.len(), 1);
    assert_eq!(plan.files[0].name, format!("{NAME}.png"));
    assert!(plan.files[0].bytes.starts_with(&[0x89, b'P', b'N', b'G', 0x0d, 0x0a, 0x1a, 0x0a]));
    let decoded = image::load_from_memory_with_format(&plan.files[0].bytes, image::ImageFormat::Png).unwrap();
    assert_eq!((decoded.width(), decoded.height()), (32, 32));
}

#[test]
fn a_decoded_picture_is_stored_as_its_square() {
    let image = Raster { width: 1, height: 2, pixels: vec![10, 20, 30, 255, 40, 50, 60, 255] };
    let plan = store_still("/srv/cdn/avatars/u".to_string(), true, NAME, &image).unwrap();
    assert_eq!(plan.directory, "/srv/cdn/avatars/u");
    assert!(plan.purge);
    assert_eq!(plan.filename, format!("{NAME}.png"));
    assert_eq!(plan.files.len(), 1);
    let decoded = image::load_from_memory_with_format(&plan.files[0].bytes, image::ImageFormat::Png)
        .unwrap()
        .into_rgba8();
    assert_eq!((decoded.width(), decoded.height()), (1, 1));
    assert_eq!(decoded.get_pixel(0, 0), &image::Rgba([10, 20, 30, 255]));
}

#[test]
fn signatures_of_the_accepted_formats_are_recognised() {
    let storage = Storage::new("/srv/cdn");
    for head in [
        &[0x89u8, b'P', b'N', b'G', 0x0d, 0x0a, 0x1a, 0x0a][..],
        &[0xff, 0xd8, 0xff][..],
        b"GIF89a",
        b"GIF87a",
        b"RIFF",
    ] {
        let error = storage.put(Resource::Avatars, "u", head.to_vec(), NAME).unwrap_err();
        assert_eq!(error.kind(), FailureKind::Codec, "{head:?}");
    }
    for head in [&b"GIF88a"[..], b"RIF", b"\x89PNG", b"", b"hello"] {
        let error = storage.put(Resource::Avatars, "u", head.to_vec(), NAME).unwrap_err();
        assert_eq!(error, StorageError::InvalidFormat, "{head:?}");
    }
}

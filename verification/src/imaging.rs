//! Pictures as plain values, and the codec operations performed on them.
//!
//! A [`Raster`] holds 8-bit RGBA samples row by row. Decoding, cropping,
//! resampling and encoding are done by the `image` crate behind the trusted
//! functions of this module; the rules that decide what is cropped and to
//! which size are verified in the modules that call them.

use image::AnimationDecoder;
use image::ImageEncoder;
use vstd::prelude::*;

verus! {

/// The mathematical content of a picture: its extent and its samples, four
/// per pixel (red, green, blue, alpha), rows from top to bottom.
pub ghost struct Picture {
    pub width: nat,
    pub height: nat,
    pub pixels: Seq<u8>,
}

/// One frame of an animation: a picture, where it is placed, and how long it
/// is shown, as a fraction of milliseconds.
pub ghost struct Cel {
    pub picture: Picture,
    pub left: nat,
    pub top: nat,
    pub delay_numer: nat,
    pub delay_denom: nat,
}

/// A decoded picture, always as 8-bit RGBA: whatever colour type a source
/// has (grey, RGB without alpha, sixteen bits a channel), its samples are
/// converted on decoding, and every PNG written from a `Raster` is an 8-bit
/// RGBA PNG.
#[derive(Debug, PartialEq, Eq)]
pub struct Raster {
    pub width: u32,
    pub height: u32,
    pub pixels: Vec<u8>,
}

/// A decoded animation frame.
#[derive(Debug, PartialEq, Eq)]
pub struct AnimFrame {
    pub picture: Raster,
    pub left: u32,
    pub top: u32,
    pub delay_numer: u32,
    pub delay_denom: u32,
}

/// What the leading bytes of a payload announce.
#[derive(Debug, Clone, Copy, PartialEq, Eq, Structural)]
pub enum Sniffed {
    Gif,
    Jpeg,
    Png,
    WebP,
    /// A known image format other than the four above.
    Other,
    /// No known image header.
    Unknown,
}

/// The still formats that are decoded into a single picture.
#[derive(Debug, Clone, Copy, PartialEq, Eq, Structural)]
pub enum StillFormat {
    Jpeg,
    Png,
    WebP,
}

/// How often an encoded animation plays.
#[derive(Debug, Clone, Copy, PartialEq, Eq, Structural)]
pub enum Looping {
    Infinite,
    Finite(u16),
}

/// The stage at which a codec operation failed, with the codec's message.
#[derive(Debug, PartialEq, Eq)]
pub enum CodecFault {
    /// The stream header could not be read.
    Open(String),
    /// The header was read but the image data could not be decoded.
    Decode(String),
    /// The picture could not be encoded.
    Encode(String),
}

/// Position of a sample in the row-major sample sequence of a picture that is
/// `width` pixels wide.
pub open spec fn sample_index(width: nat, column: int, row: int, channel: int) -> int {
    (row * width + column) * 4 + channel
}

impl Picture {
    /// The samples fill the extent exactly.
    pub open spec fn wf(self) -> bool {
        self.pixels.len() == self.width * self.height * 4
    }

    /// The rectangle of `width` by `height` pixels whose top left corner is at
    /// (`x`, `y`), copied out of this picture.
    pub open spec fn region(self, x: nat, y: nat, width: nat, height: nat) -> Picture {
        Picture {
            width,
            height,
            pixels: Seq::new(
                width * height * 4,
                |k: int|
                    self.pixels[sample_index(
                        self.width,
                        x + (k / 4) % (width as int),
                        y + (k / 4) / (width as int),
                        k % 4,
                    )],
            ),
        }
    }
}

impl View for Raster {
    type V = Picture;

    open spec fn view(&self) -> Picture {
        Picture {
            width: self.width as nat,
            height: self.height as nat,
            pixels: self.pixels@,
        }
    }
}

impl Raster {
    /// The sample buffer has exactly four bytes per pixel of the extent.
    pub open spec fn wf(&self) -> bool {
        self@.wf()
    }

    /// Tests at run time that the buffer matches the extent.
    pub fn is_well_formed(&self) -> (ok: bool)
        ensures
            ok == self.wf(),
    {
        assert(self.width * self.height <= 0xffff_ffff * 0xffff_ffff) by (nonlinear_arith)
            requires
                0 <= self.width <= 0xffff_ffff,
                0 <= self.height <= 0xffff_ffff,
        ;
        let area: u64 = (self.width as u64) * (self.height as u64);
        let expected: u128 = (area as u128) * 4;
        self.pixels.len() as u128 == expected
    }
}

impl View for AnimFrame {
    type V = Cel;

    open spec fn view(&self) -> Cel {
        Cel {
            picture: self.picture@,
            left: self.left as nat,
            top: self.top as nat,
            delay_numer: self.delay_numer as nat,
            delay_denom: self.delay_denom as nat,
        }
    }
}

impl AnimFrame {
    /// The picture is well formed and the delay is a fraction.
    pub open spec fn wf(&self) -> bool {
        self.picture.wf() && self.delay_denom > 0
    }

    /// Tests at run time that the picture's buffer matches its extent and
    /// that the delay has a denominator above zero.
    pub fn is_well_formed(&self) -> (ok: bool)
        ensures
            ok == self.wf(),
    {
        self.picture.is_well_formed() && self.delay_denom > 0
    }
}

/// The frames as mathematical values.
pub open spec fn cels_of(frames: Seq<AnimFrame>) -> Seq<Cel> {
    frames.map_values(|frame: AnimFrame| frame@)
}

/// Every frame is well formed.
pub open spec fn all_well_formed(frames: Seq<AnimFrame>) -> bool {
    forall|i: int| 0 <= i < frames.len() ==> (#[trigger] frames[i]).wf()
}

/// Tests at run time that every frame is well formed.
pub fn frames_well_formed(frames: &Vec<AnimFrame>) -> (ok: bool)
    ensures
        ok == all_well_formed(frames@),
{
    let mut i: usize = 0;
    while i < frames.len()
        invariant
            i <= frames.len(),
            forall|k: int| 0 <= k < i ==> (#[trigger] frames[k]).wf(),
        decreases frames.len() - i,
    {
        if !frames[i].is_well_formed() {
            return false;
        }
        i = i + 1;
    }
    true
}


/// What `image::guess_format` makes of a payload.
pub uninterp spec fn guessed_format(bytes: Seq<u8>) -> Sniffed;

/// The picture that `image::load_from_memory_with_format` decodes from a
/// PNG or WebP payload, converted to 8-bit RGBA; `None` where it reports an
/// error. The name says nothing of JPEG payloads: the JPEG decoder picks its
/// routines by the processor it runs on, and they need not agree to the
/// last bit.
pub uninterp spec fn decoded_still(bytes: Seq<u8>, format: StillFormat) -> Option<Picture>;

/// The eight bytes that open a PNG stream.
pub open spec fn png_signature() -> Seq<u8> {
    seq![0x89u8, 0x50u8, 0x4eu8, 0x47u8, 0x0du8, 0x0au8, 0x1au8, 0x0au8]
}

/// The three bytes that open a JPEG stream.
pub open spec fn jpeg_signature() -> Seq<u8> {
    seq![0xffu8, 0xd8u8, 0xffu8]
}

/// The six bytes `GIF89a`.
pub open spec fn gif89_signature() -> Seq<u8> {
    seq![0x47u8, 0x49u8, 0x46u8, 0x38u8, 0x39u8, 0x61u8]
}

/// The six bytes `GIF87a`.
pub open spec fn gif87_signature() -> Seq<u8> {
    seq![0x47u8, 0x49u8, 0x46u8, 0x38u8, 0x37u8, 0x61u8]
}

/// The four bytes `RIFF`, by which a WebP stream is recognised.
pub open spec fn riff_signature() -> Seq<u8> {
    seq![0x52u8, 0x49u8, 0x46u8, 0x46u8]
}

/// The accepted format that the head of a payload announces, if it
/// announces one: the payload begins with the signature of that format.
pub open spec fn accepted_format(bytes: Seq<u8>) -> Option<Sniffed> {
    if png_signature().is_prefix_of(bytes) {
        Some(Sniffed::Png)
    } else if jpeg_signature().is_prefix_of(bytes) {
        Some(Sniffed::Jpeg)
    } else if gif89_signature().is_prefix_of(bytes) || gif87_signature().is_prefix_of(bytes) {
        Some(Sniffed::Gif)
    } else if riff_signature().is_prefix_of(bytes) {
        Some(Sniffed::WebP)
    } else {
        None
    }
}

/// Whether `PngDecoder::new` accepts the head of a payload.
pub uninterp spec fn png_opens(bytes: Seq<u8>) -> bool;

/// The picture that `DynamicImage::from_decoder` reads from a PNG payload,
/// converted to 8-bit RGBA; `None` where it reports an error.
pub uninterp spec fn png_picture(bytes: Seq<u8>) -> Option<Picture>;

/// Whether `GifDecoder::new` accepts the head of a payload.
pub uninterp spec fn gif_opens(bytes: Seq<u8>) -> bool;

/// The frames that `Frames::collect_frames` reads from a GIF payload; `None`
/// where it reports an error.
pub uninterp spec fn gif_cels(bytes: Seq<u8>) -> Option<Seq<Cel>>;

/// The PNG stream that `PngEncoder::write_image` writes for a picture; `None`
/// where it reports an error.
pub uninterp spec fn png_encoding(picture: Picture) -> Option<Seq<u8>>;

/// The GIF stream that `GifEncoder` writes for a run of frames at an encoder
/// speed; `None` where it reports an error.
pub uninterp spec fn gif_encoding(cels: Seq<Cel>, speed: int, looping: Looping) -> Option<Seq<u8>>;

/// The samples that `imageops::resize` computes for a picture and a target
/// extent with the triangle kernel.
pub uninterp spec fn resampled(picture: Picture, width: nat, height: nat) -> Seq<u8>;

/// Calls `image::guess_format`, which compares the head of the payload with a
/// table of signatures and takes the first that fits. The contract names
/// the answer and says what the head of the table shows: a payload is taken
/// for one of the four accepted formats exactly when it begins with a
/// signature of that format. The other formats of the table are reported as
/// `Other`.
#[verifier::external_body]
pub(crate) fn sniff(bytes: &[u8]) -> (found: Sniffed)
    ensures
        found == guessed_format(bytes@),
        match accepted_format(bytes@) {
            Some(format) => found == format,
            None => found == Sniffed::Other || found == Sniffed::Unknown,
        },
{
    match image::guess_format(bytes) {
        Ok(image::ImageFormat::Gif) => Sniffed::Gif,
        Ok(image::ImageFormat::Jpeg) => Sniffed::Jpeg,
        Ok(image::ImageFormat::Png) => Sniffed::Png,
        Ok(image::ImageFormat::WebP) => Sniffed::WebP,
        Ok(_) => Sniffed::Other,
        Err(_) => Sniffed::Unknown,
    }
}

/// Calls `image::load_from_memory_with_format` and converts the image with
/// `DynamicImage::into_rgba8`. The contract says that the buffer of a
/// decoded picture matches its extent. For PNG and WebP it also names the
/// decoded picture and says that an error is returned exactly where the
/// decoder reports one. For JPEG it says no more: the decoder chooses its
/// routines by the processor, so the same bytes may decode to pictures that
/// differ between machines.
#[verifier::external_body]
pub(crate) fn decode_still(bytes: &[u8], format: StillFormat) -> (decoded: Result<Raster, String>)
    ensures
        decoded matches Ok(raster) ==> raster.wf(),
        format != StillFormat::Jpeg ==> match decoded {
            Ok(raster) => decoded_still(bytes@, format) == Some(raster@),
            Err(_) => decoded_still(bytes@, format) is None,
        },
{
    let kind = match format {
        StillFormat::Jpeg => image::ImageFormat::Jpeg,
        StillFormat::Png => image::ImageFormat::Png,
        StillFormat::WebP => image::ImageFormat::WebP,
    };
    let image = image::load_from_memory_with_format(bytes, kind).map_err(|e| e.to_string())?;
    let buffer = image.into_rgba8();
    Ok(Raster { width: buffer.width(), height: buffer.height(), pixels: buffer.into_raw() })
}

/// Calls `PngDecoder::new` and `DynamicImage::from_decoder`, and converts the
/// image with `DynamicImage::into_rgba8`. The contract names both outcomes and
/// says at which of the two calls an error arose.
#[verifier::external_body]
pub(crate) fn decode_png(bytes: &[u8]) -> (decoded: Result<Raster, CodecFault>)
    ensures
        match decoded {
            Ok(raster) => raster.wf() && png_opens(bytes@) && png_picture(bytes@) == Some(raster@),
            Err(CodecFault::Open(_)) => !png_opens(bytes@),
            Err(CodecFault::Decode(_)) => png_opens(bytes@) && png_picture(bytes@) is None,
            Err(CodecFault::Encode(_)) => false,
        },
{
    let decoder = image::codecs::png::PngDecoder::new(std::io::Cursor::new(bytes))
        .map_err(|e| CodecFault::Open(e.to_string()))?;
    let image = image::DynamicImage::from_decoder(decoder)
        .map_err(|e| CodecFault::Decode(e.to_string()))?;
    let buffer = image.into_rgba8();
    Ok(Raster { width: buffer.width(), height: buffer.height(), pixels: buffer.into_raw() })
}

/// Calls `GifDecoder::new` and `Frames::collect_frames`, and copies each frame
/// out with `Frame::left`, `Frame::top`, `Delay::numer_denom_ms` and
/// `Frame::into_buffer`. The contract names both outcomes, says at which of
/// the two calls an error arose, and that each frame's buffer matches its
/// extent and each delay has a denominator above zero.
#[verifier::external_body]
pub(crate) fn decode_gif(bytes: &[u8]) -> (decoded: Result<Vec<AnimFrame>, CodecFault>)
    ensures
        match decoded {
            Ok(frames) => all_well_formed(frames@) && gif_opens(bytes@) && gif_cels(bytes@)
                == Some(cels_of(frames@)),
            Err(CodecFault::Open(_)) => !gif_opens(bytes@),
            Err(CodecFault::Decode(_)) => gif_opens(bytes@) && gif_cels(bytes@) is None,
            Err(CodecFault::Encode(_)) => false,
        },
{
    let decoder = image::codecs::gif::GifDecoder::new(std::io::Cursor::new(bytes))
        .map_err(|e| CodecFault::Open(e.to_string()))?;
    let frames = decoder.into_frames().collect_frames()
        .map_err(|e| CodecFault::Decode(e.to_string()))?;
    Ok(frames.into_iter().map(|f| {
        let (left, top, (delay_numer, delay_denom)) = (f.left(), f.top(), f.delay().numer_denom_ms());
        let b = f.into_buffer();
        let picture = Raster { width: b.width(), height: b.height(), pixels: b.into_raw() };
        AnimFrame { picture, left, top, delay_numer, delay_denom }
    }).collect())
}

/// Calls `imageops::crop_imm` and `SubImage::to_image`, which copy the
/// rectangle out pixel by pixel. The rectangle must lie inside the picture;
/// the contract gives every sample of the result.
#[verifier::external_body]
pub(crate) fn crop(source: &Raster, x: u32, y: u32, width: u32, height: u32) -> (cut: Raster)
    requires
        source.wf(),
        x + width <= source.width,
        y + height <= source.height,
    ensures
        cut.wf(),
        cut@ == source@.region(x as nat, y as nat, width as nat, height as nat),
{
    let buffer = image::RgbaImage::from_raw(source.width, source.height, source.pixels.clone())
        .unwrap();
    let cut = image::imageops::crop_imm(&buffer, x, y, width, height).to_image();
    Raster { width: cut.width(), height: cut.height(), pixels: cut.into_raw() }
}

/// Calls `imageops::resize` with `FilterType::Triangle`, a kernel that is
/// computed without any transcendental function. Neither extent may be
/// empty, and the working buffer of sixteen bytes per pixel must be
/// allocatable. The contract gives the extent of the result and names its
/// samples.
#[verifier::external_body]
pub(crate) fn resize_triangle(source: &Raster, width: u32, height: u32) -> (scaled: Raster)
    requires
        source.wf(),
        source.width > 0,
        source.height > 0,
        width > 0,
        height > 0,
        width * height * 16 <= isize::MAX,
        source.width * height * 16 <= isize::MAX,
    ensures
        scaled.wf(),
        scaled.width == width,
        scaled.height == height,
        scaled.pixels@ == resampled(source@, width as nat, height as nat),
{
    let buffer = image::RgbaImage::from_raw(source.width, source.height, source.pixels.clone())
        .unwrap();
    let filter = image::imageops::FilterType::Triangle;
    let out = image::imageops::resize(&buffer, width, height, filter);
    Raster { width: out.width(), height: out.height(), pixels: out.into_raw() }
}

/// Calls `PngEncoder::new` and `ImageEncoder::write_image` on an 8-bit RGBA
/// buffer. The contract names the stream written, says that an error is
/// returned exactly where the encoder reports one, and that a stream
/// begins with the PNG signature, which the encoder writes before anything
/// else.
#[verifier::external_body]
pub(crate) fn encode_png(picture: &Raster) -> (encoded: Result<Vec<u8>, String>)
    requires
        picture.wf(),
    ensures
        match encoded {
            Ok(bytes) => png_encoding(picture@) == Some(bytes@) && png_signature().is_prefix_of(
                bytes@,
            ),
            Err(_) => png_encoding(picture@) is None,
        },
{
    let mut out = Vec::new();
    image::codecs::png::PngEncoder::new(&mut out)
        .write_image(&picture.pixels, picture.width, picture.height, image::ColorType::Rgba8)
        .map_err(|e| e.to_string())?;
    Ok(out)
}

/// Calls `GifEncoder::new_with_speed`, `GifEncoder::set_repeat` and
/// `GifEncoder::encode_frames`, each frame rebuilt with `Frame::from_parts`
/// and `Delay::from_numer_denom_ms`. The speed must lie between 1 and 30. The
/// contract names the stream written and says that an error is returned
/// exactly where the encoder reports one.
#[verifier::external_body]
pub(crate) fn encode_gif(frames: &Vec<AnimFrame>, speed: i32, looping: Looping) -> (encoded: Result<Vec<u8>, String>)
    requires
        all_well_formed(frames@),
        1 <= speed <= 30,
    ensures
        match encoded {
            Ok(bytes) => gif_encoding(cels_of(frames@), speed as int, looping) == Some(bytes@),
            Err(_) => gif_encoding(cels_of(frames@), speed as int, looping) is None,
        },
{
    let repeat = match looping {
        Looping::Infinite => image::codecs::gif::Repeat::Infinite,
        Looping::Finite(n) => image::codecs::gif::Repeat::Finite(n),
    };
    let mut out = Vec::new();
    let mut encoder = image::codecs::gif::GifEncoder::new_with_speed(&mut out, speed);
    encoder.set_repeat(repeat).map_err(|e| e.to_string())?;
    encoder.encode_frames(frames.iter().map(|f| image::Frame::from_parts(
        image::RgbaImage::from_raw(f.picture.width, f.picture.height, f.picture.pixels.clone()).unwrap(),
        f.left, f.top, image::Delay::from_numer_denom_ms(f.delay_numer, f.delay_denom),
    ))).map_err(|e| e.to_string())?;
    drop(encoder);
    Ok(out)
}

} // verus!

//! The read pipeline: from a request for a variant to the bytes served.
//!
//! A read is a short conversation. [`get_resource`] checks the request and
//! says what to ask the cache; [`on_cache_reply`], [`on_origin_reply`] and
//! [`on_write_back`] each take the outcome of the step before and say what
//! to do next, until the step is a [`ReadStep::Reply`].

use crate::cache::cache_key;
use crate::cache::cached_blob;
use crate::cache::lemma_put_then_lookup;
use crate::cache::present;
use crate::cache::put_commands;
use crate::cache::store_after_all;
use crate::cache::store_lookup;
use crate::cache::Entry;
use crate::cache::TTL_SECONDS;
use crate::cache::Cache;
use crate::cache::CacheError;
use crate::imaging::all_well_formed;
use crate::imaging::cels_of;
use crate::imaging::decode_gif;
use crate::imaging::decode_png;
use crate::imaging::encode_gif;
use crate::imaging::encode_png;
use crate::imaging::gif_cels;
use crate::imaging::gif_encoding;
use crate::imaging::gif_opens;
use crate::imaging::png_encoding;
use crate::imaging::png_opens;
use crate::imaging::png_picture;
use crate::imaging::png_signature;
use crate::imaging::resampled;
use crate::imaging::resize_triangle;
use crate::imaging::AnimFrame;
use crate::imaging::Cel;
use crate::imaging::CodecFault;
use crate::imaging::Looping;
use crate::imaging::Picture;
use crate::imaging::Raster;
use crate::resource::resource_named;
use crate::resource::Resource;
use crate::rest::error_answer;
use crate::cache::CommandModel;
use crate::digest::content_hash_of;
use crate::rest::write::upload_stores;
use crate::rest::write::upload_class;
use crate::storage::blob_view;
use crate::storage::still_name;
use crate::storage::storage_dir;
use crate::storage::PlanModel;
use crate::rest::image_answer;
use crate::rest::plain;
use crate::rest::text_answer;
use crate::rest::BodyModel;
use crate::rest::OriginStatus;
use crate::rest::Response;
use crate::rest::ResponseModel;
use crate::text::chars_of;
use crate::text::decimal;
use crate::text::decimal_string;
use crate::text::same_text;
use vstd::prelude::*;
use vstd::string::*;

verus! {

/// The largest side of a PNG variant.
pub const MAX_SIZE_PNG: u32 = 2048;

/// The side of a variant when the request names none.
pub const DEFAULT_SIZE: u32 = 256;

/// The largest side of a GIF variant.
pub const MAX_SIZE_GIF: u32 = DEFAULT_SIZE;

/// The speed handed to the GIF encoder.
pub const GIF_SPEED: i32 = 30;

/// The sides that may be asked for.
pub open spec fn is_listed_size(size: nat) -> bool {
    size == 128 || size == 256 || size == 512 || size == 1024 || size == 2048
}

/// Whether `size` is one of the sides that may be asked for.
pub fn size_is_listed(size: u32) -> (listed: bool)
    ensures
        listed == is_listed_size(size as nat),
{
    size == 128 || size == DEFAULT_SIZE || size == 512 || size == 1024 || size == MAX_SIZE_PNG
}

/// The query of a read request.
#[derive(Debug, PartialEq, Eq)]
pub struct QueryParams {
    size: Option<u32>,
}

impl QueryParams {
    pub fn new(size: Option<u32>) -> (query: Self)
        ensures
            query.size() == size,
    {
        QueryParams { size }
    }

    /// The side asked for, if any.
    pub closed spec fn size(&self) -> Option<u32> {
        self.size
    }

    /// The side asked for, or the default.
    pub open spec fn chosen_size(&self) -> nat {
        match self.size() {
            Some(size) => size as nat,
            None => DEFAULT_SIZE as nat,
        }
    }

    /// The side asked for, or the default.
    pub fn size_or_default(&self) -> (size: u32)
        ensures
            size == self.chosen_size(),
    {
        match self.size {
            Some(size) => size,
            None => DEFAULT_SIZE,
        }
    }
}

/// The formats in which variants are served.
#[derive(Debug, Clone, Copy, PartialEq, Eq, Structural)]
pub enum ImageFormat {
    Png,
    Gif,
}

/// The format that a file extension names, if any.
pub open spec fn format_named(ext: Seq<char>) -> Option<ImageFormat> {
    if ext == "gif"@ {
        Some(ImageFormat::Gif)
    } else if ext == "png"@ {
        Some(ImageFormat::Png)
    } else {
        None
    }
}

/// The file extension of a format.
pub open spec fn format_extension(format: ImageFormat) -> Seq<char> {
    match format {
        ImageFormat::Gif => "gif"@,
        ImageFormat::Png => "png"@,
    }
}

/// The media type of a format.
pub open spec fn format_content_type(format: ImageFormat) -> Seq<char> {
    match format {
        ImageFormat::Gif => "image/gif"@,
        ImageFormat::Png => "image/png"@,
    }
}

/// The largest side of a variant in a format.
pub open spec fn format_max_size(format: ImageFormat) -> nat {
    match format {
        ImageFormat::Gif => MAX_SIZE_GIF as nat,
        ImageFormat::Png => MAX_SIZE_PNG as nat,
    }
}

impl ImageFormat {
    pub fn content_type(&self) -> (kind: &'static str)
        ensures
            kind@ == format_content_type(*self),
    {
        match self {
            ImageFormat::Gif => "image/gif",
            ImageFormat::Png => "image/png",
        }
    }

    pub fn max_size(&self) -> (side: u32)
        ensures
            side == format_max_size(*self),
    {
        match self {
            ImageFormat::Gif => MAX_SIZE_GIF,
            ImageFormat::Png => MAX_SIZE_PNG,
        }
    }

    /// The file extension of the format.
    pub fn extension(&self) -> (ext: &'static str)
        ensures
            ext@ == format_extension(*self),
    {
        match self {
            ImageFormat::Gif => "gif",
            ImageFormat::Png => "png",
        }
    }

    /// Resolves a file extension. The match is exact and case sensitive.
    pub fn try_from(value: &str) -> (found: Result<ImageFormat, String>)
        ensures
            match found {
                Ok(format) => format_named(value@) == Some(format),
                Err(message) => format_named(value@) is None && message@ == "Unknown image format"@,
            },
    {
        if same_text(value, "gif") {
            Ok(ImageFormat::Gif)
        } else if same_text(value, "png") {
            Ok(ImageFormat::Png)
        } else {
            Err(String::from_str("Unknown image format"))
        }
    }
}

/// A format is found again under its own extension.
pub proof fn lemma_extension_round_trip(format: ImageFormat)
    ensures
        format_named(format_extension(format)) == Some(format),
{
    reveal_strlit("gif");
    reveal_strlit("png");
    assert("gif"@[0] != "png"@[0]);
}

/// The first position at or after `from` that holds no slash.
pub open spec fn skip_slashes(uri: Seq<char>, from: int) -> int
    decreases uri.len() - from,
{
    if 0 <= from < uri.len() && uri[from] == '/' {
        skip_slashes(uri, from + 1)
    } else {
        from
    }
}

/// The first position at or after `from` that holds a slash, or the length.
pub open spec fn segment_end(uri: Seq<char>, from: int) -> int
    decreases uri.len() - from,
{
    if 0 <= from < uri.len() && uri[from] != '/' {
        segment_end(uri, from + 1)
    } else {
        from
    }
}

/// The first run of characters between slashes, if there is one.
pub open spec fn first_segment(uri: Seq<char>) -> Option<Seq<char>> {
    let start = skip_slashes(uri, 0);
    if start >= uri.len() {
        None
    } else {
        Some(uri.subrange(start, segment_end(uri, start)))
    }
}

/// The first non-empty path segment of a request target.
pub fn leading_segment(uri: &str) -> (segment: Option<String>)
    ensures
        match segment {
            Some(text) => first_segment(uri@) == Some(text@),
            None => first_segment(uri@) is None,
        },
{
    let chars = chars_of(uri);
    let n = chars.len();
    let mut start: usize = 0;
    while start < n && chars[start] == '/'
        invariant
            chars@ == uri@,
            n == chars.len(),
            start <= n,
            skip_slashes(uri@, 0) == skip_slashes(uri@, start as int),
        decreases n - start,
    {
        start = start + 1;
    }
    if start >= n {
        return None;
    }
    let mut end: usize = start;
    while end < n && chars[end] != '/'
        invariant
            chars@ == uri@,
            n == chars.len(),
            start <= end <= n,
            segment_end(uri@, start as int) == segment_end(uri@, end as int),
        decreases n - end,
    {
        end = end + 1;
    }
    let piece = uri.substring_char(start, end);
    Some(String::from_str(piece))
}

/// A request for one variant of one stored artifact, after validation.
#[derive(Debug, PartialEq, Eq)]
pub struct Variant {
    pub resource: Resource,
    pub id: String,
    pub image_hash: String,
    pub format: ImageFormat,
    pub size: u32,
}

/// A variant as a mathematical value.
pub ghost struct VariantModel {
    pub resource: Resource,
    pub id: Seq<char>,
    pub image_hash: Seq<char>,
    pub format: ImageFormat,
    pub size: nat,
}

impl View for Variant {
    type V = VariantModel;

    open spec fn view(&self) -> VariantModel {
        VariantModel {
            resource: self.resource,
            id: self.id@,
            image_hash: self.image_hash@,
            format: self.format,
            size: self.size as nat,
        }
    }
}

impl VariantModel {
    /// The size is listed and within the cap of the format.
    pub open spec fn wf(self) -> bool {
        is_listed_size(self.size) && self.size <= format_max_size(self.format)
    }

    /// The cache key of the variant.
    pub open spec fn key(self) -> Seq<char> {
        cache_key(self.id, self.image_hash, format_extension(self.format), self.size)
    }

    /// The name of the stored artifact that the variant is rendered from.
    pub open spec fn filename(self) -> Seq<char> {
        self.image_hash + "."@ + format_extension(self.format)
    }
}

impl Variant {
    /// The size is listed and within the cap of the format.
    pub open spec fn wf(&self) -> bool {
        self@.wf()
    }

    /// The cache key of the variant.
    pub fn key(&self) -> (key: String)
        ensures
            key@ == self@.key(),
    {
        Cache::new().key(
            self.id.as_str(),
            self.image_hash.as_str(),
            self.format.extension(),
            self.size,
        )
    }

    /// The name of the stored artifact that the variant is rendered from.
    pub fn filename(&self) -> (name: String)
        ensures
            name@ == self@.filename(),
    {
        let mut name = self.image_hash.clone();
        name.append(".");
        name.append(self.format.extension());
        name
    }
}

/// What a read does next.
#[derive(Debug, PartialEq, Eq)]
pub enum ReadStep {
    /// Ask the cache for the key of the variant, then call
    /// [`on_cache_reply`].
    LookUp(Variant),
    /// Read the stored artifact of the variant, then call
    /// [`on_origin_reply`].
    Fetch(Variant),
    /// Store the bytes under the key of the variant, then call
    /// [`on_write_back`].
    WriteBack(Variant, Vec<u8>),
    /// Send the answer; the read is over.
    Reply(Response),
}

/// A step as a mathematical value.
pub ghost enum ReadStepModel {
    LookUp(VariantModel),
    Fetch(VariantModel),
    WriteBack(VariantModel, Seq<u8>),
    Reply(ResponseModel),
}

impl View for ReadStep {
    type V = ReadStepModel;

    open spec fn view(&self) -> ReadStepModel {
        match self {
            ReadStep::LookUp(variant) => ReadStepModel::LookUp(variant@),
            ReadStep::Fetch(variant) => ReadStepModel::Fetch(variant@),
            ReadStep::WriteBack(variant, bytes) => ReadStepModel::WriteBack(variant@, bytes@),
            ReadStep::Reply(response) => ReadStepModel::Reply(response@),
        }
    }
}

/// The message that refuses a size above the cap of a format.
pub open spec fn too_large_message(ext: Seq<char>, max: nat) -> Seq<char> {
    "Size of a "@ + ext + " image cannot be larger than "@ + decimal(max)
}

/// The first step of a read. The class is resolved from the first segment of
/// the request target; an unknown class is answered with 404. Then the size
/// must be listed, the extension known, and the size within the cap of the
/// format: each failure is answered with 400. Otherwise the cache is asked.
pub open spec fn first_step(
    uri: Seq<char>,
    id: Seq<char>,
    image_hash: Seq<char>,
    ext: Seq<char>,
    size: nat,
) -> ReadStepModel {
    let class = match first_segment(uri) {
        Some(segment) => resource_named(segment),
        None => None,
    };
    match class {
        None => ReadStepModel::Reply(error_answer(404, "Resource not found"@)),
        Some(resource) => if !is_listed_size(size) {
            ReadStepModel::Reply(text_answer(400, "The specified size is not valid"@))
        } else {
            match format_named(ext) {
                None => ReadStepModel::Reply(text_answer(400, "Invalid image extension"@)),
                Some(format) => if size > format_max_size(format) {
                    ReadStepModel::Reply(
                        text_answer(400, too_large_message(ext, format_max_size(format))),
                    )
                } else {
                    ReadStepModel::LookUp(VariantModel { resource, id, image_hash, format, size })
                },
            }
        },
    }
}

/// Opens a read: validates the request and, if it stands, asks for a cache
/// lookup.
pub fn get_resource(uri: &str, id: &str, image_hash: &str, ext: &str, query: &QueryParams) -> (step:
    ReadStep)
    ensures
        step@ == first_step(uri@, id@, image_hash@, ext@, query.chosen_size()),
        step matches ReadStep::LookUp(variant) ==> variant.wf(),
        !(step is Fetch) && !(step is WriteBack),
{
    let size = query.size_or_default();
    let class = match leading_segment(uri) {
        Some(segment) => Resource::try_from(segment.as_str()),
        None => Err(String::new()),
    };
    let resource = match class {
        Ok(resource) => resource,
        Err(_) => {
            return ReadStep::Reply(Response::error(404, "Resource not found"));
        },
    };
    if !size_is_listed(size) {
        return ReadStep::Reply(Response::text(400, "The specified size is not valid"));
    }
    let format = match ImageFormat::try_from(ext) {
        Ok(format) => format,
        Err(_) => {
            return ReadStep::Reply(Response::text(400, "Invalid image extension"));
        },
    };
    let max_size = format.max_size();
    if size > max_size {
        let mut message = String::from_str("Size of a ");
        message.append(ext);
        message.append(" image cannot be larger than ");
        let digits = decimal_string(max_size);
        message.append(digits.as_str());
        return ReadStep::Reply(Response::text(400, message.as_str()));
    }
    ReadStep::LookUp(
        Variant {
            resource,
            id: String::from_str(id),
            image_hash: String::from_str(image_hash),
            format,
            size,
        },
    )
}

/// Whether a picture can be resampled to a square of side `size`: neither
/// extent is empty and the working buffers fit the address space.
pub open spec fn resizable(picture: Picture, size: nat) -> bool {
    &&& picture.width > 0
    &&& picture.height > 0
    &&& size > 0
    &&& size * size * 16 <= isize::MAX
    &&& picture.width * size * 16 <= isize::MAX
}

/// A picture resampled to a square of side `size` with the triangle kernel.
pub open spec fn scaled(picture: Picture, size: nat) -> Picture {
    Picture {
        width: size,
        height: size,
        pixels: resampled(picture, size, size),
    }
}

/// A frame resampled to a square of side `size`, placed at the origin, with
/// its delay kept.
pub open spec fn scaled_cel(cel: Cel, size: nat) -> Cel {
    Cel {
        picture: scaled(cel.picture, size),
        left: 0,
        top: 0,
        delay_numer: cel.delay_numer,
        delay_denom: cel.delay_denom,
    }
}

/// Every frame can be resampled.
pub open spec fn all_resizable(cels: Seq<Cel>, size: nat) -> bool {
    forall|i: int| 0 <= i < cels.len() ==> resizable((#[trigger] cels[i]).picture, size)
}

/// The answer to a stored artifact that cannot be decoded.
pub open spec fn decode_refusal(format: ImageFormat, opened: bool) -> ResponseModel {
    match format {
        ImageFormat::Png => if opened {
            text_answer(400, "Failed to decode PNG"@)
        } else {
            text_answer(400, "Failed to create PNG decoder"@)
        },
        ImageFormat::Gif => if opened {
            text_answer(400, "Error collecting frames"@)
        } else {
            text_answer(400, "Failed to create GIF decoder"@)
        },
    }
}

/// The answer to a picture that cannot be resampled.
pub open spec fn resize_refusal() -> ResponseModel {
    text_answer(500, "Failed to resize image"@)
}

/// The answer to a variant that cannot be encoded.
pub open spec fn encode_refusal(format: ImageFormat) -> ResponseModel {
    match format {
        ImageFormat::Png => text_answer(500, "Failed to write PNG to buffer"@),
        ImageFormat::Gif => text_answer(400, "Error encoding frames"@),
    }
}

/// The bytes of a variant rendered from a stored PNG, or the answer that
/// says why there are none.
pub open spec fn png_rendering(bytes: Seq<u8>, size: nat) -> Result<Seq<u8>, ResponseModel> {
    if !png_opens(bytes) {
        Err(decode_refusal(ImageFormat::Png, false))
    } else {
        match png_picture(bytes) {
            None => Err(decode_refusal(ImageFormat::Png, true)),
            Some(picture) => if !resizable(picture, size) {
                Err(resize_refusal())
            } else {
                match png_encoding(scaled(picture, size)) {
                    None => Err(encode_refusal(ImageFormat::Png)),
                    Some(encoded) => Ok(encoded),
                }
            },
        }
    }
}

/// The bytes of a variant rendered from a stored GIF, or the answer that
/// says why there are none.
pub open spec fn gif_rendering(bytes: Seq<u8>, size: nat) -> Result<Seq<u8>, ResponseModel> {
    if !gif_opens(bytes) {
        Err(decode_refusal(ImageFormat::Gif, false))
    } else {
        match gif_cels(bytes) {
            None => Err(decode_refusal(ImageFormat::Gif, true)),
            Some(cels) => if !all_resizable(cels, size) {
                Err(resize_refusal())
            } else {
                match gif_encoding(
                    cels.map_values(|cel: Cel| scaled_cel(cel, size)),
                    GIF_SPEED as int,
                    Looping::Infinite,
                ) {
                    None => Err(encode_refusal(ImageFormat::Gif)),
                    Some(encoded) => Ok(encoded),
                }
            },
        }
    }
}

/// The bytes of a variant rendered from a stored artifact, or the answer
/// that says why there are none.
pub open spec fn rendering(format: ImageFormat, bytes: Seq<u8>, size: nat) -> Result<
    Seq<u8>,
    ResponseModel,
> {
    match format {
        ImageFormat::Png => png_rendering(bytes, size),
        ImageFormat::Gif => gif_rendering(bytes, size),
    }
}

/// Answers a codec failure while decoding a stored artifact.
pub fn decode_failure(format: ImageFormat, fault: &CodecFault) -> (response: Response)
    ensures
        response@ == decode_refusal(format, !(fault is Open)),
{
    match format {
        ImageFormat::Png => match fault {
            CodecFault::Open(_) => Response::text(400, "Failed to create PNG decoder"),
            _ => Response::text(400, "Failed to decode PNG"),
        },
        ImageFormat::Gif => match fault {
            CodecFault::Open(_) => Response::text(400, "Failed to create GIF decoder"),
            _ => Response::text(400, "Error collecting frames"),
        },
    }
}

/// Answers a picture that cannot be resampled.
pub fn resize_failure() -> (response: Response)
    ensures
        response@ == resize_refusal(),
{
    Response::text(500, "Failed to resize image")
}

/// Answers a codec failure while encoding a variant.
pub fn encode_failure(format: ImageFormat) -> (response: Response)
    ensures
        response@ == encode_refusal(format),
{
    match format {
        ImageFormat::Png => Response::text(500, "Failed to write PNG to buffer"),
        ImageFormat::Gif => Response::text(400, "Error encoding frames"),
    }
}

/// Tests whether a picture can be resampled to a square of side `size`.
pub fn can_resize(picture: &Raster, size: u32) -> (able: bool)
    ensures
        able == resizable(picture@, size as nat),
{
    if picture.width == 0 || picture.height == 0 || size == 0 {
        return false;
    }
    assert(size * size <= 0xffff_ffff * 0xffff_ffff && picture.width * size <= 0xffff_ffff
        * 0xffff_ffff) by (nonlinear_arith)
        requires
            0 <= size <= 0xffff_ffff,
            0 <= picture.width <= 0xffff_ffff,
    ;
    let target: u128 = (size as u128) * (size as u128) * 16;
    let working: u128 = (picture.width as u128) * (size as u128) * 16;
    target <= isize::MAX as u128 && working <= isize::MAX as u128
}

/// Resamples a picture to a square of side `size` with the triangle kernel.
pub fn scale(picture: &Raster, size: u32) -> (out: Raster)
    requires
        picture.wf(),
        resizable(picture@, size as nat),
    ensures
        out.wf(),
        out@ == scaled(picture@, size as nat),
{
    resize_triangle(picture, size, size)
}

/// Resamples every frame of an animation to a square of side `size`, places
/// it at the origin and keeps its delay. Returns nothing if a frame cannot
/// be resampled.
pub fn scale_frames(frames: &Vec<AnimFrame>, size: u32) -> (out: Option<Vec<AnimFrame>>)
    requires
        all_well_formed(frames@),
    ensures
        match out {
            Some(scaled_frames) => {
                &&& all_resizable(cels_of(frames@), size as nat)
                &&& all_well_formed(scaled_frames@)
                &&& cels_of(scaled_frames@) == cels_of(frames@).map_values(
                    |cel: Cel| scaled_cel(cel, size as nat),
                )
            },
            None => !all_resizable(cels_of(frames@), size as nat),
        },
{
    let mut out: Vec<AnimFrame> = Vec::new();
    let mut i: usize = 0;
    while i < frames.len()
        invariant
            all_well_formed(frames@),
            i <= frames.len(),
            out.len() == i,
            all_well_formed(out@),
            forall|k: int| 0 <= k < i ==> resizable(#[trigger] frames[k]@.picture, size as nat),
            forall|k: int| 0 <= k < i ==> (#[trigger] out[k])@ == scaled_cel(frames[k]@, size as nat),
        decreases frames.len() - i,
    {
        let frame = &frames[i];
        assert(frame.wf());
        if !can_resize(&frame.picture, size) {
            assert(!resizable(cels_of(frames@)[i as int].picture, size as nat));
            return None;
        }
        let picture = scale(&frame.picture, size);
        out.push(
            AnimFrame {
                picture,
                left: 0,
                top: 0,
                delay_numer: frame.delay_numer,
                delay_denom: frame.delay_denom,
            },
        );
        i = i + 1;
    }
    assert(cels_of(out@) =~= cels_of(frames@).map_values(|cel: Cel| scaled_cel(cel, size as nat)));
    assert(all_resizable(cels_of(frames@), size as nat));
    Some(out)
}

/// Renders the variant of side `size` from a stored artifact. A rendered
/// PNG begins with the PNG signature. A PNG is
/// decoded to 8-bit RGBA, resampled and encoded in that colour type, which
/// is the colour type of every PNG that the store writes.
pub fn render(format: ImageFormat, bytes: &[u8], size: u32) -> (rendered: Result<Vec<u8>, Response>)
    ensures
        match rendered {
            Ok(encoded) => rendering(format, bytes@, size as nat) == Ok::<Seq<u8>, ResponseModel>(
                encoded@,
            ),
            Err(response) => rendering(format, bytes@, size as nat) == Err::<
                Seq<u8>,
                ResponseModel,
            >(response@),
        },
        format == ImageFormat::Png ==> (rendered matches Ok(encoded) ==> png_signature().is_prefix_of(
            encoded@,
        )),
{
    match format {
        ImageFormat::Png => {
            let picture = match decode_png(bytes) {
                Ok(picture) => picture,
                Err(fault) => {
                    return Err(decode_failure(format, &fault));
                },
            };
            if !can_resize(&picture, size) {
                return Err(resize_failure());
            }
            let out = scale(&picture, size);
            match encode_png(&out) {
                Ok(encoded) => Ok(encoded),
                Err(_) => Err(encode_failure(format)),
            }
        },
        ImageFormat::Gif => {
            let frames = match decode_gif(bytes) {
                Ok(frames) => frames,
                Err(fault) => {
                    return Err(decode_failure(format, &fault));
                },
            };
            let out = match scale_frames(&frames, size) {
                Some(out) => out,
                None => {
                    return Err(resize_failure());
                },
            };
            match encode_gif(&out, GIF_SPEED, Looping::Infinite) {
                Ok(encoded) => Ok(encoded),
                Err(_) => Err(encode_failure(format)),
            }
        },
    }
}

/// What follows the cache's reply: a non-empty blob is served as it is,
/// marked as coming from the cache; otherwise the store is read.
pub open spec fn after_cache(variant: VariantModel, blob: Option<Seq<u8>>) -> ReadStepModel {
    match blob {
        Some(bytes) => ReadStepModel::Reply(
            image_answer(format_content_type(variant.format), OriginStatus::Cache, bytes),
        ),
        None => ReadStepModel::Fetch(variant),
    }
}

/// What follows the store's reply: a missing artifact is answered with 404;
/// one that is there is rendered, and the rendered bytes go to the cache.
pub open spec fn after_origin(variant: VariantModel, stored: Option<Seq<u8>>) -> ReadStepModel {
    match stored {
        None => ReadStepModel::Reply(plain(404, BodyModel::Empty)),
        Some(bytes) => match rendering(variant.format, bytes, variant.size) {
            Ok(encoded) => ReadStepModel::WriteBack(variant, encoded),
            Err(response) => ReadStepModel::Reply(response),
        },
    }
}

/// The answer after the write to the cache: the rendered bytes, marked as
/// coming from the origin, or 500 if the write failed.
pub open spec fn after_write_back(variant: VariantModel, bytes: Seq<u8>, stored: bool) -> ResponseModel {
    if stored {
        image_answer(format_content_type(variant.format), OriginStatus::Origin, bytes)
    } else {
        text_answer(500, "Failed to write to cache"@)
    }
}

/// Takes the reply to the lookup of the variant's key.
pub fn on_cache_reply(variant: Variant, reply: Result<Vec<u8>, CacheError>) -> (step: ReadStep)
    ensures
        step@ == after_cache(variant@, cached_blob(reply)),
{
    match Cache::new().get(reply) {
        Some(bytes) => ReadStep::Reply(
            Response::image(variant.format.content_type(), OriginStatus::Cache, bytes),
        ),
        None => ReadStep::Fetch(variant),
    }
}

/// Takes the stored artifact of the variant, or its absence. A rendered PNG
/// begins with the PNG signature, so it is never empty and the cache will
/// hold it as present.
pub fn on_origin_reply(variant: Variant, stored: Option<Vec<u8>>) -> (step: ReadStep)
    ensures
        step@ == after_origin(variant@, blob_view(stored)),
        variant.format == ImageFormat::Png ==> (step matches ReadStep::WriteBack(_, encoded)
            ==> encoded@.len() >= 8 && cached_blob(Ok(encoded)) == Some(encoded@)),
{
    match stored {
        None => ReadStep::Reply(Response::empty(404)),
        Some(bytes) => match render(variant.format, bytes.as_slice(), variant.size) {
            Ok(encoded) => ReadStep::WriteBack(variant, encoded),
            Err(response) => ReadStep::Reply(response),
        },
    }
}

/// Takes the outcome of the write to the cache and answers.
pub fn on_write_back(variant: Variant, bytes: Vec<u8>, outcome: Result<(), CacheError>) -> (response:
    Response)
    ensures
        response@ == after_write_back(variant@, bytes@, outcome is Ok),
{
    match outcome {
        Ok(_) => Response::image(variant.format.content_type(), OriginStatus::Origin, bytes),
        Err(_) => Response::text(500, "Failed to write to cache"),
    }
}

/// The answer when the cache connection cannot be had.
pub fn connection_failure() -> (response: Response)
    ensures
        response@ == text_answer(500, "Connection error with redis"@),
{
    Response::text(500, "Connection error with redis")
}

/// The answer that a read of a valid variant ends in, given what the cache
/// replied, what the store held, and whether the write to the cache went
/// through.
pub open spec fn read_answer(
    variant: VariantModel,
    blob: Option<Seq<u8>>,
    stored: Option<Seq<u8>>,
    written: bool,
) -> ResponseModel {
    match after_cache(variant, blob) {
        ReadStepModel::Reply(response) => response,
        _ => match after_origin(variant, stored) {
            ReadStepModel::WriteBack(same, encoded) => after_write_back(same, encoded, written),
            ReadStepModel::Reply(response) => response,
            _ => arbitrary(),
        },
    }
}

/// The bytes of the body of an answer that serves an image.
pub open spec fn served_bytes(response: ResponseModel) -> Option<Seq<u8>> {
    match response.body {
        BodyModel::Image(bytes) => Some(bytes),
        _ => None,
    }
}

/// An answer is marked as coming from the cache exactly when the cache held
/// a non-empty blob under the key, and then its body is that blob. An answer
/// marked as coming from the origin has the freshly rendered bytes as its
/// body.
pub proof fn lemma_origin_marker(
    variant: VariantModel,
    blob: Option<Seq<u8>>,
    stored: Option<Seq<u8>>,
    written: bool,
)
    ensures
        read_answer(variant, blob, stored, written).origin == Some(OriginStatus::Cache) <==> blob
            is Some,
        blob matches Some(bytes) ==> served_bytes(read_answer(variant, blob, stored, written))
            == Some(bytes),
        read_answer(variant, blob, stored, written).origin == Some(OriginStatus::Origin) ==> (
        stored matches Some(source) && rendering(variant.format, source, variant.size) matches Ok(
            encoded,
        ) && served_bytes(read_answer(variant, blob, stored, written)) == Some(encoded)),
{
}

/// A read whose artifact is missing from cache and store is answered with
/// 404 and no body.
pub proof fn lemma_missing_artifact(variant: VariantModel, written: bool)
    ensures
        read_answer(variant, None, None, written) == plain(404, BodyModel::Empty),
{
}

/// After a read that missed the cache, rendered a variant and wrote it
/// back, a read of the same variant within the time to live is served from
/// the cache, with the same bytes. The rendered bytes must not be empty: an
/// empty blob counts as absent.
pub proof fn lemma_warm_read(
    variant: VariantModel,
    store: Map<Seq<char>, Entry>,
    stored: Option<Seq<u8>>,
    first_at: nat,
    second_at: nat,
)
    requires
        first_at <= second_at < first_at + TTL_SECONDS,
        after_origin(variant, stored) matches ReadStepModel::WriteBack(_, encoded) && encoded.len()
            > 0,
    ensures
        after_origin(variant, stored) matches ReadStepModel::WriteBack(same, encoded) && {
            let warmed = store_after_all(store, put_commands(variant.key(), encoded), first_at);
            let blob = present(store_lookup(warmed, variant.key(), second_at));
            &&& blob == Some(encoded)
            &&& read_answer(variant, blob, stored, true) == image_answer(
                format_content_type(variant.format),
                OriginStatus::Cache,
                encoded,
            )
        },
{
    if let ReadStepModel::WriteBack(same, encoded) = after_origin(variant, stored) {
        lemma_put_then_lookup(store, variant.key(), encoded, first_at, second_at);
    }
}

/// A variant rendered from a stored PNG is the PNG encoding of a picture
/// that is exactly `size` pixels wide and `size` pixels high.
pub proof fn lemma_rendered_png_is_square(bytes: Seq<u8>, size: nat)
    ensures
        png_rendering(bytes, size) matches Ok(encoded) ==> exists|picture: Picture|
            picture.width == size && picture.height == size && #[trigger] png_encoding(picture)
                == Some(encoded),
{
    if let Ok(encoded) = png_rendering(bytes, size) {
        let picture = scaled(png_picture(bytes)->0, size);
        assert(png_encoding(picture) == Some(encoded));
    }
}

/// The variant of side `size` of a still upload: it is asked for under the
/// upload's class and identifier, by its content hash, as a PNG.
pub open spec fn variant_of_upload(id: Seq<char>, image: Seq<u8>, size: nat) -> VariantModel {
    VariantModel {
        resource: upload_class(),
        id,
        image_hash: content_hash_of(image),
        format: ImageFormat::Png,
        size,
    }
}

/// A still upload that was stored is served at every listed size, provided
/// that the codec reads the stored file back and encodes the resampled
/// picture. The read asks the store for the very file that the upload
/// wrote. On a cold cache the answer is 200 with media type `image/png`,
/// marked as coming from the origin; its body is the PNG encoding of a
/// picture exactly `size` pixels wide and high, whatever the stored side;
/// and the same bytes are written to the cache under the key of the
/// variant, followed by the expiry.
pub proof fn lemma_read_after_upload(
    root: Seq<char>,
    id: Seq<char>,
    image: Seq<u8>,
    plan: PlanModel,
    size: nat,
)
    requires
        is_listed_size(size),
        upload_stores(root, id, image, Ok(plan)),
        plan.filename == still_name(content_hash_of(image)),
        png_rendering(plan.files[0].bytes, size) is Ok,
    ensures
        png_rendering(plan.files[0].bytes, size) matches Ok(encoded) && {
            let variant = variant_of_upload(id, image, size);
            let stored = plan.files[0].bytes;
            &&& variant.wf()
            &&& plan.directory == storage_dir(root, variant.resource, id)
            &&& plan.files[0].name == variant.filename()
            &&& after_cache(variant, None) == ReadStepModel::Fetch(variant)
            &&& after_origin(variant, Some(stored)) == ReadStepModel::WriteBack(variant, encoded)
            &&& put_commands(variant.key(), encoded) == seq![
                CommandModel::SetValue(
                    cache_key(id, content_hash_of(image), "png"@, size),
                    encoded,
                ),
                CommandModel::Expire(
                    cache_key(id, content_hash_of(image), "png"@, size),
                    TTL_SECONDS as nat,
                ),
            ]
            &&& read_answer(variant, None, Some(stored), true) == image_answer(
                "image/png"@,
                OriginStatus::Origin,
                encoded,
            )
            &&& exists|picture: Picture|
                picture.width == size && picture.height == size && #[trigger] png_encoding(picture)
                    == Some(encoded)
        },
{
    reveal_strlit(".png");
    reveal_strlit(".");
    reveal_strlit("png");
    let hash = content_hash_of(image);
    let directory = storage_dir(root, upload_class(), id);
    crate::storage::lemma_plan_shape(directory, true, image, hash, plan);
    let stored = plan.files[0].bytes;
    let variant = variant_of_upload(id, image, size);
    assert(still_name(hash) =~= variant.filename());
    lemma_rendered_png_is_square(stored, size);
}

} // verus!

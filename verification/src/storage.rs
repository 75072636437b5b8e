//! The content-addressed store: where an artifact lives, under which name,
//! and what is written for an upload.
//!
//! The store decides; it does not touch the filesystem. [`Storage::put`]
//! returns a [`StorePlan`] that names the directory, says whether it is
//! emptied first, and lists the files to write with their bytes.

use crate::imaging::all_well_formed;
use crate::imaging::cels_of;
use crate::imaging::crop;
use crate::imaging::decode_gif;
use crate::imaging::decode_still;
use crate::imaging::accepted_format;
use crate::imaging::decoded_still;
use crate::imaging::encode_gif;
use crate::imaging::encode_png;
use crate::imaging::gif_cels;
use crate::imaging::gif_encoding;
use crate::imaging::gif_opens;
use crate::imaging::guessed_format;
use crate::imaging::png_encoding;
use crate::imaging::sniff;
use crate::imaging::AnimFrame;
use crate::imaging::Cel;
use crate::imaging::CodecFault;
use crate::imaging::Looping;
use crate::imaging::Picture;
use crate::imaging::Raster;
use crate::imaging::Sniffed;
use crate::imaging::StillFormat;
use crate::resource::resource_name;
use crate::resource::Resource;
use crate::rest::read::GIF_SPEED;
use vstd::prelude::*;
use vstd::string::*;

verus! {

/// Why an upload was not stored.
#[derive(Debug, PartialEq, Eq)]
pub enum StorageError {
    /// The leading bytes are no known image header.
    InvalidFormat,
    /// The format is known but not accepted.
    UnsupportedFormat,
    /// The codec failed; its message.
    Codec(String),
    /// The filesystem failed; its message.
    Io(String),
}

/// The kinds of failure, without their messages.
#[derive(Debug, Clone, Copy, PartialEq, Eq, Structural)]
pub enum FailureKind {
    InvalidFormat,
    UnsupportedFormat,
    Codec,
    Io,
}

impl StorageError {
    /// The kind of the failure.
    pub open spec fn kind_of(self) -> FailureKind {
        match self {
            StorageError::InvalidFormat => FailureKind::InvalidFormat,
            StorageError::UnsupportedFormat => FailureKind::UnsupportedFormat,
            StorageError::Codec(_) => FailureKind::Codec,
            StorageError::Io(_) => FailureKind::Io,
        }
    }

    /// The text of the failure.
    pub open spec fn text(self) -> Seq<char> {
        match self {
            StorageError::InvalidFormat => "Invalid file format"@,
            StorageError::UnsupportedFormat => "Unsupported image format"@,
            StorageError::Codec(message) => message@,
            StorageError::Io(message) => message@,
        }
    }

    /// The kind of the failure.
    pub fn kind(&self) -> (kind: FailureKind)
        ensures
            kind == self.kind_of(),
    {
        match self {
            StorageError::InvalidFormat => FailureKind::InvalidFormat,
            StorageError::UnsupportedFormat => FailureKind::UnsupportedFormat,
            StorageError::Codec(_) => FailureKind::Codec,
            StorageError::Io(_) => FailureKind::Io,
        }
    }

    /// The text of the failure.
    pub fn to_string(&self) -> (message: String)
        ensures
            message@ == self.text(),
    {
        match self {
            StorageError::InvalidFormat => String::from_str("Invalid file format"),
            StorageError::UnsupportedFormat => String::from_str("Unsupported image format"),
            StorageError::Codec(message) => message.clone(),
            StorageError::Io(message) => message.clone(),
        }
    }
}

/// A file to write: its name inside the directory, and its bytes.
#[derive(Debug, PartialEq, Eq)]
pub struct StoredFile {
    pub name: String,
    pub bytes: Vec<u8>,
}

/// What the filesystem is to do for one upload.
#[derive(Debug, PartialEq, Eq)]
pub struct StorePlan {
    /// The directory of the artifact; it is created if it is missing.
    pub directory: String,
    /// Whether every regular file in the directory is deleted before the
    /// files are written.
    pub purge: bool,
    /// The files to write, in this order, each created or truncated.
    pub files: Vec<StoredFile>,
    /// The name that the upload is known by.
    pub filename: String,
}

/// A file as a mathematical value.
pub ghost struct FileModel {
    pub name: Seq<char>,
    pub bytes: Seq<u8>,
}

/// A plan as a mathematical value.
pub ghost struct PlanModel {
    pub directory: Seq<char>,
    pub purge: bool,
    pub files: Seq<FileModel>,
    pub filename: Seq<char>,
}

impl View for StoredFile {
    type V = FileModel;

    open spec fn view(&self) -> FileModel {
        FileModel { name: self.name@, bytes: self.bytes@ }
    }
}

impl View for StorePlan {
    type V = PlanModel;

    open spec fn view(&self) -> PlanModel {
        PlanModel {
            directory: self.directory@,
            purge: self.purge,
            files: self.files@.map_values(|file: StoredFile| file@),
            filename: self.filename@,
        }
    }
}

/// The bytes of an optional blob.
pub open spec fn blob_view(blob: Option<Vec<u8>>) -> Option<Seq<u8>> {
    match blob {
        Some(bytes) => Some(bytes@),
        None => None,
    }
}

/// The directory of an artifact: root, class and identifier, joined by
/// slashes.
pub open spec fn storage_dir(root: Seq<char>, resource: Resource, id: Seq<char>) -> Seq<char> {
    root + "/"@ + resource_name(resource) + "/"@ + id
}

/// The name of the still picture stored for an upload that is no animation.
pub open spec fn still_name(hash: Seq<char>) -> Seq<char> {
    hash + ".png"@
}

/// The name of the still picture stored beside an animation.
pub open spec fn animated_still_name(hash: Seq<char>) -> Seq<char> {
    "a_"@ + hash + ".png"@
}

/// The name of a stored animation.
pub open spec fn animation_name(hash: Seq<char>) -> Seq<char> {
    "a_"@ + hash + ".gif"@
}

/// The smaller of two extents.
pub open spec fn shorter_side(width: nat, height: nat) -> nat {
    if width <= height {
        width
    } else {
        height
    }
}

/// The centred square of a picture: its side is the shorter side, and what
/// is cut away is split evenly, the odd pixel going to the right and bottom.
pub open spec fn square(picture: Picture) -> Picture {
    let side = shorter_side(picture.width, picture.height);
    picture.region(
        ((picture.width - side) / 2) as nat,
        ((picture.height - side) / 2) as nat,
        side,
        side,
    )
}

/// A frame cut to its centred square, with placement and delay kept.
pub open spec fn squared_cel(cel: Cel) -> Cel {
    Cel {
        picture: square(cel.picture),
        left: 0,
        top: 0,
        delay_numer: cel.delay_numer,
        delay_denom: cel.delay_denom,
    }
}

/// The plan for a still upload whose square encodes to `png`.
pub open spec fn still_plan(directory: Seq<char>, purge: bool, hash: Seq<char>, png: Seq<u8>) -> PlanModel {
    PlanModel {
        directory,
        purge,
        files: seq![FileModel { name: still_name(hash), bytes: png }],
        filename: still_name(hash),
    }
}

/// The plan for an animated upload: the still of the first frame, if there
/// is a frame, then the animation.
pub open spec fn animated_plan(
    directory: Seq<char>,
    purge: bool,
    hash: Seq<char>,
    png: Option<Seq<u8>>,
    gif: Seq<u8>,
) -> PlanModel {
    let animation = FileModel { name: animation_name(hash), bytes: gif };
    PlanModel {
        directory,
        purge,
        files: match png {
            Some(bytes) => seq![FileModel { name: animated_still_name(hash), bytes }, animation],
            None => seq![animation],
        },
        filename: animated_still_name(hash),
    }
}

/// What is stored for a decoded still picture: the PNG encoding of its
/// centred square, in 8-bit RGBA.
pub open spec fn storing_picture(directory: Seq<char>, purge: bool, hash: Seq<char>, picture: Picture) -> Result<
    PlanModel,
    FailureKind,
> {
    match png_encoding(square(picture)) {
        None => Err(FailureKind::Codec),
        Some(png) => Ok(still_plan(directory, purge, hash, png)),
    }
}

/// What is stored for a PNG or WebP upload: what is stored for the picture
/// that it decodes to.
pub open spec fn storing_still(
    directory: Seq<char>,
    purge: bool,
    data: Seq<u8>,
    hash: Seq<char>,
    format: StillFormat,
) -> Result<PlanModel, FailureKind> {
    match decoded_still(data, format) {
        None => Err(FailureKind::Codec),
        Some(picture) => storing_picture(directory, purge, hash, picture),
    }
}

/// Whether `outcome` is a way in which a JPEG upload may be stored. The
/// decoder of JPEG may give pictures that differ between machines, so the
/// outcome is not fixed by the bytes: it is a codec failure, or what is
/// stored for some well-formed picture.
pub open spec fn stores_jpeg(
    directory: Seq<char>,
    purge: bool,
    hash: Seq<char>,
    outcome: Result<PlanModel, FailureKind>,
) -> bool {
    outcome == Err::<PlanModel, FailureKind>(FailureKind::Codec) || exists|picture: Picture|
        picture.wf() && outcome == #[trigger] storing_picture(directory, purge, hash, picture)
}

/// Whether `outcome` is a way in which a still upload in a given format may
/// be stored.
pub open spec fn stores_still(
    directory: Seq<char>,
    purge: bool,
    data: Seq<u8>,
    hash: Seq<char>,
    format: StillFormat,
    outcome: Result<PlanModel, FailureKind>,
) -> bool {
    if format == StillFormat::Jpeg {
        stores_jpeg(directory, purge, hash, outcome)
    } else {
        outcome == storing_still(directory, purge, data, hash, format)
    }
}

/// What is stored for an animated upload.
pub open spec fn storing_animation(
    directory: Seq<char>,
    purge: bool,
    data: Seq<u8>,
    hash: Seq<char>,
) -> Result<PlanModel, FailureKind> {
    if !gif_opens(data) {
        Err(FailureKind::Codec)
    } else {
        match gif_cels(data) {
            None => Err(FailureKind::Codec),
            Some(cels) => {
                let squares = cels.map_values(|cel: Cel| squared_cel(cel));
                let still = if cels.len() > 0 {
                    Some(png_encoding(squares[0].picture))
                } else {
                    None
                };
                if still == Some(None::<Seq<u8>>) {
                    Err(FailureKind::Codec)
                } else {
                    match gif_encoding(squares, GIF_SPEED as int, Looping::Infinite) {
                        None => Err(FailureKind::Codec),
                        Some(gif) => Ok(
                            animated_plan(
                                directory,
                                purge,
                                hash,
                                match still {
                                    Some(png) => png,
                                    None => None,
                                },
                                gif,
                            ),
                        ),
                    }
                }
            },
        }
    }
}

/// Whether `outcome` is a way in which an upload may be stored: the plan,
/// or the kind of failure. But for JPEG uploads the bytes fix the outcome.
pub open spec fn stores(
    directory: Seq<char>,
    purge: bool,
    data: Seq<u8>,
    hash: Seq<char>,
    outcome: Result<PlanModel, FailureKind>,
) -> bool {
    match guessed_format(data) {
        Sniffed::Unknown => outcome == Err::<PlanModel, FailureKind>(FailureKind::InvalidFormat),
        Sniffed::Other => outcome == Err::<PlanModel, FailureKind>(FailureKind::UnsupportedFormat),
        Sniffed::Gif => outcome == storing_animation(directory, purge, data, hash),
        Sniffed::Jpeg => stores_jpeg(directory, purge, hash, outcome),
        Sniffed::Png => outcome == storing_still(directory, purge, data, hash, StillFormat::Png),
        Sniffed::WebP => outcome == storing_still(directory, purge, data, hash, StillFormat::WebP),
    }
}

/// The outcome of a planning as a mathematical value: the plan, or the kind
/// of the failure.
pub open spec fn outcome_of(planned: Result<StorePlan, StorageError>) -> Result<PlanModel, FailureKind> {
    match planned {
        Ok(plan) => Ok(plan@),
        Err(error) => Err(error.kind_of()),
    }
}

/// The centred square of an extent: left edge, top edge and side.
pub fn square_region(width: u32, height: u32) -> (region: (u32, u32, u32))
    ensures
        region.2 == shorter_side(width as nat, height as nat),
        region.0 == (width - region.2) / 2,
        region.1 == (height - region.2) / 2,
        region.0 + region.2 <= width,
        region.1 + region.2 <= height,
{
    let side = if width <= height {
        width
    } else {
        height
    };
    let top = (height - side) / 2;
    let left = (width - side) / 2;
    (left, top, side)
}

/// Cuts a picture to its centred square.
pub fn crop_to_square(image: &Raster) -> (cut: Raster)
    requires
        image.wf(),
    ensures
        cut.wf(),
        cut@ == square(image@),
{
    let (left, top, side) = square_region(image.width, image.height);
    crop(image, left, top, side, side)
}

/// Cuts every frame of an animation to its centred square, places it at the
/// origin and keeps its delay.
pub fn crop_frames(frames: &Vec<AnimFrame>) -> (out: Vec<AnimFrame>)
    requires
        all_well_formed(frames@),
    ensures
        all_well_formed(out@),
        cels_of(out@) == cels_of(frames@).map_values(|cel: Cel| squared_cel(cel)),
{
    let mut out: Vec<AnimFrame> = Vec::new();
    let mut i: usize = 0;
    while i < frames.len()
        invariant
            all_well_formed(frames@),
            i <= frames.len(),
            out.len() == i,
            all_well_formed(out@),
            forall|k: int| 0 <= k < i ==> (#[trigger] out[k])@ == squared_cel(frames[k]@),
        decreases frames.len() - i,
    {
        let frame = &frames[i];
        assert(frame.wf());
        let picture = crop_to_square(&frame.picture);
        out.push(
            AnimFrame {
                picture,
                left: 0,
                top: 0,
                delay_numer: frame.delay_numer,
                delay_denom: frame.delay_denom,
            },
        );
        i = i + 1;
    }
    assert(cels_of(out@) =~= cels_of(frames@).map_values(|cel: Cel| squared_cel(cel)));
    out
}

/// The store: a root directory under which every artifact lives.
#[derive(Debug, Clone, PartialEq, Eq)]
pub struct Storage {
    storage_path: String,
}

impl Storage {
    pub fn new(storage_path: &str) -> (storage: Self)
        ensures
            storage.root() == storage_path@,
    {
        Storage { storage_path: String::from_str(storage_path) }
    }

    /// The root directory.
    pub closed spec fn root(&self) -> Seq<char> {
        self.storage_path@
    }

    /// The directory of an artifact.
    pub fn path(&self, resource: &Resource, id: &str) -> (directory: String)
        ensures
            directory@ == storage_dir(self.root(), *resource, id@),
    {
        let mut directory = self.storage_path.clone();
        directory.append("/");
        directory.append(resource.as_str());
        directory.append("/");
        directory.append(id);
        directory
    }

    /// The path of a file of an artifact.
    pub fn file_path(&self, resource: &Resource, id: &str, filename: &str) -> (path: String)
        ensures
            path@ == storage_dir(self.root(), *resource, id@) + "/"@ + filename@,
    {
        let mut path = self.path(resource, id);
        path.append("/");
        path.append(filename);
        path
    }

    /// Plans the storing of an upload: detects its format, decodes it, cuts
    /// it to its centred square, encodes it again, and names the files.
    ///
    /// The stored PNG is always 8-bit RGBA. A source of another colour type
    /// (a JPEG, a grey or sixteen-bit PNG) is converted when it is decoded,
    /// so the stored file does not keep the colour type of the upload; a
    /// source that has no alpha channel is stored fully opaque. Nothing is
    /// resized here.
    ///
    /// A payload that begins with the signature of PNG, JPEG, GIF or WebP is
    /// decoded as that format and fails only in the codec; any other payload
    /// is refused. The outcome is fixed by the bytes, but for a JPEG, whose
    /// decoded samples may differ between machines.
    pub fn put(&self, resource: Resource, id: &str, image_data: Vec<u8>, hash: &str) -> (planned:
        Result<StorePlan, StorageError>)
        ensures
            stores(
                storage_dir(self.root(), resource, id@),
                true,
                image_data@,
                hash@,
                outcome_of(planned),
            ),
            match accepted_format(image_data@) {
                Some(_) => planned matches Err(error) ==> error.kind_of() == FailureKind::Codec,
                None => planned is Err,
            },
    {
        let directory = self.path(&resource, id);
        let purge = resource.singleton();
        match sniff(image_data.as_slice()) {
            Sniffed::Unknown => Err(StorageError::InvalidFormat),
            Sniffed::Other => Err(StorageError::UnsupportedFormat),
            Sniffed::Gif => put_animation(directory, purge, image_data.as_slice(), hash),
            Sniffed::Jpeg => put_still(directory, purge, image_data.as_slice(), hash, StillFormat::Jpeg),
            Sniffed::Png => put_still(directory, purge, image_data.as_slice(), hash, StillFormat::Png),
            Sniffed::WebP => put_still(directory, purge, image_data.as_slice(), hash, StillFormat::WebP),
        }
    }
}

/// Plans the storing of a still upload. The picture is decoded to 8-bit
/// RGBA, cut to its centred square and encoded as a PNG of that colour type.
pub fn put_still(directory: String, purge: bool, data: &[u8], hash: &str, format: StillFormat) -> (planned:
    Result<StorePlan, StorageError>)
    ensures
        stores_still(directory@, purge, data@, hash@, format, outcome_of(planned)),
{
    match decode_still(data, format) {
        Ok(image) => {
            let planned = store_still(directory, purge, hash, &image);
            assert(image@.wf() && outcome_of(planned) == storing_picture(
                directory@,
                purge,
                hash@,
                image@,
            ));
            planned
        },
        Err(message) => Err(StorageError::Codec(message)),
    }
}

/// Plans the storing of a decoded still picture: cuts it to its centred
/// square, encodes the square as a PNG and names the file.
pub fn store_still(directory: String, purge: bool, hash: &str, image: &Raster) -> (planned: Result<
    StorePlan,
    StorageError,
>)
    requires
        image.wf(),
    ensures
        outcome_of(planned) == storing_picture(directory@, purge, hash@, image@),
{
    let cut = crop_to_square(image);
    match encode_png(&cut) {
        Ok(png) => Ok(plan_still(directory, purge, hash, png)),
        Err(message) => Err(StorageError::Codec(message)),
    }
}

/// Plans the storing of an animated upload.
pub fn put_animation(directory: String, purge: bool, data: &[u8], hash: &str) -> (planned: Result<
    StorePlan,
    StorageError,
>)
    ensures
        outcome_of(planned) == storing_animation(directory@, purge, data@, hash@),
{
    let frames = match decode_gif(data) {
        Ok(frames) => frames,
        Err(fault) => {
            return Err(StorageError::Codec(fault_text(fault)));
        },
    };
    let squares = crop_frames(&frames);
    proof {
        let cut = cels_of(frames@).map_values(|cel: Cel| squared_cel(cel));
        assert(cels_of(squares@) == cut);
        assert(cut.len() == frames.len());
        assert(cels_of(squares@).len() == squares.len());
        if squares.len() > 0 {
            assert(cels_of(squares@)[0] == squares[0]@);
        }
    }
    let still = if squares.len() > 0 {
        assert(squares[0].wf());
        match encode_png(&squares[0].picture) {
            Ok(png) => Some(png),
            Err(message) => {
                return Err(StorageError::Codec(message));
            },
        }
    } else {
        None
    };
    match encode_gif(&squares, GIF_SPEED, Looping::Infinite) {
        Ok(gif) => Ok(plan_animation(directory, purge, hash, still, gif)),
        Err(message) => Err(StorageError::Codec(message)),
    }
}

/// The message of a codec failure.
pub fn fault_text(fault: CodecFault) -> (message: String)
    ensures
        message@ == match fault {
            CodecFault::Open(text) => text@,
            CodecFault::Decode(text) => text@,
            CodecFault::Encode(text) => text@,
        },
{
    match fault {
        CodecFault::Open(text) => text,
        CodecFault::Decode(text) => text,
        CodecFault::Encode(text) => text,
    }
}

/// Names the file of a still upload and lists it.
pub fn plan_still(directory: String, purge: bool, hash: &str, png: Vec<u8>) -> (plan: StorePlan)
    ensures
        plan@ == still_plan(directory@, purge, hash@, png@),
{
    let mut filename = String::from_str(hash);
    filename.append(".png");
    let mut files: Vec<StoredFile> = Vec::new();
    files.push(StoredFile { name: filename.clone(), bytes: png });
    let plan = StorePlan { directory, purge, files, filename };
    assert(plan@.files =~= still_plan(directory@, purge, hash@, png@).files);
    plan
}

/// Names the files of an animated upload and lists them, the still first.
pub fn plan_animation(directory: String, purge: bool, hash: &str, png: Option<Vec<u8>>, gif: Vec<u8>) -> (plan:
    StorePlan)
    ensures
        plan@ == animated_plan(directory@, purge, hash@, blob_view(png), gif@),
{
    let mut png_filename = String::from_str("a_");
    png_filename.append(hash);
    png_filename.append(".png");
    let mut gif_filename = String::from_str("a_");
    gif_filename.append(hash);
    gif_filename.append(".gif");
    let mut files: Vec<StoredFile> = Vec::new();
    let ghost png_view = blob_view(png);
    match png {
        Some(bytes) => {
            files.push(StoredFile { name: png_filename.clone(), bytes });
        },
        None => {},
    }
    files.push(StoredFile { name: gif_filename, bytes: gif });
    let plan = StorePlan { directory, purge, files, filename: png_filename };
    assert(plan@.files =~= animated_plan(directory@, purge, hash@, png_view, gif@).files);
    plan
}

/// The position of the last full stop of a name, if it has one.
pub open spec fn last_dot(name: Seq<char>) -> Option<int>
    decreases name.len(),
{
    if name.len() == 0 {
        None
    } else if name.last() == '.' {
        Some(name.len() - 1)
    } else {
        last_dot(name.drop_last())
    }
}

/// The stem of a stored name: the name without the animated marker `a_` in
/// front and without its extension.
pub open spec fn stem(name: Seq<char>) -> Seq<char> {
    let unmarked = if "a_"@.is_prefix_of(name) {
        name.skip(2)
    } else {
        name
    };
    match last_dot(unmarked) {
        Some(dot) => unmarked.take(dot),
        None => unmarked,
    }
}

/// Whether a text holds lowercase hexadecimal digits only.
pub open spec fn is_hex_text(text: Seq<char>) -> bool {
    forall|i: int| 0 <= i < text.len() ==> crate::digest::is_lower_hex(#[trigger] text[i])
}

/// The last full stop of a hexadecimal text followed by `.png` or `.gif` is
/// the one that starts the extension.
proof fn lemma_last_dot_of_name(hash: Seq<char>, ext: Seq<char>)
    requires
        ext == ".png"@ || ext == ".gif"@,
    ensures
        last_dot(hash + ext) == Some(hash.len() as int),
{
    reveal_strlit(".png");
    reveal_strlit(".gif");
    let name = hash + ext;
    let n3 = name.drop_last();
    let n2 = n3.drop_last();
    let n1 = n2.drop_last();
    assert(name.last() == ext[3]);
    assert(n3.last() == ext[2]);
    assert(n2.last() == ext[1]);
    assert(n1.last() == ext[0]);
    assert(n1.len() == hash.len() + 1);
    reveal_with_fuel(last_dot, 5);
}

/// The stored names of an upload have its hash as their stem: both the plain
/// still name and the names that carry the animated marker.
pub proof fn lemma_stem_is_hash(hash: Seq<char>)
    requires
        is_hex_text(hash),
        hash.len() >= 2,
    ensures
        stem(still_name(hash)) == hash,
        stem(animated_still_name(hash)) == hash,
        stem(animation_name(hash)) == hash,
{
    reveal_strlit("a_");
    reveal_strlit(".png");
    reveal_strlit(".gif");
    lemma_last_dot_of_name(hash, ".png"@);
    lemma_last_dot_of_name(hash, ".gif"@);
    let plain_name = still_name(hash);
    assert(!"a_"@.is_prefix_of(plain_name)) by {
        assert(crate::digest::is_lower_hex(hash[1]));
        assert(plain_name[1] == hash[1]);
        assert("a_"@[1] == '_');
        if "a_"@.is_prefix_of(plain_name) {
            assert(plain_name.subrange(0, 2)[1] == "a_"@[1]);
        }
    }
    assert((hash + ".png"@).take(hash.len() as int) =~= hash);
    assert((hash + ".gif"@).take(hash.len() as int) =~= hash);
    let still = animated_still_name(hash);
    assert("a_"@.is_prefix_of(still)) by {
        assert(still.subrange(0, 2) =~= "a_"@);
    }
    assert(still.skip(2) =~= hash + ".png"@);
    let animation = animation_name(hash);
    assert("a_"@.is_prefix_of(animation)) by {
        assert(animation.subrange(0, 2) =~= "a_"@);
    }
    assert(animation.skip(2) =~= hash + ".gif"@);
}

/// A plan for an upload keeps the directory and the purge flag it was
/// given, is known by a still name of the hash, and lists one or two files
/// with different names: the still alone under the plain name, or under
/// the marked names the animation with or without its still.
pub proof fn lemma_plan_shape(
    directory: Seq<char>,
    purge: bool,
    data: Seq<u8>,
    hash: Seq<char>,
    plan: PlanModel,
)
    requires
        stores(directory, purge, data, hash, Ok(plan)),
    ensures
        plan.directory == directory,
        plan.purge == purge,
        plan.filename == still_name(hash) || plan.filename == animated_still_name(hash),
        1 <= plan.files.len() <= 2,
        plan.files.len() == 2 ==> plan.files[0].name != plan.files[1].name,
        plan.filename == still_name(hash) <==> guessed_format(data) != Sniffed::Gif,
        plan.filename == still_name(hash) ==> plan.files.len() == 1 && plan.files[0].name
            == still_name(hash),
{
    reveal_strlit("a_");
    reveal_strlit(".png");
    reveal_strlit(".gif");
    let still = animated_still_name(hash);
    let animation = animation_name(hash);
    assert(still != animation) by {
        assert(still[still.len() - 1] == 'g');
        assert(animation[animation.len() - 1] == 'f');
    }
    assert(still.len() != still_name(hash).len());
}

/// The regular files of a directory after `files` were written into it, one
/// after the other, each created or replaced.
pub open spec fn written(directory: Map<Seq<char>, Seq<u8>>, files: Seq<FileModel>) -> Map<
    Seq<char>,
    Seq<u8>,
>
    decreases files.len(),
{
    if files.len() == 0 {
        directory
    } else {
        written(directory, files.drop_last()).insert(files.last().name, files.last().bytes)
    }
}

/// The regular files of a directory after a plan was carried out: the
/// directory is emptied first if the plan says so, then the files are
/// written.
pub open spec fn carried_out(directory: Map<Seq<char>, Seq<u8>>, plan: PlanModel) -> Map<
    Seq<char>,
    Seq<u8>,
> {
    written(
        if plan.purge {
            Map::empty()
        } else {
            directory
        },
        plan.files,
    )
}

/// After a plan for a singleton class was carried out, the directory holds
/// the files of the plan and no others, each with the bytes of the plan,
/// whatever it held before.
pub proof fn lemma_singleton_directory(
    before: Map<Seq<char>, Seq<u8>>,
    directory: Seq<char>,
    data: Seq<u8>,
    hash: Seq<char>,
    plan: PlanModel,
)
    requires
        stores(directory, true, data, hash, Ok(plan)),
    ensures
        forall|name: Seq<char>| #[trigger]
            carried_out(before, plan).contains_key(name) <==> exists|i: int|
                0 <= i < plan.files.len() && (#[trigger] plan.files[i]).name == name,
        forall|i: int|
            0 <= i < plan.files.len() ==> carried_out(before, plan)[(#[trigger] plan.files[i]).name]
                == plan.files[i].bytes,
{
    lemma_plan_shape(directory, true, data, hash, plan);
    reveal_with_fuel(written, 3);
    let after = carried_out(before, plan);
    let files = plan.files;
    if files.len() == 1 {
        assert(files.drop_last().len() == 0);
        assert(after =~= Map::<Seq<char>, Seq<u8>>::empty().insert(files[0].name, files[0].bytes));
        assert forall|name: Seq<char>| #[trigger]
            after.contains_key(name) <==> exists|i: int|
                0 <= i < files.len() && (#[trigger] files[i]).name == name by {
            if after.contains_key(name) {
                assert(files[0].name == name);
            }
        }
    } else {
        let first = files.drop_last();
        assert(first.len() == 1);
        assert(first.drop_last().len() == 0);
        assert(first.last() == files[0]);
        assert(files.last() == files[1]);
        assert(after =~= Map::<Seq<char>, Seq<u8>>::empty().insert(
            files[0].name,
            files[0].bytes,
        ).insert(files[1].name, files[1].bytes));
        assert forall|name: Seq<char>| #[trigger]
            after.contains_key(name) <==> exists|i: int|
                0 <= i < files.len() && (#[trigger] files[i]).name == name by {
            if after.contains_key(name) {
                if name == files[0].name {
                    assert(files[0].name == name);
                } else {
                    assert(files[1].name == name);
                }
            }
        }
    }
}

} // verus!

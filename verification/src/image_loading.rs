//! The image acquisition pipeline: pixel-buffer normalization and the
//! multi-codec decode chain with graceful fallback.
//!
//! The chain tries a format-specific fast decoder selected by the lowercased
//! file extension, then the format-sniffing generic decoder asking for RGB,
//! then for RGBA, and finally a caller-supplied placeholder asset put through
//! the same chain; only a placeholder that itself fails every stage is a
//! fatal error. Whichever stage succeeds, its raw output passes through the
//! normalizer before it is returned.

use vstd::prelude::*;

use crate::codecs::{
    generic_rgb, generic_rgb_decode, generic_rgba, generic_rgba_decode, jpeg_fast,
    jpeg_rgba_decode, png_fast, png_fast_decode, qoi_fast, qoi_fast_decode,
};
use crate::paths::{jfif_ext, jpg_ext, lower_spec, png_ext, qoi_ext};

verus! {

/// The channel layout of a decoded pixel buffer: 3 bytes per pixel (RGB) or
/// 4 (RGBA).
#[derive(Debug, PartialEq, Eq, Structural, Clone, Copy)]
pub enum Channels {
    Rgb,
    Rgba,
}

impl Channels {
    /// Bytes per pixel: 3 for RGB, 4 for RGBA.
    pub open spec fn count_spec(self) -> int {
        match self {
            Channels::Rgb => 3,
            Channels::Rgba => 4,
        }
    }

    /// Bytes per pixel: 3 for RGB, 4 for RGBA.
    pub fn count(&self) -> (n: u8)
        ensures
            n == self.count_spec(),
    {
        match self {
            Channels::Rgb => 3,
            Channels::Rgba => 4,
        }
    }
}

/// One decode attempt's typed failure reason. Every variant is recovered
/// from locally by advancing to the next decode stage; only the terminal
/// placeholder failing as well is fatal.
#[derive(Debug, PartialEq, Eq, Structural, Clone, Copy)]
pub enum DecodeError {
    UnsupportedExtension,
    CorruptData,
    UnsupportedColorMode,
    IoError,
    SizeMismatch,
}

/// The one unrecoverable condition in the pipeline: the requested file and
/// the placeholder asset both failed every decode stage. Carries both
/// failure reasons.
#[derive(Debug, PartialEq, Eq, Structural, Clone, Copy)]
pub struct FatalDecodeError {
    pub file_error: DecodeError,
    pub placeholder_error: DecodeError,
}

/// Mathematical value of a `DecodedImage`.
#[verifier::ext_equal]
pub struct ImageV {
    pub width: u32,
    pub height: u32,
    pub channels: Channels,
    pub pixels: Seq<u8>,
}

impl ImageV {
    /// The buffer holds exactly one pixel's bytes per cell of the image.
    pub open spec fn wf(self) -> bool {
        self.pixels.len() == self.width * self.height * self.channels.count_spec()
    }
}

/// A validated decoded image: the pixel buffer's length is exactly
/// `width * height * channels`, enforced at construction by `normalize`.
#[derive(Debug)]
pub struct DecodedImage {
    width: u32,
    height: u32,
    channels: Channels,
    pixels: Vec<u8>,
}

impl View for DecodedImage {
    type V = ImageV;

    closed spec fn view(&self) -> ImageV {
        ImageV {
            width: self.width,
            height: self.height,
            channels: self.channels,
            pixels: self.pixels@,
        }
    }
}

/// What `normalize` returns: the canonical image value when the buffer
/// length matches the declared dimensions exactly, a size mismatch
/// otherwise.
pub open spec fn normalize_spec(width: u32, height: u32, channels: Channels, bytes: Seq<u8>) -> Result<
    ImageV,
    DecodeError,
> {
    if bytes.len() == width * height * channels.count_spec() {
        Ok(ImageV { width, height, channels, pixels: bytes })
    } else {
        Err(DecodeError::SizeMismatch)
    }
}

/// Validates raw decoded bytes against the declared dimensions and channel
/// count. Pure; fails if and only if the buffer length differs from
/// `width * height * channels`. This is the single point that keeps
/// malformed decoder output from reaching the renderer.
pub fn normalize(width: u32, height: u32, channels: Channels, bytes: Vec<u8>) -> (r: Result<
    DecodedImage,
    DecodeError,
>)
    ensures
        match r {
            Ok(img) => normalize_spec(width, height, channels, bytes@) == Ok::<ImageV, DecodeError>(
                img@,
            ) && img@.wf(),
            Err(e) => normalize_spec(width, height, channels, bytes@) == Err::<ImageV, DecodeError>(
                e,
            ),
        },
{
    proof {
        lemma_pixel_count_fits(width, height);
    }
    let count = channels.count();
    let need: u128 = (width as u128) * (height as u128) * (count as u128);
    if (bytes.len() as u128) == need {
        Ok(DecodedImage { width, height, channels, pixels: bytes })
    } else {
        Err(DecodeError::SizeMismatch)
    }
}

/// The pixel count of any `u32 x u32` image times at most 4 channels fits
/// comfortably in a `u128`.
proof fn lemma_pixel_count_fits(width: u32, height: u32)
    ensures
        width * height * 4 <= u128::MAX,
        width * height * 3 <= u128::MAX,
{
    assert(width * height * 4 <= (u32::MAX as int) * (u32::MAX as int) * 4) by (nonlinear_arith)
        requires
            width <= u32::MAX,
            height <= u32::MAX,
    ;
    assert(width * height * 3 <= width * height * 4) by (nonlinear_arith)
        requires
            0 <= width * height,
    ;
}

impl DecodedImage {
    pub fn width(&self) -> (w: u32)
        ensures
            w == self@.width,
    {
        self.width
    }

    pub fn height(&self) -> (h: u32)
        ensures
            h == self@.height,
    {
        self.height
    }

    pub fn channels(&self) -> (c: Channels)
        ensures
            c == self@.channels,
    {
        self.channels
    }

    /// The image's `(width, height)`.
    pub fn get_size(&self) -> (s: (u32, u32))
        ensures
            s.0 == self@.width,
            s.1 == self@.height,
    {
        (self.width, self.height)
    }

    pub fn pixels(&self) -> (p: &Vec<u8>)
        ensures
            p@ == self@.pixels,
    {
        &self.pixels
    }

    /// Hands the validated pixel buffer off to the renderer.
    pub fn into_pixels(self) -> (p: Vec<u8>)
        ensures
            p@ == self@.pixels,
    {
        self.pixels
    }
}

/// The decode strategy the fast path selects from a file extension.
#[derive(Debug, PartialEq, Eq, Structural, Clone, Copy)]
pub enum ExtKind {
    Jpeg,
    Png,
    Qoi,
    Other,
}

/// Fast-path dispatch on the lowercased extension: `jpg` and `jfif` go to
/// the JPEG decompressor, `png` and `qoi` to theirs, anything else to no
/// fast decoder at all.
pub open spec fn ext_kind_spec(e: Seq<u8>) -> ExtKind {
    let l = lower_spec(e);
    if l == jpg_ext() || l == jfif_ext() {
        ExtKind::Jpeg
    } else if l == png_ext() {
        ExtKind::Png
    } else if l == qoi_ext() {
        ExtKind::Qoi
    } else {
        ExtKind::Other
    }
}

/// Classifies an extension for the fast path.
pub fn ext_kind(e: &Vec<u8>) -> (k: ExtKind)
    ensures
        k == ext_kind_spec(e@),
{
    let l = crate::paths::to_lower(e);
    if crate::paths::eq3(&l, 'j' as u8, 'p' as u8, 'g' as u8) || crate::paths::eq4(
        &l,
        'j' as u8,
        'f' as u8,
        'i' as u8,
        'f' as u8,
    ) {
        ExtKind::Jpeg
    } else if crate::paths::eq3(&l, 'p' as u8, 'n' as u8, 'g' as u8) {
        ExtKind::Png
    } else if crate::paths::eq3(&l, 'q' as u8, 'o' as u8, 'i' as u8) {
        ExtKind::Qoi
    } else {
        ExtKind::Other
    }
}

/// Spec view of an optional borrowed byte buffer.
pub open spec fn opt_bytes_view(o: Option<&Vec<u8>>) -> Option<Seq<u8>> {
    match o {
        Some(v) => Some(v@),
        None => None,
    }
}

/// Outcome of the extension-selected fast stage: the named decoder's result,
/// normalized; a missing or unrecognized extension is an immediate failure,
/// and a PNG source color type other than truecolor / truecolor-alpha is a
/// recoverable unsupported-color-mode failure.
pub open spec fn fast_stage_spec(ext: Option<Seq<u8>>, bytes: Seq<u8>) -> Result<
    ImageV,
    DecodeError,
> {
    match ext {
        None => Err(DecodeError::UnsupportedExtension),
        Some(e) => match ext_kind_spec(e) {
            ExtKind::Jpeg => match jpeg_rgba_decode(bytes) {
                Some((w, h, p)) => normalize_spec(w, h, Channels::Rgba, p),
                None => Err(DecodeError::CorruptData),
            },
            ExtKind::Png => match png_fast_decode(bytes) {
                Some((w, h, c, p)) => if c == 3 {
                    normalize_spec(w, h, Channels::Rgb, p)
                } else if c == 4 {
                    normalize_spec(w, h, Channels::Rgba, p)
                } else {
                    Err(DecodeError::UnsupportedColorMode)
                },
                None => Err(DecodeError::CorruptData),
            },
            ExtKind::Qoi => match qoi_fast_decode(bytes) {
                Some((w, h, c, p)) => if c == 3 {
                    normalize_spec(w, h, Channels::Rgb, p)
                } else if c == 4 {
                    normalize_spec(w, h, Channels::Rgba, p)
                } else {
                    Err(DecodeError::CorruptData)
                },
                None => Err(DecodeError::CorruptData),
            },
            ExtKind::Other => Err(DecodeError::UnsupportedExtension),
        },
    }
}

/// Outcome of the generic 3-channel stage: the sniffing decoder's RGB
/// result, normalized; a decodable image that is not 8-bit RGB is an
/// unsupported color mode.
pub open spec fn generic_rgb_spec(bytes: Seq<u8>) -> Result<ImageV, DecodeError> {
    match generic_rgb_decode(bytes) {
        Some(Some((w, h, p))) => normalize_spec(w, h, Channels::Rgb, p),
        Some(None) => Err(DecodeError::UnsupportedColorMode),
        None => Err(DecodeError::CorruptData),
    }
}

/// Outcome of the generic 4-channel stage, as `generic_rgb_spec`.
pub open spec fn generic_rgba_spec(bytes: Seq<u8>) -> Result<ImageV, DecodeError> {
    match generic_rgba_decode(bytes) {
        Some(Some((w, h, p))) => normalize_spec(w, h, Channels::Rgba, p),
        Some(None) => Err(DecodeError::UnsupportedColorMode),
        None => Err(DecodeError::CorruptData),
    }
}

/// The ordered non-terminal chain on one file's bytes: fast stage, then
/// generic RGB, then generic RGBA; the first success wins and the last
/// stage's failure reason is reported.
pub open spec fn decode_attempt_spec(ext: Option<Seq<u8>>, bytes: Seq<u8>) -> Result<
    ImageV,
    DecodeError,
> {
    if fast_stage_spec(ext, bytes) is Ok {
        fast_stage_spec(ext, bytes)
    } else if generic_rgb_spec(bytes) is Ok {
        generic_rgb_spec(bytes)
    } else {
        generic_rgba_spec(bytes)
    }
}

/// One file's chain outcome when reading the file may itself have failed.
pub open spec fn decode_outcome_spec(ext: Option<Seq<u8>>, bytes: Option<Seq<u8>>) -> Result<
    ImageV,
    DecodeError,
> {
    match bytes {
        Some(b) => decode_attempt_spec(ext, b),
        None => Err(DecodeError::IoError),
    }
}

/// The full four-stage contract: the requested file's chain outcome, or the
/// placeholder's when the former fails, or the fatal pair of failure
/// reasons when both fail.
pub open spec fn load_image_spec(
    ext: Option<Seq<u8>>,
    bytes: Option<Seq<u8>>,
    placeholder_ext: Option<Seq<u8>>,
    placeholder_bytes: Option<Seq<u8>>,
) -> Result<ImageV, FatalDecodeError> {
    match decode_outcome_spec(ext, bytes) {
        Ok(img) => Ok(img),
        Err(file_error) => match decode_outcome_spec(placeholder_ext, placeholder_bytes) {
            Ok(img) => Ok(img),
            Err(placeholder_error) => Err(FatalDecodeError { file_error, placeholder_error }),
        },
    }
}

/// The extension-selected fast stage on one file's bytes.
fn fast_stage(ext: Option<&Vec<u8>>, bytes: &Vec<u8>) -> (r: Result<DecodedImage, DecodeError>)
    ensures
        match r {
            Ok(img) => fast_stage_spec(opt_bytes_view(ext), bytes@) == Ok::<ImageV, DecodeError>(
                img@,
            ) && img@.wf(),
            Err(e) => fast_stage_spec(opt_bytes_view(ext), bytes@) == Err::<ImageV, DecodeError>(e),
        },
{
    let e = match ext {
        Some(e) => e,
        None => {
            return Err(DecodeError::UnsupportedExtension);
        },
    };
    match ext_kind(e) {
        ExtKind::Jpeg => match jpeg_fast(bytes) {
            Ok((w, h, p)) => normalize(w, h, Channels::Rgba, p),
            Err(_) => Err(DecodeError::CorruptData),
        },
        ExtKind::Png => match png_fast(bytes) {
            Ok((w, h, c, p)) => {
                if c == 3 {
                    normalize(w, h, Channels::Rgb, p)
                } else if c == 4 {
                    normalize(w, h, Channels::Rgba, p)
                } else {
                    Err(DecodeError::UnsupportedColorMode)
                }
            },
            Err(_) => Err(DecodeError::CorruptData),
        },
        ExtKind::Qoi => match qoi_fast(bytes) {
            Ok((w, h, c, p)) => {
                if c == 3 {
                    normalize(w, h, Channels::Rgb, p)
                } else if c == 4 {
                    normalize(w, h, Channels::Rgba, p)
                } else {
                    Err(DecodeError::CorruptData)
                }
            },
            Err(_) => Err(DecodeError::CorruptData),
        },
        ExtKind::Other => Err(DecodeError::UnsupportedExtension),
    }
}

/// The generic 3-channel stage on one file's bytes.
fn generic_rgb_stage(bytes: &Vec<u8>) -> (r: Result<DecodedImage, DecodeError>)
    ensures
        match r {
            Ok(img) => generic_rgb_spec(bytes@) == Ok::<ImageV, DecodeError>(img@) && img@.wf(),
            Err(e) => generic_rgb_spec(bytes@) == Err::<ImageV, DecodeError>(e),
        },
{
    match generic_rgb(bytes) {
        Ok(Some((w, h, p))) => normalize(w, h, Channels::Rgb, p),
        Ok(None) => Err(DecodeError::UnsupportedColorMode),
        Err(_) => Err(DecodeError::CorruptData),
    }
}

/// The generic 4-channel stage on one file's bytes.
fn generic_rgba_stage(bytes: &Vec<u8>) -> (r: Result<DecodedImage, DecodeError>)
    ensures
        match r {
            Ok(img) => generic_rgba_spec(bytes@) == Ok::<ImageV, DecodeError>(img@) && img@.wf(),
            Err(e) => generic_rgba_spec(bytes@) == Err::<ImageV, DecodeError>(e),
        },
{
    match generic_rgba(bytes) {
        Ok(Some((w, h, p))) => normalize(w, h, Channels::Rgba, p),
        Ok(None) => Err(DecodeError::UnsupportedColorMode),
        Err(_) => Err(DecodeError::CorruptData),
    }
}

/// The ordered non-terminal decode chain on one file's bytes: fast stage by
/// extension, then generic RGB, then generic RGBA. Succeeds if and only if
/// some stage decodes the bytes to a buffer that the normalizer accepts.
pub fn decode_attempt(ext: Option<&Vec<u8>>, bytes: &Vec<u8>) -> (r: Result<
    DecodedImage,
    DecodeError,
>)
    ensures
        match r {
            Ok(img) => decode_attempt_spec(opt_bytes_view(ext), bytes@) == Ok::<
                ImageV,
                DecodeError,
            >(img@) && img@.wf(),
            Err(e) => decode_attempt_spec(opt_bytes_view(ext), bytes@) == Err::<
                ImageV,
                DecodeError,
            >(e),
        },
{
    match fast_stage(ext, bytes) {
        Ok(img) => Ok(img),
        Err(_) => match generic_rgb_stage(bytes) {
            Ok(img) => Ok(img),
            Err(_) => generic_rgba_stage(bytes),
        },
    }
}

/// The whole decode chain: the requested file's bytes through the
/// non-terminal chain, then the placeholder asset's bytes through the same
/// chain; `None` bytes stand for a file that could not be read. Fails only
/// when the placeholder fails too — the one unrecoverable condition.
pub fn load_image(
    ext: Option<&Vec<u8>>,
    bytes: Option<&Vec<u8>>,
    placeholder_ext: Option<&Vec<u8>>,
    placeholder_bytes: Option<&Vec<u8>>,
) -> (r: Result<DecodedImage, FatalDecodeError>)
    ensures
        match r {
            Ok(img) => load_image_spec(
                opt_bytes_view(ext),
                opt_bytes_view(bytes),
                opt_bytes_view(placeholder_ext),
                opt_bytes_view(placeholder_bytes),
            ) == Ok::<ImageV, FatalDecodeError>(img@) && img@.wf(),
            Err(e) => load_image_spec(
                opt_bytes_view(ext),
                opt_bytes_view(bytes),
                opt_bytes_view(placeholder_ext),
                opt_bytes_view(placeholder_bytes),
            ) == Err::<ImageV, FatalDecodeError>(e),
        },
{
    let first = match bytes {
        Some(b) => decode_attempt(ext, b),
        None => Err(DecodeError::IoError),
    };
    match first {
        Ok(img) => Ok(img),
        Err(file_error) => {
            let second = match placeholder_bytes {
                Some(b) => decode_attempt(placeholder_ext, b),
                None => Err(DecodeError::IoError),
            };
            match second {
                Ok(img) => Ok(img),
                Err(placeholder_error) => Err(
                    FatalDecodeError { file_error, placeholder_error },
                ),
            }
        },
    }
}

} // verus!

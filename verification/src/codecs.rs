//! Trusted bindings to the outside codec and metadata crates.
//!
//! Each decoder's output is deterministic in the input bytes, so each call is
//! given a name (an uninterpreted spec function) that the binding's contract
//! ties the runtime result to; the verified decode chain is specified over
//! those names. Nothing is assumed about pixel contents beyond determinism:
//! buffer sizes are checked by the verified normalizer, not promised here.

use vstd::prelude::*;

verus! {

#[verifier::external_type_specification]
#[verifier::external_body]
pub struct ExJpegDecodeErrors(zune_jpeg::errors::DecodeErrors);

#[verifier::external_type_specification]
#[verifier::external_body]
pub struct ExSpngError(spng::Error);

#[verifier::external_type_specification]
#[verifier::external_body]
pub struct ExQoiError(qoi::Error);

#[verifier::external_type_specification]
#[verifier::external_body]
pub struct ExImageError(image::ImageError);

/// What the dedicated JPEG decompressor yields on the given bytes, forced to
/// 4-channel RGBA output: `(width, height, pixels)`, or none on failure.
pub uninterp spec fn jpeg_rgba_decode(bytes: Seq<u8>) -> Option<(u32, u32, Seq<u8>)>;

/// What the dedicated PNG decompressor yields on the given bytes, in the
/// source format: `(width, height, samples per pixel, pixels)`, or none on
/// failure. Truecolor has 3 samples per pixel, truecolor-with-alpha 4.
pub uninterp spec fn png_fast_decode(bytes: Seq<u8>) -> Option<(u32, u32, u8, Seq<u8>)>;

/// What the dedicated QOI decompressor yields on the given bytes:
/// `(width, height, channels from the header, pixels)`, or none on failure.
pub uninterp spec fn qoi_fast_decode(bytes: Seq<u8>) -> Option<(u32, u32, u8, Seq<u8>)>;

/// What the format-sniffing generic decoder yields on the given bytes when
/// asked for 3-channel RGB output: none on decode failure, `Some(None)` when
/// the decoded image is not 8-bit RGB, else `Some(Some((width, height,
/// pixels)))`.
pub uninterp spec fn generic_rgb_decode(bytes: Seq<u8>) -> Option<Option<(u32, u32, Seq<u8>)>>;

/// What the format-sniffing generic decoder yields on the given bytes when
/// asked for 4-channel RGBA output, as `generic_rgb_decode`.
pub uninterp spec fn generic_rgba_decode(bytes: Seq<u8>) -> Option<Option<(u32, u32, Seq<u8>)>>;

/// The EXIF orientation code embedded in the given container bytes, if the
/// container parses and carries one in its primary image description.
pub uninterp spec fn exif_orientation_of(bytes: Seq<u8>) -> Option<u32>;

/// Relies on zune_jpeg::JpegDecoder (decode_headers, info, decode) with the
/// output colorspace forced to RGBA: decoding is a function of the bytes
/// alone, and info() is documented to be available once decode_headers
/// succeeds.
#[verifier::external_body]
pub(crate) fn jpeg_fast(bytes: &Vec<u8>) -> (r: Result<
    (u32, u32, Vec<u8>),
    zune_jpeg::errors::DecodeErrors,
>)
    ensures
        match r {
            Ok((w, h, p)) => jpeg_rgba_decode(bytes@) == Some((w, h, p@)),
            Err(_) => jpeg_rgba_decode(bytes@) is None,
        },
{
    let opts = zune_jpeg::zune_core::options::DecoderOptions::default().jpeg_set_out_colorspace(
        zune_jpeg::zune_core::colorspace::ColorSpace::RGBA,
    );
    let cursor = zune_jpeg::zune_core::bytestream::ZCursor::new(bytes.as_slice());
    let mut decoder = zune_jpeg::JpegDecoder::new_with_options(cursor, opts);
    decoder.decode_headers()?;
    let info = decoder.info().unwrap();
    let pixels = decoder.decode()?;
    Ok((u32::from(info.width), u32::from(info.height), pixels))
}

/// Relies on spng::Decoder (read_info, output_buffer_size, next_frame) in the
/// source output format, and on ColorType::samples for the samples-per-pixel
/// count of the source color type.
#[verifier::external_body]
pub(crate) fn png_fast(bytes: &Vec<u8>) -> (r: Result<(u32, u32, u8, Vec<u8>), spng::Error>)
    ensures
        match r {
            Ok((w, h, c, p)) => png_fast_decode(bytes@) == Some((w, h, c, p@)),
            Err(_) => png_fast_decode(bytes@) is None,
        },
{
    let cursor = std::io::Cursor::new(bytes.as_slice());
    let decoder = spng::Decoder::new(cursor);
    let (info, mut reader) = decoder.read_info()?;
    let mut out: Vec<u8> = vec![0; reader.output_buffer_size()];
    reader.next_frame(&mut out)?;
    Ok((info.width, info.height, info.color_type.samples() as u8, out))
}

/// Relies on qoi::decode_to_vec and Channels::as_u8: the header's channel
/// count is 3 (RGB) or 4 (RGBA) and the decoded buffer follows it.
#[verifier::external_body]
pub(crate) fn qoi_fast(bytes: &Vec<u8>) -> (r: Result<(u32, u32, u8, Vec<u8>), qoi::Error>)
    ensures
        match r {
            Ok((w, h, c, p)) => qoi_fast_decode(bytes@) == Some((w, h, c, p@)),
            Err(_) => qoi_fast_decode(bytes@) is None,
        },
{
    let (header, decoded) = qoi::decode_to_vec(bytes.as_slice())?;
    Ok((header.width, header.height, header.channels.as_u8(), decoded))
}

/// Relies on image::ImageReader (with_guessed_format, decode) over an
/// in-memory cursor, and DynamicImage::as_rgb8: content sniffing and decoding
/// read nothing but the given bytes.
#[verifier::external_body]
pub(crate) fn generic_rgb(bytes: &Vec<u8>) -> (r: Result<
    Option<(u32, u32, Vec<u8>)>,
    image::ImageError,
>)
    ensures
        match r {
            Ok(Some((w, h, p))) => generic_rgb_decode(bytes@) == Some(Some((w, h, p@))),
            Ok(None) => generic_rgb_decode(bytes@) == Some(None::<(u32, u32, Seq<u8>)>),
            Err(_) => generic_rgb_decode(bytes@) is None,
        },
{
    let cursor = std::io::Cursor::new(bytes.as_slice());
    let reader = image::ImageReader::new(cursor).with_guessed_format()?;
    let decoded = reader.decode()?;
    match decoded.as_rgb8() {
        Some(buf) => Ok(Some((buf.width(), buf.height(), buf.as_raw().clone()))),
        None => Ok(None),
    }
}

/// Relies on image::ImageReader (with_guessed_format, decode) over an
/// in-memory cursor, and DynamicImage::as_rgba8, as `generic_rgb`.
#[verifier::external_body]
pub(crate) fn generic_rgba(bytes: &Vec<u8>) -> (r: Result<
    Option<(u32, u32, Vec<u8>)>,
    image::ImageError,
>)
    ensures
        match r {
            Ok(Some((w, h, p))) => generic_rgba_decode(bytes@) == Some(Some((w, h, p@))),
            Ok(None) => generic_rgba_decode(bytes@) == Some(None::<(u32, u32, Seq<u8>)>),
            Err(_) => generic_rgba_decode(bytes@) is None,
        },
{
    let cursor = std::io::Cursor::new(bytes.as_slice());
    let reader = image::ImageReader::new(cursor).with_guessed_format()?;
    let decoded = reader.decode()?;
    match decoded.as_rgba8() {
        Some(buf) => Ok(Some((buf.width(), buf.height(), buf.as_raw().clone()))),
        None => Ok(None),
    }
}

/// Relies on exif::Reader::read_from_container over an in-memory cursor,
/// Exif::get_field with Tag::Orientation in the primary image description,
/// and Value::get_uint: the embedded orientation code is a function of the
/// bytes alone.
#[verifier::external_body]
pub(crate) fn exif_orientation_code(bytes: &Vec<u8>) -> (r: Option<u32>)
    ensures
        r == exif_orientation_of(bytes@),
{
    let mut cursor = std::io::Cursor::new(bytes.as_slice());
    match exif::Reader::new().read_from_container(&mut cursor) {
        Ok(data) => match data.get_field(exif::Tag::Orientation, exif::In::PRIMARY) {
            Some(field) => field.value.get_uint(0),
            None => None,
        },
        Err(_) => None,
    }
}

} // verus!

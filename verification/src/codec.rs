//! The two decoders that a texture passes through, base64 and PNG, and what
//! is taken on trust about them.

use vstd::prelude::*;

verus! {

/// The colour type of an image whose pixels are red, green, blue and alpha,
/// as the PNG standard numbers it.
pub const COLOR_TYPE_RGBA: u8 = 6;

/// What a PNG decoder reports of an image before it reads the pixels.
#[derive(Clone, Copy, Debug, PartialEq, Eq)]
pub struct PngHeader {
    pub width: u32,
    pub height: u32,
    /// The colour type of the decoded pixels, as the PNG standard numbers it.
    pub color_type: u8,
    /// Bits in one sample of a decoded pixel.
    pub bit_depth: u8,
    /// Bytes in one decoded row.
    pub line_size: usize,
}

#[verifier::external_type_specification]
#[verifier::external_body]
pub struct ExBase64DecodeError(base64::DecodeError);

#[verifier::external_type_specification]
#[verifier::external_body]
pub struct ExPngDecodingError(png::DecodingError);

/// The bytes that a text in standard base64 stands for, if it is one.
pub uninterp spec fn base64_decoded(text: Seq<u8>) -> Option<Seq<u8>>;

/// The header of a PNG image, if the bytes up to its pixel data are those of
/// one.
pub uninterp spec fn png_header(image: Seq<u8>) -> Option<PngHeader>;

/// The first frame of a PNG image, decoded into a buffer of `size` bytes, if
/// it can be.
pub uninterp spec fn png_frame(image: Seq<u8>, size: usize) -> Option<Seq<u8>>;

/// Calls `base64::decode`, which reads `text` as padded base64 over the
/// standard alphabet. The result is taken to be a function of the text
/// alone, named `base64_decoded`; an error is returned exactly where that is
/// `None`. The text must leave room for the decoder's rounding of its
/// length, which it does not check.
#[verifier::external_body]
pub(crate) fn base64_decode(text: &[u8]) -> (r: Result<Vec<u8>, base64::DecodeError>)
    requires
        text@.len() + 7 <= usize::MAX,
    ensures
        match r {
            Ok(bytes) => base64_decoded(text@) == Some(bytes@),
            Err(_) => base64_decoded(text@) is None,
        },
{
    base64::decode(text)
}

/// Calls `png::Decoder::read_info` on a decoder over `image`, with the
/// decoder's own limits and transformations. What it reports is taken to be
/// a function of the bytes alone, named `png_header`; an error is returned
/// exactly where that is `None`.
#[verifier::external_body]
pub(crate) fn png_read_info(image: &[u8]) -> (r: Result<PngHeader, png::DecodingError>)
    ensures
        match r {
            Ok(header) => png_header(image@) == Some(header),
            Err(_) => png_header(image@) is None,
        },
{
    let (info, _) = png::Decoder::new(image).read_info()?;
    Ok(PngHeader {
        width: info.width,
        height: info.height,
        color_type: info.color_type as u8,
        bit_depth: info.bit_depth as u8,
        line_size: info.line_size,
    })
}

/// Calls `png::Reader::next_frame` on a reader over `image`, with a buffer
/// of `size` zero bytes to decode into. The buffer after the call is taken
/// to be a function of the bytes and the size alone, named `png_frame`; an
/// error is returned exactly where that is `None`. The reader writes into
/// the buffer in place, so its length stays `size`. `size` is one that a
/// buffer can have.
#[verifier::external_body]
pub(crate) fn png_next_frame(image: &[u8], size: usize) -> (r: Result<Vec<u8>, png::DecodingError>)
    requires
        size <= isize::MAX,
    ensures
        match r {
            Ok(pixels) => png_frame(image@, size) == Some(pixels@) && pixels@.len() == size,
            Err(_) => png_frame(image@, size) is None,
        },
{
    let (_, mut reader) = png::Decoder::new(image).read_info()?;
    let mut pixels = vec![0; size];
    reader.next_frame(&mut pixels)?;
    Ok(pixels)
}

} // verus!

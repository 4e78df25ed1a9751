//! From a model document to a validated model: the texture is decoded and
//! held against the document, and the elements are held against what cube
//! geometry can express.

use vstd::prelude::*;
use vstd::string::*;
use vstd::utf8::encode_utf8;
use crate::codec::{
    base64_decode, base64_decoded, png_frame, png_header, png_next_frame, png_read_info, PngHeader,
    COLOR_TYPE_RGBA,
};
use crate::cube::{cube_of, Cube, MAX_CUBES};
use crate::error::{ElementFeature, Error};
use crate::json::{BBModel, Element, Resolution};
use crate::model::{registered, DecodedImage, ImageView, Model, ModelHandle, Registry};

verus! {

/// What a texture's source must begin with.
pub open spec fn data_url_start() -> Seq<u8> {
    encode_utf8("data:image/png;base64,"@)
}

/// The part of a texture's source that holds the image.
pub open spec fn payload(source: Seq<u8>) -> Seq<u8> {
    source.subrange(data_url_start().len() as int, source.len() as int)
}

/// The byte at `i` once red and blue are exchanged in every whole pixel.
pub open spec fn swapped_byte(pixels: Seq<u8>, i: int) -> u8 {
    if i - i % 4 + 4 <= pixels.len() {
        if i % 4 == 0 {
            pixels[i + 2]
        } else if i % 4 == 2 {
            pixels[i - 2]
        } else {
            pixels[i]
        }
    } else {
        pixels[i]
    }
}

/// The buffer with red and blue exchanged in every whole pixel.
pub open spec fn swapped(pixels: Seq<u8>) -> Seq<u8> {
    Seq::new(pixels.len(), |i: int| swapped_byte(pixels, i))
}

/// Whether every byte of the buffer is zero.
pub open spec fn all_zero(pixels: Seq<u8>) -> bool {
    forall|i: int| 0 <= i < pixels.len() ==> pixels[i] == 0
}

/// What of an element cube geometry cannot express, if anything: the first
/// of `autouv`, `locked` and `name` that is not as it must be.
pub open spec fn unsupported_feature(e: Element) -> Option<ElementFeature> {
    if e.autouv != 0 {
        Some(ElementFeature::AutoUv(e.autouv))
    } else if e.locked {
        Some(ElementFeature::Locked(true))
    } else if e.name@ != "cube"@ {
        Some(ElementFeature::Name(e.name))
    } else {
        None
    }
}

/// The unsupported feature of the first element from `start` on that has one.
pub open spec fn first_unsupported_from(elements: Seq<Element>, start: int) -> Option<
    ElementFeature,
>
    decreases elements.len() - start,
{
    if start < 0 || start >= elements.len() {
        None
    } else {
        match unsupported_feature(elements[start]) {
            Some(feature) => Some(feature),
            None => first_unsupported_from(elements, start + 1),
        }
    }
}

/// The unsupported feature of the first element that has one.
pub open spec fn first_unsupported(elements: Seq<Element>) -> Option<ElementFeature> {
    first_unsupported_from(elements, 0)
}

/// Whether the header is one that the document can have, and then the size
/// of the buffer that its frame decodes into: the image must have the
/// resolution that the document states and samples of 8 bits, and a frame
/// too large for any buffer counts as one that does not decode.
pub open spec fn header_accepted(resolution: Resolution, header: PngHeader) -> Result<usize, Error> {
    if header.width != resolution.width || header.height != resolution.height {
        Err(Error::ResolutionMismatch)
    } else if header.bit_depth != 8 {
        Err(Error::UnsupportedBitDepth)
    } else if header.line_size * header.height > isize::MAX {
        Err(Error::ImageDecodeError)
    } else {
        Ok((header.line_size * header.height) as usize)
    }
}

/// The texture that a document has, given the header and the frame that its
/// image decoded to: the frame with red and blue exchanged, or the first
/// check that fails. A frame that has not four bytes for each pixel of the
/// header counts as one that did not decode.
pub open spec fn texture_of(bb: BBModel, header: PngHeader, frame: Seq<u8>) -> Result<
    Seq<u8>,
    Error,
> {
    if !bb.is_valid() {
        Err(Error::MalformedDocument)
    } else {
        match header_accepted(bb.resolution, header) {
            Err(e) => Err(e),
            Ok(_) => if header.color_type != COLOR_TYPE_RGBA {
                Err(Error::UnsupportedColorType)
            } else if frame.len() != header.width * header.height * 4 {
                Err(Error::ImageDecodeError)
            } else {
                match first_unsupported(bb.elements@) {
                    Some(unsupported) => Err(Error::UnsupportedElementFeature(unsupported)),
                    None => if all_zero(swapped(frame)) {
                        Err(Error::BlankTexture)
                    } else {
                        Ok(swapped(frame))
                    },
                }
            },
        }
    }
}

/// The texture that a document has, given the bytes of its image. The
/// frame is decoded only once the header is accepted.
pub open spec fn image_parsed(bb: BBModel, image: Seq<u8>) -> Result<Seq<u8>, Error> {
    match png_header(image) {
        None => Err(Error::ImageDecodeError),
        Some(header) => match header_accepted(bb.resolution, header) {
            Err(e) => Err(e),
            Ok(size) => match png_frame(image, size) {
                None => Err(Error::ImageDecodeError),
                Some(frame) => texture_of(bb, header, frame),
            },
        },
    }
}

/// The texture that a document has: the pixels of its first texture's
/// image, blue first, or the first check that the document fails.
pub open spec fn parsed(bb: BBModel) -> Result<Seq<u8>, Error> {
    if !bb.is_valid() {
        Err(Error::MalformedDocument)
    } else if bb.textures@.len() == 0 {
        Err(Error::MissingTexture)
    } else {
        let source: Seq<u8> = encode_utf8(bb.textures@[0].source@);
        if !data_url_start().is_prefix_of(source) {
            Err(Error::UnsupportedTextureEncoding)
        } else {
            match base64_decoded(payload(source)) {
                None => Err(Error::Base64DecodeError),
                Some(image) => image_parsed(bb, image),
            }
        }
    }
}

/// Exchanges red and blue in every whole pixel of the buffer.
pub fn swap_channels(pixels: &mut Vec<u8>)
    ensures
        final(pixels)@ == swapped(old(pixels)@),
{
    let len: usize = pixels.len();
    let mut i: usize = 0;
    while len - i >= 4
        invariant
            i <= len,
            i % 4 == 0,
            pixels@.len() == len,
            old(pixels)@.len() == len,
            forall|j: int| 0 <= j < i ==> pixels@[j] == #[trigger] swapped_byte(old(pixels)@, j),
            forall|j: int| i <= j < len ==> #[trigger] pixels@[j] == old(pixels)@[j],
        decreases len - i,
    {
        let ghost before = pixels@;
        let red: u8 = pixels[i];
        let blue: u8 = pixels[i + 2];
        pixels.set(i, blue);
        pixels.set(i + 2, red);
        proof {
            let start: int = i as int;
            assert(pixels@ == before.update(start, blue).update(start + 2, red));
            assert forall|j: int| 0 <= j < start + 4 implies pixels@[j] == #[trigger] swapped_byte(
                old(pixels)@,
                j,
            ) by {
                if j >= start {
                    assert(j == start || j == start + 1 || j == start + 2 || j == start + 3);
                    assert(j - j % 4 == start);
                }
            }
        }
        i += 4;
    }
    proof {
        assert forall|j: int| 0 <= j < len implies pixels@[j] == #[trigger] swapped_byte(
            old(pixels)@,
            j,
        ) by {
            if j >= i {
                assert(j - j % 4 == i);
            }
        }
        assert(pixels@ =~= swapped(old(pixels)@));
    }
}

/// Tests whether every byte of the buffer is zero.
pub fn is_blank(pixels: &Vec<u8>) -> (r: bool)
    ensures
        r == all_zero(pixels@),
{
    let mut i: usize = 0;
    while i < pixels.len()
        invariant
            i <= pixels@.len(),
            forall|j: int| 0 <= j < i ==> pixels@[j] == 0,
        decreases pixels@.len() - i,
    {
        if pixels[i] != 0 {
            return false;
        }
        i += 1;
    }
    true
}

/// Tests whether `bytes` begins with `prefix`.
pub fn starts_with(bytes: &[u8], prefix: &[u8]) -> (r: bool)
    ensures
        r == prefix@.is_prefix_of(bytes@),
{
    if prefix.len() > bytes.len() {
        return false;
    }
    let mut i: usize = 0;
    while i < prefix.len()
        invariant
            i <= prefix@.len() <= bytes@.len(),
            forall|j: int| 0 <= j < i ==> prefix@[j] == bytes@[j],
        decreases prefix@.len() - i,
    {
        if prefix[i] != bytes[i] {
            assert(prefix@[i as int] != bytes@.subrange(0, prefix@.len() as int)[i as int]);
            return false;
        }
        i += 1;
    }
    assert(prefix@ =~= bytes@.subrange(0, prefix@.len() as int));
    true
}

/// Finds the unsupported feature of the first element that has one.
pub fn find_unsupported(elements: &Vec<Element>) -> (r: Option<ElementFeature>)
    ensures
        r == first_unsupported(elements@),
{
    let cube: String = String::from_str("cube");
    let mut i: usize = 0;
    while i < elements.len()
        invariant
            i <= elements@.len(),
            cube@ == "cube"@,
            first_unsupported(elements@) == first_unsupported_from(elements@, i as int),
        decreases elements@.len() - i,
    {
        let e: &Element = &elements[i];
        if e.autouv != 0 {
            return Some(ElementFeature::AutoUv(e.autouv));
        }
        if e.locked {
            return Some(ElementFeature::Locked(true));
        }
        if e.name != cube {
            return Some(ElementFeature::Name(e.name.clone()));
        }
        i += 1;
    }
    None
}

/// Holds the header of a decoded image against the resolution that the
/// document states, and gives the size of the buffer for its frame.
pub fn check_header(resolution: &Resolution, header: &PngHeader) -> (r: Result<usize, Error>)
    ensures
        r == header_accepted(*resolution, *header),
{
    if header.width as usize != resolution.width || header.height as usize != resolution.height {
        return Err(Error::ResolutionMismatch);
    }
    if header.bit_depth != 8 {
        return Err(Error::UnsupportedBitDepth);
    }
    match header.line_size.checked_mul(header.height as usize) {
        Some(size) => if size > isize::MAX as usize {
            Err(Error::ImageDecodeError)
        } else {
            Ok(size)
        },
        None => Err(Error::ImageDecodeError),
    }
}

/// Tests whether `len` bytes are four for each pixel of an image of the
/// given size.
pub fn is_texture_len(len: usize, width: usize, height: usize) -> (r: bool)
    ensures
        r == (len == width * height * 4),
{
    assert(width * height <= 0xffff_ffff_ffff_ffff * 0xffff_ffff_ffff_ffff) by (nonlinear_arith)
        requires
            0 <= width <= 0xffff_ffff_ffff_ffff,
            0 <= height <= 0xffff_ffff_ffff_ffff,
    ;
    len % 4 == 0 && (len / 4) as u128 == (width as u128) * (height as u128)
}

/// A document whose texture and elements passed every check.
#[derive(Debug)]
pub struct Blockbench {
    bb: BBModel,
    pixels: Vec<u8>,
}

impl Blockbench {
    /// The document.
    pub closed spec fn document(&self) -> BBModel {
        self.bb
    }

    /// The pixels of the texture: blue, green, red and alpha of each, row by
    /// row.
    pub closed spec fn texture(&self) -> Seq<u8> {
        self.pixels@
    }

    /// What holds of every value that loading gives: the texture has four
    /// bytes for each pixel of the stated resolution and is not blank, and
    /// every element is one that cube geometry can express.
    pub open spec fn wf(&self) -> bool {
        &&& self.document().is_valid()
        &&& self.texture().len() == self.document().resolution.width
            * self.document().resolution.height * 4
        &&& first_unsupported(self.document().elements@) is None
        &&& !all_zero(self.texture())
    }

    /// The document.
    pub fn bb(&self) -> (r: &BBModel)
        ensures
            *r == self.document(),
    {
        &self.bb
    }

    /// The pixels of the texture.
    pub fn pixels(&self) -> (r: &Vec<u8>)
        ensures
            r@ == self.texture(),
    {
        &self.pixels
    }

    /// Holds a decoded image against its document: the header against the
    /// stated resolution, the frame against the header, the elements against
    /// what cube geometry can express. The texture is the frame with red and
    /// blue exchanged.
    pub fn from_decoded(bb: BBModel, header: PngHeader, pixels: Vec<u8>) -> (r: Result<
        Blockbench,
        Error,
    >)
        ensures
            match r {
                Ok(b) => texture_of(bb, header, pixels@) == Ok::<Seq<u8>, Error>(b.texture())
                    && b.document() == bb && b.wf(),
                Err(e) => texture_of(bb, header, pixels@) == Err::<Seq<u8>, Error>(e),
            },
    {
        if !bb.check_valid() {
            return Err(Error::MalformedDocument);
        }
        match check_header(&bb.resolution, &header) {
            Err(e) => {
                return Err(e);
            },
            Ok(_) => {},
        }
        if header.color_type != COLOR_TYPE_RGBA {
            return Err(Error::UnsupportedColorType);
        }
        if !is_texture_len(pixels.len(), header.width as usize, header.height as usize) {
            return Err(Error::ImageDecodeError);
        }
        let mut pixels = pixels;
        swap_channels(&mut pixels);
        match find_unsupported(&bb.elements) {
            Some(unsupported) => {
                return Err(Error::UnsupportedElementFeature(unsupported));
            },
            None => {},
        }
        if is_blank(&pixels) {
            return Err(Error::BlankTexture);
        }
        Ok(Blockbench { bb, pixels })
    }

    /// Loads a document: decodes its first texture from the data URL, holds
    /// the image and the elements against the document, and gives the first
    /// check that fails or the validated model.
    pub fn parse_bbmodel(bb: BBModel) -> (r: Result<Blockbench, Error>)
        ensures
            match r {
                Ok(b) => parsed(bb) == Ok::<Seq<u8>, Error>(b.texture()) && b.document() == bb
                    && b.wf(),
                Err(e) => parsed(bb) == Err::<Seq<u8>, Error>(e),
            },
    {
        if !bb.check_valid() {
            return Err(Error::MalformedDocument);
        }
        if bb.textures.len() == 0 {
            return Err(Error::MissingTexture);
        }
        let source: &[u8] = bb.textures[0].source.as_str().as_bytes();
        let start: &[u8] = "data:image/png;base64,".as_bytes();
        if !starts_with(source, start) {
            return Err(Error::UnsupportedTextureEncoding);
        }
        proof {
            lemma_data_url_start_len();
        }
        let text: &[u8] = &source[start.len()..source.len()];
        let image: Vec<u8> = match base64_decode(text) {
            Ok(image) => image,
            Err(_) => {
                return Err(Error::Base64DecodeError);
            },
        };
        let header: PngHeader = match png_read_info(image.as_slice()) {
            Ok(header) => header,
            Err(_) => {
                return Err(Error::ImageDecodeError);
            },
        };
        let size: usize = match check_header(&bb.resolution, &header) {
            Ok(size) => size,
            Err(e) => {
                return Err(e);
            },
        };
        let frame: Vec<u8> = match png_next_frame(image.as_slice(), size) {
            Ok(frame) => frame,
            Err(_) => {
                return Err(Error::ImageDecodeError);
            },
        };
        Blockbench::from_decoded(bb, header, frame)
    }
}

impl Blockbench {
    /// The texture as an image of the resolution that the document states.
    pub open spec fn image(&self) -> ImageView {
        ImageView {
            width: self.document().resolution.width as nat,
            height: self.document().resolution.height as nat,
            pixels: self.texture(),
        }
    }

    /// Registers the model under a name: its texture, and the cube of each
    /// of its elements in the document's order. A model with more elements
    /// than a geometry buffer has room for is refused, and the registry stays
    /// as it was.
    pub fn register_model(self, registry: &mut Registry, name: &str) -> (r: Result<
        ModelHandle,
        Error,
    >)
        requires
            self.wf(),
            old(registry).wf(),
        ensures
            final(registry).wf(),
            self.document().elements@.len() > MAX_CUBES ==> final(registry)@ == old(registry)@
                && r == Err::<ModelHandle, Error>(Error::GeometryCapacityExceeded),
            self.document().elements@.len() <= MAX_CUBES ==> (r matches Ok(handle) && registered(
                old(registry)@,
                name@,
                self.image(),
                cubes_of(self.document().elements@),
            ) == (final(registry)@, handle@)),
    {
        let bmp: DecodedImage = DecodedImage::new(
            self.bb.resolution.width,
            self.bb.resolution.height,
            self.pixels,
        ).unwrap();
        let ghost elements = self.bb.elements@;
        let mut parts: Vec<Cube> = Vec::new();
        for e in it: self.bb.elements
            invariant
                it.seq() == elements,
                forall|j: int| 0 <= j < elements.len() ==> (#[trigger] elements[j]).is_valid(),
                parts@.len() == it.index(),
                forall|j: int| 0 <= j < parts@.len() ==> parts@[j] == cube_of(elements[j]),
        {
            parts.push(Cube::from_bbmodel_element(e));
        }
        assert(parts@ =~= cubes_of(elements));
        Model::register(registry, name, bmp, parts)
    }
}

/// The cubes that the elements stand for, in their order.
pub open spec fn cubes_of(elements: Seq<Element>) -> Seq<Cube> {
    Seq::new(elements.len(), |i: int| cube_of(elements[i]))
}

/// Exchanging red and blue twice gives the buffer back.
pub proof fn lemma_swapped_twice(pixels: Seq<u8>)
    ensures
        swapped(swapped(pixels)) == pixels,
{
    let once: Seq<u8> = swapped(pixels);
    assert forall|i: int| 0 <= i < pixels.len() implies swapped_byte(once, i) == pixels[i] by {
        if i - i % 4 + 4 <= pixels.len() {
            if i % 4 == 0 {
                assert((i + 2) % 4 == 2);
                assert(once[i + 2] == swapped_byte(pixels, i + 2));
            } else if i % 4 == 2 {
                assert((i - 2) % 4 == 0);
                assert(once[i - 2] == swapped_byte(pixels, i - 2));
            }
        }
    }
    assert(swapped(once) =~= pixels);
}

/// Exchanging red and blue leaves a buffer of zeros as it is.
pub proof fn lemma_swapped_zeros(pixels: Seq<u8>)
    requires
        all_zero(pixels),
    ensures
        swapped(pixels) == pixels,
{
    assert(swapped(pixels) =~= pixels);
}

/// The texture of a document that loads has four bytes for each pixel of
/// the resolution that the document states, and not all of them are zero.
pub proof fn lemma_texture_is_well_formed(bb: BBModel, header: PngHeader, frame: Seq<u8>)
    ensures
        texture_of(bb, header, frame) matches Ok(pixels) ==> pixels.len() == bb.resolution.width
            * bb.resolution.height * 4 && !all_zero(pixels),
        parsed(bb) matches Ok(pixels) ==> pixels.len() == bb.resolution.width
            * bb.resolution.height * 4 && !all_zero(pixels),
{
}

/// A document whose first texture does not begin with the data URL prefix
/// fails with `UnsupportedTextureEncoding`, whatever stands after it: no
/// decoder's result is asked for.
pub proof fn lemma_prefix_is_required(bb: BBModel)
    requires
        bb.is_valid(),
        bb.textures@.len() > 0,
        !data_url_start().is_prefix_of(encode_utf8(bb.textures@[0].source@)),
    ensures
        parsed(bb) == Err::<Seq<u8>, Error>(Error::UnsupportedTextureEncoding),
{
}

/// A document whose image is not of the stated resolution fails with
/// `ResolutionMismatch`, whether the width differs or the height, and
/// whatever the rest of the image holds.
pub proof fn lemma_resolution_must_match(bb: BBModel, image: Seq<u8>, header: PngHeader)
    requires
        bb.is_valid(),
        bb.textures@.len() > 0,
        data_url_start().is_prefix_of(encode_utf8(bb.textures@[0].source@)),
        base64_decoded(payload(encode_utf8(bb.textures@[0].source@))) == Some(image),
        png_header(image) == Some(header),
        header.width != bb.resolution.width || header.height != bb.resolution.height,
    ensures
        parsed(bb) == Err::<Seq<u8>, Error>(Error::ResolutionMismatch),
        forall|frame: Seq<u8>| #[trigger]
            texture_of(bb, header, frame) == Err::<Seq<u8>, Error>(Error::ResolutionMismatch),
{
}

/// A frame of zeros never loads: where the document, the header and the
/// elements pass their checks, it fails with `BlankTexture`.
pub proof fn lemma_blank_is_refused(bb: BBModel, header: PngHeader, frame: Seq<u8>)
    requires
        all_zero(frame),
    ensures
        texture_of(bb, header, frame) is Err,
        bb.is_valid() && header_accepted(bb.resolution, header) is Ok && header.color_type
            == COLOR_TYPE_RGBA && frame.len() == header.width * header.height * 4
            && first_unsupported(bb.elements@) is None ==> texture_of(bb, header, frame) == Err::<
            Seq<u8>,
            Error,
        >(Error::BlankTexture),
{
    lemma_swapped_zeros(frame);
}

/// The data URL prefix is 22 bytes long.
pub proof fn lemma_data_url_start_len()
    ensures
        data_url_start().len() == 22,
{
    reveal_strlit("data:image/png;base64,");
    let chars: Seq<char> = "data:image/png;base64,"@;
    assert(vstd::utf8::is_ascii_chars(chars));
    vstd::utf8::is_ascii_chars_encode_utf8(chars);
}

} // verus!

//! The ways in which loading a model can fail.

use vstd::prelude::*;

verus! {

/// A field of an element together with a value of it that is not supported.
#[derive(Clone, Debug, PartialEq, Eq)]
pub enum ElementFeature {
    /// `autouv` other than 0.
    AutoUv(usize),
    /// `locked` other than `false`.
    Locked(bool),
    /// `name` other than `"cube"`.
    Name(String),
}

/// Why a model was not loaded.
#[derive(Clone, Debug, PartialEq, Eq)]
pub enum Error {
    /// The document is not a model document at all, or holds a number that
    /// no coordinate can have.
    MalformedDocument,
    /// The document has no texture.
    MissingTexture,
    /// The texture is not a base64 data URL of a PNG image.
    UnsupportedTextureEncoding,
    /// The texture's payload is not base64.
    Base64DecodeError,
    /// The texture's bytes are not a PNG image.
    ImageDecodeError,
    /// The image's size is not the resolution that the document states.
    ResolutionMismatch,
    /// The image's samples are not 8 bits wide.
    UnsupportedBitDepth,
    /// The image's pixels are not red, green, blue and alpha.
    UnsupportedColorType,
    /// An element uses something that cube geometry cannot express.
    UnsupportedElementFeature(ElementFeature),
    /// Every byte of the decoded image is zero.
    BlankTexture,
    /// The file could not be read.
    FileIoError,
    /// The model has more cubes than a geometry buffer holds.
    GeometryCapacityExceeded,
}

impl ElementFeature {
    /// The name of the field in the document.
    pub open spec fn spec_field(&self) -> Seq<char> {
        match self {
            ElementFeature::AutoUv(_) => "autouv"@,
            ElementFeature::Locked(_) => "locked"@,
            ElementFeature::Name(_) => "name"@,
        }
    }

    /// The name of the field in the document.
    pub fn field(&self) -> (r: &'static str)
        ensures
            r@ == self.spec_field(),
    {
        match self {
            ElementFeature::AutoUv(_) => "autouv",
            ElementFeature::Locked(_) => "locked",
            ElementFeature::Name(_) => "name",
        }
    }
}

} // verus!

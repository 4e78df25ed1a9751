//! The model document as its author wrote it.

use vstd::prelude::*;
use crate::scalar::Scalar;

verus! {

/// A model document: a texture and the elements that it is wrapped around.
#[derive(Clone, Debug, PartialEq, Eq)]
pub struct BBModel {
    pub name: String,
    pub resolution: Resolution,
    pub elements: Vec<Element>,
    pub textures: Vec<Texture>,
}

/// One texture of a document.
#[derive(Clone, Debug, PartialEq, Eq)]
pub struct Texture {
    pub name: String,
    pub id: String,
    pub particle: bool,
    pub mode: TextureMode,
    pub uuid: String,
    /// The image, as a base64 data URL.
    pub source: String,
}

/// How a texture is stored.
#[derive(Clone, Copy, Debug, PartialEq, Eq)]
pub enum TextureMode {
    Bitmap,
}

/// The size in pixels that a document states for its texture.
#[derive(Clone, Copy, Debug, PartialEq, Eq)]
pub struct Resolution {
    pub width: usize,
    pub height: usize,
}

/// One box of a model, in document units.
#[derive(Clone, Debug, PartialEq, Eq)]
pub struct Element {
    pub name: String,
    /// One corner of the box.
    pub from: [Scalar; 3],
    /// The opposite corner.
    pub to: [Scalar; 3],
    pub autouv: usize,
    pub color: usize,
    pub locked: bool,
    /// Degrees about each axis, if the box is turned.
    pub rotation: Option<[Scalar; 3]>,
    /// The point that the box turns about.
    pub origin: [Scalar; 3],
    /// Where in the texture the box's faces start.
    pub uv_offset: Option<[usize; 2]>,
    pub faces: Faces,
    pub uuid: String,
}

/// The six faces of an element.
#[derive(Clone, Copy, Debug, PartialEq, Eq)]
pub struct Faces {
    pub north: Face,
    pub east: Face,
    pub south: Face,
    pub west: Face,
    pub up: Face,
    pub down: Face,
}

/// The rectangle of the texture that one face shows.
#[derive(Clone, Copy, Debug, PartialEq, Eq)]
pub struct Face {
    /// Left, top, right and bottom edge of the rectangle.
    pub uv: [usize; 4],
    /// Index of the texture.
    pub texture: usize,
}

/// Whether each of three numbers is one that single precision holds.
pub open spec fn all_single(v: [Scalar; 3]) -> bool {
    v[0].is_single() && v[1].is_single() && v[2].is_single()
}

/// Tests whether each of three numbers is one that single precision holds.
pub fn check_all_single(v: &[Scalar; 3]) -> (r: bool)
    ensures
        r == all_single(*v),
{
    v[0].check_single() && v[1].check_single() && v[2].check_single()
}

impl Element {
    /// Whether every coordinate of the element is a single precision number.
    pub open spec fn is_valid(&self) -> bool {
        &&& all_single(self.from)
        &&& all_single(self.to)
        &&& all_single(self.origin)
        &&& (self.rotation matches Some(r) ==> all_single(r))
    }

    /// Tests `is_valid`.
    pub fn check_valid(&self) -> (r: bool)
        ensures
            r == self.is_valid(),
    {
        check_all_single(&self.from) && check_all_single(&self.to) && check_all_single(
            &self.origin,
        ) && match &self.rotation {
            Some(r) => check_all_single(r),
            None => true,
        }
    }
}

impl BBModel {
    /// Whether every element of the document is valid.
    pub open spec fn is_valid(&self) -> bool {
        forall|i: int| 0 <= i < self.elements@.len() ==> (#[trigger] self.elements@[i]).is_valid()
    }

    /// Tests `is_valid`.
    pub fn check_valid(&self) -> (r: bool)
        ensures
            r == self.is_valid(),
    {
        let mut i: usize = 0;
        while i < self.elements.len()
            invariant
                i <= self.elements@.len(),
                forall|j: int| 0 <= j < i ==> (#[trigger] self.elements@[j]).is_valid(),
            decreases self.elements@.len() - i,
        {
            if !self.elements[i].check_valid() {
                return false;
            }
            i += 1;
        }
        true
    }
}

} // verus!

//! Cube geometry: the box that an element stands for, the six rectangles of
//! the texture that are wrapped around it, and how it is drawn.

use vstd::prelude::*;
use crate::json::{all_single, Element};
use crate::scalar::Scalar;

verus! {

/// Vertices that one cube takes in a geometry buffer: four for each face.
pub const MODEL_BOX_VERTICES: u16 = 24;

/// Vertices that one face takes in a geometry buffer.
pub const MODEL_QUAD_VERTICES: u16 = 4;

/// Faces of a cube.
pub const FACE_COUNT: usize = 6;

/// Cubes that a geometry buffer has room for.
pub const MAX_CUBES: usize = 256;

/// The axis that a face of a cube is square to.
#[derive(Clone, Copy, Debug, PartialEq, Eq)]
pub enum Axis {
    X,
    Y,
    Z,
}

/// The faces of a cube, in the order in which they enter a geometry buffer.
#[derive(Clone, Copy, Debug, PartialEq, Eq)]
pub enum CubeFace {
    Top,
    Bottom,
    Front,
    Back,
    Left,
    Right,
}

/// One face of a cube: a rectangle of the texture, and the rectangle in
/// space that shows it. The face lies in the plane at `plane` on `axis`;
/// `a1`, `a2` and `b1`, `b2` are its bounds on the two other axes: x and z
/// for a face square to y, z and y for one square to x, x and y for one
/// square to z.
#[derive(Clone, Copy, Debug, PartialEq, Eq)]
pub struct Quad {
    pub axis: Axis,
    pub tex_x: u128,
    pub tex_y: u128,
    pub tex_width: usize,
    pub tex_height: usize,
    pub a1: Scalar,
    pub a2: Scalar,
    pub b1: Scalar,
    pub b2: Scalar,
    pub plane: Scalar,
    /// Whether the texture is mirrored from left to right.
    pub swap_u: bool,
}

/// Where the vertices of one cube stand in a geometry buffer, and the point
/// that the cube turns about.
#[derive(Clone, Copy, Debug, PartialEq, Eq)]
pub struct ModelPart {
    pub offset: u16,
    pub count: u16,
    pub rot_x: Scalar,
    pub rot_y: Scalar,
    pub rot_z: Scalar,
}

/// How one cube is drawn.
#[derive(Clone, Copy, Debug, PartialEq, Eq)]
pub enum DrawCall {
    /// As it stands.
    Part(ModelPart),
    /// Turned about its pivot by an angle on each axis.
    Rotate { angle_x: Scalar, angle_y: Scalar, angle_z: Scalar, part: ModelPart, head: bool },
}

/// One box of a model, in blocks, with its place in the texture.
#[derive(Clone, Copy, Debug, PartialEq, Eq)]
pub struct Cube {
    pub from: [Scalar; 3],
    pub to: [Scalar; 3],
    pub tex_x: usize,
    pub tex_y: usize,
    pub tex_sides_w: usize,
    pub tex_body_w: usize,
    pub tex_body_h: usize,
    /// The point that the cube turns about.
    pub pivot_origin: [Scalar; 3],
    /// The angles that the cube is turned by when it is drawn.
    pub rot: Option<[Scalar; 3]>,
    /// The part that was made of the cube, once it is built.
    pub model_part: Option<ModelPart>,
}

/// The distance between two texture coordinates.
pub open spec fn span(a: usize, b: usize) -> usize {
    if a >= b {
        (a - b) as usize
    } else {
        (b - a) as usize
    }
}

/// Three numbers in blocks, for three given in document units.
pub open spec fn blocks3(units: [Scalar; 3]) -> [Scalar; 3] {
    [units[0].spec_to_blocks(), units[1].spec_to_blocks(), units[2].spec_to_blocks()]
}

/// The cube that an element stands for: its corners and its pivot in
/// blocks, its place in the texture from the offset and from the widths and
/// the height of the east and up faces, its rotation as it is, and no part
/// yet.
pub open spec fn cube_of(e: Element) -> Cube {
    Cube {
        from: blocks3(e.from),
        to: blocks3(e.to),
        tex_x: match e.uv_offset {
            Some(offset) => offset[0],
            None => 0,
        },
        tex_y: match e.uv_offset {
            Some(offset) => offset[1],
            None => 0,
        },
        tex_sides_w: span(e.faces.east.uv[2], e.faces.east.uv[0]),
        tex_body_w: span(e.faces.up.uv[2], e.faces.up.uv[0]),
        tex_body_h: span(e.faces.east.uv[3], e.faces.east.uv[1]),
        pivot_origin: blocks3(e.origin),
        rot: e.rotation,
        model_part: None,
    }
}

/// How a cube is drawn: turned about its pivot where it has a rotation,
/// else as it stands.
pub open spec fn draw_call_of(c: Cube) -> DrawCall {
    match c.rot {
        Some(rot) => DrawCall::Rotate {
            angle_x: rot[0],
            angle_y: rot[1],
            angle_z: rot[2],
            part: c.model_part->0,
            head: false,
        },
        None => DrawCall::Part(c.model_part->0),
    }
}

/// The rectangle of the texture and of space that a face of a cube takes.
pub open spec fn quad_of(c: Cube, face: CubeFace) -> Quad {
    let x: int = c.tex_x as int;
    let y: int = c.tex_y as int;
    let sides_w: int = c.tex_sides_w as int;
    let body_w: int = c.tex_body_w as int;
    match face {
        CubeFace::Top => Quad {
            axis: Axis::Y,
            tex_x: (x + sides_w) as u128,
            tex_y: y as u128,
            tex_width: c.tex_body_w,
            tex_height: c.tex_sides_w,
            a1: c.from[0],
            a2: c.to[0],
            b1: c.to[2],
            b2: c.from[2],
            plane: c.to[1],
            swap_u: true,
        },
        CubeFace::Bottom => Quad {
            axis: Axis::Y,
            tex_x: (x + sides_w + body_w) as u128,
            tex_y: y as u128,
            tex_width: c.tex_body_w,
            tex_height: c.tex_sides_w,
            a1: c.to[0],
            a2: c.from[0],
            b1: c.to[2],
            b2: c.from[2],
            plane: c.from[1],
            swap_u: false,
        },
        CubeFace::Front => Quad {
            axis: Axis::Z,
            tex_x: (x + sides_w) as u128,
            tex_y: (y + sides_w) as u128,
            tex_width: c.tex_body_w,
            tex_height: c.tex_body_h,
            a1: c.from[0],
            a2: c.to[0],
            b1: c.from[1],
            b2: c.to[1],
            plane: c.from[2],
            swap_u: true,
        },
        CubeFace::Back => Quad {
            axis: Axis::Z,
            tex_x: (x + sides_w + body_w + sides_w) as u128,
            tex_y: (y + sides_w) as u128,
            tex_width: c.tex_body_w,
            tex_height: c.tex_body_h,
            a1: c.to[0],
            a2: c.from[0],
            b1: c.from[1],
            b2: c.to[1],
            plane: c.to[2],
            swap_u: true,
        },
        CubeFace::Left => Quad {
            axis: Axis::X,
            tex_x: x as u128,
            tex_y: (y + sides_w) as u128,
            tex_width: c.tex_sides_w,
            tex_height: c.tex_body_h,
            a1: c.from[2],
            a2: c.to[2],
            b1: c.from[1],
            b2: c.to[1],
            plane: c.to[0],
            swap_u: true,
        },
        CubeFace::Right => Quad {
            axis: Axis::X,
            tex_x: (x + sides_w + body_w) as u128,
            tex_y: (y + sides_w) as u128,
            tex_width: c.tex_sides_w,
            tex_height: c.tex_body_h,
            a1: c.to[2],
            a2: c.from[2],
            b1: c.from[1],
            b2: c.to[1],
            plane: c.from[0],
            swap_u: true,
        },
    }
}

/// The face that enters a geometry buffer as the `k`th of a cube.
pub open spec fn face_at(k: int) -> CubeFace {
    if k == 0 {
        CubeFace::Top
    } else if k == 1 {
        CubeFace::Bottom
    } else if k == 2 {
        CubeFace::Front
    } else if k == 3 {
        CubeFace::Back
    } else if k == 4 {
        CubeFace::Left
    } else {
        CubeFace::Right
    }
}

/// The six rectangles of a cube, in the order in which they enter a
/// geometry buffer.
pub open spec fn quads_of(c: Cube) -> Seq<Quad> {
    Seq::new(6, |k: int| quad_of(c, face_at(k)))
}

/// The part of a cube whose vertices start at `offset`.
pub open spec fn part_of(c: Cube, offset: int) -> ModelPart {
    ModelPart {
        offset: offset as u16,
        count: MODEL_BOX_VERTICES,
        rot_x: c.pivot_origin[0],
        rot_y: c.pivot_origin[1],
        rot_z: c.pivot_origin[2],
    }
}

/// Tells which of two texture coordinates is larger, and by how much.
pub fn span_of(a: usize, b: usize) -> (r: usize)
    ensures
        r == span(a, b),
{
    if a >= b {
        a - b
    } else {
        b - a
    }
}

/// Divides each of three numbers by the number of document units in a block.
pub fn to_blocks3(units: &[Scalar; 3]) -> (r: [Scalar; 3])
    requires
        all_single(*units),
    ensures
        r == blocks3(*units),
{
    [units[0].to_blocks(), units[1].to_blocks(), units[2].to_blocks()]
}

impl Default for Cube {
    /// The cube that is a single point at the origin, with no place in the
    /// texture.
    fn default() -> (r: Cube)
        ensures
            r.tex_x == 0 && r.tex_y == 0,
            r.tex_sides_w == 0 && r.tex_body_w == 0 && r.tex_body_h == 0,
            forall|i: int|
                0 <= i < 3 ==> r.from[i] == Scalar::spec_zero() && r.to[i] == Scalar::spec_zero()
                    && r.pivot_origin[i] == Scalar::spec_zero(),
            r.rot is None,
            r.model_part is None,
    {
        let zero: Scalar = Scalar::zero();
        Cube {
            from: [zero, zero, zero],
            to: [zero, zero, zero],
            tex_x: 0,
            tex_y: 0,
            tex_sides_w: 0,
            tex_body_w: 0,
            tex_body_h: 0,
            pivot_origin: [zero, zero, zero],
            rot: None,
            model_part: None,
        }
    }
}

impl Cube {
    /// The cube with `part` as the part that was made of it.
    pub open spec fn with_part(self, part: Option<ModelPart>) -> Cube {
        Cube { model_part: part, ..self }
    }

    /// Whether two cubes are the same box at the same place in the texture,
    /// whatever part was made of either.
    pub open spec fn same_box(self, other: Cube) -> bool {
        &&& self.from == other.from
        &&& self.to == other.to
        &&& self.tex_x == other.tex_x
        &&& self.tex_y == other.tex_y
        &&& self.tex_sides_w == other.tex_sides_w
        &&& self.tex_body_w == other.tex_body_w
        &&& self.tex_body_h == other.tex_body_h
        &&& self.pivot_origin == other.pivot_origin
        &&& self.rot == other.rot
    }

    /// The cube that an element stands for.
    pub fn from_bbmodel_element(e: Element) -> (r: Cube)
        requires
            e.is_valid(),
        ensures
            r == cube_of(e),
    {
        let from: [Scalar; 3] = to_blocks3(&e.from);
        let to: [Scalar; 3] = to_blocks3(&e.to);
        let (tex_x, tex_y): (usize, usize) = match e.uv_offset {
            Some(offset) => (offset[0], offset[1]),
            None => (0, 0),
        };
        let tex_sides_w: usize = span_of(e.faces.east.uv[2], e.faces.east.uv[0]);
        let tex_body_w: usize = span_of(e.faces.up.uv[2], e.faces.up.uv[0]);
        let tex_body_h: usize = span_of(e.faces.east.uv[3], e.faces.east.uv[1]);
        let pivot_origin: [Scalar; 3] = to_blocks3(&e.origin);
        Cube {
            from,
            to,
            tex_x,
            tex_y,
            tex_sides_w,
            tex_body_w,
            tex_body_h,
            pivot_origin,
            rot: e.rotation,
            model_part: None,
        }
    }

    /// The rectangle of the texture and of space that a face of the cube
    /// takes.
    pub fn quad(&self, face: CubeFace) -> (r: Quad)
        ensures
            r == quad_of(*self, face),
    {
        let x: u128 = self.tex_x as u128;
        let y: u128 = self.tex_y as u128;
        let sides_w: u128 = self.tex_sides_w as u128;
        let body_w: u128 = self.tex_body_w as u128;
        match face {
            CubeFace::Top => Quad {
                axis: Axis::Y,
                tex_x: x + sides_w,
                tex_y: y,
                tex_width: self.tex_body_w,
                tex_height: self.tex_sides_w,
                a1: self.from[0],
                a2: self.to[0],
                b1: self.to[2],
                b2: self.from[2],
                plane: self.to[1],
                swap_u: true,
            },
            CubeFace::Bottom => Quad {
                axis: Axis::Y,
                tex_x: x + sides_w + body_w,
                tex_y: y,
                tex_width: self.tex_body_w,
                tex_height: self.tex_sides_w,
                a1: self.to[0],
                a2: self.from[0],
                b1: self.to[2],
                b2: self.from[2],
                plane: self.from[1],
                swap_u: false,
            },
            CubeFace::Front => Quad {
                axis: Axis::Z,
                tex_x: x + sides_w,
                tex_y: y + sides_w,
                tex_width: self.tex_body_w,
                tex_height: self.tex_body_h,
                a1: self.from[0],
                a2: self.to[0],
                b1: self.from[1],
                b2: self.to[1],
                plane: self.from[2],
                swap_u: true,
            },
            CubeFace::Back => Quad {
                axis: Axis::Z,
                tex_x: x + sides_w + body_w + sides_w,
                tex_y: y + sides_w,
                tex_width: self.tex_body_w,
                tex_height: self.tex_body_h,
                a1: self.to[0],
                a2: self.from[0],
                b1: self.from[1],
                b2: self.to[1],
                plane: self.to[2],
                swap_u: true,
            },
            CubeFace::Left => Quad {
                axis: Axis::X,
                tex_x: x,
                tex_y: y + sides_w,
                tex_width: self.tex_sides_w,
                tex_height: self.tex_body_h,
                a1: self.from[2],
                a2: self.to[2],
                b1: self.from[1],
                b2: self.to[1],
                plane: self.to[0],
                swap_u: true,
            },
            CubeFace::Right => Quad {
                axis: Axis::X,
                tex_x: x + sides_w + body_w,
                tex_y: y + sides_w,
                tex_width: self.tex_sides_w,
                tex_height: self.tex_body_h,
                a1: self.to[2],
                a2: self.from[2],
                b1: self.from[1],
                b2: self.to[1],
                plane: self.from[0],
                swap_u: true,
            },
        }
    }

    /// Builds the cube into a geometry buffer: its six rectangles are
    /// appended, and the part that covers their vertices is kept.
    pub fn make_part(&mut self, vertices: &mut Vec<Quad>)
        requires
            old(vertices)@.len() + FACE_COUNT <= MAX_CUBES * FACE_COUNT,
        ensures
            final(vertices)@ == old(vertices)@ + quads_of(*old(self)),
            *final(self) == old(self).with_part(
                Some(part_of(*old(self), old(vertices)@.len() * MODEL_QUAD_VERTICES)),
            ),
    {
        let start: usize = vertices.len();
        let ghost before = vertices@;
        vertices.push(self.quad(CubeFace::Top));
        vertices.push(self.quad(CubeFace::Bottom));
        vertices.push(self.quad(CubeFace::Front));
        vertices.push(self.quad(CubeFace::Back));
        vertices.push(self.quad(CubeFace::Left));
        vertices.push(self.quad(CubeFace::Right));
        assert(vertices@ =~= before + quads_of(*self));
        let offset: u16 = (start * 4) as u16;
        self.model_part = Some(
            ModelPart {
                offset,
                count: MODEL_BOX_VERTICES,
                rot_x: self.pivot_origin[0],
                rot_y: self.pivot_origin[1],
                rot_z: self.pivot_origin[2],
            },
        );
    }

    /// How the cube is drawn. A part must have been made of it.
    pub fn draw(&self) -> (r: DrawCall)
        requires
            self.model_part is Some,
        ensures
            r == draw_call_of(*self),
    {
        let part: ModelPart = self.model_part.unwrap();
        match self.rot {
            Some(rot) => DrawCall::Rotate {
                angle_x: rot[0],
                angle_y: rot[1],
                angle_z: rot[2],
                part,
                head: false,
            },
            None => DrawCall::Part(part),
        }
    }
}

} // verus!

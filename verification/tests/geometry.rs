use blockbench_loader::cube::{
    span_of, to_blocks3, Axis, Cube, CubeFace, DrawCall, ModelPart, Quad, FACE_COUNT, MAX_CUBES,
    MODEL_BOX_VERTICES, MODEL_QUAD_VERTICES,
};
use blockbench_loader::json::{check_all_single, Element, Face, Faces};
use blockbench_loader::scalar::{Scalar, UNITS_PER_BLOCK};

fn number(x: f32) -> Scalar {
    Scalar::from_bits(x.to_bits()).unwrap()
}

fn numbers(x: f32, y: f32, z: f32) -> [Scalar; 3] {
    [number(x), number(y), number(z)]
}

fn value(s: Scalar) -> f64 {
    let size = s.mantissa as f64 * 2f64.powi(s.exponent);
    if s.negative {
        -size
    } else {
        size
    }
}

fn values(v: [Scalar; 3]) -> [f64; 3] {
    [value(v[0]), value(v[1]), value(v[2])]
}

fn face(uv: [usize; 4]) -> Face {
    Face { uv, texture: 0 }
}

fn element() -> Element {
    Element {
        name: "cube".to_string(),
        from: numbers(0.0, 0.0, 0.0),
        to: numbers(16.0, 16.0, 16.0),
        autouv: 0,
        color: 3,
        locked: false,
        rotation: None,
        origin: numbers(8.0, 8.0, 8.0),
        uv_offset: None,
        faces: Faces {
            north: face([4, 4, 8, 8]),
            east: face([0, 4, 4, 8]),
            south: face([12, 4, 16, 8]),
            west: face([8, 4, 12, 8]),
            up: face([8, 4, 4, 0]),
            down: face([12, 0, 8, 4]),
        },
        uuid: "e0e0e0e0-0000-4000-8000-000000000001".to_string(),
    }
}

fn sample_cube() -> Cube {
    let mut e = element();
    e.from = numbers(-4.0, 12.0, -2.0);
    e.to = numbers(4.0, 24.0, 2.0);
    e.origin = numbers(0.0, 24.0, 0.0);
    e.uv_offset = Some([16, 20]);
    e.faces.east = face([16, 24, 20, 36]);
    e.faces.up = face([28, 24, 20, 20]);
    Cube::from_bbmodel_element(e)
}

#[test]
fn constants_are_those_of_a_box() {
    assert_eq!(MODEL_BOX_VERTICES, 24);
    assert_eq!(MODEL_QUAD_VERTICES, 4);
    assert_eq!(FACE_COUNT, 6);
    assert_eq!(MAX_CUBES, 256);
    assert_eq!(UNITS_PER_BLOCK, 16);
}

#[test]
fn bits_of_single_precision_are_read_exactly() {
    assert_eq!(
        Scalar::from_bits(16.0f32.to_bits()),
        Some(Scalar { negative: false, mantissa: 0x80_0000, exponent: -19 })
    );
    assert_eq!(
        Scalar::from_bits(1.0f32.to_bits()),
        Some(Scalar { negative: false, mantissa: 0x80_0000, exponent: -23 })
    );
    assert_eq!(
        Scalar::from_bits((-2.5f32).to_bits()),
        Some(Scalar { negative: true, mantissa: 0xa0_0000, exponent: -22 })
    );
    assert_eq!(
        Scalar::from_bits(0.0f32.to_bits()),
        Some(Scalar { negative: false, mantissa: 0, exponent: -149 })
    );
    assert_eq!(
        Scalar::from_bits((-0.0f32).to_bits()),
        Some(Scalar { negative: true, mantissa: 0, exponent: -149 })
    );
    assert_eq!(Scalar::from_bits(1), Some(Scalar { negative: false, mantissa: 1, exponent: -149 }));
    assert_eq!(
        Scalar::from_bits(f32::MAX.to_bits()),
        Some(Scalar { negative: false, mantissa: 0xff_ffff, exponent: 104 })
    );
    assert_eq!(Scalar::from_bits(f32::INFINITY.to_bits()), None);
    assert_eq!(Scalar::from_bits(f32::NEG_INFINITY.to_bits()), None);
    assert_eq!(Scalar::from_bits(f32::NAN.to_bits()), None);
}

#[test]
fn bits_stand_for_the_number_that_they_encode() {
    let samples: [f32; 9] = [0.0, 1.0, -1.0, 16.0, 7.5, -0.125, 3.1415927, 1.0e-40, 6.0e37];
    for x in samples {
        let s = Scalar::from_bits(x.to_bits()).unwrap();
        assert!(s.check_single());
        assert_eq!(value(s), x as f64);
    }
}

#[test]
fn blocks_are_sixteenths_of_units() {
    let samples: [f32; 8] = [0.0, 16.0, -16.0, 8.0, 7.5, -0.125, 1.0e-40, 3.0e38];
    for x in samples {
        let blocks = number(x).to_blocks();
        assert_eq!(value(blocks) * 16.0, x as f64);
        assert_eq!(value(blocks) as f32, x / 16.0);
    }
    assert_eq!(
        number(16.0).to_blocks(),
        Scalar { negative: false, mantissa: 0x80_0000, exponent: -23 }
    );
    assert_eq!(number(16.0).to_blocks(), number(1.0));
    assert_eq!(values(to_blocks3(&numbers(16.0, -8.0, 4.0))), [1.0, -0.5, 0.25]);
}

#[test]
fn zero_is_zero() {
    assert_eq!(Scalar::zero(), Scalar { negative: false, mantissa: 0, exponent: 0 });
    assert_eq!(value(Scalar::zero()), 0.0);
    assert!(Scalar::zero().check_single());
}

#[test]
fn single_precision_has_bounds() {
    assert!(Scalar { negative: false, mantissa: 0xff_ffff, exponent: 104 }.check_single());
    assert!(Scalar { negative: true, mantissa: 0, exponent: -149 }.check_single());
    assert!(!Scalar { negative: false, mantissa: 0x100_0000, exponent: 0 }.check_single());
    assert!(!Scalar { negative: false, mantissa: 1, exponent: 105 }.check_single());
    assert!(!Scalar { negative: false, mantissa: 1, exponent: -150 }.check_single());
    assert!(check_all_single(&numbers(1.0, 2.0, 3.0)));
    let odd = Scalar { negative: false, mantissa: 1, exponent: 105 };
    assert!(!check_all_single(&[number(1.0), number(2.0), odd]));
    assert!(!check_all_single(&[odd, number(2.0), number(1.0)]));
    let mut e = element();
    assert!(e.check_valid());
    e.origin[1] = odd;
    assert!(!e.check_valid());
    let mut e = element();
    e.rotation = Some([number(0.0), odd, number(0.0)]);
    assert!(!e.check_valid());
}

#[test]
fn unit_cube_spans_one_block() {
    let cube = Cube::from_bbmodel_element(element());
    assert_eq!(values(cube.from), [0.0, 0.0, 0.0]);
    assert_eq!(values(cube.to), [1.0, 1.0, 1.0]);
    assert_eq!(values(cube.pivot_origin), [0.5, 0.5, 0.5]);
    assert_eq!(cube.rot, None);
    assert_eq!(cube.model_part, None);
}

#[test]
fn texture_placement_comes_from_east_and_up() {
    let cube = Cube::from_bbmodel_element(element());
    assert_eq!((cube.tex_x, cube.tex_y), (0, 0));
    assert_eq!(cube.tex_sides_w, 4);
    assert_eq!(cube.tex_body_w, 4);
    assert_eq!(cube.tex_body_h, 4);
    let cube = sample_cube();
    assert_eq!((cube.tex_x, cube.tex_y), (16, 20));
    assert_eq!(cube.tex_sides_w, 4);
    assert_eq!(cube.tex_body_w, 8);
    assert_eq!(cube.tex_body_h, 12);
    assert_eq!(values(cube.from), [-0.25, 0.75, -0.125]);
    assert_eq!(values(cube.to), [0.25, 1.5, 0.125]);
    assert_eq!(values(cube.pivot_origin), [0.0, 1.5, 0.0]);
}

#[test]
fn span_is_the_distance_either_way() {
    assert_eq!(span_of(4, 12), 8);
    assert_eq!(span_of(12, 4), 8);
    assert_eq!(span_of(5, 5), 0);
    assert_eq!(span_of(0, usize::MAX), usize::MAX);
    assert_eq!(span_of(usize::MAX, 0), usize::MAX);
}

#[test]
fn rotation_is_kept_as_it_is() {
    let mut e = element();
    e.rotation = Some(numbers(0.0, 45.0, -22.5));
    let cube = Cube::from_bbmodel_element(e);
    assert_eq!(cube.rot, Some(numbers(0.0, 45.0, -22.5)));
}

#[test]
fn default_cube_is_a_point() {
    let cube = Cube::default();
    assert_eq!(values(cube.from), [0.0, 0.0, 0.0]);
    assert_eq!(values(cube.to), [0.0, 0.0, 0.0]);
    assert_eq!(values(cube.pivot_origin), [0.0, 0.0, 0.0]);
    assert_eq!((cube.tex_x, cube.tex_y), (0, 0));
    assert_eq!((cube.tex_sides_w, cube.tex_body_w, cube.tex_body_h), (0, 0, 0));
    assert_eq!(cube.rot, None);
    assert_eq!(cube.model_part, None);
}

#[test]
fn quads_unwrap_the_cube() {
    let cube = sample_cube();
    let (x1, y1, z1) = (cube.from[0], cube.from[1], cube.from[2]);
    let (x2, y2, z2) = (cube.to[0], cube.to[1], cube.to[2]);
    assert_eq!(
        cube.quad(CubeFace::Top),
        Quad {
            axis: Axis::Y,
            tex_x: 20,
            tex_y: 20,
            tex_width: 8,
            tex_height: 4,
            a1: x1,
            a2: x2,
            b1: z2,
            b2: z1,
            plane: y2,
            swap_u: true
        }
    );
    assert_eq!(
        cube.quad(CubeFace::Bottom),
        Quad {
            axis: Axis::Y,
            tex_x: 28,
            tex_y: 20,
            tex_width: 8,
            tex_height: 4,
            a1: x2,
            a2: x1,
            b1: z2,
            b2: z1,
            plane: y1,
            swap_u: false
        }
    );
    assert_eq!(
        cube.quad(CubeFace::Front),
        Quad {
            axis: Axis::Z,
            tex_x: 20,
            tex_y: 24,
            tex_width: 8,
            tex_height: 12,
            a1: x1,
            a2: x2,
            b1: y1,
            b2: y2,
            plane: z1,
            swap_u: true
        }
    );
    assert_eq!(
        cube.quad(CubeFace::Back),
        Quad {
            axis: Axis::Z,
            tex_x: 32,
            tex_y: 24,
            tex_width: 8,
            tex_height: 12,
            a1: x2,
            a2: x1,
            b1: y1,
            b2: y2,
            plane: z2,
            swap_u: true
        }
    );
    assert_eq!(
        cube.quad(CubeFace::Left),
        Quad {
            axis: Axis::X,
            tex_x: 16,
            tex_y: 24,
            tex_width: 4,
            tex_height: 12,
            a1: z1,
            a2: z2,
            b1: y1,
            b2: y2,
            plane: x2,
            swap_u: true
        }
    );
    assert_eq!(
        cube.quad(CubeFace::Right),
        Quad {
            axis: Axis::X,
            tex_x: 28,
            tex_y: 24,
            tex_width: 4,
            tex_height: 12,
            a1: z2,
            a2: z1,
            b1: y1,
            b2: y2,
            plane: x1,
            swap_u: true
        }
    );
}

#[test]
fn quads_do_not_overflow() {
    let mut e = element();
    e.uv_offset = Some([usize::MAX, usize::MAX]);
    e.faces.east = face([0, 0, usize::MAX, usize::MAX]);
    e.faces.up = face([usize::MAX, 0, 0, 0]);
    let cube = Cube::from_bbmodel_element(e);
    let back = cube.quad(CubeFace::Back);
    assert_eq!(back.tex_x, 4 * (usize::MAX as u128));
    assert_eq!(back.tex_y, 2 * (usize::MAX as u128));
}

#[test]
fn make_part_appends_six_quads() {
    let mut cube = sample_cube();
    let mut vertices: Vec<Quad> = Vec::new();
    cube.make_part(&mut vertices);
    assert_eq!(vertices.len(), 6);
    let faces = [
        CubeFace::Top,
        CubeFace::Bottom,
        CubeFace::Front,
        CubeFace::Back,
        CubeFace::Left,
        CubeFace::Right,
    ];
    for (k, face) in faces.iter().enumerate() {
        assert_eq!(vertices[k], cube.quad(*face));
    }
    assert_eq!(
        cube.model_part,
        Some(ModelPart {
            offset: 0,
            count: 24,
            rot_x: cube.pivot_origin[0],
            rot_y: cube.pivot_origin[1],
            rot_z: cube.pivot_origin[2],
        })
    );
    let part = cube.model_part.unwrap();
    assert_eq!([value(part.rot_x), value(part.rot_y), value(part.rot_z)], [0.0, 1.5, 0.0]);
    let mut second = Cube::from_bbmodel_element(element());
    second.make_part(&mut vertices);
    assert_eq!(vertices.len(), 12);
    assert_eq!(vertices[0], cube.quad(CubeFace::Top));
    assert_eq!(vertices[6], second.quad(CubeFace::Top));
    assert_eq!(vertices[11], second.quad(CubeFace::Right));
    let part = second.model_part.unwrap();
    assert_eq!((part.offset, part.count), (24, 24));
    assert_eq!(value(part.rot_x), 0.5);
}

#[test]
fn last_part_of_a_full_buffer_fits() {
    let mut vertices: Vec<Quad> = Vec::new();
    let mut cube = Cube::default();
    for _ in 0..MAX_CUBES {
        cube.make_part(&mut vertices);
    }
    assert_eq!(vertices.len(), MAX_CUBES * FACE_COUNT);
    assert_eq!(cube.model_part.unwrap().offset, 255 * 24);
}

#[test]
fn cube_is_drawn_plain_or_rotated() {
    let mut cube = sample_cube();
    let mut vertices: Vec<Quad> = Vec::new();
    cube.make_part(&mut vertices);
    let part = cube.model_part.unwrap();
    assert_eq!(cube.draw(), DrawCall::Part(part));
    cube.rot = Some(numbers(10.0, 20.0, 30.0));
    assert_eq!(
        cube.draw(),
        DrawCall::Rotate {
            angle_x: number(10.0),
            angle_y: number(20.0),
            angle_z: number(30.0),
            part,
            head: false,
        }
    );
}

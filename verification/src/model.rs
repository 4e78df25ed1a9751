//! The registry of models: each model is kept under its name, with its
//! texture, its cubes and the geometry built of them, and is replaced in
//! place when the name is registered again.

use vstd::prelude::*;
use vstd::string::*;
use crate::blockbench::{all_zero, is_blank, is_texture_len};
use crate::cube::{
    draw_call_of, face_at, part_of, quad_of, quads_of, Cube, DrawCall, Quad, FACE_COUNT, MAX_CUBES,
    MODEL_BOX_VERTICES,
};
use crate::error::Error;
use crate::scalar::Scalar;

verus! {

/// What a decoded image is in contracts.
pub struct ImageView {
    pub width: nat,
    pub height: nat,
    pub pixels: Seq<u8>,
}

/// A decoded texture: blue, green, red and alpha of each pixel, row by row.
/// It has four bytes for each pixel, and not all of them are zero.
#[derive(Debug)]
pub struct DecodedImage {
    width: usize,
    height: usize,
    pixels: Vec<u8>,
}

/// What a model is in contracts.
pub struct ModelView {
    pub name: Seq<char>,
    pub texture_name: Seq<char>,
    pub texture: ImageView,
    pub cubes: Seq<Cube>,
    pub vertices: Seq<Quad>,
}

/// An entry of the registry.
#[derive(Debug)]
pub struct Model {
    name: String,
    texture_name: String,
    texture: DecodedImage,
    cubes: Vec<Cube>,
    vertices: Vec<Quad>,
}

/// The place of a model in the registry. It stays the same for as long as
/// the model is registered, whatever the model is replaced by.
#[derive(Clone, Copy, Debug, PartialEq, Eq, Hash)]
pub struct ModelHandle {
    index: usize,
}

/// The models that are registered, each under a name of its own.
#[derive(Debug)]
pub struct Registry {
    models: Vec<Model>,
}

/// The box around an entity in which a click reaches it, in blocks. It is
/// not turned with the entity.
#[derive(Clone, Copy, Debug, PartialEq, Eq)]
pub struct PickingBounds {
    pub min: [Scalar; 3],
    pub max: [Scalar; 3],
}

/// One step of drawing a model.
#[derive(Clone, Copy, Debug, PartialEq, Eq)]
pub enum DrawCommand {
    /// Bind the model's texture.
    ApplyTexture,
    /// Draw one cube.
    Draw(DrawCall),
    /// Hand the vertices of all the cubes drawn to the renderer.
    UpdateVertexBuffer,
}

impl ImageView {
    /// Whether the image has four bytes for each pixel, not all of them zero.
    pub open spec fn wf(self) -> bool {
        &&& self.pixels.len() == self.width * self.height * 4
        &&& !all_zero(self.pixels)
    }
}

/// The cubes once they are built one after the other into an empty geometry
/// buffer: each has the part that covers its own vertices.
pub open spec fn built(cubes: Seq<Cube>) -> Seq<Cube> {
    Seq::new(
        cubes.len(),
        |i: int| cubes[i].with_part(Some(part_of(cubes[i], i * MODEL_BOX_VERTICES))),
    )
}

/// The geometry of the cubes: the six rectangles of each, one cube after the
/// other.
pub open spec fn all_quads(cubes: Seq<Cube>) -> Seq<Quad> {
    Seq::new(cubes.len() * 6, |k: int| quad_of(cubes[k / 6], face_at(k % 6)))
}

/// The name of the texture of the model with the given name.
pub open spec fn texture_name_of(name: Seq<char>) -> Seq<char> {
    name + "_texture"@
}

/// The model that registering makes of a name, a texture and cubes.
pub open spec fn model_of(name: Seq<char>, texture: ImageView, cubes: Seq<Cube>) -> ModelView {
    ModelView {
        name,
        texture_name: texture_name_of(name),
        texture,
        cubes: built(cubes),
        vertices: all_quads(cubes),
    }
}

/// A whole number of document units.
pub open spec fn units(negative: bool, n: u32) -> Scalar {
    Scalar { negative, mantissa: n, exponent: 0 }
}

/// Height of the name above an entity's feet, in document units: 32.5.
pub open spec fn name_y_units() -> Scalar {
    Scalar { negative: false, mantissa: 65, exponent: -1i32 }
}

/// Height of the eye above an entity's feet, in document units: 26.
pub open spec fn eye_y_units() -> Scalar {
    units(false, 26)
}

/// Width and depth of the space that an entity takes, in document units:
/// 8.6, as near as single precision comes to it.
pub open spec fn collision_width_units() -> Scalar {
    Scalar { negative: false, mantissa: 0x89_999a, exponent: -20i32 }
}

/// Height of the space that an entity takes, in document units: 28.1, as
/// near as single precision comes to it.
pub open spec fn collision_height_units() -> Scalar {
    Scalar { negative: false, mantissa: 0xe0_cccd, exponent: -19i32 }
}

/// The steps of drawing cubes: the texture, each cube in turn, then one
/// upload for all of them.
pub open spec fn draw_commands(cubes: Seq<Cube>) -> Seq<DrawCommand> {
    Seq::new(
        cubes.len() + 2,
        |i: int|
            if i == 0 {
                DrawCommand::ApplyTexture
            } else if i == cubes.len() + 1 {
                DrawCommand::UpdateVertexBuffer
            } else {
                DrawCommand::Draw(draw_call_of(cubes[i - 1]))
            },
    )
}

/// The first place from `start` on at which a model has the given name.
pub open spec fn position_from(models: Seq<ModelView>, name: Seq<char>, start: int) -> Option<int>
    decreases models.len() - start,
{
    if start < 0 || start >= models.len() {
        None
    } else if models[start].name == name {
        Some(start)
    } else {
        position_from(models, name, start + 1)
    }
}

/// The first place at which a model has the given name.
pub open spec fn position(models: Seq<ModelView>, name: Seq<char>) -> Option<int> {
    position_from(models, name, 0)
}

/// What registering does to the models, and the place of the model that was
/// registered: a name that is there has its model replaced where it stands,
/// a new name has its model added at the end.
pub open spec fn registered(
    models: Seq<ModelView>,
    name: Seq<char>,
    texture: ImageView,
    cubes: Seq<Cube>,
) -> (Seq<ModelView>, int) {
    match position(models, name) {
        Some(i) => (models.update(i, model_of(name, texture, cubes)), i),
        None => (models.push(model_of(name, texture, cubes)), models.len() as int),
    }
}

impl View for DecodedImage {
    type V = ImageView;

    closed spec fn view(&self) -> ImageView {
        ImageView {
            width: self.width as nat,
            height: self.height as nat,
            pixels: self.pixels@,
        }
    }
}

impl DecodedImage {
    #[verifier::type_invariant]
    spec fn well_formed(&self) -> bool {
        self@.wf()
    }

    /// The image of the given size and pixels, if the pixels are four bytes
    /// for each pixel of that size and not all zero.
    pub fn new(width: usize, height: usize, pixels: Vec<u8>) -> (r: Option<DecodedImage>)
        ensures
            r is Some <==> (ImageView {
                width: width as nat,
                height: height as nat,
                pixels: pixels@,
            }).wf(),
            r matches Some(image) ==> image@ == (ImageView {
                width: width as nat,
                height: height as nat,
                pixels: pixels@,
            }),
    {
        if !is_texture_len(pixels.len(), width, height) {
            return None;
        }
        if is_blank(&pixels) {
            return None;
        }
        Some(DecodedImage { width, height, pixels })
    }

    /// Pixels in a row.
    pub fn width(&self) -> (r: usize)
        ensures
            r == self@.width,
    {
        self.width
    }

    /// Rows.
    pub fn height(&self) -> (r: usize)
        ensures
            r == self@.height,
    {
        self.height
    }

    /// The bytes of the pixels: four for each pixel, not all of them zero.
    pub fn pixels(&self) -> (r: &Vec<u8>)
        ensures
            r@ == self@.pixels,
            self@.wf(),
    {
        proof {
            use_type_invariant(self);
        }
        &self.pixels
    }
}

impl View for ModelHandle {
    type V = int;

    closed spec fn view(&self) -> int {
        self.index as int
    }
}

impl ModelHandle {
    /// The place in the registry, counted from 0.
    pub fn index(&self) -> (r: usize)
        ensures
            r == self@,
    {
        self.index
    }
}

impl View for Model {
    type V = ModelView;

    closed spec fn view(&self) -> ModelView {
        ModelView {
            name: self.name@,
            texture_name: self.texture_name@,
            texture: self.texture@,
            cubes: self.cubes@,
            vertices: self.vertices@,
        }
    }
}

impl ModelView {
    /// Whether the model is one that registering makes: its texture is
    /// named after the model, its cubes fit a geometry buffer, and its
    /// geometry is built of them.
    pub open spec fn wf(self) -> bool {
        &&& self.texture_name == texture_name_of(self.name)
        &&& self.cubes.len() <= MAX_CUBES
        &&& self.cubes == built(self.cubes)
        &&& self.vertices == all_quads(self.cubes)
    }
}

impl Model {
    /// Whether the model is one that registering makes.
    pub open spec fn wf(&self) -> bool {
        self@.wf()
    }

    /// The name that the model is registered under.
    pub fn name(&self) -> (r: &String)
        ensures
            r@ == self@.name,
    {
        &self.name
    }

    /// The name of the model's texture.
    pub fn texture_name(&self) -> (r: &String)
        ensures
            r@ == self@.texture_name,
    {
        &self.texture_name
    }

    /// The model's texture.
    pub fn texture(&self) -> (r: &DecodedImage)
        ensures
            r@ == self@.texture,
    {
        &self.texture
    }

    /// The model's cubes.
    pub fn cubes(&self) -> (r: &Vec<Cube>)
        ensures
            r@ == self@.cubes,
    {
        &self.cubes
    }

    /// The model's geometry: the rectangles of its cubes.
    pub fn vertices(&self) -> (r: &Vec<Quad>)
        ensures
            r@ == self@.vertices,
    {
        &self.vertices
    }

    /// Builds the geometry anew: the buffer is emptied, then each cube is
    /// built into it in turn and keeps the part that covers its vertices.
    pub fn make_parts(&mut self)
        requires
            old(self)@.cubes.len() <= MAX_CUBES,
        ensures
            final(self)@ == (ModelView {
                cubes: built(old(self)@.cubes),
                vertices: all_quads(old(self)@.cubes),
                ..old(self)@
            }),
    {
        self.vertices.clear();
        let ghost cubes = self.cubes@;
        let mut i: usize = 0;
        while i < self.cubes.len()
            invariant
                i <= cubes.len() <= MAX_CUBES,
                self.cubes@.len() == cubes.len(),
                self.name == old(self).name,
                self.texture_name == old(self).texture_name,
                self.texture == old(self).texture,
                self.vertices@.len() == i * 6,
                forall|k: int|
                    0 <= k < i * 6 ==> self.vertices@[k] == quad_of(
                        cubes[k / 6],
                        face_at(k % 6),
                    ),
                forall|j: int| 0 <= j < i ==> self.cubes@[j] == #[trigger] built(cubes)[j],
                forall|j: int| i <= j < cubes.len() ==> self.cubes@[j] == cubes[j],
            decreases cubes.len() - i,
        {
            let mut cube: Cube = self.cubes[i];
            let ghost before = self.vertices@;
            cube.make_part(&mut self.vertices);
            self.cubes.set(i, cube);
            proof {
                let n: int = i as int;
                assert forall|k: int| 0 <= k < (n + 1) * 6 implies self.vertices@[k] == quad_of(
                    cubes[k / 6],
                    face_at(k % 6),
                ) by {
                    if k >= n * 6 {
                        assert(k / 6 == n && k % 6 == k - n * 6) by (nonlinear_arith)
                            requires
                                n * 6 <= k < (n + 1) * 6,
                        ;
                        assert(self.vertices@[k] == quads_of(cubes[n])[k - n * 6]);
                    }
                }
            }
            i += 1;
        }
        proof {
            assert(self.cubes@ =~= built(cubes));
            assert(self.vertices@ =~= all_quads(cubes));
        }
    }

    /// The model of the given name, texture and cubes, with its geometry
    /// built.
    pub fn create_model(name: &str, bmp: DecodedImage, cubes: Vec<Cube>) -> (r: Model)
        requires
            cubes@.len() <= MAX_CUBES,
        ensures
            r@ == model_of(name@, bmp@, cubes@),
    {
        let mut model = Model {
            name: String::from_str(name),
            texture_name: String::from_str(name).concat("_texture"),
            texture: bmp,
            cubes,
            vertices: Vec::new(),
        };
        model.make_parts();
        model
    }

    /// Replaces the model's texture and cubes where the model stands, and
    /// builds its geometry anew at once. Cubes that do not fit a geometry
    /// buffer are refused, and the model stays as it was.
    pub fn update_existing(&mut self, bmp: DecodedImage, cubes: Vec<Cube>) -> (r: Result<(), Error>)
        ensures
            cubes@.len() > MAX_CUBES ==> r == Err::<(), Error>(Error::GeometryCapacityExceeded)
                && *final(self) == *old(self),
            cubes@.len() <= MAX_CUBES ==> r is Ok && final(self)@ == (ModelView {
                texture: bmp@,
                cubes: built(cubes@),
                vertices: all_quads(cubes@),
                ..old(self)@
            }),
    {
        if cubes.len() > MAX_CUBES {
            return Err(Error::GeometryCapacityExceeded);
        }
        self.texture = bmp;
        self.cubes = cubes;
        self.make_parts();
        Ok(())
    }

    /// Height in blocks at which the name of an entity is drawn above its
    /// feet. It is the same for every model.
    pub fn name_y(&self) -> (r: Scalar)
        ensures
            r == name_y_units().spec_to_blocks(),
    {
        Scalar { negative: false, mantissa: 65, exponent: -1 }.to_blocks()
    }

    /// Height in blocks of the eye of an entity above its feet. It is the
    /// same for every model.
    pub fn eye_y(&self) -> (r: Scalar)
        ensures
            r == eye_y_units().spec_to_blocks(),
    {
        Scalar { negative: false, mantissa: 26, exponent: 0 }.to_blocks()
    }

    /// Width, height and depth in blocks of the space that an entity takes.
    /// They are the same for every model.
    pub fn collision_size(&self) -> (r: [Scalar; 3])
        ensures
            r[0] == collision_width_units().spec_to_blocks(),
            r[1] == collision_height_units().spec_to_blocks(),
            r[2] == collision_width_units().spec_to_blocks(),
    {
        let width: Scalar = Scalar { negative: false, mantissa: 0x89_999a, exponent: -20 }.to_blocks();
        let height: Scalar = Scalar { negative: false, mantissa: 0xe0_cccd, exponent: -19 }.to_blocks();
        [width, height, width]
    }

    /// The box in which a click reaches an entity: from (-8, 0, -4) to
    /// (8, 32, 4) in document units. It is the same for every model.
    pub fn picking_bounds(&self) -> (r: PickingBounds)
        ensures
            r.min[0] == units(true, 8).spec_to_blocks(),
            r.min[1] == units(false, 0).spec_to_blocks(),
            r.min[2] == units(true, 4).spec_to_blocks(),
            r.max[0] == units(false, 8).spec_to_blocks(),
            r.max[1] == units(false, 32).spec_to_blocks(),
            r.max[2] == units(false, 4).spec_to_blocks(),
    {
        PickingBounds {
            min: [
                Scalar { negative: true, mantissa: 8, exponent: 0 }.to_blocks(),
                Scalar { negative: false, mantissa: 0, exponent: 0 }.to_blocks(),
                Scalar { negative: true, mantissa: 4, exponent: 0 }.to_blocks(),
            ],
            max: [
                Scalar { negative: false, mantissa: 8, exponent: 0 }.to_blocks(),
                Scalar { negative: false, mantissa: 32, exponent: 0 }.to_blocks(),
                Scalar { negative: false, mantissa: 4, exponent: 0 }.to_blocks(),
            ],
        }
    }

    /// The steps of drawing the model: its texture is bound, each cube is
    /// drawn in turn, and the vertices of all of them are handed over once.
    /// Every cube must have its part, as every cube of a registered model
    /// has.
    pub fn draw(&self) -> (r: Vec<DrawCommand>)
        requires
            forall|i: int| 0 <= i < self@.cubes.len() ==> (#[trigger] self@.cubes[i]).model_part is Some,
        ensures
            r@ == draw_commands(self@.cubes),
    {
        let mut commands: Vec<DrawCommand> = Vec::new();
        commands.push(DrawCommand::ApplyTexture);
        let mut i: usize = 0;
        while i < self.cubes.len()
            invariant
                forall|i: int|
                    0 <= i < self@.cubes.len() ==> (#[trigger] self@.cubes[i]).model_part is Some,
                i <= self.cubes@.len(),
                commands@.len() == i + 1,
                forall|k: int| 0 <= k < i + 1 ==> commands@[k] == draw_commands(self@.cubes)[k],
            decreases self.cubes@.len() - i,
        {
            assert(self@.cubes[i as int].model_part is Some);
            commands.push(DrawCommand::Draw(self.cubes[i].draw()));
            i += 1;
        }
        commands.push(DrawCommand::UpdateVertexBuffer);
        assert(commands@ =~= draw_commands(self@.cubes));
        commands
    }
}

impl View for Registry {
    type V = Seq<ModelView>;

    closed spec fn view(&self) -> Seq<ModelView> {
        Seq::new(self.models@.len(), |i: int| self.models@[i]@)
    }
}

/// Whether no two of the models have one name, and each is one that
/// registering makes.
pub open spec fn models_wf(models: Seq<ModelView>) -> bool {
    &&& forall|i: int| 0 <= i < models.len() ==> (#[trigger] models[i]).wf()
    &&& forall|i: int, j: int|
        0 <= i < j < models.len() ==> (#[trigger] models[i]).name != (#[trigger] models[j]).name
}

impl Registry {
    /// Whether no two of the models have one name, and each is one that
    /// registering makes.
    pub open spec fn wf(&self) -> bool {
        models_wf(self@)
    }

    /// A registry without models.
    pub fn new() -> (r: Registry)
        ensures
            r@ == Seq::<ModelView>::empty(),
            r.wf(),
    {
        let r = Registry { models: Vec::new() };
        assert(r@ =~= Seq::<ModelView>::empty());
        r
    }

    /// The number of models.
    pub fn len(&self) -> (r: usize)
        ensures
            r == self@.len(),
    {
        self.models.len()
    }

    /// The place of the model with the given name, if there is one.
    pub fn find(&self, name: &str) -> (r: Option<ModelHandle>)
        ensures
            match r {
                Some(handle) => position(self@, name@) == Some(handle@),
                None => position(self@, name@) is None,
            },
    {
        let wanted: String = String::from_str(name);
        let mut i: usize = 0;
        while i < self.models.len()
            invariant
                i <= self.models@.len(),
                wanted@ == name@,
                position(self@, name@) == position_from(self@, name@, i as int),
            decreases self.models@.len() - i,
        {
            if self.models[i].name == wanted {
                return Some(ModelHandle { index: i });
            }
            i += 1;
        }
        None
    }

    /// The model at the given place, if there is one.
    pub fn get(&self, handle: ModelHandle) -> (r: Option<&Model>)
        ensures
            match r {
                Some(model) => 0 <= handle@ < self@.len() && model@ == self@[handle@],
                None => handle@ >= self@.len(),
            },
    {
        if handle.index < self.models.len() {
            Some(&self.models[handle.index])
        } else {
            None
        }
    }
}

/// Lets go of every model. A registry without models stays as it is.
pub fn free(registry: &mut Registry)
    ensures
        final(registry)@ == Seq::<ModelView>::empty(),
        final(registry).wf(),
{
    registry.models.clear();
    assert(registry@ =~= Seq::<ModelView>::empty());
}

impl Model {
    /// Registers cubes and a texture under a name. A name that is
    /// registered has its model replaced where it stands, so that its handle
    /// stays; a new name has its model added. Either way the geometry is
    /// built when the call returns. Cubes that do not fit a geometry buffer
    /// are refused, and the registry stays as it was.
    pub fn register(registry: &mut Registry, name: &str, bmp: DecodedImage, cubes: Vec<Cube>) -> (r:
        Result<ModelHandle, Error>)
        requires
            old(registry).wf(),
        ensures
            final(registry).wf(),
            cubes@.len() > MAX_CUBES ==> r == Err::<ModelHandle, Error>(
                Error::GeometryCapacityExceeded,
            ) && final(registry)@ == old(registry)@,
            cubes@.len() <= MAX_CUBES ==> (r matches Ok(handle) && (final(registry)@, handle@)
                == registered(old(registry)@, name@, bmp@, cubes@)),
    {
        if cubes.len() > MAX_CUBES {
            return Err(Error::GeometryCapacityExceeded);
        }
        let ghost models = registry@;
        match registry.find(name) {
            Some(handle) => {
                let i: usize = handle.index;
                proof {
                    lemma_position_is_first(models, name@, 0);
                }
                let _ = registry.models[i].update_existing(bmp, cubes);
                proof {
                    lemma_built_is_built(cubes@);
                    assert(registry@ =~= models.update(i as int, model_of(name@, bmp@, cubes@)));
                }
                Ok(handle)
            },
            None => {
                let model: Model = Model::create_model(name, bmp, cubes);
                let i: usize = registry.models.len();
                registry.models.push(model);
                proof {
                    lemma_position_is_first(models, name@, 0);
                    lemma_built_is_built(cubes@);
                    assert(registry@ =~= models.push(model_of(name@, bmp@, cubes@)));
                }
                Ok(ModelHandle { index: i })
            },
        }
    }
}

/// What `position_from` finds is the first model from `start` on with the
/// name, and it finds nothing only where there is none.
pub proof fn lemma_position_is_first(models: Seq<ModelView>, name: Seq<char>, start: int)
    requires
        0 <= start,
    ensures
        match position_from(models, name, start) {
            Some(i) => start <= i < models.len() && models[i].name == name && forall|j: int|
                start <= j < i ==> (#[trigger] models[j]).name != name,
            None => forall|j: int| start <= j < models.len() ==> (#[trigger] models[j]).name != name,
        },
    decreases models.len() - start,
{
    if start < models.len() && models[start].name != name {
        lemma_position_is_first(models, name, start + 1);
    }
}

/// Registering a name again gives the handle that the first registering
/// gave, and leaves as many models as there were; the model then has the
/// texture and the cubes of the second registering, and every other model is
/// as it was.
pub proof fn lemma_register_again(
    models: Seq<ModelView>,
    name: Seq<char>,
    first_texture: ImageView,
    first_cubes: Seq<Cube>,
    second_texture: ImageView,
    second_cubes: Seq<Cube>,
)
    ensures
        ({
            let (once, first) = registered(models, name, first_texture, first_cubes);
            let (twice, second) = registered(once, name, second_texture, second_cubes);
            &&& second == first
            &&& 0 <= first < once.len()
            &&& twice.len() == once.len()
            &&& twice[second] == model_of(name, second_texture, second_cubes)
            &&& twice[second].cubes.len() == second_cubes.len()
            &&& forall|i: int| 0 <= i < once.len() && i != first ==> twice[i] == once[i]
        }),
{
    let (once, first) = registered(models, name, first_texture, first_cubes);
    lemma_position_is_first(models, name, 0);
    lemma_first_is_position(once, name, 0, first);
}

/// The first model from `start` on with the name is what `position_from`
/// finds.
pub proof fn lemma_first_is_position(models: Seq<ModelView>, name: Seq<char>, start: int, i: int)
    requires
        0 <= start <= i < models.len(),
        models[i].name == name,
        forall|j: int| start <= j < i ==> (#[trigger] models[j]).name != name,
    ensures
        position_from(models, name, start) == Some(i),
    decreases i - start,
{
    if start < i {
        lemma_first_is_position(models, name, start + 1, i);
    }
}

/// Registering keeps the models those of a registry: no two under one
/// name, each with its geometry built.
pub proof fn lemma_registered_is_wf(
    models: Seq<ModelView>,
    name: Seq<char>,
    texture: ImageView,
    cubes: Seq<Cube>,
)
    requires
        models_wf(models),
        cubes.len() <= MAX_CUBES,
    ensures
        models_wf(registered(models, name, texture, cubes).0),
{
    lemma_position_is_first(models, name, 0);
    lemma_built_is_built(cubes);
}

/// The parts of built cubes follow one another in the geometry: the part of
/// the cube at `i` covers the 24 vertices from the `24 * i`th on, all of
/// them vertices of the cube's own rectangles.
pub proof fn lemma_parts_follow(cubes: Seq<Cube>, i: int)
    requires
        0 <= i < cubes.len() <= MAX_CUBES,
    ensures
        built(cubes)[i].model_part matches Some(part) && part.offset == i * MODEL_BOX_VERTICES
            && part.count == MODEL_BOX_VERTICES && part.offset + part.count <= all_quads(
            cubes,
        ).len() * 4,
        forall|k: int|
            0 <= k < FACE_COUNT ==> all_quads(cubes)[i * FACE_COUNT + k] == quad_of(
                cubes[i],
                face_at(k),
            ),
{
    assert forall|k: int| 0 <= k < FACE_COUNT implies all_quads(cubes)[i * FACE_COUNT + k]
        == quad_of(cubes[i], face_at(k)) by {
        let n: int = i * 6 + k;
        assert(n / 6 == i && n % 6 == k) by (nonlinear_arith)
            requires
                n == i * 6 + k,
                0 <= k < 6,
        ;
        assert(0 <= n < cubes.len() * 6);
    }
}

/// Cubes that were built stay as they are when they are built again.
pub proof fn lemma_built_is_built(cubes: Seq<Cube>)
    ensures
        built(built(cubes)) == built(cubes),
        all_quads(built(cubes)) == all_quads(cubes),
{
    assert(built(built(cubes)) =~= built(cubes));
    assert(all_quads(built(cubes)) =~= all_quads(cubes));
}

} // verus!

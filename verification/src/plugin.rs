//! The reload pipeline: which files are models and under what name, which
//! changes of a file load it again, and the loading itself.

use vstd::prelude::*;
use vstd::string::*;
use crate::blockbench::{cubes_of, parsed, Blockbench};
use crate::cube::MAX_CUBES;
use crate::error::Error;
use crate::json::BBModel;
use crate::model::{models_wf, registered, ImageView, ModelHandle, ModelView, Registry};

verus! {

/// What a watcher reports of a file, with the file's name in place of its
/// path.
#[derive(Clone, Debug, PartialEq, Eq)]
pub enum FileEvent {
    /// The file was created.
    Create(String),
    /// The file was written.
    Write(String),
    /// A file was renamed, from the first name to the second.
    Rename(String, String),
    /// Anything else.
    Other,
}

/// The pipeline's state: the models that are loaded, and whether changes of
/// files are still followed.
#[derive(Debug)]
pub struct Plugin {
    registry: Registry,
    watching: bool,
}

/// What the name of a model file ends in.
pub open spec fn model_suffix() -> Seq<char> {
    ".bbmodel"@
}

/// The name of the model that a file holds: what stands before `.bbmodel`
/// in the file's name, if the name ends so and does not begin there.
pub open spec fn model_name_of(file_name: Seq<char>) -> Option<Seq<char>> {
    let stem: int = file_name.len() - model_suffix().len();
    if stem > 0 && file_name.subrange(stem, file_name.len() as int) == model_suffix() {
        Some(file_name.subrange(0, stem))
    } else {
        None
    }
}

/// The name of the file that an event asks to load again, if it asks so.
pub open spec fn target_of(event: FileEvent) -> Option<String> {
    match event {
        FileEvent::Create(file_name) => Some(file_name),
        FileEvent::Write(file_name) => Some(file_name),
        FileEvent::Rename(_, file_name) => Some(file_name),
        FileEvent::Other => None,
    }
}

/// The name of the model that an event asks to load again, if it asks so
/// of a model file.
pub open spec fn reload_of(event: FileEvent) -> Option<Seq<char>> {
    match target_of(event) {
        Some(file_name) => model_name_of(file_name@),
        None => None,
    }
}

/// What loading a document under a name does to the models, and the place
/// of the model: nothing where the document fails a check or its cubes do
/// not fit a geometry buffer, else what registering its texture and cubes
/// does.
pub open spec fn loaded(models: Seq<ModelView>, name: Seq<char>, bb: BBModel) -> Result<
    (Seq<ModelView>, int),
    Error,
> {
    match parsed(bb) {
        Err(e) => Err(e),
        Ok(pixels) => if bb.elements@.len() > MAX_CUBES {
            Err(Error::GeometryCapacityExceeded)
        } else {
            Ok(
                registered(
                    models,
                    name,
                    ImageView {
                        width: bb.resolution.width as nat,
                        height: bb.resolution.height as nat,
                        pixels,
                    },
                    cubes_of(bb.elements@),
                ),
            )
        },
    }
}

/// Tells the name of the model that a file holds, from the file's name.
pub fn model_name(file_name: &str) -> (r: Option<String>)
    ensures
        match r {
            Some(name) => model_name_of(file_name@) == Some(name@),
            None => model_name_of(file_name@) is None,
        },
{
    proof {
        reveal_strlit(".bbmodel");
    }
    let len: usize = file_name.unicode_len();
    if len <= 8 {
        return None;
    }
    let suffix: String = String::from_str(file_name.substring_char(len - 8, len));
    if suffix != String::from_str(".bbmodel") {
        return None;
    }
    Some(String::from_str(file_name.substring_char(0, len - 8)))
}

/// Starts the pipeline: no model is loaded, and changes of files are
/// followed.
pub fn init() -> (r: Plugin)
    ensures
        r.models() == Seq::<ModelView>::empty(),
        r.watching(),
        r.wf(),
{
    Plugin { registry: Registry::new(), watching: true }
}

/// Ends the pipeline: changes of files are followed no more, and every
/// model is let go. A pipeline that was ended stays as it is.
pub fn free(plugin: &mut Plugin)
    ensures
        final(plugin).models() == Seq::<ModelView>::empty(),
        !final(plugin).watching(),
        final(plugin).wf(),
{
    plugin.watching = false;
    crate::model::free(&mut plugin.registry);
}

impl Plugin {
    /// The models that are loaded.
    pub closed spec fn models(&self) -> Seq<ModelView> {
        self.registry@
    }

    /// Whether changes of files are followed.
    pub closed spec fn watching(&self) -> bool {
        self.watching
    }

    /// Whether the models are those of a registry: no two under one name,
    /// each with its geometry built.
    pub open spec fn wf(&self) -> bool {
        models_wf(self.models())
    }

    /// The registry of the models that are loaded.
    pub fn registry(&self) -> (r: &Registry)
        ensures
            r@ == self.models(),
    {
        &self.registry
    }

    /// Whether changes of files are followed.
    pub fn is_watching(&self) -> (r: bool)
        ensures
            r == self.watching(),
    {
        self.watching
    }

    /// Loads a document and registers it under a name. A document that
    /// fails leaves every model as it was.
    pub fn load(&mut self, name: &str, bb: BBModel) -> (r: Result<ModelHandle, Error>)
        requires
            old(self).wf(),
        ensures
            final(self).wf(),
            final(self).watching() == old(self).watching(),
            match r {
                Ok(handle) => loaded(old(self).models(), name@, bb) == Ok::<
                    (Seq<ModelView>, int),
                    Error,
                >((final(self).models(), handle@)),
                Err(e) => loaded(old(self).models(), name@, bb) == Err::<
                    (Seq<ModelView>, int),
                    Error,
                >(e) && final(self).models() == old(self).models(),
            },
    {
        match Blockbench::parse_bbmodel(bb) {
            Ok(model) => model.register_model(&mut self.registry, name),
            Err(e) => Err(e),
        }
    }

    /// Tells the name of the model that an event asks to load again: that
    /// of the file that was created, written or renamed to, if it is a model
    /// file and changes are still followed.
    pub fn on_file_event(&self, event: &FileEvent) -> (r: Option<String>)
        ensures
            match r {
                Some(name) => self.watching() && reload_of(*event) == Some(name@),
                None => !self.watching() || reload_of(*event) is None,
            },
    {
        if !self.watching {
            return None;
        }
        match event {
            FileEvent::Create(file_name) => model_name(file_name.as_str()),
            FileEvent::Write(file_name) => model_name(file_name.as_str()),
            FileEvent::Rename(_, file_name) => model_name(file_name.as_str()),
            FileEvent::Other => None,
        }
    }
}

} // verus!

//! Neural model assets: raw model bytes, named after their file.
//! Registration with the engine is deferred to playback time, because it
//! needs a running engine.

use vstd::prelude::*;

use crate::paths::model_name_of;
use crate::paths::model_name_from_path;

verus! {

/// Raw model bytes and the name the engine will register them under.
#[derive(Debug, Clone, PartialEq, Eq)]
pub struct NeuralModelSource {
    pub bytes: Vec<u8>,
    pub name: String,
}

impl NeuralModelSource {
    pub fn new(bytes: Vec<u8>, name: String) -> (r: Self)
        ensures
            r.bytes@ == bytes@,
            r.name == name,
    {
        NeuralModelSource { bytes, name }
    }

    pub fn bytes(&self) -> (r: &[u8])
        ensures
            r@ == self.bytes@,
    {
        self.bytes.as_slice()
    }
}

/// Why loading a neural model failed.
#[derive(Debug, Clone, PartialEq, Eq)]
pub enum NeuralModelLoadError {
    Io(String),
}

/// Loader for serialized neural models.
#[derive(Clone, Copy, Debug, PartialEq, Eq, Structural)]
pub struct NeuralModelLoader;

impl NeuralModelLoader {
    /// The file extensions this loader accepts.
    pub fn extensions(&self) -> (r: Vec<String>)
        ensures
            r@.len() == 1,
            r@[0]@ == "mpk"@,
    {
        let mut r: Vec<String> = Vec::new();
        r.push(String::from_str("mpk"));
        r
    }

    /// Builds the asset from the bytes read at `path`: the model is named
    /// after the file's stem, `unknown` when the path has no file name.
    pub fn load_from_bytes(&self, bytes: Vec<u8>, path: &str) -> (r: NeuralModelSource)
        ensures
            r.bytes@ == bytes@,
            r.name@ == model_name_of(path@),
    {
        let name = model_name_from_path(path);
        NeuralModelSource::new(bytes, name)
    }
}

} // verus!

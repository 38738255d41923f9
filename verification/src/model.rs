//! The model component: a handle to a loadable 3D asset plus the
//! renderer slot it was loaded into.

use vstd::prelude::*;

verus! {

/// A 3D model reference: where its asset lives, and which renderer
/// object index displays it once it is loaded.
#[derive(Debug)]
pub struct Model3d {
    pub model_path: String,
    pub renderer_index: Option<usize>,
}

impl Model3d {
    /// A model that will be loaded from the given asset path; it is
    /// not linked to the renderer yet.
    pub fn from_obj(file_path: String) -> (r: Model3d)
        ensures
            r.model_path@ == file_path@,
            r.renderer_index is None,
    {
        Model3d { model_path: file_path, renderer_index: None }
    }

    /// The asset path.
    pub fn get_path(&self) -> (r: &str)
        ensures
            r@ == self.model_path@,
    {
        self.model_path.as_str()
    }

    /// Link the component to a renderer object slot.
    pub fn set_renderer_index(&mut self, index: usize)
        ensures
            *final(self) == (Model3d { renderer_index: Some(index), ..*old(self) }),
    {
        self.renderer_index = Some(index);
    }

    /// The renderer object slot, if the model has been linked.
    pub fn get_renderer_index(&self) -> (r: Option<&usize>)
        ensures
            match r {
                Some(i) => self.renderer_index == Some(*i),
                None => self.renderer_index is None,
            },
    {
        self.renderer_index.as_ref()
    }
}

} // verus!

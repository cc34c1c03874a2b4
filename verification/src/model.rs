//! A loaded acoustic and language model.

use crate::error::ModelLoadError;
use vstd::prelude::*;

verus! {

/// A model that the engine has loaded.
///
/// It is made from the handle that the engine gave for a path, and lives
/// until it is released. Every session made from it borrows it, so it
/// cannot be released while one of them is alive.
#[derive(Debug, PartialEq, Eq)]
pub struct VoskModel {
    root: String,
    handle: usize,
}

/// The mathematical value of a [`VoskModel`].
pub struct VoskModelView {
    /// The path that the model was loaded from.
    pub root: Seq<char>,
    /// The engine's handle, never null.
    pub handle: usize,
}

impl View for VoskModel {
    type V = VoskModelView;

    closed spec fn view(&self) -> VoskModelView {
        VoskModelView { root: self.root@, handle: self.handle }
    }
}

impl VoskModel {
    #[verifier::type_invariant]
    spec fn live(self) -> bool {
        self.handle != 0
    }

    /// Takes charge of the model that the engine loaded from `root`.
    ///
    /// `handle` is what the engine returned for that path; a null handle is
    /// the engine's way of saying that it could not load the model.
    pub fn new(root: &str, handle: usize) -> (res: Result<VoskModel, ModelLoadError>)
        ensures
            match res {
                Ok(model) => handle != 0 && model@ == (VoskModelView { root: root@, handle }),
                Err(_) => handle == 0,
            },
    {
        if handle == 0 {
            Err(ModelLoadError)
        } else {
            Ok(VoskModel { root: root.to_owned(), handle })
        }
    }

    /// The engine's handle for this model.
    pub fn handle(&self) -> (handle: usize)
        ensures
            handle == self@.handle,
            handle != 0,
    {
        proof {
            use_type_invariant(self);
        }
        self.handle
    }

    /// The path that the model was loaded from.
    pub fn root(&self) -> (root: &str)
        ensures
            root@ == self@.root,
    {
        self.root.as_str()
    }

    /// Gives the model up and hands out the handle that the engine is to free.
    pub fn release(self) -> (handle: usize)
        ensures
            handle == self@.handle,
            handle != 0,
    {
        proof {
            use_type_invariant(&self);
        }
        self.handle
    }
}

} // verus!

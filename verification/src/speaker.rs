//! A loaded speaker-identification model.

use crate::error::ModelLoadError;
use vstd::prelude::*;

verus! {

/// A speaker model that the engine has loaded.
///
/// It is made from the handle that the engine gave for a path, and lives
/// until it is released. Sessions that identify speakers borrow it, so it
/// cannot be released while one of them is alive.
#[derive(Debug, PartialEq, Eq)]
pub struct SpeakerModel {
    root: String,
    handle: usize,
}

/// The mathematical value of a [`SpeakerModel`].
pub struct SpeakerModelView {
    /// The path that the model was loaded from.
    pub root: Seq<char>,
    /// The engine's handle, never null.
    pub handle: usize,
}

impl View for SpeakerModel {
    type V = SpeakerModelView;

    closed spec fn view(&self) -> SpeakerModelView {
        SpeakerModelView { root: self.root@, handle: self.handle }
    }
}

impl SpeakerModel {
    #[verifier::type_invariant]
    spec fn live(self) -> bool {
        self.handle != 0
    }

    /// Takes charge of the speaker model that the engine loaded from `root`.
    ///
    /// `handle` is what the engine returned for that path; a null handle is
    /// the engine's way of saying that it could not load the model.
    pub fn new(root: &str, handle: usize) -> (res: Result<SpeakerModel, ModelLoadError>)
        ensures
            match res {
                Ok(model) => handle != 0 && model@ == (SpeakerModelView { root: root@, handle }),
                Err(_) => handle == 0,
            },
    {
        if handle == 0 {
            Err(ModelLoadError)
        } else {
            Ok(SpeakerModel { root: root.to_owned(), handle })
        }
    }

    /// The engine's handle for this model.
    pub fn handle(&self) -> (handle: usize)
        ensures
            handle == self@.handle,
            handle != 0,
    {
        proof {
            use_type_invariant(self);
        }
        self.handle
    }

    /// The path that the model was loaded from.
    pub fn root(&self) -> (root: &str)
        ensures
            root@ == self@.root,
    {
        self.root.as_str()
    }

    /// Gives the model up and hands out the handle that the engine is to free.
    pub fn release(self) -> (handle: usize)
        ensures
            handle == self@.handle,
            handle != 0,
    {
        proof {
            use_type_invariant(&self);
        }
        self.handle
    }
}

} // verus!

//! How far a run has come through its mappings.

use vstd::prelude::*;
use crate::mapping::{mapping_views, MappingView, SecretMapping};

verus! {

/// What a [`Cursor`] stands for: the mappings of a run in the order in which
/// they are worked on, and how many of them are done.
pub(crate) struct CursorView {
    pub(crate) mappings: Seq<MappingView>,
    pub(crate) position: nat,
}

impl CursorView {
    /// The run that has all of `mappings` before it.
    pub(crate) open spec fn start(mappings: Seq<MappingView>) -> CursorView {
        CursorView { mappings, position: 0 }
    }

    /// Some mapping is not done yet.
    pub(crate) open spec fn in_progress(self) -> bool {
        self.position < self.mappings.len()
    }

    /// Every mapping is done.
    pub(crate) open spec fn finished(self) -> bool {
        self.position == self.mappings.len()
    }

    /// The mapping that is worked on.
    pub(crate) open spec fn current(self) -> MappingView
        recommends
            self.in_progress(),
    {
        self.mappings[self.position as int]
    }

    /// The run with the current mapping done.
    pub(crate) open spec fn forward(self) -> CursorView {
        CursorView { mappings: self.mappings, position: self.position + 1 }
    }
}

/// The mappings of a run and the place of the one that is worked on.
pub(crate) struct Cursor {
    mappings: Vec<SecretMapping>,
    position: usize,
}

impl View for Cursor {
    type V = CursorView;

    closed spec fn view(&self) -> CursorView {
        CursorView { mappings: mapping_views(self.mappings@), position: self.position as nat }
    }
}

impl Cursor {
    #[verifier::type_invariant]
    spec fn within(&self) -> bool {
        self.position <= self.mappings.len()
    }

    pub(crate) fn new(mappings: Vec<SecretMapping>) -> (cursor: Cursor)
        ensures
            cursor@ == CursorView::start(mapping_views(mappings@)),
    {
        Cursor { mappings, position: 0 }
    }

    pub(crate) fn at_end(&self) -> (done: bool)
        ensures
            done == self@.finished(),
            !done == self@.in_progress(),
    {
        proof {
            use_type_invariant(self);
        }
        self.position == self.mappings.len()
    }

    pub(crate) fn current(&self) -> (mapping: &SecretMapping)
        requires
            self@.in_progress(),
        ensures
            mapping@ == self@.current(),
    {
        &self.mappings[self.position]
    }

    pub(crate) fn forward(self) -> (cursor: Cursor)
        requires
            self@.in_progress(),
        ensures
            cursor@ == self@.forward(),
    {
        let count: usize = self.mappings.len();
        assert(self.position < count);
        Cursor { mappings: self.mappings, position: self.position + 1 }
    }
}

} // verus!

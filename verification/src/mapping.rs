//! The pairing of a local file with a remote secret.

use vstd::prelude::*;

verus! {

/// One local file and the remote secret whose value it holds. Neither the
/// path nor the identifier is ever empty.
#[derive(Debug, PartialEq, Eq)]
pub struct SecretMapping {
    path: String,
    id: String,
}

/// What a [`SecretMapping`] stands for.
pub struct MappingView {
    pub path: Seq<char>,
    pub id: Seq<char>,
}

impl MappingView {
    /// Both parts are present.
    pub open spec fn well_formed(self) -> bool {
        self.path.len() > 0 && self.id.len() > 0
    }
}

impl View for SecretMapping {
    type V = MappingView;

    closed spec fn view(&self) -> MappingView {
        MappingView { path: self.path@, id: self.id@ }
    }
}

/// What a list of mappings stands for.
pub open spec fn mapping_views(mappings: Seq<SecretMapping>) -> Seq<MappingView> {
    Seq::new(mappings.len(), |i: int| mappings[i]@)
}

impl SecretMapping {
    #[verifier::type_invariant]
    spec fn holds_both(&self) -> bool {
        self.path@.len() > 0 && self.id@.len() > 0
    }

    /// Pairs `path` with `id`; there is no mapping with an empty part.
    pub fn new(path: String, id: String) -> (mapping: Option<SecretMapping>)
        ensures
            mapping is Some <==> path@.len() > 0 && id@.len() > 0,
            mapping matches Some(m) ==> m@ == (MappingView { path: path@, id: id@ }),
    {
        if path.as_str().is_empty() || id.as_str().is_empty() {
            None
        } else {
            Some(SecretMapping { path, id })
        }
    }

    /// Where the secret's value is kept locally.
    pub fn path(&self) -> (path: &str)
        ensures
            path@ == self@.path,
            self@.well_formed(),
    {
        proof {
            use_type_invariant(self);
        }
        self.path.as_str()
    }

    /// The name by which the remote side knows the secret.
    pub fn id(&self) -> (id: &str)
        ensures
            id@ == self@.id,
            self@.well_formed(),
    {
        proof {
            use_type_invariant(self);
        }
        self.id.as_str()
    }
}

} // verus!

//! The controller's finalizer: the merge patches that add and remove it, and their effect on the
//! resource's metadata.
use vstd::prelude::*;

use crate::crd::{finalizer_text, opt_text, texts, ResourceMeta, FINALIZER_NAME};

verus! {

/// The metadata of a resource, as text.
pub struct MetaView {
    pub name: Option<Seq<char>>,
    pub namespace: Option<Seq<char>>,
    pub finalizers: Option<Seq<Seq<char>>>,
    pub deletion_timestamp: Option<Seq<char>>,
}

impl View for ResourceMeta {
    type V = MetaView;

    open spec fn view(&self) -> MetaView {
        MetaView {
            name: opt_text(self.name),
            namespace: opt_text(self.namespace),
            finalizers: match self.finalizers {
                Some(f) => Some(texts(f@)),
                None => None,
            },
            deletion_timestamp: opt_text(self.deletion_timestamp),
        }
    }
}

/// The metadata once the finalizer merge patch has been applied: the finalizer list is this
/// controller's token alone.
pub open spec fn with_finalizer(m: MetaView) -> MetaView {
    MetaView { finalizers: Some(seq![finalizer_text()]), ..m }
}

/// The metadata once the removal merge patch has been applied: the finalizer list is gone.
pub open spec fn without_finalizer(m: MetaView) -> MetaView {
    MetaView { finalizers: None, ..m }
}

/// Whether the metadata lists this controller's finalizer.
pub open spec fn lists_finalizer(m: MetaView) -> bool {
    match m.finalizers {
        Some(f) => f.contains(finalizer_text()),
        None => false,
    }
}

/// The merge patch that sets the finalizer list to this controller's token.
pub fn finalizer_patch() -> (r: String)
    ensures
        r@ == "{\"metadata\":{\"finalizers\":[\"h2os.h2o.ai\"]}}"@,
{
    String::from_str("{\"metadata\":{\"finalizers\":[\"h2os.h2o.ai\"]}}")
}

/// The merge patch that clears the finalizer list.
pub fn finalizer_removal_patch() -> (r: String)
    ensures
        r@ == "{\"metadata\":{\"finalizers\":null}}"@,
{
    String::from_str("{\"metadata\":{\"finalizers\":null}}")
}

/// Brings a local copy of the metadata in line with a successful `finalizer_patch`.
pub fn add_finalizer(meta: &mut ResourceMeta)
    ensures
        final(meta)@ == with_finalizer(old(meta)@),
{
    proof {
        reveal_strlit("h2os.h2o.ai");
    }
    let token = String::from_str(FINALIZER_NAME);
    assert(token@ == finalizer_text());
    let mut v: Vec<String> = Vec::new();
    v.push(token);
    assert(texts(v@) =~= seq![finalizer_text()]);
    meta.finalizers = Some(v);
}

/// Brings a local copy of the metadata in line with a successful `finalizer_removal_patch`.
pub fn remove_finalizer(meta: &mut ResourceMeta)
    ensures
        final(meta)@ == without_finalizer(old(meta)@),
{
    meta.finalizers = None;
}

/// Adding the finalizer twice leaves the metadata as adding it once does, and it is then listed.
pub proof fn lemma_add_finalizer_idempotent(m: MetaView)
    ensures
        with_finalizer(with_finalizer(m)) == with_finalizer(m),
        lists_finalizer(with_finalizer(m)),
{
    assert(seq![finalizer_text()][0] == finalizer_text());
}

/// Removing the finalizer twice leaves the metadata as removing it once does, and it is then
/// no longer listed.
pub proof fn lemma_remove_finalizer_idempotent(m: MetaView)
    ensures
        without_finalizer(without_finalizer(m)) == without_finalizer(m),
        !lists_finalizer(without_finalizer(m)),
{
}

} // verus!

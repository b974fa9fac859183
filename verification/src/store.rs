//! The persistent artifact, modelled by its observable content: absent
//! before the first successful run, or one complete, previously
//! validated archive. The only write is an atomic replace, so a reader
//! observes either the prior content or the new content in full, never a
//! truncated file.

use vstd::prelude::*;
use crate::config::Config;
use crate::job::{step_rel, event_failed, lemma_failure_isolation, Action, Event, JobPaths, Phase};

verus! {

/// What the persistent artifact's content is after an atomic replace
/// with `data`: the complete new content, whatever stood there before.
pub open spec fn publish_model(before: Option<Seq<u8>>, data: Seq<u8>) -> Option<Seq<u8>> {
    Some(data)
}

/// The persistent artifact as its readers see it.
pub struct ArtifactStore {
    /// The current content, or none before the first successful publish.
    pub content: Option<Vec<u8>>,
}

impl View for ArtifactStore {
    type V = Option<Seq<u8>>;

    open spec fn view(&self) -> Option<Seq<u8>> {
        match self.content {
            Some(bytes) => Some(bytes@),
            None => None,
        }
    }
}

impl ArtifactStore {
    /// The state before any successful run: no artifact.
    pub fn new() -> (s: ArtifactStore)
        ensures
            s@ is None,
    {
        ArtifactStore { content: None }
    }

    /// Atomic replace: the content becomes the complete new data in one
    /// indivisible step; no intermediate state ever exists.
    pub fn publish(&mut self, data: Vec<u8>)
        ensures
            final(self)@ == publish_model(old(self)@, data@),
    {
        self.content = Some(data);
    }

    /// A read observes the current content in full, or its absence.
    pub fn read(&self) -> (r: Option<&Vec<u8>>)
        ensures
            r matches Some(bytes) ==> self@ == Some(bytes@),
            r is None ==> self@ is None,
    {
        match &self.content {
            Some(bytes) => Some(bytes),
            None => None,
        }
    }
}

/// What one read interleaved with one publish observes: the state after
/// the publish when the read comes later, the prior state otherwise.
pub open spec fn read_observation(
    before: Option<Seq<u8>>,
    data: Seq<u8>,
    after_publish: bool,
) -> Option<Seq<u8>> {
    if after_publish {
        publish_model(before, data)
    } else {
        before
    }
}

/// Atomic visibility: however one publish of `data` is interleaved with
/// any number of reads — read `i` landing before or after the publish as
/// `reads_after[i]` says — every read observes either the complete prior
/// content or the complete new content, never anything else.
pub proof fn lemma_atomic_visibility(
    before: Option<Seq<u8>>,
    data: Seq<u8>,
    reads_after: Seq<bool>,
)
    ensures
        forall|i: int|
            0 <= i < reads_after.len() ==> #[trigger] read_observation(
                before,
                data,
                reads_after[i],
            ) == before || read_observation(before, data, reads_after[i]) == Some(data),
{
}

/// Idempotent republish: publishing byte-identical content twice leaves
/// the artifact exactly as one publish leaves it.
pub proof fn lemma_republish_idempotent(before: Option<Seq<u8>>, data: Seq<u8>)
    ensures
        publish_model(publish_model(before, data), data) == publish_model(before, data),
{
}

/// How one pipeline action affects the persistent artifact: only a
/// publish touches it, installing the complete bytes of its source file;
/// every other action leaves it as it is.
pub open spec fn store_after_action(
    store: Option<Seq<u8>>,
    action: Action,
    src_data: Seq<u8>,
) -> Option<Seq<u8>> {
    if action is Publish {
        publish_model(store, src_data)
    } else {
        store
    }
}

/// Failure isolation, seen at the artifact: the step a failing stage
/// forces leads only to cleanup, so the persistent artifact is exactly
/// what it was before the job started.
pub proof fn lemma_failed_step_leaves_store(
    cfg: Config,
    paths: JobPaths,
    phase: Phase,
    event: Event,
    next: Phase,
    action: Action,
    store: Option<Seq<u8>>,
    src_data: Seq<u8>,
)
    requires
        step_rel(cfg, paths, phase, event, next, action),
        event_failed(event),
    ensures
        store_after_action(store, action, src_data) == store,
{
    lemma_failure_isolation(cfg, paths, phase, event, next, action);
}

} // verus!

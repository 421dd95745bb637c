//! The registry of mounted media handles.
//!
//! The rendering layer owns one playback handle per rendered item and
//! registers it here under the item's catalog index, removing it when the
//! item unmounts (for instance after a refetch replaces the list). The
//! transport effect consults the registry so that a command aimed at a
//! missing handle becomes a silent no-op instead of an error.

use vstd::prelude::*;
use crate::transport::TransportCommand;

verus! {

/// Which item indices currently have a mounted handle. One registry serves
/// one rendered list; a fresh list gets a fresh registry sized to it, so a
/// stale index beyond the new list's length simply counts as unmounted.
pub struct TransportRegistry {
    mounted: Vec<bool>,
}

impl TransportRegistry {
    /// Whether the item at index `i` currently has a mounted handle.
    pub closed spec fn spec_mounted(&self, i: usize) -> bool {
        i < self.mounted@.len() && self.mounted@[i as int]
    }

    /// A registry for a rendered list of `len` items, with no handle
    /// mounted yet.
    pub fn new(len: usize) -> (r: TransportRegistry)
        ensures
            forall|i: usize| !r.spec_mounted(i),
            r.spec_len() == len,
    {
        let mut mounted: Vec<bool> = Vec::new();
        let mut k: usize = 0;
        while k < len
            invariant
                mounted@.len() == k,
                k <= len,
                forall|m: int| 0 <= m < k ==> !mounted@[m],
            decreases len - k,
        {
            mounted.push(false);
            k = k + 1;
        }
        TransportRegistry { mounted }
    }

    /// Record that the item at index `i` has its handle attached. An index
    /// beyond the rendered list is ignored: nothing is rendered there.
    pub fn mount(&mut self, i: usize)
        ensures
            final(self).spec_mounted(i) == (i < old(self).spec_len()),
            forall|j: usize| j != i ==> final(self).spec_mounted(j) == old(self).spec_mounted(j),
            final(self).spec_len() == old(self).spec_len(),
    {
        if i < self.mounted.len() {
            self.mounted.set(i, true);
        }
    }

    /// Record that the item at index `i` lost its handle. An index beyond
    /// the rendered list already counts as unmounted.
    pub fn unmount(&mut self, i: usize)
        ensures
            !final(self).spec_mounted(i),
            forall|j: usize| j != i ==> final(self).spec_mounted(j) == old(self).spec_mounted(j),
            final(self).spec_len() == old(self).spec_len(),
    {
        if i < self.mounted.len() {
            self.mounted.set(i, false);
        }
    }

    /// The length of the rendered list this registry serves.
    pub closed spec fn spec_len(&self) -> usize {
        self.mounted@.len() as usize
    }

    /// Whether the item at index `i` currently has a mounted handle.
    #[verifier::when_used_as_spec(spec_mounted)]
    pub fn is_mounted(&self, i: usize) -> (r: bool)
        ensures
            r == self.spec_mounted(i),
    {
        i < self.mounted.len() && self.mounted[i]
    }
}

/// The sub-batch of `cmds` that addresses mounted handles, in order: the
/// commands that `dispatch` lets through.
pub open spec fn kept_cmds(cmds: Seq<TransportCommand>, reg: TransportRegistry) -> Seq<
    TransportCommand,
>
    decreases cmds.len(),
{
    if cmds.len() == 0 {
        seq![]
    } else {
        kept_cmds(cmds.drop_last(), reg) + (if reg.spec_mounted(cmds.last().spec_index()) {
            seq![cmds.last()]
        } else {
            seq![]
        })
    }
}

/// When every command in a batch addresses a mounted handle, dispatch lets
/// the whole batch through unchanged: filtering only ever drops commands
/// aimed at missing handles.
pub proof fn lemma_kept_cmds_all_mounted(cmds: Seq<TransportCommand>, reg: TransportRegistry)
    requires
        forall|k: int| 0 <= k < cmds.len() ==> reg.spec_mounted(#[trigger] cmds[k].spec_index()),
    ensures
        kept_cmds(cmds, reg) == cmds,
    decreases cmds.len(),
{
    if cmds.len() == 0 {
        assert(kept_cmds(cmds, reg) =~= cmds);
    } else {
        assert(forall|k: int|
            0 <= k < cmds.drop_last().len() ==> cmds.drop_last()[k] == cmds[k]);
        lemma_kept_cmds_all_mounted(cmds.drop_last(), reg);
        assert(kept_cmds(cmds, reg) =~= cmds);
    }
}

impl TransportRegistry {
    /// Keep, in order, the commands whose target handle is mounted; a
    /// command aimed at a missing handle is dropped, the promised no-op.
    pub fn dispatch(&self, cmds: &Vec<TransportCommand>) -> (out: Vec<TransportCommand>)
        ensures
            out@ == kept_cmds(cmds@, *self),
    {
        let mut out: Vec<TransportCommand> = Vec::new();
        let mut k: usize = 0;
        while k < cmds.len()
            invariant
                k <= cmds@.len(),
                out@ == kept_cmds(cmds@.take(k as int), *self),
            decreases cmds@.len() - k,
        {
            proof {
                assert(cmds@.take(k + 1).drop_last() =~= cmds@.take(k as int));
                assert(cmds@.take(k + 1).last() == cmds@[k as int]);
            }
            if self.is_mounted(cmds[k].index()) {
                out.push(cmds[k]);
            }
            proof {
                assert(out@ =~= kept_cmds(cmds@.take(k + 1), *self));
            }
            k = k + 1;
        }
        proof {
            assert(cmds@.take(cmds@.len() as int) =~= cmds@);
        }
        out
    }
}

} // verus!

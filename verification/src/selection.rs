//! Playback selection coordinator.
//!
//! Holds "no song selected" or "the song at index `i` is selected" and
//! offers the single mutating entry point, [`Selection::toggle`]. Every
//! rendered item derives its own `active` boolean from the same value, so
//! at most one item can ever be active.

use vstd::prelude::*;

verus! {

/// The shared selection state: `None` when no song is active, `Some(i)`
/// when the song at catalog index `i` is active.
///
/// There is exactly one writer (the click handler, through `toggle`); all
/// items are read-only observers through `is_active`.
pub struct Selection {
    current: Option<usize>,
}

/// What one toggle of index `i` does to a selection value: re-toggling the
/// selected index clears the selection, anything else replaces it wholesale.
pub open spec fn toggle_spec(sel: Option<usize>, i: usize) -> Option<usize> {
    if sel == Some(i) {
        None
    } else {
        Some(i)
    }
}

impl Selection {
    /// A fresh coordinator: no song is selected.
    pub fn new() -> (s: Selection)
        ensures
            s.current() == None::<usize>,
    {
        Selection { current: None }
    }

    /// The spec-level view of the selection.
    pub closed spec fn spec_current(&self) -> Option<usize> {
        self.current
    }

    /// The current selection value.
    #[verifier::when_used_as_spec(spec_current)]
    pub fn current(&self) -> (r: Option<usize>)
        ensures
            r == self.spec_current(),
    {
        self.current
    }

    /// Toggle the song at index `i`: deselect it if it is the one selected,
    /// otherwise make it the selection, replacing whatever was selected
    /// before. Out-of-range indices are accepted unchanged; bounds are the
    /// rendering layer's concern.
    pub fn toggle(&mut self, i: usize)
        ensures
            final(self).current() == toggle_spec(old(self).current(), i),
    {
        if self.current == Some(i) {
            self.current = None;
        } else {
            self.current = Some(i);
        }
    }

    /// Whether the item at index `i` is the active one. This is the derived
    /// `active` boolean each rendered item observes.
    pub fn is_active(&self, i: usize) -> (r: bool)
        ensures
            r == active_spec(self.current(), i),
    {
        self.current == Some(i)
    }
}

/// Whether index `i` counts as active under selection value `sel`.
pub open spec fn active_spec(sel: Option<usize>, i: usize) -> bool {
    sel == Some(i)
}

/// Single-playing invariant: under any selection value — hence after any
/// sequence of toggles — no two distinct indices are both active.
pub proof fn lemma_single_active(sel: Option<usize>, i: usize, j: usize)
    requires
        i != j,
    ensures
        !(active_spec(sel, i) && active_spec(sel, j)),
{
}

/// Toggle pair law: starting from "nothing selected" or from "exactly `i`
/// selected", two toggles of the same index `i` restore the selection to
/// its starting value. (From a selection of some other index `j`, the pair
/// ends at `None`, not at `Some(j)`, so that start is excluded.)
pub proof fn lemma_toggle_pair_restores(sel: Option<usize>, i: usize)
    requires
        sel == None::<usize> || sel == Some(i),
    ensures
        toggle_spec(toggle_spec(sel, i), i) == sel,
{
}

} // verus!

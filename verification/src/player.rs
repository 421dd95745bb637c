//! The page-level player: selection coordinator wired to the handle
//! registry.
//!
//! A click on an item toggles the shared selection and yields the ordered
//! transport command batch for that change, already restricted to the
//! handles that are actually mounted. The caller performs the commands on
//! the real media elements, in the order given.

use vstd::prelude::*;
use crate::registry::TransportRegistry;
use crate::registry::kept_cmds;
use crate::selection::Selection;
use crate::selection::toggle_spec;
use crate::transport::TransportCommand;
use crate::transport::selection_transition;
use crate::transport::transition_cmds;

verus! {

/// The visual treatment of one rendered item, a pure function of its
/// `active` boolean: never stored separately, so icon and image can not
/// drift apart from the audio state.
#[derive(Clone, Copy, Debug, PartialEq, Eq, Structural)]
pub struct VisualState {
    /// The note icon shows exactly beside the active item.
    pub note_icon: bool,
    /// The banner is shown in sepia exactly while the item is inactive.
    pub sepia: bool,
}

/// The visual state an item with the given `active` boolean must render.
pub fn visual_state(active: bool) -> (v: VisualState)
    ensures
        v.note_icon == active,
        v.sepia == !active,
{
    VisualState { note_icon: active, sepia: !active }
}

/// Selection state and handle registry for one rendered song list.
pub struct Player {
    /// The shared playback selection; its single writer is `handle_click`.
    pub selection: Selection,
    /// The mounted media handles of the rendered items.
    pub registry: TransportRegistry,
}

impl Player {
    /// A player for a rendered list of `rendered_len` items: nothing
    /// selected, no handle mounted yet.
    pub fn new(rendered_len: usize) -> (p: Player)
        ensures
            p.selection.spec_current() == None::<usize>,
            forall|i: usize| !p.registry.spec_mounted(i),
            p.registry.spec_len() == rendered_len,
    {
        Player { selection: Selection::new(), registry: TransportRegistry::new(rendered_len) }
    }

    /// React to a click on the item at index `i`: toggle the selection, and
    /// return the ordered transport batch for the change — pause and rewind
    /// the item that stops being active, then play the one that becomes
    /// active — restricted to the mounted handles.
    pub fn handle_click(&mut self, i: usize) -> (cmds: Vec<TransportCommand>)
        ensures
            final(self).selection.spec_current() == toggle_spec(
                old(self).selection.spec_current(),
                i,
            ),
            final(self).registry == old(self).registry,
            cmds@ == kept_cmds(
                transition_cmds(
                    old(self).selection.spec_current(),
                    toggle_spec(old(self).selection.spec_current(), i),
                ),
                old(self).registry,
            ),
    {
        let old_sel = self.selection.current();
        self.selection.toggle(i);
        let new_sel = self.selection.current();
        let batch = selection_transition(old_sel, new_sel);
        self.registry.dispatch(&batch)
    }

    /// Whether the item at index `i` is the active one.
    pub fn is_active(&self, i: usize) -> (r: bool)
        ensures
            r == (self.selection.spec_current() == Some(i)),
    {
        self.selection.is_active(i)
    }
}

} // verus!

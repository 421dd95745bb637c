//! Transport commands and the per-item transport effect.
//!
//! A selection change is translated into an ordered batch of transport
//! commands: first the previously active item is paused and rewound, then
//! the newly active one is played. Each item only ever reacts to its own
//! active/inactive transition; the batch is the concatenation of those
//! per-item reactions, deactivation first.

use vstd::prelude::*;
use crate::selection::active_spec;

verus! {

/// One transport instruction for the media handle of the item at the
/// carried catalog index.
#[derive(Clone, Copy, Debug, PartialEq, Eq, Structural)]
pub enum TransportCommand {
    /// Start playback of the item's audio.
    Play(usize),
    /// Pause the item's audio.
    Pause(usize),
    /// Reset the item's audio position to time zero.
    SeekToStart(usize),
}

impl TransportCommand {
    /// The catalog index of the item this command addresses.
    pub open spec fn spec_index(&self) -> usize {
        match *self {
            TransportCommand::Play(i) => i,
            TransportCommand::Pause(i) => i,
            TransportCommand::SeekToStart(i) => i,
        }
    }

    /// The catalog index of the item this command addresses.
    #[verifier::when_used_as_spec(spec_index)]
    pub fn index(&self) -> (i: usize)
        ensures
            i == self.spec_index(),
    {
        match *self {
            TransportCommand::Play(i) => i,
            TransportCommand::Pause(i) => i,
            TransportCommand::SeekToStart(i) => i,
        }
    }
}

/// The reaction of the item at index `i` to a change of its own `active`
/// boolean: play on becoming active; pause then seek to start on becoming
/// inactive; nothing when the boolean did not change.
pub open spec fn item_cmds(i: usize, was_active: bool, now_active: bool) -> Seq<
    TransportCommand,
> {
    if !was_active && now_active {
        seq![TransportCommand::Play(i)]
    } else if was_active && !now_active {
        seq![TransportCommand::Pause(i), TransportCommand::SeekToStart(i)]
    } else {
        seq![]
    }
}

/// The deactivation half of a selection change: the previously active item,
/// if it is no longer the selection, is paused and rewound.
pub open spec fn deactivation_cmds(old_sel: Option<usize>, new_sel: Option<usize>) -> Seq<
    TransportCommand,
> {
    match old_sel {
        Some(y) => item_cmds(y, true, active_spec(new_sel, y)),
        None => seq![],
    }
}

/// The activation half of a selection change: the newly active item, if it
/// was not already the selection, is played.
pub open spec fn activation_cmds(old_sel: Option<usize>, new_sel: Option<usize>) -> Seq<
    TransportCommand,
> {
    match new_sel {
        Some(x) => item_cmds(x, active_spec(old_sel, x), true),
        None => seq![],
    }
}

/// The full ordered batch a selection change emits: every deactivation
/// command precedes every activation command, so the old item is stopped
/// and rewound before the new one starts.
pub open spec fn transition_cmds(old_sel: Option<usize>, new_sel: Option<usize>) -> Seq<
    TransportCommand,
> {
    deactivation_cmds(old_sel, new_sel) + activation_cmds(old_sel, new_sel)
}

/// The reaction of one item to a change of its own `active` boolean, as an
/// executable command list.
pub fn item_transition(i: usize, was_active: bool, now_active: bool) -> (cmds: Vec<
    TransportCommand,
>)
    ensures
        cmds@ == item_cmds(i, was_active, now_active),
{
    let mut cmds: Vec<TransportCommand> = Vec::new();
    if !was_active && now_active {
        cmds.push(TransportCommand::Play(i));
    } else if was_active && !now_active {
        cmds.push(TransportCommand::Pause(i));
        cmds.push(TransportCommand::SeekToStart(i));
    }
    proof {
        assert(cmds@ =~= item_cmds(i, was_active, now_active));
    }
    cmds
}

/// The ordered command batch for a selection change from `old_sel` to
/// `new_sel`: pause and rewind the item that stops being active, then play
/// the item that becomes active.
pub fn selection_transition(old_sel: Option<usize>, new_sel: Option<usize>) -> (cmds: Vec<
    TransportCommand,
>)
    ensures
        cmds@ == transition_cmds(old_sel, new_sel),
{
    let mut cmds: Vec<TransportCommand> = Vec::new();
    if let Some(y) = old_sel {
        if new_sel != Some(y) {
            cmds.push(TransportCommand::Pause(y));
            cmds.push(TransportCommand::SeekToStart(y));
        }
    }
    if let Some(x) = new_sel {
        if old_sel != Some(x) {
            cmds.push(TransportCommand::Play(x));
        }
    }
    proof {
        assert(cmds@ =~= transition_cmds(old_sel, new_sel));
    }
    cmds
}

/// Stop before start: in the batch a selection change emits, every pause or
/// seek stands strictly before every play. A previously active item has
/// therefore received pause and seek-to-start before the newly active one
/// is played.
pub proof fn lemma_stop_before_start(
    old_sel: Option<usize>,
    new_sel: Option<usize>,
    k1: int,
    k2: int,
)
    requires
        0 <= k1 < transition_cmds(old_sel, new_sel).len(),
        0 <= k2 < transition_cmds(old_sel, new_sel).len(),
        !(transition_cmds(old_sel, new_sel)[k1] is Play),
        transition_cmds(old_sel, new_sel)[k2] is Play,
    ensures
        k1 < k2,
{
}

/// The observable transport state of one item's media handle: whether it is
/// playing, and whether its position is at time zero.
#[derive(Clone, Copy, Debug, PartialEq, Eq, Structural)]
pub struct HandleState {
    pub playing: bool,
    pub at_start: bool,
}

/// What one command does to a row of handle states: play starts the handle
/// and moves it off the start, pause stops it where it is, seek rewinds it
/// without stopping or starting it. A command aimed beyond the row — a
/// handle that is not there — changes nothing.
pub open spec fn apply_cmd(states: Seq<HandleState>, cmd: TransportCommand) -> Seq<HandleState> {
    if cmd.spec_index() < states.len() {
        let i = cmd.spec_index() as int;
        match cmd {
            TransportCommand::Play(_) => states.update(
                i,
                (HandleState { playing: true, at_start: false }),
            ),
            TransportCommand::Pause(_) => states.update(
                i,
                (HandleState { playing: false, at_start: states[i].at_start }),
            ),
            TransportCommand::SeekToStart(_) => states.update(
                i,
                (HandleState { playing: states[i].playing, at_start: true }),
            ),
        }
    } else {
        states
    }
}

/// The handle states after a batch of commands, applied in order.
pub open spec fn apply_cmds(states: Seq<HandleState>, cmds: Seq<TransportCommand>) -> Seq<
    HandleState,
>
    decreases cmds.len(),
{
    if cmds.len() == 0 {
        states
    } else {
        apply_cmd(apply_cmds(states, cmds.drop_last()), cmds.last())
    }
}

/// Apply a batch of transport commands, in order, to a row of handle
/// states. A command whose index lies beyond the row is a no-op.
pub fn apply_commands(states: &mut Vec<HandleState>, cmds: &Vec<TransportCommand>)
    ensures
        final(states)@ == apply_cmds(old(states)@, cmds@),
{
    let mut k: usize = 0;
    while k < cmds.len()
        invariant
            k <= cmds@.len(),
            states@ == apply_cmds(old(states)@, cmds@.take(k as int)),
        decreases cmds@.len() - k,
    {
        proof {
            assert(cmds@.take(k + 1).drop_last() =~= cmds@.take(k as int));
            assert(cmds@.take(k + 1).last() == cmds@[k as int]);
        }
        let cmd = cmds[k];
        let i = cmd.index();
        if i < states.len() {
            match cmd {
                TransportCommand::Play(_) => {
                    states.set(i, HandleState { playing: true, at_start: false });
                },
                TransportCommand::Pause(_) => {
                    let at_start = states[i].at_start;
                    states.set(i, HandleState { playing: false, at_start });
                },
                TransportCommand::SeekToStart(_) => {
                    let playing = states[i].playing;
                    states.set(i, HandleState { playing, at_start: true });
                },
            }
        }
        k = k + 1;
    }
    proof {
        assert(cmds@.take(cmds@.len() as int) =~= cmds@);
    }
}

/// The batch of a selection change is exactly the per-item reactions of the
/// two items whose `active` boolean can change, deactivation first: no item
/// reacts to anything but its own transition.
pub proof fn lemma_transition_is_per_item(old_sel: Option<usize>, new_sel: Option<usize>)
    ensures
        transition_cmds(old_sel, new_sel) == (match old_sel {
            Some(y) => item_cmds(y, true, active_spec(new_sel, y)),
            None => seq![],
        }) + (match new_sel {
            Some(x) => item_cmds(x, active_spec(old_sel, x), true),
            None => seq![],
        }),
{
}

/// Single-playing invariant at the transport level: if before a selection
/// change only the previously selected item could be playing, then after
/// the change's command batch only the newly selected item can be playing —
/// so at most one handle plays at any observed point. When the selection
/// actually changed and the new item's handle is present, that handle is
/// playing.
pub proof fn lemma_single_playing_preserved(
    states: Seq<HandleState>,
    old_sel: Option<usize>,
    new_sel: Option<usize>,
)
    requires
        forall|j: usize|
            j < states.len() && #[trigger] states[j as int].playing ==> old_sel == Some(j),
    ensures
        apply_cmds(states, transition_cmds(old_sel, new_sel)).len() == states.len(),
        forall|j: usize|
            j < states.len() && #[trigger] apply_cmds(
                states,
                transition_cmds(old_sel, new_sel),
            )[j as int].playing ==> new_sel == Some(j),
        forall|x: usize|
            new_sel == Some(x) && x < states.len() && old_sel != new_sel ==> #[trigger] apply_cmds(
                states,
                transition_cmds(old_sel, new_sel),
            )[x as int].playing,
{
    reveal_with_fuel(apply_cmds, 5);
    let cmds = transition_cmds(old_sel, new_sel);
    let empty = Seq::<TransportCommand>::empty();
    assert(apply_cmds(states, empty) == states);
    match old_sel {
        None => {
            match new_sel {
                None => {
                    assert(cmds =~= empty);
                },
                Some(x) => {
                    assert(cmds =~= seq![TransportCommand::Play(x)]);
                    assert(cmds.drop_last() =~= empty);
                    assert(apply_cmds(states, cmds) == apply_cmd(states, TransportCommand::Play(x)));
                },
            }
        },
        Some(y) => {
            match new_sel {
                None => {
                    assert(cmds =~= seq![
                        TransportCommand::Pause(y),
                        TransportCommand::SeekToStart(y),
                    ]);
                    assert(cmds.drop_last() =~= seq![TransportCommand::Pause(y)]);
                    assert(cmds.drop_last().drop_last() =~= empty);
                    let s1 = apply_cmd(states, TransportCommand::Pause(y));
                    assert(apply_cmds(states, cmds) == apply_cmd(
                        s1,
                        TransportCommand::SeekToStart(y),
                    ));
                },
                Some(x) => {
                    if x == y {
                        assert(cmds =~= empty);
                    } else {
                        assert(cmds =~= seq![
                            TransportCommand::Pause(y),
                            TransportCommand::SeekToStart(y),
                            TransportCommand::Play(x),
                        ]);
                        assert(cmds.drop_last().drop_last() =~= seq![TransportCommand::Pause(y)]);
                        assert(cmds.drop_last() =~= seq![
                            TransportCommand::Pause(y),
                            TransportCommand::SeekToStart(y),
                        ]);
                        assert(cmds.drop_last().drop_last().drop_last() =~= empty);
                        let s1 = apply_cmd(states, TransportCommand::Pause(y));
                        let s2 = apply_cmd(s1, TransportCommand::SeekToStart(y));
                        assert(apply_cmds(states, cmds) == apply_cmd(s2, TransportCommand::Play(x)));
                    }
                },
            }
        },
    }
}

} // verus!

use music_rs::CatalogResource;
use music_rs::CatalogState;
use music_rs::ErrorKind;
use music_rs::HandleState;
use music_rs::Player;
use music_rs::Selection;
use music_rs::SongInfo;
use music_rs::TransportCommand;
use music_rs::TransportRegistry;
use music_rs::apply_commands;
use music_rs::item_transition;
use music_rs::selection_transition;
use music_rs::visual_state;

fn song(title: &str) -> SongInfo {
    SongInfo::new(
        title.to_string(),
        format!("{}.ogg", title),
        format!("{}.png", title),
    )
}

fn fresh_handles(len: usize) -> Vec<HandleState> {
    let mut states = Vec::new();
    for _ in 0..len {
        states.push(HandleState {
            playing: false,
            at_start: true,
        });
    }
    states
}

fn playing_indices(states: &[HandleState]) -> Vec<usize> {
    states
        .iter()
        .enumerate()
        .filter(|(_, h)| h.playing)
        .map(|(i, _)| i)
        .collect()
}

#[test]
fn toggle_selects_and_reselect_clears() {
    let mut s = Selection::new();
    assert_eq!(s.current(), None);
    s.toggle(0);
    assert_eq!(s.current(), Some(0));
    s.toggle(0);
    assert_eq!(s.current(), None);
}

#[test]
fn toggle_replaces_previous_selection_wholesale() {
    let mut s = Selection::new();
    s.toggle(0);
    s.toggle(1);
    assert_eq!(s.current(), Some(1));
    assert!(!s.is_active(0));
    assert!(s.is_active(1));
}

#[test]
fn at_most_one_active_under_any_toggle_sequence() {
    let mut s = Selection::new();
    let clicks = [0usize, 2, 2, 1, 0, 0, 3, 1, 1];
    for &i in clicks.iter() {
        s.toggle(i);
        let active: Vec<usize> = (0..5).filter(|&j| s.is_active(j)).collect();
        assert!(active.len() <= 1);
    }
}

#[test]
fn toggle_pair_restores_from_none_and_from_same_index() {
    let mut s = Selection::new();
    s.toggle(4);
    s.toggle(4);
    assert_eq!(s.current(), None);

    let mut t = Selection::new();
    t.toggle(2);
    assert_eq!(t.current(), Some(2));
    t.toggle(2);
    t.toggle(2);
    assert_eq!(t.current(), Some(2));
}

#[test]
fn toggle_accepts_stale_out_of_range_index() {
    let mut s = Selection::new();
    s.toggle(1000);
    assert_eq!(s.current(), Some(1000));
}

#[test]
fn resource_starts_pending_with_ticket_zero() {
    let c = CatalogResource::new();
    assert_eq!(c.current_ticket(), 0);
    assert!(matches!(c.state(), CatalogState::Pending));
}

#[test]
fn resolve_with_current_ticket_reaches_ready() {
    let mut c = CatalogResource::new();
    let t = c.current_ticket();
    assert!(c.resolve(t, Ok(vec![song("A"), song("B")])));
    match c.state() {
        CatalogState::Ready(songs) => {
            assert_eq!(songs.len(), 2);
            assert_eq!(songs[0].title, "A");
            assert_eq!(songs[1].title, "B");
        }
        _ => panic!("expected Ready"),
    }
}

#[test]
fn each_error_kind_reaches_failed() {
    for kind in [ErrorKind::NotFound, ErrorKind::Unreadable, ErrorKind::Malformed] {
        let mut c = CatalogResource::new();
        let t = c.current_ticket();
        assert!(c.resolve(t, Err(kind)));
        match c.state() {
            CatalogState::Failed(e) => assert_eq!(*e, kind),
            _ => panic!("expected Failed"),
        }
    }
}

#[test]
fn refetch_discards_ready_data_and_returns_to_pending() {
    let mut c = CatalogResource::new();
    let t = c.current_ticket();
    assert!(c.resolve(t, Ok(vec![song("A")])));
    let _ = c.refetch();
    assert!(matches!(c.state(), CatalogState::Pending));
}

#[test]
fn later_refetch_supersedes_earlier_one() {
    // Refetch A issued, then refetch B issued before A resolves; B's result
    // arrives first and A's arrives after: the final state is B's result.
    let mut c = CatalogResource::new();
    let ticket_a = c.refetch();
    let ticket_b = c.refetch();
    assert!(c.resolve(ticket_b, Ok(vec![song("B")])));
    assert!(!c.resolve(ticket_a, Ok(vec![song("A")])));
    match c.state() {
        CatalogState::Ready(songs) => {
            assert_eq!(songs.len(), 1);
            assert_eq!(songs[0].title, "B");
        }
        _ => panic!("expected Ready with B's catalog"),
    }
}

#[test]
fn superseded_result_arriving_first_is_also_discarded() {
    let mut c = CatalogResource::new();
    let ticket_a = c.refetch();
    let ticket_b = c.refetch();
    assert!(!c.resolve(ticket_a, Err(ErrorKind::Unreadable)));
    assert!(matches!(c.state(), CatalogState::Pending));
    assert!(c.resolve(ticket_b, Ok(vec![song("B")])));
    match c.state() {
        CatalogState::Ready(songs) => assert_eq!(songs[0].title, "B"),
        _ => panic!("expected Ready"),
    }
}

#[test]
fn failed_fetch_then_successful_refetch_never_shows_stale_data() {
    // Fetch fails with Malformed; a refetch that succeeds with one song
    // moves straight from Pending to the fresh Ready value.
    let mut c = CatalogResource::new();
    let t = c.current_ticket();
    assert!(c.resolve(t, Err(ErrorKind::Malformed)));
    assert!(matches!(c.state(), CatalogState::Failed(ErrorKind::Malformed)));
    let t2 = c.refetch();
    assert!(matches!(c.state(), CatalogState::Pending));
    assert!(c.resolve(t2, Ok(vec![song("C")])));
    match c.state() {
        CatalogState::Ready(songs) => {
            assert_eq!(songs.len(), 1);
            assert_eq!(songs[0].title, "C");
        }
        _ => panic!("expected Ready with the fresh catalog"),
    }
}

#[test]
fn item_transition_emits_play_on_activation() {
    let cmds = item_transition(3, false, true);
    assert_eq!(cmds, vec![TransportCommand::Play(3)]);
}

#[test]
fn item_transition_emits_pause_then_seek_on_deactivation() {
    let cmds = item_transition(3, true, false);
    assert_eq!(
        cmds,
        vec![TransportCommand::Pause(3), TransportCommand::SeekToStart(3)]
    );
}

#[test]
fn item_transition_emits_nothing_without_a_transition() {
    assert_eq!(item_transition(3, false, false), vec![]);
    assert_eq!(item_transition(3, true, true), vec![]);
}

#[test]
fn selection_transition_stops_old_before_starting_new() {
    let cmds = selection_transition(Some(0), Some(1));
    assert_eq!(
        cmds,
        vec![
            TransportCommand::Pause(0),
            TransportCommand::SeekToStart(0),
            TransportCommand::Play(1),
        ]
    );
    let play_at = cmds
        .iter()
        .position(|c| matches!(c, TransportCommand::Play(_)))
        .unwrap();
    for (k, c) in cmds.iter().enumerate() {
        if !matches!(c, TransportCommand::Play(_)) {
            assert!(k < play_at);
        }
    }
}

#[test]
fn dispatch_drops_commands_for_unmounted_handles() {
    let mut reg = TransportRegistry::new(2);
    reg.mount(0);
    // Index 1 never mounted; index 5 is stale, beyond the rendered list.
    let cmds = vec![
        TransportCommand::Play(0),
        TransportCommand::Pause(1),
        TransportCommand::SeekToStart(5),
    ];
    let out = reg.dispatch(&cmds);
    assert_eq!(out, vec![TransportCommand::Play(0)]);
}

#[test]
fn unmount_makes_commands_no_ops_again() {
    let mut reg = TransportRegistry::new(1);
    reg.mount(0);
    assert!(reg.is_mounted(0));
    reg.unmount(0);
    assert!(!reg.is_mounted(0));
    let out = reg.dispatch(&vec![TransportCommand::Play(0)]);
    assert_eq!(out, vec![]);
}

#[test]
fn visual_state_is_a_pure_function_of_active() {
    let active = visual_state(true);
    assert!(active.note_icon);
    assert!(!active.sepia);
    let inactive = visual_state(false);
    assert!(!inactive.note_icon);
    assert!(inactive.sepia);
}

#[test]
fn two_song_scenario_drives_transport_and_selection() {
    // Catalog resolves to [A, B]; both items mount their handles.
    let mut c = CatalogResource::new();
    let t = c.current_ticket();
    assert!(c.resolve(t, Ok(vec![song("A"), song("B")])));
    let len = match c.state() {
        CatalogState::Ready(songs) => songs.len(),
        _ => panic!("expected Ready"),
    };
    let mut p = Player::new(len);
    p.registry.mount(0);
    p.registry.mount(1);
    let mut handles = fresh_handles(len);

    // toggle(0): A active, B inactive, A's handle played.
    let cmds = p.handle_click(0);
    assert_eq!(cmds, vec![TransportCommand::Play(0)]);
    apply_commands(&mut handles, &cmds);
    assert!(p.is_active(0));
    assert!(!p.is_active(1));
    assert_eq!(playing_indices(&handles), vec![0]);

    // toggle(1): A paused and reset, then B played; B active.
    let cmds = p.handle_click(1);
    assert_eq!(
        cmds,
        vec![
            TransportCommand::Pause(0),
            TransportCommand::SeekToStart(0),
            TransportCommand::Play(1),
        ]
    );
    apply_commands(&mut handles, &cmds);
    assert!(!p.is_active(0));
    assert!(p.is_active(1));
    assert_eq!(playing_indices(&handles), vec![1]);
    assert!(handles[0].at_start);

    // toggle(1) again: B paused and reset, nothing active.
    let cmds = p.handle_click(1);
    assert_eq!(
        cmds,
        vec![TransportCommand::Pause(1), TransportCommand::SeekToStart(1)]
    );
    apply_commands(&mut handles, &cmds);
    assert_eq!(p.selection.current(), None);
    assert!(!p.is_active(0));
    assert!(!p.is_active(1));
    assert_eq!(playing_indices(&handles), Vec::<usize>::new());
    assert!(handles[1].at_start);
}

#[test]
fn at_most_one_handle_plays_at_every_observed_point() {
    let mut p = Player::new(4);
    for i in 0..4 {
        p.registry.mount(i);
    }
    let mut handles = fresh_handles(4);
    let clicks = [0usize, 1, 1, 2, 3, 3, 3, 0, 2];
    for &i in clicks.iter() {
        let cmds = p.handle_click(i);
        apply_commands(&mut handles, &cmds);
        let playing = playing_indices(&handles);
        assert!(playing.len() <= 1);
        match p.selection.current() {
            Some(sel) => assert_eq!(playing, vec![sel]),
            None => assert_eq!(playing, Vec::<usize>::new()),
        }
    }
}

#[test]
fn stale_selection_after_shrinking_refetch_plays_nothing() {
    // A refetch shrinks the catalog from two songs to one while the second
    // song is selected; the selection is not reset, but the stale index has
    // no mounted handle, so its commands are dropped.
    let mut p = Player::new(2);
    p.registry.mount(0);
    p.registry.mount(1);
    let _ = p.handle_click(1);
    assert_eq!(p.selection.current(), Some(1));

    let mut p2 = Player {
        selection: p.selection,
        registry: TransportRegistry::new(1),
    };
    p2.registry.mount(0);
    let cmds = p2.handle_click(0);
    // The stale item 1 would be paused and reset, but its handle is gone:
    // only the play of item 0 survives.
    assert_eq!(cmds, vec![TransportCommand::Play(0)]);
}

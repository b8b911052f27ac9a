use eve_l_preview::classify::{classify_title, EveWindowType};
use eve_l_preview::color::RenderColor;
use eve_l_preview::config::{default_profiles, DisplayConfig, GlobalSettings, PersistentState};
use eve_l_preview::cycle::CycleState;
use eve_l_preview::dispatch::{
    collect_snap_peers, drag_target, find_by_damage, find_by_source, handle_button_press,
    handle_button_release, handle_focus_in, handle_focus_out, remove_thumbnail, resolve_creation,
    set_all_visibility,
};
use eve_l_preview::geom::{Dimensions, Position, TextOffset};
use eve_l_preview::session::SavedState;
use eve_l_preview::snap::Rect;
use eve_l_preview::tables::NameTable;
use eve_l_preview::thumbnail::{RenderOp, RenderedText, Thumbnail, ThumbnailIds, ThumbnailState};

fn display_config(hide: bool) -> DisplayConfig {
    DisplayConfig {
        opacity: 0xCC000000,
        border_size: 3,
        border_color: RenderColor { red: 65535, green: 0, blue: 0, alpha: 65535 },
        text_offset: TextOffset { x: 10, y: 20 },
        text_foreground: 0xFFFFFFFF,
        hide_when_no_focus: hide,
    }
}

fn daemon_state() -> PersistentState {
    PersistentState {
        profile: default_profiles().pop().unwrap(),
        global: GlobalSettings {
            hide_when_no_focus: false,
            snap_threshold: 15,
            hotkey_require_eve_focus: true,
            minimize_clients_on_switch: false,
            preserve_thumbnail_position_on_swap: false,
            default_thumbnail_width: 250,
            default_thumbnail_height: 141,
        },
        character_positions: NameTable::new(),
    }
}

fn make_thumbnail(name: &str, src: u32, base: u32, at: Position) -> Thumbnail {
    let ids = ThumbnailIds {
        window: base,
        border_fill: base + 1,
        src_picture: base + 2,
        dst_picture: base + 3,
        overlay_pixmap: base + 4,
        overlay_picture: base + 5,
        overlay_gc: base + 6,
        damage: base + 7,
    };
    let empty = RenderedText { width: 0, height: 0, data: Vec::new() };
    let (t, _) = Thumbnail::new(
        ids,
        name.to_string(),
        src,
        1,
        &display_config(false),
        Some(at),
        Rect { x: 0, y: 0, width: 1920, height: 1080 },
        Dimensions { width: 250, height: 141 },
        7,
        8,
        &empty,
        base + 8,
        base + 9,
    )
    .unwrap();
    t
}

#[test]
fn lookup_by_damage_and_source() {
    let regs = vec![
        make_thumbnail("Alice", 51, 100, Position { x: 0, y: 0 }),
        make_thumbnail("Bob", 52, 200, Position { x: 0, y: 0 }),
    ];
    assert_eq!(find_by_damage(&regs, 207), Some(1));
    assert_eq!(find_by_damage(&regs, 999), None);
    assert_eq!(find_by_source(&regs, 51), Some(0));
    assert_eq!(find_by_source(&regs, 53), None);
}

#[test]
fn focus_in_refocuses_and_shows_hidden_peers() {
    let mut regs = vec![
        make_thumbnail("Alice", 51, 100, Position { x: 0, y: 0 }),
        make_thumbnail("Bob", 52, 200, Position { x: 0, y: 0 }),
    ];
    // Hide everything first, as the policy would after all focus was lost.
    let ops = set_all_visibility(&mut regs, false);
    assert_eq!(
        ops,
        vec![
            RenderOp::UnmapWindow { window: 100 },
            RenderOp::UnmapWindow { window: 200 },
        ]
    );

    // Alice's client takes focus: her thumbnail is focused again, and the
    // policy demands all thumbnails reappear.
    let (idx, show_all) = handle_focus_in(&mut regs, 51, true);
    assert_eq!(idx, Some(0));
    assert!(show_all);
    assert_eq!(regs[0].state, ThumbnailState::Normal { focused: true });

    let ops = set_all_visibility(&mut regs, true);
    assert_eq!(
        ops,
        vec![RenderOp::MapWindow { window: 100 }, RenderOp::MapWindow { window: 200 }]
    );
    // Showing again is idempotent: nothing left to map.
    assert_eq!(set_all_visibility(&mut regs, true), vec![]);
}

#[test]
fn focus_out_hides_all_only_when_none_remain_active() {
    let mut regs = vec![
        make_thumbnail("Alice", 51, 100, Position { x: 0, y: 0 }),
        make_thumbnail("Bob", 52, 200, Position { x: 0, y: 0 }),
    ];
    let (_, _) = handle_focus_in(&mut regs, 51, true);
    let (_, _) = handle_focus_in(&mut regs, 52, true);

    // Alice loses focus while Bob still has it: nothing is hidden.
    let (idx, hide_all) = handle_focus_out(&mut regs, 51, true);
    assert_eq!(idx, Some(0));
    assert!(!hide_all);

    // Bob loses focus too: no thumbnail remains focused or minimized.
    let (idx, hide_all) = handle_focus_out(&mut regs, 52, true);
    assert_eq!(idx, Some(1));
    assert!(hide_all);

    // Without the policy flag the answer is always no.
    let (_, hide_all) = handle_focus_out(&mut regs, 51, false);
    assert!(!hide_all);
}

#[test]
fn button_press_starts_drag_on_the_hit_thumbnail() {
    let mut regs = vec![
        make_thumbnail("Alice", 51, 100, Position { x: 0, y: 0 }),
        make_thumbnail("Bob", 52, 200, Position { x: 0, y: 0 }),
    ];
    let geoms = vec![
        Rect { x: 40, y: 50, width: 250, height: 141 },
        Rect { x: 600, y: 50, width: 250, height: 141 },
    ];
    // The drag button on Bob's thumbnail.
    let a = handle_button_press(&mut regs, 610, 60, 3, &geoms).unwrap();
    assert_eq!(a.index, 1);
    assert!(a.begin_drag);
    assert!(!a.set_current);
    assert!(regs[1].input_state.dragging);
    assert_eq!(regs[1].input_state.drag_start, Position { x: 610, y: 60 });
    assert_eq!(regs[1].input_state.win_start, Position { x: 600, y: 50 });

    // The click button on Alice's thumbnail anchors the cycle cursor.
    let a = handle_button_press(&mut regs, 50, 60, 1, &geoms).unwrap();
    assert_eq!(a.index, 0);
    assert!(a.set_current);
    assert!(!regs[0].input_state.dragging);

    // A press on empty space decides nothing.
    assert!(handle_button_press(&mut regs, 1000, 1000, 1, &geoms).is_none());
}

#[test]
fn button_release_after_drag_persists_the_live_position() {
    let mut regs = vec![make_thumbnail("Alice", 51, 100, Position { x: 40, y: 50 })];
    let geoms = vec![Rect { x: 40, y: 50, width: 250, height: 141 }];
    handle_button_press(&mut regs, 50, 60, 3, &geoms).unwrap();

    // The thumbnail was dragged 40px right; release on it.
    let after = vec![Rect { x: 80, y: 50, width: 250, height: 141 }];
    let a = handle_button_release(&mut regs, 90, 60, 3, &after).unwrap();
    assert_eq!(a.index, 0);
    assert!(!a.focus);
    assert_eq!(a.save_position, Some(Position { x: 80, y: 50 }));
    assert!(!regs[0].input_state.dragging);

    // A plain click (no drag live) saves nothing and requests focus.
    let a = handle_button_release(&mut regs, 90, 60, 1, &after).unwrap();
    assert!(a.focus);
    assert_eq!(a.save_position, None);
}

#[test]
fn drag_motion_snaps_against_visible_non_dragging_peers() {
    let mut regs = vec![
        make_thumbnail("Alice", 51, 100, Position { x: 100, y: 100 }),
        make_thumbnail("Bob", 52, 200, Position { x: 152, y: 100 }),
    ];
    let geoms = vec![
        Rect { x: 100, y: 100, width: 50, height: 50 },
        Rect { x: 152, y: 100, width: 50, height: 50 },
    ];
    handle_button_press(&mut regs, 110, 110, 3, &geoms).unwrap();

    // Peers of the drag: only Bob (visible, not dragging), with his live
    // corner and configured size.
    let peers = collect_snap_peers(&regs, &geoms);
    assert_eq!(peers.len(), 1);
    assert_eq!(peers[0].0, 200);
    assert_eq!((peers[0].1.x, peers[0].1.y), (152, 100));

    // Use the snap-engine geometry of the concrete case: a 50x50 dragged
    // rectangle 2px short of Bob's left edge snaps to x = 102.
    let mut dragged = regs[0].clone();
    dragged.dimensions = Dimensions { width: 50, height: 50 };
    let peers = vec![(200u32, Rect { x: 152, y: 100, width: 50, height: 50 })];
    let target = drag_target(&dragged, 110, 110, &peers, 5).unwrap();
    assert_eq!(target, (102, 100));

    // Without a qualifying peer the pointer delta alone decides.
    let target = drag_target(&dragged, 130, 115, &[], 5).unwrap();
    assert_eq!(target, (120, 105));
}

#[test]
fn resolve_creation_prefers_saved_settings() {
    let mut persistent = daemon_state();
    let session = SavedState::new();
    persistent
        .character_positions
        .insert("Alice".to_string(), eve_l_preview::geom::CharacterSettings::new(7, 9, 480, 270));

    let (pos, dims) = resolve_creation(&persistent, &session, "Alice", 51, 1920, 1080);
    assert_eq!(pos, Some(Position { x: 7, y: 9 }));
    assert_eq!(dims, Dimensions { width: 480, height: 270 });

    // A saved record with zero size falls back to the configured default.
    persistent
        .character_positions
        .insert("Bob".to_string(), eve_l_preview::geom::CharacterSettings::new(1, 2, 0, 0));
    let (pos, dims) = resolve_creation(&persistent, &session, "Bob", 52, 1920, 1080);
    assert_eq!(pos, Some(Position { x: 1, y: 2 }));
    assert_eq!(dims, Dimensions { width: 250, height: 141 });

    // An unknown entity gets no position and the default size.
    let (pos, dims) = resolve_creation(&persistent, &session, "Carol", 53, 1920, 1080);
    assert_eq!(pos, None);
    assert_eq!(dims, Dimensions { width: 250, height: 141 });
}

#[test]
fn scenario_window_lifecycle_end_to_end() {
    // A window appears and is classified as the target "Alice".
    let title = classify_title("EVE - Alice").unwrap();
    let name = match &title {
        EveWindowType::LoggedIn(n) => n.clone(),
        EveWindowType::LoggedOut => String::new(),
    };
    assert_eq!(name, "Alice");

    let mut persistent = daemon_state();
    let mut session = SavedState::new();
    let mut cycle = CycleState::new(Vec::new());
    let mut regs: Vec<Thumbnail> = Vec::new();

    // No durable position: the thumbnail spawns at the source window's
    // corner plus the fixed padding offset.
    let (pos, dims) = resolve_creation(&persistent, &session, &name, 51, 1920, 1080);
    assert_eq!(pos, None);
    let ids = ThumbnailIds {
        window: 100,
        border_fill: 101,
        src_picture: 102,
        dst_picture: 103,
        overlay_pixmap: 104,
        overlay_picture: 105,
        overlay_gc: 106,
        damage: 107,
    };
    let empty = RenderedText { width: 0, height: 0, data: Vec::new() };
    let (t, ops) = Thumbnail::new(
        ids,
        name.clone(),
        51,
        1,
        &display_config(false),
        pos,
        Rect { x: 300, y: 400, width: 1920, height: 1080 },
        dims,
        7,
        8,
        &empty,
        108,
        109,
    )
    .unwrap();
    assert_eq!(
        ops[0],
        RenderOp::CreateWindow { window: 100, x: 320, y: 420, width: 250, height: 141 }
    );
    regs.push(t);
    cycle.add_window(name.clone(), 51);

    // Drag the thumbnail 40px right and release: the live position is
    // persisted durably for Alice and in the session cache.
    let geoms = vec![Rect { x: 320, y: 420, width: 250, height: 141 }];
    handle_button_press(&mut regs, 330, 430, 3, &geoms).unwrap();
    let dragged_to = drag_target(&regs[0], 370, 430, &[], 15).unwrap();
    assert_eq!(dragged_to, (360, 420));
    let after = vec![Rect { x: 360, y: 420, width: 250, height: 141 }];
    let a = handle_button_release(&mut regs, 370, 430, 3, &after).unwrap();
    let saved = a.save_position.unwrap();
    assert_eq!(saved, Position { x: 360, y: 420 });
    session.update_window_position(51, saved.x, saved.y);
    persistent.update_position(&regs[a.index].character_name, saved.x, saved.y, 250, 141);
    let alice = persistent.character_positions.get(&"Alice".to_string()).unwrap();
    assert_eq!((alice.x, alice.y), (360, 420));

    // The source window is destroyed: the thumbnail leaves the registry
    // (releasing everything it owns) and Alice leaves the cycle registry.
    cycle.remove_window(51);
    let gone = remove_thumbnail(&mut regs, 51).unwrap();
    assert!(gone.release_ops().contains(&RenderOp::DestroyWindow { window: 100 }));
    assert!(regs.is_empty());
    assert_eq!(cycle.cycle_forward(), None);
}

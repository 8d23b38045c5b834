use embedder::codec::{decode_surface_message, encode_surface_message, round_trip};
use embedder::commit::{BufferAssignment, SurfaceCommit, SurfaceTree, TextureUpdate};
use embedder::geometry::{Point, Rectangle, RectangleKind, Size};
use embedder::input::{KeyState, ModifiersState};
use embedder::key_repeater::{KeyRepeater, RepeatTimer};
use embedder::messages::{
    PopupMessage, SubsurfaceMessage, SurfaceMessage, SurfaceRole, ToplevelMessage, UiMessage,
    XdgSurfaceMessage, XdgSurfaceRole,
};
use embedder::server_state::ServerState;

fn node(surface_id: u64, buffer: BufferAssignment, below: Vec<SurfaceTree>, above: Vec<SurfaceTree>)
    -> SurfaceTree {
    SurfaceTree {
        surface: SurfaceCommit {
            surface_id,
            buffer,
            buffer_delta: None,
            buffer_scale: 1,
            input_region: None,
            geometry: None,
            subsurface_location: Point { x: 0, y: 0 },
        },
        below,
        above,
    }
}

fn leaf(surface_id: u64, buffer: BufferAssignment) -> SurfaceTree {
    node(surface_id, buffer, vec![], vec![])
}

fn new_buffer(w: i32, h: i32) -> BufferAssignment {
    BufferAssignment::NewBuffer(Some(Size { w, h }))
}

fn no_mods() -> ModifiersState {
    ModifiersState {
        ctrl: false,
        alt: false,
        shift: false,
        caps_lock: false,
        logo: false,
        num_lock: false,
    }
}

#[test]
fn surface_ids_strictly_increase_across_clients() {
    let mut state = ServerState::new();
    let mut seen: Vec<u64> = Vec::new();
    // Three clients take turns creating, committing and destroying.
    for round in 0..4 {
        for _client in 0..3 {
            let (id, message) = state.new_surface();
            assert_eq!(message, UiMessage::NewSurface { surface_id: id });
            seen.push(id);
            state.commit(&leaf(id, new_buffer(10 + round, 10)));
        }
        let oldest = seen[seen.len() - 3];
        assert_eq!(
            state.destroyed(oldest),
            (UiMessage::DestroySurface { surface_id: oldest }, vec![oldest as i64])
        );
        assert!(!state.is_registered(oldest));
    }
    assert_eq!(seen, (1..=12).collect::<Vec<u64>>());
    for pair in seen.windows(2) {
        assert!(pair[0] < pair[1]);
    }
    assert_eq!(state.next_surface_id, 13);
}

#[test]
fn a_surface_keeps_at_most_two_textures() {
    let mut state = ServerState::new();
    state.new_surface();
    state.new_surface();
    for step in 0..10 {
        let out = state.commit(&leaf(1, new_buffer(100 + step, 50)));
        let texture_id = i64::from(step) + 1;
        assert_eq!(out[0].message.texture_id, texture_id);
        // From the third texture on, the oldest leaves and is released.
        let released = if step >= 2 { Some(texture_id - 2) } else { None };
        assert_eq!(out[0].texture, Some(TextureUpdate { texture_id, is_new: true, released }));
        assert!(state.texture_ids(1).len() <= 2);
        assert!(state.texture_ids(2).len() <= 2);
    }
    assert_eq!(
        state.texture_ids(1),
        vec![(9, Size { w: 108, h: 50 }), (10, Size { w: 109, h: 50 })]
    );
    assert_eq!(state.texture_ids(2), vec![]);
    assert_eq!(state.next_texture_id, 11);
    // Only the textures in the list are entered under the surface.
    for texture_id in 1..=8 {
        assert_eq!(state.surface_id_per_texture_id.get(&texture_id), None);
    }
    assert_eq!(state.surface_id_per_texture_id.get(&9), Some(&1));
    assert_eq!(state.surface_id_per_texture_id.get(&10), Some(&1));
    assert_eq!(state.surface_id_per_texture_id.len(), 2);
}

#[test]
fn texture_maps_agree_after_a_change_of_size() {
    let mut state = ServerState::new();
    state.new_surface();
    state.new_surface();
    state.commit(&leaf(1, new_buffer(200, 100)));
    state.commit(&leaf(2, new_buffer(50, 50)));
    state.commit(&leaf(1, new_buffer(300, 100)));
    let third = state.commit(&leaf(1, new_buffer(400, 100)));
    assert_eq!(
        third[0].texture,
        Some(TextureUpdate { texture_id: 4, is_new: true, released: Some(1) })
    );
    assert_eq!(
        state.texture_ids(1),
        vec![(3, Size { w: 300, h: 100 }), (4, Size { w: 400, h: 100 })]
    );
    assert_eq!(state.texture_ids(2), vec![(2, Size { w: 50, h: 50 })]);
    assert_eq!(state.surface_id_per_texture_id.get(&1), None);
    assert_eq!(state.surface_id_per_texture_id.get(&2), Some(&2));
    assert_eq!(state.surface_id_per_texture_id.get(&3), Some(&1));
    assert_eq!(state.surface_id_per_texture_id.get(&4), Some(&1));
    assert_eq!(state.surface_id_per_texture_id.len(), 3);
}

#[test]
fn destroying_a_surface_releases_its_textures() {
    let mut state = ServerState::new();
    state.new_surface();
    state.new_surface();
    state.new_surface();
    state.commit(&leaf(1, new_buffer(200, 100)));
    state.commit(&leaf(2, new_buffer(50, 50)));
    state.commit(&leaf(1, new_buffer(300, 100)));
    let (message, released) = state.destroyed(1);
    assert_eq!(message, UiMessage::DestroySurface { surface_id: 1 });
    assert_eq!(released, vec![1, 3]);
    assert_eq!(state.texture_ids(1), vec![]);
    assert_eq!(state.texture_ids_per_surface_id.get(&1), None);
    assert_eq!(state.surface_id_per_texture_id.get(&1), None);
    assert_eq!(state.surface_id_per_texture_id.get(&3), None);
    // The textures of the others stay.
    assert_eq!(state.texture_ids(2), vec![(2, Size { w: 50, h: 50 })]);
    assert_eq!(state.surface_id_per_texture_id.get(&2), Some(&2));
    // A surface that never had a texture releases none.
    assert_eq!(state.destroyed(3), (UiMessage::DestroySurface { surface_id: 3 }, vec![]));
    // The ids of what was released are not handed out again.
    let next = state.commit(&leaf(2, new_buffer(60, 60)));
    assert_eq!(next[0].message.texture_id, 4);
}

#[test]
fn subsurface_messages_precede_their_parent() {
    let mut state = ServerState::new();
    for _ in 0..6 {
        state.new_surface();
    }
    state.new_subsurface(2, 1);
    state.new_subsurface(3, 1);
    state.new_subsurface(4, 3);
    state.new_subsurface(5, 1);
    // 1 has 2 below it, 3 and 5 above it; 3 has 4 below it. 6 stands alone.
    let tree = node(
        1,
        new_buffer(64, 64),
        vec![leaf(2, new_buffer(8, 8))],
        vec![
            node(3, new_buffer(16, 16), vec![leaf(4, BufferAssignment::Unchanged)], vec![]),
            leaf(5, BufferAssignment::Removed),
        ],
    );
    let outcomes = state.commit(&tree);
    let order: Vec<u64> = outcomes.iter().map(|o| o.message.surface_id).collect();
    assert_eq!(order, vec![2, 4, 3, 5, 1]);

    let own = &outcomes[4].message;
    assert_eq!(own.subsurfaces_below, vec![2]);
    assert_eq!(own.subsurfaces_above, vec![3, 5]);
    assert_eq!(outcomes[2].message.subsurfaces_below, vec![4]);
    assert_eq!(outcomes[2].message.subsurfaces_above, Vec::<u64>::new());

    // Texture ids go out in the order of the commits.
    assert_eq!(outcomes[0].message.texture_id, 1);
    assert_eq!(outcomes[1].message.texture_id, -1);
    assert_eq!(outcomes[2].message.texture_id, 2);
    assert_eq!(outcomes[3].message.texture_id, -1);
    assert_eq!(outcomes[4].message.texture_id, 3);
    assert_eq!(
        outcomes[4].texture,
        Some(TextureUpdate { texture_id: 3, is_new: true, released: None })
    );

    assert_eq!(
        outcomes[1].message.role,
        Some(SurfaceRole::Subsurface(SubsurfaceMessage {
            position: Point { x: 0, y: 0 },
            parent: 3,
        }))
    );
    assert_eq!(outcomes[4].message.role, None);
}

fn sample_message(role: Option<SurfaceRole>) -> SurfaceMessage {
    SurfaceMessage {
        surface_id: 7,
        role,
        texture_id: 3,
        buffer_delta: Some(Point { x: -2, y: 5 }),
        buffer_size: Some(Size { w: 200, h: 100 }),
        scale: 2,
        input_region: Rectangle { loc: Point { x: 1, y: 2 }, size: Size { w: 30, h: 40 } },
        subsurfaces_below: vec![8, 9],
        subsurfaces_above: vec![u64::MAX],
    }
}

#[test]
fn surface_message_round_trip() {
    let roles = vec![
        None,
        Some(SurfaceRole::X11Surface),
        Some(SurfaceRole::Subsurface(SubsurfaceMessage {
            position: Point { x: i32::MIN, y: i32::MAX },
            parent: 1,
        })),
        Some(SurfaceRole::XdgSurface(XdgSurfaceMessage { geometry: None, role: None })),
        Some(SurfaceRole::XdgSurface(XdgSurfaceMessage {
            geometry: Some(Rectangle { loc: Point { x: 0, y: 0 }, size: Size { w: 5, h: 6 } }),
            role: Some(XdgSurfaceRole::XdgPopup(PopupMessage {
                parent: 1,
                position: Point { x: 10, y: 20 },
            })),
        })),
        Some(SurfaceRole::XdgSurface(XdgSurfaceMessage {
            geometry: None,
            role: Some(XdgSurfaceRole::XdgToplevel(ToplevelMessage {
                parent_surface_id: Some(4),
                app_id: Some("foo".to_string()),
                title: None,
            })),
        })),
    ];
    for role in roles {
        let message = sample_message(role);
        let value = encode_surface_message(&message);
        assert_eq!(decode_surface_message(&value), Some(message.clone()));
        assert_eq!(round_trip(&message), message);
    }
    let bare = SurfaceMessage {
        surface_id: 0,
        role: None,
        texture_id: -1,
        buffer_delta: None,
        buffer_size: None,
        scale: 1,
        input_region: Rectangle { loc: Point { x: 0, y: 0 }, size: Size { w: 0, h: 0 } },
        subsurfaces_below: vec![],
        subsurfaces_above: vec![],
    };
    assert_eq!(round_trip(&bare), bare);
}

#[test]
fn unchanged_commit_repeats_the_texture() {
    let mut state = ServerState::new();
    state.new_surface();
    let first = state.commit(&leaf(1, new_buffer(200, 100)));
    let second = state.commit(&leaf(1, BufferAssignment::Unchanged));
    let third = state.commit(&leaf(1, BufferAssignment::Unchanged));
    assert_eq!(first[0].message.texture_id, 1);
    assert_eq!(second[0].message.texture_id, 1);
    assert_eq!(third[0].message.texture_id, 1);
    assert_eq!(second[0].message.buffer_size, Some(Size { w: 200, h: 100 }));
    assert_eq!(second[0].texture, None);
    assert_eq!(state.texture_ids(1), vec![(1, Size { w: 200, h: 100 })]);
    assert_eq!(state.next_texture_id, 2);
}

#[test]
fn unchanged_commit_without_texture_shows_none() {
    let mut state = ServerState::new();
    state.new_surface();
    let first = state.commit(&leaf(1, BufferAssignment::Removed));
    let second = state.commit(&leaf(1, BufferAssignment::Unchanged));
    assert_eq!(first[0].message.texture_id, -1);
    assert_eq!(second[0].message.texture_id, -1);
    assert_eq!(second[0].message.buffer_size, None);
}

#[test]
fn failed_import_shows_no_texture_and_keeps_the_old_one() {
    let mut state = ServerState::new();
    state.new_surface();
    state.commit(&leaf(1, new_buffer(20, 20)));
    let failed = state.commit(&leaf(1, BufferAssignment::NewBuffer(None)));
    assert_eq!(failed[0].message.texture_id, -1);
    assert_eq!(failed[0].message.buffer_size, None);
    assert_eq!(failed[0].texture, None);
    assert_eq!(state.texture_ids(1), vec![(1, Size { w: 20, h: 20 })]);
    // The texture that was kept shows again with the next unchanged commit.
    let next = state.commit(&leaf(1, BufferAssignment::Unchanged));
    assert_eq!(next[0].message.texture_id, 1);
}

#[test]
fn key_repeat_times() {
    let mut repeater = KeyRepeater::new();
    // Pressed at 0 with a delay of 200 and an interval of 50, released at 430.
    repeater.down(30, Some('a'), 0, 200, 50);
    assert_eq!(
        repeater.timer(30),
        Some(RepeatTimer { codepoint: Some('a'), due: 200, rate: 50 })
    );
    assert_eq!(repeater.fire_until(30, 430), vec![200, 250, 300, 350, 400]);
    assert_eq!(repeater.timer(30).unwrap().due, 450);
    repeater.up(30);
    assert_eq!(repeater.timer(30), None);
    assert_eq!(repeater.fire(30), None);
}

#[test]
fn key_repeat_bounds_are_exclusive() {
    let mut repeater = KeyRepeater::new();
    repeater.down(30, None, 1000, 200, 50);
    // Nothing is due before the delay is over, nor at the release itself.
    assert_eq!(repeater.fire_until(30, 1200), Vec::<u64>::new());
    assert_eq!(repeater.fire_until(30, 1201), vec![1200]);
    assert_eq!(repeater.fire_until(30, 1250), Vec::<u64>::new());
    assert_eq!(repeater.fire_until(30, 1351), vec![1250, 1300, 1350]);
}

#[test]
fn key_repeat_fires_one_by_one() {
    let mut repeater = KeyRepeater::new();
    repeater.down(44, Some('z'), 10, 200, 50);
    let first = repeater.fire(44).unwrap();
    assert_eq!(first, RepeatTimer { codepoint: Some('z'), due: 210, rate: 50 });
    let second = repeater.fire(44).unwrap();
    assert_eq!(second.due, 260);
    assert_eq!(repeater.timer(44).unwrap().due, 310);
}

#[test]
fn modifier_events_never_start_repeat() {
    let shift_l: u32 = 0xffe1;
    let mut state = ServerState::new();
    let event = state.handle_key_event(50, KeyState::Pressed, 5, no_mods(), shift_l, true, 100);
    assert!(event.mods_changed);
    assert_eq!(event.codepoint, None);
    assert!(state.key_repeater.timers.is_empty());

    state.handle_key_event(30, KeyState::Pressed, 6, no_mods(), 0x61, false, 100);
    assert_eq!(
        state.key_repeater.timer(30),
        Some(RepeatTimer { codepoint: Some('a'), due: 300, rate: 50 })
    );
    // A modifier event for the same key code neither restarts nor cancels it.
    state.handle_key_event(30, KeyState::Released, 7, no_mods(), shift_l, true, 150);
    state.handle_key_event(30, KeyState::Pressed, 8, no_mods(), shift_l, true, 160);
    state.handle_typed_key_event(30, KeyState::Pressed, 8, no_mods(), Some('x'), true, 160);
    assert_eq!(
        state.key_repeater.timer(30),
        Some(RepeatTimer { codepoint: Some('a'), due: 300, rate: 50 })
    );
    state.handle_key_event(30, KeyState::Released, 9, no_mods(), 0x61, false, 170);
    assert_eq!(state.key_repeater.timer(30), None);
}

#[test]
fn input_region_of_commit_is_merged() {
    let mut state = ServerState::new();
    state.new_surface();
    let mut tree = leaf(1, new_buffer(100, 100));
    tree.surface.input_region = Some(vec![
        (
            RectangleKind::Add,
            Rectangle { loc: Point { x: 10, y: 10 }, size: Size { w: 10, h: 10 } },
        ),
        (
            RectangleKind::Subtract,
            Rectangle { loc: Point { x: 0, y: 0 }, size: Size { w: 500, h: 500 } },
        ),
        (
            RectangleKind::Add,
            Rectangle { loc: Point { x: 50, y: 0 }, size: Size { w: 5, h: 5 } },
        ),
    ]);
    tree.surface.buffer_delta = Some(Point { x: 3, y: 4 });
    tree.surface.buffer_scale = 2;
    let out = state.commit(&tree);
    assert_eq!(
        out[0].message.input_region,
        Rectangle { loc: Point { x: 10, y: 0 }, size: Size { w: 45, h: 20 } }
    );
    assert_eq!(out[0].message.buffer_delta, Some(Point { x: 3, y: 4 }));
    assert_eq!(out[0].message.scale, 2);
}

#[test]
fn losing_the_focus_cancels_every_repeat() {
    let mut state = ServerState::new();
    state.handle_key_event(30, KeyState::Pressed, 1, no_mods(), 0x61, false, 0);
    state.handle_key_event(31, KeyState::Pressed, 2, no_mods(), 0x73, false, 10);
    assert!(state.key_repeater.timer(30).is_some());
    state.keyboard_focus_lost();
    assert_eq!(state.key_repeater.timer(30), None);
    assert_eq!(state.key_repeater.timer(31), None);
    assert_eq!(state.key_repeater.fire(30), None);
    // A key that goes down afterwards repeats again.
    state.handle_key_event(30, KeyState::Pressed, 3, no_mods(), 0x61, false, 500);
    assert_eq!(state.key_repeater.timer(30).unwrap().due, 700);
}

#[test]
fn a_commit_that_cannot_be_made_changes_nothing() {
    let mut state = ServerState::new();
    state.new_surface();
    state.new_surface();
    state.new_subsurface(2, 1);
    let pair = || node(1, new_buffer(10, 10), vec![leaf(2, new_buffer(5, 5))], vec![]);

    // A surface off the registry.
    let stranger = node(1, new_buffer(10, 10), vec![], vec![leaf(7, new_buffer(5, 5))]);
    assert_eq!(state.try_commit(&stranger), None);
    assert_eq!(state.texture_ids(1), vec![]);
    assert_eq!(state.next_texture_id, 1);

    // One texture id left for two surfaces.
    state.next_texture_id = i64::MAX - 1;
    assert_eq!(state.try_commit(&pair()), None);
    assert_eq!(state.next_texture_id, i64::MAX - 1);
    assert_eq!(state.texture_ids(2), vec![]);

    // One id left for one surface.
    let one = state.try_commit(&leaf(2, new_buffer(5, 5))).unwrap();
    assert_eq!(one[0].message.texture_id, i64::MAX - 1);
    assert_eq!(state.next_texture_id, i64::MAX);
    assert_eq!(state.try_commit(&leaf(1, BufferAssignment::Unchanged)), None);

    // With ids to spare the same tree is committed.
    let mut fresh = ServerState::new();
    fresh.new_surface();
    fresh.new_surface();
    fresh.new_subsurface(2, 1);
    fresh.next_texture_id = 100;
    let both = fresh.try_commit(&pair()).unwrap();
    let order: Vec<u64> = both.iter().map(|o| o.message.surface_id).collect();
    assert_eq!(order, vec![2, 1]);
    assert_eq!(both[0].message.texture_id, 100);
    assert_eq!(both[1].message.texture_id, 101);
}

#[test]
fn surface_ids_can_run_out() {
    let mut state = ServerState::new();
    assert_eq!(state.try_new_surface(), Some((1, UiMessage::NewSurface { surface_id: 1 })));
    state.next_surface_id = u64::MAX - 1;
    assert_eq!(
        state.try_new_surface(),
        Some((u64::MAX - 1, UiMessage::NewSurface { surface_id: u64::MAX - 1 }))
    );
    assert_eq!(state.try_new_surface(), None);
    assert_eq!(state.next_surface_id, u64::MAX);
    assert!(!state.is_registered(u64::MAX));
}

#[test]
fn a_surface_is_destroyed_once() {
    let mut state = ServerState::new();
    state.new_surface();
    state.commit(&leaf(1, new_buffer(8, 8)));
    assert_eq!(
        state.try_destroyed(1),
        Some((UiMessage::DestroySurface { surface_id: 1 }, vec![1]))
    );
    assert_eq!(state.try_destroyed(1), None);
    assert_eq!(state.try_destroyed(5), None);
    assert_eq!(state.next_surface_id, 2);
}

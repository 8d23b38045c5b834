use embedder::commit::{
    BufferAssignment, CommitOutcome, SurfaceCommit, SurfaceTree, TextureUpdate,
};
use embedder::environment::XWaylandEvent;
use embedder::geometry::{Point, Rectangle, Size};
use embedder::input::{
    dispatch_handled_key_event, KeyDisposition, KeyEvent, KeyState, ModifiersState, RequestError,
};
use embedder::messages::{
    PopupMessage, SurfaceRole, ToplevelMessage, UiMessage, XdgSurfaceMessage, XdgSurfaceRole,
};
use embedder::roles::Configure;
use embedder::server_state::ServerState;

fn plain(surface_id: u64, buffer: BufferAssignment) -> SurfaceTree {
    SurfaceTree {
        surface: SurfaceCommit {
            surface_id,
            buffer,
            buffer_delta: None,
            buffer_scale: 1,
            input_region: None,
            geometry: None,
            subsurface_location: Point { x: 0, y: 0 },
        },
        below: vec![],
        above: vec![],
    }
}

fn size(w: i32, h: i32) -> Size {
    Size { w, h }
}

fn only(outcomes: Vec<CommitOutcome>) -> CommitOutcome {
    assert_eq!(outcomes.len(), 1);
    outcomes.into_iter().next().unwrap()
}

fn no_mods() -> ModifiersState {
    ModifiersState {
        ctrl: false,
        alt: false,
        shift: false,
        caps_lock: false,
        logo: false,
        num_lock: false,
    }
}

#[test]
fn new_toplevel_first_commit() {
    let mut state = ServerState::new();
    let mut sent: Vec<UiMessage> = Vec::new();

    let (surface_id, message) = state.new_surface();
    assert_eq!(surface_id, 1);
    sent.push(message);
    sent.push(state.new_toplevel(1));
    let named = state.app_id_changed(1, Some("foo".to_string()));
    assert_eq!(
        named,
        UiMessage::AppIdChanged { surface_id: 1, app_id: Some("foo".to_string()) }
    );

    let first = only(state.commit(&plain(1, BufferAssignment::Unchanged)));
    assert_eq!(first.texture, None);
    assert_eq!(
        first.configure,
        Some(Configure::Toplevel { surface_id: 1, activated: true, maximized: true })
    );
    assert_eq!(first.message.texture_id, -1);
    assert_eq!(first.message.buffer_size, None);
    assert_eq!(
        first.message.role,
        Some(SurfaceRole::XdgSurface(XdgSurfaceMessage { geometry: None, role: None }))
    );
    sent.push(UiMessage::CommitSurface(first.message));

    let second = only(state.commit(&plain(1, BufferAssignment::NewBuffer(Some(size(200, 100))))));
    assert_eq!(second.texture, Some(TextureUpdate { texture_id: 1, is_new: true, released: None }));
    assert_eq!(second.configure, None);
    assert_eq!(second.message.surface_id, 1);
    assert_eq!(second.message.texture_id, 1);
    assert_eq!(second.message.buffer_size, Some(size(200, 100)));
    assert_eq!(
        second.message.input_region,
        Rectangle { loc: Point { x: 0, y: 0 }, size: size(200, 100) }
    );
    assert_eq!(
        second.message.role,
        Some(SurfaceRole::XdgSurface(XdgSurfaceMessage {
            geometry: None,
            role: Some(XdgSurfaceRole::XdgToplevel(ToplevelMessage {
                parent_surface_id: None,
                app_id: Some("foo".to_string()),
                title: None,
            })),
        }))
    );
    sent.push(UiMessage::CommitSurface(second.message));

    let methods: Vec<&str> = sent.iter().map(|m| m.method()).collect();
    assert_eq!(methods, vec!["new_surface", "new_toplevel", "commit_surface", "commit_surface"]);
    assert_eq!(sent[0], UiMessage::NewSurface { surface_id: 1 });
    assert_eq!(sent[1], UiMessage::NewToplevel { surface_id: 1 });
}

#[test]
fn size_change() {
    let mut state = ServerState::new();
    state.new_surface();

    let a = only(state.commit(&plain(1, BufferAssignment::NewBuffer(Some(size(200, 100))))));
    assert_eq!(a.message.texture_id, 1);
    assert_eq!(state.texture_ids(1), vec![(1, size(200, 100))]);

    let b = only(state.commit(&plain(1, BufferAssignment::NewBuffer(Some(size(200, 100))))));
    assert_eq!(b.message.texture_id, 1);
    assert_eq!(b.texture, Some(TextureUpdate { texture_id: 1, is_new: false, released: None }));
    assert_eq!(state.texture_ids(1), vec![(1, size(200, 100))]);

    let c = only(state.commit(&plain(1, BufferAssignment::NewBuffer(Some(size(300, 100))))));
    assert_eq!(c.message.texture_id, 2);
    assert_eq!(c.texture, Some(TextureUpdate { texture_id: 2, is_new: true, released: None }));
    assert_eq!(state.texture_ids(1), vec![(1, size(200, 100)), (2, size(300, 100))]);
    assert_eq!(state.surface_id_per_texture_id.get(&1), Some(&1));
    assert_eq!(state.surface_id_per_texture_id.get(&2), Some(&1));
}

#[test]
fn popup_with_parent() {
    let mut state = ServerState::new();
    state.new_surface();
    state.new_toplevel(1);
    state.new_surface();
    let message = state.new_popup(2, 1, Point { x: 10, y: 20 });
    assert_eq!(
        message,
        UiMessage::NewPopup { surface_id: 2, parent: 1, position: Point { x: 10, y: 20 } }
    );
    assert_eq!(message.method(), "new_popup");

    let first = only(state.commit(&plain(2, BufferAssignment::Unchanged)));
    assert_eq!(first.configure, Some(Configure::Popup { surface_id: 2 }));
    assert_eq!(
        first.message.role,
        Some(SurfaceRole::XdgSurface(XdgSurfaceMessage { geometry: None, role: None }))
    );

    let second = only(state.commit(&plain(2, BufferAssignment::Unchanged)));
    assert_eq!(second.configure, None);
    assert_eq!(
        second.message.role,
        Some(SurfaceRole::XdgSurface(XdgSurfaceMessage {
            geometry: None,
            role: Some(XdgSurfaceRole::XdgPopup(PopupMessage {
                parent: 1,
                position: Point { x: 10, y: 20 },
            })),
        }))
    );
}

#[test]
fn pointer_routing() {
    let mut state = ServerState::new();
    state.new_surface();
    assert_eq!(state.pointer_hover(1), Ok(1));
    let unknown = state.pointer_hover(999);
    assert_eq!(unknown, Err(RequestError::SurfaceDoesntExist { view_id: 999 }));
    assert_eq!(unknown.unwrap_err().code(), "surface_doesnt_exist");
    assert_eq!(state.pointer_hover(-1), Err(RequestError::SurfaceDoesntExist { view_id: -1 }));
}

#[test]
fn key_arbitration() {
    let press = KeyEvent {
        key_code: 38,
        codepoint: Some('A'),
        state: KeyState::Pressed,
        time: 7,
        mods: no_mods(),
        mods_changed: false,
    };
    assert_eq!(
        dispatch_handled_key_event(&press, false, true),
        KeyDisposition::TextInput { key_code: 38, codepoint: Some('A') }
    );
    assert_eq!(
        dispatch_handled_key_event(&press, false, false),
        KeyDisposition::Forward {
            key_code: 38,
            state: KeyState::Pressed,
            time: 7,
            mods_changed: false
        }
    );
    assert_eq!(dispatch_handled_key_event(&press, true, false), KeyDisposition::Consumed);
    assert_eq!(dispatch_handled_key_event(&press, true, true), KeyDisposition::Consumed);

    let with_ctrl = KeyEvent { mods: ModifiersState { ctrl: true, ..no_mods() }, ..press };
    assert_eq!(dispatch_handled_key_event(&with_ctrl, false, true), KeyDisposition::Withheld);
    let with_alt = KeyEvent { mods: ModifiersState { alt: true, ..no_mods() }, ..press };
    assert_eq!(dispatch_handled_key_event(&with_alt, false, true), KeyDisposition::Withheld);
    let release = KeyEvent { state: KeyState::Released, ..press };
    assert_eq!(dispatch_handled_key_event(&release, false, true), KeyDisposition::Withheld);
}

#[test]
fn xwayland_unavailable() {
    let mut state = ServerState::new();
    assert_eq!(state.xwayland_event(XWaylandEvent::Error), None);
    assert_eq!(state.xwayland_display, None);
    assert!(!state.xwayland_running());

    let (surface_id, _) = state.new_surface();
    let shown =
        only(state.commit(&plain(surface_id, BufferAssignment::NewBuffer(Some(size(4, 4))))));
    assert_eq!(shown.message.texture_id, 1);
}

#[test]
fn xwayland_ready_names_the_display() {
    let mut state = ServerState::new();
    let display = state.xwayland_event(XWaylandEvent::Ready { display_number: 0 });
    assert_eq!(display, Some(":0".to_string()));
    assert_eq!(state.xwayland_display, Some(0));
    assert!(state.xwayland_running());
    let display = state.xwayland_event(XWaylandEvent::Ready { display_number: 1207 });
    assert_eq!(display, Some(":1207".to_string()));
    let display = state.xwayland_event(XWaylandEvent::Ready { display_number: u32::MAX });
    assert_eq!(display, Some(":4294967295".to_string()));
    assert_eq!(state.xwayland_event(XWaylandEvent::Error), None);
    assert_eq!(state.xwayland_display, None);
}

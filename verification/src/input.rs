//! Keyboard and pointer routing: which key events repeat, who gets a key
//! event that the UI engine has looked at, and what the UI engine's pointer
//! and activation requests come to.

use crate::key_repeater::started_timer;
use crate::roles::Configure;
use crate::server_state::{ServerModel, ServerState, Toplevel};
use std::collections::HashMap;
use vstd::prelude::*;
use vstd::string::StringExecFns;

verus! {

/// Whether a key or a button went down or up.
#[derive(Clone, Copy, Debug, PartialEq, Eq, Structural)]
pub enum KeyState {
    Released,
    Pressed,
}

/// The modifiers that are in effect.
#[derive(Clone, Copy, Debug, PartialEq, Eq, Structural)]
pub struct ModifiersState {
    pub ctrl: bool,
    pub alt: bool,
    pub shift: bool,
    pub caps_lock: bool,
    pub logo: bool,
    pub num_lock: bool,
}

/// A key event as it is handed to the UI engine.
#[derive(Clone, Copy, Debug, PartialEq, Eq, Structural)]
pub struct KeyEvent {
    pub key_code: u32,
    pub codepoint: Option<char>,
    pub state: KeyState,
    pub time: u32,
    pub mods: ModifiersState,
    pub mods_changed: bool,
}

/// What the keyboard says of a key that is being released: its code, and
/// the modifiers, the key symbol and whether the modifiers changed, as they
/// stand once the key is up.
#[derive(Clone, Copy, Debug, PartialEq, Eq, Structural)]
pub struct KeyRelease {
    pub key_code: u32,
    pub mods: ModifiersState,
    pub keysym: u32,
    pub mods_changed: bool,
}

/// The character that the key symbol of this number types, if it types
/// one: the result of `xkeysym::Keysym::key_char` for the symbol.
pub uninterp spec fn keysym_char(keysym: u32) -> Option<char>;

/// Asks `xkeysym::Keysym::key_char` for the character of a key symbol. The
/// function looks the symbol up in fixed ranges and a fixed table, so its
/// result depends on the number of the symbol alone; the contract gives that
/// result its name and says no more of it.
#[verifier::external_body]
fn key_char(keysym: u32) -> (codepoint: Option<char>)
    ensures
        codepoint == keysym_char(keysym),
{
    xkeysym::Keysym::new(keysym).key_char()
}

/// What becomes of a key event once the UI engine has said whether it
/// handled it.
#[derive(Clone, Copy, Debug, PartialEq, Eq, Structural)]
pub enum KeyDisposition {
    /// The UI engine used the event itself.
    Consumed,
    /// The event goes to the UI engine's active text input.
    TextInput { key_code: u32, codepoint: Option<char> },
    /// A text input is active but takes no such event; no client gets it
    /// either.
    Withheld,
    /// The event goes to the client that has the keyboard focus.
    Forward { key_code: u32, state: KeyState, time: u32, mods_changed: bool },
}

/// A button event for the pointer of the seat.
#[derive(Clone, Copy, Debug, PartialEq, Eq, Structural)]
pub struct ButtonEvent {
    pub button: u32,
    pub state: KeyState,
}

/// Why a request of the UI engine failed.
#[derive(Clone, Copy, Debug, PartialEq, Eq, Structural)]
pub enum RequestError {
    /// No surface, or no toplevel, has the id that was asked for.
    SurfaceDoesntExist { view_id: i64 },
}

impl RequestError {
    /// The code under which the error is reported.
    pub fn code(&self) -> (code: &'static str)
        ensures
            code@ == "surface_doesnt_exist"@,
    {
        "surface_doesnt_exist"
    }
}

/// What the UI engine can ask of the compositor.
#[derive(Clone, Copy, Debug, PartialEq, Eq, Structural)]
pub enum RequestKind {
    /// The pointer is over a view.
    PointerHover,
    /// The pointer left all views.
    PointerExit,
    /// A mouse button went down or up.
    MouseButtonEvent,
    /// A window is to become active or to stop being so.
    ActivateWindow,
    /// Any other method: it is answered with success and nothing is done.
    Other,
}

/// The request that a method name of the UI engine stands for.
pub open spec fn spec_request_kind(method: Seq<char>) -> RequestKind {
    if method == "pointer_hover"@ {
        RequestKind::PointerHover
    } else if method == "pointer_exit"@ {
        RequestKind::PointerExit
    } else if method == "mouse_button_event"@ {
        RequestKind::MouseButtonEvent
    } else if method == "activate_window"@ {
        RequestKind::ActivateWindow
    } else {
        RequestKind::Other
    }
}

/// Tells which request a method name of the UI engine stands for.
pub fn request_kind(method: &str) -> (kind: RequestKind)
    ensures
        kind == spec_request_kind(method@),
{
    let name = String::from_str(method);
    if name.eq(&String::from_str("pointer_hover")) {
        RequestKind::PointerHover
    } else if name.eq(&String::from_str("pointer_exit")) {
        RequestKind::PointerExit
    } else if name.eq(&String::from_str("mouse_button_event")) {
        RequestKind::MouseButtonEvent
    } else if name.eq(&String::from_str("activate_window")) {
        RequestKind::ActivateWindow
    } else {
        RequestKind::Other
    }
}

/// The method names of the requests are four different texts.
pub proof fn lemma_request_names_differ()
    ensures
        spec_request_kind("pointer_hover"@) == RequestKind::PointerHover,
        spec_request_kind("pointer_exit"@) == RequestKind::PointerExit,
        spec_request_kind("mouse_button_event"@) == RequestKind::MouseButtonEvent,
        spec_request_kind("activate_window"@) == RequestKind::ActivateWindow,
{
    reveal_strlit("pointer_hover");
    reveal_strlit("pointer_exit");
    reveal_strlit("mouse_button_event");
    reveal_strlit("activate_window");
    assert("pointer_hover"@.len() == 13);
    assert("pointer_exit"@.len() == 12);
    assert("mouse_button_event"@.len() == 18);
    assert("activate_window"@.len() == 15);
}

/// The repeat timers after a key event: an event that only changed the
/// modifiers leaves them alone, a press starts the timer of its key, a
/// release cancels it.
pub open spec fn repeats_after_key(
    state: ServerModel,
    key_code: u32,
    key_state: KeyState,
    codepoint: Option<char>,
    mods_changed: bool,
    now: u64,
) -> ServerModel {
    if mods_changed {
        state
    } else {
        match key_state {
            KeyState::Pressed => ServerModel {
                repeats: state.repeats.insert(
                    key_code,
                    started_timer(codepoint, now, state.repeat_delay, state.repeat_rate),
                ),
                ..state
            },
            KeyState::Released => ServerModel {
                repeats: state.repeats.remove(key_code),
                ..state
            },
        }
    }
}

/// The state after a list of keys has been released, one after the other.
pub open spec fn state_after_releases(state: ServerModel, releases: Seq<KeyRelease>)
    -> ServerModel
    decreases releases.len(),
{
    if releases.len() == 0 {
        state
    } else {
        let release = releases.last();
        repeats_after_key(
            state_after_releases(state, releases.drop_last()),
            release.key_code,
            KeyState::Released,
            keysym_char(release.keysym),
            release.mods_changed,
            0,
        )
    }
}

/// The event that reports the release of a key.
pub open spec fn release_event(release: KeyRelease) -> KeyEvent {
    KeyEvent {
        key_code: release.key_code,
        codepoint: keysym_char(release.keysym),
        state: KeyState::Released,
        time: 0,
        mods: release.mods,
        mods_changed: release.mods_changed,
    }
}

/// What becomes of a key event. An event that the UI engine handled is
/// used up. While a text input of the UI engine is active, a press without
/// Ctrl or Alt goes to it and nothing goes to a client. Any other event
/// goes to the client in focus.
pub open spec fn spec_disposition(event: KeyEvent, handled: bool, text_input_active: bool)
    -> KeyDisposition {
    if handled {
        KeyDisposition::Consumed
    } else if text_input_active {
        if event.state == KeyState::Pressed && !event.mods.ctrl && !event.mods.alt {
            KeyDisposition::TextInput { key_code: event.key_code, codepoint: event.codepoint }
        } else {
            KeyDisposition::Withheld
        }
    } else {
        KeyDisposition::Forward {
            key_code: event.key_code,
            state: event.state,
            time: event.time,
            mods_changed: event.mods_changed,
        }
    }
}

/// Decides what becomes of a key event once the UI engine has said whether
/// it handled it.
pub fn dispatch_handled_key_event(event: &KeyEvent, handled: bool, text_input_active: bool) -> (
    disposition: KeyDisposition
)
    ensures
        disposition == spec_disposition(*event, handled, text_input_active),
{
    if handled {
        return KeyDisposition::Consumed;
    }
    if text_input_active {
        let pressed: bool = match event.state {
            KeyState::Pressed => true,
            KeyState::Released => false,
        };
        if pressed && !event.mods.ctrl && !event.mods.alt {
            return KeyDisposition::TextInput {
                key_code: event.key_code,
                codepoint: event.codepoint,
            };
        }
        return KeyDisposition::Withheld;
    }
    KeyDisposition::Forward {
        key_code: event.key_code,
        state: event.state,
        time: event.time,
        mods_changed: event.mods_changed,
    }
}

/// The synthetic press that the timer of a held key gives rise to.
pub fn repeat_key_event(key_code: u32, codepoint: Option<char>, time: u32, mods: ModifiersState)
    -> (event: KeyEvent)
    ensures
        event == (KeyEvent {
            key_code,
            codepoint,
            state: KeyState::Pressed,
            time,
            mods,
            mods_changed: false,
        }),
{
    KeyEvent { key_code, codepoint, state: KeyState::Pressed, time, mods, mods_changed: false }
}

/// The code that a table gives for a button, if it has one for it.
pub open spec fn spec_translate_button(table: Map<u32, u32>, button: u32) -> Option<u32> {
    if table.contains_key(button) {
        Some(table[button])
    } else {
        None
    }
}

/// Translates a button code of the UI engine into the code of the input
/// layer by a table from the one to the other.
pub fn translate_button(table: &HashMap<u32, u32>, button: u32) -> (code: Option<u32>)
    ensures
        code == spec_translate_button(table@, button),
{
    match table.get(&button) {
        Some(code) => Some(*code),
        None => None,
    }
}

/// Turns the UI engine's report of a mouse button into a button event for
/// the pointer, or into nothing where the table knows no such button.
pub fn mouse_button_event(table: &HashMap<u32, u32>, button: u32, is_pressed: bool) -> (event:
    Option<ButtonEvent>)
    ensures
        event == (match spec_translate_button(table@, button) {
            Some(code) => Some(
                ButtonEvent {
                    button: code,
                    state: if is_pressed {
                        KeyState::Pressed
                    } else {
                        KeyState::Released
                    },
                },
            ),
            None => None,
        }),
{
    match translate_button(table, button) {
        Some(code) => Some(
            ButtonEvent {
                button: code,
                state: if is_pressed {
                    KeyState::Pressed
                } else {
                    KeyState::Released
                },
            },
        ),
        None => None,
    }
}

impl ServerModel {
    /// The surface that a view id of the UI engine stands for, if it is
    /// registered.
    pub open spec fn surface_of_view(self, view_id: i64) -> Option<u64> {
        if view_id >= 0 && self.surfaces.contains_key(view_id as u64) {
            Some(view_id as u64)
        } else {
            None
        }
    }

    /// The toplevel that a view id of the UI engine stands for, if there is
    /// a record of it.
    pub open spec fn toplevel_of_view(self, view_id: i64) -> Option<u64> {
        if view_id >= 0 && self.toplevels.contains_key(view_id as u64) {
            Some(view_id as u64)
        } else {
            None
        }
    }
}

impl ServerState {
    /// Takes in a key event with what the keyboard made of it, the key
    /// symbol among it: finds the character of the symbol, builds the event
    /// for the UI engine and starts or cancels the repeat of the key. `now`
    /// is the time in milliseconds by which repeats are scheduled.
    pub fn handle_key_event(
        &mut self,
        key_code: u32,
        state: KeyState,
        time: u32,
        mods: ModifiersState,
        keysym: u32,
        mods_changed: bool,
        now: u64,
    ) -> (event: KeyEvent)
        requires
            !mods_changed && state == KeyState::Pressed ==> now + old(self)@.repeat_delay
                <= u64::MAX,
        ensures
            event == (KeyEvent {
                key_code,
                codepoint: keysym_char(keysym),
                state,
                time,
                mods,
                mods_changed,
            }),
            final(self)@ == repeats_after_key(
                old(self)@,
                key_code,
                state,
                keysym_char(keysym),
                mods_changed,
                now,
            ),
            mods_changed ==> final(self)@.repeats == old(self)@.repeats,
            old(self)@.wf() ==> final(self)@.wf(),
    {
        let codepoint = key_char(keysym);
        self.handle_typed_key_event(key_code, state, time, mods, codepoint, mods_changed, now)
    }

    /// Takes in a key event whose character is known: builds the event for
    /// the UI engine and starts or cancels the repeat of the key. An event
    /// that only changed the modifiers touches no repeat.
    pub fn handle_typed_key_event(
        &mut self,
        key_code: u32,
        state: KeyState,
        time: u32,
        mods: ModifiersState,
        codepoint: Option<char>,
        mods_changed: bool,
        now: u64,
    ) -> (event: KeyEvent)
        requires
            !mods_changed && state == KeyState::Pressed ==> now + old(self)@.repeat_delay
                <= u64::MAX,
        ensures
            event == (KeyEvent { key_code, codepoint, state, time, mods, mods_changed }),
            final(self)@ == repeats_after_key(
                old(self)@,
                key_code,
                state,
                codepoint,
                mods_changed,
                now,
            ),
            mods_changed ==> final(self)@.repeats == old(self)@.repeats,
            old(self)@.wf() ==> final(self)@.wf(),
    {
        if !mods_changed {
            match state {
                KeyState::Pressed => {
                    self.key_repeater.down(
                        key_code,
                        codepoint,
                        now,
                        self.repeat_delay,
                        self.repeat_rate,
                    );
                },
                KeyState::Released => {
                    self.key_repeater.up(key_code);
                },
            }
        }
        KeyEvent { key_code, codepoint, state, time, mods, mods_changed }
    }

    /// Takes note that no surface has the keyboard focus any more: no key
    /// repeats from here on until it goes down again.
    pub fn keyboard_focus_lost(&mut self)
        ensures
            final(self)@ == (ServerModel { repeats: Map::empty(), ..old(self)@ }),
            old(self)@.wf() ==> final(self)@.wf(),
    {
        self.key_repeater.cancel_all();
    }

    /// Releases the keys that are down, in the order given, and hands out
    /// the events that say so.
    pub fn release_all_keys(&mut self, pressed: &Vec<KeyRelease>) -> (events: Vec<KeyEvent>)
        ensures
            events@ == pressed@.map_values(|r: KeyRelease| release_event(r)),
            final(self)@ == state_after_releases(old(self)@, pressed@),
            old(self)@.wf() ==> final(self)@.wf(),
    {
        let mut events: Vec<KeyEvent> = Vec::new();
        let mut i: usize = 0;
        while i < pressed.len()
            invariant
                i <= pressed.len(),
                events@ == pressed@.take(i as int).map_values(|r: KeyRelease| release_event(r)),
                self@ == state_after_releases(old(self)@, pressed@.take(i as int)),
                old(self)@.wf() ==> self@.wf(),
            decreases pressed.len() - i,
        {
            let release: KeyRelease = pressed[i];
            proof {
                assert(pressed@.take(i + 1).drop_last() =~= pressed@.take(i as int));
                assert(pressed@.take(i + 1).last() == release);
            }
            let ghost before = events@;
            let event = self.release_key(release);
            events.push(event);
            proof {
                assert(events@ =~= pressed@.take(i + 1).map_values(
                    |r: KeyRelease| release_event(r),
                ));
            }
            i = i + 1;
        }
        proof {
            assert(pressed@.take(pressed.len() as int) =~= pressed@);
        }
        events
    }

    /// Releases one key.
    fn release_key(&mut self, release: KeyRelease) -> (event: KeyEvent)
        ensures
            event == release_event(release),
            final(self)@ == repeats_after_key(
                old(self)@,
                release.key_code,
                KeyState::Released,
                keysym_char(release.keysym),
                release.mods_changed,
                0,
            ),
            old(self)@.wf() ==> final(self)@.wf(),
    {
        self.handle_key_event(
            release.key_code,
            KeyState::Released,
            0,
            release.mods,
            release.keysym,
            release.mods_changed,
            0,
        )
    }

    /// Sets the delay and the interval of key repeat, in milliseconds, and
    /// hands out the two as the keyboard of the seat takes them.
    pub fn change_keyboard_repeat_info(&mut self, repeat_delay: u64, repeat_rate: u64) -> (seat:
        (i32, i32))
        ensures
            final(self)@ == (ServerModel { repeat_delay, repeat_rate, ..old(self)@ }),
            seat.0 == repeat_delay as i32,
            seat.1 == repeat_rate as i32,
            old(self)@.wf() ==> final(self)@.wf(),
    {
        self.repeat_delay = repeat_delay;
        self.repeat_rate = repeat_rate;
        (#[verifier::truncate] (repeat_delay as i32), #[verifier::truncate] (repeat_rate as i32))
    }

    /// Finds the surface over which the UI engine says the pointer is.
    pub fn pointer_hover(&self, view_id: i64) -> (target: Result<u64, RequestError>)
        ensures
            target == (match self@.surface_of_view(view_id) {
                Some(surface_id) => Ok::<u64, RequestError>(surface_id),
                None => Err(RequestError::SurfaceDoesntExist { view_id }),
            }),
    {
        if view_id >= 0 && self.surfaces.contains_key(&(view_id as u64)) {
            Ok(view_id as u64)
        } else {
            Err(RequestError::SurfaceDoesntExist { view_id })
        }
    }

    /// Makes a toplevel the active window, or takes that state from it, and
    /// says which configure tells the client.
    pub fn activate_window(&mut self, view_id: i64, activate: bool) -> (result: Result<
        Configure,
        RequestError,
    >)
        ensures
            match old(self)@.toplevel_of_view(view_id) {
                Some(surface_id) => {
                    let record = old(self)@.toplevels[surface_id];
                    &&& result == Ok::<Configure, RequestError>(
                        Configure::Toplevel {
                            surface_id,
                            activated: activate,
                            maximized: record.maximized,
                        },
                    )
                    &&& final(self)@ == old(self)@.with_toplevel(
                        surface_id,
                        Toplevel { activated: activate, initial_configure_sent: true, ..record },
                    )
                },
                None => {
                    &&& result == Err::<Configure, RequestError>(
                        RequestError::SurfaceDoesntExist { view_id },
                    )
                    &&& final(self)@ == old(self)@
                },
            },
            old(self)@.wf() ==> final(self)@.wf(),
    {
        if view_id < 0 {
            return Err(RequestError::SurfaceDoesntExist { view_id });
        }
        let surface_id: u64 = view_id as u64;
        match self.xdg_toplevels.remove(&surface_id) {
            Some(record) => {
                let maximized: bool = record.maximized;
                let ghost updated = Toplevel {
                    activated: activate,
                    initial_configure_sent: true,
                    ..record
                };
                self.xdg_toplevels.insert(
                    surface_id,
                    Toplevel { activated: activate, initial_configure_sent: true, ..record },
                );
                proof {
                    assert(self@.toplevels =~= old(self)@.toplevels.insert(surface_id, updated));
                }
                Ok(Configure::Toplevel { surface_id, activated: activate, maximized })
            },
            None => {
                proof {
                    assert(self@.toplevels =~= old(self)@.toplevels);
                }
                Err(RequestError::SurfaceDoesntExist { view_id })
            },
        }
    }
}

} // verus!

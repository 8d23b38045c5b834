//! What the core exports to the processes it starts, and the coming and
//! going of the X11 bridge.

use crate::server_state::{ServerModel, ServerState};
use vstd::prelude::*;
use vstd::string::StringExecFns;

verus! {

/// What the X11 bridge reports once it was started.
#[derive(Clone, Copy, Debug, PartialEq, Eq, Structural)]
pub enum XWaylandEvent {
    /// The X server is up on the display of this number.
    Ready { display_number: u32 },
    /// The X server could not be started, or went away.
    Error,
}

/// The character of a decimal digit.
pub open spec fn digit_char(d: int) -> char {
    if d == 0 {
        '0'
    } else if d == 1 {
        '1'
    } else if d == 2 {
        '2'
    } else if d == 3 {
        '3'
    } else if d == 4 {
        '4'
    } else if d == 5 {
        '5'
    } else if d == 6 {
        '6'
    } else if d == 7 {
        '7'
    } else if d == 8 {
        '8'
    } else {
        '9'
    }
}

/// A number in decimal, without leading zeros.
pub open spec fn decimal(n: nat) -> Seq<char>
    decreases n,
{
    if n < 10 {
        seq![digit_char(n as int)]
    } else {
        decimal(n / 10).push(digit_char((n % 10) as int))
    }
}

/// The name of the X display of a number: a colon and the number.
pub open spec fn display_name(display_number: u32) -> Seq<char> {
    seq![':'] + decimal(display_number as nat)
}

fn digit_str(d: u32) -> (s: &'static str)
    requires
        d < 10,
    ensures
        s@ == seq![digit_char(d as int)],
{
    proof {
        reveal_strlit("0");
        reveal_strlit("1");
        reveal_strlit("2");
        reveal_strlit("3");
        reveal_strlit("4");
        reveal_strlit("5");
        reveal_strlit("6");
        reveal_strlit("7");
        reveal_strlit("8");
        reveal_strlit("9");
    }
    let s = if d == 0 {
        "0"
    } else if d == 1 {
        "1"
    } else if d == 2 {
        "2"
    } else if d == 3 {
        "3"
    } else if d == 4 {
        "4"
    } else if d == 5 {
        "5"
    } else if d == 6 {
        "6"
    } else if d == 7 {
        "7"
    } else if d == 8 {
        "8"
    } else {
        "9"
    };
    proof {
        assert(s@ =~= seq![digit_char(d as int)]);
    }
    s
}

fn append_decimal(text: &mut String, n: u32)
    ensures
        final(text)@ == old(text)@ + decimal(n as nat),
    decreases n,
{
    if n >= 10 {
        append_decimal(text, n / 10);
    }
    text.append(digit_str(n % 10));
    proof {
        if n >= 10 {
            assert(text@ =~= old(text)@ + decimal((n / 10) as nat).push(
                digit_char((n % 10) as int),
            ));
        } else {
            assert(text@ =~= old(text)@ + seq![digit_char(n as int)]);
        }
    }
}

/// The value of `DISPLAY` for an X display.
pub fn display_variable(display_number: u32) -> (value: String)
    ensures
        value@ == display_name(display_number),
{
    let mut value = String::from_str(":");
    proof {
        reveal_strlit(":");
        assert(value@ =~= seq![':']);
    }
    append_decimal(&mut value, display_number);
    value
}

/// What the core does to the environment at start, in order: a variable
/// with a value is set to it, one without is cleared. The session type, the
/// backend of the two common toolkits and the socket tell a client to use
/// this compositor; `DISPLAY` is cleared, for no X server is up yet.
pub fn session_environment(socket_name: String) -> (variables: Vec<(&'static str, Option<String>)>)
    ensures
        variables@.len() == 5,
        variables@[0].0@ == "XDG_SESSION_TYPE"@ && variables@[0].1 is Some && variables@[0].1->0@
            == "wayland"@,
        variables@[1].0@ == "GDK_BACKEND"@ && variables@[1].1 is Some && variables@[1].1->0@
            == "wayland"@,
        variables@[2].0@ == "QT_QPA_PLATFORM"@ && variables@[2].1 is Some && variables@[2].1->0@
            == "wayland"@,
        variables@[3].0@ == "WAYLAND_DISPLAY"@ && variables@[3].1 == Some(socket_name),
        variables@[4].0@ == "DISPLAY"@ && variables@[4].1 is None,
{
    let mut variables: Vec<(&'static str, Option<String>)> = Vec::new();
    variables.push(("XDG_SESSION_TYPE", Some(String::from_str("wayland"))));
    variables.push(("GDK_BACKEND", Some(String::from_str("wayland"))));
    variables.push(("QT_QPA_PLATFORM", Some(String::from_str("wayland"))));
    variables.push(("WAYLAND_DISPLAY", Some(socket_name)));
    variables.push(("DISPLAY", None));
    variables
}

impl ServerState {
    /// Takes note of what the X11 bridge reports, and hands out the value
    /// that `DISPLAY` is to have for the UI engine: the name of the display
    /// when the bridge is up, nothing, for the variable to be cleared, when
    /// it is not.
    pub fn xwayland_event(&mut self, event: XWaylandEvent) -> (display: Option<String>)
        ensures
            match event {
                XWaylandEvent::Ready { display_number } => {
                    &&& final(self)@ == (ServerModel {
                        xwayland_display: Some(display_number),
                        ..old(self)@
                    })
                    &&& display is Some
                    &&& display->0@ == display_name(display_number)
                },
                XWaylandEvent::Error => {
                    &&& final(self)@ == (ServerModel { xwayland_display: None, ..old(self)@ })
                    &&& display is None
                },
            },
            old(self)@.wf() ==> final(self)@.wf(),
    {
        match event {
            XWaylandEvent::Ready { display_number } => {
                self.xwayland_display = Some(display_number);
                Some(display_variable(display_number))
            },
            XWaylandEvent::Error => {
                self.xwayland_display = None;
                None
            },
        }
    }

    /// Whether the X11 bridge is up.
    pub fn xwayland_running(&self) -> (running: bool)
        ensures
            running == self@.xwayland_display is Some,
    {
        self.xwayland_display.is_some()
    }
}

} // verus!

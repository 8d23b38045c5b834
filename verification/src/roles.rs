//! The role machines: the life of toplevels and popups, the wait for the
//! first configure, and the role part of a surface message.

use crate::geometry::{Point, Rectangle};
use crate::messages::{
    clone_optional_string, PopupMessage, SubsurfaceMessage, SurfaceRole, ToplevelMessage,
    UiMessage, XdgSurfaceMessage, XdgSurfaceRole,
};
use crate::server_state::{
    fresh_toplevel, Popup, Role, ServerModel, ServerState, Toplevel, X11SurfaceRecord,
};
use vstd::prelude::*;

verus! {

/// A configure that is to be sent to a client.
#[derive(Clone, Copy, Debug, PartialEq, Eq, Structural)]
pub enum Configure {
    /// To a toplevel, with the pending states.
    Toplevel { surface_id: u64, activated: bool, maximized: bool },
    /// To a popup.
    Popup { surface_id: u64 },
}

/// The edge or corner by which a window is resized.
#[derive(Clone, Copy, Debug, PartialEq, Eq, Structural)]
pub enum ResizeEdge {
    NoEdge,
    Top,
    Bottom,
    Left,
    TopLeft,
    BottomLeft,
    Right,
    TopRight,
    BottomRight,
}

impl ResizeEdge {
    /// The number of the edge in the shell protocol: top is 1, bottom 2,
    /// left 4, right 8, and a corner is the sum of its two edges.
    pub open spec fn spec_code(self) -> i64 {
        match self {
            ResizeEdge::NoEdge => 0,
            ResizeEdge::Top => 1,
            ResizeEdge::Bottom => 2,
            ResizeEdge::Left => 4,
            ResizeEdge::TopLeft => 5,
            ResizeEdge::BottomLeft => 6,
            ResizeEdge::Right => 8,
            ResizeEdge::TopRight => 9,
            ResizeEdge::BottomRight => 10,
        }
    }

    /// The number of the edge in the shell protocol.
    pub fn code(self) -> (code: i64)
        ensures
            code == self.spec_code(),
    {
        match self {
            ResizeEdge::NoEdge => 0,
            ResizeEdge::Top => 1,
            ResizeEdge::Bottom => 2,
            ResizeEdge::Left => 4,
            ResizeEdge::TopLeft => 5,
            ResizeEdge::BottomLeft => 6,
            ResizeEdge::Right => 8,
            ResizeEdge::TopRight => 9,
            ResizeEdge::BottomRight => 10,
        }
    }
}

/// What the construction of a role message yields: the state after it, the
/// role part of the surface message, and the configure to send, if any.
pub struct RoleStep<M> {
    pub state: ServerModel,
    pub message: Option<M>,
    pub configure: Option<Configure>,
}

impl ServerModel {
    /// The state with the record of a toplevel replaced.
    pub open spec fn with_toplevel(self, surface_id: u64, record: Toplevel) -> ServerModel {
        ServerModel { toplevels: self.toplevels.insert(surface_id, record), ..self }
    }

    /// The state in which the record of a window of the X11 bridge, if
    /// there is one, names the surface that shows the window.
    pub open spec fn with_x11_surface(self, window: u32, surface_id: u64) -> ServerModel {
        if self.x11_surfaces.contains_key(window) {
            ServerModel {
                x11_surfaces: self.x11_surfaces.insert(
                    window,
                    X11SurfaceRecord { surface_id: Some(surface_id), ..self.x11_surfaces[window] },
                ),
                ..self
            }
        } else {
            self
        }
    }

    /// The state with the record of a popup replaced.
    pub open spec fn with_popup(self, surface_id: u64, record: Popup) -> ServerModel {
        ServerModel { popups: self.popups.insert(surface_id, record), ..self }
    }

    /// The role message of a toplevel. Its pending state becomes
    /// "maximized". Until the first configure has gone out there is no
    /// message: the configure is sent instead. A surface without a toplevel
    /// record has no message either.
    pub open spec fn toplevel_role_message(self, surface_id: u64) -> RoleStep<ToplevelMessage> {
        if !self.toplevels.contains_key(surface_id) {
            RoleStep { state: self, message: None, configure: None }
        } else {
            let record = self.toplevels[surface_id];
            if !record.initial_configure_sent {
                RoleStep {
                    state: self.with_toplevel(
                        surface_id,
                        Toplevel { maximized: true, initial_configure_sent: true, ..record },
                    ),
                    message: None,
                    configure: Some(
                        Configure::Toplevel {
                            surface_id,
                            activated: record.activated,
                            maximized: true,
                        },
                    ),
                }
            } else {
                RoleStep {
                    state: self.with_toplevel(surface_id, Toplevel { maximized: true, ..record }),
                    message: Some(
                        ToplevelMessage {
                            parent_surface_id: record.parent_surface_id,
                            app_id: record.app_id,
                            title: record.title,
                        },
                    ),
                    configure: None,
                }
            }
        }
    }

    /// The role message of a popup, which waits for the first configure
    /// like that of a toplevel.
    pub open spec fn popup_role_message(self, surface_id: u64) -> RoleStep<PopupMessage> {
        if !self.popups.contains_key(surface_id) {
            RoleStep { state: self, message: None, configure: None }
        } else {
            let record = self.popups[surface_id];
            if !record.initial_configure_sent {
                RoleStep {
                    state: self.with_popup(
                        surface_id,
                        Popup { initial_configure_sent: true, ..record },
                    ),
                    message: None,
                    configure: Some(Configure::Popup { surface_id }),
                }
            } else {
                RoleStep {
                    state: self,
                    message: Some(
                        PopupMessage { parent: record.parent, position: record.position },
                    ),
                    configure: None,
                }
            }
        }
    }

    /// The role part of the message of a registered surface. `geometry` is
    /// the window geometry of a shell surface, `location` the place of a
    /// subsurface in its parent.
    pub open spec fn surface_role_message(
        self,
        surface_id: u64,
        geometry: Option<Rectangle>,
        location: Point,
    ) -> RoleStep<SurfaceRole> {
        match self.surfaces[surface_id].role {
            Some(Role::XdgToplevel) => {
                let step = self.toplevel_role_message(surface_id);
                RoleStep {
                    state: step.state,
                    message: Some(
                        SurfaceRole::XdgSurface(
                            XdgSurfaceMessage {
                                geometry,
                                role: match step.message {
                                    Some(m) => Some(XdgSurfaceRole::XdgToplevel(m)),
                                    None => None,
                                },
                            },
                        ),
                    ),
                    configure: step.configure,
                }
            },
            Some(Role::XdgPopup) => {
                let step = self.popup_role_message(surface_id);
                RoleStep {
                    state: step.state,
                    message: Some(
                        SurfaceRole::XdgSurface(
                            XdgSurfaceMessage {
                                geometry,
                                role: match step.message {
                                    Some(m) => Some(XdgSurfaceRole::XdgPopup(m)),
                                    None => None,
                                },
                            },
                        ),
                    ),
                    configure: step.configure,
                }
            },
            Some(Role::Subsurface { parent }) => RoleStep {
                state: self,
                message: Some(
                    SurfaceRole::Subsurface(SubsurfaceMessage { position: location, parent }),
                ),
                configure: None,
            },
            Some(Role::X11) => RoleStep {
                state: self,
                message: Some(SurfaceRole::X11Surface),
                configure: None,
            },
            None => RoleStep { state: self, message: None, configure: None },
        }
    }
}

impl ServerState {
    /// Makes a registered surface a toplevel: records it with the pending
    /// state "activated" and says so to the UI engine.
    pub fn new_toplevel(&mut self, surface_id: u64) -> (message: UiMessage)
        requires
            old(self)@.wf(),
            old(self)@.is_registered(surface_id),
            old(self)@.role_of(surface_id) is None,
        ensures
            message == (UiMessage::NewToplevel { surface_id }),
            final(self)@ == old(self)@.with_role(surface_id, Role::XdgToplevel).with_toplevel(
                surface_id,
                fresh_toplevel(),
            ),
            final(self)@.wf(),
    {
        self.set_role(surface_id, Role::XdgToplevel);
        self.xdg_toplevels.insert(
            surface_id,
            Toplevel {
                initial_configure_sent: false,
                parent_surface_id: None,
                app_id: None,
                title: None,
                activated: true,
                maximized: false,
            },
        );
        UiMessage::NewToplevel { surface_id }
    }

    /// Makes a registered surface a popup of `parent`, placed at `position`
    /// relative to it, and says so to the UI engine.
    pub fn new_popup(&mut self, surface_id: u64, parent: u64, position: Point) -> (message:
        UiMessage)
        requires
            old(self)@.wf(),
            old(self)@.is_registered(surface_id),
            old(self)@.is_registered(parent),
            old(self)@.role_of(surface_id) is None,
        ensures
            message == (UiMessage::NewPopup { surface_id, parent, position }),
            final(self)@ == old(self)@.with_role(surface_id, Role::XdgPopup).with_popup(
                surface_id,
                Popup { parent, position, initial_configure_sent: false },
            ),
            final(self)@.wf(),
    {
        self.set_role(surface_id, Role::XdgPopup);
        self.xdg_popups.insert(
            surface_id,
            Popup { parent, position, initial_configure_sent: false },
        );
        UiMessage::NewPopup { surface_id, parent, position }
    }

    /// Takes note of a new window of the X11 bridge and gives it the next
    /// X11 surface id. No surface shows it yet.
    pub fn new_x11_window(&mut self, window: u32) -> (x11_surface_id: u64)
        requires
            old(self)@.wf(),
            old(self)@.next_x11_surface_id < u64::MAX,
        ensures
            x11_surface_id == old(self)@.next_x11_surface_id,
            final(self)@ == (ServerModel {
                next_x11_surface_id: (x11_surface_id + 1) as u64,
                x11_surfaces: old(self)@.x11_surfaces.insert(
                    window,
                    X11SurfaceRecord { x11_surface_id, surface_id: None },
                ),
                ..old(self)@
            }),
            final(self)@.wf(),
    {
        let x11_surface_id: u64 = self.get_new_x11_surface_id();
        self.x11_surface_per_x11_window.insert(
            window,
            X11SurfaceRecord { x11_surface_id, surface_id: None },
        );
        x11_surface_id
    }

    /// Attaches a registered surface to a window of the X11 bridge: the
    /// surface gets the X11 role, and the record of the window, if there is
    /// one, names the surface.
    pub fn x11_surface_associated(&mut self, window: u32, surface_id: u64)
        requires
            old(self)@.wf(),
            old(self)@.is_registered(surface_id),
            old(self)@.role_of(surface_id) is None,
        ensures
            final(self)@ == old(self)@.with_role(surface_id, Role::X11).with_x11_surface(
                window,
                surface_id,
            ),
            final(self)@.wf(),
    {
        self.set_role(surface_id, Role::X11);
        let found: Option<X11SurfaceRecord> = match self.x11_surface_per_x11_window.get(&window) {
            Some(record) => Some(*record),
            None => None,
        };
        match found {
            Some(record) => {
                self.x11_surface_per_x11_window.insert(
                    window,
                    X11SurfaceRecord { surface_id: Some(surface_id), ..record },
                );
            },
            None => {},
        }
    }

    /// Forgets a window of the X11 bridge.
    pub fn x11_window_destroyed(&mut self, window: u32)
        requires
            old(self)@.wf(),
        ensures
            final(self)@ == (ServerModel {
                x11_surfaces: old(self)@.x11_surfaces.remove(window),
                ..old(self)@
            }),
            final(self)@.wf(),
    {
        self.x11_surface_per_x11_window.remove(&window);
    }

    /// The record of a window of the X11 bridge, if there is one.
    pub fn x11_surface(&self, window: u32) -> (record: Option<X11SurfaceRecord>)
        ensures
            record == (if self@.x11_surfaces.contains_key(window) {
                Some(self@.x11_surfaces[window])
            } else {
                None
            }),
    {
        match self.x11_surface_per_x11_window.get(&window) {
            Some(record) => Some(*record),
            None => None,
        }
    }

    /// Forgets the record of a toplevel that the client destroyed. The
    /// surface itself may be gone already.
    pub fn toplevel_destroyed(&mut self, surface_id: u64) -> (message: UiMessage)
        requires
            old(self)@.wf(),
        ensures
            message == (UiMessage::DestroyToplevel { surface_id }),
            final(self)@ == (ServerModel {
                toplevels: old(self)@.toplevels.remove(surface_id),
                ..old(self)@
            }),
            final(self)@.wf(),
    {
        self.xdg_toplevels.remove(&surface_id);
        UiMessage::DestroyToplevel { surface_id }
    }

    /// Forgets the record of a popup that the client destroyed. The surface
    /// itself may be gone already.
    pub fn popup_destroyed(&mut self, surface_id: u64) -> (message: UiMessage)
        requires
            old(self)@.wf(),
        ensures
            message == (UiMessage::DestroyPopup { surface_id }),
            final(self)@ == (ServerModel {
                popups: old(self)@.popups.remove(surface_id),
                ..old(self)@
            }),
            final(self)@.wf(),
    {
        self.xdg_popups.remove(&surface_id);
        UiMessage::DestroyPopup { surface_id }
    }

    /// Passes a client's wish to be moved on to the UI engine.
    pub fn move_request(&self, surface_id: u64) -> (message: UiMessage)
        requires
            self@.is_registered(surface_id),
        ensures
            message == (UiMessage::InteractiveMove { surface_id }),
    {
        UiMessage::InteractiveMove { surface_id }
    }

    /// Passes a client's wish to be resized on to the UI engine.
    pub fn resize_request(&self, surface_id: u64, edges: ResizeEdge) -> (message: UiMessage)
        requires
            self@.is_registered(surface_id),
        ensures
            message == (UiMessage::InteractiveResize { surface_id, edge: edges.spec_code() }),
    {
        UiMessage::InteractiveResize { surface_id, edge: edges.code() }
    }

    /// Records the new application id of a toplevel and tells the UI engine.
    pub fn app_id_changed(&mut self, surface_id: u64, app_id: Option<String>) -> (message:
        UiMessage)
        requires
            old(self)@.wf(),
            old(self)@.is_registered(surface_id),
        ensures
            message == (UiMessage::AppIdChanged { surface_id, app_id }),
            final(self)@ == (if old(self)@.toplevels.contains_key(surface_id) {
                old(self)@.with_toplevel(
                    surface_id,
                    Toplevel { app_id, ..old(self)@.toplevels[surface_id] },
                )
            } else {
                old(self)@
            }),
            final(self)@.wf(),
    {
        let copy = clone_optional_string(&app_id);
        match self.xdg_toplevels.remove(&surface_id) {
            Some(record) => {
                self.xdg_toplevels.insert(surface_id, Toplevel { app_id: copy, ..record });
            },
            None => {},
        }
        proof {
            assert(self@.toplevels =~= (if old(self)@.toplevels.contains_key(surface_id) {
                old(self)@.toplevels.insert(
                    surface_id,
                    Toplevel { app_id, ..old(self)@.toplevels[surface_id] },
                )
            } else {
                old(self)@.toplevels
            }));
        }
        UiMessage::AppIdChanged { surface_id, app_id }
    }

    /// Records the new title of a toplevel and tells the UI engine.
    pub fn title_changed(&mut self, surface_id: u64, title: Option<String>) -> (message:
        UiMessage)
        requires
            old(self)@.wf(),
            old(self)@.is_registered(surface_id),
        ensures
            message == (UiMessage::TitleChanged { surface_id, title }),
            final(self)@ == (if old(self)@.toplevels.contains_key(surface_id) {
                old(self)@.with_toplevel(
                    surface_id,
                    Toplevel { title, ..old(self)@.toplevels[surface_id] },
                )
            } else {
                old(self)@
            }),
            final(self)@.wf(),
    {
        let copy = clone_optional_string(&title);
        match self.xdg_toplevels.remove(&surface_id) {
            Some(record) => {
                self.xdg_toplevels.insert(surface_id, Toplevel { title: copy, ..record });
            },
            None => {},
        }
        proof {
            assert(self@.toplevels =~= (if old(self)@.toplevels.contains_key(surface_id) {
                old(self)@.toplevels.insert(
                    surface_id,
                    Toplevel { title, ..old(self)@.toplevels[surface_id] },
                )
            } else {
                old(self)@.toplevels
            }));
        }
        UiMessage::TitleChanged { surface_id, title }
    }

    /// Records the window that a toplevel now belongs to, if any.
    pub fn parent_changed(&mut self, surface_id: u64, parent: Option<u64>)
        requires
            old(self)@.wf(),
            old(self)@.is_registered(surface_id),
        ensures
            final(self)@ == (if old(self)@.toplevels.contains_key(surface_id) {
                old(self)@.with_toplevel(
                    surface_id,
                    Toplevel { parent_surface_id: parent, ..old(self)@.toplevels[surface_id] },
                )
            } else {
                old(self)@
            }),
            final(self)@.wf(),
    {
        match self.xdg_toplevels.remove(&surface_id) {
            Some(record) => {
                self.xdg_toplevels.insert(
                    surface_id,
                    Toplevel { parent_surface_id: parent, ..record },
                );
            },
            None => {},
        }
        proof {
            assert(self@.toplevels =~= (if old(self)@.toplevels.contains_key(surface_id) {
                old(self)@.toplevels.insert(
                    surface_id,
                    Toplevel { parent_surface_id: parent, ..old(self)@.toplevels[surface_id] },
                )
            } else {
                old(self)@.toplevels
            }));
        }
    }

    /// Builds the role message of a toplevel and says which configure is to
    /// be sent first, if the client has not had one.
    pub fn construct_toplevel_role_message(&mut self, surface_id: u64) -> (built: (
        Option<ToplevelMessage>,
        Option<Configure>,
    ))
        requires
            old(self)@.wf(),
        ensures
            final(self)@ == old(self)@.toplevel_role_message(surface_id).state,
            built.0 == old(self)@.toplevel_role_message(surface_id).message,
            built.1 == old(self)@.toplevel_role_message(surface_id).configure,
            old(self)@.toplevels.contains_key(surface_id) && !old(
                self,
            )@.toplevels[surface_id].initial_configure_sent ==> built.0 is None && built.1
                == Some(Configure::Toplevel { surface_id, activated: true, maximized: true }),
            final(self)@.wf(),
    {
        match self.xdg_toplevels.remove(&surface_id) {
            None => {
                proof {
                    assert(self@.toplevels =~= old(self)@.toplevels);
                }
                (None, None)
            },
            Some(record) => {
                if !record.initial_configure_sent {
                    let activated: bool = record.activated;
                    self.xdg_toplevels.insert(
                        surface_id,
                        Toplevel { maximized: true, initial_configure_sent: true, ..record },
                    );
                    proof {
                        assert(self@.toplevels =~= old(self)@.toplevels.insert(
                            surface_id,
                            Toplevel { maximized: true, initial_configure_sent: true, ..record },
                        ));
                    }
                    (None, Some(Configure::Toplevel { surface_id, activated, maximized: true }))
                } else {
                    let message = ToplevelMessage {
                        parent_surface_id: record.parent_surface_id,
                        app_id: clone_optional_string(&record.app_id),
                        title: clone_optional_string(&record.title),
                    };
                    let ghost kept = Toplevel { maximized: true, ..record };
                    self.xdg_toplevels.insert(surface_id, Toplevel { maximized: true, ..record });
                    proof {
                        assert(self@.toplevels =~= old(self)@.toplevels.insert(surface_id, kept));
                    }
                    (Some(message), None)
                }
            },
        }
    }

    /// Builds the role message of a popup and says whether its first
    /// configure is to be sent instead.
    pub fn construct_popup_role_message(&mut self, surface_id: u64) -> (built: (
        Option<PopupMessage>,
        Option<Configure>,
    ))
        requires
            old(self)@.wf(),
        ensures
            final(self)@ == old(self)@.popup_role_message(surface_id).state,
            built.0 == old(self)@.popup_role_message(surface_id).message,
            built.1 == old(self)@.popup_role_message(surface_id).configure,
            final(self)@.wf(),
    {
        let found: Option<Popup> = match self.xdg_popups.get(&surface_id) {
            Some(record) => Some(*record),
            None => None,
        };
        match found {
            None => (None, None),
            Some(record) => {
                if !record.initial_configure_sent {
                    self.xdg_popups.insert(
                        surface_id,
                        Popup { initial_configure_sent: true, ..record },
                    );
                    (None, Some(Configure::Popup { surface_id }))
                } else {
                    (
                        Some(PopupMessage { parent: record.parent, position: record.position }),
                        None,
                    )
                }
            },
        }
    }

    /// Builds the role message of a subsurface from its place in its parent.
    pub fn construct_subsurface_role_message(parent: u64, location: Point) -> (message:
        SubsurfaceMessage)
        ensures
            message == (SubsurfaceMessage { position: location, parent }),
    {
        SubsurfaceMessage { position: location, parent }
    }

    /// Builds the role message of a shell surface: its window geometry and
    /// the message of its toplevel or popup role.
    pub fn construct_xdg_surface_role_message(
        &mut self,
        surface_id: u64,
        geometry: Option<Rectangle>,
        role: Role,
    ) -> (built: (XdgSurfaceMessage, Option<Configure>))
        requires
            old(self)@.wf(),
            role == Role::XdgToplevel || role == Role::XdgPopup,
        ensures
            role == Role::XdgToplevel ==> {
                let step = old(self)@.toplevel_role_message(surface_id);
                &&& final(self)@ == step.state
                &&& built.1 == step.configure
                &&& built.0 == (XdgSurfaceMessage {
                    geometry,
                    role: match step.message {
                        Some(m) => Some(XdgSurfaceRole::XdgToplevel(m)),
                        None => None,
                    },
                })
            },
            role == Role::XdgPopup ==> {
                let step = old(self)@.popup_role_message(surface_id);
                &&& final(self)@ == step.state
                &&& built.1 == step.configure
                &&& built.0 == (XdgSurfaceMessage {
                    geometry,
                    role: match step.message {
                        Some(m) => Some(XdgSurfaceRole::XdgPopup(m)),
                        None => None,
                    },
                })
            },
            final(self)@.wf(),
    {
        match role {
            Role::XdgToplevel => {
                let (message, configure) = self.construct_toplevel_role_message(surface_id);
                let role = match message {
                    Some(m) => Some(XdgSurfaceRole::XdgToplevel(m)),
                    None => None,
                };
                (XdgSurfaceMessage { geometry, role }, configure)
            },
            _ => {
                let (message, configure) = self.construct_popup_role_message(surface_id);
                let role = match message {
                    Some(m) => Some(XdgSurfaceRole::XdgPopup(m)),
                    None => None,
                };
                (XdgSurfaceMessage { geometry, role }, configure)
            },
        }
    }

    /// Builds the role part of the message of a registered surface.
    pub fn construct_surface_role_message(
        &mut self,
        surface_id: u64,
        geometry: Option<Rectangle>,
        location: Point,
    ) -> (built: (Option<SurfaceRole>, Option<Configure>))
        requires
            old(self)@.wf(),
            old(self)@.is_registered(surface_id),
        ensures
            final(self)@ == old(self)@.surface_role_message(surface_id, geometry, location).state,
            built.0 == old(self)@.surface_role_message(surface_id, geometry, location).message,
            built.1 == old(self)@.surface_role_message(surface_id, geometry, location).configure,
            final(self)@.wf(),
    {
        let record = self.surface(surface_id).unwrap();
        match record.role {
            Some(Role::XdgToplevel) => {
                let (message, configure) = self.construct_xdg_surface_role_message(
                    surface_id,
                    geometry,
                    Role::XdgToplevel,
                );
                (Some(SurfaceRole::XdgSurface(message)), configure)
            },
            Some(Role::XdgPopup) => {
                let (message, configure) = self.construct_xdg_surface_role_message(
                    surface_id,
                    geometry,
                    Role::XdgPopup,
                );
                (Some(SurfaceRole::XdgSurface(message)), configure)
            },
            Some(Role::Subsurface { parent }) => {
                let message = Self::construct_subsurface_role_message(parent, location);
                (Some(SurfaceRole::Subsurface(message)), None)
            },
            Some(Role::X11) => (Some(SurfaceRole::X11Surface), None),
            None => (None, None),
        }
    }
}

} // verus!

//! The state of the compositor core: the surface registry, the role
//! records, and the textures that stand for each surface's buffers.

use crate::geometry::{Point, Size};
use crate::key_repeater::{KeyRepeater, RepeatTimer};
use crate::messages::UiMessage;
use std::collections::HashMap;
use vstd::prelude::*;

verus! {

/// The role that a surface was given. A surface gets a role at most once.
#[derive(Clone, Copy, Debug, PartialEq, Eq, Structural)]
pub enum Role {
    XdgToplevel,
    XdgPopup,
    Subsurface { parent: u64 },
    X11,
}

/// What the registry keeps for each surface.
#[derive(Clone, Copy, Debug, PartialEq, Eq, Structural)]
pub struct MySurfaceState {
    pub surface_id: u64,
    pub old_texture_size: Option<Size>,
    pub role: Option<Role>,
}

/// The record of a toplevel window.
#[derive(Clone, Debug, PartialEq, Eq)]
pub struct Toplevel {
    pub initial_configure_sent: bool,
    pub parent_surface_id: Option<u64>,
    pub app_id: Option<String>,
    pub title: Option<String>,
    /// Pending state: the window is the active one.
    pub activated: bool,
    /// Pending state: the window fills the output.
    pub maximized: bool,
}

/// The record of a popup.
#[derive(Clone, Copy, Debug, PartialEq, Eq, Structural)]
pub struct Popup {
    pub parent: u64,
    pub position: Point,
    pub initial_configure_sent: bool,
}

/// The record of a window of the X11 bridge: its id, and the surface that
/// shows it once one is attached.
#[derive(Clone, Copy, Debug, PartialEq, Eq, Structural)]
pub struct X11SurfaceRecord {
    pub x11_surface_id: u64,
    pub surface_id: Option<u64>,
}

/// How many textures a surface keeps: the one in use and, across a change
/// of size, the one still in flight for the previous frame.
pub const TEXTURES_PER_SURFACE: usize = 2;

/// The delay before a held key repeats, in milliseconds, at start.
pub const DEFAULT_REPEAT_DELAY: u64 = 200;

/// The interval between repeats of a held key, in milliseconds, at start.
pub const DEFAULT_REPEAT_RATE: u64 = 50;

/// The state of the compositor core.
pub struct ServerState {
    pub next_surface_id: u64,
    pub next_x11_surface_id: u64,
    pub next_texture_id: i64,
    pub repeat_delay: u64,
    pub repeat_rate: u64,
    pub xwayland_display: Option<u32>,
    pub surfaces: HashMap<u64, MySurfaceState>,
    pub xdg_toplevels: HashMap<u64, Toplevel>,
    pub xdg_popups: HashMap<u64, Popup>,
    pub x11_surface_per_x11_window: HashMap<u32, X11SurfaceRecord>,
    pub texture_ids_per_surface_id: HashMap<u64, Vec<(i64, Size)>>,
    pub surface_id_per_texture_id: HashMap<i64, u64>,
    pub key_repeater: KeyRepeater,
}

/// The state of the compositor core as mathematical maps and sequences.
pub struct ServerModel {
    pub next_surface_id: u64,
    pub next_x11_surface_id: u64,
    pub next_texture_id: i64,
    pub repeat_delay: u64,
    pub repeat_rate: u64,
    pub xwayland_display: Option<u32>,
    pub surfaces: Map<u64, MySurfaceState>,
    pub toplevels: Map<u64, Toplevel>,
    pub popups: Map<u64, Popup>,
    /// For each window of the X11 bridge, its record.
    pub x11_surfaces: Map<u32, X11SurfaceRecord>,
    /// For each surface, its textures with their sizes, oldest first.
    pub textures: Map<u64, Seq<(i64, Size)>>,
    /// For each texture, the surface it was made for.
    pub owners: Map<i64, u64>,
    /// For each held key, its repeat timer.
    pub repeats: Map<u32, RepeatTimer>,
}

impl View for ServerState {
    type V = ServerModel;

    open spec fn view(&self) -> ServerModel {
        ServerModel {
            next_surface_id: self.next_surface_id,
            next_x11_surface_id: self.next_x11_surface_id,
            next_texture_id: self.next_texture_id,
            repeat_delay: self.repeat_delay,
            repeat_rate: self.repeat_rate,
            xwayland_display: self.xwayland_display,
            surfaces: self.surfaces@,
            toplevels: self.xdg_toplevels@,
            popups: self.xdg_popups@,
            x11_surfaces: self.x11_surface_per_x11_window@,
            textures: self.texture_ids_per_surface_id@.map_values(|v: Vec<(i64, Size)>| v@),
            owners: self.surface_id_per_texture_id@,
            repeats: self.key_repeater@,
        }
    }
}

impl ServerModel {
    /// The state in which the core starts: every counter at 1, the default
    /// repeat timing, nothing registered.
    pub open spec fn initial() -> ServerModel {
        ServerModel {
            next_surface_id: 1,
            next_x11_surface_id: 1,
            next_texture_id: 1,
            repeat_delay: DEFAULT_REPEAT_DELAY,
            repeat_rate: DEFAULT_REPEAT_RATE,
            xwayland_display: None,
            surfaces: Map::empty(),
            toplevels: Map::empty(),
            popups: Map::empty(),
            x11_surfaces: Map::empty(),
            textures: Map::empty(),
            owners: Map::empty(),
            repeats: Map::empty(),
        }
    }

    /// The textures of a surface, oldest first; none for a surface that
    /// never had one.
    pub open spec fn textures_of(self, surface_id: u64) -> Seq<(i64, Size)> {
        if self.textures.contains_key(surface_id) {
            self.textures[surface_id]
        } else {
            Seq::empty()
        }
    }

    /// What holds of every state that the operations can reach.
    ///
    /// The counters have not handed out what they are yet to hand out. A
    /// surface has at most two textures, their ids grow from the oldest to
    /// the newest, and the size on record for a surface is that of its
    /// newest texture. The two texture maps agree: a texture is entered
    /// under a surface exactly when it stands in the list of that surface.
    /// A toplevel that waits for its first configure is to be activated.
    pub open spec fn wf(self) -> bool {
        &&& self.next_surface_id >= 1
        &&& self.next_x11_surface_id >= 1
        &&& self.next_texture_id >= 1
        &&& forall|id: u64| #[trigger]
            self.surfaces.contains_key(id) ==> self.surfaces[id].surface_id == id && 1 <= id
                < self.next_surface_id
        &&& forall|window: u32| #[trigger]
            self.x11_surfaces.contains_key(window) ==> 1
                <= self.x11_surfaces[window].x11_surface_id < self.next_x11_surface_id
        &&& forall|id: u64| #[trigger]
            self.toplevels.contains_key(id) && !self.toplevels[id].initial_configure_sent
                ==> self.toplevels[id].activated
        &&& forall|id: u64| #[trigger]
            self.textures.contains_key(id) ==> self.textures[id].len() <= TEXTURES_PER_SURFACE
                && 1 <= id < self.next_surface_id
        &&& forall|id: u64|
            self.textures.contains_key(id) && #[trigger] self.surfaces.contains_key(id)
                && self.textures[id].len() > 0 ==> self.surfaces[id].old_texture_size == Some(
                self.textures[id].last().1,
            )
        &&& forall|id: u64, i: int|
            self.textures.contains_key(id) && 0 <= i < self.textures[id].len() ==> {
                let texture_id = (#[trigger] self.textures[id][i]).0;
                &&& 1 <= texture_id < self.next_texture_id
                &&& self.owners.contains_key(texture_id)
                &&& self.owners[texture_id] == id
            }
        &&& forall|id: u64, i: int, j: int|
            self.textures.contains_key(id) && 0 <= i < j < self.textures[id].len() ==> (
            #[trigger] self.textures[id][i]).0 < (#[trigger] self.textures[id][j]).0
        &&& forall|texture_id: i64| #[trigger]
            self.owners.contains_key(texture_id) ==> self.textures.contains_key(
                self.owners[texture_id],
            ) && lists_texture(self.textures[self.owners[texture_id]], texture_id)
    }

    pub open spec fn is_registered(self, surface_id: u64) -> bool {
        self.surfaces.contains_key(surface_id)
    }

    /// The role of a registered surface.
    pub open spec fn role_of(self, surface_id: u64) -> Option<Role> {
        self.surfaces[surface_id].role
    }

    /// The state after a surface was registered: it has the next id, no
    /// texture size and no role.
    pub open spec fn after_new_surface(self) -> ServerModel {
        ServerModel {
            next_surface_id: (self.next_surface_id + 1) as u64,
            surfaces: self.surfaces.insert(
                self.next_surface_id,
                MySurfaceState {
                    surface_id: self.next_surface_id,
                    old_texture_size: None,
                    role: None,
                },
            ),
            ..self
        }
    }

    /// The state after a new surface was asked for: the state with the
    /// surface where an id was left for it, the same state where none was.
    pub open spec fn after_try_new_surface(self) -> ServerModel {
        if self.next_surface_id < u64::MAX {
            self.after_new_surface()
        } else {
            self
        }
    }

    /// The state after a surface was destroyed: the surface is off the
    /// registry and its textures are released, so that neither its list nor
    /// the entry of any texture in it remains.
    pub open spec fn after_destroyed(self, surface_id: u64) -> ServerModel {
        ServerModel {
            surfaces: self.surfaces.remove(surface_id),
            textures: self.textures.remove(surface_id),
            owners: self.owners.remove_keys(texture_id_set(self.textures_of(surface_id))),
            ..self
        }
    }

    /// The state after the destruction of a surface was asked for: the
    /// state without the surface where it was registered, the same state
    /// where it was not.
    pub open spec fn after_try_destroyed(self, surface_id: u64) -> ServerModel {
        if self.is_registered(surface_id) {
            self.after_destroyed(surface_id)
        } else {
            self
        }
    }

    /// The state with a role given to a registered surface.
    pub open spec fn with_role(self, surface_id: u64, role: Role) -> ServerModel {
        ServerModel {
            surfaces: self.surfaces.insert(
                surface_id,
                MySurfaceState { role: Some(role), ..self.surfaces[surface_id] },
            ),
            ..self
        }
    }
}

/// Whether a list of textures holds the texture of this id.
pub open spec fn lists_texture(list: Seq<(i64, Size)>, texture_id: i64) -> bool {
    exists|i: int| 0 <= i < list.len() && (#[trigger] list[i]).0 == texture_id
}

/// The ids of the textures of a list, in the order of the list.
pub open spec fn texture_ids_of(list: Seq<(i64, Size)>) -> Seq<i64> {
    list.map_values(|entry: (i64, Size)| entry.0)
}

/// The ids of the textures of a list, as a set.
pub open spec fn texture_id_set(list: Seq<(i64, Size)>) -> Set<i64> {
    Set::new(|texture_id: i64| lists_texture(list, texture_id))
}

/// One texture more in a list is one id more in its set.
pub proof fn lemma_texture_id_set_grows(list: Seq<(i64, Size)>, i: int)
    requires
        0 <= i < list.len(),
    ensures
        texture_id_set(list.take(i + 1)) == texture_id_set(list.take(i)).insert(list[i].0),
{
    let more = list.take(i + 1);
    let fewer = list.take(i);
    assert forall|t: i64|
        texture_id_set(more).contains(t) <==> texture_id_set(fewer).insert(list[i].0).contains(
            t,
        ) by {
        if lists_texture(more, t) {
            let k = choose|k: int| 0 <= k < more.len() && (#[trigger] more[k]).0 == t;
            if k < i {
                assert(fewer[k].0 == t);
            }
        }
        if lists_texture(fewer, t) {
            let k = choose|k: int| 0 <= k < fewer.len() && (#[trigger] fewer[k]).0 == t;
            assert(more[k].0 == t);
        }
        if t == list[i].0 {
            assert(more[i].0 == t);
        }
    }
    assert(texture_id_set(more) =~= texture_id_set(fewer).insert(list[i].0));
}

/// The record with which a toplevel starts: nothing sent, nothing named,
/// and the pending state "activated".
pub open spec fn fresh_toplevel() -> Toplevel {
    Toplevel {
        initial_configure_sent: false,
        parent_surface_id: None,
        app_id: None,
        title: None,
        activated: true,
        maximized: false,
    }
}

impl ServerState {
    /// The state in which the core starts.
    pub fn new() -> (state: ServerState)
        ensures
            state@ == ServerModel::initial(),
            state@.wf(),
    {
        let state = ServerState {
            next_surface_id: 1,
            next_x11_surface_id: 1,
            next_texture_id: 1,
            repeat_delay: DEFAULT_REPEAT_DELAY,
            repeat_rate: DEFAULT_REPEAT_RATE,
            xwayland_display: None,
            surfaces: HashMap::new(),
            xdg_toplevels: HashMap::new(),
            xdg_popups: HashMap::new(),
            x11_surface_per_x11_window: HashMap::new(),
            texture_ids_per_surface_id: HashMap::new(),
            surface_id_per_texture_id: HashMap::new(),
            key_repeater: KeyRepeater::new(),
        };
        proof {
            assert(state@.textures =~= Map::<u64, Seq<(i64, Size)>>::empty());
        }
        state
    }

    /// Hands out the next surface id.
    pub fn get_new_surface_id(&mut self) -> (surface_id: u64)
        requires
            old(self)@.next_surface_id < u64::MAX,
        ensures
            surface_id == old(self)@.next_surface_id,
            final(self)@ == (ServerModel {
                next_surface_id: (surface_id + 1) as u64,
                ..old(self)@
            }),
    {
        let surface_id: u64 = self.next_surface_id;
        self.next_surface_id = surface_id + 1;
        surface_id
    }

    /// Hands out the next id for a surface of the X11 bridge.
    pub fn get_new_x11_surface_id(&mut self) -> (x11_surface_id: u64)
        requires
            old(self)@.next_x11_surface_id < u64::MAX,
        ensures
            x11_surface_id == old(self)@.next_x11_surface_id,
            final(self)@ == (ServerModel {
                next_x11_surface_id: (x11_surface_id + 1) as u64,
                ..old(self)@
            }),
    {
        let x11_surface_id: u64 = self.next_x11_surface_id;
        self.next_x11_surface_id = x11_surface_id + 1;
        x11_surface_id
    }

    /// Hands out the next texture id.
    pub fn get_new_texture_id(&mut self) -> (texture_id: i64)
        requires
            old(self)@.next_texture_id < i64::MAX,
        ensures
            texture_id == old(self)@.next_texture_id,
            final(self)@ == (ServerModel {
                next_texture_id: (texture_id + 1) as i64,
                ..old(self)@
            }),
    {
        let texture_id: i64 = self.next_texture_id;
        self.next_texture_id = texture_id + 1;
        texture_id
    }

    /// Whether a surface with this id is registered.
    pub fn is_registered(&self, surface_id: u64) -> (known: bool)
        ensures
            known == self@.is_registered(surface_id),
    {
        self.surfaces.contains_key(&surface_id)
    }

    /// The record of a surface, if it is registered.
    pub fn surface(&self, surface_id: u64) -> (record: Option<MySurfaceState>)
        ensures
            record == (if self@.is_registered(surface_id) {
                Some(self@.surfaces[surface_id])
            } else {
                None
            }),
    {
        match self.surfaces.get(&surface_id) {
            Some(record) => Some(*record),
            None => None,
        }
    }

    /// Registers a new surface: gives it the next id and says so to the UI
    /// engine.
    pub fn new_surface(&mut self) -> (created: (u64, UiMessage))
        requires
            old(self)@.wf(),
            old(self)@.next_surface_id < u64::MAX,
        ensures
            created.0 == old(self)@.next_surface_id,
            created.1 == (UiMessage::NewSurface { surface_id: created.0 }),
            final(self)@ == old(self)@.after_new_surface(),
            final(self)@.wf(),
    {
        let surface_id: u64 = self.get_new_surface_id();
        self.surfaces.insert(
            surface_id,
            MySurfaceState { surface_id, old_texture_size: None, role: None },
        );
        (surface_id, UiMessage::NewSurface { surface_id })
    }

    /// Registers a new surface where an id is left for it, and says so
    /// where the ids are used up: then nothing changes.
    pub fn try_new_surface(&mut self) -> (created: Option<(u64, UiMessage)>)
        requires
            old(self)@.wf(),
        ensures
            created is Some <==> old(self)@.next_surface_id < u64::MAX,
            final(self)@ == old(self)@.after_try_new_surface(),
            created matches Some((surface_id, message)) ==> surface_id == old(
                self,
            )@.next_surface_id && message == (UiMessage::NewSurface { surface_id }),
            final(self)@.wf(),
    {
        if self.next_surface_id < u64::MAX {
            Some(self.new_surface())
        } else {
            None
        }
    }

    /// Gives a registered surface its role. The surface must not have one.
    pub(crate) fn set_role(&mut self, surface_id: u64, role: Role)
        requires
            old(self)@.wf(),
            old(self)@.is_registered(surface_id),
        ensures
            final(self)@ == old(self)@.with_role(surface_id, role),
            final(self)@.wf(),
    {
        let record: MySurfaceState = self.surface(surface_id).unwrap();
        self.surfaces.insert(surface_id, MySurfaceState { role: Some(role), ..record });
    }

    /// Makes a registered surface the subsurface of another.
    pub fn new_subsurface(&mut self, surface_id: u64, parent: u64) -> (message: UiMessage)
        requires
            old(self)@.wf(),
            old(self)@.is_registered(surface_id),
            old(self)@.is_registered(parent),
            old(self)@.role_of(surface_id) is None,
        ensures
            message == (UiMessage::NewSubsurface { surface_id, parent }),
            final(self)@ == old(self)@.with_role(surface_id, Role::Subsurface { parent }),
            final(self)@.wf(),
    {
        self.set_role(surface_id, Role::Subsurface { parent });
        UiMessage::NewSubsurface { surface_id, parent }
    }

    /// Takes a surface out of the registry and releases its textures.
    /// Hands out the message for the UI engine and the ids of the textures
    /// that were released, oldest first.
    pub fn destroyed(&mut self, surface_id: u64) -> (gone: (UiMessage, Vec<i64>))
        requires
            old(self)@.wf(),
            old(self)@.is_registered(surface_id),
        ensures
            gone.0 == (UiMessage::DestroySurface { surface_id }),
            gone.1@ == texture_ids_of(old(self)@.textures_of(surface_id)),
            final(self)@ == old(self)@.after_destroyed(surface_id),
            final(self)@.wf(),
    {
        self.surfaces.remove(&surface_id);
        let removed = self.texture_ids_per_surface_id.remove(&surface_id);
        proof {
            assert(self@.textures =~= old(self)@.textures.remove(surface_id));
        }
        let ghost start = self@;
        let ghost owners = self.surface_id_per_texture_id@;
        let mut released: Vec<i64> = Vec::new();
        match removed {
            Some(list) => {
                proof {
                    assert(list@ == old(self)@.textures_of(surface_id));
                    assert(texture_id_set(list@.take(0)) =~= Set::<i64>::empty());
                    assert(owners.remove_keys(Set::<i64>::empty()) =~= owners);
                    assert(texture_ids_of(list@.take(0)) =~= Seq::<i64>::empty());
                }
                let mut i: usize = 0;
                while i < list.len()
                    invariant
                        i <= list.len(),
                        self@ == (ServerModel {
                            owners: self.surface_id_per_texture_id@,
                            ..start
                        }),
                        self.surface_id_per_texture_id@ == owners.remove_keys(
                            texture_id_set(list@.take(i as int)),
                        ),
                        released@ == texture_ids_of(list@.take(i as int)),
                    decreases list.len() - i,
                {
                    let texture_id: i64 = list[i].0;
                    self.surface_id_per_texture_id.remove(&texture_id);
                    released.push(texture_id);
                    proof {
                        lemma_texture_id_set_grows(list@, i as int);
                        assert(self.surface_id_per_texture_id@ =~= owners.remove_keys(
                            texture_id_set(list@.take(i + 1)),
                        ));
                        assert(released@ =~= texture_ids_of(list@.take(i + 1)));
                    }
                    i = i + 1;
                }
                proof {
                    assert(list@.take(list.len() as int) =~= list@);
                }
            },
            None => {
                proof {
                    assert(texture_id_set(Seq::<(i64, Size)>::empty()) =~= Set::<i64>::empty());
                    assert(owners.remove_keys(Set::<i64>::empty()) =~= owners);
                    assert(texture_ids_of(Seq::<(i64, Size)>::empty()) =~= Seq::<i64>::empty());
                }
            },
        }
        (UiMessage::DestroySurface { surface_id }, released)
    }

    /// Takes a surface out of the registry where it stands in it, and says
    /// so where it does not: then nothing changes.
    pub fn try_destroyed(&mut self, surface_id: u64) -> (gone: Option<(UiMessage, Vec<i64>)>)
        requires
            old(self)@.wf(),
        ensures
            gone is Some <==> old(self)@.is_registered(surface_id),
            final(self)@ == old(self)@.after_try_destroyed(surface_id),
            gone matches Some((message, released)) ==> message == (UiMessage::DestroySurface {
                surface_id,
            }) && released@ == texture_ids_of(old(self)@.textures_of(surface_id)),
            final(self)@.wf(),
    {
        if self.is_registered(surface_id) {
            Some(self.destroyed(surface_id))
        } else {
            None
        }
    }

    /// Hands out the next view id. A view of the UI engine is a surface,
    /// so this is the next surface id.
    pub fn get_new_view_id(&mut self) -> (view_id: u64)
        requires
            old(self)@.next_surface_id < u64::MAX,
        ensures
            view_id == old(self)@.next_surface_id,
            final(self)@ == (ServerModel {
                next_surface_id: (view_id + 1) as u64,
                ..old(self)@
            }),
    {
        self.get_new_surface_id()
    }
}

/// The id under which the registry keeps a surface.
pub fn get_surface_id(surface: &MySurfaceState) -> (surface_id: u64)
    ensures
        surface_id == surface.surface_id,
{
    surface.surface_id
}

} // verus!

//! What the compositor core tells the UI engine: the payload of every
//! notification on the method channel.

use crate::geometry::{Point, Rectangle, Size};
use vstd::prelude::*;

verus! {

/// Role details of a toplevel window.
#[derive(Clone, Debug, PartialEq, Eq)]
pub struct ToplevelMessage {
    pub parent_surface_id: Option<u64>,
    pub app_id: Option<String>,
    pub title: Option<String>,
}

/// Role details of a popup: the surface it belongs to and where it sits
/// relative to it.
#[derive(Clone, Copy, Debug, PartialEq, Eq, Structural)]
pub struct PopupMessage {
    pub parent: u64,
    pub position: Point,
}

/// Role details of a subsurface.
#[derive(Clone, Copy, Debug, PartialEq, Eq, Structural)]
pub struct SubsurfaceMessage {
    pub position: Point,
    pub parent: u64,
}

/// Which of the two shell roles a shell surface has, with its details.
#[derive(Clone, Debug, PartialEq, Eq)]
pub enum XdgSurfaceRole {
    XdgToplevel(ToplevelMessage),
    XdgPopup(PopupMessage),
}

/// Role details of a shell surface. `role` is absent until the surface has
/// been sent its first configure, and after its role object is gone.
#[derive(Clone, Debug, PartialEq, Eq)]
pub struct XdgSurfaceMessage {
    pub geometry: Option<Rectangle>,
    pub role: Option<XdgSurfaceRole>,
}

/// The role of a surface as the UI engine is told it.
#[derive(Clone, Debug, PartialEq, Eq)]
pub enum SurfaceRole {
    XdgSurface(XdgSurfaceMessage),
    Subsurface(SubsurfaceMessage),
    X11Surface,
}

/// The texture id that stands for "no texture".
pub const NO_TEXTURE: i64 = -1;

/// The state of a surface after a commit.
#[derive(Clone, Debug, PartialEq, Eq)]
pub struct SurfaceMessage {
    pub surface_id: u64,
    pub role: Option<SurfaceRole>,
    pub texture_id: i64,
    pub buffer_delta: Option<Point>,
    pub buffer_size: Option<Size>,
    pub scale: i32,
    pub input_region: Rectangle,
    pub subsurfaces_below: Vec<u64>,
    pub subsurfaces_above: Vec<u64>,
}

/// A surface message with its lists as sequences.
pub struct SurfaceMessageView {
    pub surface_id: u64,
    pub role: Option<SurfaceRole>,
    pub texture_id: i64,
    pub buffer_delta: Option<Point>,
    pub buffer_size: Option<Size>,
    pub scale: i32,
    pub input_region: Rectangle,
    pub subsurfaces_below: Seq<u64>,
    pub subsurfaces_above: Seq<u64>,
}

impl View for SurfaceMessage {
    type V = SurfaceMessageView;

    open spec fn view(&self) -> SurfaceMessageView {
        SurfaceMessageView {
            surface_id: self.surface_id,
            role: self.role,
            texture_id: self.texture_id,
            buffer_delta: self.buffer_delta,
            buffer_size: self.buffer_size,
            scale: self.scale,
            input_region: self.input_region,
            subsurfaces_below: self.subsurfaces_below@,
            subsurfaces_above: self.subsurfaces_above@,
        }
    }
}

/// A notification for the UI engine.
#[derive(Clone, Debug, PartialEq, Eq)]
pub enum UiMessage {
    NewSurface { surface_id: u64 },
    NewSubsurface { surface_id: u64, parent: u64 },
    CommitSurface(SurfaceMessage),
    DestroySurface { surface_id: u64 },
    NewToplevel { surface_id: u64 },
    DestroyToplevel { surface_id: u64 },
    AppIdChanged { surface_id: u64, app_id: Option<String> },
    TitleChanged { surface_id: u64, title: Option<String> },
    NewPopup { surface_id: u64, parent: u64, position: Point },
    DestroyPopup { surface_id: u64 },
    InteractiveMove { surface_id: u64 },
    InteractiveResize { surface_id: u64, edge: i64 },
}

impl UiMessage {
    /// The name of the method that carries this notification.
    pub open spec fn spec_method(&self) -> Seq<char> {
        match *self {
            UiMessage::NewSurface { .. } => "new_surface"@,
            UiMessage::NewSubsurface { .. } => "new_subsurface"@,
            UiMessage::CommitSurface(_) => "commit_surface"@,
            UiMessage::DestroySurface { .. } => "destroy_surface"@,
            UiMessage::NewToplevel { .. } => "new_toplevel"@,
            UiMessage::DestroyToplevel { .. } => "destroy_toplevel"@,
            UiMessage::AppIdChanged { .. } => "app_id_changed"@,
            UiMessage::TitleChanged { .. } => "title_changed"@,
            UiMessage::NewPopup { .. } => "new_popup"@,
            UiMessage::DestroyPopup { .. } => "destroy_popup"@,
            UiMessage::InteractiveMove { .. } => "interactive_move"@,
            UiMessage::InteractiveResize { .. } => "interactive_resize"@,
        }
    }

    /// The name of the method that carries this notification.
    pub fn method(&self) -> (name: &'static str)
        ensures
            name@ == self.spec_method(),
    {
        match self {
            UiMessage::NewSurface { .. } => "new_surface",
            UiMessage::NewSubsurface { .. } => "new_subsurface",
            UiMessage::CommitSurface(_) => "commit_surface",
            UiMessage::DestroySurface { .. } => "destroy_surface",
            UiMessage::NewToplevel { .. } => "new_toplevel",
            UiMessage::DestroyToplevel { .. } => "destroy_toplevel",
            UiMessage::AppIdChanged { .. } => "app_id_changed",
            UiMessage::TitleChanged { .. } => "title_changed",
            UiMessage::NewPopup { .. } => "new_popup",
            UiMessage::DestroyPopup { .. } => "destroy_popup",
            UiMessage::InteractiveMove { .. } => "interactive_move",
            UiMessage::InteractiveResize { .. } => "interactive_resize",
        }
    }
}

/// A copy of an optional string.
pub fn clone_optional_string(s: &Option<String>) -> (copy: Option<String>)
    ensures
        copy == *s,
{
    match s {
        Some(text) => Some(text.clone()),
        None => None,
    }
}

} // verus!

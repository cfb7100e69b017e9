//! What a surface is besides its place on screen: its role (toplevel or
//! popup), the state that a toplevel is in while it is maximized, resized or
//! moved, and the rules by which a popup is placed against its parent.

use crate::geometry::{Offset2D, Rectangle};
use vstd::prelude::*;

verus! {

/// The edge or corner of a toplevel that an interactive resize drags.
#[derive(Clone, Copy, Debug, PartialEq, Eq, Structural)]
pub enum ResizeEdge {
    /// No edge: such a resize changes nothing.
    Unset,
    Top,
    Bottom,
    Left,
    TopLeft,
    BottomLeft,
    Right,
    TopRight,
    BottomRight,
}

/// The point of the anchor rectangle that a popup is placed against.
#[derive(Clone, Copy, Debug, PartialEq, Eq, Structural)]
pub enum Anchor {
    /// The centre of the anchor rectangle.
    Center,
    Top,
    Bottom,
    Left,
    Right,
    TopLeft,
    BottomLeft,
    TopRight,
    BottomRight,
}

/// The direction in which a popup extends from its anchor point.
#[derive(Clone, Copy, Debug, PartialEq, Eq, Structural)]
pub enum Gravity {
    /// The popup is centred on its anchor point.
    Center,
    Top,
    Bottom,
    Left,
    Right,
    TopLeft,
    BottomLeft,
    TopRight,
    BottomRight,
}

/// How a popup may be adjusted when it does not fit, as the client's bit set.
/// It is recorded and never applied.
#[derive(Clone, Copy, Debug, PartialEq, Eq, Structural)]
pub struct ConstraintAdjustment {
    pub bits: u32,
}

/// A client surface of the protocol layer, named by the id under which the
/// compositor tracks it.
#[derive(Clone, Copy, Debug, PartialEq, Eq, Structural)]
pub struct WlSurface {
    pub id: usize,
}

/// The toplevel role of a client surface. `surface` is `None` once the
/// client surface is gone.
#[derive(Clone, Copy, Debug, PartialEq, Eq, Structural)]
pub struct ToplevelSurface {
    pub surface: Option<WlSurface>,
}

/// The popup role of a client surface, with the surface it belongs to.
#[derive(Clone, Copy, Debug, PartialEq, Eq, Structural)]
pub struct PopupSurface {
    pub surface: Option<WlSurface>,
    pub parent: Option<WlSurface>,
}

impl ToplevelSurface {
    pub fn get_surface(&self) -> (r: Option<WlSurface>)
        ensures
            r == self.surface,
    {
        self.surface
    }
}

impl PopupSurface {
    pub fn get_surface(&self) -> (r: Option<WlSurface>)
        ensures
            r == self.surface,
    {
        self.surface
    }

    pub fn get_parent_surface(&self) -> (r: Option<WlSurface>)
        ensures
            r == self.parent,
    {
        self.parent
    }
}

/// What has been altered on a toplevel, and the geometry it had before.
#[derive(Clone, Copy, Debug, PartialEq, Eq)]
pub struct AlteredState {
    pub original: Rectangle,
    pub minimized: bool,
    pub maximized: bool,
    pub fullscreen: bool,
    /// Serial and edge of the interactive resize in progress.
    pub resizing: Option<(u32, ResizeEdge)>,
    /// Serial of the interactive move in progress.
    pub moving: Option<u32>,
}

impl AlteredState {
    /// No flag is set and no resize or move is in progress.
    pub open spec fn spec_is_empty(self) -> bool {
        &&& !self.minimized
        &&& !self.maximized
        &&& !self.fullscreen
        &&& self.resizing is None
        &&& self.moving is None
    }

    /// Whether an interactive resize may start.
    pub open spec fn may_start_resize(self) -> bool {
        &&& self.resizing is None
        &&& self.moving is None
        &&& !self.maximized
        &&& !self.minimized
    }

    /// Whether a resize with this serial is the one in progress.
    pub open spec fn spec_is_resizing_with(self, serial: u32) -> bool {
        self.resizing matches Some(r) && r.0 == serial
    }

    /// Whether a resize step with this serial is accepted: it is unless a
    /// resize with another serial is in progress.
    pub open spec fn spec_check_resize(self, serial: u32) -> bool {
        self.resizing matches Some(r) ==> r.0 == serial
    }

    pub fn new(original: Rectangle) -> (r: Self)
        ensures
            r.original == original,
            r.spec_is_empty(),
    {
        Self {
            original,
            minimized: false,
            maximized: false,
            fullscreen: false,
            resizing: None,
            moving: None,
        }
    }

    pub fn is_minimized(&self) -> (r: bool)
        ensures
            r == self.minimized,
    {
        self.minimized
    }

    pub fn is_maximized(&self) -> (r: bool)
        ensures
            r == self.maximized,
    {
        self.maximized
    }

    pub fn is_fullscreen(&self) -> (r: bool)
        ensures
            r == self.fullscreen,
    {
        self.fullscreen
    }

    pub fn is_resizing(&self) -> (r: bool)
        ensures
            r == (self.resizing is Some),
    {
        self.resizing.is_some()
    }

    pub fn is_resizing_width(&self, serial: u32) -> (r: bool)
        ensures
            r == self.spec_is_resizing_with(serial),
    {
        match self.resizing {
            Some((current, _)) => current == serial,
            None => false,
        }
    }

    pub fn is_moving(&self) -> (r: bool)
        ensures
            r == (self.moving is Some),
    {
        self.moving.is_some()
    }

    pub fn is_moving_width(&self, serial: u32) -> (r: bool)
        ensures
            r == (self.moving == Some(serial)),
    {
        match self.moving {
            Some(current) => current == serial,
            None => false,
        }
    }

    pub fn is_empty(&self) -> (r: bool)
        ensures
            r == self.spec_is_empty(),
    {
        !self.is_minimized() && !self.is_maximized() && !self.is_fullscreen()
            && !self.is_resizing() && !self.is_moving()
    }

    /// Records the resize unless one is in progress, a move is, or the
    /// surface is maximized or minimized. Says whether it did.
    pub fn start_interactive_resize(&mut self, serial: u32, edge: ResizeEdge) -> (r: bool)
        ensures
            r == old(self).may_start_resize(),
            r ==> *final(self) == (AlteredState { resizing: Some((serial, edge)), ..*old(self) }),
            !r ==> *final(self) == *old(self),
    {
        if self.resizing.is_some() || self.moving.is_some() || self.maximized || self.minimized {
            false
        } else {
            self.resizing = Some((serial, edge));
            true
        }
    }

    /// Forgets the resize in progress if `serial` is its serial. Says
    /// whether it did.
    pub fn stop_interactive_resize(&mut self, serial: u32) -> (r: bool)
        ensures
            r == old(self).spec_is_resizing_with(serial),
            r ==> *final(self) == (AlteredState { resizing: None, ..*old(self) }),
            !r ==> *final(self) == *old(self),
    {
        if self.is_resizing_width(serial) {
            self.resizing = None;
            true
        } else {
            false
        }
    }

    pub fn check_resize(&self, serial: u32) -> (r: bool)
        ensures
            r == self.spec_check_resize(serial),
    {
        match self.resizing {
            Some((current, _)) => current == serial,
            None => true,
        }
    }
}

/// The state of a toplevel: nothing while it is as the client laid it out,
/// a record of what was altered otherwise.
#[derive(Clone, Copy, Debug, PartialEq, Eq)]
pub struct SurfaceState {
    pub altered_state: Option<AlteredState>,
}

impl Default for SurfaceState {
    fn default() -> (r: Self)
        ensures
            r.altered_state is None,
            r.wf(),
    {
        Self { altered_state: None }
    }
}

impl SurfaceState {
    /// A record is kept exactly while something in it is active.
    pub open spec fn wf(self) -> bool {
        self.altered_state matches Some(altered) ==> !altered.spec_is_empty()
    }

    /// Whether a resize step with this serial is accepted: it is unless a
    /// resize with another serial is in progress.
    pub open spec fn spec_check_resize(self, serial: u32) -> bool {
        self.altered_state matches Some(altered) ==> altered.spec_check_resize(serial)
    }

    /// Whether an interactive resize may start in this state.
    pub open spec fn may_start_resize(self) -> bool {
        self.altered_state matches Some(altered) ==> altered.may_start_resize()
    }

    /// The state once a resize has started; `geometry` is remembered as the
    /// original geometry if nothing was altered before.
    pub open spec fn resize_started(self, serial: u32, edge: ResizeEdge, geometry: Rectangle)
        -> SurfaceState {
        let base = match self.altered_state {
            Some(altered) => altered,
            None => AlteredState {
                original: geometry,
                minimized: false,
                maximized: false,
                fullscreen: false,
                resizing: None,
                moving: None,
            },
        };
        SurfaceState { altered_state: Some(AlteredState { resizing: Some((serial, edge)), ..base }) }
    }

    /// Whether the resize in progress has this serial.
    pub open spec fn spec_is_resizing_with(self, serial: u32) -> bool {
        self.altered_state matches Some(altered) && altered.spec_is_resizing_with(serial)
    }

    /// The state once the resize in progress has stopped: the record goes
    /// when nothing else is active.
    pub open spec fn resize_stopped(self) -> SurfaceState {
        match self.altered_state {
            Some(altered) => {
                let rest = AlteredState { resizing: None, ..altered };
                if rest.spec_is_empty() {
                    SurfaceState { altered_state: None }
                } else {
                    SurfaceState { altered_state: Some(rest) }
                }
            },
            None => self,
        }
    }

    /// The state once maximized; `geometry` is remembered as the original
    /// geometry if nothing was altered before.
    pub open spec fn maximized(self, geometry: Rectangle) -> SurfaceState {
        let base = match self.altered_state {
            Some(altered) => altered,
            None => AlteredState {
                original: geometry,
                minimized: false,
                maximized: false,
                fullscreen: false,
                resizing: None,
                moving: None,
            },
        };
        SurfaceState { altered_state: Some(AlteredState { maximized: true, ..base }) }
    }

    /// The state once minimized.
    pub open spec fn minimized(self, geometry: Rectangle) -> SurfaceState {
        let base = match self.altered_state {
            Some(altered) => altered,
            None => AlteredState {
                original: geometry,
                minimized: false,
                maximized: false,
                fullscreen: false,
                resizing: None,
                moving: None,
            },
        };
        SurfaceState { altered_state: Some(AlteredState { minimized: true, ..base }) }
    }

    /// The geometry to go back to when the maximized flag is cleared: there
    /// is one when clearing it leaves nothing active.
    pub open spec fn restored_geometry(self) -> Option<Rectangle> {
        match self.altered_state {
            Some(altered) => if (AlteredState { maximized: false, ..altered }).spec_is_empty() {
                Some(altered.original)
            } else {
                None
            },
            None => None,
        }
    }

    /// The state once the maximized flag is cleared.
    pub open spec fn unmaximized(self) -> SurfaceState {
        match self.altered_state {
            Some(altered) => {
                let rest = AlteredState { maximized: false, ..altered };
                if rest.spec_is_empty() {
                    SurfaceState { altered_state: None }
                } else {
                    SurfaceState { altered_state: Some(rest) }
                }
            },
            None => self,
        }
    }

    pub fn check_resize(&self, serial: u32) -> (r: bool)
        ensures
            r == self.spec_check_resize(serial),
    {
        match &self.altered_state {
            Some(altered) => altered.check_resize(serial),
            None => true,
        }
    }

    /// Starts an interactive resize if the state allows one. Says whether
    /// it did.
    pub fn start_interactive_resize(
        &mut self,
        serial: u32,
        edge: ResizeEdge,
        geometry: Rectangle,
    ) -> (r: bool)
        ensures
            r == old(self).may_start_resize(),
            r ==> *final(self) == old(self).resize_started(serial, edge, geometry),
            !r ==> *final(self) == *old(self),
            old(self).wf() ==> final(self).wf(),
    {
        let mut altered = match self.altered_state {
            Some(altered) => altered,
            None => AlteredState::new(geometry),
        };
        let started = altered.start_interactive_resize(serial, edge);
        if started {
            self.altered_state = Some(altered);
        }
        started
    }

    /// Stops the interactive resize in progress if `serial` is its serial.
    /// Says whether it did.
    pub fn stop_interactive_resize(&mut self, serial: u32) -> (r: bool)
        ensures
            r == old(self).spec_is_resizing_with(serial),
            r ==> *final(self) == old(self).resize_stopped(),
            !r ==> *final(self) == *old(self),
            old(self).wf() ==> final(self).wf(),
    {
        match self.altered_state {
            Some(mut altered) => {
                let stopped = altered.stop_interactive_resize(serial);
                if stopped {
                    if altered.is_empty() {
                        self.altered_state = None;
                    } else {
                        self.altered_state = Some(altered);
                    }
                }
                stopped
            },
            None => false,
        }
    }

    pub fn is_minimized(&self) -> (r: bool)
        ensures
            r == (self.altered_state matches Some(altered) && altered.minimized),
    {
        match &self.altered_state {
            Some(altered) => altered.is_minimized(),
            None => false,
        }
    }

    pub fn is_maximized(&self) -> (r: bool)
        ensures
            r == (self.altered_state matches Some(altered) && altered.maximized),
    {
        match &self.altered_state {
            Some(altered) => altered.is_maximized(),
            None => false,
        }
    }

    pub fn is_fullscreen(&self) -> (r: bool)
        ensures
            r == (self.altered_state matches Some(altered) && altered.fullscreen),
    {
        match &self.altered_state {
            Some(altered) => altered.is_fullscreen(),
            None => false,
        }
    }

    pub fn is_resizing(&self) -> (r: bool)
        ensures
            r == (self.altered_state matches Some(altered) && altered.resizing is Some),
    {
        match &self.altered_state {
            Some(altered) => altered.is_resizing(),
            None => false,
        }
    }

    pub fn is_resizing_width(&self, serial: u32) -> (r: bool)
        ensures
            r == self.spec_is_resizing_with(serial),
    {
        match &self.altered_state {
            Some(altered) => altered.is_resizing_width(serial),
            None => false,
        }
    }

    pub fn is_moving(&self) -> (r: bool)
        ensures
            r == (self.altered_state matches Some(altered) && altered.moving is Some),
    {
        match &self.altered_state {
            Some(altered) => altered.is_moving(),
            None => false,
        }
    }

    pub fn is_moving_width(&self, serial: u32) -> (r: bool)
        ensures
            r == (self.altered_state matches Some(altered) && altered.moving == Some(serial)),
    {
        match &self.altered_state {
            Some(altered) => altered.is_moving_width(serial),
            None => false,
        }
    }

    /// Whether a record is kept in which nothing is active. A well-formed
    /// state never is.
    pub fn is_empty(&self) -> (r: bool)
        ensures
            r == (self.altered_state matches Some(altered) && altered.spec_is_empty()),
            self.wf() ==> !r,
    {
        match &self.altered_state {
            Some(altered) => altered.is_empty(),
            None => false,
        }
    }
}

/// A record is kept exactly while a flag, a resize or a move is active.
pub proof fn lemma_altered_state_emptiness(state: SurfaceState)
    requires
        state.wf(),
    ensures
        state.altered_state is Some <==> exists|altered: AlteredState|
            state.altered_state == Some(altered) && (altered.minimized || altered.maximized
                || altered.fullscreen || altered.resizing is Some || altered.moving is Some),
{
    if state.altered_state is Some {
        let altered = state.altered_state->0;
        assert(state.altered_state == Some(altered) && (altered.minimized || altered.maximized
            || altered.fullscreen || altered.resizing is Some || altered.moving is Some));
    }
}

/// Starting an interactive resize on an unaltered toplevel and stopping it
/// with the same serial leaves the toplevel unaltered.
pub proof fn lemma_resize_start_stop(
    state: SurfaceState,
    serial: u32,
    edge: ResizeEdge,
    geometry: Rectangle,
)
    requires
        state.altered_state is None,
    ensures
        state.may_start_resize(),
        state.resize_started(serial, edge, geometry).spec_is_resizing_with(serial),
        state.resize_started(serial, edge, geometry).resize_stopped().altered_state is None,
{
}

/// Maximizing an unaltered toplevel and clearing the flag again restores the
/// geometry that was remembered, and leaves the toplevel unaltered.
pub proof fn lemma_maximize_unmaximize(state: SurfaceState, geometry: Rectangle)
    requires
        state.altered_state is None,
    ensures
        state.maximized(geometry).restored_geometry() == Some(geometry),
        state.maximized(geometry).unmaximized() == state,
{
}

/// How a popup sits against its parent.
#[derive(Clone, Copy, Debug, PartialEq, Eq, Structural)]
pub struct PopupState {
    /// The anchor rectangle, relative to the parent's inner geometry.
    pub anchor: Rectangle,
    pub anchor_edges: Anchor,
    pub gravity: Gravity,
    pub constraint_adjustment: ConstraintAdjustment,
    pub offset: Offset2D,
    pub reactive: bool,
}

/// The role of a surface.
#[derive(Clone, Copy, Debug, PartialEq, Eq)]
#[allow(inconsistent_fields)]
pub enum SurfaceKind {
    Toplevel { handle: ToplevelSurface, state: SurfaceState },
    Popup { handle: PopupSurface, state: PopupState },
}

impl SurfaceKind {
    pub open spec fn spec_handle(self) -> Option<WlSurface> {
        match self {
            SurfaceKind::Toplevel { handle, .. } => handle.surface,
            SurfaceKind::Popup { handle, .. } => handle.surface,
        }
    }

    /// Whether a resize step with this serial is accepted: always on a
    /// popup, and on a toplevel unless a resize with another serial is in
    /// progress.
    pub open spec fn spec_check_resize(self, serial: u32) -> bool {
        match self {
            SurfaceKind::Toplevel { state, .. } => state.spec_check_resize(serial),
            SurfaceKind::Popup { .. } => true,
        }
    }

    /// A toplevel's state is well formed.
    pub open spec fn wf(self) -> bool {
        self matches SurfaceKind::Toplevel { state, .. } ==> state.wf()
    }

    pub fn handle(&self) -> (r: Option<WlSurface>)
        ensures
            r == self.spec_handle(),
    {
        match self {
            SurfaceKind::Toplevel { handle, .. } => handle.get_surface(),
            SurfaceKind::Popup { handle, .. } => handle.get_surface(),
        }
    }

    pub fn check_resize(&self, serial: u32) -> (r: bool)
        ensures
            r == self.spec_check_resize(serial),
    {
        match self {
            SurfaceKind::Toplevel { state, .. } => state.check_resize(serial),
            SurfaceKind::Popup { .. } => true,
        }
    }
}

impl From<ToplevelSurface> for SurfaceKind {
    fn from(handle: ToplevelSurface) -> (r: Self)
        ensures
            r == (SurfaceKind::Toplevel { handle, state: SurfaceState { altered_state: None } }),
    {
        let state = SurfaceState::default();
        SurfaceKind::Toplevel { handle, state }
    }
}

impl vstd::std_specs::convert::FromSpecImpl<ToplevelSurface> for SurfaceKind {
    open spec fn obeys_from_spec() -> bool {
        true
    }

    open spec fn from_spec(handle: ToplevelSurface) -> Self {
        SurfaceKind::Toplevel { handle, state: SurfaceState { altered_state: None } }
    }
}

} // verus!

//! Surfaces: a toplevel with the popups that hang from it, as a tree, and
//! what moving, renumbering, configuring and resizing do to such a tree.

use crate::geometry::{half, to_i32, wrap_i32, wrap_u32, Position2D, Rectangle, Size2D};
use crate::surface_state::{
    AlteredState, Anchor, Gravity, PopupState, ResizeEdge, SurfaceKind, SurfaceState, WlSurface,
};
use crate::search::{first_where, lemma_first_where_is, lemma_first_where_none};
use vstd::prelude::*;

verus! {

/// How the pixels of a client buffer are stored.
#[derive(Clone, Copy, Debug, PartialEq, Eq, Structural)]
pub enum BufferType {
    /// In memory shared with the client.
    Shm,
    /// In a buffer of the graphics device.
    Dma,
}

/// A client buffer of the protocol layer, with its size in pixels.
#[derive(Clone, Copy, Debug, PartialEq, Eq, Structural)]
pub struct WlBuffer {
    pub id: usize,
    pub kind: BufferType,
    pub size: Size2D,
}

/// The buffer attached to a surface and the part of it that the client
/// declares as content.
#[derive(Clone, Copy, Debug, PartialEq, Eq, Structural)]
pub struct Buffer {
    pub handle: WlBuffer,
    pub geometry: Rectangle,
}

impl Buffer {
    pub fn handle(&self) -> (r: &WlBuffer)
        ensures
            *r == self.handle,
    {
        &self.handle
    }

    pub fn geometry(&self) -> (r: &Rectangle)
        ensures
            *r == self.geometry,
    {
        &self.geometry
    }

    pub fn size(&self) -> (r: Size2D)
        ensures
            r == self.handle.size,
    {
        self.handle.size
    }
}

/// What is asked of the surface manager.
#[derive(Clone, Copy, Debug, PartialEq, Eq)]
pub enum SurfaceRequest {
    Add { id: usize, kind: SurfaceKind, position: Position2D },
    Remove { id: usize },
    Move { id: usize, position: Position2D },
    InteractiveResizeStart { id: usize, serial: u32, edge: ResizeEdge },
    InteractiveResize { id: usize, serial: u32, inner_size: Size2D },
    InteractiveResizeStop { id: usize, serial: u32 },
    Resize { id: usize, size: Size2D },
    Configuration { id: usize, geometry: Option<Rectangle>, min_size: Size2D, max_size: Size2D },
    AttachBuffer { id: usize, handle: WlBuffer, inner_geometry: Rectangle, size: Size2D },
    DetachBuffer { id: usize },
    Maximize { id: usize },
    Unmaximize { id: usize },
    Commit { id: usize },
}

/// What the surface manager reports.
#[derive(Clone, Copy, Debug, PartialEq, Eq)]
pub enum SurfaceEvent {
    Added { id: usize, kind: SurfaceKind },
    Removed { id: usize },
    Moved { id: usize, position: Position2D, depth: u32 },
    InteractiveResizeStarted { id: usize, serial: u32, edge: ResizeEdge },
    InteractiveResizeStopped { id: usize, serial: u32 },
    Resized { id: usize, size: Size2D },
    Configuration { id: usize, size: Size2D },
    MinSize { id: usize, size: Size2D },
    MaxSize { id: usize, size: Size2D },
    Geometry { id: usize, geometry: Rectangle },
    BufferAttached { id: usize, handle: WlBuffer, inner_geometry: Rectangle, geometry: Rectangle },
    BufferReplaced { id: usize, handle: WlBuffer, inner_geometry: Rectangle, geometry: Rectangle },
    BufferDetached { id: usize },
    Activated { id: usize },
    Deactivated { id: usize },
    Maximized { id: usize },
    Unmaximized { id: usize },
    Committed { id: usize },
}

/// A surface and, front first, the popups that hang from it.
#[derive(Debug)]
pub struct Surface {
    pub id: usize,
    pub kind: SurfaceKind,
    pub buffer: Option<Buffer>,
    pub min_size: Size2D,
    pub max_size: Size2D,
    pub position: Position2D,
    pub depth: u32,
    pub children: Vec<Surface>,
}

/// The mathematical model of a [`Surface`]: the same tree over sequences.
pub struct SurfaceView {
    pub id: usize,
    pub kind: SurfaceKind,
    pub buffer: Option<Buffer>,
    pub min_size: Size2D,
    pub max_size: Size2D,
    pub position: Position2D,
    pub depth: u32,
    pub children: Seq<SurfaceView>,
}

impl Surface {
    /// The model of the surface.
    pub open spec fn model(self) -> SurfaceView
        decreases self,
    {
        SurfaceView {
            id: self.id,
            kind: self.kind,
            buffer: self.buffer,
            min_size: self.min_size,
            max_size: self.max_size,
            position: self.position,
            depth: self.depth,
            children: Seq::new(
                self.children@.len(),
                |i: int|
                    if 0 <= i < self.children@.len() {
                        self.children@[i].model()
                    } else {
                        arbitrary()
                    },
            ),
        }
    }
}

impl View for Surface {
    type V = SurfaceView;

    open spec fn view(&self) -> SurfaceView {
        self.model()
    }
}

/// The models of a sequence of surfaces.
pub open spec fn views(surfaces: Seq<Surface>) -> Seq<SurfaceView> {
    Seq::new(surfaces.len(), |i: int| surfaces[i]@)
}

/// The model of a surface holds the surface's own fields, and the models of
/// its children.
pub proof fn lemma_view(surface: &Surface)
    ensures
        surface@.id == surface.id,
        surface@.kind == surface.kind,
        surface@.buffer == surface.buffer,
        surface@.min_size == surface.min_size,
        surface@.max_size == surface.max_size,
        surface@.position == surface.position,
        surface@.depth == surface.depth,
        surface@.children == views(surface.children@),
{
    assert(surface@.children =~= views(surface.children@));
}

/// Where on the anchor rectangle the anchor point lies, from the
/// rectangle's corner.
pub open spec fn anchor_point(anchor: Rectangle, edges: Anchor) -> (int, int) {
    let w = wrap_i32(anchor.size.width as int) as int;
    let h = wrap_i32(anchor.size.height as int) as int;
    match edges {
        Anchor::TopLeft => (0, 0),
        Anchor::BottomLeft => (0, h),
        Anchor::TopRight => (w, 0),
        Anchor::BottomRight => (w, h),
        Anchor::Top => (half(w), 0),
        Anchor::Bottom => (half(w), h),
        Anchor::Left => (0, half(h)),
        Anchor::Right => (w, half(h)),
        Anchor::Center => (half(w), half(h)),
    }
}

/// How far up and left of the anchor point a popup of this size starts.
pub open spec fn gravity_shift(size: Size2D, gravity: Gravity) -> (int, int) {
    let w = wrap_i32(size.width as int) as int;
    let h = wrap_i32(size.height as int) as int;
    match gravity {
        Gravity::TopRight => (0, 0),
        Gravity::BottomRight => (0, h),
        Gravity::TopLeft => (w, 0),
        Gravity::BottomLeft => (w, h),
        Gravity::Bottom => (half(w), 0),
        Gravity::Top => (half(w), h),
        Gravity::Right => (0, half(h)),
        Gravity::Left => (w, half(h)),
        Gravity::Center => (half(w), half(h)),
    }
}

/// Where a popup of size `size` goes: the anchor rectangle is taken from the
/// parent's position and the origin of the parent's inner geometry, the
/// anchor point on it by the anchor edges, the popup's corner from that
/// point by the gravity, and the offset is added.
pub open spec fn popup_position(
    state: PopupState,
    parent_position: Position2D,
    parent_inner: Rectangle,
    size: Size2D,
) -> Position2D {
    let a = anchor_point(state.anchor, state.anchor_edges);
    let g = gravity_shift(size, state.gravity);
    Position2D {
        x: wrap_i32(
            state.anchor.position.x + parent_position.x + parent_inner.position.x + a.0 - g.0
                + state.offset.x,
        ),
        y: wrap_i32(
            state.anchor.position.y + parent_position.y + parent_inner.position.y + a.1 - g.1
                + state.offset.y,
        ),
    }
}

impl SurfaceView {
    /// The size of the attached buffer.
    pub open spec fn size(self) -> Option<Size2D> {
        match self.buffer {
            Some(buffer) => Some(buffer.handle.size),
            None => None,
        }
    }

    /// The outer rectangle: the position and the size of the attached buffer.
    pub open spec fn geometry(self) -> Option<Rectangle> {
        match self.buffer {
            Some(buffer) => Some(Rectangle { position: self.position, size: buffer.handle.size }),
            None => None,
        }
    }

    /// The content rectangle that the client declared, within the buffer.
    pub open spec fn inner_geometry(self) -> Option<Rectangle> {
        match self.buffer {
            Some(buffer) => Some(buffer.geometry),
            None => None,
        }
    }

    /// Where this surface goes as a child of a parent at `parent_position`
    /// with inner geometry `parent_inner`. `None` where it stays: the parent
    /// or the surface has no buffer, or the surface is no popup.
    pub open spec fn placed(self, parent_position: Position2D, parent_inner: Option<Rectangle>)
        -> Option<Position2D> {
        match (parent_inner, self.size(), self.kind) {
            (Some(inner), Some(size), SurfaceKind::Popup { state, .. }) => Some(
                popup_position(state, parent_position, inner, size),
            ),
            _ => None,
        }
    }
}

/// Number of surfaces in the tree.
pub open spec fn count(v: SurfaceView) -> nat
    decreases v, 0nat,
{
    1 + count_all(v.children, v.children.len())
}

/// Number of surfaces in the first `n` trees of `s`.
pub open spec fn count_all(s: Seq<SurfaceView>, n: nat) -> nat
    decreases s, n,
{
    if n == 0 || n > s.len() {
        0
    } else {
        count_all(s, (n - 1) as nat) + count(s[n - 1])
    }
}

/// The tree once its root has gone to `position` at depth `depth`: every
/// popup below is placed anew against its parent.
pub open spec fn moved(v: SurfaceView, position: Position2D, depth: u32) -> SurfaceView
    decreases v, 1nat,
{
    SurfaceView {
        position,
        depth,
        children: repositioned(v.children, position, v.inner_geometry()),
        ..v
    }
}

/// The children of a parent at `parent_position`, each placed anew.
pub open spec fn repositioned(
    children: Seq<SurfaceView>,
    parent_position: Position2D,
    parent_inner: Option<Rectangle>,
) -> Seq<SurfaceView>
    decreases children, 0nat,
{
    Seq::new(
        children.len(),
        |i: int|
            if 0 <= i < children.len() {
                match children[i].placed(parent_position, parent_inner) {
                    Some(position) => moved(children[i], position, children[i].depth),
                    None => children[i],
                }
            } else {
                arbitrary()
            },
    )
}

/// The events of [`moved`]: the root's move, then those of the popups
/// below, front first and each followed by its own popups'.
pub open spec fn move_events(v: SurfaceView, position: Position2D, depth: u32) -> Seq<
    SurfaceEvent,
>
    decreases v, 0nat,
{
    seq![SurfaceEvent::Moved { id: v.id, position, depth }] + reposition_events(
        v.children,
        position,
        v.inner_geometry(),
        v.children.len(),
    )
}

/// The events of placing anew the first `n` of `children`.
pub open spec fn reposition_events(
    children: Seq<SurfaceView>,
    parent_position: Position2D,
    parent_inner: Option<Rectangle>,
    n: nat,
) -> Seq<SurfaceEvent>
    decreases children, n,
{
    if n == 0 || n > children.len() {
        Seq::empty()
    } else {
        reposition_events(children, parent_position, parent_inner, (n - 1) as nat) + (
        match children[n - 1].placed(parent_position, parent_inner) {
            Some(position) => move_events(children[n - 1], position, children[n - 1].depth),
            None => Seq::empty(),
        })
    }
}

/// The tree with depths given anew from `start`: the popups of a surface
/// first, front first, then the surface, each one more than the one before.
pub open spec fn renumbered(v: SurfaceView, start: u32) -> SurfaceView
    decreases v, 1nat,
{
    SurfaceView {
        depth: wrap_u32(start + count_all(v.children, v.children.len())),
        children: renumbered_all(v.children, start),
        ..v
    }
}

/// The trees of `s` with depths given anew, the first from `start`.
pub open spec fn renumbered_all(s: Seq<SurfaceView>, start: u32) -> Seq<SurfaceView>
    decreases s, 0nat,
{
    Seq::new(
        s.len(),
        |i: int|
            if 0 <= i < s.len() {
                renumbered(s[i], wrap_u32(start + count_all(s, i as nat)))
            } else {
                arbitrary()
            },
    )
}

/// The events of [`renumbered`]: a move for each surface whose depth
/// changes, in the order in which depths are given.
pub open spec fn renumber_events(v: SurfaceView, start: u32) -> Seq<SurfaceEvent>
    decreases v, 0nat,
{
    let depth = wrap_u32(start + count_all(v.children, v.children.len()));
    renumber_all_events(v.children, start, v.children.len()) + (if v.depth != depth {
        seq![SurfaceEvent::Moved { id: v.id, position: v.position, depth }]
    } else {
        Seq::empty()
    })
}

/// The events of giving depths anew to the first `n` trees of `s`.
pub open spec fn renumber_all_events(s: Seq<SurfaceView>, start: u32, n: nat) -> Seq<
    SurfaceEvent,
>
    decreases s, n,
{
    if n == 0 || n > s.len() {
        Seq::empty()
    } else {
        renumber_all_events(s, start, (n - 1) as nat) + renumber_events(
            s[n - 1],
            wrap_u32(start + count_all(s, (n - 1) as nat)),
        )
    }
}

/// Whether a surface has this id.
pub open spec fn has_id(id: usize) -> spec_fn(SurfaceView) -> bool {
    |v: SurfaceView| v.id == id
}

/// The index of the first surface of `s` with this id.
pub open spec fn index_of(s: Seq<SurfaceView>, id: usize) -> Option<int> {
    first_where(s, has_id(id))
}

/// Where an interactive resize by `edge` puts a surface when its inner size
/// goes from `current` to `new`, so that the side opposite to `edge` stays.
/// `None` where the surface stays: the right, the bottom and the corner
/// between them are dragged away from the origin.
pub open spec fn anchored_position(
    position: Position2D,
    edge: ResizeEdge,
    current: Size2D,
    new: Size2D,
) -> Option<Position2D> {
    let x = wrap_i32(position.x + current.width - new.width);
    let y = wrap_i32(position.y + current.height - new.height);
    match edge {
        ResizeEdge::Left => Some(Position2D { x, y: position.y }),
        ResizeEdge::Top => Some(Position2D { x: position.x, y }),
        ResizeEdge::TopLeft => Some(Position2D { x, y }),
        ResizeEdge::TopRight => Some(Position2D { x: position.x, y }),
        ResizeEdge::BottomLeft => Some(Position2D { x, y: position.y }),
        _ => None,
    }
}

impl SurfaceView {
    /// The edge of the interactive resize in progress on a toplevel.
    pub open spec fn resizing_edge(self) -> Option<ResizeEdge> {
        match self.kind {
            SurfaceKind::Toplevel { state, .. } => match state.altered_state {
                Some(altered) => match altered.resizing {
                    Some(r) => Some(r.1),
                    None => None,
                },
                None => None,
            },
            SurfaceKind::Popup { .. } => None,
        }
    }

    /// Where the acknowledgement of a new inner geometry moves the surface:
    /// somewhere where a resize is in progress that drags the left or the
    /// top, and an inner geometry is known.
    pub open spec fn configure_target(self, inner_geometry: Option<Rectangle>) -> Option<
        Position2D,
    > {
        match (inner_geometry, self.inner_geometry(), self.resizing_edge()) {
            (Some(new), Some(current), Some(edge)) => anchored_position(
                self.position,
                edge,
                current.size,
                new.size,
            ),
            _ => None,
        }
    }

    /// The surface with this state, if it is a toplevel.
    pub open spec fn with_state(self, state: SurfaceState) -> SurfaceView {
        match self.kind {
            SurfaceKind::Toplevel { handle, .. } => SurfaceView {
                kind: SurfaceKind::Toplevel { handle, state },
                ..self
            },
            SurfaceKind::Popup { .. } => self,
        }
    }

    /// The state of a toplevel that has a buffer.
    pub open spec fn alterable(self) -> Option<SurfaceState> {
        match (self.kind, self.buffer) {
            (SurfaceKind::Toplevel { state, .. }, Some(_)) => Some(state),
            _ => None,
        }
    }

    /// The surface, or its first popup, with this id.
    pub open spec fn lookup(self, id: usize) -> Option<SurfaceView> {
        if self.id == id {
            Some(self)
        } else {
            match index_of(self.children, id) {
                Some(j) => Some(self.children[j]),
                None => None,
            }
        }
    }
}

/// The surface once the client has acknowledged a configuration: the size
/// limits and, where one is given and a buffer is attached, the inner
/// geometry are taken over; a resize in progress moves the surface so that
/// the side opposite to the dragged one stays.
pub open spec fn configured(
    v: SurfaceView,
    inner_geometry: Option<Rectangle>,
    min_size: Size2D,
    max_size: Size2D,
) -> SurfaceView {
    let sized = SurfaceView { min_size, max_size, ..v };
    let placed = match v.configure_target(inner_geometry) {
        Some(position) => moved(sized, position, v.depth),
        None => sized,
    };
    match (v.buffer, inner_geometry) {
        (Some(buffer), Some(new)) => SurfaceView {
            buffer: Some(Buffer { geometry: new, ..buffer }),
            ..placed
        },
        _ => placed,
    }
}

/// The events of [`configured`], reported under `id`: the limits that
/// changed, the moves, then the new inner geometry and size if it changed.
pub open spec fn configure_events(
    v: SurfaceView,
    id: usize,
    inner_geometry: Option<Rectangle>,
    min_size: Size2D,
    max_size: Size2D,
) -> Seq<SurfaceEvent> {
    (if v.min_size != min_size {
        seq![SurfaceEvent::MinSize { id, size: min_size }]
    } else {
        Seq::empty()
    }) + (if v.max_size != max_size {
        seq![SurfaceEvent::MaxSize { id, size: max_size }]
    } else {
        Seq::empty()
    }) + (match v.configure_target(inner_geometry) {
        Some(position) => move_events(
            SurfaceView { min_size, max_size, ..v },
            position,
            v.depth,
        ),
        None => Seq::empty(),
    }) + (match (v.buffer, inner_geometry) {
        (Some(buffer), Some(new)) => if buffer.geometry != new {
            seq![
                SurfaceEvent::Geometry { id, geometry: new },
                SurfaceEvent::Resized { id, size: new.size },
            ]
        } else {
            Seq::empty()
        },
        _ => Seq::empty(),
    })
}

/// The events of taking a surface away: its buffer is detached if it has
/// one, then it is removed.
pub open spec fn removal_events(v: SurfaceView, id: usize) -> Seq<SurfaceEvent> {
    (if v.buffer is Some {
        seq![SurfaceEvent::BufferDetached { id }]
    } else {
        Seq::empty()
    }) + seq![SurfaceEvent::Removed { id }]
}

/// A change to one surface.
#[derive(Clone, Copy, Debug, PartialEq, Eq)]
pub enum SurfaceChange {
    Move { position: Position2D },
    Configure { geometry: Option<Rectangle>, min_size: Size2D, max_size: Size2D },
    StartResize { serial: u32, edge: ResizeEdge },
    StopResize { serial: u32 },
    Maximize,
    Unmaximize,
    Attach { handle: WlBuffer, inner_geometry: Rectangle, suggested_size: Size2D },
    Detach,
}

/// The surface once an interactive resize has started on it: a toplevel
/// with a buffer whose state allows one records it; any other stays as it is.
pub open spec fn resize_begun(v: SurfaceView, serial: u32, edge: ResizeEdge) -> SurfaceView {
    match v.alterable() {
        Some(state) => if state.may_start_resize() {
            v.with_state(state.resize_started(serial, edge, v.geometry()->0))
        } else {
            v
        },
        None => v,
    }
}

/// Whether an interactive resize starts on the surface.
pub open spec fn resize_begins(v: SurfaceView) -> bool {
    v.alterable() matches Some(state) && state.may_start_resize()
}

/// Whether the interactive resize in progress on the surface has this serial.
pub open spec fn resize_ends(v: SurfaceView, serial: u32) -> bool {
    v.kind matches SurfaceKind::Toplevel { state, .. } && state.spec_is_resizing_with(serial)
}

/// The surface once the interactive resize with this serial has stopped.
pub open spec fn resize_ended(v: SurfaceView, serial: u32) -> SurfaceView {
    match v.kind {
        SurfaceKind::Toplevel { state, .. } => if state.spec_is_resizing_with(serial) {
            v.with_state(state.resize_stopped())
        } else {
            v
        },
        SurfaceKind::Popup { .. } => v,
    }
}

/// The surface once maximized: a toplevel with a buffer is marked, and
/// remembers its geometry if nothing was altered before.
pub open spec fn maximized(v: SurfaceView) -> SurfaceView {
    match v.alterable() {
        Some(state) => v.with_state(state.maximized(v.geometry()->0)),
        None => v,
    }
}

/// The surface once minimized.
pub open spec fn minimized(v: SurfaceView) -> SurfaceView {
    match v.alterable() {
        Some(state) => v.with_state(state.minimized(v.geometry()->0)),
        None => v,
    }
}

/// The surface once its maximized flag is cleared.
pub open spec fn unmaximized(v: SurfaceView) -> SurfaceView {
    match v.alterable() {
        Some(state) => {
            let cleared = v.with_state(state.unmaximized());
            match state.restored_geometry() {
                Some(original) => moved(cleared, original.position, v.depth),
                None => cleared,
            }
        },
        None => v,
    }
}

/// The events of [`unmaximized`].
pub open spec fn unmaximize_events(v: SurfaceView) -> Seq<SurfaceEvent> {
    match v.alterable() {
        Some(state) => match state.restored_geometry() {
            Some(original) => seq![SurfaceEvent::Unmaximized { id: v.id }] + move_events(
                v.with_state(state.unmaximized()),
                original.position,
                v.depth,
            ),
            None => Seq::empty(),
        },
        None => Seq::empty(),
    }
}

/// The surface with `handle` as its buffer. A first buffer comes with the
/// inner geometry given; a later one keeps the inner geometry there was.
pub open spec fn with_buffer(v: SurfaceView, handle: WlBuffer, inner_geometry: Rectangle)
    -> SurfaceView {
    SurfaceView {
        buffer: Some(
            match v.buffer {
                Some(buffer) => Buffer { handle, geometry: buffer.geometry },
                None => Buffer { handle, geometry: inner_geometry },
            },
        ),
        ..v
    }
}

/// The surface with its popups placed anew.
pub open spec fn with_children_placed(v: SurfaceView) -> SurfaceView {
    SurfaceView { children: repositioned(v.children, v.position, v.inner_geometry()), ..v }
}

/// The events of [`with_children_placed`].
pub open spec fn place_children_events(v: SurfaceView) -> Seq<SurfaceEvent> {
    reposition_events(v.children, v.position, v.inner_geometry(), v.children.len())
}

/// What the attachment of `handle` reports first: a first buffer is
/// attached, at the size suggested; a later one replaces the one before, at
/// its own size.
pub open spec fn attach_event(
    v: SurfaceView,
    handle: WlBuffer,
    inner_geometry: Rectangle,
    suggested_size: Size2D,
) -> SurfaceEvent {
    match v.buffer {
        Some(_) => SurfaceEvent::BufferReplaced {
            id: v.id,
            handle,
            inner_geometry,
            geometry: Rectangle { position: v.position, size: handle.size },
        },
        None => SurfaceEvent::BufferAttached {
            id: v.id,
            handle,
            inner_geometry,
            geometry: Rectangle { position: v.position, size: suggested_size },
        },
    }
}

/// The surface after `change`.
pub open spec fn changed(v: SurfaceView, change: SurfaceChange) -> SurfaceView {
    match change {
        SurfaceChange::Move { position } => moved(v, position, v.depth),
        SurfaceChange::Configure { geometry, min_size, max_size } => configured(
            v,
            geometry,
            min_size,
            max_size,
        ),
        SurfaceChange::StartResize { serial, edge } => resize_begun(v, serial, edge),
        SurfaceChange::StopResize { serial } => resize_ended(v, serial),
        SurfaceChange::Maximize => maximized(v),
        SurfaceChange::Unmaximize => unmaximized(v),
        SurfaceChange::Attach { handle, inner_geometry, .. } => with_children_placed(
            with_buffer(v, handle, inner_geometry),
        ),
        SurfaceChange::Detach => SurfaceView { buffer: None, ..v },
    }
}

/// What `change` reports of the surface.
pub open spec fn change_events(v: SurfaceView, change: SurfaceChange) -> Seq<SurfaceEvent> {
    match change {
        SurfaceChange::Move { position } => move_events(v, position, v.depth),
        SurfaceChange::Configure { geometry, min_size, max_size } => configure_events(
            v,
            v.id,
            geometry,
            min_size,
            max_size,
        ),
        SurfaceChange::StartResize { serial, edge } => if resize_begins(v) {
            seq![SurfaceEvent::InteractiveResizeStarted { id: v.id, serial, edge }]
        } else {
            Seq::empty()
        },
        SurfaceChange::StopResize { serial } => if resize_ends(v, serial) {
            seq![SurfaceEvent::InteractiveResizeStopped { id: v.id, serial }]
        } else {
            Seq::empty()
        },
        SurfaceChange::Maximize => if v.alterable() is Some {
            seq![SurfaceEvent::Maximized { id: v.id }]
        } else {
            Seq::empty()
        },
        SurfaceChange::Unmaximize => unmaximize_events(v),
        SurfaceChange::Attach { handle, inner_geometry, suggested_size } => seq![
            attach_event(v, handle, inner_geometry, suggested_size),
        ] + place_children_events(with_buffer(v, handle, inner_geometry)),
        SurfaceChange::Detach => seq![SurfaceEvent::BufferDetached { id: v.id }],
    }
}

/// Places each surface of `children` anew against a parent at
/// `parent_position` with inner geometry `parent_inner`.
fn reposition_children(
    children: &mut Vec<Surface>,
    parent_position: Position2D,
    parent_inner: Option<Rectangle>,
) -> (events: Vec<SurfaceEvent>)
    ensures
        views(final(children)@) == repositioned(
            views(old(children)@),
            parent_position,
            parent_inner,
        ),
        events@ == reposition_events(
            views(old(children)@),
            parent_position,
            parent_inner,
            old(children)@.len(),
        ),
    decreases *old(children),
{
    let mut events: Vec<SurfaceEvent> = Vec::new();
    let ghost before = views(children@);
    let mut i: usize = 0;
    while i < children.len()
        invariant
            i <= children@.len(),
            children@.len() == old(children)@.len(),
            before == views(old(children)@),
            forall|j: int| 0 <= j < i ==> children@[j]@ == #[trigger] repositioned(
                before,
                parent_position,
                parent_inner,
            )[j],
            forall|j: int| i <= j < children@.len() ==> children@[j] == old(children)@[j],
            events@ == reposition_events(before, parent_position, parent_inner, i as nat),
        decreases children@.len() - i,
    {
        let ghost child = children@[i as int]@;
        assert(child == before[i as int]);
        match (parent_inner, children[i].size(), children[i].kind) {
            (Some(inner), Some(size), SurfaceKind::Popup { state, .. }) => {
                let position = place_popup(&state, parent_position, &inner, &size);
                let depth = children[i].depth;
                proof {
                    lemma_view(&children@[i as int]);
                }
                let mut moves = children[i].move_to(position, depth);
                events.append(&mut moves);
            },
            _ => {
                proof {
                    lemma_view(&children@[i as int]);
                }
            },
        }
        i = i + 1;
    }
    assert(views(children@) =~= repositioned(before, parent_position, parent_inner));
    events
}

/// Computes [`popup_position`].
pub fn place_popup(
    state: &PopupState,
    parent_position: Position2D,
    parent_inner: &Rectangle,
    size: &Size2D,
) -> (r: Position2D)
    ensures
        r == popup_position(*state, parent_position, *parent_inner, *size),
{
    let aw: i64 = to_i32(state.anchor.size.width as i64) as i64;
    let ah: i64 = to_i32(state.anchor.size.height as i64) as i64;
    let (ax, ay): (i64, i64) = match state.anchor_edges {
        Anchor::TopLeft => (0, 0),
        Anchor::BottomLeft => (0, ah),
        Anchor::TopRight => (aw, 0),
        Anchor::BottomRight => (aw, ah),
        Anchor::Top => (halve(aw), 0),
        Anchor::Bottom => (halve(aw), ah),
        Anchor::Left => (0, halve(ah)),
        Anchor::Right => (aw, halve(ah)),
        Anchor::Center => (halve(aw), halve(ah)),
    };
    let w: i64 = to_i32(size.width as i64) as i64;
    let h: i64 = to_i32(size.height as i64) as i64;
    let (gx, gy): (i64, i64) = match state.gravity {
        Gravity::TopRight => (0, 0),
        Gravity::BottomRight => (0, h),
        Gravity::TopLeft => (w, 0),
        Gravity::BottomLeft => (w, h),
        Gravity::Bottom => (halve(w), 0),
        Gravity::Top => (halve(w), h),
        Gravity::Right => (0, halve(h)),
        Gravity::Left => (w, halve(h)),
        Gravity::Center => (halve(w), halve(h)),
    };
    Position2D {
        x: to_i32(
            state.anchor.position.x as i64 + parent_position.x as i64
                + parent_inner.position.x as i64 + ax - gx + state.offset.x as i64,
        ),
        y: to_i32(
            state.anchor.position.y as i64 + parent_position.y as i64
                + parent_inner.position.y as i64 + ay - gy + state.offset.y as i64,
        ),
    }
}

/// Gives depths anew to the trees of `children`, the first from `*depth`,
/// and leaves in `*depth` the depth after the last.
pub fn renumber_children(children: &mut Vec<Surface>, depth: &mut u32) -> (events: Vec<SurfaceEvent>)
    ensures
        views(final(children)@) == renumbered_all(views(old(children)@), *old(depth)),
        *final(depth) == wrap_u32(
            *old(depth) + count_all(views(old(children)@), old(children)@.len()),
        ),
        events@ == renumber_all_events(
            views(old(children)@),
            *old(depth),
            old(children)@.len(),
        ),
    decreases *old(children),
{
    let mut events: Vec<SurfaceEvent> = Vec::new();
    let ghost before = views(children@);
    let ghost start = *depth;
    let mut i: usize = 0;
    while i < children.len()
        invariant
            i <= children@.len(),
            children@.len() == old(children)@.len(),
            before == views(old(children)@),
            start == *old(depth),
            *depth == wrap_u32(start + count_all(before, i as nat)),
            forall|j: int| 0 <= j < i ==> children@[j]@ == #[trigger] renumbered_all(
                before,
                start,
            )[j],
            forall|j: int| i <= j < children@.len() ==> children@[j] == old(children)@[j],
            events@ == renumber_all_events(before, start, i as nat),
        decreases children@.len() - i,
    {
        assert(children@[i as int]@ == before[i as int]);
        proof {
            crate::geometry::lemma_wrap_absorb(
                start + count_all(before, i as nat),
                count(before[i as int]) as int,
            );
        }
        let mut moves = children[i].update_depth(depth);
        events.append(&mut moves);
        i = i + 1;
    }
    assert(views(children@) =~= renumbered_all(before, start));
    events
}

/// Half of a value of 32 bits, rounded toward zero.
fn halve(v: i64) -> (r: i64)
    requires
        i32::MIN <= v <= i32::MAX,
    ensures
        r == half(v as int),
        i32::MIN <= r <= i32::MAX,
{
    if v >= 0 {
        v / 2
    } else {
        -((-v) / 2)
    }
}

impl Surface {
    pub fn id(&self) -> (r: usize)
        ensures
            r == self@.id,
    {
        self.id
    }

    pub fn kind(&self) -> (r: &SurfaceKind)
        ensures
            *r == self@.kind,
    {
        &self.kind
    }

    pub fn position(&self) -> (r: &Position2D)
        ensures
            *r == self@.position,
    {
        &self.position
    }

    pub fn depth(&self) -> (r: u32)
        ensures
            r == self@.depth,
    {
        self.depth
    }

    pub fn size(&self) -> (r: Option<Size2D>)
        ensures
            r == self@.size(),
    {
        match &self.buffer {
            Some(buffer) => Some(buffer.size()),
            None => None,
        }
    }

    pub fn geometry(&self) -> (r: Option<Rectangle>)
        ensures
            r == self@.geometry(),
    {
        match &self.buffer {
            Some(buffer) => Some(Rectangle { position: self.position, size: buffer.size() }),
            None => None,
        }
    }

    pub fn inner_geometry(&self) -> (r: Option<Rectangle>)
        ensures
            r == self@.inner_geometry(),
    {
        match &self.buffer {
            Some(buffer) => Some(buffer.geometry),
            None => None,
        }
    }

    pub fn handle(&self) -> (r: Option<WlSurface>)
        ensures
            r == self@.kind.spec_handle(),
    {
        self.kind.handle()
    }

    pub fn buffer(&self) -> (r: Option<WlBuffer>)
        ensures
            r == match self@.buffer {
                Some(buffer) => Some(buffer.handle),
                None => None,
            },
    {
        match &self.buffer {
            Some(buffer) => Some(buffer.handle),
            None => None,
        }
    }

    /// Puts the surface at `position` and `depth`, and places its popups
    /// anew. Reports each move.
    pub fn move_to(&mut self, position: Position2D, depth: u32) -> (events: Vec<SurfaceEvent>)
        ensures
            final(self)@ == moved(old(self)@, position, depth),
            events@ == move_events(old(self)@, position, depth),
        decreases *old(self),
    {
        proof {
            lemma_view(self);
        }
        self.position = position;
        self.depth = depth;
        let mut events: Vec<SurfaceEvent> = Vec::new();
        events.push(SurfaceEvent::Moved { id: self.id, position, depth });
        let inner = self.inner_geometry();
        let mut moves = reposition_children(&mut self.children, position, inner);
        events.append(&mut moves);
        proof {
            lemma_view(self);
        }
        events
    }

    /// Places the popups of the surface anew. Reports each move.
    pub fn update_children(&mut self) -> (events: Vec<SurfaceEvent>)
        ensures
            final(self)@ == with_children_placed(old(self)@),
            events@ == place_children_events(old(self)@),
    {
        proof {
            lemma_view(self);
        }
        let inner = self.inner_geometry();
        let events = reposition_children(&mut self.children, self.position, inner);
        proof {
            lemma_view(self);
        }
        events
    }
    /// Attaches `surface` as the front popup. Reports that it was added.
    pub fn add_child(&mut self, surface: Surface) -> (events: Vec<SurfaceEvent>)
        ensures
            final(self)@ == (SurfaceView {
                children: seq![surface@] + old(self)@.children,
                ..old(self)@
            }),
            events@ == seq![SurfaceEvent::Added { id: surface@.id, kind: surface@.kind }],
    {
        proof {
            lemma_view(self);
            lemma_view(&surface);
        }
        let mut events: Vec<SurfaceEvent> = Vec::new();
        events.push(SurfaceEvent::Added { id: surface.id, kind: surface.kind });
        self.children.insert(0, surface);
        proof {
            lemma_view(self);
            assert(final(self)@.children =~= seq![surface@] + old(self)@.children);
        }
        events
    }

    /// Takes away the first popup with this id, with all that hangs from
    /// it. Reports the removal, or `None` where there is no such popup.
    pub fn del_child(&mut self, id: usize) -> (events: Option<Vec<SurfaceEvent>>)
        ensures
            match index_of(old(self)@.children, id) {
                Some(j) => {
                    &&& final(self)@ == (SurfaceView {
                        children: old(self)@.children.remove(j),
                        ..old(self)@
                    })
                    &&& events matches Some(list)
                    &&& list@ == removal_events(old(self)@.children[j], id)
                },
                None => final(self)@ == old(self)@ && events is None,
            },
    {
        proof {
            lemma_view(self);
        }
        match find_by_id(&self.children, id) {
            Some(j) => {
                let removed = self.children.remove(j);
                let mut list: Vec<SurfaceEvent> = Vec::new();
                if removed.buffer.is_some() {
                    list.push(SurfaceEvent::BufferDetached { id });
                }
                list.push(SurfaceEvent::Removed { id });
                proof {
                    lemma_view(self);
                    lemma_view(&removed);
                    assert(final(self)@.children =~= old(self)@.children.remove(j as int));
                    assert(list@ =~= removal_events(old(self)@.children[j as int], id));
                }
                Some(list)
            },
            None => None,
        }
    }

    /// The popups of the surface, front first.
    pub fn children_ref(&self) -> (r: &Vec<Surface>)
        ensures
            views(r@) == self@.children,
    {
        proof {
            lemma_view(self);
        }
        &self.children
    }

    /// The popups of the surface, front first, then the surface itself.
    pub fn surfaces_ref(&self) -> (r: Vec<&Surface>)
        ensures
            r@.len() == self@.children.len() + 1,
            forall|i: int| 0 <= i < self@.children.len() ==> (#[trigger] r@[i])@ == self@.children[i],
            r@[self@.children.len() as int]@ == self@,
    {
        proof {
            lemma_view(self);
        }
        let mut list: Vec<&Surface> = Vec::new();
        let mut i: usize = 0;
        while i < self.children.len()
            invariant
                i <= self.children@.len(),
                list@.len() == i,
                forall|j: int| 0 <= j < i ==> *(#[trigger] list@[j]) == self.children@[j],
            decreases self.children@.len() - i,
        {
            list.push(&self.children[i]);
            i = i + 1;
        }
        list.push(self);
        list
    }

    /// The surface if `id` names it or one of its popups.
    pub fn surface_parent_ref(&self, id: usize) -> (r: Option<&Surface>)
        ensures
            match r {
                Some(surface) => surface@ == self@ && self@.lookup(id) is Some,
                None => self@.lookup(id) is None,
            },
    {
        if self.surface_ref(id).is_some() {
            Some(self)
        } else {
            None
        }
    }

    /// The surface, or its first popup, with this id.
    pub fn surface_ref(&self, id: usize) -> (r: Option<&Surface>)
        ensures
            match r {
                Some(surface) => self@.lookup(id) == Some(surface@),
                None => self@.lookup(id) is None,
            },
    {
        proof {
            lemma_view(self);
        }
        if self.id == id {
            Some(self)
        } else {
            match find_by_id(&self.children, id) {
                Some(j) => Some(&self.children[j]),
                None => None,
            }
        }
    }

    /// Gives depths anew to the tree from `*depth`, and leaves in `*depth`
    /// the depth after the last. Reports each surface whose depth changed.
    pub fn update_depth(&mut self, depth: &mut u32) -> (events: Vec<SurfaceEvent>)
        ensures
            final(self)@ == renumbered(old(self)@, *old(depth)),
            *final(depth) == wrap_u32(*old(depth) + count(old(self)@)),
            events@ == renumber_events(old(self)@, *old(depth)),
        decreases *old(self),
    {
        proof {
            lemma_view(self);
        }
        let mut events = renumber_children(&mut self.children, depth);
        let new_depth = *depth;
        *depth = new_depth.wrapping_add(1);
        if self.depth != new_depth {
            self.depth = new_depth;
            events.push(SurfaceEvent::Moved { id: self.id, position: self.position, depth: new_depth });
        }
        proof {
            lemma_view(self);
            crate::geometry::lemma_wrap_absorb(
                *old(depth) + count_all(old(self)@.children, old(self)@.children.len()),
                1,
            );
        }
        events
    }

    /// Takes over what the client acknowledged: the size limits, and the
    /// inner geometry where a buffer is attached. While an interactive
    /// resize is in progress the surface moves so that the side opposite to
    /// the dragged one stays in place. Events are reported under `id`.
    pub fn configure(
        &mut self,
        id: usize,
        inner_geometry: Option<Rectangle>,
        min_size: Size2D,
        max_size: Size2D,
    ) -> (events: Vec<SurfaceEvent>)
        ensures
            final(self)@ == configured(old(self)@, inner_geometry, min_size, max_size),
            events@ == configure_events(old(self)@, id, inner_geometry, min_size, max_size),
    {
        proof {
            lemma_view(self);
        }
        let mut events: Vec<SurfaceEvent> = Vec::new();
        if self.min_size != min_size {
            self.min_size = min_size;
            events.push(SurfaceEvent::MinSize { id, size: min_size });
        }
        if self.max_size != max_size {
            self.max_size = max_size;
            events.push(SurfaceEvent::MaxSize { id, size: max_size });
        }
        proof {
            lemma_view(self);
        }
        match (inner_geometry, self.inner_geometry(), resizing_edge_of(&self.kind)) {
            (Some(new), Some(current), Some(edge)) => {
                match anchor(self.position, edge, &current.size, &new.size) {
                    Some(position) => {
                        let depth = self.depth;
                        let mut moves = self.move_to(position, depth);
                        events.append(&mut moves);
                    },
                    None => {},
                }
            },
            _ => {},
        }
        proof {
            lemma_view(self);
        }
        let ghost placed = self@;
        match (self.buffer, inner_geometry) {
            (Some(buffer), Some(new)) => {
                if buffer.geometry != new {
                    self.buffer = Some(Buffer { handle: buffer.handle, geometry: new });
                    events.push(SurfaceEvent::Geometry { id, geometry: new });
                    events.push(SurfaceEvent::Resized { id, size: new.size });
                }
            },
            _ => {},
        }
        proof {
            lemma_view(self);
            assert(final(self)@.children == placed.children);
            assert(events@ =~= configure_events(
                old(self)@,
                id,
                inner_geometry,
                min_size,
                max_size,
            ));
        }
        events
    }

    /// Starts an interactive resize by `edge` on a toplevel that has a
    /// buffer, unless it is being resized or moved already, or is maximized
    /// or minimized. Reports the start, or nothing where it did not start.
    pub fn start_interactive_resize(&mut self, serial: u32, edge: ResizeEdge) -> (events: Vec<
        SurfaceEvent,
    >)
        ensures
            final(self)@ == resize_begun(old(self)@, serial, edge),
            events@ == change_events(old(self)@, SurfaceChange::StartResize { serial, edge }),
            old(self)@.kind.wf() ==> final(self)@.kind.wf(),
    {
        proof {
            lemma_view(self);
        }
        let mut events: Vec<SurfaceEvent> = Vec::new();
        match (self.kind, self.geometry()) {
            (SurfaceKind::Toplevel { handle, state }, Some(geometry)) => {
                let mut state = state;
                if state.start_interactive_resize(serial, edge, geometry) {
                    self.kind = SurfaceKind::Toplevel { handle, state };
                    events.push(
                        SurfaceEvent::InteractiveResizeStarted { id: self.id, serial, edge },
                    );
                }
            },
            _ => {},
        }
        proof {
            lemma_view(self);
        }
        events
    }

    /// Stops the interactive resize in progress on a toplevel if `serial`
    /// is its serial. Reports the stop, or nothing where nothing stopped.
    pub fn stop_interactive_resize(&mut self, serial: u32) -> (events: Vec<SurfaceEvent>)
        ensures
            final(self)@ == resize_ended(old(self)@, serial),
            events@ == change_events(old(self)@, SurfaceChange::StopResize { serial }),
            old(self)@.kind.wf() ==> final(self)@.kind.wf(),
    {
        proof {
            lemma_view(self);
        }
        let mut events: Vec<SurfaceEvent> = Vec::new();
        match self.kind {
            SurfaceKind::Toplevel { handle, state } => {
                let mut state = state;
                if state.stop_interactive_resize(serial) {
                    self.kind = SurfaceKind::Toplevel { handle, state };
                    events.push(SurfaceEvent::InteractiveResizeStopped { id: self.id, serial });
                }
            },
            SurfaceKind::Popup { .. } => {},
        }
        proof {
            lemma_view(self);
        }
        events
    }

    /// Marks a toplevel that has a buffer as maximized, remembering its
    /// geometry if nothing was altered before. Reports it.
    pub fn maximize(&mut self) -> (events: Vec<SurfaceEvent>)
        ensures
            final(self)@ == maximized(old(self)@),
            events@ == change_events(old(self)@, SurfaceChange::Maximize),
            old(self)@.kind.wf() ==> final(self)@.kind.wf(),
    {
        proof {
            lemma_view(self);
        }
        let mut events: Vec<SurfaceEvent> = Vec::new();
        match (self.kind, self.geometry()) {
            (SurfaceKind::Toplevel { handle, state }, Some(geometry)) => {
                let mut altered = match state.altered_state {
                    Some(altered) => altered,
                    None => AlteredState::new(geometry),
                };
                altered.maximized = true;
                self.kind = SurfaceKind::Toplevel {
                    handle,
                    state: SurfaceState { altered_state: Some(altered) },
                };
                events.push(SurfaceEvent::Maximized { id: self.id });
            },
            _ => {},
        }
        proof {
            lemma_view(self);
        }
        events
    }

    /// Clears the maximized flag of a toplevel that has a buffer. Where
    /// nothing else is altered the surface goes back to where it was, which
    /// is reported after the change of state.
    pub fn unmaximize(&mut self) -> (events: Vec<SurfaceEvent>)
        ensures
            final(self)@ == unmaximized(old(self)@),
            events@ == unmaximize_events(old(self)@),
            old(self)@.kind.wf() ==> final(self)@.kind.wf(),
    {
        proof {
            lemma_view(self);
        }
        let mut events: Vec<SurfaceEvent> = Vec::new();
        match (self.kind, self.geometry()) {
            (SurfaceKind::Toplevel { handle, state }, Some(_)) => {
                match state.altered_state {
                    Some(altered) => {
                        let mut altered = altered;
                        altered.maximized = false;
                        if altered.is_empty() {
                            self.kind = SurfaceKind::Toplevel {
                                handle,
                                state: SurfaceState { altered_state: None },
                            };
                            events.push(SurfaceEvent::Unmaximized { id: self.id });
                            proof {
                                lemma_view(self);
                            }
                            let depth = self.depth;
                            let mut moves = self.move_to(altered.original.position, depth);
                            events.append(&mut moves);
                        } else {
                            self.kind = SurfaceKind::Toplevel {
                                handle,
                                state: SurfaceState { altered_state: Some(altered) },
                            };
                        }
                    },
                    None => {},
                }
            },
            _ => {},
        }
        proof {
            lemma_view(self);
        }
        events
    }

    /// Attaches `handle` as the surface's buffer and places the popups of
    /// the surface anew. Reports the attachment, then the moves.
    pub fn attach(
        &mut self,
        handle: WlBuffer,
        inner_geometry: Rectangle,
        suggested_size: Size2D,
    ) -> (events: Vec<SurfaceEvent>)
        ensures
            final(self)@ == with_children_placed(with_buffer(old(self)@, handle, inner_geometry)),
            events@ == seq![attach_event(old(self)@, handle, inner_geometry, suggested_size)]
                + place_children_events(with_buffer(old(self)@, handle, inner_geometry)),
    {
        proof {
            lemma_view(self);
        }
        let mut events: Vec<SurfaceEvent> = Vec::new();
        match self.buffer {
            Some(buffer) => {
                self.buffer = Some(Buffer { handle, geometry: buffer.geometry });
                events.push(
                    SurfaceEvent::BufferReplaced {
                        id: self.id,
                        handle,
                        inner_geometry,
                        geometry: Rectangle { position: self.position, size: handle.size },
                    },
                );
            },
            None => {
                self.buffer = Some(Buffer { handle, geometry: inner_geometry });
                events.push(
                    SurfaceEvent::BufferAttached {
                        id: self.id,
                        handle,
                        inner_geometry,
                        geometry: Rectangle { position: self.position, size: suggested_size },
                    },
                );
            },
        }
        proof {
            lemma_view(self);
        }
        let mut moves = self.update_children();
        events.append(&mut moves);
        events
    }

    /// Makes `change` to the surface and reports what came of it.
    pub fn apply(&mut self, change: SurfaceChange) -> (events: Vec<SurfaceEvent>)
        ensures
            final(self)@ == changed(old(self)@, change),
            events@ == change_events(old(self)@, change),
    {
        proof {
            lemma_view(self);
        }
        match change {
            SurfaceChange::Move { position } => {
                let depth = self.depth;
                self.move_to(position, depth)
            },
            SurfaceChange::Configure { geometry, min_size, max_size } => {
                let id = self.id;
                self.configure(id, geometry, min_size, max_size)
            },
            SurfaceChange::StartResize { serial, edge } => self.start_interactive_resize(
                serial,
                edge,
            ),
            SurfaceChange::StopResize { serial } => self.stop_interactive_resize(serial),
            SurfaceChange::Maximize => self.maximize(),
            SurfaceChange::Unmaximize => self.unmaximize(),
            SurfaceChange::Attach { handle, inner_geometry, suggested_size } => self.attach(
                handle,
                inner_geometry,
                suggested_size,
            ),
            SurfaceChange::Detach => {
                self.buffer = None;
                let mut events: Vec<SurfaceEvent> = Vec::new();
                events.push(SurfaceEvent::BufferDetached { id: self.id });
                proof {
                    lemma_view(self);
                }
                events
            },
        }
    }

    /// Marks a toplevel that has a buffer as minimized, remembering its
    /// geometry if nothing was altered before.
    pub fn minimize(&mut self)
        ensures
            final(self)@ == minimized(old(self)@),
            old(self)@.kind.wf() ==> final(self)@.kind.wf(),
    {
        proof {
            lemma_view(self);
        }
        match (self.kind, self.geometry()) {
            (SurfaceKind::Toplevel { handle, state }, Some(geometry)) => {
                let mut altered = match state.altered_state {
                    Some(altered) => altered,
                    None => AlteredState::new(geometry),
                };
                altered.minimized = true;
                self.kind = SurfaceKind::Toplevel {
                    handle,
                    state: SurfaceState { altered_state: Some(altered) },
                };
            },
            _ => {},
        }
        proof {
            lemma_view(self);
        }
    }
}

/// The index of the first of `surfaces` with this id.
pub fn find_by_id(surfaces: &Vec<Surface>, id: usize) -> (r: Option<usize>)
    ensures
        match r {
            Some(j) => index_of(views(surfaces@), id) == Some(j as int) && j < surfaces@.len(),
            None => index_of(views(surfaces@), id) is None,
        },
{
    let mut i: usize = 0;
    while i < surfaces.len()
        invariant
            i <= surfaces@.len(),
            forall|k: int| 0 <= k < i ==> (#[trigger] views(surfaces@)[k]).id != id,
        decreases surfaces@.len() - i,
    {
        proof {
            lemma_view(&surfaces@[i as int]);
        }
        if surfaces[i].id == id {
            proof {
                lemma_first_where_is(views(surfaces@), has_id(id), i as int);
            }
            return Some(i);
        }
        i = i + 1;
    }
    proof {
        lemma_first_where_none(views(surfaces@), has_id(id));
    }
    None
}

/// The edge of the interactive resize in progress on a toplevel.
fn resizing_edge_of(kind: &SurfaceKind) -> (r: Option<ResizeEdge>)
    ensures
        r == match *kind {
            SurfaceKind::Toplevel { state, .. } => match state.altered_state {
                Some(altered) => match altered.resizing {
                    Some(r) => Some(r.1),
                    None => None,
                },
                None => None,
            },
            SurfaceKind::Popup { .. } => None,
        },
{
    match kind {
        SurfaceKind::Toplevel { state, .. } => match state.altered_state {
            Some(altered) => match altered.resizing {
                Some((_, edge)) => Some(edge),
                None => None,
            },
            None => None,
        },
        SurfaceKind::Popup { .. } => None,
    }
}

/// Computes [`anchored_position`].
pub fn anchor(position: Position2D, edge: ResizeEdge, current: &Size2D, new: &Size2D) -> (r:
    Option<Position2D>)
    ensures
        r == anchored_position(position, edge, *current, *new),
{
    let x = to_i32(position.x as i64 + current.width as i64 - new.width as i64);
    let y = to_i32(position.y as i64 + current.height as i64 - new.height as i64);
    match edge {
        ResizeEdge::Left => Some(Position2D { x, y: position.y }),
        ResizeEdge::Top => Some(Position2D { x: position.x, y }),
        ResizeEdge::TopLeft => Some(Position2D { x, y }),
        ResizeEdge::TopRight => Some(Position2D { x: position.x, y }),
        ResizeEdge::BottomLeft => Some(Position2D { x, y: position.y }),
        _ => None,
    }
}

} // verus!

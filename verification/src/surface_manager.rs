//! The surface manager: the stack of toplevels, front first, each with its
//! popups; which surface is active; and which one lies under a point.

use crate::geometry::{wrap_u32, Position2D, Rectangle, Size2D};
use crate::search::{
    first_where, lemma_first_where, lemma_first_where_is, lemma_first_where_none,
};
use crate::surface::{
    change_events, changed, count, count_all, find_by_id, has_id, index_of, lemma_view, removal_events,
    renumber_all_events, renumber_children, renumbered_all, views, with_children_placed,
    place_children_events, Surface, SurfaceChange, SurfaceEvent, SurfaceRequest, SurfaceView, WlBuffer,
};
use crate::surface_state::{ResizeEdge, SurfaceKind};
use crate::surface_tree::{
    keeps_place, lemma_changed_keeps_place, lemma_count_all_same,
    lemma_placed_keeps_place, lemma_renumbered_all_numbered, lemma_renumbered_popups, numbered, numbered_all, only_popups,
};
use vstd::prelude::*;

verus! {

/// Where a surface stands in the stack: the index of its toplevel and, for
/// a popup, its index among the popups of that toplevel.
pub struct Path {
    pub toplevel: int,
    pub popup: Option<int>,
}

/// Whether a toplevel is, or has as a popup, the surface with this id.
pub open spec fn holds(id: usize) -> spec_fn(SurfaceView) -> bool {
    |t: SurfaceView| t.lookup(id) is Some
}

/// Whether the outer rectangle of a surface, grown by `grace` on every
/// side, contains `position`. A surface without a buffer contains nothing.
pub open spec fn hit(grace: u32, position: Position2D) -> spec_fn(SurfaceView) -> bool {
    |v: SurfaceView|
        v.geometry() matches Some(geometry) && geometry.spec_contains_within(grace, position)
}

/// Whether a toplevel or one of its popups is hit.
pub open spec fn hit_within(grace: u32, position: Position2D) -> spec_fn(SurfaceView) -> bool {
    |t: SurfaceView|
        first_where(t.children, hit(grace, position)) is Some || hit(grace, position)(t)
}

/// The first place in the stack of a surface with this id: toplevels are
/// searched front first, each before its popups.
pub open spec fn locate(stack: Seq<SurfaceView>, id: usize) -> Option<Path> {
    match first_where(stack, holds(id)) {
        Some(i) => Some(
            Path {
                toplevel: i,
                popup: if stack[i].id == id {
                    None
                } else {
                    index_of(stack[i].children, id)
                },
            },
        ),
        None => None,
    }
}

/// The first place in the stack of a surface with this id when the popups
/// of a toplevel are searched before the toplevel.
pub open spec fn locate_popup_first(stack: Seq<SurfaceView>, id: usize) -> Option<Path> {
    match first_where(stack, holds(id)) {
        Some(i) => Some(Path { toplevel: i, popup: index_of(stack[i].children, id) }),
        None => None,
    }
}

/// Whether `path` leads to a surface of the stack.
pub open spec fn leads(stack: Seq<SurfaceView>, path: Path) -> bool {
    &&& 0 <= path.toplevel < stack.len()
    &&& path.popup matches Some(j) ==> 0 <= j < stack[path.toplevel].children.len()
}

/// The surface that `path` leads to.
pub open spec fn node_at(stack: Seq<SurfaceView>, path: Path) -> SurfaceView {
    match path.popup {
        Some(j) => stack[path.toplevel].children[j],
        None => stack[path.toplevel],
    }
}

/// The stack with `node` where `path` leads.
pub open spec fn put_at(stack: Seq<SurfaceView>, path: Path, node: SurfaceView) -> Seq<
    SurfaceView,
> {
    match path.popup {
        Some(j) => stack.update(
            path.toplevel,
            SurfaceView {
                children: stack[path.toplevel].children.update(j, node),
                ..stack[path.toplevel]
            },
        ),
        None => stack.update(path.toplevel, node),
    }
}

/// The stack without the surface that `path` leads to, and without what
/// hangs from it.
pub open spec fn removed_at(stack: Seq<SurfaceView>, path: Path) -> Seq<SurfaceView> {
    match path.popup {
        Some(j) => stack.update(
            path.toplevel,
            SurfaceView {
                children: stack[path.toplevel].children.remove(j),
                ..stack[path.toplevel]
            },
        ),
        None => stack.remove(path.toplevel),
    }
}

/// A surface as it is when it is added: without buffer or popups, at depth 0.
pub open spec fn fresh(id: usize, kind: SurfaceKind, position: Position2D) -> SurfaceView {
    SurfaceView {
        id,
        kind,
        buffer: None,
        min_size: Size2D { width: 0, height: 0 },
        max_size: Size2D { width: 0, height: 0 },
        position,
        depth: 0,
        children: Seq::empty(),
    }
}

/// The id of the surface that a new surface of this kind hangs from.
pub open spec fn parent_of(kind: SurfaceKind) -> Option<usize> {
    match kind {
        SurfaceKind::Popup { handle, .. } => match handle.parent {
            Some(parent) => Some(parent.id),
            None => None,
        },
        SurfaceKind::Toplevel { .. } => None,
    }
}

/// The stack with a new surface: a toplevel goes to the front, a popup to
/// the front of the popups of its parent. `None` where the parent of a
/// popup is not in the stack.
pub open spec fn inserted(
    stack: Seq<SurfaceView>,
    id: usize,
    kind: SurfaceKind,
    position: Position2D,
) -> Option<Seq<SurfaceView>> {
    match kind {
        SurfaceKind::Toplevel { .. } => Some(seq![fresh(id, kind, position)] + stack),
        SurfaceKind::Popup { .. } => match parent_of(kind) {
            Some(parent) => match locate(stack, parent) {
                Some(path) => {
                    let node = node_at(stack, path);
                    Some(
                        put_at(
                            stack,
                            path,
                            SurfaceView {
                                children: seq![fresh(id, kind, position)] + node.children,
                                ..node
                            },
                        ),
                    )
                },
                None => None,
            },
            None => None,
        },
    }
}

/// The stack with the toplevel of this id brought to the front. `None`
/// where there is no such toplevel.
pub open spec fn raised(stack: Seq<SurfaceView>, id: Option<usize>) -> Option<Seq<SurfaceView>> {
    match id {
        Some(id) => match index_of(stack, id) {
            Some(i) => Some(seq![stack[i]] + stack.remove(i)),
            None => None,
        },
        None => None,
    }
}

/// The surface under `position`: toplevels are searched front first, the
/// popups of each, front first, before the toplevel.
pub open spec fn surface_at(stack: Seq<SurfaceView>, grace: u32, position: Position2D) -> Option<
    SurfaceView,
> {
    match first_where(stack, hit_within(grace, position)) {
        Some(i) => match first_where(stack[i].children, hit(grace, position)) {
            Some(j) => Some(stack[i].children[j]),
            None => Some(stack[i]),
        },
        None => None,
    }
}

/// The popups of each of the first `n` toplevels, front first, each time
/// followed by the toplevel.
pub open spec fn listed(stack: Seq<SurfaceView>, n: nat) -> Seq<SurfaceView>
    decreases n,
{
    if n == 0 || n > stack.len() {
        Seq::empty()
    } else {
        listed(stack, (n - 1) as nat) + stack[n - 1].children.push(stack[n - 1])
    }
}

/// Every entry of the stack is a toplevel in a well-formed state, with
/// popups only below it.
pub open spec fn roles_wf(stack: Seq<SurfaceView>) -> bool {
    forall|i: int|
        0 <= i < stack.len() ==> {
            &&& (#[trigger] stack[i]).kind is Toplevel
            &&& stack[i].kind.wf()
            &&& only_popups(stack[i].children)
        }
}

/// The model of a [`SurfaceManager`].
pub struct SurfaceManagerView {
    pub cursor_surfaces: Seq<SurfaceView>,
    /// The toplevels, front first.
    pub surfaces: Seq<SurfaceView>,
    pub border_grace: u32,
    pub active_surface: Option<usize>,
}

impl SurfaceManagerView {
    /// The depth of the first surface of the stack.
    pub open spec fn depth_offset(self) -> u32 {
        wrap_u32(self.cursor_surfaces.len() as int)
    }

    /// Roles are where they belong, and depths run through the stack from
    /// the depth offset.
    pub open spec fn wf(self) -> bool {
        &&& roles_wf(self.surfaces)
        &&& numbered_all(self.surfaces, self.depth_offset())
    }

    /// The first surface with this id.
    pub open spec fn find(self, id: usize) -> Option<SurfaceView> {
        match locate(self.surfaces, id) {
            Some(path) => Some(node_at(self.surfaces, path)),
            None => None,
        }
    }

    /// The manager after `change` to the first surface with this id.
    pub open spec fn with_change(self, id: usize, change: SurfaceChange) -> SurfaceManagerView {
        match locate(self.surfaces, id) {
            Some(path) => SurfaceManagerView {
                surfaces: put_at(
                    self.surfaces,
                    path,
                    changed(node_at(self.surfaces, path), change),
                ),
                ..self
            },
            None => self,
        }
    }

    /// What `change` to the first surface with this id reports.
    pub open spec fn change_events(self, id: usize, change: SurfaceChange) -> Seq<SurfaceEvent> {
        match locate(self.surfaces, id) {
            Some(path) => change_events(node_at(self.surfaces, path), change),
            None => Seq::empty(),
        }
    }

    /// The stack with a new surface, or the stack as it is where the parent
    /// of a new popup is not in it.
    pub open spec fn with_surface(self, id: usize, kind: SurfaceKind, position: Position2D) -> Seq<
        SurfaceView,
    > {
        match inserted(self.surfaces, id, kind, position) {
            Some(stack) => stack,
            None => self.surfaces,
        }
    }

    /// What is active once the surface with this id is gone.
    pub open spec fn active_without(self, id: usize) -> Option<usize> {
        if self.active_surface == Some(id) {
            None
        } else {
            self.active_surface
        }
    }

    /// The report that the surface with this id is no longer active, if it was.
    pub open spec fn deactivation(self, id: usize) -> Seq<SurfaceEvent> {
        if self.active_surface == Some(id) {
            seq![SurfaceEvent::Deactivated { id }]
        } else {
            Seq::empty()
        }
    }

    /// The manager once `handle` is attached to the first surface with this
    /// id: the surface has the buffer and its popups are placed anew; where
    /// the surface is a popup, the popups of its toplevel are placed anew
    /// after that, which puts the popup where its own size asks.
    pub open spec fn attached(
        self,
        id: usize,
        handle: WlBuffer,
        inner_geometry: Rectangle,
        suggested_size: Size2D,
    ) -> SurfaceManagerView {
        let held = self.with_change(
            id,
            SurfaceChange::Attach { handle, inner_geometry, suggested_size },
        );
        match locate(self.surfaces, id) {
            Some(path) => if path.popup is Some {
                SurfaceManagerView {
                    surfaces: held.surfaces.update(
                        path.toplevel,
                        with_children_placed(held.surfaces[path.toplevel]),
                    ),
                    ..held
                }
            } else {
                held
            },
            None => self,
        }
    }

    /// What [`Self::attached`] reports: the attachment, the moves of the
    /// surface's popups, and, where the surface is a popup, the moves of
    /// the popups of its toplevel.
    pub open spec fn attach_events(
        self,
        id: usize,
        handle: WlBuffer,
        inner_geometry: Rectangle,
        suggested_size: Size2D,
    ) -> Seq<SurfaceEvent> {
        let change = SurfaceChange::Attach { handle, inner_geometry, suggested_size };
        match locate(self.surfaces, id) {
            Some(path) => if path.popup is Some {
                self.change_events(id, change) + place_children_events(
                    self.with_change(id, change).surfaces[path.toplevel],
                )
            } else {
                self.change_events(id, change)
            },
            None => Seq::empty(),
        }
    }
}

impl SurfaceManagerView {
    /// The change to one surface that `request` asks for, with the id of
    /// the surface. `None` for a request that does something else.
    pub open spec fn change_of(request: SurfaceRequest) -> Option<(usize, SurfaceChange)> {
        match request {
            SurfaceRequest::Move { id, position } => Some((id, SurfaceChange::Move { position })),
            SurfaceRequest::InteractiveResizeStart { id, serial, edge } => Some(
                (id, SurfaceChange::StartResize { serial, edge }),
            ),
            SurfaceRequest::InteractiveResizeStop { id, serial } => Some(
                (id, SurfaceChange::StopResize { serial }),
            ),
            SurfaceRequest::Configuration { id, geometry, min_size, max_size } => Some(
                (id, SurfaceChange::Configure { geometry, min_size, max_size }),
            ),
            SurfaceRequest::DetachBuffer { id } => Some((id, SurfaceChange::Detach)),
            SurfaceRequest::Maximize { id } => Some((id, SurfaceChange::Maximize)),
            SurfaceRequest::Unmaximize { id } => Some((id, SurfaceChange::Unmaximize)),
            _ => None,
        }
    }

    /// The manager with another stack, given depths anew.
    pub open spec fn restacked(self, stack: Seq<SurfaceView>) -> SurfaceManagerView {
        SurfaceManagerView { surfaces: renumbered_all(stack, self.depth_offset()), ..self }
    }

    /// The manager once the surface with this id is the active one.
    pub open spec fn focused(self, id: Option<usize>) -> SurfaceManagerView {
        SurfaceManagerView {
            surfaces: match raised(self.surfaces, id) {
                Some(stack) => renumbered_all(stack, self.depth_offset()),
                None => self.surfaces,
            },
            active_surface: id,
            ..self
        }
    }

    /// What [`Self::focused`] reports: each surface whose depth changed,
    /// that what was active is no longer, and what is active now.
    pub open spec fn focus_events(self, id: Option<usize>) -> Seq<SurfaceEvent> {
        (match raised(self.surfaces, id) {
            Some(stack) => renumber_all_events(stack, self.depth_offset(), stack.len()),
            None => Seq::empty(),
        }) + (match self.active_surface {
            Some(active) => seq![SurfaceEvent::Deactivated { id: active }],
            None => Seq::empty(),
        }) + (match id {
            Some(active) => seq![SurfaceEvent::Activated { id: active }],
            None => Seq::empty(),
        })
    }

    /// The manager after `request`.
    pub open spec fn after(self, request: SurfaceRequest) -> SurfaceManagerView {
        match request {
            SurfaceRequest::Add { id, kind, position } => self.restacked(
                self.with_surface(id, kind, position),
            ),
            SurfaceRequest::Remove { id } => match locate_popup_first(self.surfaces, id) {
                Some(path) => SurfaceManagerView {
                    active_surface: self.active_without(id),
                    ..self.restacked(removed_at(self.surfaces, path))
                },
                None => self,
            },
            SurfaceRequest::AttachBuffer { id, handle, inner_geometry, size } => self.attached(
                id,
                handle,
                inner_geometry,
                size,
            ),
            SurfaceRequest::InteractiveResize { .. } => self,
            SurfaceRequest::Resize { .. } => self,
            SurfaceRequest::Commit { .. } => self,
            _ => match Self::change_of(request) {
                Some(change) => self.with_change(change.0, change.1),
                None => self,
            },
        }
    }

    /// What `request` reports.
    pub open spec fn events_of(self, request: SurfaceRequest) -> Seq<SurfaceEvent> {
        match request {
            SurfaceRequest::Add { id, kind, position } => (if inserted(
                self.surfaces,
                id,
                kind,
                position,
            ) is Some {
                seq![SurfaceEvent::Added { id, kind }]
            } else {
                Seq::empty()
            }) + renumber_all_events(
                self.with_surface(id, kind, position),
                self.depth_offset(),
                self.with_surface(id, kind, position).len(),
            ),
            SurfaceRequest::Remove { id } => match locate_popup_first(self.surfaces, id) {
                Some(path) => removal_events(node_at(self.surfaces, path), id) + self.deactivation(
                    id,
                ) + renumber_all_events(
                    removed_at(self.surfaces, path),
                    self.depth_offset(),
                    removed_at(self.surfaces, path).len(),
                ),
                None => Seq::empty(),
            },
            SurfaceRequest::AttachBuffer { id, handle, inner_geometry, size } => self.attach_events(
                id,
                handle,
                inner_geometry,
                size,
            ),
            SurfaceRequest::InteractiveResize { id, serial, inner_size } => match self.find(id) {
                Some(surface) => if surface.kind.spec_check_resize(serial) {
                    seq![SurfaceEvent::Configuration { id, size: inner_size }]
                } else {
                    Seq::empty()
                },
                None => Seq::empty(),
            },
            SurfaceRequest::Resize { id, size } => match self.find(id) {
                Some(_) => seq![SurfaceEvent::Configuration { id, size }],
                None => Seq::empty(),
            },
            SurfaceRequest::Commit { id } => seq![SurfaceEvent::Committed { id }],
            _ => match Self::change_of(request) {
                Some(change) => self.change_events(change.0, change.1),
                None => Seq::empty(),
            },
        }
    }
}

/// Whether what `request` brings is well formed: a new toplevel comes in a
/// well-formed state.
pub open spec fn request_wf(request: SurfaceRequest) -> bool {
    request matches SurfaceRequest::Add { kind, .. } ==> kind.wf()
}

/// What [`locate`] gives leads to a surface with the id.
pub proof fn lemma_locate(stack: Seq<SurfaceView>, id: usize)
    ensures
        locate(stack, id) matches Some(path) ==> leads(stack, path) && node_at(stack, path).id
            == id,
        locate_popup_first(stack, id) matches Some(path) ==> leads(stack, path) && node_at(
            stack,
            path,
        ).id == id,
        locate(stack, id) is Some <==> locate_popup_first(stack, id) is Some,
{
    lemma_first_where(stack, holds(id));
    match first_where(stack, holds(id)) {
        Some(i) => {
            assert(holds(id)(stack[i]));
            lemma_first_where(stack[i].children, has_id(id));
            match index_of(stack[i].children, id) {
                Some(j) => {
                    assert(has_id(id)(stack[i].children[j]));
                },
                None => {},
            }
        },
        None => {},
    }
}

/// Roles stay where they belong when a surface gives way to one of its role
/// that is as well formed.
pub proof fn lemma_put_at_roles(stack: Seq<SurfaceView>, path: Path, node: SurfaceView)
    requires
        roles_wf(stack),
        leads(stack, path),
        node_at(stack, path).kind is Toplevel <==> node.kind is Toplevel,
        node_at(stack, path).kind.wf() ==> node.kind.wf(),
        only_popups(node_at(stack, path).children) ==> only_popups(node.children),
    ensures
        roles_wf(put_at(stack, path, node)),
{
    let after = put_at(stack, path, node);
    let t = stack[path.toplevel];
    assert(t.kind is Toplevel && t.kind.wf() && only_popups(t.children));
    assert forall|i: int| 0 <= i < after.len() implies {
        &&& (#[trigger] after[i]).kind is Toplevel
        &&& after[i].kind.wf()
        &&& only_popups(after[i].children)
    } by {
        assert(stack[i].kind is Toplevel && stack[i].kind.wf() && only_popups(stack[i].children));
        if i == path.toplevel {
            match path.popup {
                Some(j) => {
                    let c = after[i].children;
                    assert(t.children[j].kind is Popup && only_popups(t.children[j].children));
                    assert forall|k: int| 0 <= k < c.len() implies (#[trigger] c[k]).kind is Popup
                        && only_popups(c[k].children) by {
                        assert(t.children[k].kind is Popup && only_popups(t.children[k].children));
                    }
                },
                None => {},
            }
        }
    }
}

/// A well-formed stack stays so when a surface gives way to one that can
/// stand in its place.
pub proof fn lemma_put_at_wf(stack: Seq<SurfaceView>, start: u32, path: Path, node: SurfaceView)
    requires
        roles_wf(stack),
        numbered_all(stack, start),
        leads(stack, path),
        keeps_place(node_at(stack, path), node),
    ensures
        roles_wf(put_at(stack, path, node)),
        numbered_all(put_at(stack, path, node), start),
{
    lemma_put_at_roles(stack, path, node);
    let after = put_at(stack, path, node);
    let t = stack[path.toplevel];
    let base = wrap_u32(start + count_all(stack, path.toplevel as nat));
    assert(numbered(t, base));
    match path.popup {
        Some(j) => {
            let c = after[path.toplevel].children;
            assert forall|k: int| 0 <= k < c.len() implies count(#[trigger] c[k]) == count(
                t.children[k],
            ) by {}
            assert forall|k: int| 0 <= k < c.len() implies numbered(
                #[trigger] c[k],
                wrap_u32(base + count_all(c, k as nat)),
            ) by {
                lemma_count_all_same(c, t.children, k as nat);
                assert(numbered(
                    t.children[k],
                    wrap_u32(base + count_all(t.children, k as nat)),
                ));
            }
            lemma_count_all_same(c, t.children, c.len());
            assert(numbered(after[path.toplevel], base));
        },
        None => {},
    }
    assert forall|i: int| 0 <= i < after.len() implies count(#[trigger] after[i]) == count(
        stack[i],
    ) by {
        if i == path.toplevel {
            match path.popup {
                Some(j) => {
                    let c = after[path.toplevel].children;
                    assert forall|k: int| 0 <= k < c.len() implies count(#[trigger] c[k])
                        == count(t.children[k]) by {}
                    lemma_count_all_same(c, t.children, c.len());
                },
                None => {},
            }
        }
    }
    assert forall|i: int| 0 <= i < after.len() implies numbered(
        #[trigger] after[i],
        wrap_u32(start + count_all(after, i as nat)),
    ) by {
        lemma_count_all_same(after, stack, i as nat);
        assert(numbered(stack[i], wrap_u32(start + count_all(stack, i as nat))));
    }
}

/// Renumbering a stack in which roles are where they belong makes it well
/// formed.
pub proof fn lemma_renumbered_wf(stack: Seq<SurfaceView>, start: u32)
    requires
        roles_wf(stack),
    ensures
        roles_wf(renumbered_all(stack, start)),
        numbered_all(renumbered_all(stack, start), start),
{
    lemma_renumbered_all_numbered(stack, start);
    let after = renumbered_all(stack, start);
    assert forall|i: int| 0 <= i < after.len() implies {
        &&& (#[trigger] after[i]).kind is Toplevel
        &&& after[i].kind.wf()
        &&& only_popups(after[i].children)
    } by {
        assert(stack[i].kind is Toplevel && stack[i].kind.wf() && only_popups(stack[i].children));
        lemma_renumbered_popups(
            stack[i].children,
            wrap_u32(start + count_all(stack, i as nat)),
        );
    }
}

/// Roles stay where they belong when a surface leaves the stack.
pub proof fn lemma_removed_at_roles(stack: Seq<SurfaceView>, path: Path)
    requires
        roles_wf(stack),
        leads(stack, path),
    ensures
        roles_wf(removed_at(stack, path)),
{
    let after = removed_at(stack, path);
    let t = stack[path.toplevel];
    assert(t.kind is Toplevel && t.kind.wf() && only_popups(t.children));
    assert forall|i: int| 0 <= i < after.len() implies {
        &&& (#[trigger] after[i]).kind is Toplevel
        &&& after[i].kind.wf()
        &&& only_popups(after[i].children)
    } by {
        match path.popup {
            Some(j) => {
                assert(stack[i].kind is Toplevel && stack[i].kind.wf() && only_popups(
                    stack[i].children,
                ));
                if i == path.toplevel {
                    let c = after[i].children;
                    assert forall|k: int| 0 <= k < c.len() implies (#[trigger] c[k]).kind is Popup
                        && only_popups(c[k].children) by {
                        if k < j {
                            assert(t.children[k].kind is Popup && only_popups(
                                t.children[k].children,
                            ));
                        } else {
                            assert(t.children[k + 1].kind is Popup && only_popups(
                                t.children[k + 1].children,
                            ));
                        }
                    }
                }
            },
            None => {
                if i < path.toplevel {
                    assert(stack[i].kind is Toplevel && stack[i].kind.wf() && only_popups(
                        stack[i].children,
                    ));
                } else {
                    assert(stack[i + 1].kind is Toplevel && stack[i + 1].kind.wf() && only_popups(
                        stack[i + 1].children,
                    ));
                }
            },
        }
    }
}

/// Roles are where they belong in a stack that has taken in a new surface
/// in a well-formed state.
pub proof fn lemma_inserted_roles(
    stack: Seq<SurfaceView>,
    id: usize,
    kind: SurfaceKind,
    position: Position2D,
)
    requires
        roles_wf(stack),
        kind.wf(),
    ensures
        inserted(stack, id, kind, position) matches Some(after) ==> roles_wf(after),
{
    let new = fresh(id, kind, position);
    match kind {
        SurfaceKind::Toplevel { .. } => {
            let after = seq![new] + stack;
            assert forall|i: int| 0 <= i < after.len() implies {
                &&& (#[trigger] after[i]).kind is Toplevel
                &&& after[i].kind.wf()
                &&& only_popups(after[i].children)
            } by {
                if i > 0 {
                    assert(stack[i - 1].kind is Toplevel && stack[i - 1].kind.wf() && only_popups(
                        stack[i - 1].children,
                    ));
                }
            }
        },
        SurfaceKind::Popup { .. } => {
            match parent_of(kind) {
                Some(parent) => {
                    lemma_locate(stack, parent);
                    match locate(stack, parent) {
                        Some(path) => {
                            let node = node_at(stack, path);
                            let grown = SurfaceView {
                                children: seq![new] + node.children,
                                ..node
                            };
                            if only_popups(node.children) {
                                assert forall|k: int| 0 <= k < grown.children.len() implies (
                                #[trigger] grown.children[k]).kind is Popup && only_popups(
                                    grown.children[k].children,
                                ) by {
                                    if k > 0 {
                                        assert(node.children[k - 1].kind is Popup && only_popups(
                                            node.children[k - 1].children,
                                        ));
                                    }
                                }
                            }
                            lemma_put_at_roles(stack, path, grown);
                        },
                        None => {},
                    }
                },
                None => {},
            }
        },
    }
}

/// Roles are where they belong in a stack of which a toplevel came to the
/// front.
pub proof fn lemma_raised_roles(stack: Seq<SurfaceView>, id: Option<usize>)
    requires
        roles_wf(stack),
    ensures
        raised(stack, id) matches Some(after) ==> roles_wf(after),
{
    match raised(stack, id) {
        Some(after) => {
            lemma_first_where(stack, has_id(id->0));
            let i = index_of(stack, id->0)->0;
            assert forall|k: int| 0 <= k < after.len() implies {
                &&& (#[trigger] after[k]).kind is Toplevel
                &&& after[k].kind.wf()
                &&& only_popups(after[k].children)
            } by {
                let from = if k == 0 {
                    i
                } else if k - 1 < i {
                    k - 1
                } else {
                    k
                };
                assert(after[k] == stack[from]);
                assert(stack[from].kind is Toplevel && stack[from].kind.wf() && only_popups(
                    stack[from].children,
                ));
            }
        },
        None => {},
    }
}

/// Keeps the surfaces of the compositor.
#[derive(Debug)]
pub struct SurfaceManager {
    cursor_surfaces: Vec<Surface>,
    surfaces: Vec<Surface>,
    border_grace: u32,
    active_surface: Option<usize>,
}

impl View for SurfaceManager {
    type V = SurfaceManagerView;

    closed spec fn view(&self) -> SurfaceManagerView {
        SurfaceManagerView {
            cursor_surfaces: views(self.cursor_surfaces@),
            surfaces: views(self.surfaces@),
            border_grace: self.border_grace,
            active_surface: self.active_surface,
        }
    }
}

impl SurfaceManager {
    /// The manager's model is well formed.
    pub open spec fn wf(&self) -> bool {
        self@.wf()
    }

    /// A manager without surfaces, with a grace of 10 pixels round each
    /// surface.
    pub fn new() -> (r: Self)
        ensures
            r@.surfaces == Seq::<SurfaceView>::empty(),
            r@.cursor_surfaces == Seq::<SurfaceView>::empty(),
            r@.border_grace == 10,
            r@.active_surface is None,
            r.wf(),
    {
        let r = Self {
            cursor_surfaces: Vec::new(),
            surfaces: Vec::new(),
            border_grace: 10,
            active_surface: None,
        };
        assert(r@.surfaces =~= Seq::<SurfaceView>::empty());
        assert(r@.cursor_surfaces =~= Seq::<SurfaceView>::empty());
        r
    }

    /// The depth of the first surface of the stack.
    fn depth_offset(&self) -> (r: u32)
        ensures
            r == self@.depth_offset(),
    {
        let len: u64 = self.cursor_surfaces.len() as u64;
        (len % 0x1_0000_0000) as u32
    }

    /// The place of the first surface with this id, each toplevel being
    /// searched before its popups.
    fn locate(&self, id: usize) -> (r: Option<(usize, Option<usize>)>)
        ensures
            match r {
                Some(found) => locate(self@.surfaces, id) == Some(
                    Path {
                        toplevel: found.0 as int,
                        popup: match found.1 {
                            Some(j) => Some(j as int),
                            None => None,
                        },
                    },
                ),
                None => locate(self@.surfaces, id) is None,
            },
    {
        let mut i: usize = 0;
        while i < self.surfaces.len()
            invariant
                i <= self.surfaces@.len(),
                forall|k: int| 0 <= k < i ==> !holds(id)(#[trigger] self@.surfaces[k]),
            decreases self.surfaces@.len() - i,
        {
            proof {
                lemma_view(&self.surfaces@[i as int]);
                lemma_first_where(self@.surfaces[i as int].children, has_id(id));
            }
            if self.surfaces[i].id == id {
                proof {
                    lemma_first_where_is(self@.surfaces, holds(id), i as int);
                }
                return Some((i, None));
            }
            match find_by_id(&self.surfaces[i].children, id) {
                Some(j) => {
                    proof {
                        lemma_first_where_is(self@.surfaces, holds(id), i as int);
                    }
                    return Some((i, Some(j)));
                },
                None => {},
            }
            i = i + 1;
        }
        proof {
            lemma_first_where_none(self@.surfaces, holds(id));
        }
        None
    }

    /// The place of the first surface with this id, the popups of each
    /// toplevel being searched before the toplevel.
    fn locate_popup_first(&self, id: usize) -> (r: Option<(usize, Option<usize>)>)
        ensures
            match r {
                Some(found) => locate_popup_first(self@.surfaces, id) == Some(
                    Path {
                        toplevel: found.0 as int,
                        popup: match found.1 {
                            Some(j) => Some(j as int),
                            None => None,
                        },
                    },
                ),
                None => locate_popup_first(self@.surfaces, id) is None,
            },
    {
        let mut i: usize = 0;
        while i < self.surfaces.len()
            invariant
                i <= self.surfaces@.len(),
                forall|k: int| 0 <= k < i ==> !holds(id)(#[trigger] self@.surfaces[k]),
            decreases self.surfaces@.len() - i,
        {
            proof {
                lemma_view(&self.surfaces@[i as int]);
                lemma_first_where(self@.surfaces[i as int].children, has_id(id));
            }
            match find_by_id(&self.surfaces[i].children, id) {
                Some(j) => {
                    proof {
                        lemma_first_where_is(self@.surfaces, holds(id), i as int);
                    }
                    return Some((i, Some(j)));
                },
                None => {},
            }
            if self.surfaces[i].id == id {
                proof {
                    lemma_first_where_is(self@.surfaces, holds(id), i as int);
                }
                return Some((i, None));
            }
            i = i + 1;
        }
        proof {
            lemma_first_where_none(self@.surfaces, holds(id));
        }
        None
    }

    /// Makes `change` to the first surface with this id and reports what
    /// came of it; nothing where there is no such surface.
    fn change_surface(&mut self, id: usize, change: SurfaceChange) -> (events: Vec<SurfaceEvent>)
        ensures
            final(self)@ == old(self)@.with_change(id, change),
            events@ == old(self)@.change_events(id, change),
            old(self).wf() ==> final(self).wf(),
    {
        proof {
            lemma_locate(self@.surfaces, id);
        }
        match self.locate(id) {
            Some((i, None)) => {
                let ghost path = Path { toplevel: i as int, popup: None };
                let events = self.surfaces[i].apply(change);
                proof {
                    assert(final(self)@.surfaces =~= put_at(
                        old(self)@.surfaces,
                        path,
                        changed(node_at(old(self)@.surfaces, path), change),
                    ));
                    lemma_changed_keeps_place(node_at(old(self)@.surfaces, path), change);
                    if old(self).wf() {
                        lemma_put_at_wf(
                            old(self)@.surfaces,
                            old(self)@.depth_offset(),
                            path,
                            changed(node_at(old(self)@.surfaces, path), change),
                        );
                    }
                }
                events
            },
            Some((i, Some(j))) => {
                let ghost path = Path { toplevel: i as int, popup: Some(j as int) };
                proof {
                    lemma_view(&self.surfaces@[i as int]);
                }
                let events = self.surfaces[i].children[j].apply(change);
                proof {
                    lemma_view(&final(self).surfaces@[i as int]);
                    assert(final(self)@.surfaces[i as int].children =~= old(
                        self,
                    )@.surfaces[i as int].children.update(
                        j as int,
                        changed(node_at(old(self)@.surfaces, path), change),
                    ));
                    assert(final(self)@.surfaces =~= put_at(
                        old(self)@.surfaces,
                        path,
                        changed(node_at(old(self)@.surfaces, path), change),
                    ));
                    lemma_changed_keeps_place(node_at(old(self)@.surfaces, path), change);
                    if old(self).wf() {
                        lemma_put_at_wf(
                            old(self)@.surfaces,
                            old(self)@.depth_offset(),
                            path,
                            changed(node_at(old(self)@.surfaces, path), change),
                        );
                    }
                }
                events
            },
            None => Vec::new(),
        }
    }

    /// Gives depths anew to the whole stack. Reports each surface whose
    /// depth changed.
    fn update_surfaces_depth(&mut self) -> (events: Vec<SurfaceEvent>)
        ensures
            final(self)@ == (SurfaceManagerView {
                surfaces: renumbered_all(old(self)@.surfaces, old(self)@.depth_offset()),
                ..old(self)@
            }),
            events@ == renumber_all_events(
                old(self)@.surfaces,
                old(self)@.depth_offset(),
                old(self)@.surfaces.len(),
            ),
    {
        let mut depth = self.depth_offset();
        renumber_children(&mut self.surfaces, &mut depth)
    }

    /// Does what `request` asks and reports what came of it.
    pub fn handle(&mut self, request: SurfaceRequest) -> (events: Vec<SurfaceEvent>)
        ensures
            final(self)@ == old(self)@.after(request),
            events@ == old(self)@.events_of(request),
            old(self).wf() && request_wf(request) ==> final(self).wf(),
    {
        match request {
            SurfaceRequest::Add { id, kind, position } => self.add_surface(id, kind, position),
            SurfaceRequest::Remove { id } => self.del_surface(id),
            SurfaceRequest::Move { id, position } => self.move_surface(id, position),
            SurfaceRequest::InteractiveResizeStart { id, serial, edge } => {
                self.interactive_resize_start(id, serial, edge)
            },
            SurfaceRequest::InteractiveResize { id, serial, inner_size } => {
                self.interactive_resize_surface(id, serial, inner_size)
            },
            SurfaceRequest::InteractiveResizeStop { id, serial } => self.interactive_resize_end(
                id,
                serial,
            ),
            SurfaceRequest::Resize { id, size } => self.resize_surface(id, size),
            SurfaceRequest::Configuration { id, geometry, min_size, max_size } => {
                self.configure_surface(id, geometry, min_size, max_size)
            },
            SurfaceRequest::AttachBuffer { id, handle, inner_geometry, size } => {
                self.attach_buffer(id, handle, inner_geometry, size)
            },
            SurfaceRequest::DetachBuffer { id } => self.detach_buffer(id),
            SurfaceRequest::Maximize { id } => self.maximize_surface(id),
            SurfaceRequest::Unmaximize { id } => self.unmaximize_surface(id),
            SurfaceRequest::Commit { id } => self.commit_surface(id),
        }
    }

    /// Moves the first surface with this id to `position`, and its popups
    /// with it. Reports each move; nothing where there is no such surface.
    pub fn move_surface(&mut self, id: usize, position: Position2D) -> (events: Vec<SurfaceEvent>)
        ensures
            final(self)@ == old(self)@.with_change(id, SurfaceChange::Move { position }),
            events@ == old(self)@.change_events(id, SurfaceChange::Move { position }),
            old(self).wf() ==> final(self).wf(),
    {
        self.change_surface(id, SurfaceChange::Move { position })
    }

    /// Takes the buffer from the first surface with this id and reports it;
    /// nothing where there is no such surface.
    pub fn detach_buffer(&mut self, id: usize) -> (events: Vec<SurfaceEvent>)
        ensures
            final(self)@ == old(self)@.with_change(id, SurfaceChange::Detach),
            events@ == old(self)@.change_events(id, SurfaceChange::Detach),
            old(self).wf() ==> final(self).wf(),
    {
        self.change_surface(id, SurfaceChange::Detach)
    }

    /// Marks the first surface with this id as maximized, if it is a
    /// toplevel with a buffer, and reports it.
    pub fn maximize_surface(&mut self, id: usize) -> (events: Vec<SurfaceEvent>)
        ensures
            final(self)@ == old(self)@.with_change(id, SurfaceChange::Maximize),
            events@ == old(self)@.change_events(id, SurfaceChange::Maximize),
            old(self).wf() ==> final(self).wf(),
    {
        self.change_surface(id, SurfaceChange::Maximize)
    }

    /// Clears the maximized flag of the first surface with this id. Where
    /// nothing else is altered the surface goes back to where it was before
    /// it was altered, which is reported.
    pub fn unmaximize_surface(&mut self, id: usize) -> (events: Vec<SurfaceEvent>)
        ensures
            final(self)@ == old(self)@.with_change(id, SurfaceChange::Unmaximize),
            events@ == old(self)@.change_events(id, SurfaceChange::Unmaximize),
            old(self).wf() ==> final(self).wf(),
    {
        self.change_surface(id, SurfaceChange::Unmaximize)
    }

    /// Starts an interactive resize by `edge` on the first surface with this
    /// id, if it is a toplevel with a buffer that is neither being resized or
    /// moved nor maximized or minimized. Reports the start.
    pub fn interactive_resize_start(&mut self, id: usize, serial: u32, edge: ResizeEdge) -> (events:
        Vec<SurfaceEvent>)
        ensures
            final(self)@ == old(self)@.with_change(id, SurfaceChange::StartResize { serial, edge }),
            events@ == old(self)@.change_events(id, SurfaceChange::StartResize { serial, edge }),
            old(self).wf() ==> final(self).wf(),
    {
        self.change_surface(id, SurfaceChange::StartResize { serial, edge })
    }

    /// Asks the client of the first surface with this id for the inner size
    /// `inner_size`, unless a resize with another serial is in progress on
    /// it. The manager itself does not change.
    pub fn interactive_resize_surface(&mut self, id: usize, serial: u32, inner_size: Size2D) -> (events:
        Vec<SurfaceEvent>)
        ensures
            final(self)@ == old(self)@,
            events@ == match old(self)@.find(id) {
                Some(surface) => if surface.kind.spec_check_resize(serial) {
                    seq![SurfaceEvent::Configuration { id, size: inner_size }]
                } else {
                    Seq::empty()
                },
                None => Seq::empty(),
            },
    {
        let mut events: Vec<SurfaceEvent> = Vec::new();
        match self.surface_ref(id) {
            Some(surface) => {
                if surface.kind.check_resize(serial) {
                    events.push(SurfaceEvent::Configuration { id, size: inner_size });
                }
            },
            None => {},
        }
        events
    }

    /// Stops the interactive resize in progress on the first surface with
    /// this id if `serial` is its serial. Reports the stop.
    pub fn interactive_resize_end(&mut self, id: usize, serial: u32) -> (events: Vec<SurfaceEvent>)
        ensures
            final(self)@ == old(self)@.with_change(id, SurfaceChange::StopResize { serial }),
            events@ == old(self)@.change_events(id, SurfaceChange::StopResize { serial }),
            old(self).wf() ==> final(self).wf(),
    {
        self.change_surface(id, SurfaceChange::StopResize { serial })
    }

    /// Asks the client of the first surface with this id for the size
    /// `size`. The manager itself does not change.
    pub fn resize_surface(&mut self, id: usize, size: Size2D) -> (events: Vec<SurfaceEvent>)
        ensures
            final(self)@ == old(self)@,
            events@ == match old(self)@.find(id) {
                Some(_) => seq![SurfaceEvent::Configuration { id, size }],
                None => Seq::empty(),
            },
    {
        let mut events: Vec<SurfaceEvent> = Vec::new();
        if self.surface_ref(id).is_some() {
            events.push(SurfaceEvent::Configuration { id, size });
        }
        events
    }

    /// Takes over what the client of the first surface with this id
    /// acknowledged.
    pub fn configure_surface(
        &mut self,
        id: usize,
        geometry: Option<Rectangle>,
        min_size: Size2D,
        max_size: Size2D,
    ) -> (events: Vec<SurfaceEvent>)
        ensures
            final(self)@ == old(self)@.with_change(
                id,
                SurfaceChange::Configure { geometry, min_size, max_size },
            ),
            events@ == old(self)@.change_events(
                id,
                SurfaceChange::Configure { geometry, min_size, max_size },
            ),
            old(self).wf() ==> final(self).wf(),
    {
        self.change_surface(id, SurfaceChange::Configure { geometry, min_size, max_size })
    }

    /// Reports that the surface with this id was committed.
    pub fn commit_surface(&mut self, id: usize) -> (events: Vec<SurfaceEvent>)
        ensures
            final(self)@ == old(self)@,
            events@ == seq![SurfaceEvent::Committed { id }],
    {
        let mut events: Vec<SurfaceEvent> = Vec::new();
        events.push(SurfaceEvent::Committed { id });
        events
    }

    /// The first surface with this id, each toplevel being searched before
    /// its popups.
    pub fn surface_ref(&self, id: usize) -> (r: Option<&Surface>)
        ensures
            match r {
                Some(surface) => self@.find(id) == Some(surface@),
                None => self@.find(id) is None,
            },
    {
        proof {
            lemma_locate(self@.surfaces, id);
        }
        match self.locate(id) {
            Some((i, None)) => Some(&self.surfaces[i]),
            Some((i, Some(j))) => {
                proof {
                    lemma_view(&self.surfaces@[i as int]);
                }
                Some(&self.surfaces[i].children[j])
            },
            None => None,
        }
    }
    /// Adds a surface: a toplevel at the front of the stack, a popup at the
    /// front of the popups of its parent; a popup whose parent is not in
    /// the stack is dropped. Then gives depths anew. Reports the addition
    /// and each surface whose depth changed.
    pub fn add_surface(&mut self, id: usize, kind: SurfaceKind, position: Position2D) -> (events:
        Vec<SurfaceEvent>)
        ensures
            final(self)@ == (SurfaceManagerView {
                surfaces: renumbered_all(
                    old(self)@.with_surface(id, kind, position),
                    old(self)@.depth_offset(),
                ),
                ..old(self)@
            }),
            events@ == (if inserted(old(self)@.surfaces, id, kind, position) is Some {
                seq![SurfaceEvent::Added { id, kind }]
            } else {
                Seq::empty()
            }) + renumber_all_events(
                old(self)@.with_surface(id, kind, position),
                old(self)@.depth_offset(),
                old(self)@.with_surface(id, kind, position).len(),
            ),
            old(self).wf() && kind.wf() ==> final(self).wf(),
    {
        let surface = Surface {
            id,
            kind,
            buffer: None,
            min_size: Size2D { width: 0, height: 0 },
            max_size: Size2D { width: 0, height: 0 },
            position,
            depth: 0,
            children: Vec::new(),
        };
        proof {
            lemma_view(&surface);
            assert(surface@.children =~= Seq::<SurfaceView>::empty());
            assert(surface@ == fresh(id, kind, position));
        }
        let mut events: Vec<SurfaceEvent> = Vec::new();
        match kind {
            SurfaceKind::Toplevel { .. } => {
                self.surfaces.insert(0, surface);
                events.push(SurfaceEvent::Added { id, kind });
                assert(self@.surfaces =~= seq![fresh(id, kind, position)] + old(self)@.surfaces);
            },
            SurfaceKind::Popup { handle, .. } => {
                match handle.get_parent_surface() {
                    Some(parent) => {
                        proof {
                            lemma_locate(self@.surfaces, parent.id);
                        }
                        match self.locate(parent.id) {
                            Some((i, None)) => {
                                let mut added = self.surfaces[i].add_child(surface);
                                events.append(&mut added);
                                assert(self@.surfaces =~= inserted(
                                    old(self)@.surfaces,
                                    id,
                                    kind,
                                    position,
                                )->0);
                            },
                            Some((i, Some(j))) => {
                                proof {
                                    lemma_view(&self.surfaces@[i as int]);
                                }
                                let mut added = self.surfaces[i].children[j].add_child(surface);
                                events.append(&mut added);
                                proof {
                                    lemma_view(&self.surfaces@[i as int]);
                                    let ghost node = old(self)@.surfaces[i as int].children[j as int];
                                    assert(self@.surfaces[i as int].children =~= old(
                                        self,
                                    )@.surfaces[i as int].children.update(
                                        j as int,
                                        SurfaceView {
                                            children: seq![fresh(id, kind, position)]
                                                + node.children,
                                            ..node
                                        },
                                    ));
                                    assert(self@.surfaces =~= inserted(
                                        old(self)@.surfaces,
                                        id,
                                        kind,
                                        position,
                                    )->0);
                                }
                            },
                            None => {},
                        }
                    },
                    None => {},
                }
            },
        }
        assert(self@.surfaces == old(self)@.with_surface(id, kind, position));
        proof {
            if old(self).wf() && kind.wf() {
                lemma_inserted_roles(old(self)@.surfaces, id, kind, position);
                lemma_renumbered_wf(self@.surfaces, self@.depth_offset());
            }
        }
        let mut moves = self.update_surfaces_depth();
        events.append(&mut moves);
        events
    }

    /// Takes away the first surface with this id, the popups of each
    /// toplevel being searched before the toplevel, with all that hangs from
    /// it; what was active is no longer if it was this surface. Then gives
    /// depths anew. Reports the loss of the buffer if there was one, the
    /// removal, the deactivation, and each surface whose depth changed;
    /// nothing where there is no such surface.
    pub fn del_surface(&mut self, id: usize) -> (events: Vec<SurfaceEvent>)
        ensures
            match locate_popup_first(old(self)@.surfaces, id) {
                Some(path) => {
                    let rest = removed_at(old(self)@.surfaces, path);
                    &&& final(self)@ == (SurfaceManagerView {
                        surfaces: renumbered_all(rest, old(self)@.depth_offset()),
                        active_surface: old(self)@.active_without(id),
                        ..old(self)@
                    })
                    &&& events@ == removal_events(node_at(old(self)@.surfaces, path), id) + old(
                        self,
                    )@.deactivation(id) + renumber_all_events(
                        rest,
                        old(self)@.depth_offset(),
                        rest.len(),
                    )
                },
                None => final(self)@ == old(self)@ && events@ == Seq::<SurfaceEvent>::empty(),
            },
            old(self).wf() ==> final(self).wf(),
    {
        proof {
            lemma_locate(self@.surfaces, id);
        }
        let mut events: Vec<SurfaceEvent> = Vec::new();
        match self.locate_popup_first(id) {
            Some((i, Some(j))) => {
                proof {
                    lemma_view(&self.surfaces@[i as int]);
                }
                match self.surfaces[i].del_child(id) {
                    Some(list) => {
                        let mut list = list;
                        events.append(&mut list);
                    },
                    None => {},
                }
                proof {
                    lemma_view(&self.surfaces@[i as int]);
                    assert(self@.surfaces =~= removed_at(
                        old(self)@.surfaces,
                        Path { toplevel: i as int, popup: Some(j as int) },
                    ));
                }
            },
            Some((i, None)) => {
                let removed = self.surfaces.remove(i);
                proof {
                    lemma_view(&removed);
                }
                if removed.buffer.is_some() {
                    events.push(SurfaceEvent::BufferDetached { id });
                }
                events.push(SurfaceEvent::Removed { id });
                assert(self@.surfaces =~= removed_at(
                    old(self)@.surfaces,
                    Path { toplevel: i as int, popup: None },
                ));
            },
            None => {
                return events;
            },
        }
        let ghost path = locate_popup_first(old(self)@.surfaces, id)->0;
        assert(events@ =~= removal_events(node_at(old(self)@.surfaces, path), id));
        let deactivated = match self.active_surface {
            Some(active) => active == id,
            None => false,
        };
        if deactivated {
            self.active_surface = None;
            events.push(SurfaceEvent::Deactivated { id });
        }
        proof {
            if old(self).wf() {
                lemma_removed_at_roles(old(self)@.surfaces, path);
                lemma_renumbered_wf(self@.surfaces, self@.depth_offset());
            }
        }
        let mut moves = self.update_surfaces_depth();
        events.append(&mut moves);
        events
    }

    /// Attaches `handle` to the first surface with this id and places the
    /// popups of that surface anew. Where the surface is a popup, the popups
    /// of its toplevel are then placed anew, so that the popup goes where
    /// its own size asks. Reports the attachment and each move; nothing
    /// where there is no such surface.
    pub fn attach_buffer(
        &mut self,
        id: usize,
        handle: WlBuffer,
        inner_geometry: Rectangle,
        suggested_size: Size2D,
    ) -> (events: Vec<SurfaceEvent>)
        ensures
            final(self)@ == old(self)@.attached(id, handle, inner_geometry, suggested_size),
            events@ == old(self)@.attach_events(id, handle, inner_geometry, suggested_size),
            old(self).wf() ==> final(self).wf(),
    {
        proof {
            lemma_locate(self@.surfaces, id);
        }
        let place = self.locate(id);
        let mut events = self.change_surface(
            id,
            SurfaceChange::Attach { handle, inner_geometry, suggested_size },
        );
        let ghost held = self@;
        match place {
            Some((i, Some(_))) => {
                assert(held.surfaces.len() == old(self)@.surfaces.len());
                let mut moves = self.surfaces[i].update_children();
                events.append(&mut moves);
                proof {
                    assert(self@.surfaces =~= held.surfaces.update(
                        i as int,
                        with_children_placed(held.surfaces[i as int]),
                    ));
                    if old(self).wf() {
                        lemma_placed_keeps_place(held.surfaces[i as int]);
                        lemma_put_at_wf(
                            held.surfaces,
                            held.depth_offset(),
                            Path { toplevel: i as int, popup: None },
                            with_children_placed(held.surfaces[i as int]),
                        );
                    }
                }
            },
            _ => {},
        }
        events
    }

    /// Makes the surface with this id the active one; a toplevel with this
    /// id comes to the front of the stack, and depths are given anew.
    /// Reports each surface whose depth changed, that what was active is no
    /// longer, and what is active now. With `None` nothing is active after.
    pub fn focus_surface(&mut self, id: Option<usize>) -> (events: Vec<SurfaceEvent>)
        ensures
            final(self)@ == old(self)@.focused(id),
            events@ == old(self)@.focus_events(id),
            old(self).wf() ==> final(self).wf(),
    {
        let mut events: Vec<SurfaceEvent> = Vec::new();
        match id {
            Some(wanted) => {
                match find_by_id(&self.surfaces, wanted) {
                    Some(i) => {
                        let surface = self.surfaces.remove(i);
                        self.surfaces.insert(0, surface);
                        proof {
                            assert(self@.surfaces =~= raised(old(self)@.surfaces, id)->0);
                            if old(self).wf() {
                                lemma_raised_roles(old(self)@.surfaces, id);
                                lemma_renumbered_wf(self@.surfaces, self@.depth_offset());
                            }
                        }
                        events = self.update_surfaces_depth();
                    },
                    None => {},
                }
            },
            None => {},
        }
        match self.active_surface {
            Some(active) => {
                events.push(SurfaceEvent::Deactivated { id: active });
            },
            None => {},
        }
        self.active_surface = id;
        match id {
            Some(active) => {
                events.push(SurfaceEvent::Activated { id: active });
            },
            None => {},
        }
        events
    }

    /// The surface under `position`: the first, toplevels front first and
    /// the popups of each before it, whose outer rectangle grown by the
    /// grace contains `position`.
    pub fn get_surface_at(&self, position: &Position2D) -> (r: Option<&Surface>)
        ensures
            match r {
                Some(surface) => surface_at(self@.surfaces, self@.border_grace, *position)
                    == Some(surface@),
                None => surface_at(self@.surfaces, self@.border_grace, *position) is None,
            },
    {
        let grace = self.border_grace;
        let ghost inside = hit(grace, *position);
        let ghost within = hit_within(grace, *position);
        let mut i: usize = 0;
        while i < self.surfaces.len()
            invariant
                i <= self.surfaces@.len(),
                grace == self.border_grace,
                inside == hit(grace, *position),
                within == hit_within(grace, *position),
                forall|k: int| 0 <= k < i ==> !within(#[trigger] self@.surfaces[k]),
            decreases self.surfaces@.len() - i,
        {
            proof {
                lemma_view(&self.surfaces@[i as int]);
            }
            let toplevel = &self.surfaces[i];
            let mut j: usize = 0;
            while j < toplevel.children.len()
                invariant
                    j <= toplevel.children@.len(),
                    i < self.surfaces@.len(),
                    grace == self.border_grace,
                    *toplevel == self.surfaces@[i as int],
                    toplevel@.children == views(toplevel.children@),
                    inside == hit(grace, *position),
                    within == hit_within(grace, *position),
                    forall|k: int| 0 <= k < i ==> !within(#[trigger] self@.surfaces[k]),
                    forall|k: int| 0 <= k < j ==> !inside(#[trigger] toplevel@.children[k]),
                decreases toplevel.children@.len() - j,
            {
                if is_hit(&toplevel.children[j], grace, position) {
                    proof {
                        assert(toplevel.children@[j as int]@ == toplevel@.children[j as int]);
                        lemma_first_where_is(toplevel@.children, inside, j as int);
                        assert(self@.surfaces[i as int] == toplevel@);
                        assert(within(self@.surfaces[i as int]));
                        lemma_first_where_is(self@.surfaces, within, i as int);
                    }
                    return Some(&toplevel.children[j]);
                }
                j = j + 1;
            }
            proof {
                lemma_first_where_none(toplevel@.children, inside);
                assert(self@.surfaces[i as int] == toplevel@);
            }
            if is_hit(toplevel, grace, position) {
                proof {
                    assert(self@.surfaces[i as int] == toplevel@);
                    assert(within(self@.surfaces[i as int]));
                    lemma_first_where_is(self@.surfaces, within, i as int);
                }
                return Some(toplevel);
            }
            i = i + 1;
        }
        proof {
            lemma_first_where_none(self@.surfaces, within);
        }
        None
    }

    /// The popups of each toplevel, front first, each time followed by the
    /// toplevel, toplevels front first.
    pub fn surfaces_ref(&self) -> (r: Vec<&Surface>)
        ensures
            r@.len() == listed(self@.surfaces, self@.surfaces.len()).len(),
            forall|k: int|
                0 <= k < r@.len() ==> (#[trigger] r@[k])@ == listed(
                    self@.surfaces,
                    self@.surfaces.len(),
                )[k],
    {
        let mut list: Vec<&Surface> = Vec::new();
        let mut i: usize = 0;
        while i < self.surfaces.len()
            invariant
                i <= self.surfaces@.len(),
                list@.len() == listed(self@.surfaces, i as nat).len(),
                forall|k: int|
                    0 <= k < list@.len() ==> (#[trigger] list@[k])@ == listed(
                        self@.surfaces,
                        i as nat,
                    )[k],
            decreases self.surfaces@.len() - i,
        {
            let mut part = self.surfaces[i].surfaces_ref();
            list.append(&mut part);
            i = i + 1;
            proof {
                let t = self@.surfaces[i - 1];
                assert(listed(self@.surfaces, i as nat) == listed(self@.surfaces, (i - 1) as nat)
                    + t.children.push(t));
            }
        }
        list
    }
}

/// Whether the outer rectangle of the surface, grown by `grace` on every
/// side, contains `position`.
fn is_hit(surface: &Surface, grace: u32, position: &Position2D) -> (r: bool)
    ensures
        r == hit(grace, *position)(surface@),
{
    match surface.geometry() {
        Some(geometry) => geometry.contains_within(grace, position),
        None => false,
    }
}

} // verus!

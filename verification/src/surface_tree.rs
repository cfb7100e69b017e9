//! What holds of whole trees of surfaces: how depths run through a tree,
//! which roles stand where, and that moving and renumbering keep both.

use crate::geometry::{wrap_u32, Position2D, Rectangle, Size2D};
use crate::surface::{
    changed, configured, count, count_all, moved, renumber_all_events, renumber_events,
    renumbered, renumbered_all, repositioned, unmaximized, with_buffer, with_children_placed,
    SurfaceChange, SurfaceEvent, SurfaceView,
};
use vstd::prelude::*;

verus! {

/// Depths run through the tree from `start`: the popups of a surface come
/// first, front first, then the surface, each one more than the one before.
pub open spec fn numbered(v: SurfaceView, start: u32) -> bool
    decreases v, 1nat,
{
    &&& v.depth == wrap_u32(start + count_all(v.children, v.children.len()))
    &&& numbered_all(v.children, start)
}

/// Depths run through the trees of `s`, one after the other, from `start`.
pub open spec fn numbered_all(s: Seq<SurfaceView>, start: u32) -> bool
    decreases s, 0nat,
{
    forall|i: int|
        0 <= i < s.len() ==> numbered(#[trigger] s[i], wrap_u32(start + count_all(s, i as nat)))
}

/// Every surface of the trees of `s` is a popup.
pub open spec fn only_popups(s: Seq<SurfaceView>) -> bool
    decreases s,
{
    forall|i: int|
        0 <= i < s.len() ==> (#[trigger] s[i]).kind is Popup && only_popups(s[i].children)
}

/// Two sequences of trees that hold as many surfaces tree by tree hold as
/// many in every prefix.
pub proof fn lemma_count_all_same(a: Seq<SurfaceView>, b: Seq<SurfaceView>, n: nat)
    requires
        a.len() == b.len(),
        forall|i: int| 0 <= i < a.len() ==> count(#[trigger] a[i]) == count(b[i]),
    ensures
        count_all(a, n) == count_all(b, n),
    decreases n,
{
    if n > 0 && n <= a.len() {
        lemma_count_all_same(a, b, (n - 1) as nat);
    }
}

/// Moving a tree keeps the number of its surfaces.
pub proof fn lemma_moved_count(v: SurfaceView, position: Position2D, depth: u32)
    ensures
        count(moved(v, position, depth)) == count(v),
    decreases v, 1nat,
{
    let inner = v.inner_geometry();
    lemma_repositioned_count(v.children, position, inner);
    lemma_count_all_same(repositioned(v.children, position, inner), v.children, v.children.len());
}

/// Placing children anew keeps the number of surfaces of each.
pub proof fn lemma_repositioned_count(
    s: Seq<SurfaceView>,
    position: Position2D,
    inner: Option<Rectangle>,
)
    ensures
        repositioned(s, position, inner).len() == s.len(),
        forall|i: int|
            0 <= i < s.len() ==> count(#[trigger] repositioned(s, position, inner)[i]) == count(
                s[i],
            ),
    decreases s, 0nat,
{
    assert forall|i: int| 0 <= i < s.len() implies count(
        #[trigger] repositioned(s, position, inner)[i],
    ) == count(s[i]) by {
        match s[i].placed(position, inner) {
            Some(target) => {
                lemma_moved_count(s[i], target, s[i].depth);
            },
            None => {},
        }
    }
}

/// Moving a tree without changing the depth of its root keeps the depths
/// that run through it.
pub proof fn lemma_moved_numbered(v: SurfaceView, position: Position2D, start: u32)
    requires
        numbered(v, start),
    ensures
        numbered(moved(v, position, v.depth), start),
    decreases v, 1nat,
{
    let inner = v.inner_geometry();
    lemma_repositioned_numbered(v.children, position, inner, start);
    lemma_repositioned_count(v.children, position, inner);
    lemma_count_all_same(repositioned(v.children, position, inner), v.children, v.children.len());
}

/// Placing children anew keeps the depths that run through them.
pub proof fn lemma_repositioned_numbered(
    s: Seq<SurfaceView>,
    position: Position2D,
    inner: Option<Rectangle>,
    start: u32,
)
    requires
        numbered_all(s, start),
    ensures
        numbered_all(repositioned(s, position, inner), start),
    decreases s, 0nat,
{
    let r = repositioned(s, position, inner);
    lemma_repositioned_count(s, position, inner);
    assert forall|i: int| 0 <= i < r.len() implies numbered(
        #[trigger] r[i],
        wrap_u32(start + count_all(r, i as nat)),
    ) by {
        lemma_count_all_same(r, s, i as nat);
        assert(numbered(s[i], wrap_u32(start + count_all(s, i as nat))));
        match s[i].placed(position, inner) {
            Some(target) => {
                lemma_moved_numbered(s[i], target, wrap_u32(start + count_all(s, i as nat)));
            },
            None => {},
        }
    }
}

/// Moving a tree keeps popups below its root.
pub proof fn lemma_repositioned_popups(
    s: Seq<SurfaceView>,
    position: Position2D,
    inner: Option<Rectangle>,
)
    requires
        only_popups(s),
    ensures
        only_popups(repositioned(s, position, inner)),
    decreases s,
{
    let r = repositioned(s, position, inner);
    assert forall|i: int| 0 <= i < r.len() implies (#[trigger] r[i]).kind is Popup && only_popups(
        r[i].children,
    ) by {
        assert(s[i].kind is Popup && only_popups(s[i].children));
        match s[i].placed(position, inner) {
            Some(target) => {
                lemma_repositioned_popups(s[i].children, target, s[i].inner_geometry());
            },
            None => {},
        }
    }
}

/// Renumbering a tree keeps the number of its surfaces.
pub proof fn lemma_renumbered_count(v: SurfaceView, start: u32)
    ensures
        count(renumbered(v, start)) == count(v),
    decreases v, 1nat,
{
    lemma_renumbered_all_count(v.children, start);
    lemma_count_all_same(renumbered_all(v.children, start), v.children, v.children.len());
}

/// Renumbering trees keeps the number of surfaces of each.
pub proof fn lemma_renumbered_all_count(s: Seq<SurfaceView>, start: u32)
    ensures
        renumbered_all(s, start).len() == s.len(),
        forall|i: int|
            0 <= i < s.len() ==> count(#[trigger] renumbered_all(s, start)[i]) == count(s[i]),
    decreases s, 0nat,
{
    assert forall|i: int| 0 <= i < s.len() implies count(#[trigger] renumbered_all(s, start)[i])
        == count(s[i]) by {
        lemma_renumbered_count(s[i], wrap_u32(start + count_all(s, i as nat)));
    }
}

/// After renumbering from `start`, depths run through the tree from `start`.
pub proof fn lemma_renumbered_numbered(v: SurfaceView, start: u32)
    ensures
        numbered(renumbered(v, start), start),
    decreases v, 1nat,
{
    lemma_renumbered_all_numbered(v.children, start);
    lemma_renumbered_all_count(v.children, start);
    lemma_count_all_same(renumbered_all(v.children, start), v.children, v.children.len());
}

/// After renumbering from `start`, depths run through the trees from `start`.
pub proof fn lemma_renumbered_all_numbered(s: Seq<SurfaceView>, start: u32)
    ensures
        numbered_all(renumbered_all(s, start), start),
    decreases s, 0nat,
{
    let r = renumbered_all(s, start);
    lemma_renumbered_all_count(s, start);
    assert forall|i: int| 0 <= i < r.len() implies numbered(
        #[trigger] r[i],
        wrap_u32(start + count_all(r, i as nat)),
    ) by {
        lemma_count_all_same(r, s, i as nat);
        lemma_renumbered_numbered(s[i], wrap_u32(start + count_all(s, i as nat)));
    }
}

/// Renumbering keeps popups where they are.
pub proof fn lemma_renumbered_popups(s: Seq<SurfaceView>, start: u32)
    requires
        only_popups(s),
    ensures
        only_popups(renumbered_all(s, start)),
    decreases s,
{
    let r = renumbered_all(s, start);
    assert forall|i: int| 0 <= i < r.len() implies (#[trigger] r[i]).kind is Popup && only_popups(
        r[i].children,
    ) by {
        assert(s[i].kind is Popup && only_popups(s[i].children));
        lemma_renumbered_popups(s[i].children, wrap_u32(start + count_all(s, i as nat)));
    }
}

/// Renumbering a tree through which depths already run from `start`
/// changes nothing and reports nothing.
pub proof fn lemma_renumbered_fixed(v: SurfaceView, start: u32)
    requires
        numbered(v, start),
    ensures
        renumbered(v, start) == v,
        renumber_events(v, start) == Seq::<SurfaceEvent>::empty(),
    decreases v, 1nat,
{
    lemma_renumbered_all_fixed(v.children, start, v.children.len());
}

/// Renumbering trees through which depths already run from `start` changes
/// nothing and reports nothing.
pub proof fn lemma_renumbered_all_fixed(s: Seq<SurfaceView>, start: u32, n: nat)
    requires
        numbered_all(s, start),
    ensures
        renumbered_all(s, start) == s,
        renumber_all_events(s, start, n) == Seq::<SurfaceEvent>::empty(),
    decreases s, 0nat, n,
{
    assert forall|i: int| 0 <= i < s.len() implies #[trigger] renumbered_all(s, start)[i]
        == s[i] by {
        assert(numbered(s[i], wrap_u32(start + count_all(s, i as nat))));
        lemma_renumbered_fixed(s[i], wrap_u32(start + count_all(s, i as nat)));
    }
    assert(renumbered_all(s, start) =~= s);
    if n > 0 && n <= s.len() {
        lemma_renumbered_all_fixed(s, start, (n - 1) as nat);
        assert(numbered(s[n - 1], wrap_u32(start + count_all(s, (n - 1) as nat))));
        lemma_renumbered_fixed(s[n - 1], wrap_u32(start + count_all(s, (n - 1) as nat)));
    }
}

/// `new` can stand where `old` stood in a well-formed stack: it holds as
/// many surfaces, depths run through it as they ran through `old`, it has
/// the role of `old`, and what was well formed in `old` is in it.
pub open spec fn keeps_place(old: SurfaceView, new: SurfaceView) -> bool {
    &&& count(new) == count(old)
    &&& forall|start: u32| #[trigger] numbered(old, start) ==> numbered(new, start)
    &&& (old.kind is Toplevel <==> new.kind is Toplevel)
    &&& (old.kind.wf() ==> new.kind.wf())
    &&& (only_popups(old.children) ==> only_popups(new.children))
}

/// A moved tree can stand where the tree stood.
pub proof fn lemma_moved_keeps_place(v: SurfaceView, position: Position2D)
    ensures
        keeps_place(v, moved(v, position, v.depth)),
{
    lemma_moved_count(v, position, v.depth);
    assert forall|start: u32| #[trigger] numbered(v, start) implies numbered(
        moved(v, position, v.depth),
        start,
    ) by {
        lemma_moved_numbered(v, position, start);
    }
    if only_popups(v.children) {
        lemma_repositioned_popups(v.children, position, v.inner_geometry());
    }
}

/// A tree whose popups were placed anew can stand where the tree stood.
pub proof fn lemma_placed_keeps_place(v: SurfaceView)
    ensures
        keeps_place(v, with_children_placed(v)),
{
    let w = with_children_placed(v);
    lemma_repositioned_count(v.children, v.position, v.inner_geometry());
    lemma_count_all_same(w.children, v.children, v.children.len());
    assert forall|start: u32| #[trigger] numbered(v, start) implies numbered(w, start) by {
        lemma_repositioned_numbered(v.children, v.position, v.inner_geometry(), start);
    }
    if only_popups(v.children) {
        lemma_repositioned_popups(v.children, v.position, v.inner_geometry());
    }
}

/// A surface of which only fields other than the depth and the popups
/// changed, and which kept its role, can stand where it stood.
pub proof fn lemma_fields_keep_place(old: SurfaceView, new: SurfaceView)
    requires
        new.depth == old.depth,
        new.children == old.children,
        old.kind is Toplevel <==> new.kind is Toplevel,
        old.kind.wf() ==> new.kind.wf(),
    ensures
        keeps_place(old, new),
{
}

/// What can stand where something stood that could stand where a third
/// stood can stand where the third stood.
pub proof fn lemma_keeps_place_trans(a: SurfaceView, b: SurfaceView, c: SurfaceView)
    requires
        keeps_place(a, b),
        keeps_place(b, c),
    ensures
        keeps_place(a, c),
{
    assert forall|start: u32| #[trigger] numbered(a, start) implies numbered(c, start) by {
        assert(numbered(b, start));
    }
}

/// A configured surface can stand where it stood before.
pub proof fn lemma_configured_keeps_place(
    v: SurfaceView,
    geometry: Option<Rectangle>,
    min_size: Size2D,
    max_size: Size2D,
)
    ensures
        keeps_place(v, configured(v, geometry, min_size, max_size)),
{
    let sized = SurfaceView { min_size, max_size, ..v };
    lemma_fields_keep_place(v, sized);
    let placed = match v.configure_target(geometry) {
        Some(position) => moved(sized, position, v.depth),
        None => sized,
    };
    match v.configure_target(geometry) {
        Some(position) => {
            lemma_moved_keeps_place(sized, position);
        },
        None => {
            lemma_fields_keep_place(sized, sized);
        },
    }
    lemma_keeps_place_trans(v, sized, placed);
    lemma_fields_keep_place(placed, configured(v, geometry, min_size, max_size));
    lemma_keeps_place_trans(v, placed, configured(v, geometry, min_size, max_size));
}

/// A surface whose maximized flag was cleared can stand where it stood.
pub proof fn lemma_unmaximized_keeps_place(v: SurfaceView)
    ensures
        keeps_place(v, unmaximized(v)),
{
    match v.alterable() {
        Some(state) => {
            let cleared = v.with_state(state.unmaximized());
            lemma_fields_keep_place(v, cleared);
            match state.restored_geometry() {
                Some(original) => {
                    lemma_moved_keeps_place(cleared, original.position);
                    lemma_keeps_place_trans(v, cleared, unmaximized(v));
                },
                None => {},
            }
        },
        None => {
            lemma_fields_keep_place(v, v);
        },
    }
}

/// A surface once changed can stand where it stood before, under the same id.
pub proof fn lemma_changed_keeps_place(v: SurfaceView, change: SurfaceChange)
    ensures
        keeps_place(v, changed(v, change)),
        changed(v, change).id == v.id,
{
    match change {
        SurfaceChange::Move { position } => {
            lemma_moved_keeps_place(v, position);
        },
        SurfaceChange::Configure { geometry, min_size, max_size } => {
            lemma_configured_keeps_place(v, geometry, min_size, max_size);
        },
        SurfaceChange::Unmaximize => {
            lemma_unmaximized_keeps_place(v);
        },
        SurfaceChange::Attach { handle, inner_geometry, .. } => {
            let attached = with_buffer(v, handle, inner_geometry);
            lemma_fields_keep_place(v, attached);
            lemma_placed_keeps_place(attached);
            lemma_keeps_place_trans(v, attached, changed(v, change));
        },
        SurfaceChange::StartResize { serial, edge } => {
            lemma_fields_keep_place(v, changed(v, change));
        },
        SurfaceChange::StopResize { serial } => {
            lemma_fields_keep_place(v, changed(v, change));
        },
        SurfaceChange::Maximize => {
            lemma_fields_keep_place(v, changed(v, change));
        },
        SurfaceChange::Detach => {
            lemma_fields_keep_place(v, changed(v, change));
        },
    }
}

} // verus!

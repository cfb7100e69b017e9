//! What holds of the compositor in every state and over every sequence of
//! requests, proved from the contracts of its parts.

use crate::geometry::{lemma_wrap_absorb, lemma_wrap_in_range, wrap_i32, wrap_u32, Position2D,
    Rectangle, Size2D};
use crate::geometry_manager::{
    applied, applied_all, cover, emitted, emitted_all, maximize_surface_request,
    move_cursor_request, of_surfaces, performed, performed_events, reported, settle_all_events,
    settle_events, settled, settled_all, stamped, under, unmaximize_surface_request,
    GeometryView, WCompEvent, WCompRequest,
};
use crate::seat_manager::{
    cursor_of, lemma_cursor_given, Cursor, CursorEvent, KeyboardEvent, SeatEvent,
};
use crate::output_manager::{
    is_output, laid_out, lemma_layout_sums, output_events, width_before, Output,
    OutputEvent, OutputRequest,
};
use crate::search::{
    first_where, lemma_first_where, lemma_first_where_none, lemma_first_where_same,
};
use crate::surface::{
    attach_event, changed, configured, count, count_all, has_id, index_of, maximized,
    move_events, moved, place_children_events, reposition_events, repositioned, resize_begun,
    resize_ended, unmaximized, with_buffer, with_children_placed, SurfaceChange, SurfaceEvent,
    SurfaceRequest, SurfaceView, WlBuffer,
};
use crate::surface_manager::{
    hit, hit_within, holds, inserted, leads, lemma_locate, locate, node_at, put_at, surface_at,
    Path, SurfaceManagerView,
};
use crate::surface_state::{ResizeEdge, SurfaceKind};
use crate::surface_tree::{lemma_renumbered_all_fixed, numbered, numbered_all};
use vstd::prelude::*;

verus! {

/// The events of a sequence of requests carry serials that count up from
/// the serial that was next before, and the serial that is next after is
/// the one after the last.
pub proof fn lemma_serials_count(v: GeometryView, requests: Seq<WCompRequest>, n: nat)
    ensures
        forall|k: int|
            0 <= k < emitted_all(v, requests, n).len() ==> (#[trigger] emitted_all(
                v,
                requests,
                n,
            )[k]).spec_serial() == wrap_u32(v.next_serial + k),
        applied_all(v, requests, n).next_serial == wrap_u32(
            v.next_serial + emitted_all(v, requests, n).len(),
        ),
    decreases n,
{
    if n == 0 || n > requests.len() {
        lemma_wrap_in_range(v.next_serial as int);
    } else {
        lemma_serials_count(v, requests, (n - 1) as nat);
        let before = emitted_all(v, requests, (n - 1) as nat);
        let mid = applied_all(v, requests, (n - 1) as nat);
        let last = emitted(mid, requests[n - 1]);
        let all = emitted_all(v, requests, n);
        assert(all == before + last);
        assert forall|k: int| 0 <= k < all.len() implies (#[trigger] all[k]).spec_serial()
            == wrap_u32(v.next_serial + k) by {
            if k >= before.len() {
                let j = k - before.len();
                assert(all[k] == last[j]);
                assert(last[j] == reported(mid, requests[n - 1])[j].with_serial(
                    wrap_u32(mid.next_serial + j),
                ));
                lemma_wrap_absorb(v.next_serial + before.len(), j);
            } else {
                assert(all[k] == before[k]);
            }
        }
        lemma_wrap_absorb(v.next_serial + before.len(), last.len() as int);
    }
}

/// Serials grow: of two events of a sequence of requests the earlier has
/// the smaller serial, as long as the serials do not run out of the 32-bit
/// range.
pub proof fn lemma_serials_increase(
    v: GeometryView,
    requests: Seq<WCompRequest>,
    n: nat,
    i: int,
    j: int,
)
    requires
        0 <= i < j < emitted_all(v, requests, n).len(),
        v.next_serial + emitted_all(v, requests, n).len() <= u32::MAX + 1,
    ensures
        emitted_all(v, requests, n)[i].spec_serial() < emitted_all(v, requests, n)[j].spec_serial(),
{
    lemma_serials_count(v, requests, n);
    lemma_wrap_in_range(v.next_serial + i);
    lemma_wrap_in_range(v.next_serial + j);
}

/// The surfaces of a tree in the order in which depths are given: the
/// popups of a surface, front first and each after its own popups, then
/// the surface.
pub open spec fn walk(v: SurfaceView) -> Seq<SurfaceView>
    decreases v, 1nat,
{
    walk_all(v.children, v.children.len()).push(v)
}

/// The surfaces of the first `n` trees of `s`, in that order.
pub open spec fn walk_all(s: Seq<SurfaceView>, n: nat) -> Seq<SurfaceView>
    decreases s, 0nat, n,
{
    if n == 0 || n > s.len() {
        Seq::empty()
    } else {
        walk_all(s, (n - 1) as nat) + walk(s[n - 1])
    }
}

/// In a tree through which depths run from `start`, the `k`-th surface in
/// the order of the walk has the depth `start + k`.
pub proof fn lemma_walk_depths(v: SurfaceView, start: u32)
    requires
        numbered(v, start),
    ensures
        walk(v).len() == count(v),
        forall|k: int|
            0 <= k < walk(v).len() ==> (#[trigger] walk(v)[k]).depth == wrap_u32(start + k),
    decreases v, 1nat,
{
    lemma_walk_all_depths(v.children, start, v.children.len());
}

/// In trees through which depths run from `start`, the `k`-th surface in
/// the order of the walk has the depth `start + k`.
pub proof fn lemma_walk_all_depths(s: Seq<SurfaceView>, start: u32, n: nat)
    requires
        numbered_all(s, start),
    ensures
        walk_all(s, n).len() == count_all(s, n),
        forall|k: int|
            0 <= k < walk_all(s, n).len() ==> (#[trigger] walk_all(s, n)[k]).depth == wrap_u32(
                start + k,
            ),
    decreases s, 0nat, n,
{
    if n > 0 && n <= s.len() {
        lemma_walk_all_depths(s, start, (n - 1) as nat);
        let base = wrap_u32(start + count_all(s, (n - 1) as nat));
        assert(numbered(s[n - 1], base));
        lemma_walk_depths(s[n - 1], base);
        let before = walk_all(s, (n - 1) as nat);
        let last = walk(s[n - 1]);
        let all = walk_all(s, n);
        assert forall|k: int| 0 <= k < all.len() implies (#[trigger] all[k]).depth == wrap_u32(
            start + k,
        ) by {
            if k >= before.len() {
                let j = k - before.len();
                assert(all[k] == last[j]);
                lemma_wrap_absorb(start + count_all(s, (n - 1) as nat), j);
            } else {
                assert(all[k] == before[k]);
            }
        }
    }
}

/// In a well-formed surface manager no two surfaces have the same depth,
/// as long as depths do not run out of the 32-bit range.
pub proof fn lemma_depths_distinct(v: SurfaceManagerView, i: int, j: int)
    requires
        v.wf(),
        v.cursor_surfaces.len() + count_all(v.surfaces, v.surfaces.len()) <= u32::MAX + 1,
        0 <= i < j < walk_all(v.surfaces, v.surfaces.len()).len(),
    ensures
        walk_all(v.surfaces, v.surfaces.len())[i].depth < walk_all(
            v.surfaces,
            v.surfaces.len(),
        )[j].depth,
{
    lemma_walk_all_depths(v.surfaces, v.depth_offset(), v.surfaces.len());
    lemma_wrap_in_range(v.cursor_surfaces.len() as int);
    lemma_wrap_in_range(v.depth_offset() + i);
    lemma_wrap_in_range(v.depth_offset() + j);
}

/// In a tree through which depths run from `start` without running out of
/// the 32-bit range, the root has the last depth, `start` and the number of
/// surfaces less one.
pub proof fn lemma_root_depth(t: SurfaceView, start: u32)
    requires
        numbered(t, start),
        start + count(t) <= u32::MAX + 1,
    ensures
        t.depth == start + count(t) - 1,
{
    lemma_wrap_in_range(start + count_all(t.children, t.children.len()));
}

/// In a tree through which depths run from `start` without running out of
/// the 32-bit range, each popup of the root has a depth from `start` on and
/// below that of the root.
pub proof fn lemma_popup_depth(t: SurfaceView, start: u32, k: int)
    requires
        numbered(t, start),
        start + count(t) <= u32::MAX + 1,
        0 <= k < t.children.len(),
    ensures
        start <= t.children[k].depth < t.depth,
{
    lemma_root_depth(t, start);
    let c = t.children[k];
    let child_start = wrap_u32(start + count_all(t.children, k as nat));
    assert(numbered(c, child_start));
    lemma_count_grows(t.children, (k + 1) as nat, t.children.len());
    assert(count_all(t.children, (k + 1) as nat) == count_all(t.children, k as nat) + count(c));
    lemma_wrap_in_range(start + count_all(t.children, k as nat));
    lemma_root_depth(c, child_start);
}

/// In a well-formed surface manager the depths of the toplevels grow from
/// the front of the stack to the back, and the popups of a toplevel have
/// depths below its own and above that of the toplevel before it, as long
/// as depths do not run out of the 32-bit range.
pub proof fn lemma_stack_depths(v: SurfaceManagerView, i: int, k: int)
    requires
        v.wf(),
        v.cursor_surfaces.len() + count_all(v.surfaces, v.surfaces.len()) <= u32::MAX + 1,
        0 <= i < v.surfaces.len(),
        0 <= k < v.surfaces[i].children.len(),
    ensures
        v.surfaces[i].depth == v.depth_offset() + count_all(v.surfaces, (i + 1) as nat) - 1,
        v.surfaces[i].children[k].depth < v.surfaces[i].depth,
        i > 0 ==> v.surfaces[i - 1].depth < v.surfaces[i].children[k].depth,
        i > 0 ==> v.surfaces[i - 1].depth < v.surfaces[i].depth,
{
    let s = v.surfaces;
    let t = s[i];
    lemma_wrap_in_range(v.cursor_surfaces.len() as int);
    lemma_count_grows(s, (i + 1) as nat, s.len());
    assert(count_all(s, (i + 1) as nat) == count_all(s, i as nat) + count(t));
    let base = wrap_u32(v.depth_offset() + count_all(s, i as nat));
    assert(numbered(t, base));
    lemma_wrap_in_range(v.depth_offset() + count_all(s, i as nat));
    lemma_root_depth(t, base);
    lemma_popup_depth(t, base, k);
    if i > 0 {
        let p = s[i - 1];
        let p_base = wrap_u32(v.depth_offset() + count_all(s, (i - 1) as nat));
        assert(numbered(p, p_base));
        assert(count_all(s, i as nat) == count_all(s, (i - 1) as nat) + count(p));
        lemma_wrap_in_range(v.depth_offset() + count_all(s, (i - 1) as nat));
        lemma_root_depth(p, p_base);
    }
}

/// A longer prefix of trees holds more surfaces.
pub proof fn lemma_count_grows(s: Seq<SurfaceView>, k: nat, n: nat)
    requires
        k <= n <= s.len(),
    ensures
        count_all(s, k) <= count_all(s, n),
        k < n ==> count_all(s, k) < count_all(s, n),
    decreases n,
{
    if k < n {
        lemma_count_grows(s, k, (n - 1) as nat);
        assert(count(s[n - 1]) >= 1);
    }
}

/// Outputs that stand side by side start at the sum of the widths before
/// them, at y = 0, as long as the widths together fit the coordinate range.
pub proof fn lemma_output_layout(outputs: Seq<Output>, k: int)
    requires
        laid_out(outputs),
        0 <= k < outputs.len(),
        width_before(outputs, outputs.len() as int) <= i32::MAX,
    ensures
        outputs[k].geometry.position.x == width_before(outputs, k),
        outputs[k].geometry.position.y == 0,
{
    lemma_layout_sums(outputs, k);
}

/// Removing the last output moves no output.
pub proof fn lemma_last_output_removed(outputs: Seq<Output>, id: usize)
    requires
        first_where(outputs, is_output(id)) == Some(outputs.len() - 1),
    ensures
        output_events(outputs, OutputRequest::Removed { id }) == Seq::<OutputEvent>::empty(),
{
}

/// In a well-formed surface manager every toplevel is in a state that keeps
/// a record exactly while something in it is active.
pub proof fn lemma_states_wf(v: SurfaceManagerView, i: int)
    requires
        v.wf(),
        0 <= i < v.surfaces.len(),
    ensures
        v.surfaces[i].kind matches SurfaceKind::Toplevel { state, .. } && state.wf(),
{
}

/// A popup whose parent is not in the stack is dropped by a well-formed
/// surface manager: nothing changes and nothing is reported.
pub proof fn lemma_orphan_popup_dropped(
    v: SurfaceManagerView,
    id: usize,
    kind: SurfaceKind,
    position: Position2D,
)
    requires
        v.wf(),
        kind is Popup,
        inserted(v.surfaces, id, kind, position) is None,
    ensures
        v.after(SurfaceRequest::Add { id, kind, position }) == v,
        v.events_of(SurfaceRequest::Add { id, kind, position }) == Seq::<SurfaceEvent>::empty(),
{
    lemma_renumbered_all_fixed(v.surfaces, v.depth_offset(), v.surfaces.len());
}

/// No surface is under a position that no toplevel and no popup of a
/// toplevel is hit at.
pub proof fn lemma_nothing_under(stack: Seq<SurfaceView>, grace: u32, position: Position2D)
    requires
        forall|i: int| 0 <= i < stack.len() ==> !hit(grace, position)(#[trigger] stack[i]),
        forall|i: int, k: int|
            0 <= i < stack.len() && 0 <= k < stack[i].children.len() ==> !hit(grace, position)(
                #[trigger] stack[i].children[k],
            ),
    ensures
        surface_at(stack, grace, position) is None,
{
    assert forall|i: int| 0 <= i < stack.len() implies !hit_within(grace, position)(
        stack[i],
    ) by {
        lemma_first_where_none(stack[i].children, hit(grace, position));
    }
    lemma_first_where_none(stack, hit_within(grace, position));
}

/// What is under a position is hit there.
pub proof fn lemma_under_is_hit(stack: Seq<SurfaceView>, grace: u32, position: Position2D)
    ensures
        surface_at(stack, grace, position) matches Some(surface) ==> hit(grace, position)(surface),
{
    lemma_first_where(stack, hit_within(grace, position));
    match first_where(stack, hit_within(grace, position)) {
        Some(i) => {
            lemma_first_where(stack[i].children, hit(grace, position));
        },
        None => {},
    }
}

/// While a toplevel is resized by an edge, taking over a new inner geometry
/// leaves the side opposite to the edge where it was: the sum of position
/// and inner size stays on the axes along which the left or the top is
/// dragged, the position stays on the others. The sums are taken modulo 2^32.
pub proof fn lemma_resize_anchor(
    v: SurfaceView,
    edge: ResizeEdge,
    new: Rectangle,
    min_size: Size2D,
    max_size: Size2D,
)
    requires
        v.resizing_edge() == Some(edge),
        v.inner_geometry() is Some,
    ensures
        ({
            let current = v.inner_geometry()->0;
            let after = configured(v, Some(new), min_size, max_size);
            &&& after.inner_geometry() == Some(new)
            &&& if edge == ResizeEdge::Left || edge == ResizeEdge::TopLeft || edge
                == ResizeEdge::BottomLeft {
                wrap_i32(after.position.x + new.size.width) == wrap_i32(
                    v.position.x + current.size.width,
                )
            } else {
                after.position.x == v.position.x
            }
            &&& if edge == ResizeEdge::Top || edge == ResizeEdge::TopLeft || edge
                == ResizeEdge::TopRight {
                wrap_i32(after.position.y + new.size.height) == wrap_i32(
                    v.position.y + current.size.height,
                )
            } else {
                after.position.y == v.position.y
            }
        }),
{
    let current = v.inner_geometry()->0;
    lemma_wrap_absorb(v.position.x + current.size.width - new.size.width, new.size.width as int);
    lemma_wrap_absorb(
        v.position.y + current.size.height - new.size.height,
        new.size.height as int,
    );
}

/// An interactive resize that starts on an unaltered toplevel and stops
/// under the same serial leaves the toplevel as it was.
pub proof fn lemma_resize_round_trip(v: SurfaceView, serial: u32, edge: ResizeEdge)
    requires
        v.kind matches SurfaceKind::Toplevel { state, .. } && state.altered_state is None,
    ensures
        resize_ended(resize_begun(v, serial, edge), serial) == v,
{
}

/// A toplevel that is maximized while unaltered and then has the flag
/// cleared is back where it was before, wherever it went in between.
pub proof fn lemma_maximize_round_trip(v: SurfaceView, between: Position2D)
    requires
        v.kind matches SurfaceKind::Toplevel { state, .. } && state.altered_state is None,
        v.buffer is Some,
    ensures
        unmaximized(moved(maximized(v), between, v.depth)).position == v.position,
        unmaximized(moved(maximized(v), between, v.depth)).kind == v.kind,
{
}

/// Moving a tree again to where it is changes nothing, and reports the
/// same moves as the first time.
pub proof fn lemma_move_twice(v: SurfaceView, position: Position2D, depth: u32)
    ensures
        moved(moved(v, position, depth), position, depth) == moved(v, position, depth),
        move_events(moved(v, position, depth), position, depth) == move_events(
            v,
            position,
            depth,
        ),
    decreases v, 1nat,
{
    let inner = v.inner_geometry();
    lemma_reposition_twice(v.children, position, inner, v.children.len());
}

/// Placing children anew a second time changes nothing, and reports the
/// same moves as the first time.
pub proof fn lemma_reposition_twice(
    s: Seq<SurfaceView>,
    position: Position2D,
    inner: Option<Rectangle>,
    n: nat,
)
    ensures
        repositioned(repositioned(s, position, inner), position, inner) == repositioned(
            s,
            position,
            inner,
        ),
        reposition_events(repositioned(s, position, inner), position, inner, n)
            == reposition_events(s, position, inner, n),
    decreases s, 0nat, n,
{
    let once = repositioned(s, position, inner);
    let twice = repositioned(once, position, inner);
    assert forall|i: int| 0 <= i < s.len() implies #[trigger] twice[i] == once[i] by {
        match s[i].placed(position, inner) {
            Some(target) => {
                lemma_move_twice(s[i], target, s[i].depth);
            },
            None => {},
        }
    }
    assert(twice =~= once);
    if n > 0 && n <= s.len() {
        lemma_reposition_twice(s, position, inner, (n - 1) as nat);
        match s[n - 1].placed(position, inner) {
            Some(target) => {
                lemma_move_twice(s[n - 1], target, s[n - 1].depth);
            },
            None => {},
        }
    }
}

/// After a pointer was moved, it is where it was put and over the surface
/// that is under it there.
pub proof fn lemma_pointer_focus(v: GeometryView, id: usize, position: Position2D)
    requires
        cursor_of(v.seats, id) is Some,
    ensures
        ({
            let after = applied(v, move_cursor_request(id, position));
            &&& after.surfaces == v.surfaces
            &&& cursor_of(after.seats, id) matches Some(cursor)
            &&& cursor.position == position
            &&& cursor.focus == under(after, position)
        }),
{
    reveal(performed);
    reveal(performed_events);
    reveal(settled);
    let request = move_cursor_request(id, position);
    let first = performed_events(v, request);
    let mid = performed(v, request);
    let event = SeatEvent::Cursor(CursorEvent::Moved { id, position });
    assert(first =~= seq![WCompEvent::Seat { serial: 0, event }]);
    let cursor = cursor_of(v.seats, id)->0;
    lemma_cursor_given(v.seats, id, Some(Cursor { position, ..cursor }));
    assert(settled_all(mid, first, 0) == mid);
    assert(settled_all(mid, first, 1) == settled(mid, first[0]));
    let moved = cursor_of(mid.seats, id)->0;
    lemma_cursor_given(mid.seats, id, Some(Cursor { focus: under(mid, position), ..moved }));
}

/// Two surfaces have the same id and, popup by popup, popups of the same ids.
pub open spec fn same_ids(a: SurfaceView, b: SurfaceView) -> bool {
    &&& a.id == b.id
    &&& a.children.len() == b.children.len()
    &&& forall|k: int| 0 <= k < a.children.len() ==> (#[trigger] a.children[k]).id == b.children[k].id
}

/// A move leaves a surface all but its position, its depth and its popups.
pub proof fn lemma_moved_root(v: SurfaceView, position: Position2D, depth: u32)
    ensures
        moved(v, position, depth).id == v.id,
        moved(v, position, depth).kind == v.kind,
        moved(v, position, depth).buffer == v.buffer,
        moved(v, position, depth).position == position,
        moved(v, position, depth).depth == depth,
        moved(v, position, depth).children.len() == v.children.len(),
{
}

/// A move leaves the id of a surface and the ids of its popups.
pub proof fn lemma_moved_ids(v: SurfaceView, position: Position2D, depth: u32)
    ensures
        same_ids(moved(v, position, depth), v),
{
    let after = moved(v, position, depth);
    assert forall|k: int| 0 <= k < after.children.len() implies (#[trigger] after.children[k]).id
        == v.children[k].id by {
        match v.children[k].placed(position, v.inner_geometry()) {
            Some(target) => {
                lemma_moved_root(v.children[k], target, v.children[k].depth);
            },
            None => {},
        }
    }
}

/// Surfaces of the same ids as a third have the same ids as each other.
pub proof fn lemma_same_ids_trans(a: SurfaceView, b: SurfaceView, c: SurfaceView)
    requires
        same_ids(a, b),
        same_ids(b, c),
    ensures
        same_ids(a, c),
{
    assert forall|k: int| 0 <= k < a.children.len() implies (#[trigger] a.children[k]).id
        == c.children[k].id by {
        assert(b.children[k].id == c.children[k].id);
    }
}

/// A change to a surface leaves its id and the ids of its popups.
pub proof fn lemma_changed_ids(v: SurfaceView, change: SurfaceChange)
    ensures
        same_ids(changed(v, change), v),
{
    match change {
        SurfaceChange::Move { position } => {
            lemma_moved_ids(v, position, v.depth);
        },
        SurfaceChange::Configure { geometry, min_size, max_size } => {
            let sized = SurfaceView { min_size, max_size, ..v };
            match v.configure_target(geometry) {
                Some(position) => {
                    lemma_moved_ids(sized, position, v.depth);
                    lemma_same_ids_trans(moved(sized, position, v.depth), sized, v);
                    lemma_same_ids_trans(
                        changed(v, change),
                        moved(sized, position, v.depth),
                        v,
                    );
                },
                None => {},
            }
        },
        SurfaceChange::Unmaximize => {
            match v.alterable() {
                Some(state) => {
                    let cleared = v.with_state(state.unmaximized());
                    match state.restored_geometry() {
                        Some(original) => {
                            lemma_moved_ids(cleared, original.position, v.depth);
                            lemma_same_ids_trans(changed(v, change), cleared, v);
                        },
                        None => {},
                    }
                },
                None => {},
            }
        },
        SurfaceChange::Attach { handle, inner_geometry, .. } => {
            let attached = with_buffer(v, handle, inner_geometry);
            let after = changed(v, change);
            assert forall|k: int| 0 <= k < after.children.len() implies (
            #[trigger] after.children[k]).id == v.children[k].id by {
                match v.children[k].placed(attached.position, attached.inner_geometry()) {
                    Some(target) => {
                        lemma_moved_root(v.children[k], target, v.children[k].depth);
                    },
                    None => {},
                }
            }
        },
        SurfaceChange::StartResize { .. } => {},
        SurfaceChange::StopResize { .. } => {},
        SurfaceChange::Maximize => {},
        SurfaceChange::Detach => {},
    }
}

/// A surface is found in the same place of the stack after the surface at
/// `path` gave way to one of the same ids.
pub proof fn lemma_locate_stable(stack: Seq<SurfaceView>, path: Path, node: SurfaceView, id: usize)
    requires
        leads(stack, path),
        same_ids(node, node_at(stack, path)),
    ensures
        locate(put_at(stack, path, node), id) == locate(stack, id),
{
    let after = put_at(stack, path, node);
    assert forall|i: int| 0 <= i < stack.len() implies {
        &&& (#[trigger] after[i]).id == stack[i].id
        &&& index_of(after[i].children, id) == index_of(stack[i].children, id)
    } by {
        let a = after[i].children;
        let b = stack[i].children;
        assert(a.len() == b.len());
        assert forall|k: int| 0 <= k < a.len() implies has_id(id)(a[k]) == has_id(id)(b[k]) by {
            if i == path.toplevel {
                match path.popup {
                    Some(j) => {},
                    None => {
                        assert(node.children[k].id == stack[i].children[k].id);
                    },
                }
            }
        }
        lemma_first_where_same(a, has_id(id), b, has_id(id));
    }
    assert forall|i: int| 0 <= i < stack.len() implies holds(id)(after[i]) == holds(id)(
        stack[i],
    ) by {
        assert(after[i].id == stack[i].id);
    }
    lemma_first_where_same(after, holds(id), stack, holds(id));
    lemma_first_where(stack, holds(id));
}

/// After a change to the first surface with an id, the first surface with
/// that id is the changed one.
pub proof fn lemma_found_after_change(v: SurfaceManagerView, id: usize, change: SurfaceChange)
    requires
        v.find(id) is Some,
    ensures
        v.with_change(id, change).find(id) == Some(changed(v.find(id)->0, change)),
        locate(v.with_change(id, change).surfaces, id) == locate(v.surfaces, id),
{
    lemma_locate(v.surfaces, id);
    let path = locate(v.surfaces, id)->0;
    let node = node_at(v.surfaces, path);
    lemma_changed_ids(node, change);
    lemma_locate_stable(v.surfaces, path, changed(node, change), id);
}

/// A second request to move a surface to where the first request moved it
/// changes nothing, and reports the same moves as the first: one for the
/// surface, and those of its popups.
pub proof fn lemma_move_request_twice(v: SurfaceManagerView, id: usize, position: Position2D)
    ensures
        ({
            let request = SurfaceRequest::Move { id, position };
            &&& v.after(request).after(request) == v.after(request)
            &&& v.after(request).events_of(request) == v.events_of(request)
        }),
{
    let change = SurfaceChange::Move { position };
    lemma_locate(v.surfaces, id);
    match locate(v.surfaces, id) {
        Some(path) => {
            let node = node_at(v.surfaces, path);
            lemma_found_after_change(v, id, change);
            lemma_move_twice(node, position, node.depth);
            let once = v.with_change(id, change);
            assert(node_at(once.surfaces, path) == moved(node, position, node.depth));
            assert(once.with_change(id, change).surfaces =~= once.surfaces) by {
                match path.popup {
                    Some(j) => {
                        assert(once.with_change(id, change).surfaces[path.toplevel].children
                            =~= once.surfaces[path.toplevel].children);
                    },
                    None => {},
                }
            }
        },
        None => {},
    }
}

/// An interactive resize that starts on an unaltered toplevel with a buffer
/// and stops under the same serial leaves the surface manager as it was.
pub proof fn lemma_resize_request_round_trip(
    v: SurfaceManagerView,
    id: usize,
    serial: u32,
    edge: ResizeEdge,
)
    requires
        v.find(id) matches Some(surface) && (surface.kind matches SurfaceKind::Toplevel {
            state,
            ..
        } && state.altered_state is None),
    ensures
        v.after(SurfaceRequest::InteractiveResizeStart { id, serial, edge }).after(
            SurfaceRequest::InteractiveResizeStop { id, serial },
        ) == v,
{
    let start = SurfaceChange::StartResize { serial, edge };
    let stop = SurfaceChange::StopResize { serial };
    lemma_locate(v.surfaces, id);
    let path = locate(v.surfaces, id)->0;
    let node = node_at(v.surfaces, path);
    lemma_found_after_change(v, id, start);
    lemma_resize_round_trip(node, serial, edge);
    let begun = v.with_change(id, start);
    assert(begun.with_change(id, stop).surfaces =~= v.surfaces) by {
        match path.popup {
            Some(j) => {
                assert(begun.with_change(id, stop).surfaces[path.toplevel].children
                    =~= v.surfaces[path.toplevel].children);
            },
            None => {},
        }
    }
}

/// A toplevel that is maximized while unaltered, moved anywhere, and then
/// has the flag cleared is back at the position it had before.
pub proof fn lemma_maximize_request_round_trip(
    v: SurfaceManagerView,
    id: usize,
    between: Position2D,
)
    requires
        v.find(id) matches Some(surface) && surface.buffer is Some && (
        surface.kind matches SurfaceKind::Toplevel { state, .. } && state.altered_state is None),
    ensures
        ({
            let back = v.after(SurfaceRequest::Maximize { id }).after(
                SurfaceRequest::Move { id, position: between },
            ).after(SurfaceRequest::Unmaximize { id });
            back.find(id) matches Some(surface) && surface.position == v.find(id)->0.position
                && surface.kind == v.find(id)->0.kind
        }),
{
    let node = v.find(id)->0;
    lemma_found_after_change(v, id, SurfaceChange::Maximize);
    let first = v.with_change(id, SurfaceChange::Maximize);
    lemma_found_after_change(first, id, SurfaceChange::Move { position: between });
    let second = first.with_change(id, SurfaceChange::Move { position: between });
    lemma_found_after_change(second, id, SurfaceChange::Unmaximize);
    lemma_maximize_round_trip(node, between);
}

/// A buffer that is attached to a toplevel has the popups of the toplevel
/// placed once: the toplevel has the buffer, keeps the inner geometry it
/// had if it had one, and stays where it was; what is reported is the
/// attachment and then one move for each popup that is placed.
pub proof fn lemma_attach_to_toplevel(
    v: SurfaceManagerView,
    id: usize,
    handle: WlBuffer,
    inner_geometry: Rectangle,
    size: Size2D,
)
    requires
        locate(v.surfaces, id) matches Some(path) && path.popup is None,
    ensures
        ({
            let node = v.find(id)->0;
            let request = SurfaceRequest::AttachBuffer { id, handle, inner_geometry, size };
            let held = with_children_placed(with_buffer(node, handle, inner_geometry));
            &&& node.id == id
            &&& v.after(request).find(id) == Some(held)
            &&& v.events_of(request) == seq![attach_event(node, handle, inner_geometry, size)]
                + place_children_events(with_buffer(node, handle, inner_geometry))
            &&& held.position == node.position
            &&& held.depth == node.depth
            &&& held.buffer matches Some(buffer)
            &&& buffer.handle == handle
            &&& buffer.geometry == (match node.buffer {
                Some(before) => before.geometry,
                None => inner_geometry,
            })
        }),
{
    lemma_locate(v.surfaces, id);
    lemma_found_after_change(
        v,
        id,
        SurfaceChange::Attach { handle, inner_geometry, suggested_size: size },
    );
}

/// Whether nothing follows from an event: it is no turn of a keyboard, no
/// motion of a pointer and no maximizing of a surface.
pub open spec fn quiet(event: WCompEvent) -> bool {
    match event {
        WCompEvent::Seat { event: SeatEvent::Keyboard(KeyboardEvent::Focus { .. }), .. } => false,
        WCompEvent::Seat { event: SeatEvent::Cursor(CursorEvent::Moved { .. }), .. } => false,
        WCompEvent::Surface { event: SurfaceEvent::Maximized { .. }, .. } => false,
        _ => true,
    }
}

/// Following up on events from which nothing follows changes nothing and
/// reports nothing.
pub proof fn lemma_settle_quiet(v: GeometryView, events: Seq<WCompEvent>, n: nat)
    requires
        forall|k: int| 0 <= k < events.len() ==> quiet(#[trigger] events[k]),
    ensures
        settled_all(v, events, n) == v,
        settle_all_events(v, events, n) == Seq::<WCompEvent>::empty(),
    decreases n,
{
    reveal(settled);
    reveal(settle_events);
    if n > 0 && n <= events.len() {
        lemma_settle_quiet(v, events, (n - 1) as nat);
        assert(quiet(events[n - 1]));
    }
}

/// What a move reports are moves, the first that of the surface itself.
pub proof fn lemma_move_events_are_moves(v: SurfaceView, position: Position2D, depth: u32)
    ensures
        move_events(v, position, depth).len() >= 1,
        move_events(v, position, depth)[0] == (SurfaceEvent::Moved { id: v.id, position, depth }),
        forall|k: int|
            0 <= k < move_events(v, position, depth).len() ==> (#[trigger] move_events(
                v,
                position,
                depth,
            )[k]) is Moved,
    decreases v, 1nat,
{
    lemma_reposition_events_are_moves(v.children, position, v.inner_geometry(), v.children.len());
}

/// What placing popups anew reports are moves.
pub proof fn lemma_reposition_events_are_moves(
    s: Seq<SurfaceView>,
    position: Position2D,
    inner: Option<Rectangle>,
    n: nat,
)
    ensures
        forall|k: int|
            0 <= k < reposition_events(s, position, inner, n).len() ==> (
            #[trigger] reposition_events(s, position, inner, n)[k]) is Moved,
    decreases s, 0nat, n,
{
    if n > 0 && n <= s.len() {
        lemma_reposition_events_are_moves(s, position, inner, (n - 1) as nat);
        match s[n - 1].placed(position, inner) {
            Some(target) => {
                lemma_move_events_are_moves(s[n - 1], target, s[n - 1].depth);
            },
            None => {},
        }
    }
}

/// A request to the surface manager that reports no maximizing goes
/// through the geometry manager as it is: the surfaces are what the surface
/// manager makes of them, nothing else changes but the serial counter, and
/// the events are those of the surface manager under their serials.
pub proof fn lemma_plain_surface_request(v: GeometryView, request: SurfaceRequest)
    requires
        forall|k: int|
            0 <= k < v.surfaces.events_of(request).len() ==> !((#[trigger] v.surfaces.events_of(
                request,
            )[k]) is Maximized),
    ensures
        applied(v, WCompRequest::Surface { request }).surfaces == v.surfaces.after(request),
        applied(v, WCompRequest::Surface { request }).seats == v.seats,
        applied(v, WCompRequest::Surface { request }).outputs == v.outputs,
        emitted(v, WCompRequest::Surface { request }) == stamped(
            of_surfaces(v.surfaces.events_of(request)),
            v.next_serial,
        ),
{
    reveal(performed);
    reveal(performed_events);
    let whole = WCompRequest::Surface { request };
    let first = performed_events(v, whole);
    assert forall|k: int| 0 <= k < first.len() implies quiet(#[trigger] first[k]) by {
        assert(!(v.surfaces.events_of(request)[k] is Maximized));
    }
    lemma_settle_quiet(performed(v, whole), first, first.len());
    assert(reported(v, whole) =~= first);
}

/// A toplevel with a buffer that is maximized through the geometry manager
/// is marked as maximized and remembers where it was; it keeps its buffer
/// and its depth, wherever the output that it covers puts it.
pub proof fn lemma_maximize_applied(v: GeometryView, id: usize)
    requires
        v.surfaces.find(id) matches Some(node) && node.alterable() is Some,
    ensures
        ({
            let node = v.surfaces.find(id)->0;
            let after = applied(v, maximize_surface_request(id));
            &&& after.surfaces.find(id) matches Some(held)
            &&& held.id == id
            &&& held.kind == maximized(node).kind
            &&& held.buffer == node.buffer
            &&& held.depth == node.depth
        }),
{
    reveal(performed);
    reveal(performed_events);
    reveal(settled);
    let node = v.surfaces.find(id)->0;
    let request = maximize_surface_request(id);
    let first = performed_events(v, request);
    let mid = performed(v, request);
    lemma_locate(v.surfaces.surfaces, id);
    assert(first =~= seq![
        WCompEvent::Surface { serial: 0, event: SurfaceEvent::Maximized { id } },
    ]);
    lemma_found_after_change(v.surfaces, id, SurfaceChange::Maximize);
    assert(mid.surfaces.find(id) == Some(maximized(node)));
    assert(settled_all(mid, first, 0) == mid);
    assert(settled_all(mid, first, 1) == settled(mid, first[0]));
    match cover(mid, id) {
        Some(output) => {
            lemma_found_after_change(
                mid.surfaces,
                id,
                SurfaceChange::Move { position: output.geometry.position },
            );
            lemma_moved_root(maximized(node), output.geometry.position, node.depth);
        },
        None => {},
    }
}

/// A toplevel that is maximized while unaltered and then has the flag
/// cleared, both through the geometry manager, is back where it was, at the
/// depth and in the state it had. Clearing the flag reports that, then the
/// move back, then the moves of the popups of the toplevel.
pub proof fn lemma_maximize_then_unmaximize(v: GeometryView, id: usize)
    requires
        v.surfaces.find(id) matches Some(surface) && surface.buffer is Some && (
        surface.kind matches SurfaceKind::Toplevel { state, .. } && state.altered_state is None),
    ensures
        ({
            let before = v.surfaces.find(id)->0;
            let covering = applied(v, maximize_surface_request(id));
            let held = covering.surfaces.find(id)->0;
            let back = applied(covering, unmaximize_surface_request(id));
            let events = emitted(covering, unmaximize_surface_request(id));
            &&& back.surfaces.find(id) matches Some(surface)
            &&& surface.position == before.position
            &&& surface.depth == before.depth
            &&& surface.kind == before.kind
            &&& events == stamped(
                of_surfaces(
                    seq![SurfaceEvent::Unmaximized { id }] + move_events(
                        SurfaceView { kind: before.kind, ..held },
                        before.position,
                        before.depth,
                    ),
                ),
                covering.next_serial,
            )
            &&& events.len() >= 2
            &&& events[0] == (WCompEvent::Surface {
                serial: covering.next_serial,
                event: SurfaceEvent::Unmaximized { id },
            })
            &&& events[1] == (WCompEvent::Surface {
                serial: wrap_u32(covering.next_serial + 1),
                event: SurfaceEvent::Moved {
                    id,
                    position: before.position,
                    depth: before.depth,
                },
            })
        }),
{
    let before = v.surfaces.find(id)->0;
    lemma_maximize_applied(v, id);
    let covering = applied(v, maximize_surface_request(id));
    let held = covering.surfaces.find(id)->0;
    let cleared = SurfaceView { kind: before.kind, ..held };
    let request = SurfaceRequest::Unmaximize { id };
    assert(unmaximized(held) == moved(cleared, before.position, before.depth));
    lemma_move_events_are_moves(cleared, before.position, before.depth);
    let moves = move_events(cleared, before.position, before.depth);
    let said = seq![SurfaceEvent::Unmaximized { id }] + moves;
    lemma_locate(covering.surfaces.surfaces, id);
    assert(covering.surfaces.events_of(request) == said);
    assert forall|k: int| 0 <= k < said.len() implies !((#[trigger] said[k]) is Maximized) by {
        if k > 0 {
            assert(said[k] == moves[k - 1]);
        }
    }
    lemma_plain_surface_request(covering, request);
    lemma_found_after_change(covering.surfaces, id, SurfaceChange::Unmaximize);
    lemma_moved_root(cleared, before.position, before.depth);
    lemma_wrap_in_range(covering.next_serial as int);
    assert(said[0] == (SurfaceEvent::Unmaximized { id }));
    assert(said[1] == moves[0]);
}

/// A toplevel with a buffer that is maximized through the geometry manager
/// covers the first output that shows its position: it goes to the origin
/// of that output, and its client is asked for the size of the output.
/// What is reported is the maximizing, the move with those of the popups,
/// and the size that is asked for.
pub proof fn lemma_maximize_covers_output(v: GeometryView, id: usize)
    requires
        v.surfaces.find(id) matches Some(node) && node.alterable() is Some,
        cover(v, id) is Some,
    ensures
        ({
            let node = v.surfaces.find(id)->0;
            let output = cover(v, id)->0;
            let request = maximize_surface_request(id);
            &&& applied(v, request).surfaces.find(id) == Some(
                moved(maximized(node), output.geometry.position, node.depth),
            )
            &&& emitted(v, request) == stamped(
                of_surfaces(
                    seq![SurfaceEvent::Maximized { id }] + move_events(
                        maximized(node),
                        output.geometry.position,
                        node.depth,
                    ) + seq![SurfaceEvent::Configuration { id, size: output.geometry.size }],
                ),
                v.next_serial,
            )
        }),
{
    reveal(performed);
    reveal(performed_events);
    reveal(settled);
    reveal(settle_events);
    let node = v.surfaces.find(id)->0;
    let output = cover(v, id)->0;
    let request = maximize_surface_request(id);
    let first = performed_events(v, request);
    let mid = performed(v, request);
    lemma_locate(v.surfaces.surfaces, id);
    assert(first =~= seq![
        WCompEvent::Surface { serial: 0, event: SurfaceEvent::Maximized { id } },
    ]);
    lemma_found_after_change(v.surfaces, id, SurfaceChange::Maximize);
    assert(mid.surfaces.find(id) == Some(maximized(node)));
    assert(cover(mid, id) == Some(output));
    assert(settled_all(mid, first, 0) == mid);
    assert(settled_all(mid, first, 1) == settled(mid, first[0]));
    assert(settle_all_events(mid, first, 0) == Seq::<WCompEvent>::empty());
    assert(settle_all_events(mid, first, 1) =~= settle_events(mid, first[0]));
    let change = SurfaceChange::Move { position: output.geometry.position };
    lemma_found_after_change(mid.surfaces, id, change);
    lemma_locate(mid.surfaces.surfaces, id);
    let moves = move_events(maximized(node), output.geometry.position, node.depth);
    let asked = seq![SurfaceEvent::Configuration { id, size: output.geometry.size }];
    assert(settle_events(mid, first[0]) == of_surfaces(moves + asked));
    assert(reported(v, request) =~= of_surfaces(
        seq![SurfaceEvent::Maximized { id }] + moves + asked,
    ));
}

} // verus!

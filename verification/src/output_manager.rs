//! The output manager: the outputs of the compositor, laid out from left to
//! right, and where a new surface should go on them.

use crate::geometry::{to_i32, wrap_i32, Position2D, Rectangle, Size2D};
use crate::search::{first_where, lemma_first_where, lemma_first_where_is, lemma_first_where_none};
use vstd::prelude::*;

verus! {

/// The surface of the render engine that an output draws to.
#[derive(Clone, Copy, Debug, PartialEq, Eq, Structural)]
pub struct RenderSurface {
    pub id: usize,
}

/// An output and the rectangle that it shows of the compositor space.
#[derive(Clone, Copy, Debug, PartialEq, Eq, Structural)]
pub struct Output {
    pub id: usize,
    pub geometry: Rectangle,
}

impl Output {
    pub fn new(id: usize, geometry: Rectangle) -> (r: Self)
        ensures
            r == (Output { id, geometry }),
    {
        Self { id, geometry }
    }
}

/// What is asked of the output manager.
#[derive(Clone, Copy, Debug, PartialEq, Eq)]
pub enum OutputRequest {
    Added { id: usize, handle: RenderSurface, size: Size2D },
    Removed { id: usize },
    Resized { id: usize, size: Size2D },
    Moved { old: Output, new_position: Position2D },
}

/// What the output manager reports.
#[derive(Clone, Copy, Debug, PartialEq, Eq)]
pub enum OutputEvent {
    Added { id: usize, handle: RenderSurface, size: Size2D },
    Removed { id: usize },
    Resized { id: usize, size: Size2D },
    Moved { id: usize, position: Position2D },
}

/// Whether an output has this id.
pub open spec fn is_output(id: usize) -> spec_fn(Output) -> bool {
    |output: Output| output.id == id
}

/// Whether an output shows `position`.
pub open spec fn shows(position: Position2D) -> spec_fn(Output) -> bool {
    |output: Output| output.geometry.spec_contains(position)
}

/// The x coordinate of the `k`-th output once the outputs from `from` on
/// are laid out anew: each starts where the one before ends, the first at 0.
/// Outputs before `from` stay.
pub open spec fn laid_x(s: Seq<Output>, from: int, k: int) -> i32
    decreases k,
{
    if k < from || k < 0 || k >= s.len() {
        s[k].geometry.position.x
    } else if k == 0 {
        0
    } else {
        wrap_i32(laid_x(s, from, k - 1) + s[k - 1].geometry.size.width)
    }
}

/// The outputs with those from `from` on laid out anew.
pub open spec fn relaid(s: Seq<Output>, from: int) -> Seq<Output> {
    Seq::new(
        s.len(),
        |k: int|
            Output {
                id: s[k].id,
                geometry: Rectangle {
                    position: Position2D { x: laid_x(s, from, k), y: s[k].geometry.position.y },
                    size: s[k].geometry.size,
                },
            },
    )
}

/// The events of laying out anew the outputs from `from` up to `n`: a move
/// for each that changes place, in order.
pub open spec fn relay_events(s: Seq<Output>, from: int, n: int) -> Seq<OutputEvent>
    decreases n,
{
    if n <= from || n <= 0 || n > s.len() {
        Seq::empty()
    } else {
        relay_events(s, from, n - 1) + (if s[n - 1].geometry.position.x != laid_x(s, from, n - 1) {
            seq![
                OutputEvent::Moved {
                    id: s[n - 1].id,
                    position: Position2D {
                        x: laid_x(s, from, n - 1),
                        y: s[n - 1].geometry.position.y,
                    },
                },
            ]
        } else {
            Seq::empty()
        })
    }
}

/// The outputs stand side by side from left to right: the first at x = 0,
/// each next one where the one before ends, all at y = 0.
#[verifier::opaque]
pub open spec fn laid_out(s: Seq<Output>) -> bool {
    forall|k: int|
        0 <= k < s.len() ==> {
            &&& (#[trigger] s[k]).geometry.position.y == 0
            &&& s[k].geometry.position.x == (if k == 0 {
                0
            } else {
                s[k - 1].geometry.spec_x_offset()
            })
        }
}

/// The sum of the widths of the first `k` outputs.
pub open spec fn width_before(s: Seq<Output>, k: int) -> int
    decreases k,
{
    if k <= 0 || k > s.len() {
        0
    } else {
        width_before(s, k - 1) + s[k - 1].geometry.size.width
    }
}

/// Where the first output leaves room for a surface of size `size` round
/// its centre, not left of or above the origin.
pub open spec fn optimal_position(s: Seq<Output>, size: Size2D) -> Position2D {
    if s.len() == 0 {
        Position2D { x: 0, y: 0 }
    } else {
        let x = s[0].geometry.size.width / 2 - size.width / 2;
        let y = s[0].geometry.size.height / 2 - size.height / 2;
        Position2D {
            x: if x < 0 {
                0
            } else {
                x as i32
            },
            y: if y < 0 {
                0
            } else {
                y as i32
            },
        }
    }
}

/// The size for a new surface: half of the first output each way, or 200
/// by 200 without outputs.
pub open spec fn optimal_size(s: Seq<Output>) -> Size2D {
    if s.len() == 0 {
        Size2D { width: 200, height: 200 }
    } else {
        Size2D {
            width: s[0].geometry.size.width / 2,
            height: s[0].geometry.size.height / 2,
        }
    }
}

/// In outputs that stand side by side, laying out anew moves nothing.
pub proof fn lemma_laid_out_fixed(s: Seq<Output>, from: int, k: int)
    requires
        laid_out(s),
        0 <= from,
    ensures
        0 <= k < s.len() ==> laid_x(s, from, k) == s[k].geometry.position.x,
    decreases k,
{
    reveal(laid_out);
    if 0 <= k < s.len() && k >= from && k > 0 {
        lemma_laid_out_fixed(s, from, k - 1);
    }
}

/// Outputs that stood side by side up to `from` stand side by side
/// throughout once those from `from` on are laid out anew.
pub proof fn lemma_relaid(s: Seq<Output>, from: int)
    requires
        0 <= from,
        forall|k: int| 0 <= k < s.len() ==> (#[trigger] s[k]).geometry.position.y == 0,
        forall|k: int|
            0 <= k < from && k < s.len() ==> (#[trigger] s[k]).geometry.position.x == (if k == 0 {
                0
            } else {
                s[k - 1].geometry.spec_x_offset()
            }),
    ensures
        laid_out(relaid(s, from)),
{
    reveal(laid_out);
    let r = relaid(s, from);
    assert forall|k: int| 0 <= k < r.len() implies {
        &&& (#[trigger] r[k]).geometry.position.y == 0
        &&& r[k].geometry.position.x == (if k == 0 {
            0
        } else {
            r[k - 1].geometry.spec_x_offset()
        })
    } by {
        if k > 0 {
            if k < from {
                assert(s[k].geometry.position.x == s[k - 1].geometry.spec_x_offset());
            }
        } else {
            if k < from {
                assert(s[k].geometry.position.x == 0);
            }
        }
    }
}

/// In outputs that stand side by side and whose widths together fit the
/// coordinate range, each output starts at the sum of the widths before it.
pub proof fn lemma_layout_sums(s: Seq<Output>, k: int)
    requires
        laid_out(s),
        0 <= k < s.len(),
        width_before(s, s.len() as int) <= i32::MAX,
    ensures
        s[k].geometry.position.x == width_before(s, k),
        s[k].geometry.position.y == 0,
    decreases k,
{
    reveal(laid_out);
    lemma_width_grows(s, k, s.len() as int);
    if k > 0 {
        lemma_layout_sums(s, k - 1);
        lemma_width_grows(s, k - 1, k);
        crate::geometry::lemma_wrap_in_range(width_before(s, k));
    }
}

/// The sum of the widths of a prefix is no more than that of a longer one.
pub proof fn lemma_width_grows(s: Seq<Output>, k: int, n: int)
    requires
        0 <= k <= n <= s.len(),
    ensures
        0 <= width_before(s, k) <= width_before(s, n),
    decreases n,
{
    if k < n {
        lemma_width_grows(s, k, n - 1);
    } else if k > 0 {
        lemma_width_grows(s, k - 1, k - 1);
    }
}

/// Lays out anew the outputs from `from` on. Reports each that moved.
fn update_offset(outputs: &mut Vec<Output>, from: usize) -> (events: Vec<OutputEvent>)
    ensures
        final(outputs)@ == relaid(old(outputs)@, from as int),
        events@ == relay_events(old(outputs)@, from as int, old(outputs)@.len() as int),
{
    let mut events: Vec<OutputEvent> = Vec::new();
    let ghost before = outputs@;
    if from >= outputs.len() {
        assert(outputs@ =~= relaid(before, from as int));
        return events;
    }
    let mut index: usize = from;
    assert forall|k: int| 0 <= k < index implies outputs@[k] == #[trigger] relaid(
        before,
        from as int,
    )[k] by {}
    while index < outputs.len()
        invariant
            from <= index <= outputs@.len(),
            before == old(outputs)@,
            outputs@.len() == before.len(),
            forall|k: int| 0 <= k < index ==> outputs@[k] == #[trigger] relaid(
                before,
                from as int,
            )[k],
            forall|k: int| index <= k < outputs@.len() ==> outputs@[k] == before[k],
            events@ == relay_events(before, from as int, index as int),
        decreases outputs@.len() - index,
    {
        let ghost laid = relaid(before, from as int);
        let x_offset: i32 = if index == 0 {
            0
        } else {
            assert(outputs@[index - 1] == laid[index - 1]);
            outputs[index - 1].geometry.x_offset()
        };
        assert(x_offset == laid_x(before, from as int, index as int));
        let current = outputs[index];
        assert(current == before[index as int]);
        if current.geometry.position.x != x_offset {
            let position = Position2D { x: x_offset, y: current.geometry.position.y };
            outputs[index] = Output {
                id: current.id,
                geometry: Rectangle { position, size: current.geometry.size },
            };
            events.push(OutputEvent::Moved { id: current.id, position });
        }
        assert(outputs@[index as int] == laid[index as int]);
        index = index + 1;
        assert(events@ =~= relay_events(before, from as int, index as int));
    }
    assert(outputs@ =~= relaid(before, from as int));
    events
}

/// The outputs with the `i`-th at size `size`.
pub open spec fn resized(s: Seq<Output>, i: int, size: Size2D) -> Seq<Output> {
    s.update(
        i,
        Output { id: s[i].id, geometry: Rectangle { position: s[i].geometry.position, size } },
    )
}

/// Outputs that stood side by side still do up to and with the `i`-th
/// after that one got another size, and all are still at y = 0.
pub proof fn lemma_resized_prefix(s: Seq<Output>, i: int, size: Size2D)
    requires
        laid_out(s),
        0 <= i < s.len(),
    ensures
        laid_out(relaid(resized(s, i, size), i + 1)),
{
    reveal(laid_out);
    let resized = resized(s, i, size);
    assert forall|k: int| 0 <= k < resized.len() implies (
    #[trigger] resized[k]).geometry.position.y == 0 by {
        assert(s[k].geometry.position.y == 0);
    }
    assert forall|k: int| 0 <= k < i + 1 && k < resized.len() implies (
    #[trigger] resized[k]).geometry.position.x == (if k == 0 {
        0
    } else {
        resized[k - 1].geometry.spec_x_offset()
    }) by {
        assert(s[k].geometry.position.y == 0);
    }
    lemma_relaid(resized, i + 1);
}

/// Outputs that stand side by side do with one more right of the last.
pub proof fn lemma_pushed_laid_out(s: Seq<Output>, id: usize, size: Size2D)
    requires
        laid_out(s),
    ensures
        laid_out(
            s.push(
                Output {
                    id,
                    geometry: Rectangle {
                        position: Position2D {
                            x: if s.len() == 0 {
                                0
                            } else {
                                s.last().geometry.spec_x_offset()
                            },
                            y: 0,
                        },
                        size,
                    },
                },
            ),
        ),
{
    reveal(laid_out);
}

/// Outputs that stood side by side do again once one is gone and those
/// after it are laid out anew.
pub proof fn lemma_removed_relaid(s: Seq<Output>, i: int)
    requires
        laid_out(s),
        0 <= i < s.len(),
    ensures
        laid_out(relaid(s.remove(i), i)),
{
    reveal(laid_out);
    let rest = s.remove(i);
    assert forall|k: int| 0 <= k < rest.len() implies (#[trigger] rest[k]).geometry.position.y
        == 0 by {
        if k < i {
            assert(s[k].geometry.position.y == 0);
        } else {
            assert(s[k + 1].geometry.position.y == 0);
        }
    }
    assert forall|k: int| 0 <= k < i && k < rest.len() implies (
    #[trigger] rest[k]).geometry.position.x == (if k == 0 {
        0
    } else {
        rest[k - 1].geometry.spec_x_offset()
    }) by {
        assert(s[k].geometry.position.y == 0);
    }
    lemma_relaid(rest, i);
}

/// The outputs after `request`.
pub open spec fn outputs_after(s: Seq<Output>, request: OutputRequest) -> Seq<Output> {
    match request {
        OutputRequest::Added { id, size, .. } => s.push(
            Output {
                id,
                geometry: Rectangle {
                    position: Position2D {
                        x: if s.len() == 0 {
                            0
                        } else {
                            s.last().geometry.spec_x_offset()
                        },
                        y: 0,
                    },
                    size,
                },
            },
        ),
        OutputRequest::Removed { id } => match first_where(s, is_output(id)) {
            Some(i) => relaid(s.remove(i), i),
            None => s,
        },
        OutputRequest::Resized { id, size } => match first_where(s, is_output(id)) {
            Some(i) => relaid(resized(s, i, size), i + 1),
            None => s,
        },
        OutputRequest::Moved { .. } => s,
    }
}

/// What `request` reports of the outputs.
pub open spec fn output_events(s: Seq<Output>, request: OutputRequest) -> Seq<OutputEvent> {
    match request {
        OutputRequest::Added { id, handle, size } => seq![
            OutputEvent::Added { id, handle, size },
            OutputEvent::Moved { id, position: outputs_after(s, request).last().geometry.position },
        ],
        OutputRequest::Removed { id } => match first_where(s, is_output(id)) {
            Some(i) => relay_events(s.remove(i), i, s.len() - 1),
            None => Seq::empty(),
        },
        OutputRequest::Resized { id, size } => match first_where(s, is_output(id)) {
            Some(i) => seq![OutputEvent::Resized { id, size }] + relay_events(
                resized(s, i, size),
                i + 1,
                s.len() as int,
            ),
            None => Seq::empty(),
        },
        OutputRequest::Moved { .. } => Seq::empty(),
    }
}

/// Keeps the outputs of the compositor.
#[derive(Debug)]
pub struct OutputManager {
    outputs: Vec<Output>,
}

impl View for OutputManager {
    type V = Seq<Output>;

    closed spec fn view(&self) -> Seq<Output> {
        self.outputs@
    }
}

impl OutputManager {
    /// The outputs stand side by side from left to right.
    pub open spec fn wf(&self) -> bool {
        laid_out(self@)
    }

    /// A manager without outputs.
    pub fn new() -> (r: Self)
        ensures
            r@ == Seq::<Output>::empty(),
            r.wf(),
    {
        proof {
            reveal(laid_out);
        }
        Self { outputs: Vec::new() }
    }

    /// Does what `request` asks and reports what came of it. A request to
    /// move an output does nothing: outputs stand where the layout puts them.
    pub fn handle(&mut self, request: OutputRequest) -> (events: Vec<OutputEvent>)
        ensures
            final(self)@ == outputs_after(old(self)@, request),
            events@ == output_events(old(self)@, request),
            old(self).wf() ==> final(self).wf(),
    {
        match request {
            OutputRequest::Added { id, handle, size } => self.add_output(id, handle, size),
            OutputRequest::Removed { id } => self.del_output(id),
            OutputRequest::Resized { id, size } => self.resize_output(id, size),
            OutputRequest::Moved { .. } => Vec::new(),
        }
    }

    /// Adds an output of size `size` right of the last one. Reports the
    /// addition, then where the output stands.
    pub fn add_output(&mut self, id: usize, handle: RenderSurface, size: Size2D) -> (events: Vec<
        OutputEvent,
    >)
        ensures
            final(self)@ == old(self)@.push(
                Output {
                    id,
                    geometry: Rectangle {
                        position: Position2D {
                            x: if old(self)@.len() == 0 {
                                0
                            } else {
                                old(self)@.last().geometry.spec_x_offset()
                            },
                            y: 0,
                        },
                        size,
                    },
                },
            ),
            events@ == seq![
                OutputEvent::Added { id, handle, size },
                OutputEvent::Moved { id, position: final(self)@.last().geometry.position },
            ],
            old(self).wf() ==> final(self).wf(),
    {
        let x_offset: i32 = if self.outputs.len() == 0 {
            0
        } else {
            self.outputs[self.outputs.len() - 1].geometry.x_offset()
        };
        let position = Position2D { x: x_offset, y: 0 };
        proof {
            if old(self).wf() {
                lemma_pushed_laid_out(old(self)@, id, size);
            }
        }
        self.outputs.push(Output::new(id, Rectangle { position, size }));
        let mut events: Vec<OutputEvent> = Vec::new();
        events.push(OutputEvent::Added { id, handle, size });
        events.push(OutputEvent::Moved { id, position });
        events
    }

    /// Drops the first output with this id and closes the gap: the outputs
    /// after it are laid out anew. Reports each output that moved; nothing
    /// where there is no such output.
    pub fn del_output(&mut self, id: usize) -> (events: Vec<OutputEvent>)
        ensures
            match first_where(old(self)@, is_output(id)) {
                Some(i) => {
                    &&& final(self)@ == relaid(old(self)@.remove(i), i)
                    &&& events@ == relay_events(
                        old(self)@.remove(i),
                        i,
                        old(self)@.len() - 1,
                    )
                },
                None => final(self)@ == old(self)@ && events@ == Seq::<OutputEvent>::empty(),
            },
            old(self).wf() ==> final(self).wf(),
    {
        proof {
            lemma_first_where(self@, is_output(id));
        }
        match self.find(id) {
            Some(i) => {
                self.outputs.remove(i);
                proof {
                    if old(self).wf() {
                        lemma_removed_relaid(old(self)@, i as int);
                    }
                }
                update_offset(&mut self.outputs, i)
            },
            None => Vec::new(),
        }
    }

    /// Gives the first output with this id the size `size`; the outputs
    /// after it are laid out anew. Reports the new size, then each output
    /// that moved; nothing where there is no such output.
    pub fn resize_output(&mut self, id: usize, size: Size2D) -> (events: Vec<OutputEvent>)
        ensures
            match first_where(old(self)@, is_output(id)) {
                Some(i) => {
                    &&& final(self)@ == relaid(resized(old(self)@, i, size), i + 1)
                    &&& events@ == seq![OutputEvent::Resized { id, size }] + relay_events(
                        resized(old(self)@, i, size),
                        i + 1,
                        old(self)@.len() as int,
                    )
                },
                None => final(self)@ == old(self)@ && events@ == Seq::<OutputEvent>::empty(),
            },
            old(self).wf() ==> final(self).wf(),
    {
        proof {
            lemma_first_where(self@, is_output(id));
        }
        match self.find(id) {
            Some(i) => {
                let current = self.outputs[i];
                self.outputs[i] = Output {
                    id: current.id,
                    geometry: Rectangle { position: current.geometry.position, size },
                };
                let mut events: Vec<OutputEvent> = Vec::new();
                events.push(OutputEvent::Resized { id: current.id, size });
                proof {
                    assert(self@ =~= resized(old(self)@, i as int, size));
                    if old(self).wf() {
                        lemma_resized_prefix(old(self)@, i as int, size);
                    }
                }
                let len = self.outputs.len();
                assert(i < len);
                let mut moves = update_offset(&mut self.outputs, i + 1);
                events.append(&mut moves);
                events
            },
            None => Vec::new(),
        }
    }

    /// The point of the compositor space that lies at `position` on the
    /// first output with this id; `None` where there is no such output.
    pub fn relative_to_absolute(&self, id: usize, position: Position2D) -> (r: Option<Position2D>)
        ensures
            r == match first_where(self@, is_output(id)) {
                Some(i) => Some(
                    Position2D {
                        x: wrap_i32(self@[i].geometry.position.x + position.x),
                        y: wrap_i32(self@[i].geometry.position.y + position.y),
                    },
                ),
                None => None,
            },
    {
        proof {
            lemma_first_where(self@, is_output(id));
        }
        match self.find(id) {
            Some(i) => {
                let origin = self.outputs[i].geometry.position;
                Some(
                    Position2D {
                        x: to_i32(origin.x as i64 + position.x as i64),
                        y: to_i32(origin.y as i64 + position.y as i64),
                    },
                )
            },
            None => None,
        }
    }

    /// The first output with this id, with its index.
    pub fn output_ref(&self, id: usize) -> (r: Option<(usize, &Output)>)
        ensures
            match r {
                Some(found) => first_where(self@, is_output(id)) == Some(found.0 as int)
                    && *found.1 == self@[found.0 as int],
                None => first_where(self@, is_output(id)) is None,
            },
    {
        proof {
            lemma_first_where(self@, is_output(id));
        }
        match self.find(id) {
            Some(i) => Some((i, &self.outputs[i])),
            None => None,
        }
    }

    /// The outputs, from left to right.
    pub fn outputs_ref(&self) -> (r: &Vec<Output>)
        ensures
            r@ == self@,
    {
        &self.outputs
    }

    /// The size for a new surface: half of the first output each way, or
    /// 200 by 200 without outputs.
    pub fn get_surface_optimal_size(&self) -> (r: Size2D)
        ensures
            r == optimal_size(self@),
    {
        if self.outputs.len() == 0 {
            Size2D { width: 200, height: 200 }
        } else {
            Size2D {
                width: self.outputs[0].geometry.size.width / 2,
                height: self.outputs[0].geometry.size.height / 2,
            }
        }
    }

    /// Where a new surface of size `size` is centred on the first output,
    /// not left of or above the origin; the origin without outputs.
    pub fn get_surface_optimal_position(&self, size: &Size2D) -> (r: Position2D)
        ensures
            r == optimal_position(self@, *size),
    {
        if self.outputs.len() == 0 {
            Position2D { x: 0, y: 0 }
        } else {
            let output = self.outputs[0].geometry.size;
            let x: i64 = (output.width / 2) as i64 - (size.width / 2) as i64;
            let y: i64 = (output.height / 2) as i64 - (size.height / 2) as i64;
            Position2D {
                x: if x < 0 {
                    0
                } else {
                    x as i32
                },
                y: if y < 0 {
                    0
                } else {
                    y as i32
                },
            }
        }
    }

    /// The first output that shows `position`.
    pub fn get_output_at(&self, position: &Position2D) -> (r: Option<&Output>)
        ensures
            match r {
                Some(output) => first_where(self@, shows(*position)) matches Some(i) && *output
                    == self@[i],
                None => first_where(self@, shows(*position)) is None,
            },
    {
        let mut i: usize = 0;
        while i < self.outputs.len()
            invariant
                i <= self.outputs@.len(),
                forall|k: int| 0 <= k < i ==> !shows(*position)(#[trigger] self@[k]),
            decreases self.outputs@.len() - i,
        {
            if self.outputs[i].geometry.contains(position) {
                proof {
                    lemma_first_where_is(self@, shows(*position), i as int);
                }
                return Some(&self.outputs[i]);
            }
            i = i + 1;
        }
        proof {
            lemma_first_where_none(self@, shows(*position));
        }
        None
    }

    /// The index of the first output with this id.
    fn find(&self, id: usize) -> (r: Option<usize>)
        ensures
            match r {
                Some(i) => first_where(self@, is_output(id)) == Some(i as int),
                None => first_where(self@, is_output(id)) is None,
            },
    {
        let mut i: usize = 0;
        while i < self.outputs.len()
            invariant
                i <= self.outputs@.len(),
                forall|k: int| 0 <= k < i ==> !is_output(id)(#[trigger] self@[k]),
            decreases self.outputs@.len() - i,
        {
            if self.outputs[i].id == id {
                proof {
                    lemma_first_where_is(self@, is_output(id), i as int);
                }
                return Some(i);
            }
            i = i + 1;
        }
        proof {
            lemma_first_where_none(self@, is_output(id));
        }
        None
    }
}

} // verus!

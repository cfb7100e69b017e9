//! The seat manager: the seats of the compositor, each with the keyboard
//! and the pointer it may have.

use crate::geometry::Position2D;
use crate::search::{first_where, lemma_first_where, lemma_first_where_is, lemma_first_where_none};
use vstd::prelude::*;

verus! {

/// Whether a key or a button went down or up.
#[derive(Clone, Copy, Debug, PartialEq, Eq, Structural)]
pub enum State {
    Down,
    Up,
}

/// A key, by the symbol that the platform gives it.
#[derive(Clone, Copy, Debug, PartialEq, Eq, Structural)]
pub struct Key {
    pub symbol: u32,
}

/// A pointer button, by the symbol that the platform gives it.
#[derive(Clone, Copy, Debug, PartialEq, Eq, Structural)]
pub struct Button {
    pub symbol: u32,
}

/// What produced a scroll.
#[derive(Clone, Copy, Debug, PartialEq, Eq, Structural)]
pub enum AxisSource {
    Wheel,
}

/// The direction of a scroll.
#[derive(Clone, Copy, Debug, PartialEq, Eq, Structural)]
pub enum AxisDirection {
    Horizontal,
    Vertical,
}

/// How far a scroll went: in steps, or in a measure that is not passed on.
#[derive(Clone, Copy, Debug, PartialEq, Eq, Structural)]
pub enum AxisValue {
    Discrete(i32),
    Continuous,
}

/// What is asked of the pointer of a seat.
#[derive(Clone, Copy, Debug, PartialEq, Eq)]
pub enum CursorRequest {
    Added { id: usize, position: Position2D, image: Option<usize> },
    Removed { id: usize },
    Moved { id: usize, position: Position2D },
    Button { id: usize, time: u32, code: u32, key: Option<Button>, state: State },
    Axis { id: usize, time: u32, source: AxisSource, direction: AxisDirection, value: AxisValue },
    Focus { id: usize, surface: usize },
    Entered { id: usize, output_id: usize },
    Left { id: usize, output_id: usize },
}

/// What is asked of the keyboard of a seat.
#[derive(Clone, Copy, Debug, PartialEq, Eq)]
#[allow(inconsistent_fields)]
pub enum KeyboardRequest {
    Added { id: usize, rate: i32, delay: i32 },
    Removed { id: usize },
    Key { id: usize, time: u32, code: u32, key: Option<Key>, state: State },
    Focus { id: Option<usize> },
}

/// What is asked of the seat manager.
#[derive(Clone, Debug, PartialEq, Eq)]
pub enum SeatRequest {
    Added { id: usize, name: String },
    Removed { id: usize },
    Cursor(CursorRequest),
    Keyboard(KeyboardRequest),
}

/// What the pointer of a seat reports.
#[derive(Clone, Copy, Debug, PartialEq, Eq)]
pub enum CursorEvent {
    Added { id: usize, position: Position2D, image: Option<usize> },
    Removed { id: usize },
    Moved { id: usize, position: Position2D },
    Button { id: usize, time: u32, code: u32, key: Option<Button>, state: State },
    Axis { id: usize, time: u32, source: AxisSource, direction: AxisDirection, value: AxisValue },
    Focus { id: usize, surface: Option<usize> },
    Entered { id: usize, output_id: usize },
    Left { id: usize, output_id: usize },
}

/// What the keyboard of a seat reports.
#[derive(Clone, Copy, Debug, PartialEq, Eq)]
pub enum KeyboardEvent {
    Added { id: usize, rate: i32, delay: i32 },
    Removed { id: usize },
    Key { id: usize, time: u32, code: u32, key: Option<Key>, state: State },
    Focus { id: usize, surface: Option<usize> },
}

/// What the seat manager reports.
#[derive(Clone, Debug, PartialEq, Eq)]
pub enum SeatEvent {
    Added { id: usize, name: String },
    Removed { id: usize },
    Cursor(CursorEvent),
    Keyboard(KeyboardEvent),
}

/// The pointer of a seat.
#[derive(Clone, Copy, Debug, PartialEq, Eq)]
pub struct Cursor {
    pub position: Position2D,
    /// The surface under the pointer.
    pub focus: Option<usize>,
    pub image: Option<usize>,
    /// The output that the pointer is on.
    pub output: Option<usize>,
}

impl Cursor {
    pub fn position(&self) -> (r: &Position2D)
        ensures
            *r == self.position,
    {
        &self.position
    }

    pub fn focus(&self) -> (r: &Option<usize>)
        ensures
            *r == self.focus,
    {
        &self.focus
    }

    pub fn output(&self) -> (r: &Option<usize>)
        ensures
            *r == self.output,
    {
        &self.output
    }
}

/// The keyboard of a seat.
#[derive(Clone, Copy, Debug, PartialEq, Eq)]
pub struct Keyboard {
    /// The surface that receives the keys.
    pub focus: Option<usize>,
    pub rate: i32,
    pub delay: i32,
}

/// A seat: a group of input devices that one user works with.
#[derive(Debug)]
pub struct Seat {
    pub id: usize,
    pub name: String,
    pub cursor: Option<Cursor>,
    pub keyboard: Option<Keyboard>,
}

/// Whether a seat has this id.
pub open spec fn is_seat(id: usize) -> spec_fn(Seat) -> bool {
    |seat: Seat| seat.id == id
}

/// The pointer of the first seat with this id.
pub open spec fn cursor_of(seats: Seq<Seat>, id: usize) -> Option<Cursor> {
    match first_where(seats, is_seat(id)) {
        Some(i) => seats[i].cursor,
        None => None,
    }
}

/// The keyboard of the first seat with this id.
pub open spec fn keyboard_of(seats: Seq<Seat>, id: usize) -> Option<Keyboard> {
    match first_where(seats, is_seat(id)) {
        Some(i) => seats[i].keyboard,
        None => None,
    }
}

/// The seats with `cursor` as the pointer of the first seat with this id.
pub open spec fn with_cursor(seats: Seq<Seat>, id: usize, cursor: Option<Cursor>) -> Seq<Seat> {
    match first_where(seats, is_seat(id)) {
        Some(i) => seats.update(i, Seat { cursor, ..seats[i] }),
        None => seats,
    }
}

/// The seats with `keyboard` as the keyboard of the first seat with this id.
pub open spec fn with_keyboard(seats: Seq<Seat>, id: usize, keyboard: Option<Keyboard>) -> Seq<
    Seat,
> {
    match first_where(seats, is_seat(id)) {
        Some(i) => seats.update(i, Seat { keyboard, ..seats[i] }),
        None => seats,
    }
}

/// `event` alone where `present` holds, nothing otherwise.
pub open spec fn only_if(present: bool, event: SeatEvent) -> Seq<SeatEvent> {
    if present {
        seq![event]
    } else {
        Seq::empty()
    }
}

/// The seats with the pointer of the first seat with this id changed by
/// `f`, if the seat has a pointer.
pub open spec fn cursor_changed(seats: Seq<Seat>, id: usize, f: spec_fn(Cursor) -> Cursor) -> Seq<
    Seat,
> {
    match cursor_of(seats, id) {
        Some(cursor) => with_cursor(seats, id, Some(f(cursor))),
        None => seats,
    }
}

/// The seats after `request`.
pub open spec fn seats_after(seats: Seq<Seat>, request: SeatRequest) -> Seq<Seat> {
    match request {
        SeatRequest::Added { id, name } => seats.push(
            Seat { id, name, cursor: None, keyboard: None },
        ),
        SeatRequest::Removed { id } => match first_where(seats, is_seat(id)) {
            Some(i) => seats.remove(i),
            None => seats,
        },
        SeatRequest::Keyboard(KeyboardRequest::Added { id, rate, delay }) => with_keyboard(
            seats,
            id,
            Some(Keyboard { focus: None, rate, delay }),
        ),
        SeatRequest::Keyboard(KeyboardRequest::Removed { id }) => with_keyboard(seats, id, None),
        SeatRequest::Keyboard(_) => seats,
        SeatRequest::Cursor(CursorRequest::Added { id, position, image }) => with_cursor(
            seats,
            id,
            Some(Cursor { position, focus: None, image, output: None }),
        ),
        SeatRequest::Cursor(CursorRequest::Removed { id }) => with_cursor(seats, id, None),
        SeatRequest::Cursor(CursorRequest::Moved { id, position }) => cursor_changed(
            seats,
            id,
            |cursor: Cursor| Cursor { position, ..cursor },
        ),
        SeatRequest::Cursor(CursorRequest::Focus { id, surface }) => cursor_changed(
            seats,
            id,
            |cursor: Cursor| Cursor { focus: Some(surface), ..cursor },
        ),
        SeatRequest::Cursor(CursorRequest::Entered { id, output_id }) => cursor_changed(
            seats,
            id,
            |cursor: Cursor| Cursor { output: Some(output_id), ..cursor },
        ),
        SeatRequest::Cursor(_) => seats,
    }
}

/// What `request` reports of the seats.
pub open spec fn seat_events(seats: Seq<Seat>, request: SeatRequest) -> Seq<SeatEvent> {
    match request {
        SeatRequest::Added { id, name } => seq![SeatEvent::Added { id, name }],
        SeatRequest::Removed { id } => only_if(
            first_where(seats, is_seat(id)) is Some,
            SeatEvent::Removed { id },
        ),
        SeatRequest::Keyboard(KeyboardRequest::Added { id, rate, delay }) => only_if(
            first_where(seats, is_seat(id)) is Some,
            SeatEvent::Keyboard(KeyboardEvent::Added { id, rate, delay }),
        ),
        SeatRequest::Keyboard(KeyboardRequest::Removed { id }) => only_if(
            first_where(seats, is_seat(id)) is Some,
            SeatEvent::Keyboard(KeyboardEvent::Removed { id }),
        ),
        SeatRequest::Keyboard(KeyboardRequest::Key { id, time, code, key, state }) => only_if(
            keyboard_of(seats, id) is Some,
            SeatEvent::Keyboard(KeyboardEvent::Key { id, time, code, key, state }),
        ),
        SeatRequest::Keyboard(KeyboardRequest::Focus { .. }) => Seq::empty(),
        SeatRequest::Cursor(CursorRequest::Added { id, position, image }) => only_if(
            first_where(seats, is_seat(id)) is Some,
            SeatEvent::Cursor(CursorEvent::Added { id, position, image }),
        ),
        SeatRequest::Cursor(CursorRequest::Removed { id }) => only_if(
            first_where(seats, is_seat(id)) is Some,
            SeatEvent::Cursor(CursorEvent::Removed { id }),
        ),
        SeatRequest::Cursor(CursorRequest::Moved { id, position }) => only_if(
            cursor_of(seats, id) is Some,
            SeatEvent::Cursor(CursorEvent::Moved { id, position }),
        ),
        SeatRequest::Cursor(CursorRequest::Button { id, time, code, key, state }) => only_if(
            cursor_of(seats, id) is Some,
            SeatEvent::Cursor(CursorEvent::Button { id, time, code, key, state }),
        ),
        SeatRequest::Cursor(CursorRequest::Axis { id, time, source, direction, value }) => only_if(
            cursor_of(seats, id) is Some,
            SeatEvent::Cursor(CursorEvent::Axis { id, time, source, direction, value }),
        ),
        SeatRequest::Cursor(CursorRequest::Focus { id, surface }) => only_if(
            cursor_of(seats, id) matches Some(cursor) && cursor.focus != Some(surface),
            SeatEvent::Cursor(CursorEvent::Focus { id, surface: Some(surface) }),
        ),
        SeatRequest::Cursor(CursorRequest::Entered { id, output_id }) => only_if(
            cursor_of(seats, id) is Some,
            SeatEvent::Cursor(CursorEvent::Entered { id, output_id }),
        ),
        SeatRequest::Cursor(CursorRequest::Left { id, output_id }) => only_if(
            cursor_of(seats, id) is Some,
            SeatEvent::Cursor(CursorEvent::Left { id, output_id }),
        ),
    }
}

/// The pointer that was given to the first seat with an id is the pointer of
/// the first seat with that id.
pub proof fn lemma_cursor_given(seats: Seq<Seat>, id: usize, cursor: Option<Cursor>)
    requires
        first_where(seats, is_seat(id)) is Some,
    ensures
        cursor_of(with_cursor(seats, id, cursor), id) == cursor,
        first_where(with_cursor(seats, id, cursor), is_seat(id)) == first_where(
            seats,
            is_seat(id),
        ),
{
    let after = with_cursor(seats, id, cursor);
    lemma_first_where(seats, is_seat(id));
    assert forall|k: int| 0 <= k < seats.len() implies is_seat(id)(seats[k]) == is_seat(id)(
        after[k],
    ) by {}
    crate::search::lemma_first_where_same(after, is_seat(id), seats, is_seat(id));
}

/// Keeps the seats of the compositor.
#[derive(Debug)]
pub struct SeatManager {
    seats: Vec<Seat>,
}

impl View for SeatManager {
    type V = Seq<Seat>;

    closed spec fn view(&self) -> Seq<Seat> {
        self.seats@
    }
}

impl SeatManager {
    /// A manager without seats.
    pub fn new() -> (r: Self)
        ensures
            r@ == Seq::<Seat>::empty(),
    {
        Self { seats: Vec::new() }
    }

    /// The index of the first seat with this id.
    fn find(&self, id: usize) -> (r: Option<usize>)
        ensures
            match r {
                Some(i) => first_where(self@, is_seat(id)) == Some(i as int) && i < self@.len(),
                None => first_where(self@, is_seat(id)) is None,
            },
    {
        let mut i: usize = 0;
        while i < self.seats.len()
            invariant
                i <= self.seats@.len(),
                forall|k: int| 0 <= k < i ==> !is_seat(id)(#[trigger] self@[k]),
            decreases self.seats@.len() - i,
        {
            if self.seats[i].id == id {
                proof {
                    lemma_first_where_is(self@, is_seat(id), i as int);
                }
                return Some(i);
            }
            i = i + 1;
        }
        proof {
            lemma_first_where_none(self@, is_seat(id));
        }
        None
    }

    /// Sets the pointer of the first seat with this id, if there is one.
    fn set_cursor(&mut self, id: usize, cursor: Option<Cursor>)
        ensures
            final(self)@ == with_cursor(old(self)@, id, cursor),
    {
        match self.find(id) {
            Some(i) => {
                self.seats[i].cursor = cursor;
                assert(self@ =~= with_cursor(old(self)@, id, cursor));
            },
            None => {},
        }
    }

    /// Sets the keyboard of the first seat with this id, if there is one.
    fn set_keyboard(&mut self, id: usize, keyboard: Option<Keyboard>)
        ensures
            final(self)@ == with_keyboard(old(self)@, id, keyboard),
    {
        match self.find(id) {
            Some(i) => {
                self.seats[i].keyboard = keyboard;
                assert(self@ =~= with_keyboard(old(self)@, id, keyboard));
            },
            None => {},
        }
    }

    /// Does what `request` asks and reports what came of it. A request to
    /// turn the keyboard does nothing by itself: the keyboard follows the
    /// pointer's buttons.
    pub fn handle(&mut self, request: SeatRequest) -> (events: Vec<SeatEvent>)
        ensures
            final(self)@ == seats_after(old(self)@, request),
            events@ == seat_events(old(self)@, request),
    {
        match request {
            SeatRequest::Added { id, name } => self.add_seat(id, name),
            SeatRequest::Removed { id } => self.del_seat(id),
            SeatRequest::Keyboard(KeyboardRequest::Added { id, rate, delay }) => self.add_keyboard(
                id,
                rate,
                delay,
            ),
            SeatRequest::Keyboard(KeyboardRequest::Removed { id }) => self.del_keyboard(id),
            SeatRequest::Keyboard(KeyboardRequest::Key { id, time, code, key, state }) => {
                self.keyboard_key(id, time, code, key, state)
            },
            SeatRequest::Keyboard(KeyboardRequest::Focus { .. }) => Vec::new(),
            SeatRequest::Cursor(CursorRequest::Added { id, position, image }) => self.add_cursor(
                id,
                position,
                image,
            ),
            SeatRequest::Cursor(CursorRequest::Removed { id }) => self.del_cursor(id),
            SeatRequest::Cursor(CursorRequest::Moved { id, position }) => self.move_cursor(
                id,
                position,
            ),
            SeatRequest::Cursor(CursorRequest::Button { id, time, code, key, state }) => {
                self.cursor_button(id, time, code, key, state)
            },
            SeatRequest::Cursor(CursorRequest::Axis { id, time, source, direction, value }) => {
                self.cursor_axis(id, time, source, direction, value)
            },
            SeatRequest::Cursor(CursorRequest::Focus { id, surface }) => self.focus_cursor(
                id,
                Some(surface),
            ),
            SeatRequest::Cursor(CursorRequest::Entered { id, output_id }) => self.enter_cursor(
                id,
                output_id,
            ),
            SeatRequest::Cursor(CursorRequest::Left { id, output_id }) => self.left_cursor(
                id,
                output_id,
            ),
        }
    }

    /// The first seat with this id.
    pub fn seat_ref(&self, id: usize) -> (r: Option<&Seat>)
        ensures
            match r {
                Some(seat) => first_where(self@, is_seat(id)) matches Some(i) && *seat == self@[i],
                None => first_where(self@, is_seat(id)) is None,
            },
    {
        match self.find(id) {
            Some(i) => Some(&self.seats[i]),
            None => None,
        }
    }

    /// Adds a seat without devices and reports it.
    pub fn add_seat(&mut self, id: usize, name: String) -> (events: Vec<SeatEvent>)
        ensures
            final(self)@ == old(self)@.push(Seat { id, name, cursor: None, keyboard: None }),
            events@ == seq![SeatEvent::Added { id, name }],
    {
        let mut events: Vec<SeatEvent> = Vec::new();
        events.push(SeatEvent::Added { id, name: name.clone() });
        self.seats.push(Seat { id, name, cursor: None, keyboard: None });
        events
    }

    /// Drops the first seat with this id and reports it; nothing where
    /// there is no such seat.
    pub fn del_seat(&mut self, id: usize) -> (events: Vec<SeatEvent>)
        ensures
            final(self)@ == match first_where(old(self)@, is_seat(id)) {
                Some(i) => old(self)@.remove(i),
                None => old(self)@,
            },
            events@ == only_if(
                first_where(old(self)@, is_seat(id)) is Some,
                SeatEvent::Removed { id },
            ),
    {
        let mut events: Vec<SeatEvent> = Vec::new();
        match self.find(id) {
            Some(i) => {
                self.seats.remove(i);
                events.push(SeatEvent::Removed { id });
            },
            None => {},
        }
        events
    }

    /// The keyboard of the first seat with this id.
    pub fn keyboard_ref(&self, id: usize) -> (r: Option<&Keyboard>)
        ensures
            match r {
                Some(keyboard) => keyboard_of(self@, id) == Some(*keyboard),
                None => keyboard_of(self@, id) is None,
            },
    {
        match self.find(id) {
            Some(i) => self.seats[i].keyboard.as_ref(),
            None => None,
        }
    }

    /// Gives the first seat with this id a keyboard without focus and
    /// reports it; nothing where there is no such seat.
    pub fn add_keyboard(&mut self, id: usize, rate: i32, delay: i32) -> (events: Vec<SeatEvent>)
        ensures
            final(self)@ == with_keyboard(
                old(self)@,
                id,
                Some(Keyboard { focus: None, rate, delay }),
            ),
            events@ == only_if(
                first_where(old(self)@, is_seat(id)) is Some,
                SeatEvent::Keyboard(KeyboardEvent::Added { id, rate, delay }),
            ),
    {
        let mut events: Vec<SeatEvent> = Vec::new();
        if self.find(id).is_some() {
            events.push(SeatEvent::Keyboard(KeyboardEvent::Added { id, rate, delay }));
        }
        self.set_keyboard(id, Some(Keyboard { focus: None, rate, delay }));
        events
    }

    /// Takes the keyboard from the first seat with this id and reports it;
    /// nothing where there is no such seat.
    pub fn del_keyboard(&mut self, id: usize) -> (events: Vec<SeatEvent>)
        ensures
            final(self)@ == with_keyboard(old(self)@, id, None),
            events@ == only_if(
                first_where(old(self)@, is_seat(id)) is Some,
                SeatEvent::Keyboard(KeyboardEvent::Removed { id }),
            ),
    {
        let mut events: Vec<SeatEvent> = Vec::new();
        if self.find(id).is_some() {
            events.push(SeatEvent::Keyboard(KeyboardEvent::Removed { id }));
        }
        self.set_keyboard(id, None);
        events
    }

    /// Turns the keyboard of the first seat with this id to `surface` and
    /// reports it; nothing where the seat has no keyboard.
    pub fn keyboard_focus(&mut self, id: usize, surface: Option<usize>) -> (events: Vec<SeatEvent>)
        ensures
            final(self)@ == match keyboard_of(old(self)@, id) {
                Some(keyboard) => with_keyboard(
                    old(self)@,
                    id,
                    Some(Keyboard { focus: surface, ..keyboard }),
                ),
                None => old(self)@,
            },
            events@ == only_if(
                keyboard_of(old(self)@, id) is Some,
                SeatEvent::Keyboard(KeyboardEvent::Focus { id, surface }),
            ),
    {
        let mut events: Vec<SeatEvent> = Vec::new();
        match self.keyboard_ref(id) {
            Some(keyboard) => {
                let turned = Keyboard { focus: surface, rate: keyboard.rate, delay: keyboard.delay };
                self.set_keyboard(id, Some(turned));
                events.push(SeatEvent::Keyboard(KeyboardEvent::Focus { id, surface }));
            },
            None => {},
        }
        events
    }

    /// Reports a key of the keyboard of the first seat with this id;
    /// nothing where the seat has no keyboard.
    pub fn keyboard_key(
        &mut self,
        id: usize,
        time: u32,
        code: u32,
        key: Option<Key>,
        state: State,
    ) -> (events: Vec<SeatEvent>)
        ensures
            final(self)@ == old(self)@,
            events@ == only_if(
                keyboard_of(old(self)@, id) is Some,
                SeatEvent::Keyboard(KeyboardEvent::Key { id, time, code, key, state }),
            ),
    {
        let mut events: Vec<SeatEvent> = Vec::new();
        if self.keyboard_ref(id).is_some() {
            events.push(SeatEvent::Keyboard(KeyboardEvent::Key { id, time, code, key, state }));
        }
        events
    }

    /// The pointer of the first seat with this id.
    pub fn cursor_ref(&self, id: usize) -> (r: Option<&Cursor>)
        ensures
            match r {
                Some(cursor) => cursor_of(self@, id) == Some(*cursor),
                None => cursor_of(self@, id) is None,
            },
    {
        match self.find(id) {
            Some(i) => self.seats[i].cursor.as_ref(),
            None => None,
        }
    }

    /// Gives the first seat with this id a pointer at `position`, over no
    /// surface and on no output, and reports it; nothing where there is no
    /// such seat.
    pub fn add_cursor(&mut self, id: usize, position: Position2D, image: Option<usize>) -> (events:
        Vec<SeatEvent>)
        ensures
            final(self)@ == with_cursor(
                old(self)@,
                id,
                Some(Cursor { position, focus: None, image, output: None }),
            ),
            events@ == only_if(
                first_where(old(self)@, is_seat(id)) is Some,
                SeatEvent::Cursor(CursorEvent::Added { id, position, image }),
            ),
    {
        let mut events: Vec<SeatEvent> = Vec::new();
        if self.find(id).is_some() {
            events.push(SeatEvent::Cursor(CursorEvent::Added { id, position, image }));
        }
        self.set_cursor(id, Some(Cursor { position, focus: None, image, output: None }));
        events
    }

    /// Takes the pointer from the first seat with this id and reports it;
    /// nothing where there is no such seat.
    pub fn del_cursor(&mut self, id: usize) -> (events: Vec<SeatEvent>)
        ensures
            final(self)@ == with_cursor(old(self)@, id, None),
            events@ == only_if(
                first_where(old(self)@, is_seat(id)) is Some,
                SeatEvent::Cursor(CursorEvent::Removed { id }),
            ),
    {
        let mut events: Vec<SeatEvent> = Vec::new();
        if self.find(id).is_some() {
            events.push(SeatEvent::Cursor(CursorEvent::Removed { id }));
        }
        self.set_cursor(id, None);
        events
    }

    /// Records that the pointer of the first seat with this id is on the
    /// output `output_id` and reports it; nothing where the seat has no
    /// pointer.
    pub fn enter_cursor(&mut self, id: usize, output_id: usize) -> (events: Vec<SeatEvent>)
        ensures
            final(self)@ == match cursor_of(old(self)@, id) {
                Some(cursor) => with_cursor(
                    old(self)@,
                    id,
                    Some(Cursor { output: Some(output_id), ..cursor }),
                ),
                None => old(self)@,
            },
            events@ == only_if(
                cursor_of(old(self)@, id) is Some,
                SeatEvent::Cursor(CursorEvent::Entered { id, output_id }),
            ),
    {
        let mut events: Vec<SeatEvent> = Vec::new();
        match self.cursor_ref(id) {
            Some(cursor) => {
                let entered = Cursor {
                    position: cursor.position,
                    focus: cursor.focus,
                    image: cursor.image,
                    output: Some(output_id),
                };
                self.set_cursor(id, Some(entered));
                events.push(SeatEvent::Cursor(CursorEvent::Entered { id, output_id }));
            },
            None => {},
        }
        events
    }

    /// Reports that the pointer of the first seat with this id left the
    /// output `output_id`; nothing where the seat has no pointer. The
    /// pointer keeps the output it was on until it enters another.
    pub fn left_cursor(&mut self, id: usize, output_id: usize) -> (events: Vec<SeatEvent>)
        ensures
            final(self)@ == old(self)@,
            events@ == only_if(
                cursor_of(old(self)@, id) is Some,
                SeatEvent::Cursor(CursorEvent::Left { id, output_id }),
            ),
    {
        let mut events: Vec<SeatEvent> = Vec::new();
        if self.cursor_ref(id).is_some() {
            events.push(SeatEvent::Cursor(CursorEvent::Left { id, output_id }));
        }
        events
    }

    /// Puts the pointer of the first seat with this id at `position` and
    /// reports it; nothing where the seat has no pointer. The surface
    /// under the pointer is not looked up here.
    pub fn move_cursor(&mut self, id: usize, position: Position2D) -> (events: Vec<SeatEvent>)
        ensures
            final(self)@ == match cursor_of(old(self)@, id) {
                Some(cursor) => with_cursor(old(self)@, id, Some(Cursor { position, ..cursor })),
                None => old(self)@,
            },
            events@ == only_if(
                cursor_of(old(self)@, id) is Some,
                SeatEvent::Cursor(CursorEvent::Moved { id, position }),
            ),
    {
        let mut events: Vec<SeatEvent> = Vec::new();
        match self.cursor_ref(id) {
            Some(cursor) => {
                let moved = Cursor {
                    position,
                    focus: cursor.focus,
                    image: cursor.image,
                    output: cursor.output,
                };
                self.set_cursor(id, Some(moved));
                events.push(SeatEvent::Cursor(CursorEvent::Moved { id, position }));
            },
            None => {},
        }
        events
    }

    /// Records `surface` as the surface under the pointer of the first seat
    /// with this id, and reports it if it was another before; nothing where
    /// the seat has no pointer.
    pub fn focus_cursor(&mut self, id: usize, surface: Option<usize>) -> (events: Vec<SeatEvent>)
        ensures
            final(self)@ == match cursor_of(old(self)@, id) {
                Some(cursor) => with_cursor(
                    old(self)@,
                    id,
                    Some(Cursor { focus: surface, ..cursor }),
                ),
                None => old(self)@,
            },
            events@ == only_if(
                cursor_of(old(self)@, id) matches Some(cursor) && cursor.focus != surface,
                SeatEvent::Cursor(CursorEvent::Focus { id, surface }),
            ),
    {
        let mut events: Vec<SeatEvent> = Vec::new();
        match self.cursor_ref(id) {
            Some(cursor) => {
                let same = match (cursor.focus, surface) {
                    (Some(a), Some(b)) => a == b,
                    (None, None) => true,
                    _ => false,
                };
                let focused = Cursor {
                    position: cursor.position,
                    focus: surface,
                    image: cursor.image,
                    output: cursor.output,
                };
                self.set_cursor(id, Some(focused));
                if !same {
                    events.push(SeatEvent::Cursor(CursorEvent::Focus { id, surface }));
                }
            },
            None => {},
        }
        events
    }

    /// Reports a button of the pointer of the first seat with this id;
    /// nothing where the seat has no pointer.
    pub fn cursor_button(
        &mut self,
        id: usize,
        time: u32,
        code: u32,
        key: Option<Button>,
        state: State,
    ) -> (events: Vec<SeatEvent>)
        ensures
            final(self)@ == old(self)@,
            events@ == only_if(
                cursor_of(old(self)@, id) is Some,
                SeatEvent::Cursor(CursorEvent::Button { id, time, code, key, state }),
            ),
    {
        let mut events: Vec<SeatEvent> = Vec::new();
        if self.cursor_ref(id).is_some() {
            events.push(SeatEvent::Cursor(CursorEvent::Button { id, time, code, key, state }));
        }
        events
    }

    /// Reports a scroll of the pointer of the first seat with this id;
    /// nothing where the seat has no pointer.
    pub fn cursor_axis(
        &mut self,
        id: usize,
        time: u32,
        source: AxisSource,
        direction: AxisDirection,
        value: AxisValue,
    ) -> (events: Vec<SeatEvent>)
        ensures
            final(self)@ == old(self)@,
            events@ == only_if(
                cursor_of(old(self)@, id) is Some,
                SeatEvent::Cursor(CursorEvent::Axis { id, time, source, direction, value }),
            ),
    {
        let mut events: Vec<SeatEvent> = Vec::new();
        if self.cursor_ref(id).is_some() {
            events.push(
                SeatEvent::Cursor(CursorEvent::Axis { id, time, source, direction, value }),
            );
        }
        events
    }
}

impl From<CursorRequest> for SeatRequest {
    fn from(request: CursorRequest) -> (r: Self)
        ensures
            r == SeatRequest::Cursor(request),
    {
        SeatRequest::Cursor(request)
    }
}

impl vstd::std_specs::convert::FromSpecImpl<CursorRequest> for SeatRequest {
    open spec fn obeys_from_spec() -> bool {
        true
    }

    open spec fn from_spec(request: CursorRequest) -> Self {
        SeatRequest::Cursor(request)
    }
}

impl From<CursorEvent> for SeatEvent {
    fn from(event: CursorEvent) -> (r: Self)
        ensures
            r == SeatEvent::Cursor(event),
    {
        SeatEvent::Cursor(event)
    }
}

impl vstd::std_specs::convert::FromSpecImpl<CursorEvent> for SeatEvent {
    open spec fn obeys_from_spec() -> bool {
        true
    }

    open spec fn from_spec(event: CursorEvent) -> Self {
        SeatEvent::Cursor(event)
    }
}

} // verus!

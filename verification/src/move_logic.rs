//! The pointer grab of an interactive move: while it lasts, the grabbed
//! surface follows the pointer.

use crate::geometry::{wrap_i32, Position2D};
use crate::geometry_manager::WCompRequest;
use crate::resize_logic::{ButtonState, GrabStartData};
use crate::surface::SurfaceRequest;
use vstd::prelude::*;

verus! {

/// Where a surface goes when the pointer is at `location`, the pointer was
/// at `start` when the grab started and the surface stood at `origin` then:
/// the pointer keeps its place on the surface.
pub open spec fn dragged_position(location: Position2D, start: Position2D, origin: Position2D)
    -> Position2D {
    Position2D {
        x: wrap_i32(location.x - (start.x - origin.x)),
        y: wrap_i32(location.y - (start.y - origin.y)),
    }
}

/// The grab of an interactive move.
#[derive(Clone, Copy, Debug, PartialEq, Eq)]
pub struct MoveLogic {
    pub start_data: GrabStartData,
}

impl MoveLogic {
    /// What a motion of the pointer to `location` asks for: the move of the
    /// surface that was under the pointer when the grab started. Nothing
    /// where no surface was.
    pub open spec fn motion_requests(self, location: Position2D) -> Seq<WCompRequest> {
        match self.start_data.focus {
            Some(focus) => seq![
                WCompRequest::Surface {
                    request: SurfaceRequest::Move {
                        id: focus.0.id,
                        position: dragged_position(location, self.start_data.location, focus.1),
                    },
                },
            ],
            None => Seq::empty(),
        }
    }

    /// Whether this change of a button ends the grab: the button that
    /// started it is released.
    pub open spec fn ends(self, button: u32, state: ButtonState) -> bool {
        button == self.start_data.button && state == ButtonState::Released
    }

    pub fn new(start_data: GrabStartData) -> (r: Self)
        ensures
            r.start_data == start_data,
    {
        Self { start_data }
    }

    /// The pointer went to `location`: asks for the move that follows.
    pub fn motion(&mut self, requests: &mut Vec<WCompRequest>, location: Position2D)
        ensures
            *final(self) == *old(self),
            final(requests)@ == old(requests)@ + old(self).motion_requests(location),
    {
        match self.start_data.focus {
            Some((focus, origin)) => {
                let offset = self.start_data.location.offset_from(origin);
                let position = location.minus(offset);
                proof {
                    crate::geometry::lemma_wrap_absorb(
                        -(self.start_data.location.x - origin.x),
                        location.x as int,
                    );
                    crate::geometry::lemma_wrap_absorb(
                        -(self.start_data.location.y - origin.y),
                        location.y as int,
                    );
                    lemma_wrap_negated(self.start_data.location.x - origin.x, location.x as int);
                    lemma_wrap_negated(self.start_data.location.y - origin.y, location.y as int);
                }
                requests.push(
                    WCompRequest::Surface {
                        request: SurfaceRequest::Move { id: focus.id, position },
                    },
                );
                assert(requests@ =~= old(requests)@ + old(self).motion_requests(location));
            },
            None => {
                assert(requests@ =~= old(requests)@ + old(self).motion_requests(location));
            },
        }
    }

    /// A button changed: when the button that started the grab is released
    /// the grab ends. Says whether it ends.
    pub fn button(&mut self, button: u32, state: ButtonState) -> (released: bool)
        ensures
            *final(self) == *old(self),
            released == old(self).ends(button, state),
    {
        match state {
            ButtonState::Released => button == self.start_data.button,
            ButtonState::Pressed => false,
        }
    }

    /// A scroll during the grab: nothing follows from it.
    pub fn axis(&mut self)
        ensures
            *final(self) == *old(self),
    {
    }

    pub fn start_data(&self) -> (r: &GrabStartData)
        ensures
            *r == self.start_data,
    {
        &self.start_data
    }
}

/// Taking away a wrapped difference is taking away the difference.
pub proof fn lemma_wrap_negated(d: int, b: int)
    ensures
        wrap_i32(b - wrap_i32(d)) == wrap_i32(b - d),
{
    let r = crate::geometry::range32();
    assert((b - (d % r)) % r == (b - d) % r) by (nonlinear_arith)
        requires
            r == 0x1_0000_0000,
    ;
    assert((b - ((d % r) - r)) % r == (b - d) % r) by (nonlinear_arith)
        requires
            r == 0x1_0000_0000,
    ;
}

} // verus!

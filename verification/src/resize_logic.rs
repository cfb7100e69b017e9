//! The pointer grab of an interactive resize: while it lasts, each motion
//! of the pointer asks for a new inner size of the grabbed toplevel.

use crate::geometry::{to_u32, wrap_u32, Position2D, Rectangle, Size2D};
use crate::geometry_manager::WCompRequest;
use crate::surface::SurfaceRequest;
use crate::surface_state::{ResizeEdge, WlSurface};
use vstd::prelude::*;

verus! {

/// Whether a pointer button is held.
#[derive(Clone, Copy, Debug, PartialEq, Eq, Structural)]
pub enum ButtonState {
    Released,
    Pressed,
}

/// The pointer as it was when a grab started.
#[derive(Clone, Copy, Debug, PartialEq, Eq)]
pub struct GrabStartData {
    /// The surface under the pointer, and where that surface stands.
    pub focus: Option<(WlSurface, Position2D)>,
    /// The button that started the grab.
    pub button: u32,
    /// Where the pointer was.
    pub location: Position2D,
}

/// The inner size that a resize by `edge` asks for when the pointer is at
/// `relative` from the surface's origin and the inner geometry was `inner`
/// when the grab started: the dragged side follows the pointer, the
/// opposite side stays. `None` where no edge is dragged.
pub open spec fn resized_inner(edge: ResizeEdge, inner: Rectangle, relative: Position2D) -> Option<
    Size2D,
> {
    let right = wrap_u32(relative.x - inner.position.x);
    let bottom = wrap_u32(relative.y - inner.position.y);
    let left = wrap_u32(inner.size.width - relative.x + inner.position.x);
    let top = wrap_u32(inner.size.height - relative.y + inner.position.y);
    match edge {
        ResizeEdge::Right => Some(Size2D { width: right, height: inner.size.height }),
        ResizeEdge::Bottom => Some(Size2D { width: inner.size.width, height: bottom }),
        ResizeEdge::BottomRight => Some(Size2D { width: right, height: bottom }),
        ResizeEdge::Left => Some(Size2D { width: left, height: inner.size.height }),
        ResizeEdge::Top => Some(Size2D { width: inner.size.width, height: top }),
        ResizeEdge::TopLeft => Some(Size2D { width: left, height: top }),
        ResizeEdge::TopRight => Some(Size2D { width: right, height: top }),
        ResizeEdge::BottomLeft => Some(Size2D { width: left, height: bottom }),
        ResizeEdge::Unset => None,
    }
}

/// Computes [`resized_inner`].
pub fn resize_inner(edge: ResizeEdge, inner: &Rectangle, relative: Position2D) -> (r: Option<
    Size2D,
>)
    ensures
        r == resized_inner(edge, *inner, relative),
{
    let right = to_u32(relative.x as i64 - inner.position.x as i64);
    let bottom = to_u32(relative.y as i64 - inner.position.y as i64);
    let left = to_u32(inner.size.width as i64 - relative.x as i64 + inner.position.x as i64);
    let top = to_u32(inner.size.height as i64 - relative.y as i64 + inner.position.y as i64);
    match edge {
        ResizeEdge::Right => Some(Size2D { width: right, height: inner.size.height }),
        ResizeEdge::Bottom => Some(Size2D { width: inner.size.width, height: bottom }),
        ResizeEdge::BottomRight => Some(Size2D { width: right, height: bottom }),
        ResizeEdge::Left => Some(Size2D { width: left, height: inner.size.height }),
        ResizeEdge::Top => Some(Size2D { width: inner.size.width, height: top }),
        ResizeEdge::TopLeft => Some(Size2D { width: left, height: top }),
        ResizeEdge::TopRight => Some(Size2D { width: right, height: top }),
        ResizeEdge::BottomLeft => Some(Size2D { width: left, height: bottom }),
        ResizeEdge::Unset => None,
    }
}

/// The grab of an interactive resize.
#[derive(Clone, Copy, Debug, PartialEq, Eq)]
pub struct ResizeLogic {
    pub start_data: GrabStartData,
    /// The toplevel that is resized.
    pub id: usize,
    /// The serial of the resize.
    pub serial: u32,
    /// The inner geometry of the toplevel when the grab started.
    pub inner_geometry: Rectangle,
    pub edge: ResizeEdge,
}

impl ResizeLogic {
    /// What a motion of the pointer to `location` asks for: the new inner
    /// size of the surface that was under the pointer when the grab
    /// started. Nothing where no surface was, or no edge is dragged.
    pub open spec fn motion_requests(self, location: Position2D) -> Seq<WCompRequest> {
        match self.start_data.focus {
            Some(focus) => match resized_inner(
                self.edge,
                self.inner_geometry,
                Position2D {
                    x: location.spec_offset_from(focus.1).x,
                    y: location.spec_offset_from(focus.1).y,
                },
            ) {
                Some(inner_size) => seq![
                    WCompRequest::Surface {
                        request: SurfaceRequest::InteractiveResize {
                            id: focus.0.id,
                            serial: self.serial,
                            inner_size,
                        },
                    },
                ],
                None => Seq::empty(),
            },
            None => Seq::empty(),
        }
    }

    /// Whether this change of a button ends the grab: the button that
    /// started it is released.
    pub open spec fn ends(self, button: u32, state: ButtonState) -> bool {
        button == self.start_data.button && state == ButtonState::Released
    }

    /// Starts the grab, and asks for the start of the resize.
    pub fn new(
        start_data: GrabStartData,
        requests: &mut Vec<WCompRequest>,
        id: usize,
        serial: u32,
        inner_geometry: Rectangle,
        edge: ResizeEdge,
    ) -> (r: Self)
        ensures
            r == (ResizeLogic { start_data, id, serial, inner_geometry, edge }),
            final(requests)@ == old(requests)@.push(
                WCompRequest::Surface {
                    request: SurfaceRequest::InteractiveResizeStart { id, serial, edge },
                },
            ),
    {
        requests.push(
            WCompRequest::Surface {
                request: SurfaceRequest::InteractiveResizeStart { id, serial, edge },
            },
        );
        Self { start_data, id, serial, inner_geometry, edge }
    }

    /// The pointer went to `location`: asks for the inner size that follows.
    pub fn motion(&mut self, requests: &mut Vec<WCompRequest>, location: Position2D)
        ensures
            *final(self) == *old(self),
            final(requests)@ == old(requests)@ + old(self).motion_requests(location),
    {
        match self.start_data.focus {
            Some((focus, position)) => {
                let offset = location.offset_from(position);
                let relative = Position2D { x: offset.x, y: offset.y };
                match resize_inner(self.edge, &self.inner_geometry, relative) {
                    Some(inner_size) => {
                        requests.push(
                            WCompRequest::Surface {
                                request: SurfaceRequest::InteractiveResize {
                                    id: focus.id,
                                    serial: self.serial,
                                    inner_size,
                                },
                            },
                        );
                        assert(requests@ =~= old(requests)@ + old(self).motion_requests(location));
                    },
                    None => {
                        assert(requests@ =~= old(requests)@ + old(self).motion_requests(location));
                    },
                }
            },
            None => {
                assert(requests@ =~= old(requests)@ + old(self).motion_requests(location));
            },
        }
    }

    /// A button changed: when the button that started the grab is released
    /// the grab ends, and the stop of the resize is asked for. Says whether
    /// the grab ends.
    pub fn button(&mut self, requests: &mut Vec<WCompRequest>, button: u32, state: ButtonState) -> (released:
        bool)
        ensures
            *final(self) == *old(self),
            released == old(self).ends(button, state),
            final(requests)@ == if released {
                old(requests)@.push(
                    WCompRequest::Surface {
                        request: SurfaceRequest::InteractiveResizeStop {
                            id: old(self).id,
                            serial: old(self).serial,
                        },
                    },
                )
            } else {
                old(requests)@
            },
    {
        let released = match state {
            ButtonState::Released => button == self.start_data.button,
            ButtonState::Pressed => false,
        };
        if released {
            requests.push(
                WCompRequest::Surface {
                    request: SurfaceRequest::InteractiveResizeStop {
                        id: self.id,
                        serial: self.serial,
                    },
                },
            );
        }
        released
    }

    /// A scroll during the grab: nothing follows from it.
    pub fn axis(&mut self)
        ensures
            *final(self) == *old(self),
    {
    }

    pub fn start_data(&self) -> (r: &GrabStartData)
        ensures
            *r == self.start_data,
    {
        &self.start_data
    }
}

} // verus!

//! The compositor's round: gather what waits, turn it into requests, apply
//! them, and say what is to be done about the events.

use crate::geometry_manager::{
    applied_all, emitted_all, wcomp_request_wf, GeometryManager, GeometryView, WCompEvent,
    WCompRequest,
};
use crate::platform_events::{
    platform_asked_all, platform_requests, process_platform_requests, PlatformEvent,
    PlatformRequest, PlatformType,
};
use crate::wayland_requests::{
    process_wayland_requests, wayland_actions, wayland_queued, wayland_requests, WaylandAction,
    WaylandRequest,
};
use crate::wcomp_events::{any_redraws, effects, process_events, Effect};
use vstd::prelude::*;

verus! {

/// What comes in from outside in one round.
#[derive(Debug)]
pub enum WCompMessage {
    Platform(PlatformEvent),
    Wayland(WaylandRequest),
    Geometry(WCompRequest),
}

impl From<PlatformEvent> for WCompMessage {
    fn from(message: PlatformEvent) -> (r: Self)
        ensures
            r == WCompMessage::Platform(message),
    {
        WCompMessage::Platform(message)
    }
}

impl vstd::std_specs::convert::FromSpecImpl<PlatformEvent> for WCompMessage {
    open spec fn obeys_from_spec() -> bool {
        true
    }

    open spec fn from_spec(message: PlatformEvent) -> Self {
        WCompMessage::Platform(message)
    }
}

impl From<WaylandRequest> for WCompMessage {
    fn from(message: WaylandRequest) -> (r: Self)
        ensures
            r == WCompMessage::Wayland(message),
    {
        WCompMessage::Wayland(message)
    }
}

impl vstd::std_specs::convert::FromSpecImpl<WaylandRequest> for WCompMessage {
    open spec fn obeys_from_spec() -> bool {
        true
    }

    open spec fn from_spec(message: WaylandRequest) -> Self {
        WCompMessage::Wayland(message)
    }
}

impl From<WCompRequest> for WCompMessage {
    fn from(message: WCompRequest) -> (r: Self)
        ensures
            r == WCompMessage::Geometry(message),
    {
        WCompMessage::Geometry(message)
    }
}

impl vstd::std_specs::convert::FromSpecImpl<WCompRequest> for WCompMessage {
    open spec fn obeys_from_spec() -> bool {
        true
    }

    open spec fn from_spec(message: WCompRequest) -> Self {
        WCompMessage::Geometry(message)
    }
}

/// What one round leaves to be done outside.
#[derive(Debug)]
pub struct Outcome {
    /// What the platform is asked.
    pub platform_requests: Vec<PlatformRequest>,
    /// What the protocol layer is asked while requests are gathered.
    pub wayland_actions: Vec<WaylandAction>,
    /// What the render task and the protocol layer do about the events.
    pub effects: Vec<Effect>,
    /// Whether the screen is to be drawn anew.
    pub redraw: bool,
}

/// What is to be done about drawing at the end of a round.
#[derive(Clone, Copy, Debug, PartialEq, Eq)]
pub enum Pace {
    /// Nothing is to be drawn.
    Idle,
    /// Draw now.
    Dispatch,
    /// Draw when this many milliseconds have passed.
    Wait { millis: u64 },
}

/// The milliseconds that a frame lasts at `fps` frames a second.
pub open spec fn frame_millis(fps: usize) -> int {
    if fps == 0 {
        0
    } else {
        1000int / (fps as int)
    }
}

/// What is to be done about drawing: nothing unless something changed; draw
/// once a frame's time has passed since the last drawing, wait for the
/// rest of it otherwise.
pub open spec fn paced(fps: usize, redraw: bool, elapsed_millis: u64) -> Pace {
    if !redraw {
        Pace::Idle
    } else if elapsed_millis >= frame_millis(fps) {
        Pace::Dispatch
    } else {
        Pace::Wait { millis: (frame_millis(fps) - elapsed_millis) as u64 }
    }
}

/// The requests of a round, in the order in which they are applied: those
/// that waited, those from the platform, those from the clients.
pub open spec fn gathered(
    v: GeometryView,
    waiting: Seq<WCompRequest>,
    platform_events: Seq<PlatformEvent>,
    wayland_requests_in: Seq<WaylandRequest>,
) -> Seq<WCompRequest> {
    waiting + platform_requests(v, platform_events, platform_events.len()) + wayland_requests(
        v,
        wayland_requests_in,
        wayland_requests_in.len(),
    )
}

/// Every request of `requests` is well formed.
pub open spec fn all_wf(requests: Seq<WCompRequest>) -> bool {
    forall|k: int| 0 <= k < requests.len() ==> wcomp_request_wf(#[trigger] requests[k])
}

/// What the platform's events turn into is well formed.
pub proof fn lemma_platform_requests_wf(v: GeometryView, events: Seq<PlatformEvent>, n: nat)
    ensures
        all_wf(platform_requests(v, events, n)),
    decreases n,
{
    if n > 0 && n <= events.len() {
        lemma_platform_requests_wf(v, events, (n - 1) as nat);
    }
}

/// What the clients' requests turn into, and what they leave for the next
/// round, is well formed.
pub proof fn lemma_wayland_requests_wf(v: GeometryView, requests: Seq<WaylandRequest>, n: nat)
    ensures
        all_wf(wayland_requests(v, requests, n)),
        all_wf(wayland_queued(v, requests, n)),
    decreases n,
{
    if n > 0 && n <= requests.len() {
        lemma_wayland_requests_wf(v, requests, (n - 1) as nat);
    }
}

/// The model of a [`WComp`].
pub struct WCompView {
    pub fps: usize,
    pub platform_type: PlatformType,
    pub geometry: GeometryView,
    /// The requests that wait for the next round.
    pub async_requests: Seq<WCompRequest>,
}

/// The compositor: its geometry, and the requests that its grabs left for
/// the next round.
#[derive(Debug)]
pub struct WComp {
    fps: usize,
    platform_type: PlatformType,
    geometry_manager: GeometryManager,
    async_requests: Vec<WCompRequest>,
}

impl View for WComp {
    type V = WCompView;

    closed spec fn view(&self) -> WCompView {
        WCompView {
            fps: self.fps,
            platform_type: self.platform_type,
            geometry: self.geometry_manager@,
            async_requests: self.async_requests@,
        }
    }
}

impl WComp {
    /// The geometry is well formed, and so is every request that waits.
    pub open spec fn wf(&self) -> bool {
        &&& crate::geometry_manager::geometry_wf(self@.geometry)
        &&& all_wf(self@.async_requests)
    }

    /// A compositor without seats, surfaces or outputs that draws 60 frames
    /// a second.
    pub fn new(platform_type: PlatformType) -> (r: Self)
        ensures
            r@.fps == 60,
            r@.platform_type == platform_type,
            r@.async_requests == Seq::<WCompRequest>::empty(),
            r@.geometry.next_serial == 0,
            r@.geometry.outputs.len() == 0,
            r@.geometry.seats.len() == 0,
            r@.geometry.surfaces.surfaces.len() == 0,
            r.wf(),
    {
        Self {
            fps: 60,
            platform_type,
            geometry_manager: GeometryManager::new(),
            async_requests: Vec::new(),
        }
    }

    /// The geometry of the compositor.
    pub fn geometry(&self) -> (r: &GeometryManager)
        ensures
            r@ == self@.geometry,
    {
        &self.geometry_manager
    }

    /// Leaves `request` for the next round.
    pub fn push_request(&mut self, request: WCompRequest)
        ensures
            final(self)@ == (WCompView {
                async_requests: old(self)@.async_requests.push(request),
                ..old(self)@
            }),
            old(self).wf() && wcomp_request_wf(request) ==> final(self).wf(),
    {
        self.async_requests.push(request);
    }

    /// Applies `requests` to the geometry, in order, and gives back the events.
    pub fn process_requests(&mut self, requests: Vec<WCompRequest>) -> (events: Vec<WCompEvent>)
        ensures
            final(self)@ == (WCompView {
                geometry: applied_all(old(self)@.geometry, requests@, requests@.len()),
                ..old(self)@
            }),
            events@ == emitted_all(old(self)@.geometry, requests@, requests@.len()),
            old(self).wf() && all_wf(requests@) ==> final(self).wf(),
    {
        self.geometry_manager.process_requests(requests)
    }

    /// Says what `events` make the render task and the protocol layer do,
    /// and whether the screen is to be drawn anew.
    pub fn process_events(&self, events: Vec<WCompEvent>) -> (r: (Vec<Effect>, bool))
        ensures
            r.0@ == effects(self@.geometry, events@, events@.len()),
            r.1 == any_redraws(events@, events@.len()),
    {
        process_events(&self.geometry_manager, events)
    }

    /// One round: the requests that waited, then what the platform reports
    /// and what the clients ask, turned into requests against the geometry
    /// as it is at the start of the round, are applied in that order; what
    /// is to be done about the events is said against the geometry as it
    /// is at the end.
    pub fn process_messages(
        &mut self,
        platform_events: Vec<PlatformEvent>,
        wayland_requests_in: Vec<WaylandRequest>,
    ) -> (outcome: Outcome)
        ensures
            ({
                let v = old(self)@.geometry;
                let requests = gathered(
                    v,
                    old(self)@.async_requests,
                    platform_events@,
                    wayland_requests_in@,
                );
                let events = emitted_all(v, requests, requests.len());
                &&& final(self)@ == (WCompView {
                    geometry: applied_all(v, requests, requests.len()),
                    async_requests: wayland_queued(
                        v,
                        wayland_requests_in@,
                        wayland_requests_in@.len(),
                    ),
                    ..old(self)@
                })
                &&& outcome.platform_requests@ == platform_asked_all(
                    old(self)@.platform_type,
                    platform_events@,
                    platform_events@.len(),
                )
                &&& outcome.wayland_actions@ == wayland_actions(
                    v,
                    wayland_requests_in@,
                    wayland_requests_in@.len(),
                )
                &&& outcome.effects@ == effects(final(self)@.geometry, events, events.len())
                &&& outcome.redraw == any_redraws(events, events.len())
            }),
            old(self).wf() ==> final(self).wf(),
    {
        proof {
            lemma_platform_requests_wf(
                self@.geometry,
                platform_events@,
                platform_events@.len(),
            );
            lemma_wayland_requests_wf(
                self@.geometry,
                wayland_requests_in@,
                wayland_requests_in@.len(),
            );
        }
        let mut requests: Vec<WCompRequest> = Vec::new();
        requests.append(&mut self.async_requests);
        let (mut from_platform, asked) = process_platform_requests(
            &self.geometry_manager,
            self.platform_type,
            platform_events,
        );
        let (mut from_clients, actions) = process_wayland_requests(
            &self.geometry_manager,
            &mut self.async_requests,
            wayland_requests_in,
        );
        requests.append(&mut from_platform);
        requests.append(&mut from_clients);
        assert(self.async_requests@ =~= wayland_queued(
            old(self)@.geometry,
            wayland_requests_in@,
            wayland_requests_in@.len(),
        ));
        let events = self.geometry_manager.process_requests(requests);
        let (effects, redraw) = process_events(&self.geometry_manager, events);
        Outcome { platform_requests: asked, wayland_actions: actions, effects, redraw }
    }

    /// What is to be done about drawing when `elapsed_millis` have passed
    /// since the screen was last drawn.
    pub fn pace(&self, redraw: bool, elapsed_millis: u64) -> (r: Pace)
        ensures
            r == paced(self@.fps, redraw, elapsed_millis),
    {
        if !redraw {
            return Pace::Idle;
        }
        let frame: u64 = if self.fps == 0 {
            0
        } else {
            1000 / (self.fps as u64)
        };
        if elapsed_millis >= frame {
            Pace::Dispatch
        } else {
            Pace::Wait { millis: frame - elapsed_millis }
        }
    }
}

} // verus!

//! Pointer gestures: how buffered pointer motion moves the camera.
//!
//! While the secondary button is down, motion pans the camera in its view
//! plane. While the primary button is down, motion orbits the camera about
//! the world origin. Both gestures read the same queue of motion events, and
//! reading drains it: panning reads first, so in a frame with both buttons
//! down every event pans and none orbits.

use crate::input::{pointer_buttons_of, read_pointer_buttons, PointerButtons};
use crate::transform::{Pivot, TransformOp};
use crate::units::{Angle, Length, MotionDelta, Vector};
use bevy::input::mouse::MouseButton;
use bevy::input::Input;
use vstd::prelude::*;

verus! {

/// `x` limited to the interval from `lo` to `hi`.
pub open spec fn clamp(x: real, lo: real, hi: real) -> real {
    if x < lo {
        lo
    } else if x > hi {
        hi
    } else {
        x
    }
}

/// The translation by which one motion event pans the camera: a tenth of the
/// delta in X and in Y, and nothing in Z.
pub open spec fn pan_vector(delta: MotionDelta) -> Vector {
    Vector::of_units(delta.dx() / 10real, delta.dy() / 10real, 0real)
}

/// The yaw by which one motion event orbits the camera: the horizontal delta
/// over ten, limited to a tenth of a radian either way.
pub open spec fn orbit_angle(delta: MotionDelta) -> Angle {
    Angle::of_radians(clamp(delta.dx() / 10real, -(1real / 10real), 1real / 10real))
}

/// The pan translation of every delta can be counted exactly: it is a tenth
/// of the delta in X and in Y, and nothing in Z.
pub proof fn lemma_pan_is_a_tenth_of_the_delta(delta: MotionDelta)
    ensures
        pan_vector(delta).x.units() == delta.dx() / 10real,
        pan_vector(delta).y.units() == delta.dy() / 10real,
        pan_vector(delta).z.units() == 0real,
{
    Length { raw: delta.x as i64 }.lemma_of_units();
    Length { raw: delta.y as i64 }.lemma_of_units();
    Length { raw: 0 }.lemma_of_units();
}

/// The orbit yaw of every delta can be counted exactly: it is the horizontal
/// delta over ten, clamped to a tenth of a radian either way. So it never
/// leaves that interval, however large the delta.
pub proof fn lemma_orbit_yaw_is_clamped(delta: MotionDelta)
    ensures
        orbit_angle(delta).radians() == clamp(
            delta.dx() / 10real,
            -(1real / 10real),
            1real / 10real,
        ),
        -(1real / 10real) <= orbit_angle(delta).radians() <= 1real / 10real,
{
    let scaled = 300_000 * delta.x;
    let counted = Angle {
        raw: if scaled < -300_000_000 {
            -300_000_000i128
        } else if scaled > 300_000_000 {
            300_000_000i128
        } else {
            scaled as i128
        },
    };
    counted.lemma_of_radians();
}

/// The translation by which `delta` pans the camera.
pub fn pan(delta: MotionDelta) -> (v: Vector)
    ensures
        v == pan_vector(delta),
        v.x.units() == delta.dx() / 10real,
        v.y.units() == delta.dy() / 10real,
        v.z.units() == 0real,
{
    let v = Vector {
        x: Length { raw: delta.x as i64 },
        y: Length { raw: delta.y as i64 },
        z: Length { raw: 0 },
    };
    proof {
        v.x.lemma_of_units();
        v.y.lemma_of_units();
        v.z.lemma_of_units();
    }
    v
}

/// The yaw by which `delta` orbits the camera about the world origin.
pub fn orbit_yaw(delta: MotionDelta) -> (yaw: Angle)
    ensures
        yaw == orbit_angle(delta),
        yaw.radians() == clamp(delta.dx() / 10real, -(1real / 10real), 1real / 10real),
        -(1real / 10real) <= yaw.radians() <= 1real / 10real,
{
    let scaled: i64 = 300_000 * (delta.x as i64);
    let yaw = if scaled < -300_000_000 {
        Angle { raw: -300_000_000 }
    } else if scaled > 300_000_000 {
        Angle { raw: 300_000_000 }
    } else {
        Angle { raw: scaled as i128 }
    };
    proof {
        yaw.lemma_of_radians();
    }
    yaw
}

/// The motion events buffered since the previous frame, oldest first.
///
/// A reader takes all of them at once and leaves the queue empty, so each
/// event reaches at most one reader.
pub struct PointerMotionQueue {
    events: Vec<MotionDelta>,
}

impl View for PointerMotionQueue {
    type V = Seq<MotionDelta>;

    closed spec fn view(&self) -> Seq<MotionDelta> {
        self.events@
    }
}

impl PointerMotionQueue {
    /// An empty queue.
    pub fn new() -> (queue: Self)
        ensures
            queue@ == Seq::<MotionDelta>::empty(),
    {
        PointerMotionQueue { events: Vec::new() }
    }

    /// Buffers `delta` behind the events already queued.
    pub fn push(&mut self, delta: MotionDelta)
        ensures
            final(self)@ == old(self)@.push(delta),
    {
        self.events.push(delta);
    }

    /// The number of buffered events.
    pub fn len(&self) -> (n: usize)
        ensures
            n == self@.len(),
    {
        self.events.len()
    }

    /// Takes every buffered event, in order, and leaves the queue empty.
    pub fn drain(&mut self) -> (events: Vec<MotionDelta>)
        ensures
            events@ == old(self)@,
            final(self)@ == Seq::<MotionDelta>::empty(),
    {
        let mut taken: Vec<MotionDelta> = Vec::new();
        std::mem::swap(&mut self.events, &mut taken);
        taken
    }
}

/// A notification about the primary button. It changes no transform.
#[derive(Clone, Copy, Debug, PartialEq, Eq)]
pub enum PointerNotice {
    /// The primary button went down during this frame.
    PrimaryPressed,
    /// The primary button came up during this frame.
    PrimaryReleased,
}

impl PointerNotice {
    /// The text of the notification.
    pub fn message(self) -> (text: &'static str)
        ensures
            self == PointerNotice::PrimaryPressed ==> text@ == "left mouse just pressed"@,
            self == PointerNotice::PrimaryReleased ==> text@ == "left mouse just released"@,
    {
        match self {
            PointerNotice::PrimaryPressed => "left mouse just pressed",
            PointerNotice::PrimaryReleased => "left mouse just released",
        }
    }
}

/// What one frame of pointer handling asks of the host.
#[derive(Debug, PartialEq, Eq)]
pub struct PointerOutcome {
    /// The operations to apply to the camera's transform, in order.
    pub camera_ops: Vec<TransformOp>,
    /// The notifications to emit, in order.
    pub notices: Vec<PointerNotice>,
}

/// One pan per event, in the order of the events.
pub open spec fn pan_ops(events: Seq<MotionDelta>) -> Seq<TransformOp> {
    Seq::new(events.len(), |i: int| TransformOp::Translate(pan_vector(events[i])))
}

/// One orbit step per event, in the order of the events.
pub open spec fn orbit_ops(events: Seq<MotionDelta>) -> Seq<TransformOp> {
    Seq::new(events.len(), |i: int| TransformOp::Turn(Pivot::WorldY, orbit_angle(events[i])))
}

/// The camera operations of a frame in which `events` are buffered: pans
/// while the secondary button is down; otherwise orbit steps while the
/// primary button is down; otherwise none.
pub open spec fn camera_ops(buttons: PointerButtons, events: Seq<MotionDelta>) -> Seq<TransformOp> {
    if buttons.secondary_held {
        pan_ops(events)
    } else if buttons.primary_held {
        orbit_ops(events)
    } else {
        Seq::empty()
    }
}

/// What the frame leaves in the queue: nothing once a gesture has read it,
/// everything while no button is down.
pub open spec fn undrained(buttons: PointerButtons, events: Seq<MotionDelta>) -> Seq<MotionDelta> {
    if buttons.secondary_held || buttons.primary_held {
        Seq::empty()
    } else {
        events
    }
}

/// The notifications of a frame: a press of the primary button, then a
/// release of it, each if it happened during the frame.
pub open spec fn notices(buttons: PointerButtons) -> Seq<PointerNotice> {
    let pressed = if buttons.primary_just_pressed {
        seq![PointerNotice::PrimaryPressed]
    } else {
        Seq::empty()
    };
    let released = if buttons.primary_just_released {
        seq![PointerNotice::PrimaryReleased]
    } else {
        Seq::empty()
    };
    pressed + released
}

/// Every turn among the camera operations of a frame is an orbit step about
/// the world origin by at most a tenth of a radian, whatever the deltas.
pub proof fn lemma_orbit_steps_are_bounded(
    buttons: PointerButtons,
    events: Seq<MotionDelta>,
    i: int,
)
    requires
        0 <= i < camera_ops(buttons, events).len(),
        camera_ops(buttons, events)[i] is Turn,
    ensures
        camera_ops(buttons, events)[i]->Turn_0 == Pivot::WorldY,
        -(1real / 10real) <= camera_ops(buttons, events)[i]->Turn_1.radians() <= 1real / 10real,
{
    lemma_orbit_yaw_is_clamped(events[i]);
}

/// While the secondary button is down, every buffered event is drained and
/// pans the camera by exactly a tenth of its delta in X and Y, and by nothing
/// in Z.
pub proof fn lemma_every_event_pans_while_secondary_held(
    buttons: PointerButtons,
    events: Seq<MotionDelta>,
    i: int,
)
    requires
        buttons.secondary_held,
        0 <= i < events.len(),
    ensures
        undrained(buttons, events).len() == 0,
        camera_ops(buttons, events).len() == events.len(),
        camera_ops(buttons, events)[i] is Translate,
        camera_ops(buttons, events)[i]->Translate_0.x.units() == events[i].dx() / 10real,
        camera_ops(buttons, events)[i]->Translate_0.y.units() == events[i].dy() / 10real,
        camera_ops(buttons, events)[i]->Translate_0.z.units() == 0real,
{
    lemma_pan_is_a_tenth_of_the_delta(events[i]);
}

/// The edges of the primary button move nothing: frames that differ only in
/// them ask for the same camera operations and leave the same events.
pub proof fn lemma_edges_move_nothing(
    buttons: PointerButtons,
    other: PointerButtons,
    events: Seq<MotionDelta>,
)
    requires
        buttons.primary_held == other.primary_held,
        buttons.secondary_held == other.secondary_held,
    ensures
        camera_ops(buttons, events) == camera_ops(other, events),
        undrained(buttons, events) == undrained(other, events),
{
}

/// No event is read twice and none is lost: every buffered event either
/// gives one camera operation or stays in the queue.
pub proof fn lemma_each_event_is_read_at_most_once(
    buttons: PointerButtons,
    events: Seq<MotionDelta>,
)
    ensures
        camera_ops(buttons, events).len() + undrained(buttons, events).len() == events.len(),
{
}

/// Appends to `ops` one pan per event.
fn push_pans(events: &Vec<MotionDelta>, ops: &mut Vec<TransformOp>)
    ensures
        final(ops)@ == old(ops)@ + pan_ops(events@),
{
    let mut i: usize = 0;
    while i < events.len()
        invariant
            i <= events.len(),
            ops@ == old(ops)@ + pan_ops(events@.take(i as int)),
        decreases events.len() - i,
    {
        ops.push(TransformOp::Translate(pan(events[i])));
        i += 1;
    }
    assert(events@.take(i as int) == events@);
}

/// Appends to `ops` one orbit step per event.
fn push_orbits(events: &Vec<MotionDelta>, ops: &mut Vec<TransformOp>)
    ensures
        final(ops)@ == old(ops)@ + orbit_ops(events@),
{
    let mut i: usize = 0;
    while i < events.len()
        invariant
            i <= events.len(),
            ops@ == old(ops)@ + orbit_ops(events@.take(i as int)),
        decreases events.len() - i,
    {
        ops.push(TransformOp::Turn(Pivot::WorldY, orbit_yaw(events[i])));
        i += 1;
    }
    assert(events@.take(i as int) == events@);
}

/// One frame of pointer handling on a snapshot of the buttons.
///
/// The pan gesture reads the queue first and the orbit gesture second, each
/// only while its button is down. With both down the orbit gesture therefore
/// finds the queue empty. With neither down the queue is left as it was.
pub fn pointer_frame(buttons: PointerButtons, queue: &mut PointerMotionQueue) -> (out:
    PointerOutcome)
    ensures
        out.camera_ops@ == camera_ops(buttons, old(queue)@),
        out.notices@ == notices(buttons),
        final(queue)@ == undrained(buttons, old(queue)@),
{
    let mut ops: Vec<TransformOp> = Vec::new();
    if buttons.secondary_held {
        let events = queue.drain();
        push_pans(&events, &mut ops);
    }
    if buttons.primary_held {
        let events = queue.drain();
        push_orbits(&events, &mut ops);
    }
    let mut emitted: Vec<PointerNotice> = Vec::new();
    if buttons.primary_just_pressed {
        emitted.push(PointerNotice::PrimaryPressed);
    }
    if buttons.primary_just_released {
        emitted.push(PointerNotice::PrimaryReleased);
    }
    PointerOutcome { camera_ops: ops, notices: emitted }
}

/// One frame of pointer handling on the host's button state.
pub fn pointer_frame_from_input(input: &Input<MouseButton>, queue: &mut PointerMotionQueue) -> (out:
    PointerOutcome)
    ensures
        out.camera_ops@ == camera_ops(pointer_buttons_of(*input), old(queue)@),
        out.notices@ == notices(pointer_buttons_of(*input)),
        final(queue)@ == undrained(pointer_buttons_of(*input), old(queue)@),
{
    let buttons = read_pointer_buttons(input);
    pointer_frame(buttons, queue)
}

} // verus!

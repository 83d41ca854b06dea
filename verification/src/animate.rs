//! Continuous rotation of the tagged entities.
//!
//! Every frame turns each entity by an angle in proportion to the time that
//! has passed since the previous frame, so that what an entity has turned by
//! depends on the time alone and not on how it was cut into frames. Nothing
//! accelerates and nothing is clamped.

use crate::transform::{lemma_total_turn_of_concatenation, total_turn, Pivot, TransformOp};
use crate::units::{Angle, ElapsedTime};
use vstd::prelude::*;

verus! {

/// What a frame of length `dt` does to an orbiting, spinning entity: it spins
/// about its own Y axis by as many radians as `dt` has seconds, then circles
/// the world origin by as many again.
pub open spec fn rotator_ops(dt: ElapsedTime) -> Seq<TransformOp> {
    seq![
        TransformOp::Turn(Pivot::OwnY, Angle::of_radians(dt.seconds())),
        TransformOp::Turn(Pivot::WorldY, Angle::of_radians(dt.seconds())),
    ]
}

/// What a frame of length `dt` does to a self-spinning entity: it spins about
/// its own X axis by as many radians as `dt` has seconds, over one and a
/// half, and does nothing else.
pub open spec fn rotator_n_ops(dt: ElapsedTime) -> Seq<TransformOp> {
    seq![TransformOp::Turn(Pivot::OwnX, Angle::of_radians(dt.seconds() / (3real / 2real)))]
}

/// The angles of every frame can be counted exactly, however long the frame.
pub proof fn lemma_frame_angles_are_exact(dt: ElapsedTime)
    ensures
        Angle::of_radians(dt.seconds()).radians() == dt.seconds(),
        Angle::of_radians(dt.seconds() / (3real / 2real)).radians() == dt.seconds() / (3real
            / 2real),
{
    Angle { raw: (3 * dt.nanos) as i128 }.lemma_of_radians();
    Angle { raw: (2 * dt.nanos) as i128 }.lemma_of_radians();
}

/// The operations of one frame for an entity tagged as orbiting and
/// spinning.
pub fn rotate(dt: ElapsedTime) -> (ops: Vec<TransformOp>)
    ensures
        ops@ == rotator_ops(dt),
        ops@.len() == 2,
        ops@[0] matches TransformOp::Turn(pivot, angle) && pivot == Pivot::OwnY && angle.radians()
            == dt.seconds(),
        ops@[1] matches TransformOp::Turn(pivot, angle) && pivot == Pivot::WorldY && angle.radians()
            == dt.seconds(),
{
    let angle = Angle { raw: 3 * (dt.nanos as i128) };
    proof {
        angle.lemma_of_radians();
    }
    let mut ops: Vec<TransformOp> = Vec::new();
    ops.push(TransformOp::Turn(Pivot::OwnY, angle));
    ops.push(TransformOp::Turn(Pivot::WorldY, angle));
    ops
}

/// The operations of one frame for an entity tagged as self-spinning.
pub fn rotate_n(dt: ElapsedTime) -> (ops: Vec<TransformOp>)
    ensures
        ops@ == rotator_n_ops(dt),
        ops@.len() == 1,
        ops@[0] matches TransformOp::Turn(pivot, angle) && pivot == Pivot::OwnX && angle.radians()
            == dt.seconds() / (3real / 2real),
{
    let angle = Angle { raw: 2 * (dt.nanos as i128) };
    proof {
        angle.lemma_of_radians();
    }
    let mut ops: Vec<TransformOp> = Vec::new();
    ops.push(TransformOp::Turn(Pivot::OwnX, angle));
    ops
}

/// The time that a sequence of frames spans, in seconds.
pub open spec fn total_seconds(frames: Seq<ElapsedTime>) -> real
    decreases frames.len(),
{
    if frames.len() == 0 {
        0real
    } else {
        total_seconds(frames.drop_last()) + frames.last().seconds()
    }
}

/// Every operation that a sequence of frames asks of an orbiting, spinning
/// entity, in order.
pub open spec fn rotator_run(frames: Seq<ElapsedTime>) -> Seq<TransformOp>
    decreases frames.len(),
{
    if frames.len() == 0 {
        Seq::empty()
    } else {
        rotator_run(frames.drop_last()) + rotator_ops(frames.last())
    }
}

/// Every operation that a sequence of frames asks of a self-spinning entity,
/// in order.
pub open spec fn rotator_n_run(frames: Seq<ElapsedTime>) -> Seq<TransformOp>
    decreases frames.len(),
{
    if frames.len() == 0 {
        Seq::empty()
    } else {
        rotator_n_run(frames.drop_last()) + rotator_n_ops(frames.last())
    }
}

/// What one frame turns an orbiting, spinning entity by: its length in
/// radians about the entity's own Y axis, as much again around the world
/// origin, and nothing about the entity's own X axis.
pub proof fn lemma_rotator_frame_turn(dt: ElapsedTime)
    ensures
        total_turn(rotator_ops(dt), Pivot::OwnY) == dt.seconds(),
        total_turn(rotator_ops(dt), Pivot::WorldY) == dt.seconds(),
        total_turn(rotator_ops(dt), Pivot::OwnX) == 0real,
{
    lemma_frame_angles_are_exact(dt);
    let ops = rotator_ops(dt);
    let spin = seq![TransformOp::Turn(Pivot::OwnY, Angle::of_radians(dt.seconds()))];
    assert(ops.drop_last() == spin);
    assert(spin.drop_last() == Seq::<TransformOp>::empty());
    reveal_with_fuel(total_turn, 3);
}

/// What one frame turns a self-spinning entity by: its length over one and a
/// half, in radians about the entity's own X axis, and nothing else.
pub proof fn lemma_rotator_n_frame_turn(dt: ElapsedTime)
    ensures
        total_turn(rotator_n_ops(dt), Pivot::OwnX) == dt.seconds() / (3real / 2real),
        total_turn(rotator_n_ops(dt), Pivot::OwnY) == 0real,
        total_turn(rotator_n_ops(dt), Pivot::WorldY) == 0real,
{
    lemma_frame_angles_are_exact(dt);
    let ops = rotator_n_ops(dt);
    assert(ops.drop_last() == Seq::<TransformOp>::empty());
    reveal_with_fuel(total_turn, 2);
}

/// Over any sequence of frames an orbiting, spinning entity has spun about
/// its own Y axis by as many radians as the frames span seconds, and has
/// circled the world origin by as many again.
pub proof fn lemma_rotator_turn_is_the_time(frames: Seq<ElapsedTime>)
    ensures
        total_turn(rotator_run(frames), Pivot::OwnY) == total_seconds(frames),
        total_turn(rotator_run(frames), Pivot::WorldY) == total_seconds(frames),
        total_turn(rotator_run(frames), Pivot::OwnX) == 0real,
    decreases frames.len(),
{
    if frames.len() > 0 {
        let earlier = rotator_run(frames.drop_last());
        let last = rotator_ops(frames.last());
        lemma_rotator_turn_is_the_time(frames.drop_last());
        lemma_rotator_frame_turn(frames.last());
        lemma_total_turn_of_concatenation(earlier, last, Pivot::OwnY);
        lemma_total_turn_of_concatenation(earlier, last, Pivot::WorldY);
        lemma_total_turn_of_concatenation(earlier, last, Pivot::OwnX);
    }
}

/// Two ways of cutting the same time into frames turn an orbiting, spinning
/// entity by the same angles.
pub proof fn lemma_rotator_turn_ignores_frame_sizes(
    one: Seq<ElapsedTime>,
    other: Seq<ElapsedTime>,
    pivot: Pivot,
)
    requires
        total_seconds(one) == total_seconds(other),
    ensures
        total_turn(rotator_run(one), pivot) == total_turn(rotator_run(other), pivot),
{
    lemma_rotator_turn_is_the_time(one);
    lemma_rotator_turn_is_the_time(other);
}

/// Over any sequence of frames a self-spinning entity has spun about its own
/// X axis by the seconds that the frames span over one and a half, in
/// radians, and has not turned otherwise.
pub proof fn lemma_rotator_n_turn_is_the_time_over_one_and_a_half(frames: Seq<ElapsedTime>)
    ensures
        total_turn(rotator_n_run(frames), Pivot::OwnX) == total_seconds(frames) / (3real / 2real),
        total_turn(rotator_n_run(frames), Pivot::OwnY) == 0real,
        total_turn(rotator_n_run(frames), Pivot::WorldY) == 0real,
    decreases frames.len(),
{
    if frames.len() > 0 {
        let earlier = rotator_n_run(frames.drop_last());
        let last = rotator_n_ops(frames.last());
        lemma_rotator_n_turn_is_the_time_over_one_and_a_half(frames.drop_last());
        lemma_rotator_n_frame_turn(frames.last());
        lemma_total_turn_of_concatenation(earlier, last, Pivot::OwnX);
        lemma_total_turn_of_concatenation(earlier, last, Pivot::OwnY);
        lemma_total_turn_of_concatenation(earlier, last, Pivot::WorldY);
    }
}

/// Two ways of cutting the same time into frames turn a self-spinning entity
/// by the same angles.
pub proof fn lemma_rotator_n_turn_ignores_frame_sizes(
    one: Seq<ElapsedTime>,
    other: Seq<ElapsedTime>,
    pivot: Pivot,
)
    requires
        total_seconds(one) == total_seconds(other),
    ensures
        total_turn(rotator_n_run(one), pivot) == total_turn(rotator_n_run(other), pivot),
{
    lemma_rotator_n_turn_is_the_time_over_one_and_a_half(one);
    lemma_rotator_n_turn_is_the_time_over_one_and_a_half(other);
}

} // verus!

//! The operations that the viewer asks the host to apply to a transform.

use crate::units::{Angle, Vector};
use vstd::prelude::*;

verus! {

/// What a rotation turns an entity about.
#[derive(Clone, Copy, Debug, PartialEq, Eq)]
pub enum Pivot {
    /// The entity's own X axis: the entity spins in place.
    OwnX,
    /// The entity's own Y axis: the entity spins in place.
    OwnY,
    /// The world's Y axis through the world origin: position and orientation
    /// turn together, so that the entity circles the scene centre.
    WorldY,
}

/// One change to the transform of a scene entity.
#[derive(Clone, Copy, Debug, PartialEq, Eq)]
pub enum TransformOp {
    /// Add the vector to the position; the orientation stays.
    Translate(Vector),
    /// Turn by the angle about the pivot.
    Turn(Pivot, Angle),
}

/// The radians by which `op` turns an entity about `pivot`.
pub open spec fn turn_of(op: TransformOp, pivot: Pivot) -> real {
    match op {
        TransformOp::Turn(about, angle) => if about == pivot {
            angle.radians()
        } else {
            0real
        },
        TransformOp::Translate(_) => 0real,
    }
}

/// The radians by which `ops`, applied in order, turn an entity about `pivot`
/// in all.
pub open spec fn total_turn(ops: Seq<TransformOp>, pivot: Pivot) -> real
    decreases ops.len(),
{
    if ops.len() == 0 {
        0real
    } else {
        total_turn(ops.drop_last(), pivot) + turn_of(ops.last(), pivot)
    }
}

/// Two runs of operations, one after the other, turn by the sum of what each
/// turns by.
pub proof fn lemma_total_turn_of_concatenation(
    first: Seq<TransformOp>,
    second: Seq<TransformOp>,
    pivot: Pivot,
)
    ensures
        total_turn(first + second, pivot) == total_turn(first, pivot) + total_turn(second, pivot),
    decreases second.len(),
{
    if second.len() == 0 {
        assert(first + second == first);
    } else {
        assert((first + second).drop_last() == first + second.drop_last());
        lemma_total_turn_of_concatenation(first, second.drop_last(), pivot);
    }
}

} // verus!

//! The entities that the viewer shows, declared once at startup.
//!
//! There are four: a ground plane, a capsule that spins in place, a point
//! light that circles the scene, and the camera. A tag marks what the frame
//! updates do to an entity; the ground plane has none.

use crate::units::{Length, Vector};
use vstd::prelude::*;

verus! {

/// What the frame updates do to an entity.
#[derive(Clone, Copy, Debug, PartialEq, Eq)]
pub enum Tag {
    /// The camera: pointer gestures move it.
    IsCamera,
    /// Spins about its own Y axis and circles the world origin.
    Rotator,
    /// Spins about its own X axis.
    RotatorN,
}

/// What the host draws for an entity.
#[derive(Clone, Copy, Debug, PartialEq, Eq)]
pub enum Body {
    GroundPlane,
    Capsule,
    PointLight,
    Camera,
}

/// How an entity is turned when it is created.
#[derive(Clone, Copy, Debug, PartialEq, Eq)]
pub enum Facing {
    /// Not turned at all.
    Level,
    /// Turned about the X axis by whole degrees.
    TiltedAboutX { degrees: i16 },
    /// Turned to look at a point, with the world's Y axis up.
    Towards(Vector),
}

/// One entity of the scene as it is created.
#[derive(Clone, Copy, Debug, PartialEq, Eq)]
pub struct SceneEntity {
    pub body: Body,
    pub tag: Option<Tag>,
    pub position: Vector,
    pub facing: Facing,
}

/// The scene: the ground plane at the origin; the capsule one unit up,
/// tilted by minus forty-five degrees about X; the light at (4, 8, 4); the
/// camera at (-1, 2.5, 5), looking at the origin.
pub open spec fn initial_scene() -> Seq<SceneEntity> {
    seq![
        SceneEntity {
            body: Body::GroundPlane,
            tag: None,
            position: Vector::of_units(0real, 0real, 0real),
            facing: Facing::Level,
        },
        SceneEntity {
            body: Body::Capsule,
            tag: Some(Tag::RotatorN),
            position: Vector::of_units(0real, 1real, 0real),
            facing: Facing::TiltedAboutX { degrees: -45i16 },
        },
        SceneEntity {
            body: Body::PointLight,
            tag: Some(Tag::Rotator),
            position: Vector::of_units(4real, 8real, 4real),
            facing: Facing::Level,
        },
        SceneEntity {
            body: Body::Camera,
            tag: Some(Tag::IsCamera),
            position: Vector::of_units(-1real, 5real / 2real, 5real),
            facing: Facing::Towards(Vector::of_units(0real, 0real, 0real)),
        },
    ]
}

/// How many of `entities` carry `tag`.
pub open spec fn count_tagged(entities: Seq<SceneEntity>, tag: Tag) -> nat
    decreases entities.len(),
{
    if entities.len() == 0 {
        0
    } else {
        let earlier = count_tagged(entities.drop_last(), tag);
        if entities.last().tag == Some(tag) {
            earlier + 1
        } else {
            earlier
        }
    }
}

/// `v` lies at the given coordinates, in world units.
pub open spec fn lies_at(v: Vector, x: real, y: real, z: real) -> bool {
    v.x.units() == x && v.y.units() == y && v.z.units() == z
}

/// Every place of the scene can be counted exactly: the ground plane stands
/// at the origin, the capsule at (0, 1, 0), the light at (4, 8, 4) and the
/// camera at (-1, 2.5, 5), looking at the origin.
pub proof fn lemma_scene_placement()
    ensures
        lies_at(initial_scene()[0].position, 0real, 0real, 0real),
        lies_at(initial_scene()[1].position, 0real, 1real, 0real),
        lies_at(initial_scene()[2].position, 4real, 8real, 4real),
        lies_at(initial_scene()[3].position, -1real, 5real / 2real, 5real),
        initial_scene()[3].facing matches Facing::Towards(target) && lies_at(
            target,
            0real,
            0real,
            0real,
        ),
{
    Length { raw: 0 }.lemma_of_units();
    Length { raw: 10_000 }.lemma_of_units();
    Length { raw: 40_000 }.lemma_of_units();
    Length { raw: 80_000 }.lemma_of_units();
    Length { raw: -10_000i64 }.lemma_of_units();
    Length { raw: 25_000 }.lemma_of_units();
    Length { raw: 50_000 }.lemma_of_units();
}

/// The scene holds each tag exactly once.
pub proof fn lemma_each_tag_once(tag: Tag)
    ensures
        count_tagged(initial_scene(), tag) == 1,
{
    let four = initial_scene();
    let three = four.drop_last();
    let two = three.drop_last();
    let one = two.drop_last();
    assert(one.drop_last() == Seq::<SceneEntity>::empty());
    reveal_with_fuel(count_tagged, 5);
}

/// The point at the given counts of ten-thousandths of a world unit.
fn point_at(x: i64, y: i64, z: i64) -> (p: Vector)
    ensures
        p == Vector::of_units(x as real / 10000real, y as real / 10000real, z as real / 10000real),
{
    let p = Vector { x: Length { raw: x }, y: Length { raw: y }, z: Length { raw: z } };
    proof {
        p.x.lemma_of_units();
        p.y.lemma_of_units();
        p.z.lemma_of_units();
    }
    p
}

/// Declares the four entities of the scene, in the order in which the host
/// creates them.
pub fn setup() -> (entities: Vec<SceneEntity>)
    ensures
        entities@ == initial_scene(),
        entities@.len() == 4,
        forall|tag: Tag| count_tagged(entities@, tag) == 1,
{
    let mut entities: Vec<SceneEntity> = Vec::new();
    entities.push(
        SceneEntity {
            body: Body::GroundPlane,
            tag: None,
            position: point_at(0, 0, 0),
            facing: Facing::Level,
        },
    );
    entities.push(
        SceneEntity {
            body: Body::Capsule,
            tag: Some(Tag::RotatorN),
            position: point_at(0, 10_000, 0),
            facing: Facing::TiltedAboutX { degrees: -45 },
        },
    );
    entities.push(
        SceneEntity {
            body: Body::PointLight,
            tag: Some(Tag::Rotator),
            position: point_at(40_000, 80_000, 40_000),
            facing: Facing::Level,
        },
    );
    entities.push(
        SceneEntity {
            body: Body::Camera,
            tag: Some(Tag::IsCamera),
            position: point_at(-10_000, 25_000, 50_000),
            facing: Facing::Towards(point_at(0, 0, 0)),
        },
    );
    proof {
        assert(entities@ == initial_scene());
        assert forall|tag: Tag| count_tagged(entities@, tag) == 1 by {
            lemma_each_tag_once(tag);
        }
    }
    entities
}

} // verus!

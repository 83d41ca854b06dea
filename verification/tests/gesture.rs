use bevy::input::mouse::MouseButton;
use bevy::input::Input;
use viewer_core::gesture::{
    orbit_yaw, pan, pointer_frame, pointer_frame_from_input, PointerMotionQueue, PointerNotice,
    PointerOutcome,
};
use viewer_core::input::{read_pointer_buttons, PointerButtons};
use viewer_core::transform::{Pivot, TransformOp};
use viewer_core::units::{Angle, Length, MotionDelta, Vector};

const IDLE: PointerButtons = PointerButtons {
    primary_held: false,
    secondary_held: false,
    primary_just_pressed: false,
    primary_just_released: false,
};

fn radians(angle: Angle) -> f64 {
    angle.raw as f64 / 3.0e9
}

fn world_units(length: Length) -> f64 {
    length.raw as f64 / 1.0e4
}

fn queue_of(deltas: &[MotionDelta]) -> PointerMotionQueue {
    let mut queue = PointerMotionQueue::new();
    for delta in deltas {
        queue.push(*delta);
    }
    queue
}

fn translate(x: i64, y: i64) -> TransformOp {
    TransformOp::Translate(Vector {
        x: Length { raw: x },
        y: Length { raw: y },
        z: Length { raw: 0 },
    })
}

fn orbit(raw: i128) -> TransformOp {
    TransformOp::Turn(Pivot::WorldY, Angle { raw })
}

#[test]
fn a_delta_of_fifty_units_orbits_by_a_tenth_of_a_radian() {
    // delta = (50, 0) with only the primary button held: clamp(5.0, -0.1, 0.1).
    let buttons = PointerButtons { primary_held: true, ..IDLE };
    let mut queue = queue_of(&[MotionDelta { x: 50_000, y: 0 }]);
    let out = pointer_frame(buttons, &mut queue);
    assert_eq!(out.camera_ops, vec![orbit(300_000_000)]);
    assert_eq!(radians(Angle { raw: 300_000_000 }), 0.1);
    assert_eq!(out.notices, vec![]);
    assert_eq!(queue.len(), 0);
}

#[test]
fn orbit_yaw_is_a_tenth_of_the_horizontal_delta() {
    // 0.5 screen units: 0.05 rad.
    let yaw = orbit_yaw(MotionDelta { x: 500, y: 7_000 });
    assert_eq!(yaw, Angle { raw: 150_000_000 });
    assert_eq!(radians(yaw), 0.05);
    // -0.25 screen units: -0.025 rad.
    let yaw = orbit_yaw(MotionDelta { x: -250, y: 0 });
    assert_eq!(yaw, Angle { raw: -75_000_000 });
    assert_eq!(radians(yaw), -0.025);
    assert_eq!(orbit_yaw(MotionDelta { x: 0, y: 123 }), Angle { raw: 0 });
}

#[test]
fn orbit_yaw_is_clamped_at_one_screen_unit() {
    assert_eq!(orbit_yaw(MotionDelta { x: 999, y: 0 }), Angle { raw: 299_700_000 });
    assert_eq!(orbit_yaw(MotionDelta { x: 1_000, y: 0 }), Angle { raw: 300_000_000 });
    assert_eq!(orbit_yaw(MotionDelta { x: 1_001, y: 0 }), Angle { raw: 300_000_000 });
    assert_eq!(orbit_yaw(MotionDelta { x: -999, y: 0 }), Angle { raw: -299_700_000 });
    assert_eq!(orbit_yaw(MotionDelta { x: -1_000, y: 0 }), Angle { raw: -300_000_000 });
    assert_eq!(orbit_yaw(MotionDelta { x: -1_001, y: 0 }), Angle { raw: -300_000_000 });
}

#[test]
fn orbit_yaw_stays_within_a_tenth_of_a_radian() {
    let samples = [
        i32::MIN,
        i32::MIN + 1,
        -50_000,
        -1_000,
        -1,
        0,
        1,
        1_000,
        50_000,
        i32::MAX - 1,
        i32::MAX,
    ];
    for x in samples {
        for y in [i32::MIN, 0, i32::MAX] {
            let yaw = orbit_yaw(MotionDelta { x, y });
            assert!(-300_000_000 <= yaw.raw && yaw.raw <= 300_000_000, "x = {}", x);
            assert!(-0.1 <= radians(yaw) && radians(yaw) <= 0.1, "x = {}", x);
        }
    }
    assert_eq!(orbit_yaw(MotionDelta { x: i32::MAX, y: 0 }), Angle { raw: 300_000_000 });
    assert_eq!(orbit_yaw(MotionDelta { x: i32::MIN, y: 0 }), Angle { raw: -300_000_000 });
}

#[test]
fn pan_is_a_tenth_of_the_delta_in_x_and_y_and_nothing_in_z() {
    // delta = (30, -20) screen units: (3, -2, 0) world units.
    let v = pan(MotionDelta { x: 30_000, y: -20_000 });
    assert_eq!(
        v,
        Vector { x: Length { raw: 30_000 }, y: Length { raw: -20_000 }, z: Length { raw: 0 } }
    );
    assert_eq!(world_units(v.x), 3.0);
    assert_eq!(world_units(v.y), -2.0);
    assert_eq!(world_units(v.z), 0.0);
    // delta = (0.007, 1.5): (0.0007, 0.15, 0).
    let v = pan(MotionDelta { x: 7, y: 1_500 });
    assert_eq!(world_units(v.x), 0.0007);
    assert_eq!(world_units(v.y), 0.15);
    assert_eq!(world_units(v.z), 0.0);
}

#[test]
fn pan_is_not_clamped() {
    let v = pan(MotionDelta { x: i32::MAX, y: i32::MIN });
    assert_eq!(v.x, Length { raw: 2_147_483_647 });
    assert_eq!(v.y, Length { raw: -2_147_483_648 });
    assert_eq!(v.z, Length { raw: 0 });
}

#[test]
fn the_secondary_button_pans_once_per_event_in_order() {
    let buttons = PointerButtons { secondary_held: true, ..IDLE };
    let mut queue = queue_of(&[
        MotionDelta { x: 10_000, y: 0 },
        MotionDelta { x: -2_000, y: 3_000 },
        MotionDelta { x: 0, y: -50_000 },
    ]);
    let out = pointer_frame(buttons, &mut queue);
    assert_eq!(
        out.camera_ops,
        vec![translate(10_000, 0), translate(-2_000, 3_000), translate(0, -50_000)]
    );
    assert_eq!(queue.len(), 0);
}

#[test]
fn the_primary_button_orbits_once_per_event_in_order() {
    let buttons = PointerButtons { primary_held: true, ..IDLE };
    let mut queue = queue_of(&[
        MotionDelta { x: 100, y: 9 },
        MotionDelta { x: -20_000, y: 9 },
        MotionDelta { x: 0, y: 9 },
    ]);
    let out = pointer_frame(buttons, &mut queue);
    assert_eq!(out.camera_ops, vec![orbit(30_000_000), orbit(-300_000_000), orbit(0)]);
    assert_eq!(queue.len(), 0);
}

#[test]
fn with_both_buttons_held_every_event_pans_and_none_orbits() {
    let buttons = PointerButtons { primary_held: true, secondary_held: true, ..IDLE };
    let mut queue =
        queue_of(&[MotionDelta { x: 50_000, y: 10_000 }, MotionDelta { x: -500, y: 0 }]);
    let out = pointer_frame(buttons, &mut queue);
    assert_eq!(out.camera_ops, vec![translate(50_000, 10_000), translate(-500, 0)]);
    assert_eq!(queue.len(), 0);
}

#[test]
fn with_no_button_held_the_queue_is_left_alone() {
    let events = [MotionDelta { x: 50_000, y: 10_000 }, MotionDelta { x: -500, y: 0 }];
    let mut queue = queue_of(&events);
    let out = pointer_frame(IDLE, &mut queue);
    assert_eq!(out, PointerOutcome { camera_ops: vec![], notices: vec![] });
    assert_eq!(queue.len(), 2);
    assert_eq!(queue.drain(), events.to_vec());
}

#[test]
fn an_empty_queue_gives_no_operations() {
    for buttons in [
        PointerButtons { primary_held: true, ..IDLE },
        PointerButtons { secondary_held: true, ..IDLE },
        PointerButtons { primary_held: true, secondary_held: true, ..IDLE },
    ] {
        let mut queue = PointerMotionQueue::new();
        assert_eq!(pointer_frame(buttons, &mut queue).camera_ops, vec![]);
        assert_eq!(queue.len(), 0);
    }
}

#[test]
fn edges_of_the_primary_button_are_notified_and_move_nothing() {
    let events = [MotionDelta { x: 50_000, y: 10_000 }];
    let mut queue = queue_of(&events);
    let pressed = PointerButtons { primary_just_pressed: true, ..IDLE };
    let out = pointer_frame(pressed, &mut queue);
    assert_eq!(out.camera_ops, vec![]);
    assert_eq!(out.notices, vec![PointerNotice::PrimaryPressed]);
    let released = PointerButtons { primary_just_released: true, ..IDLE };
    let out = pointer_frame(released, &mut queue);
    assert_eq!(out.camera_ops, vec![]);
    assert_eq!(out.notices, vec![PointerNotice::PrimaryReleased]);
    let both = PointerButtons { primary_just_pressed: true, primary_just_released: true, ..IDLE };
    let out = pointer_frame(both, &mut queue);
    assert_eq!(out.camera_ops, vec![]);
    assert_eq!(out.notices, vec![PointerNotice::PrimaryPressed, PointerNotice::PrimaryReleased]);
    assert_eq!(queue.drain(), events.to_vec());
}

#[test]
fn a_press_frame_orbits_and_notifies() {
    let buttons = PointerButtons { primary_held: true, primary_just_pressed: true, ..IDLE };
    let mut queue = queue_of(&[MotionDelta { x: 200, y: 0 }]);
    let out = pointer_frame(buttons, &mut queue);
    assert_eq!(out.camera_ops, vec![orbit(60_000_000)]);
    assert_eq!(out.notices, vec![PointerNotice::PrimaryPressed]);
}

#[test]
fn the_notices_have_their_texts() {
    assert_eq!(PointerNotice::PrimaryPressed.message(), "left mouse just pressed");
    assert_eq!(PointerNotice::PrimaryReleased.message(), "left mouse just released");
}

#[test]
fn a_drained_queue_is_empty_and_hands_out_its_events_in_order() {
    let mut queue = PointerMotionQueue::new();
    assert_eq!(queue.len(), 0);
    queue.push(MotionDelta { x: 1, y: 2 });
    queue.push(MotionDelta { x: 3, y: 4 });
    assert_eq!(queue.len(), 2);
    assert_eq!(queue.drain(), vec![MotionDelta { x: 1, y: 2 }, MotionDelta { x: 3, y: 4 }]);
    assert_eq!(queue.len(), 0);
    assert_eq!(queue.drain(), vec![]);
}

#[test]
fn the_host_input_is_read_button_by_button() {
    let mut input = Input::<MouseButton>::default();
    assert_eq!(read_pointer_buttons(&input), IDLE);
    input.press(MouseButton::Left);
    assert_eq!(
        read_pointer_buttons(&input),
        PointerButtons { primary_held: true, primary_just_pressed: true, ..IDLE }
    );
    input.clear();
    assert_eq!(read_pointer_buttons(&input), PointerButtons { primary_held: true, ..IDLE });
    input.press(MouseButton::Right);
    assert_eq!(
        read_pointer_buttons(&input),
        PointerButtons { primary_held: true, secondary_held: true, ..IDLE }
    );
    input.clear();
    input.release(MouseButton::Left);
    assert_eq!(
        read_pointer_buttons(&input),
        PointerButtons { secondary_held: true, primary_just_released: true, ..IDLE }
    );
    input.clear();
    input.release(MouseButton::Right);
    assert_eq!(read_pointer_buttons(&input), IDLE);
}

#[test]
fn unrecognised_buttons_are_not_read() {
    let mut input = Input::<MouseButton>::default();
    input.press(MouseButton::Middle);
    input.press(MouseButton::Other(7));
    assert_eq!(read_pointer_buttons(&input), IDLE);
    input.clear();
    input.release(MouseButton::Middle);
    assert_eq!(read_pointer_buttons(&input), IDLE);
}

#[test]
fn the_left_button_orbits_through_the_host_input() {
    let mut input = Input::<MouseButton>::default();
    input.press(MouseButton::Left);
    let mut queue = queue_of(&[MotionDelta { x: 50_000, y: 0 }]);
    let out = pointer_frame_from_input(&input, &mut queue);
    assert_eq!(out.camera_ops, vec![orbit(300_000_000)]);
    assert_eq!(out.notices, vec![PointerNotice::PrimaryPressed]);
    assert_eq!(queue.len(), 0);
}

#[test]
fn the_right_button_pans_through_the_host_input() {
    let mut input = Input::<MouseButton>::default();
    input.press(MouseButton::Right);
    let mut queue = queue_of(&[MotionDelta { x: 50_000, y: -1_000 }]);
    let out = pointer_frame_from_input(&input, &mut queue);
    assert_eq!(out.camera_ops, vec![translate(50_000, -1_000)]);
    assert_eq!(out.notices, vec![]);
    assert_eq!(queue.len(), 0);
}

#[test]
fn a_release_is_notified_through_the_host_input() {
    let mut input = Input::<MouseButton>::default();
    input.press(MouseButton::Left);
    input.clear();
    input.release(MouseButton::Left);
    let mut queue = queue_of(&[MotionDelta { x: 50_000, y: 0 }]);
    let out = pointer_frame_from_input(&input, &mut queue);
    assert_eq!(out.camera_ops, vec![]);
    assert_eq!(out.notices, vec![PointerNotice::PrimaryReleased]);
    assert_eq!(queue.len(), 1);
}

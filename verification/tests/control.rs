use freeflight::input::bindings::{Bindings, Key};
use freeflight::input::keyboard::{self, KeyFunction, Orientation};
use freeflight::input::{Control, GradientValue, AXIS_UNIT};
use freeflight::{Action, ExitCode, FrameCause, PumpDecision, PumpEvent};

#[test]
fn ramp_moves_toward_target_and_arrives_exactly() {
    let mut c = Control::new(100);
    c.set_thrust(700);
    c.update(3);
    assert_eq!(c.thrust.value, 300);
    c.update(3);
    assert_eq!(c.thrust.value, 600);
    // the last move is clamped at the target: no overshoot
    c.update(3);
    assert_eq!(c.thrust.value, 700);
    c.update(50);
    assert_eq!(c.thrust.value, 700);
}

#[test]
fn ramp_descends_toward_negative_target() {
    let mut c = Control::new(250);
    c.set_yaw(-AXIS_UNIT);
    c.update(1);
    assert_eq!(c.yaw.value, -250);
    c.update(2);
    assert_eq!(c.yaw.value, -750);
    c.update(2);
    assert_eq!(c.yaw.value, -1000);
}

#[test]
fn ramp_zero_time_is_a_no_op() {
    let mut c = Control::new(100);
    c.set_ascend(500);
    c.update(0);
    assert_eq!(c.ascend.value, 0);
}

#[test]
fn ramp_zero_speed_never_moves() {
    let mut c = Control::new(0);
    c.set_roll(500);
    c.update(1_000_000);
    assert_eq!(c.roll.value, 0);
    assert_eq!(c.roll.set_value, 500);
}

#[test]
fn ramp_survives_a_huge_step_budget() {
    let mut c = Control::new(u32::MAX);
    c.set_strafe(AXIS_UNIT);
    c.update(u32::MAX);
    assert_eq!(c.strafe.value, AXIS_UNIT);
}

#[test]
fn ramp_at_target_stays_there() {
    let mut g = GradientValue::new(100);
    g.update(10);
    assert_eq!(g.value, 0);
    assert_eq!(g.set_value, 0);
}

#[test]
fn set_points_are_clamped_to_one_unit() {
    let mut c = Control::new(100);
    c.set_yaw(2500);
    assert_eq!(c.yaw.set_value, AXIS_UNIT);
    c.set_pitch(-99_999);
    assert_eq!(c.pitch.set_value, -AXIS_UNIT);
    c.set_roll(321);
    assert_eq!(c.roll.set_value, 321);
}

#[test]
fn new_control_is_at_rest() {
    let c = Control::new(42);
    for g in [&c.thrust, &c.strafe, &c.ascend, &c.yaw, &c.pitch, &c.roll] {
        assert_eq!(g.value, 0);
        assert_eq!(g.set_value, 0);
        assert_eq!(g.speed, 42);
    }
}

#[test]
fn orientation_combines_flags_into_signed_direction() {
    let mut o = Orientation::default();
    assert_eq!(o.value(), 0);
    o.set_positive(true);
    assert_eq!(o.value(), 1);
    o.set_negative(true);
    assert_eq!(o.value(), 0);
    o.set_positive(false);
    assert_eq!(o.value(), -1);
}

#[test]
fn orientation_reports_changes_and_debounces_repeats() {
    let mut o = Orientation::default();
    assert!(o.set_positive(true));
    assert!(!o.set_positive(true));
    assert!(o.set_positive(false));
    assert!(!o.set_positive(false));
    assert!(o.set_negative(true));
    assert!(!o.set_negative(true));
}

#[test]
fn default_bindings_follow_the_scheme() {
    let b = Bindings::default();
    assert_eq!(b.map(Key::W), Some(KeyFunction::Accelerate));
    assert_eq!(b.map(Key::S), Some(KeyFunction::Decelerate));
    assert_eq!(b.map(Key::A), Some(KeyFunction::YawLeft));
    assert_eq!(b.map(Key::D), Some(KeyFunction::YawRight));
    assert_eq!(b.map(Key::Up), Some(KeyFunction::PitchDown));
    assert_eq!(b.map(Key::Down), Some(KeyFunction::PitchUp));
    assert_eq!(b.map(Key::Left), Some(KeyFunction::StrafeLeft));
    assert_eq!(b.map(Key::Right), Some(KeyFunction::StrafeRight));
    assert_eq!(b.map(Key::Q), Some(KeyFunction::RollLeft));
    assert_eq!(b.map(Key::E), Some(KeyFunction::RollRight));
    assert_eq!(b.map(Key::PageUp), Some(KeyFunction::Ascend));
    assert_eq!(b.map(Key::PageDown), Some(KeyFunction::Descend));
    assert_eq!(b.map(Key::Space), None);
    assert_eq!(b.map(Key::Tab), None);
    assert_eq!(b.map(Key::Home), None);
    assert_eq!(b.map(Key::End), None);
}

#[test]
fn custom_bindings_take_the_first_match() {
    let b = Bindings::new(vec![
        (Key::W, KeyFunction::YawLeft),
        (Key::W, KeyFunction::Accelerate),
    ]);
    assert_eq!(b.map(Key::W), Some(KeyFunction::YawLeft));
    assert_eq!(b.map(Key::A), None);
}

#[test]
fn empty_bindings_bind_nothing() {
    let b = Bindings::new(Vec::new());
    assert_eq!(b.map(Key::W), None);
}

#[test]
fn opposing_keys_cancel_and_release_restores_the_held_sign() {
    let mut k = keyboard::Control::default();
    let mut c = Control::new(100);
    k.process_keyboard_input(Key::A, true, &mut c);
    assert_eq!(c.yaw.set_value, AXIS_UNIT);
    k.process_keyboard_input(Key::D, true, &mut c);
    assert_eq!(c.yaw.set_value, 0);
    k.process_keyboard_input(Key::A, false, &mut c);
    assert_eq!(c.yaw.set_value, -AXIS_UNIT);
}

#[test]
fn releasing_the_other_key_restores_the_other_sign() {
    let mut k = keyboard::Control::default();
    let mut c = Control::new(100);
    k.process_keyboard_input(Key::A, true, &mut c);
    k.process_keyboard_input(Key::D, true, &mut c);
    assert_eq!(c.yaw.set_value, 0);
    k.process_keyboard_input(Key::D, false, &mut c);
    assert_eq!(c.yaw.set_value, AXIS_UNIT);
}

#[test]
fn unbound_keys_are_ignored() {
    let mut k = keyboard::Control::default();
    let mut c = Control::new(100);
    k.process_keyboard_input(Key::Space, true, &mut c);
    k.process_keyboard_input(Key::Tab, false, &mut c);
    for g in [&c.thrust, &c.strafe, &c.ascend, &c.yaw, &c.pitch, &c.roll] {
        assert_eq!(g.set_value, 0);
    }
}

#[test]
fn releasing_a_key_that_was_never_held_is_a_no_op() {
    let mut k = keyboard::Control::default();
    let mut c = Control::new(100);
    k.process_keyboard_input(Key::W, true, &mut c);
    assert_eq!(c.thrust.set_value, AXIS_UNIT);
    // S was never held: its release must not disturb the thrust set-point
    k.process_keyboard_input(Key::S, false, &mut c);
    assert_eq!(c.thrust.set_value, AXIS_UNIT);
}

#[test]
fn repeated_key_down_events_are_debounced() {
    let mut k = keyboard::Control::default();
    let mut c = Control::new(100);
    k.process_keyboard_input(Key::W, true, &mut c);
    // while W is held, an opposing target is forced in from elsewhere;
    // a repeated W-down event must not push the set-point again
    c.set_thrust(-AXIS_UNIT);
    k.process_keyboard_input(Key::W, true, &mut c);
    assert_eq!(c.thrust.set_value, -AXIS_UNIT);
}

#[test]
fn every_binding_drives_its_own_axis() {
    let cases: [(Key, fn(&Control) -> i32, i32); 12] = [
        (Key::W, |c| c.thrust.set_value, AXIS_UNIT),
        (Key::S, |c| c.thrust.set_value, -AXIS_UNIT),
        (Key::Right, |c| c.strafe.set_value, AXIS_UNIT),
        (Key::Left, |c| c.strafe.set_value, -AXIS_UNIT),
        (Key::PageUp, |c| c.ascend.set_value, AXIS_UNIT),
        (Key::PageDown, |c| c.ascend.set_value, -AXIS_UNIT),
        (Key::A, |c| c.yaw.set_value, AXIS_UNIT),
        (Key::D, |c| c.yaw.set_value, -AXIS_UNIT),
        (Key::Down, |c| c.pitch.set_value, AXIS_UNIT),
        (Key::Up, |c| c.pitch.set_value, -AXIS_UNIT),
        (Key::Q, |c| c.roll.set_value, AXIS_UNIT),
        (Key::E, |c| c.roll.set_value, -AXIS_UNIT),
    ];
    for (key, read, expected) in cases {
        let mut k = keyboard::Control::default();
        let mut c = Control::new(100);
        k.process_keyboard_input(key, true, &mut c);
        assert_eq!(read(&c), expected);
        k.process_keyboard_input(key, false, &mut c);
        assert_eq!(read(&c), 0);
    }
}

#[test]
fn key_events_then_ramp_then_read() {
    // input -> ramp -> integrate, as a frame would run it
    let mut k = keyboard::Control::default();
    let mut c = Control::new(100);
    k.process_keyboard_input(Key::A, true, &mut c);
    c.update(5);
    assert_eq!(c.yaw.value, 500);
    k.process_keyboard_input(Key::A, false, &mut c);
    c.update(3);
    assert_eq!(c.yaw.value, 200);
    c.update(10);
    assert_eq!(c.yaw.value, 0);
}

#[test]
fn exit_codes_are_stable() {
    assert_eq!(ExitCode::LoadMesh.code(), 1);
    assert_eq!(ExitCode::CreateDisplay.code(), 2);
}

#[test]
fn only_stop_exits_the_loop() {
    assert!(Action::Stop.should_exit());
    assert!(!Action::Continue.should_exit());
}

#[test]
fn pump_decisions_follow_the_event_kind() {
    assert_eq!(
        freeflight::pump_decision(PumpEvent::NewEvents(FrameCause::ResumeTimeReached)),
        PumpDecision::RunFrame
    );
    assert_eq!(
        freeflight::pump_decision(PumpEvent::NewEvents(FrameCause::Init)),
        PumpDecision::RunFrame
    );
    assert_eq!(
        freeflight::pump_decision(PumpEvent::NewEvents(FrameCause::Other)),
        PumpDecision::Ignore
    );
    assert_eq!(freeflight::pump_decision(PumpEvent::Delivered), PumpDecision::Buffer);
    assert_eq!(freeflight::pump_decision(PumpEvent::Lost), PumpDecision::Ignore);
}

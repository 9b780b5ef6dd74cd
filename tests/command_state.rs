use rose_offline_client::command::{advance_command, Command, CommandSit, NextCommand};
use rose_offline_client::world::{Entity, MotionId, MoveMode, Position};

fn step(command: &mut Command, next: &mut NextCommand, animation: bool, manual: bool) {
    advance_command(command, next, animation, manual);
}

#[test]
fn incomplete_command_is_left_unchanged_by_repeated_ticks() {
    let mut command = Command::with_attack(Entity(7));
    let mut next = NextCommand::with_stop();
    for _ in 0..5 {
        step(&mut command, &mut next, false, false);
        assert!(matches!(command, Command::Attack(ref a) if a.target == Entity(7)));
        assert!(matches!(next.get(), Some(Command::Stop)));
    }
}

#[test]
fn seated_command_waits_for_its_event() {
    let mut command = Command::with_sit();
    let mut next = NextCommand::default();
    for _ in 0..3 {
        step(&mut command, &mut next, true, false);
        assert!(command.is_sit());
    }
}

#[test]
fn completed_animation_promotes_queued_command() {
    let mut command = Command::with_emote(MotionId(3), true);
    let mut next = NextCommand::with_pickup_item(Entity(9));
    step(&mut command, &mut next, true, false);
    assert!(matches!(command, Command::PickupItem(e) if e == Entity(9)));
    assert!(next.get().is_none());
}

#[test]
fn completed_command_without_queue_falls_back_to_stop() {
    let mut command = Command::with_move(Position { x: 1, y: 2, z: 3 }, None, Some(MoveMode::Run));
    let mut next = NextCommand::default();
    step(&mut command, &mut next, false, false);
    assert!(command.is_stop());
}

#[test]
fn sitting_progresses_in_order_and_back_to_stop() {
    let mut command = Command::with_stop();
    let mut next = NextCommand::with_sitting();
    step(&mut command, &mut next, false, false);
    assert!(command.is_sitting());
    assert!(next.get().is_none());
    // The transition down waits for its animation.
    step(&mut command, &mut next, false, false);
    assert!(command.is_sitting());
    step(&mut command, &mut next, true, false);
    assert!(command.is_sit());
    next.set(Some(Command::with_standing()));
    step(&mut command, &mut next, false, true);
    assert!(matches!(command, Command::Sit(CommandSit::Standing)));
    assert!(next.get().is_none());
    step(&mut command, &mut next, true, false);
    assert!(command.is_stop());
}

#[test]
fn stop_never_jumps_straight_to_sit() {
    let mut command = Command::with_stop();
    let mut next = NextCommand::new(Some(Command::with_sit()));
    step(&mut command, &mut next, true, true);
    assert!(command.is_stop());
    assert!(!command.is_sit());
    let mut next = NextCommand::with_standing();
    step(&mut command, &mut next, true, true);
    assert!(command.is_stop());
}

#[test]
fn death_overrides_and_sticks() {
    let mut command = Command::with_attack(Entity(1));
    let mut next = NextCommand::with_die();
    assert!(next.is_die());
    step(&mut command, &mut next, false, false);
    assert!(command.is_die());
    let mut next = NextCommand::with_move(Position { x: 0, y: 0, z: 0 }, None, None);
    step(&mut command, &mut next, true, true);
    assert!(command.is_die());
    assert!(next.get().is_some());
}

#[test]
fn animation_and_manual_flags_per_variant() {
    assert!(!Command::with_stop().requires_animation_complete());
    assert!(!Command::with_move(Position { x: 0, y: 0, z: 0 }, None, None).requires_animation_complete());
    assert!(Command::with_attack(Entity(1)).requires_animation_complete());
    assert!(Command::with_die().requires_animation_complete());
    assert!(Command::with_pickup_item(Entity(1)).requires_animation_complete());
    assert!(Command::with_emote(MotionId(1), false).requires_animation_complete());
    assert!(Command::with_sitting().requires_animation_complete());
    assert!(!Command::with_sit().requires_animation_complete());
    assert!(Command::with_standing().requires_animation_complete());
    assert!(Command::with_sit().is_manual_complete());
    assert!(Command::with_standing().is_manual_complete());
    assert!(!Command::with_stop().is_manual_complete());
    assert!(Command::with_emote(MotionId(1), false).is_emote());
}

#[test]
fn queued_command_is_overwritten() {
    let mut next = NextCommand::with_attack(Entity(1));
    next.set(Some(Command::with_emote(MotionId(2), false)));
    assert!(matches!(next.get(), Some(Command::Emote(e)) if e.motion_id == MotionId(2) && !e.is_stop));
    next.set(None);
    assert!(next.get().is_none());
}

#[test]
fn standing_ends_in_stop_before_queued_command() {
    let mut command = Command::with_standing();
    let mut next = NextCommand::with_move(Position { x: 4, y: 5, z: 6 }, None, None);
    step(&mut command, &mut next, true, false);
    assert!(command.is_stop());
    assert!(matches!(next.get(), Some(Command::Move(_))));
    step(&mut command, &mut next, false, false);
    assert!(matches!(command, Command::Move(m) if m.destination == Position { x: 4, y: 5, z: 6 }));
    assert!(next.get().is_none());
}

use zombie_germs::input::{click_cursor_targets, keyboard_orders, points_present, KeyState};
use zombie_germs::skills::SkillChoice;

fn keys() -> KeyState {
    KeyState {
        up: false,
        left: false,
        down: false,
        right: false,
        spawn_just_pressed: false,
        skill1: false,
        skill2: false,
        skill3: false,
    }
}

#[test]
fn movement_keys_give_a_direction() {
    let o = keyboard_orders(KeyState { up: true, right: true, ..keys() }, true, true);
    assert_eq!((o.step_x, o.step_y), (1, 1));
    let o = keyboard_orders(KeyState { left: true, down: true, ..keys() }, true, true);
    assert_eq!((o.step_x, o.step_y), (-1, -1));
    let o = keyboard_orders(KeyState { left: true, right: true, up: true, down: true, ..keys() }, true, true);
    assert_eq!((o.step_x, o.step_y), (0, 0));
}

#[test]
fn q_asks_for_microbes() {
    assert!(keyboard_orders(KeyState { spawn_just_pressed: true, ..keys() }, false, false).spawn_microbes);
    assert!(!keyboard_orders(keys(), true, true).spawn_microbes);
}

#[test]
fn highest_skill_key_wins() {
    let all = KeyState { skill1: true, skill2: true, skill3: true, ..keys() };
    assert_eq!(keyboard_orders(all, true, true).skill, Some(SkillChoice::Patrolling));
    assert_eq!(
        keyboard_orders(all, true, true).started,
        vec![SkillChoice::FollowCursor, SkillChoice::TargetAttack, SkillChoice::Patrolling]
    );
    let one_three = KeyState { skill1: true, skill3: true, ..keys() };
    assert_eq!(
        keyboard_orders(one_three, true, true).started,
        vec![SkillChoice::FollowCursor, SkillChoice::Patrolling]
    );
    let two = KeyState { skill1: true, skill2: true, ..keys() };
    assert_eq!(keyboard_orders(two, true, true).skill, Some(SkillChoice::TargetAttack));
    let one = KeyState { skill1: true, ..keys() };
    assert_eq!(keyboard_orders(one, true, true).skill, Some(SkillChoice::FollowCursor));
    assert_eq!(keyboard_orders(keys(), true, true).skill, None);
}

#[test]
fn skills_need_cooldown_and_points() {
    let one = KeyState { skill1: true, ..keys() };
    assert_eq!(keyboard_orders(one, false, true).skill, None);
    assert_eq!(keyboard_orders(one, true, false).skill, None);
    assert!(keyboard_orders(one, false, true).started.is_empty());
}

#[test]
fn clicks_toggle_points() {
    let mut t: (Option<(f32, f32)>, Option<(f32, f32)>) = (None, None);
    assert!(!points_present(&t));
    click_cursor_targets(&mut t, (1.0, 2.0), true, false);
    assert_eq!(t, (Some((1.0, 2.0)), None));
    assert!(points_present(&t));
    click_cursor_targets(&mut t, (3.0, 4.0), true, true);
    assert_eq!(t, (None, Some((3.0, 4.0))));
    click_cursor_targets(&mut t, (5.0, 6.0), false, true);
    assert_eq!(t, (None, None));
}

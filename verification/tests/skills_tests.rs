use zombie_germs::cooldown::{Cooldown, Span};
use zombie_germs::skills::{
    child_skill, expire_skill, tick_skill_cooldown, order_replaces, patrol_step, PatrolTarget, PatrolView, Skill,
    SkillChoice,
};

type S = Skill<(f32, f32), f32>;

const HOME: (f32, f32) = (0.0, 0.0);

#[test]
fn rest_orders_the_rest_radius() {
    let parent: S = Skill::Rest(30.0);
    assert_eq!(child_skill(&parent, (Some((1.0, 1.0)), None), HOME, 160.0, 1.0), Skill::Rest(160.0));
}

#[test]
fn attack_aims_at_first_present_point() {
    let parent: S = Skill::TargetAttack(None, 0.0);
    let a = (1.0, 2.0);
    let b = (3.0, 4.0);
    assert_eq!(child_skill(&parent, (Some(a), None), HOME, 1.0, 1.0), Skill::TargetAttack(Some(a), 1.0));
    assert_eq!(child_skill(&parent, (None, Some(b)), HOME, 1.0, 1.0), Skill::TargetAttack(Some(b), 1.0));
    assert_eq!(child_skill(&parent, (Some(a), Some(b)), HOME, 1.0, 1.0), Skill::TargetAttack(Some(a), 1.0));
    assert_eq!(child_skill(&parent, (None, None), HOME, 1.0, 1.0), Skill::TargetAttack(None, 1.0));
}

#[test]
fn follow_only_uses_the_first_point() {
    let parent: S = Skill::FollowCursor(None);
    let a = (1.0, 2.0);
    let b = (3.0, 4.0);
    assert_eq!(child_skill(&parent, (Some(a), Some(b)), HOME, 1.0, 1.0), Skill::FollowCursor(Some(a)));
    assert_eq!(child_skill(&parent, (None, Some(b)), HOME, 1.0, 1.0), Skill::FollowCursor(None));
}

#[test]
fn patrol_fills_a_missing_point_with_home() {
    let parent: S = Skill::Patrolling(None, None);
    let a = (1.0, 2.0);
    let b = (3.0, 4.0);
    assert_eq!(child_skill(&parent, (Some(a), None), HOME, 1.0, 1.0), Skill::Patrolling(Some(a), Some(HOME)));
    assert_eq!(child_skill(&parent, (None, Some(b)), HOME, 1.0, 1.0), Skill::Patrolling(Some(HOME), Some(b)));
    assert_eq!(child_skill(&parent, (Some(a), Some(b)), HOME, 1.0, 1.0), Skill::Patrolling(Some(a), Some(b)));
    assert_eq!(child_skill(&parent, (None, None), HOME, 1.0, 1.0), Skill::Patrolling(None, None));
}

#[test]
fn attack_orders_only_replace_different_orders() {
    let attack: S = Skill::TargetAttack(None, 0.0);
    let rest: S = Skill::Rest(30.0);
    assert!(!order_replaces(&attack, true));
    assert!(order_replaces(&attack, false));
    assert!(order_replaces(&rest, true));
}

#[test]
fn skill_expires_to_default() {
    let mut skill: S = Skill::FollowCursor(Some((1.0, 1.0)));
    expire_skill(&mut skill, false, Skill::Rest(30.0));
    assert_eq!(skill, Skill::FollowCursor(Some((1.0, 1.0))));
    expire_skill(&mut skill, true, Skill::Rest(30.0));
    assert_eq!(skill, Skill::Rest(30.0));
}

#[test]
fn started_skills_have_no_points() {
    let f: S = SkillChoice::FollowCursor.started_skill(0.0);
    let t: S = SkillChoice::TargetAttack.started_skill(0.0);
    let p: S = SkillChoice::Patrolling.started_skill(0.0);
    assert_eq!(f, Skill::FollowCursor(None));
    assert_eq!(t, Skill::TargetAttack(None, 0.0));
    assert_eq!(p, Skill::Patrolling(None, None));
}

fn view(at_first: bool, at_second: bool, near_first: bool, near_second: bool) -> PatrolView {
    PatrolView { at_first, at_second, points_coincide: false, near_first, near_second }
}

#[test]
fn patrol_goes_back_and_forth() {
    assert_eq!(patrol_step(view(false, false, false, false)), PatrolTarget::First);
    assert_eq!(patrol_step(view(false, false, true, false)), PatrolTarget::Second);
    assert_eq!(patrol_step(view(true, false, false, false)), PatrolTarget::Keep);
    assert_eq!(patrol_step(view(true, false, true, false)), PatrolTarget::Second);
    assert_eq!(patrol_step(view(false, true, false, true)), PatrolTarget::First);
    assert_eq!(patrol_step(view(false, true, false, false)), PatrolTarget::Keep);
}

#[test]
fn patrol_near_both_points_turns_twice() {
    assert_eq!(patrol_step(view(true, false, true, true)), PatrolTarget::First);
    let same = PatrolView { at_first: true, at_second: true, points_coincide: true, near_first: true, near_second: false };
    assert_eq!(patrol_step(same), PatrolTarget::Second);
}

fn secs(secs: u64) -> Span {
    Span { secs, nanos: 0 }
}

#[test]
fn cooldown_end_resets_the_skill() {
    let mut cooldown = Cooldown::default();
    cooldown.restart(secs(2));
    let mut skill: S = Skill::TargetAttack(None, 0.0);
    assert!(!tick_skill_cooldown(&mut cooldown, &mut skill, secs(1), Skill::Rest(30.0)));
    assert_eq!(skill, Skill::TargetAttack(None, 0.0));
    assert_eq!(cooldown.elapsed, secs(1));
    assert!(tick_skill_cooldown(&mut cooldown, &mut skill, secs(1), Skill::Rest(30.0)));
    assert_eq!(skill, Skill::Rest(30.0));
    assert!(cooldown.finished);
    let mut later: S = Skill::FollowCursor(None);
    assert!(!tick_skill_cooldown(&mut cooldown, &mut later, secs(1), Skill::Rest(30.0)));
    assert_eq!(later, Skill::FollowCursor(None));
    assert_eq!(cooldown.elapsed, secs(2));
}

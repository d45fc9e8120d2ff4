//! Skills: what a character orders its microbes to do.
//!
//! A skill is generic over the point type `P` (a position in the world) and
//! the scalar type `S` (a radius or a damping factor); the rules here only
//! choose and move such values, they never compute with them.
use vstd::prelude::*;
use crate::cooldown::{Cooldown, Span};

verus! {

/// A character's skill, and the order each of its microbes follows.
#[derive(Clone, Copy, Debug, PartialEq)]
pub enum Skill<P, S> {
    /// Walk back and forth between two points.
    Patrolling(Option<P>, Option<P>),
    /// Circle the character at the given radius.
    Rest(S),
    /// Attack a point with the given damping.
    TargetAttack(Option<P>, S),
    /// Follow a point.
    FollowCursor(Option<P>),
}

/// The skills a player can start from the keyboard.
#[derive(Clone, Copy, Debug, PartialEq, Eq, Structural)]
pub enum SkillChoice {
    FollowCursor,
    TargetAttack,
    Patrolling,
}

impl SkillChoice {
    /// The skill a character takes when the player starts this one: no
    /// point is chosen yet, and an attack starts with `no_damping`.
    pub fn started_skill<P, S>(self, no_damping: S) -> (skill: Skill<P, S>)
        ensures
            skill == (match self {
                SkillChoice::FollowCursor => Skill::<P, S>::FollowCursor(None),
                SkillChoice::TargetAttack => Skill::<P, S>::TargetAttack(None, no_damping),
                SkillChoice::Patrolling => Skill::<P, S>::Patrolling(None, None),
            }),
    {
        match self {
            SkillChoice::FollowCursor => Skill::FollowCursor(None),
            SkillChoice::TargetAttack => Skill::TargetAttack(None, no_damping),
            SkillChoice::Patrolling => Skill::Patrolling(None, None),
        }
    }
}

/// The first of the two points that is present.
pub open spec fn first_present<P>(targets: (Option<P>, Option<P>)) -> Option<P> {
    if targets.0 is Some {
        targets.0
    } else {
        targets.1
    }
}

/// The two patrol points: when at least one point is present, a missing one
/// is replaced by `home`.
pub open spec fn patrol_points<P>(targets: (Option<P>, Option<P>), home: P) -> (Option<P>, Option<P>) {
    if targets.0 is None && targets.1 is None {
        (None, None)
    } else {
        (
            Some(if targets.0 is Some { targets.0->0 } else { home }),
            Some(if targets.1 is Some { targets.1->0 } else { home }),
        )
    }
}

/// The order a character's microbes follow under the character's skill:
/// the same kind of skill, at rest on the given radius, attacking the first
/// marked point, following the first point, or patrolling between the two
/// points.
pub open spec fn child_order<P, S>(
    parent: Skill<P, S>,
    targets: (Option<P>, Option<P>),
    home: P,
    rest_radius: S,
    attack_damping: S,
) -> Skill<P, S> {
    match parent {
        Skill::Rest(_) => Skill::Rest(rest_radius),
        Skill::TargetAttack(_, _) => Skill::TargetAttack(first_present(targets), attack_damping),
        Skill::FollowCursor(_) => Skill::FollowCursor(targets.0),
        Skill::Patrolling(_, _) => Skill::Patrolling(
            patrol_points(targets, home).0,
            patrol_points(targets, home).1,
        ),
    }
}

/// Derives the order a character's microbes follow under its skill.
///
/// `targets` are the player's two marked points, already taken relative to
/// the character; `home` is the character's own place in that frame;
/// `rest_radius` is the circle the microbes keep at rest, and
/// `attack_damping` the damping of an attack.
pub fn child_skill<P: Copy, S: Copy>(
    parent: &Skill<P, S>,
    targets: (Option<P>, Option<P>),
    home: P,
    rest_radius: S,
    attack_damping: S,
) -> (order: Skill<P, S>)
    ensures
        order == child_order(*parent, targets, home, rest_radius, attack_damping),
{
    match parent {
        Skill::Rest(_) => Skill::Rest(rest_radius),
        Skill::TargetAttack(_, _) => {
            let target = match targets {
                (Some(first), None) => Some(first),
                (None, Some(second)) => Some(second),
                (Some(first), Some(_)) => Some(first),
                (None, None) => None,
            };
            Skill::TargetAttack(target, attack_damping)
        },
        Skill::FollowCursor(_) => {
            let target = match targets {
                (Some(first), None) => Some(first),
                (Some(first), Some(_)) => Some(first),
                _ => None,
            };
            Skill::FollowCursor(target)
        },
        Skill::Patrolling(_, _) => {
            let (first, second) = match targets {
                (Some(first), None) => (Some(first), Some(home)),
                (None, Some(second)) => (Some(home), Some(second)),
                (Some(first), Some(second)) => (Some(first), Some(second)),
                (None, None) => (None, None),
            };
            Skill::Patrolling(first, second)
        },
    }
}

/// Whether a microbe takes the order derived from its character's skill: an
/// attack order is only given to a microbe whose current order differs
/// from the character's skill; every other order is always given.
pub fn order_replaces<P, S>(parent: &Skill<P, S>, child_equals_parent: bool) -> (replace: bool)
    ensures
        replace == (!(parent is TargetAttack) || !child_equals_parent),
{
    match parent {
        Skill::TargetAttack(_, _) => !child_equals_parent,
        _ => true,
    }
}

/// A skill whose cooldown just ran out falls back to `default_skill`.
pub fn expire_skill<P, S>(skill: &mut Skill<P, S>, cooldown_just_finished: bool, default_skill: Skill<P, S>)
    ensures
        *final(skill) == (if cooldown_just_finished { default_skill } else { *old(skill) }),
{
    if cooldown_just_finished {
        *skill = default_skill;
    }
}

/// Advances a character's skill cooldown by `delta`; when the cooldown
/// ends during this tick (the returned flag) the skill falls back to
/// `default_skill`, otherwise it stays.
pub fn tick_skill_cooldown<P, S>(
    cooldown: &mut Cooldown,
    skill: &mut Skill<P, S>,
    delta: Span,
    default_skill: Skill<P, S>,
) -> (expired: bool)
    requires
        old(cooldown).tick_fits(delta),
    ensures
        *final(cooldown) == old(cooldown).ticked(delta),
        expired == old(cooldown).ticked(delta).just_finished,
        *final(skill) == (if expired { default_skill } else { *old(skill) }),
{
    cooldown.tick(delta);
    let expired = cooldown.just_finished;
    expire_skill(skill, expired, default_skill);
    expired
}

/// Which point a patrolling microbe heads for next.
#[derive(Clone, Copy, Debug, PartialEq, Eq, Structural)]
pub enum PatrolTarget {
    /// Keep the current target.
    Keep,
    /// Head for the first patrol point.
    First,
    /// Head for the second patrol point.
    Second,
}

/// What a patrolling microbe knows of its current target and the two patrol
/// points.
#[derive(Clone, Copy, Debug, PartialEq, Eq, Structural)]
pub struct PatrolView {
    /// The current target is the first point.
    pub at_first: bool,
    /// The current target is the second point.
    pub at_second: bool,
    /// The two points coincide.
    pub points_coincide: bool,
    /// The microbe is close to the first point.
    pub near_first: bool,
    /// The microbe is close to the second point.
    pub near_second: bool,
}

/// Whether the target chosen by `choice` is the first, resp. second, point.
pub open spec fn target_is_first(v: PatrolView, choice: PatrolTarget) -> bool {
    match choice {
        PatrolTarget::Keep => v.at_first,
        PatrolTarget::First => true,
        PatrolTarget::Second => v.points_coincide,
    }
}

pub open spec fn target_is_second(v: PatrolView, choice: PatrolTarget) -> bool {
    match choice {
        PatrolTarget::Keep => v.at_second,
        PatrolTarget::First => v.points_coincide,
        PatrolTarget::Second => true,
    }
}

/// The patrol rule, applied in order: a target off both points is moved to
/// the first point; a target on the first point that the microbe has
/// nearly reached moves to the second; a target on the second point that
/// the microbe has nearly reached moves back to the first.
pub open spec fn patrol_rule(v: PatrolView) -> PatrolTarget {
    let c1 = if !v.at_first && !v.at_second { PatrolTarget::First } else { PatrolTarget::Keep };
    let c2 = if target_is_first(v, c1) && v.near_first { PatrolTarget::Second } else { c1 };
    if target_is_second(v, c2) && v.near_second { PatrolTarget::First } else { c2 }
}

/// Chooses a patrolling microbe's next target.
pub fn patrol_step(v: PatrolView) -> (choice: PatrolTarget)
    ensures
        choice == patrol_rule(v),
{
    let mut choice = PatrolTarget::Keep;
    let mut at_first = v.at_first;
    let mut at_second = v.at_second;
    if !at_first && !at_second {
        choice = PatrolTarget::First;
        at_first = true;
        at_second = v.points_coincide;
    }
    if at_first && v.near_first {
        choice = PatrolTarget::Second;
        at_second = true;
        at_first = v.points_coincide;
    }
    if at_second && v.near_second {
        choice = PatrolTarget::First;
    }
    choice
}

/// After a patrol step the microbe's target is always one of the two
/// patrol points.
pub proof fn lemma_patrol_target_on_a_point(v: PatrolView)
    ensures
        target_is_first(v, patrol_rule(v)) || target_is_second(v, patrol_rule(v)),
{
}

/// A microbe that has nearly reached its target point, and is not near the
/// other point, turns to the other point.
pub proof fn lemma_patrol_turns_at_a_point(v: PatrolView)
    requires
        !v.points_coincide,
        !(v.at_first && v.at_second),
    ensures
        v.at_first && v.near_first && !v.near_second ==> patrol_rule(v) == PatrolTarget::Second,
        v.at_second && v.near_second && !v.at_first ==> patrol_rule(v) == PatrolTarget::First,
        v.at_first && !v.near_first ==> patrol_rule(v) == PatrolTarget::Keep,
        v.at_second && !v.near_second ==> patrol_rule(v) == PatrolTarget::Keep,
{
}

/// A microbe only turns toward a point other than its target when it is
/// near its target, or when its target is off both points: being near the
/// point it comes from never turns it back.
pub proof fn lemma_patrol_turns_only_at_target(v: PatrolView)
    requires
        !v.points_coincide,
        !(v.at_first && v.at_second),
    ensures
        v.at_first && patrol_rule(v) != PatrolTarget::Keep ==> v.near_first,
        v.at_second && patrol_rule(v) != PatrolTarget::Keep ==> v.near_second,
        !v.at_first && !v.at_second ==> patrol_rule(v) != PatrolTarget::Keep,
        v.at_second && !v.near_second ==> patrol_rule(v) == patrol_rule(
            PatrolView { near_first: !v.near_first, ..v },
        ),
        v.at_first && !v.near_first ==> patrol_rule(v) == patrol_rule(
            PatrolView { near_second: !v.near_second, ..v },
        ),
{
}

/// The microbes' orders keep the character's kind of skill; an attack
/// aims at the first marked point when there is one and at the second
/// otherwise; a patrol has both of its points exactly when at least one
/// point is marked, and keeps every marked point.
pub proof fn lemma_child_orders_follow_parent<P, S>(
    parent: Skill<P, S>,
    targets: (Option<P>, Option<P>),
    home: P,
    rest_radius: S,
    attack_damping: S,
)
    ensures
        child_order(parent, targets, home, rest_radius, attack_damping) is Rest <==> parent is Rest,
        child_order(parent, targets, home, rest_radius, attack_damping) is TargetAttack
            <==> parent is TargetAttack,
        child_order(parent, targets, home, rest_radius, attack_damping) is FollowCursor
            <==> parent is FollowCursor,
        child_order(parent, targets, home, rest_radius, attack_damping) is Patrolling
            <==> parent is Patrolling,
        targets.0 is Some ==> first_present(targets) == targets.0,
        targets.0 is None ==> first_present(targets) == targets.1,
        (targets.0 is Some || targets.1 is Some) <==> (patrol_points(targets, home).0 is Some
            && patrol_points(targets, home).1 is Some),
        targets.0 is Some ==> patrol_points(targets, home).0 == targets.0,
        targets.1 is Some ==> patrol_points(targets, home).1 == targets.1,
{
}

/// What each skill orders, point by point: at rest the microbes keep the
/// rest radius; following, they follow the first marked point whenever it
/// is marked, whatever the second point is, and nothing otherwise;
/// attacking, they attack the first marked point, or the second when only
/// that one is marked, with the attack damping; patrolling, they walk
/// between the marked points, a missing one replaced by home, and stay put
/// when no point is marked.  The order never depends on what the
/// character's skill held before.
pub proof fn lemma_child_order_points<P, S>(
    parent: Skill<P, S>,
    other_parent: Skill<P, S>,
    targets: (Option<P>, Option<P>),
    home: P,
    rest_radius: S,
    attack_damping: S,
)
    ensures
        parent is Rest ==> child_order(parent, targets, home, rest_radius, attack_damping)
            == Skill::<P, S>::Rest(rest_radius),
        parent is FollowCursor ==> child_order(parent, targets, home, rest_radius, attack_damping)
            == Skill::<P, S>::FollowCursor(targets.0),
        parent is TargetAttack && targets.0 is Some ==> child_order(
            parent,
            targets,
            home,
            rest_radius,
            attack_damping,
        ) == Skill::<P, S>::TargetAttack(targets.0, attack_damping),
        parent is TargetAttack && targets.0 is None ==> child_order(
            parent,
            targets,
            home,
            rest_radius,
            attack_damping,
        ) == Skill::<P, S>::TargetAttack(targets.1, attack_damping),
        parent is Patrolling && targets.0 is Some && targets.1 is Some ==> child_order(
            parent,
            targets,
            home,
            rest_radius,
            attack_damping,
        ) == Skill::<P, S>::Patrolling(targets.0, targets.1),
        parent is Patrolling && targets.0 is Some && targets.1 is None ==> child_order(
            parent,
            targets,
            home,
            rest_radius,
            attack_damping,
        ) == Skill::<P, S>::Patrolling(targets.0, Some(home)),
        parent is Patrolling && targets.0 is None && targets.1 is Some ==> child_order(
            parent,
            targets,
            home,
            rest_radius,
            attack_damping,
        ) == Skill::<P, S>::Patrolling(Some(home), targets.1),
        parent is Patrolling && targets.0 is None && targets.1 is None ==> child_order(
            parent,
            targets,
            home,
            rest_radius,
            attack_damping,
        ) == Skill::<P, S>::Patrolling(None, None),
        ((parent is Rest && other_parent is Rest) || (parent is FollowCursor
            && other_parent is FollowCursor) || (parent is TargetAttack
            && other_parent is TargetAttack) || (parent is Patrolling
            && other_parent is Patrolling)) ==> child_order(
            parent,
            targets,
            home,
            rest_radius,
            attack_damping,
        ) == child_order(other_parent, targets, home, rest_radius, attack_damping),
        parent is FollowCursor ==> child_order(parent, targets, home, rest_radius, attack_damping)
            == child_order(parent, (targets.0, None), home, rest_radius, attack_damping),
{
}

} // verus!

//! The player's input: moving with W, A, S and D, asking for microbes with
//! Q, starting skills with 1, 2 and 3, and marking points with the mouse.
use vstd::prelude::*;
use crate::skills::SkillChoice;

verus! {

/// The keys the game reads in one frame.
#[derive(Clone, Copy, Debug, PartialEq, Eq, Structural)]
pub struct KeyState {
    /// W, A, S and D are held.
    pub up: bool,
    pub left: bool,
    pub down: bool,
    pub right: bool,
    /// Q went down in this frame.
    pub spawn_just_pressed: bool,
    /// 1, 2 and 3 are held.
    pub skill1: bool,
    pub skill2: bool,
    pub skill3: bool,
}

/// What the keys order in one frame.
#[derive(Clone, Debug, PartialEq, Eq)]
pub struct KeyboardOrders {
    /// The direction of the player's step, before it is normalised: each
    /// coordinate is `-1`, `0` or `1`.
    pub step_x: i8,
    pub step_y: i8,
    /// The player's character must spawn microbes.
    pub spawn_microbes: bool,
    /// The skills started in this frame, in the order of their keys; each
    /// replaces the one before, so the last one is the skill that stays.
    pub started: Vec<SkillChoice>,
    /// The skill that stays started, if any.
    pub skill: Option<SkillChoice>,
}

/// The horizontal and vertical direction the movement keys ask for.
pub open spec fn step_of(keys: KeyState) -> (int, int) {
    (
        (if keys.right { 1int } else { 0int }) - (if keys.left { 1int } else { 0int }),
        (if keys.up { 1int } else { 0int }) - (if keys.down { 1int } else { 0int }),
    )
}

/// The skills the number keys start, in the order of the keys, when a
/// skill can be started at all.
pub open spec fn started_of(keys: KeyState, skill_ready: bool, points_present: bool) -> Seq<
    SkillChoice,
> {
    if !skill_ready || !points_present {
        Seq::empty()
    } else {
        (if keys.skill1 { seq![SkillChoice::FollowCursor] } else { Seq::empty() }) + (if keys.skill2 {
            seq![SkillChoice::TargetAttack]
        } else {
            Seq::empty()
        }) + (if keys.skill3 { seq![SkillChoice::Patrolling] } else { Seq::empty() })
    }
}

/// The skill the number keys start, when one can be started: when several
/// are held the highest number wins.
pub open spec fn skill_of(keys: KeyState, skill_ready: bool, points_present: bool) -> Option<
    SkillChoice,
> {
    if !skill_ready || !points_present {
        None
    } else if keys.skill3 {
        Some(SkillChoice::Patrolling)
    } else if keys.skill2 {
        Some(SkillChoice::TargetAttack)
    } else if keys.skill1 {
        Some(SkillChoice::FollowCursor)
    } else {
        None
    }
}

/// Reads the keys of one frame.  A skill is only started when its
/// cooldown is over (`skill_ready`) and at least one point is marked
/// (`points_present`).
pub fn keyboard_orders(keys: KeyState, skill_ready: bool, points_present: bool) -> (orders:
    KeyboardOrders)
    ensures
        orders.step_x == step_of(keys).0,
        orders.step_y == step_of(keys).1,
        orders.spawn_microbes == keys.spawn_just_pressed,
        orders.started@ == started_of(keys, skill_ready, points_present),
        orders.skill == skill_of(keys, skill_ready, points_present),
{
    let mut step_x: i8 = 0;
    let mut step_y: i8 = 0;
    if keys.up {
        step_y = step_y + 1;
    }
    if keys.left {
        step_x = step_x - 1;
    }
    if keys.right {
        step_x = step_x + 1;
    }
    if keys.down {
        step_y = step_y - 1;
    }
    let mut skill: Option<SkillChoice> = None;
    let mut started: Vec<SkillChoice> = Vec::new();
    if skill_ready && points_present {
        if keys.skill1 {
            skill = Some(SkillChoice::FollowCursor);
            started.push(SkillChoice::FollowCursor);
        }
        if keys.skill2 {
            skill = Some(SkillChoice::TargetAttack);
            started.push(SkillChoice::TargetAttack);
        }
        if keys.skill3 {
            skill = Some(SkillChoice::Patrolling);
            started.push(SkillChoice::Patrolling);
        }
    }
    proof {
        assert(started@ =~= started_of(keys, skill_ready, points_present));
    }
    KeyboardOrders { step_x, step_y, spawn_microbes: keys.spawn_just_pressed, started, skill }
}

/// Whether at least one of the two points is marked.
pub fn points_present<P>(targets: &(Option<P>, Option<P>)) -> (present: bool)
    ensures
        present == (targets.0 is Some || targets.1 is Some),
{
    targets.0.is_some() || targets.1.is_some()
}

/// A click on a point slot: a marked point is removed, an empty slot marks
/// the cursor.
pub open spec fn toggled<P>(slot: Option<P>, cursor: P) -> Option<P> {
    if slot is Some {
        None
    } else {
        Some(cursor)
    }
}

/// Applies the mouse clicks of one frame: the left button toggles the first
/// point, the right button the second.
pub fn click_cursor_targets<P: Copy>(
    targets: &mut (Option<P>, Option<P>),
    cursor: P,
    left_clicked: bool,
    right_clicked: bool,
)
    ensures
        final(targets).0 == (if left_clicked { toggled(old(targets).0, cursor) } else { old(targets).0 }),
        final(targets).1 == (if right_clicked { toggled(old(targets).1, cursor) } else { old(targets).1 }),
{
    if left_clicked {
        if targets.0.is_some() {
            targets.0 = None;
        } else {
            targets.0 = Some(cursor);
        }
    }
    if right_clicked {
        if targets.1.is_some() {
            targets.1 = None;
        } else {
            targets.1 = Some(cursor);
        }
    }
}

/// The skill that stays started is the last of those started in the frame,
/// and none stays started when none was started.
pub proof fn lemma_last_started_skill_stays(keys: KeyState, skill_ready: bool, points_present: bool)
    ensures
        started_of(keys, skill_ready, points_present).len() == 0 <==> skill_of(
            keys,
            skill_ready,
            points_present,
        ) is None,
        started_of(keys, skill_ready, points_present).len() > 0 ==> skill_of(
            keys,
            skill_ready,
            points_present,
        ) == Some(started_of(keys, skill_ready, points_present).last()),
{
}

/// Clicking twice on a point slot leaves it empty, and a click on an empty
/// slot marks exactly the cursor.
pub proof fn lemma_click_twice_clears<P>(slot: Option<P>, first: P, second: P)
    ensures
        slot is None ==> toggled(slot, first) == Some(first),
        toggled(toggled(slot, first), second) is None <==> slot is None,
{
}

/// Opposite movement keys cancel each other, and every step coordinate is
/// `-1`, `0` or `1`.
pub proof fn lemma_step_bounded(keys: KeyState)
    ensures
        -1 <= step_of(keys).0 <= 1,
        -1 <= step_of(keys).1 <= 1,
        keys.left && keys.right ==> step_of(keys).0 == 0,
        keys.up && keys.down ==> step_of(keys).1 == 0,
{
}

/// Each movement key moves on its own axis, whatever else is held: holding
/// D adds one step to the right and A one to the left, W one up and S one
/// down, and no key touches the other axis.  With no movement key held
/// the player stays.
pub proof fn lemma_keys_move_independently(keys: KeyState)
    ensures
        step_of(KeyState { right: true, ..keys }).0 == step_of(KeyState { right: false, ..keys }).0
            + 1,
        step_of(KeyState { right: true, ..keys }).1 == step_of(KeyState { right: false, ..keys }).1,
        step_of(KeyState { left: true, ..keys }).0 == step_of(KeyState { left: false, ..keys }).0
            - 1,
        step_of(KeyState { left: true, ..keys }).1 == step_of(KeyState { left: false, ..keys }).1,
        step_of(KeyState { up: true, ..keys }).1 == step_of(KeyState { up: false, ..keys }).1 + 1,
        step_of(KeyState { up: true, ..keys }).0 == step_of(KeyState { up: false, ..keys }).0,
        step_of(KeyState { down: true, ..keys }).1 == step_of(KeyState { down: false, ..keys }).1
            - 1,
        step_of(KeyState { down: true, ..keys }).0 == step_of(KeyState { down: false, ..keys }).0,
        !keys.up && !keys.left && !keys.down && !keys.right ==> step_of(keys) == (0int, 0int),
{
}

} // verus!

//! When bots and microbes are spawned, and how a free place for a new bot
//! is searched.
use vstd::prelude::*;
use crate::status::GameStatus;
use crate::groups::{CharacterCollisionGroup, character_groups_from, store_after_character};

verus! {

/// How many flags are set.
pub open spec fn count_true(flags: Seq<bool>) -> nat
    decreases flags.len(),
{
    if flags.len() == 0 {
        0
    } else {
        count_true(flags.drop_last()) + if flags.last() { 1nat } else { 0nat }
    }
}

/// The bots counted in a sequence of flags are exactly the flags that are
/// set: adding a set flag counts one more, adding a clear one counts none,
/// and the count is the length of the sequence's set flags.
pub proof fn lemma_count_true_counts_set_flags(flags: Seq<bool>, flag: bool)
    ensures
        count_true(flags.push(flag)) == count_true(flags) + if flag { 1int } else { 0int },
        count_true(flags) == flags.filter(|b: bool| b).len(),
        count_true(flags) <= flags.len(),
    decreases flags.len(),
{
    assert(flags.push(flag).drop_last() =~= flags);
    if flags.len() > 0 {
        lemma_count_true_counts_set_flags(flags.drop_last(), flags.last());
        assert(flags.drop_last().push(flags.last()) =~= flags);
        flags.drop_last().lemma_filter_len_push(|b: bool| b, flags.last());
    } else {
        assert(flags.filter(|b: bool| b) =~= Seq::<bool>::empty()) by {
            reveal(Seq::filter);
        }
    }
}

/// Whether the character spawner adds a bot in this frame, once it finds
/// a free place: only while the game is played, and only while fewer
/// characters than `max_count_bots` are bots (`bot_flags` holds, for each
/// character, whether it is a bot).  A frame adds at most this one bot.
pub fn wants_new_bot(status: GameStatus, bot_flags: &Vec<bool>, max_count_bots: i32) -> (wanted:
    bool)
    ensures
        wanted == (status == GameStatus::Game && count_true(bot_flags@) < max_count_bots as int),
{
    if !status.is_running() {
        return false;
    }
    let mut bot_count: u64 = 0;
    let mut i: usize = 0;
    while i < bot_flags.len()
        invariant
            i <= bot_flags.len(),
            bot_count == count_true(bot_flags@.take(i as int)),
            bot_count <= i,
        decreases bot_flags.len() - i,
    {
        proof {
            assert(bot_flags@.take((i + 1) as int).drop_last() =~= bot_flags@.take(i as int));
        }
        if bot_flags[i] {
            bot_count = bot_count + 1;
        }
        i = i + 1;
    }
    proof {
        assert(bot_flags@.take(bot_flags.len() as int) =~= bot_flags@);
    }
    if max_count_bots <= 0 {
        false
    } else {
        bot_count < max_count_bots as u64
    }
}

/// One step of a character's microbe spawning.
#[derive(Clone, Copy, Debug, PartialEq, Eq, Structural)]
pub enum SpawnStep {
    /// Spawning does not start in this frame: nothing is spent or spawned,
    /// and the request stays as it is.
    Idle,
    /// Pay the price and spawn one microbe.
    Spawn,
    /// The character already has its maximum of microbes: stop.
    Full,
    /// The energy no longer covers the price: stop.
    Exhausted,
}

/// Whether spawning goes on in this step: it is already under way, or it
/// starts now because the game is played, the character asks for microbes
/// and its energy covers the price.
pub open spec fn spawning_goes_on(
    status: GameStatus,
    request: bool,
    under_way: bool,
    energy_covers_price: bool,
) -> bool {
    under_way || (status == GameStatus::Game && request && energy_covers_price)
}

/// Decides the next step of a character's microbe spawning in one frame.
/// `request` is the character's request for microbes; `under_way` tells
/// whether this frame already spawned (false for the first step);
/// `children` is how many children the character had when the frame began,
/// `max_count` the most microbes a character may have, and
/// `energy_covers_price` whether the character's energy is above the price
/// of a microbe.  Spawning that does not go on leaves the request as it
/// is; spawning that stops drops it.
pub fn microbe_spawn_step(
    status: GameStatus,
    request: &mut bool,
    under_way: bool,
    children: usize,
    max_count: i32,
    energy_covers_price: bool,
) -> (step: SpawnStep)
    ensures
        step == SpawnStep::Idle <==> !spawning_goes_on(status, *old(request), under_way, energy_covers_price),
        step == SpawnStep::Exhausted <==> spawning_goes_on(status, *old(request), under_way, energy_covers_price)
            && !energy_covers_price,
        step == SpawnStep::Full <==> spawning_goes_on(status, *old(request), under_way, energy_covers_price)
            && energy_covers_price && children >= max_count as usize,
        step == SpawnStep::Spawn <==> spawning_goes_on(status, *old(request), under_way, energy_covers_price)
            && energy_covers_price && children < max_count as usize,
        *final(request) == (if step == SpawnStep::Full || step == SpawnStep::Exhausted {
            false
        } else {
            *old(request)
        }),
{
    if !under_way && !(status.is_running() && *request && energy_covers_price) {
        SpawnStep::Idle
    } else if !energy_covers_price {
        *request = false;
        SpawnStep::Exhausted
    } else if children >= max_count as usize {
        *request = false;
        SpawnStep::Full
    } else {
        SpawnStep::Spawn
    }
}

/// Takes the collision groups of a new bot out of `store`, but only when a
/// bot is wanted and a free place for it was found; otherwise the store is
/// left as it was.
pub fn bot_spawn_groups(wanted: bool, place_found: bool, store: &mut u32) -> (groups: Option<
    CharacterCollisionGroup,
>)
    ensures
        wanted && place_found ==> groups == Some(character_groups_from(*old(store)))
            && *final(store) == store_after_character(*old(store)),
        !(wanted && place_found) ==> groups is None && *final(store) == *old(store),
{
    if wanted && place_found {
        Some(CharacterCollisionGroup::take_from(store))
    } else {
        None
    }
}

/// The number of bots after a frame that starts with `count` bots: the
/// spawner adds one bot when it wants one and finds a free place.
pub open spec fn bots_after_frame(count: nat, max_count_bots: int, running: bool, place_found: bool) -> nat {
    if running && count < max_count_bots && place_found {
        count + 1
    } else {
        count
    }
}

/// The number of bots after a run of frames, each given by whether the game
/// was played and whether a free place was found.
pub open spec fn bots_after(count: nat, max_count_bots: int, frames: Seq<(bool, bool)>) -> nat
    decreases frames.len(),
{
    if frames.len() == 0 {
        count
    } else {
        bots_after_frame(
            bots_after(count, max_count_bots, frames.drop_last()),
            max_count_bots,
            frames.last().0,
            frames.last().1,
        )
    }
}

/// The spawner never brings the number of bots above the quota: starting
/// within it, no run of frames leaves it.
pub proof fn lemma_bots_within_quota(count: nat, max_count_bots: int, frames: Seq<(bool, bool)>)
    requires
        count <= max_count_bots,
    ensures
        bots_after(count, max_count_bots, frames) <= max_count_bots,
    decreases frames.len(),
{
    if frames.len() > 0 {
        lemma_bots_within_quota(count, max_count_bots, frames.drop_last());
    }
}

/// How many places are tried before a new bot is given up.
pub const FREE_SPACE_ATTEMPTS: u32 = 100;

/// One step of the search for a free place.
#[derive(Clone, Copy, Debug, PartialEq, Eq, Structural)]
pub enum SearchStep {
    /// The tried place is free: take it.
    Accept,
    /// Try another random place.
    TryAgain,
    /// Every attempt failed: spawn nothing.
    GiveUp,
}

/// Decides what follows attempt number `attempt` (counting from zero) of
/// the search for a free place: a free place is taken; a taken one leads
/// to another attempt, unless this was the last of `FREE_SPACE_ATTEMPTS`
/// attempts, after which the search gives up.  So the search tries at most
/// `FREE_SPACE_ATTEMPTS` places.
pub fn free_space_step(attempt: u32, place_free: bool) -> (step: SearchStep)
    requires
        attempt < FREE_SPACE_ATTEMPTS,
    ensures
        step == SearchStep::Accept <==> place_free,
        step == SearchStep::TryAgain <==> !place_free && attempt + 1 < FREE_SPACE_ATTEMPTS,
        step == SearchStep::GiveUp <==> !place_free && attempt + 1 == FREE_SPACE_ATTEMPTS,
{
    if place_free {
        SearchStep::Accept
    } else if attempt + 1 < FREE_SPACE_ATTEMPTS {
        SearchStep::TryAgain
    } else {
        SearchStep::GiveUp
    }
}

/// Integer division that rounds toward zero.
pub open spec fn div_toward_zero(a: int, b: int) -> int {
    let q = (if a < 0 { -a } else { a }) / (if b < 0 { -b } else { b });
    if (a < 0) != (b < 0) {
        -q
    } else {
        q
    }
}

/// The zoom step of the player's camera: how many full populations of
/// `max_count` microbes the player's `children` make.
pub fn camera_zoom_step(children: usize, max_count: i32) -> (step: i32)
    requires
        max_count != 0,
        !(children as i32 == i32::MIN && max_count == -1),
    ensures
        step == div_toward_zero(children as i32 as int, max_count as int),
{
    let n = children as i32;
    let a: i64 = if n < 0 { -(n as i64) } else { n as i64 };
    let b: i64 = if max_count < 0 { -(max_count as i64) } else { max_count as i64 };
    let q: i64 = a / b;
    proof {
        assert(0 <= q <= a) by (nonlinear_arith)
            requires
                q == a / b,
                a >= 0,
                b >= 1,
        ;
    }
    if (n < 0) != (max_count < 0) {
        (-q) as i32
    } else {
        proof {
            assert(q <= i32::MAX) by (nonlinear_arith)
                requires
                    q == a / b,
                    0 <= a <= 2147483648,
                    b >= 1,
                    a == 2147483648 ==> b >= 2,
            ;
        }
        q as i32
    }
}

} // verus!

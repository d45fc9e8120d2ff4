//! Collision groups.
//!
//! Every character owns two of the 32 physics collision groups: one for its
//! own body (`parent_id`) and one shared by all of its microbes
//! (`child_id`).  Free groups are kept as set bits of a `u32` store; a group
//! is handed out as a single-bit mask and given back by or-ing it into the
//! store again.
use vstd::prelude::*;

verus! {

/// Whether bit `i` of `x` is set.
pub open spec fn bit_set(x: u32, i: u32) -> bool {
    (x >> i) & 1u32 == 1u32
}

/// `i` is the index of the lowest set bit of `x`.
pub open spec fn is_lowest_index(x: u32, i: u32) -> bool {
    &&& i < 32
    &&& bit_set(x, i)
    &&& forall|j: u32| j < i ==> !#[trigger] bit_set(x, j)
}

/// The group that a take from store `x` hands out: the lowest set bit of `x`
/// as a single-bit mask, or `0` when no group is free.
pub open spec fn lowest_group(x: u32) -> u32 {
    if x == 0 {
        0u32
    } else {
        1u32 << (choose|i: u32| is_lowest_index(x, i))
    }
}

/// Mask of the bits below bit `i` (all 32 bits when `i == 32`).
pub open spec fn below_mask(i: u32) -> u32 {
    ((1u64 << i) - 1u64) as u32
}

/// `g` is a single group: exactly one bit set.
pub open spec fn single_group(g: u32) -> bool {
    g != 0 && g & ((g - 1u32) as u32) == 0
}

proof fn lemma_bit_test(x: u32, i: u32)
    by (bit_vector)
    requires
        i < 32,
    ensures
        (x & (1u32 << i) != 0) == ((x >> i) & 1u32 == 1u32),
{
}

proof fn lemma_below_step(x: u32, i: u32)
    by (bit_vector)
    requires
        i < 32,
        x & below_mask(i) == 0,
        x & (1u32 << i) == 0,
    ensures
        x & below_mask((i + 1) as u32) == 0,
{
}

proof fn lemma_clear_lowest(x: u32, i: u32)
    by (bit_vector)
    requires
        i < 32,
        x & below_mask(i) == 0,
    ensures
        x & (!1u32 << i) == x & !(1u32 << i),
{
}

proof fn lemma_below_bounds(x: u32)
    by (bit_vector)
    ensures
        x & below_mask(0) == 0,
        x & below_mask(32) == 0 ==> x == 0,
        x == 0 ==> x & !0u32 == x,
{
}

proof fn lemma_bit_set_nonzero(x: u32, i: u32)
    by (bit_vector)
    requires
        i < 32,
        (x >> i) & 1u32 == 1u32,
    ensures
        x != 0,
        x & (1u32 << i) == (1u32 << i),
        (x & !(1u32 << i)) | (1u32 << i) == x,
        (x & !(1u32 << i)) & (1u32 << i) == 0,
        (1u32 << i) != 0,
        (1u32 << i) & (((1u32 << i) - 1u32) as u32) == 0,
{
}

/// The lowest set bit of `x` is unique, so `lowest_group` names it.
pub proof fn lemma_lowest_group_is(x: u32, i: u32)
    requires
        is_lowest_index(x, i),
    ensures
        x != 0,
        lowest_group(x) == 1u32 << i,
{
    lemma_bit_set_nonzero(x, i);
    let k = choose|k: u32| is_lowest_index(x, k);
    assert(is_lowest_index(x, k));
    if k < i {
        assert(!bit_set(x, k));
    } else if i < k {
        assert(!bit_set(x, i));
    }
}

/// Searching upward from bit `k`, below which `x` has no set bit, finds the
/// lowest set bit of a nonzero `x`.
proof fn lemma_lowest_from(x: u32, k: u32) -> (i: u32)
    requires
        x != 0,
        k <= 32,
        x & below_mask(k) == 0,
        forall|j: u32| j < k ==> !#[trigger] bit_set(x, j),
    ensures
        is_lowest_index(x, i),
        lowest_group(x) == 1u32 << i,
    decreases 32 - k,
{
    if k == 32 {
        lemma_below_bounds(x);
        assert(false);
        0
    } else {
        lemma_bit_test(x, k);
        if x & (1u32 << k) != 0 {
            lemma_lowest_group_is(x, k);
            k
        } else {
            lemma_below_step(x, k);
            lemma_lowest_from(x, (k + 1) as u32)
        }
    }
}

/// Every nonzero store has a lowest set bit.
proof fn lemma_lowest_exists(x: u32) -> (i: u32)
    requires
        x != 0,
    ensures
        is_lowest_index(x, i),
        lowest_group(x) == 1u32 << i,
{
    lemma_below_bounds(x);
    lemma_lowest_from(x, 0)
}

/// Facts about a group taken from store `x`: it is `0` exactly when the
/// store is empty, otherwise it is a single group that was free in `x` and
/// is no longer free afterwards; giving it back restores `x`.
pub proof fn lemma_take_facts(x: u32)
    ensures
        x == 0 ==> lowest_group(x) == 0,
        x != 0 ==> single_group(lowest_group(x)),
        x & lowest_group(x) == lowest_group(x),
        (x & !lowest_group(x)) & lowest_group(x) == 0,
        (x & !lowest_group(x)) | lowest_group(x) == x,
{
    if x == 0 {
        assert(0u32 & 0u32 == 0u32 && (0u32 & !0u32) & 0u32 == 0u32 && (0u32 & !0u32) | 0u32
            == 0u32) by (bit_vector);
    } else {
        let i = lemma_lowest_exists(x);
        lemma_bit_set_nonzero(x, i);
    }
}

/// Takes the lowest free group out of `store` and returns it as a
/// single-bit mask; returns `0` and leaves the store alone when no group is
/// free.
pub fn bit_map_group_take(store: &mut u32) -> (group: u32)
    ensures
        group == lowest_group(*old(store)),
        *final(store) == *old(store) & !group,
{
    let mut i: u32 = 0;
    proof {
        lemma_below_bounds(*store);
    }
    while i < 32
        invariant
            i <= 32,
            *store == *old(store),
            *store & below_mask(i) == 0,
            forall|j: u32| j < i ==> !#[trigger] bit_set(*store, j),
        decreases 32 - i,
    {
        proof {
            lemma_bit_test(*store, i);
        }
        if *store & (1u32 << i) != 0 {
            proof {
                lemma_clear_lowest(*store, i);
                lemma_lowest_group_is(*store, i);
            }
            *store = *store & !1u32 << i;
            return 1u32 << i;
        }
        proof {
            lemma_below_step(*store, i);
        }
        i = i + 1;
    }
    proof {
        lemma_below_bounds(*store);
    }
    0u32
}

/// Gives `group` back to the store.
pub fn bit_map_group_back(store: &mut u32, group: u32)
    ensures
        *final(store) == *old(store) | group,
{
    *store = *store | group
}

/// The store of free collision groups.  A fresh store has every one of
/// the 32 groups free.
pub struct CharacterCollisionGroups(pub u32);

impl Default for CharacterCollisionGroups {
    fn default() -> (pool: Self)
        ensures
            pool.0 == u32::MAX,
    {
        CharacterCollisionGroups(u32::MAX)
    }
}

/// The two collision groups of one character: `parent_id` for the
/// character's body and `child_id` for all of its microbes.
#[derive(Clone, Copy, Debug, PartialEq, Eq, Structural)]
pub struct CharacterCollisionGroup {
    pub parent_id: u32,
    pub child_id: u32,
}

impl Default for CharacterCollisionGroup {
    fn default() -> (g: Self)
        ensures
            g.parent_id == 0,
            g.child_id == 0,
    {
        CharacterCollisionGroup { parent_id: 0, child_id: 0 }
    }
}

/// The groups a character receives from store `x`: the body group is taken
/// first, then the microbe group from what is left.
pub open spec fn character_groups_from(x: u32) -> CharacterCollisionGroup {
    CharacterCollisionGroup {
        parent_id: lowest_group(x),
        child_id: lowest_group(x & !lowest_group(x)),
    }
}

/// The store after a character received its groups from store `x`.
pub open spec fn store_after_character(x: u32) -> u32 {
    (x & !character_groups_from(x).parent_id) & !character_groups_from(x).child_id
}

/// Whether two colliders interact in the physics engine: each one's
/// memberships must meet the other one's filter.
pub open spec fn groups_interact(memberships1: u32, filter1: u32, memberships2: u32, filter2: u32) -> bool {
    memberships1 & filter2 != 0 && memberships2 & filter1 != 0
}

impl CharacterCollisionGroup {
    /// Takes a body group and then a microbe group out of `store` for a
    /// newly spawned character.
    pub fn take_from(store: &mut u32) -> (groups: CharacterCollisionGroup)
        ensures
            groups == character_groups_from(*old(store)),
            *final(store) == store_after_character(*old(store)),
    {
        let parent_id = bit_map_group_take(store);
        let child_id = bit_map_group_take(store);
        CharacterCollisionGroup { parent_id, child_id }
    }

    /// Gives both groups of a removed character back to `store`, the body
    /// group first.
    pub fn give_back(self, store: &mut u32)
        ensures
            *final(store) == (*old(store) | self.parent_id) | self.child_id,
    {
        bit_map_group_back(store, self.parent_id);
        bit_map_group_back(store, self.child_id);
    }

    /// The collision filter of the character's body: it meets every group
    /// but its own microbes'.
    pub fn character_filter(&self) -> (filter: u32)
        ensures
            filter == !self.child_id,
    {
        let c = self.child_id;
        let filter = u32::MAX & !c;
        assert(u32::MAX & !c == !c) by (bit_vector);
        filter
    }

    /// The collision filter of each of the character's microbes: it meets
    /// every group but the character's body and its sibling microbes.
    pub fn microbe_filter(&self) -> (filter: u32)
        ensures
            filter == !self.parent_id & !self.child_id,
    {
        let (p, c) = (self.parent_id, self.child_id);
        let filter = (u32::MAX & !p) & !c;
        assert((u32::MAX & !p) & !c == !p & !c) by (bit_vector);
        filter
    }
}

/// A character receives two distinct single groups while the store holds
/// two free groups, and groups that were not free in the store (held by
/// other characters) are never handed out; the groups handed out are no
/// longer free afterwards.
pub proof fn lemma_character_groups_fresh(x: u32, held: u32)
    requires
        held & x == 0,
    ensures
        x != 0 ==> single_group(character_groups_from(x).parent_id),
        (x & !lowest_group(x)) != 0 ==> single_group(character_groups_from(x).child_id),
        character_groups_from(x).parent_id & character_groups_from(x).child_id == 0,
        held & character_groups_from(x).parent_id == 0,
        held & character_groups_from(x).child_id == 0,
        held & store_after_character(x) == 0,
        store_after_character(x) & character_groups_from(x).parent_id == 0,
        store_after_character(x) & character_groups_from(x).child_id == 0,
{
    let p = lowest_group(x);
    let y = x & !p;
    let c = lowest_group(y);
    lemma_take_facts(x);
    lemma_take_facts(y);
    assert(p & c == 0 && held & p == 0 && held & c == 0 && held & ((x & !p) & !c) == 0
        && ((x & !p) & !c) & p == 0 && ((x & !p) & !c) & c == 0) by (bit_vector)
        requires
            x & p == p,
            y == x & !p,
            y & c == c,
            held & x == 0,
    ;
}

/// Giving a character's groups back restores the store it took them from.
pub proof fn lemma_character_groups_recycled(x: u32)
    ensures
        (store_after_character(x) | character_groups_from(x).parent_id)
            | character_groups_from(x).child_id == x,
{
    let p = lowest_group(x);
    let y = x & !p;
    let c = lowest_group(y);
    lemma_take_facts(x);
    lemma_take_facts(y);
    assert(((y & !c) | p) | c == x) by (bit_vector)
        requires
            (x & !p) | p == x,
            y == x & !p,
            (y & !c) | c == y,
    ;
}

/// A character never collides with its own microbes, and its microbes
/// never collide with one another.
pub proof fn lemma_own_side_never_collides(g: CharacterCollisionGroup)
    ensures
        !groups_interact(g.parent_id, !g.child_id, g.child_id, !g.parent_id & !g.child_id),
        !groups_interact(g.child_id, !g.parent_id & !g.child_id, g.child_id, !g.parent_id & !g.child_id),
{
    let p = g.parent_id;
    let c = g.child_id;
    assert(c & !c == 0 && c & (!p & !c) == 0) by (bit_vector);
}

/// When two characters hold four distinct single groups, each side
/// collides with every body and microbe of the other side.
pub proof fn lemma_rival_sides_collide(a: CharacterCollisionGroup, b: CharacterCollisionGroup)
    requires
        single_group(a.parent_id),
        single_group(a.child_id),
        single_group(b.parent_id),
        single_group(b.child_id),
        a.parent_id != a.child_id,
        a.parent_id != b.parent_id,
        a.parent_id != b.child_id,
        a.child_id != b.parent_id,
        a.child_id != b.child_id,
        b.parent_id != b.child_id,
    ensures
        groups_interact(a.parent_id, !a.child_id, b.parent_id, !b.child_id),
        groups_interact(a.parent_id, !a.child_id, b.child_id, !b.parent_id & !b.child_id),
        groups_interact(a.child_id, !a.parent_id & !a.child_id, b.parent_id, !b.child_id),
        groups_interact(a.child_id, !a.parent_id & !a.child_id, b.child_id, !b.parent_id & !b.child_id),
{
    let (ap, ac, bp, bc) = (a.parent_id, a.child_id, b.parent_id, b.child_id);
    assert(ap & !bc != 0 && bp & !ac != 0 && ap & (!bp & !bc) != 0 && bc & !ac != 0 && ac
        & !bc != 0 && bp & (!ap & !ac) != 0 && ac & (!bp & !bc) != 0 && bc & (!ap & !ac) != 0)
        by (bit_vector)
        requires
            ap != 0 && ap & ((ap - 1u32) as u32) == 0,
            ac != 0 && ac & ((ac - 1u32) as u32) == 0,
            bp != 0 && bp & ((bp - 1u32) as u32) == 0,
            bc != 0 && bc & ((bc - 1u32) as u32) == 0,
            ap != ac && ap != bp && ap != bc && ac != bp && ac != bc && bp != bc,
    ;
}

/// A fresh store gives the first character groups `1` and `2`.
pub proof fn lemma_fresh_store_first_groups()
    ensures
        character_groups_from(u32::MAX).parent_id == 1,
        character_groups_from(u32::MAX).child_id == 2,
        store_after_character(u32::MAX) == u32::MAX & !3u32,
{
    let x = u32::MAX;
    assert((x >> 0u32) & 1u32 == 1u32 && 1u32 << 0u32 == 1u32) by (bit_vector)
        requires x == u32::MAX;
    assert(is_lowest_index(x, 0));
    lemma_lowest_group_is(x, 0);
    let y = x & !1u32;
    assert((y >> 1u32) & 1u32 == 1u32 && (y >> 0u32) & 1u32 == 0u32 && 1u32 << 1u32 == 2u32
        && (y & !2u32) == u32::MAX & !3u32) by (bit_vector)
        requires y == u32::MAX & !1u32;
    assert forall|j: u32| j < 1 implies !#[trigger] bit_set(y, j) by {
        assert(j == 0);
    }
    assert(is_lowest_index(y, 1));
    lemma_lowest_group_is(y, 1);
}

} // verus!

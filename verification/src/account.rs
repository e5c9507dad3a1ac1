use vstd::prelude::*;

use crate::constants::NFT_NUMBER;
use crate::error::ThogError;
use crate::utils::{accrued_reward, calculate_user_reward_at, reward_computable, reward_fits};

verus! {

broadcast use vstd::array::group_array_axioms;

/// A 32-byte account address, held as its raw bytes.
#[derive(Clone, Copy, Debug, Default, PartialEq, Eq)]
pub struct Address {
    pub bytes: [u8; 32],
}

impl Address {
    /// The all-zero address, the default of an address field.
    pub open spec fn zero_spec() -> Address {
        Address { bytes: vstd::array::spec_array_fill_for_copy_type::<u8, 32>(0u8) }
    }

    /// Builds the all-zero address.
    pub fn zero() -> (r: Address)
        ensures
            r == Address::zero_spec(),
    {
        Address { bytes: [0u8; 32] }
    }

    /// Compares two addresses byte by byte.
    pub fn same_as(&self, other: &Address) -> (r: bool)
        ensures
            r == (*self == *other),
    {
        let mut i: usize = 0;
        while i < 32
            invariant
                0 <= i <= 32,
                forall|j: int| 0 <= j < i ==> self.bytes[j] == other.bytes[j],
            decreases 32 - i,
        {
            if self.bytes[i] != other.bytes[i] {
                return false;
            }
            i += 1;
        }
        assert(self.bytes =~= other.bytes);
        true
    }
}


/// One staked item of a user's pool: an NFT stake, or a plain THOG token
/// stake (whose `nft_addr` is the zero address).
#[derive(Clone, Copy, Debug, PartialEq, Eq)]
pub struct StakedNFT {
    pub nft_addr: Address,
    pub staked_amount: u64,
    pub period: u64,
    pub multiplier: u64,
    pub lock_time: u64,
    pub item_id: u64,
    pub unlock_time: u64,
    pub last_update_time: u64,
}

impl StakedNFT {
    /// The empty slot: every field zero.
    pub open spec fn vacant() -> StakedNFT {
        StakedNFT {
            nft_addr: Address::zero_spec(),
            staked_amount: 0,
            period: 0,
            multiplier: 0,
            lock_time: 0,
            item_id: 0,
            unlock_time: 0,
            last_update_time: 0,
        }
    }

    /// The reward this item has accrued at `now` under the given daily drip percentage.
    pub open spec fn reward_at(self, daily_drip_percentage: u64, now: u64) -> int {
        accrued_reward(
            self.lock_time,
            self.period,
            self.staked_amount,
            self.last_update_time,
            self.multiplier,
            daily_drip_percentage,
            now,
        )
    }

    /// The reward of this item at `now` can be computed in `u64` arithmetic.
    pub open spec fn reward_computable_at(self, daily_drip_percentage: u64, now: u64) -> bool {
        reward_computable(
            self.lock_time,
            self.period,
            self.staked_amount,
            self.last_update_time,
            self.multiplier,
            daily_drip_percentage,
            now,
        )
    }

    /// The reward this item has accrued at `now`.
    pub fn reward(&self, daily_drip_percentage: u64, now: u64) -> (r: u64)
        requires
            self.reward_computable_at(daily_drip_percentage, now),
        ensures
            r == self.reward_at(daily_drip_percentage, now),
    {
        calculate_user_reward_at(
            self.lock_time,
            self.period,
            self.staked_amount,
            self.last_update_time,
            self.multiplier,
            daily_drip_percentage,
            now,
        )
    }
}

impl StakedNFT {
    /// Whether the reward of this item at `now` can be computed in `u64` arithmetic.
    pub fn reward_fits_at(&self, daily_drip_percentage: u64, now: u64) -> (r: bool)
        ensures
            r == self.reward_computable_at(daily_drip_percentage, now),
    {
        reward_fits(
            self.lock_time,
            self.period,
            self.staked_amount,
            self.last_update_time,
            self.multiplier,
            daily_drip_percentage,
            now,
        )
    }
}

impl Default for StakedNFT {
    fn default() -> (r: StakedNFT)
        ensures
            r == StakedNFT::vacant(),
    {
        StakedNFT {
            nft_addr: Address::zero(),
            staked_amount: 0,
            period: 0,
            multiplier: 0,
            lock_time: 0,
            item_id: 0,
            unlock_time: 0,
            last_update_time: 0,
        }
    }
}

/// The items of a sequence whose `lock_time` is not zero, in their order.
pub open spec fn locked_only(s: Seq<StakedNFT>) -> Seq<StakedNFT>
    decreases s.len(),
{
    if s.len() == 0 {
        Seq::empty()
    } else {
        let rest = locked_only(s.drop_last());
        if s.last().lock_time != 0 {
            rest.push(s.last())
        } else {
            rest
        }
    }
}

/// A sequence of at most `NFT_NUMBER` items, followed by empty slots up to `NFT_NUMBER`.
pub open spec fn pad_slots(s: Seq<StakedNFT>) -> Seq<StakedNFT> {
    s + Seq::new((NFT_NUMBER - s.len()) as nat, |i: int| StakedNFT::vacant())
}

/// The total staked amount of a sequence of items.
pub open spec fn staked_sum(s: Seq<StakedNFT>) -> int
    decreases s.len(),
{
    if s.len() == 0 {
        0
    } else {
        staked_sum(s.drop_last()) + s.last().staked_amount
    }
}

/// Keeping the locked items of a sequence whose items are all locked keeps them all.
pub proof fn lemma_locked_only_all_locked(s: Seq<StakedNFT>)
    requires
        forall|i: int| 0 <= i < s.len() ==> #[trigger] s[i].lock_time != 0,
    ensures
        locked_only(s) == s,
    decreases s.len(),
{
    if s.len() > 0 {
        lemma_locked_only_all_locked(s.drop_last());
        assert(s.drop_last().push(s.last()) =~= s);
    }
}

/// Keeping the locked items of a sequence in which only slot `k` is unlocked
/// drops exactly that slot.
pub proof fn lemma_locked_only_drops_one(s: Seq<StakedNFT>, k: int)
    requires
        0 <= k < s.len(),
        s[k].lock_time == 0,
        forall|i: int| 0 <= i < s.len() && i != k ==> #[trigger] s[i].lock_time != 0,
    ensures
        locked_only(s) == s.remove(k),
    decreases s.len(),
{
    if k == s.len() - 1 {
        lemma_locked_only_all_locked(s.drop_last());
        assert(s.remove(k) =~= s.drop_last());
    } else {
        lemma_locked_only_drops_one(s.drop_last(), k);
        assert(s.drop_last().remove(k).push(s.last()) =~= s.remove(k));
    }
}

/// Removing slot `k` takes its amount out of the total staked.
pub proof fn lemma_staked_sum_remove(s: Seq<StakedNFT>, k: int)
    requires
        0 <= k < s.len(),
    ensures
        staked_sum(s.remove(k)) == staked_sum(s) - s[k].staked_amount,
    decreases s.len(),
{
    if k == s.len() - 1 {
        assert(s.remove(k) =~= s.drop_last());
    } else {
        lemma_staked_sum_remove(s.drop_last(), k);
        assert(s.drop_last().remove(k).push(s.last()) =~= s.remove(k));
        assert(s.remove(k).drop_last() =~= s.drop_last().remove(k));
    }
}

/// Sequences whose items hold the same amounts have the same total staked.
pub proof fn lemma_staked_sum_same_amounts(s1: Seq<StakedNFT>, s2: Seq<StakedNFT>)
    requires
        s1.len() == s2.len(),
        forall|i: int| 0 <= i < s1.len() ==> #[trigger] s1[i].staked_amount == s2[i].staked_amount,
    ensures
        staked_sum(s1) == staked_sum(s2),
    decreases s1.len(),
{
    if s1.len() > 0 {
        lemma_staked_sum_same_amounts(s1.drop_last(), s2.drop_last());
    }
}

/// The contents of a user's staking pool, with its item slots as a sequence.
#[verifier::ext_equal]
pub struct PoolState {
    pub owner: Address,
    pub item_count: u64,
    pub items: Seq<StakedNFT>,
    pub total_staked_amount: u64,
    pub pending_reward: u64,
}

impl PoolState {
    /// The items in use: the first `item_count` slots.
    pub open spec fn active(self) -> Seq<StakedNFT> {
        self.items.take(self.item_count as int)
    }

    /// Slot `i` is in use and holds an item with the given id.
    pub open spec fn slot_matches(self, i: int, item_id: u64) -> bool {
        &&& 0 <= i < self.item_count
        &&& i < self.items.len()
        &&& self.items[i].item_id == item_id
    }

    /// Slot `i` is the first slot in use whose item has the given id.
    pub open spec fn first_match(self, i: int, item_id: u64) -> bool {
        &&& self.slot_matches(i, item_id)
        &&& forall|j: int| 0 <= j < i ==> !#[trigger] self.slot_matches(j, item_id)
    }

    /// Some slot in use holds an item with the given id.
    pub open spec fn has_item(self, item_id: u64) -> bool {
        exists|i: int| #[trigger] self.slot_matches(i, item_id)
    }

    /// The slot that a lookup by id selects: the first match, or slot 0 when none matches.
    pub open spec fn selected_index(self, item_id: u64) -> int {
        if self.has_item(item_id) {
            choose|i: int| self.first_match(i, item_id)
        } else {
            0
        }
    }

    /// The item that a lookup by id selects: the first match, or an empty item when none matches.
    pub open spec fn selected_item(self, item_id: u64) -> StakedNFT {
        if self.has_item(item_id) {
            self.items[self.selected_index(item_id)]
        } else {
            StakedNFT::vacant()
        }
    }

    /// A lookup by id stays within the slots: either the count is within the
    /// slots, or a matching item is found before the lookup runs past them.
    pub open spec fn lookup_in_bounds(self, item_id: u64) -> bool {
        self.item_count <= NFT_NUMBER || self.has_item(item_id)
    }

    /// The invariant that the pool's operations keep: the count is within the
    /// slots, every item in use has a nonzero lock time, and every slot past
    /// the count is empty.
    pub open spec fn well_formed(self) -> bool {
        &&& self.items.len() == NFT_NUMBER
        &&& self.item_count <= NFT_NUMBER
        &&& forall|i: int| 0 <= i < self.item_count ==> #[trigger] self.items[i].lock_time != 0
        &&& forall|i: int|
            self.item_count <= i < NFT_NUMBER ==> #[trigger] self.items[i] == StakedNFT::vacant()
    }

    /// The pool's total staked amount is the sum of the amounts of its items in use.
    pub open spec fn total_matches_items(self) -> bool {
        self.total_staked_amount == staked_sum(self.active())
    }

    /// The pool after `add_nft`: the item in the first free slot, the count one higher.
    pub open spec fn add_outcome(self, item: StakedNFT) -> PoolState {
        PoolState {
            item_count: (self.item_count + 1) as u64,
            items: self.items.update(self.item_count as int, item),
            ..self
        }
    }

    /// The pool after a deposit: the item added, and its amount counted in the total.
    pub open spec fn deposit_outcome(self, item: StakedNFT) -> PoolState {
        PoolState {
            total_staked_amount: (self.total_staked_amount + item.staked_amount) as u64,
            ..self.add_outcome(item)
        }
    }

    /// The pool and the result of `remove_nft`: the owner must match and an item
    /// with the id must be in use; the first such item is emptied, its reward at
    /// `now` returned, the count lowered by one, and the slots in use rebuilt
    /// from the items with a nonzero lock time, in order, followed by empty slots.
    pub open spec fn remove_outcome(
        self,
        owner: Address,
        item_id: u64,
        daily_drip_percentage: u64,
        now: u64,
    ) -> (PoolState, Result<u64, ThogError>) {
        if owner != self.owner {
            (self, Err(ThogError::OnlyOwnerCanCall))
        } else if !self.has_item(item_id) {
            (self, Err(ThogError::InvalidNFTAddress))
        } else {
            let k = self.selected_index(item_id);
            let reward = self.items[k].reward_at(daily_drip_percentage, now);
            let cleared = self.items.update(k, StakedNFT::vacant()).take(self.item_count as int);
            (
                PoolState {
                    item_count: (self.item_count - 1) as u64,
                    items: pad_slots(locked_only(cleared)),
                    ..self
                },
                Ok(reward as u64),
            )
        }
    }

    /// When some slot matches, a first matching slot exists and it is the selected one.
    pub proof fn lemma_selected_is_first(self, item_id: u64)
        requires
            self.has_item(item_id),
        ensures
            self.first_match(self.selected_index(item_id), item_id),
            self.selected_item(item_id) == self.items[self.selected_index(item_id)],
    {
        let i = choose|i: int| self.slot_matches(i, item_id);
        self.lemma_first_match_below(item_id, i);
    }

    proof fn lemma_first_match_below(self, item_id: u64, i: int)
        requires
            self.slot_matches(i, item_id),
        ensures
            exists|k: int| self.first_match(k, item_id),
        decreases i,
    {
        if exists|j: int| 0 <= j < i && #[trigger] self.slot_matches(j, item_id) {
            let j = choose|j: int| 0 <= j < i && #[trigger] self.slot_matches(j, item_id);
            self.lemma_first_match_below(item_id, j);
        } else {
            assert(self.first_match(i, item_id));
        }
    }

    /// A lookup by id depends only on the count and on the ids in the slots.
    pub proof fn lemma_selection_by_ids(self, other: PoolState, item_id: u64)
        requires
            self.item_count == other.item_count,
            self.items.len() == other.items.len(),
            forall|i: int|
                0 <= i < self.items.len() ==> #[trigger] self.items[i].item_id
                    == other.items[i].item_id,
        ensures
            self.has_item(item_id) == other.has_item(item_id),
            self.selected_index(item_id) == other.selected_index(item_id),
    {
        assert forall|i: int| self.slot_matches(i, item_id) == other.slot_matches(i, item_id) by {
            if 0 <= i < self.items.len() {
                assert(self.items[i].item_id == other.items[i].item_id);
            }
        }
        if self.has_item(item_id) {
            assert(other.has_item(item_id)) by {
                let i = choose|i: int| self.slot_matches(i, item_id);
                assert(other.slot_matches(i, item_id));
            }
            self.lemma_selected_is_first(item_id);
            other.lemma_selected_is_first(item_id);
            let k = other.selected_index(item_id);
            assert(self.slot_matches(k, item_id));
            assert forall|j: int| 0 <= j < k implies !#[trigger] self.slot_matches(j, item_id) by {
                assert(!other.slot_matches(j, item_id));
            }
            self.lemma_first_match_unique(item_id, k, self.selected_index(item_id));
        } else {
            assert(!other.has_item(item_id)) by {
                if other.has_item(item_id) {
                    let i = choose|i: int| other.slot_matches(i, item_id);
                    assert(self.slot_matches(i, item_id));
                }
            }
        }
    }

    /// The pool invariants carry over to a pool that differs only in fields
    /// of the items in use other than their lock times and amounts.
    pub proof fn lemma_invariants_carry_over(self, other: PoolState)
        requires
            self.well_formed(),
            self.total_matches_items(),
            other.item_count == self.item_count,
            other.total_staked_amount == self.total_staked_amount,
            other.items.len() == self.items.len(),
            forall|i: int|
                0 <= i < self.item_count ==> {
                    &&& #[trigger] other.items[i].lock_time == self.items[i].lock_time
                    &&& other.items[i].staked_amount == self.items[i].staked_amount
                },
            forall|i: int|
                self.item_count <= i < self.items.len() ==> #[trigger] other.items[i]
                    == self.items[i],
        ensures
            other.well_formed(),
            other.total_matches_items(),
    {
        assert forall|i: int| 0 <= i < other.item_count implies #[trigger] other.items[i].lock_time
            != 0 by {
            assert(self.items[i].lock_time != 0);
        }
        assert forall|i: int| 0 <= i < self.active().len() implies #[trigger] self.active()[i].staked_amount
            == other.active()[i].staked_amount by {
            assert(other.items[i].lock_time == self.items[i].lock_time);
        }
        lemma_staked_sum_same_amounts(self.active(), other.active());
    }

    /// There is only one first matching slot.
    pub proof fn lemma_first_match_unique(self, item_id: u64, i: int, j: int)
        requires
            self.first_match(i, item_id),
            self.first_match(j, item_id),
        ensures
            i == j,
    {
        if i < j {
            assert(self.slot_matches(i, item_id));
        } else if j < i {
            assert(self.slot_matches(j, item_id));
        }
    }
}

/// A user's staking pool: its owner, the item slots and the count of slots in
/// use, the total amount staked, and the reward left to claim from removed items.
#[derive(Clone, Copy, Debug, PartialEq, Eq)]
pub struct UserStakingPool {
    pub owner: Address,
    pub item_count: u64,
    pub items: [StakedNFT; NFT_NUMBER],
    pub total_staked_amount: u64,
    pub pending_reward: u64,
}

impl View for UserStakingPool {
    type V = PoolState;

    open spec fn view(&self) -> PoolState {
        PoolState {
            owner: self.owner,
            item_count: self.item_count,
            items: self.items@,
            total_staked_amount: self.total_staked_amount,
            pending_reward: self.pending_reward,
        }
    }
}

/// The empty pool: zero owner, no items in use, every slot empty, nothing staked or pending.
pub open spec fn empty_pool() -> PoolState {
    PoolState {
        owner: Address::zero_spec(),
        item_count: 0,
        items: Seq::new(NFT_NUMBER as nat, |i: int| StakedNFT::vacant()),
        total_staked_amount: 0,
        pending_reward: 0,
    }
}

impl Default for UserStakingPool {
    fn default() -> (r: UserStakingPool)
        ensures
            r@ == empty_pool(),
    {
        let empty = StakedNFT::default();
        let r = UserStakingPool {
            owner: Address::zero(),
            item_count: 0,
            items: [empty; NFT_NUMBER],
            total_staked_amount: 0,
            pending_reward: 0,
        };
        assert(r@.items =~= empty_pool().items);
        r
    }
}

impl UserStakingPool {
    /// Puts an item in the first free slot and counts it.
    pub fn add_nft(&mut self, item: StakedNFT)
        requires
            old(self).item_count < NFT_NUMBER,
        ensures
            final(self)@ == old(self)@.add_outcome(item),
    {
        let index = self.item_count as usize;
        self.items[index] = item;
        self.item_count += 1;
        assert(self@ =~= old(self)@.add_outcome(item));
    }

    /// Whether a lookup by id stays within the slots; callers test it before
    /// the lookups, which would run past the slots otherwise.
    pub fn can_look_up(&self, item_id: u64) -> (r: bool)
        ensures
            r == self@.lookup_in_bounds(item_id),
    {
        if self.item_count <= NFT_NUMBER as u64 {
            return true;
        }
        let mut i: usize = 0;
        while i < NFT_NUMBER
            invariant
                self.item_count > NFT_NUMBER,
                i <= NFT_NUMBER,
                forall|j: int| 0 <= j < i ==> !#[trigger] self@.slot_matches(j, item_id),
            decreases NFT_NUMBER - i,
        {
            if self.items[i].item_id == item_id {
                assert(self@.slot_matches(i as int, item_id));
                return true;
            }
            i += 1;
        }
        assert(!self@.has_item(item_id)) by {
            if self@.has_item(item_id) {
                let k = choose|k: int| #[trigger] self@.slot_matches(k, item_id);
                assert(!self@.slot_matches(k, item_id));
            }
        }
        false
    }

    /// The first slot in use whose item has the given id, if any.
    pub(crate) fn find_slot(&self, item_id: u64) -> (r: Option<usize>)
        requires
            self@.lookup_in_bounds(item_id),
        ensures
            match r {
                Some(k) => k < NFT_NUMBER && self@.first_match(k as int, item_id),
                None => !self@.has_item(item_id),
            },
    {
        let mut i: u64 = 0;
        while i < self.item_count
            invariant
                i <= self.item_count,
                self@.lookup_in_bounds(item_id),
                forall|j: int| 0 <= j < i ==> !#[trigger] self@.slot_matches(j, item_id),
            decreases self.item_count - i,
        {
            assert(i < NFT_NUMBER) by {
                // Past the slots, the count exceeds them, so some slot matches;
                // the invariant puts that slot at or past `i`, hence within them.
                if i >= NFT_NUMBER {
                    let k = choose|k: int| #[trigger] self@.slot_matches(k, item_id);
                    assert(!self@.slot_matches(k, item_id));
                }
            }
            let index = i as usize;
            if self.items[index].item_id == item_id {
                assert(self@.slot_matches(index as int, item_id));
                return Some(index);
            }
            i += 1;
        }
        None
    }

    /// Removes the first item in use with the given id, for its owner only.
    /// Returns the reward that the item has accrued at `now`. The slots in use
    /// are then rebuilt from those whose item has a nonzero lock time, in their
    /// order, and the slots past them emptied.
    pub fn remove_nft(
        &mut self,
        owner: Address,
        item_id: u64,
        daily_drip_percentage: u64,
        now: u64,
    ) -> (r: Result<u64, ThogError>)
        requires
            owner == old(self).owner ==> old(self).item_count <= NFT_NUMBER,
            owner == old(self).owner && old(self)@.has_item(item_id) ==> old(
                self,
            )@.selected_item(item_id).reward_computable_at(daily_drip_percentage, now),
        ensures
            final(self)@ == old(self)@.remove_outcome(owner, item_id, daily_drip_percentage, now).0,
            r == old(self)@.remove_outcome(owner, item_id, daily_drip_percentage, now).1,
    {
        if !self.owner.same_as(&owner) {
            return Err(ThogError::OnlyOwnerCanCall);
        }
        let num: u64 = self.item_count;
        let k = match self.find_slot(item_id) {
            Some(k) => k,
            None => {
                return Err(ThogError::InvalidNFTAddress);
            },
        };
        proof {
            self@.lemma_selected_is_first(item_id);
            self@.lemma_first_match_unique(item_id, k as int, self@.selected_index(item_id));
        }
        let reward = self.items[k].reward(daily_drip_percentage, now);
        self.items[k] = StakedNFT::default();
        self.item_count -= 1;
        let ghost cleared = self.items@;
        assert(cleared == old(self)@.items.update(k as int, StakedNFT::vacant()));

        let empty = StakedNFT::default();
        let mut temp_nfts: [StakedNFT; NFT_NUMBER] = [empty; NFT_NUMBER];
        let mut temp_index: u64 = 0;
        assert(cleared.take(0) =~= Seq::<StakedNFT>::empty());
        assert(temp_nfts@ =~= pad_slots(locked_only(cleared.take(0))));
        let mut i: u64 = 0;
        while i < num
            invariant
                num <= NFT_NUMBER,
                i <= num,
                self.items@ == cleared,
                cleared.len() == NFT_NUMBER,
                locked_only(cleared.take(i as int)).len() <= i,
                temp_index == locked_only(cleared.take(i as int)).len(),
                temp_nfts@ == pad_slots(locked_only(cleared.take(i as int))),
            decreases num - i,
        {
            let index = i as usize;
            let ghost before = locked_only(cleared.take(i as int));
            assert(cleared.take(i + 1).drop_last() =~= cleared.take(i as int));
            if self.items[index].lock_time != 0 {
                temp_nfts[temp_index as usize] = self.items[index];
                temp_index += 1;
                assert(pad_slots(before.push(cleared[i as int])) =~= pad_slots(before).update(
                    before.len() as int,
                    cleared[i as int],
                ));
            }
            i += 1;
        }
        self.items = temp_nfts;
        assert(self@ =~= old(self)@.remove_outcome(owner, item_id, daily_drip_percentage, now).0);
        Ok(reward)
    }
}

/// The program's global state: the super admin, the reward pool and its daily
/// drip, and the totals staked and weighed over all users.
#[derive(Clone, Copy, Debug, Default, PartialEq, Eq)]
pub struct GlobalPool {
    pub super_admin: Address,
    pub total_reward_pool: u64,
    pub daily_drip_percentage: u64,
    pub total_staked: u64,
    pub total_weight: u64,
    pub daily_drip_amount: u64,
    pub reward_per_second: u64,
}

} // verus!

//! The stores behind the engine: values kept per user and quest.

use crate::state::Address;
use vstd::prelude::*;

verus! {

/// One value, kept for a user and a quest.
pub struct Slot<V> {
    pub user: Address,
    pub quest_id: u64,
    pub value: V,
}

/// Values keyed by user and quest. A key has at most one value.
pub struct UserQuestTable<V> {
    slots: Vec<Slot<V>>,
}

impl<V> UserQuestTable<V> {
    /// The key of the slot at a position.
    pub closed spec fn key_at(&self, i: int) -> (Seq<u8>, u64) {
        (self.slots@[i].user@, self.slots@[i].quest_id)
    }

    /// No key is held by two slots.
    pub closed spec fn wf(&self) -> bool {
        forall|i: int, j: int|
            0 <= i < self.slots@.len() && 0 <= j < self.slots@.len() && i != j ==> self.key_at(i)
                != self.key_at(j)
    }

    /// Whether a slot holds the key.
    pub closed spec fn holds(&self, key: (Seq<u8>, u64)) -> bool {
        exists|i: int| 0 <= i < self.slots@.len() && self.key_at(i) == key
    }

    /// The position of the slot that holds the key.
    pub closed spec fn position_of(&self, key: (Seq<u8>, u64)) -> int {
        choose|i: int| 0 <= i < self.slots@.len() && self.key_at(i) == key
    }

    /// The table as a map from user and quest to value.
    pub closed spec fn view(&self) -> Map<(Seq<u8>, u64), V> {
        Map::new(
            |key: (Seq<u8>, u64)| self.holds(key),
            |key: (Seq<u8>, u64)| self.slots@[self.position_of(key)].value,
        )
    }

    /// An empty table.
    pub fn new() -> (table: Self)
        ensures
            table.wf(),
            table@ == Map::<(Seq<u8>, u64), V>::empty(),
    {
        let table = UserQuestTable { slots: Vec::new() };
        table
    }

    fn find(&self, user: &Address, quest_id: u64) -> (found: Option<usize>)
        requires
            self.wf(),
        ensures
            match found {
                Some(i) => i < self.slots@.len() && self.key_at(i as int) == (user@, quest_id)
                    && self.holds((user@, quest_id)) && self.position_of((user@, quest_id)) == i,
                None => !self.holds((user@, quest_id)),
            },
    {
        let mut i: usize = 0;
        while i < self.slots.len()
            invariant
                self.wf(),
                i <= self.slots@.len(),
                forall|j: int| 0 <= j < i ==> self.key_at(j) != (user@, quest_id),
            decreases self.slots@.len() - i,
        {
            if self.slots[i].quest_id == quest_id && self.slots[i].user.same(user) {
                assert(self.key_at(i as int) == (user@, quest_id));
                return Some(i);
            }
            i += 1;
        }
        None
    }

    /// The value kept for a user and a quest, if there is one.
    pub fn get(&self, user: &Address, quest_id: u64) -> (value: Option<&V>)
        requires
            self.wf(),
        ensures
            match value {
                Some(v) => self@.contains_key((user@, quest_id)) && *v == self@[(user@, quest_id)],
                None => !self@.contains_key((user@, quest_id)),
            },
    {
        match self.find(user, quest_id) {
            Some(i) => Some(&self.slots[i].value),
            None => None,
        }
    }

    /// Keeps a value for a user and a quest, in place of an earlier one.
    pub fn set(&mut self, user: &Address, quest_id: u64, value: V)
        requires
            old(self).wf(),
        ensures
            final(self).wf(),
            final(self)@ == old(self)@.insert((user@, quest_id), value),
    {
        let key = Ghost((user@, quest_id));
        match self.find(user, quest_id) {
            Some(i) => {
                let slot = Slot { user: user.duplicate(), quest_id, value };
                self.slots.set(i, slot);
                assert forall|j: int| 0 <= j < self.slots@.len() implies self.key_at(j) == old(
                    self,
                ).key_at(j) by {}
            },
            None => {
                let slot = Slot { user: user.duplicate(), quest_id, value };
                self.slots.push(slot);
                assert forall|j: int| 0 <= j < old(self).slots@.len() implies self.key_at(j) == old(
                    self,
                ).key_at(j) by {}
                assert(self.key_at(old(self).slots@.len() as int) == key@);
            },
        }
        assert(self@ =~= old(self)@.insert(key@, value)) by {
            assert forall|k: (Seq<u8>, u64)| self.holds(k) <==> (k == key@ || old(self).holds(
                k,
            )) by {
                if self.holds(k) && k != key@ {
                    assert(old(self).key_at(self.position_of(k)) == k);
                }
                if old(self).holds(k) {
                    assert(self.key_at(old(self).position_of(k)) == k);
                }
            }
            assert forall|k: (Seq<u8>, u64)| self.holds(k) implies self@[k] == old(self)@.insert(
                key@,
                value,
            )[k] by {
                let p = self.position_of(k);
                if k != key@ {
                    assert(old(self).key_at(p) == k);
                    assert(old(self).position_of(k) == p);
                }
            }
        }
    }
}

} // verus!

//! A table of connections by identifier. No identifier occurs twice.

use vstd::prelude::*;
use crate::types::Uuid;

verus! {

/// One connection of a table.
pub struct Slot<C> {
    pub conn_id: Uuid,
    pub conn: C,
}

/// Connections by identifier, in the order in which they were put in.
pub struct ConnTable<C> {
    pub slots: Vec<Slot<C>>,
}

/// Whether a slot of `slots` has the identifier `id`.
pub open spec fn has_id<C>(slots: Seq<Slot<C>>, id: Uuid) -> bool {
    exists|i: int| 0 <= i < slots.len() && slots[i].conn_id == id
}

/// A position at which `slots` has the identifier `id`.
pub open spec fn slot_index<C>(slots: Seq<Slot<C>>, id: Uuid) -> int {
    choose|i: int| 0 <= i < slots.len() && slots[i].conn_id == id
}

/// Whether no identifier occurs twice in `slots`.
pub open spec fn ids_distinct<C>(slots: Seq<Slot<C>>) -> bool {
    forall|i: int, j: int|
        0 <= i < j < slots.len() ==> (#[trigger] slots[i]).conn_id != (#[trigger] slots[j]).conn_id
}

/// The connections of `slots`, by identifier.
pub open spec fn conn_map<C>(slots: Seq<Slot<C>>) -> Map<Uuid, C> {
    Map::new(|id: Uuid| has_id(slots, id), |id: Uuid| slots[slot_index(slots, id)].conn)
}

/// The slot at `i` is what its identifier maps to.
pub proof fn lemma_conn_map_at<C>(slots: Seq<Slot<C>>, i: int)
    requires
        ids_distinct(slots),
        0 <= i < slots.len(),
    ensures
        conn_map(slots).dom().contains(slots[i].conn_id),
        conn_map(slots)[slots[i].conn_id] == slots[i].conn,
        slot_index(slots, slots[i].conn_id) == i,
{
}

/// Taking the slot at `i` out removes its identifier and nothing else.
pub proof fn lemma_conn_map_remove<C>(slots: Seq<Slot<C>>, i: int)
    requires
        ids_distinct(slots),
        0 <= i < slots.len(),
    ensures
        ids_distinct(slots.remove(i)),
        conn_map(slots.remove(i)) == conn_map(slots).remove(slots[i].conn_id),
{
    let rest = slots.remove(i);
    let id = slots[i].conn_id;
    assert(ids_distinct(rest)) by {
        assert forall|a: int, b: int| 0 <= a < b < rest.len() implies (#[trigger] rest[a]).conn_id
            != (#[trigger] rest[b]).conn_id by {
        }
    }
    assert forall|key: Uuid| has_id(rest, key) <==> (has_id(slots, key) && key != id) by {
        if has_id(slots, key) && key != id {
            let k = slot_index(slots, key);
            let k2 = if k < i {
                k
            } else {
                k - 1
            };
            assert(rest[k2].conn_id == key);
        }
    }
    assert forall|key: Uuid| has_id(rest, key) implies conn_map(rest)[key] == conn_map(slots)[key] by {
        let k = slot_index(rest, key);
        let k2 = if k < i {
            k
        } else {
            k + 1
        };
        lemma_conn_map_at(slots, k2);
    }
}

/// Putting a slot with a new identifier at the end adds it and nothing else.
pub proof fn lemma_conn_map_push<C>(slots: Seq<Slot<C>>, slot: Slot<C>)
    requires
        ids_distinct(slots),
        !has_id(slots, slot.conn_id),
    ensures
        ids_distinct(slots.push(slot)),
        conn_map(slots.push(slot)) == conn_map(slots).insert(slot.conn_id, slot.conn),
{
    let more = slots.push(slot);
    let n = slots.len() as int;
    assert(forall|k: int| 0 <= k < n ==> more[k] == slots[k]);
    assert(more[n] == slot);
    assert(ids_distinct(more)) by {
        assert forall|a: int, b: int| 0 <= a < b < more.len() implies (#[trigger] more[a]).conn_id
            != (#[trigger] more[b]).conn_id by {
        }
    }
    assert forall|key: Uuid| has_id(more, key) <==> (has_id(slots, key) || key == slot.conn_id) by {
    }
    assert forall|key: Uuid| has_id(more, key) implies conn_map(more)[key] == conn_map(
        slots,
    ).insert(slot.conn_id, slot.conn)[key] by {
        let k = slot_index(more, key);
        lemma_conn_map_at(more, k);
        if k < n {
            lemma_conn_map_at(slots, k);
        }
    }
}

impl<C> View for ConnTable<C> {
    type V = Map<Uuid, C>;

    open spec fn view(&self) -> Map<Uuid, C> {
        conn_map(self.slots@)
    }
}

impl<C> ConnTable<C> {
    /// Whether the table is well formed: no identifier occurs twice.
    pub open spec fn wf(&self) -> bool {
        ids_distinct(self.slots@)
    }

    /// The empty table.
    pub fn new() -> (r: Self)
        ensures
            r.wf(),
            r@ == Map::<Uuid, C>::empty(),
    {
        let r = ConnTable { slots: Vec::new() };
        r
    }

    /// The position of `conn_id`, if the table holds it.
    pub fn position(&self, conn_id: Uuid) -> (r: Option<usize>)
        requires
            self.wf(),
        ensures
            match r {
                Some(i) => i < self.slots@.len() && self.slots@[i as int].conn_id == conn_id
                    && self@.dom().contains(conn_id) && self@[conn_id] == self.slots@[i as int].conn,
                None => !self@.dom().contains(conn_id),
            },
    {
        let mut i: usize = 0;
        while i < self.slots.len()
            invariant
                self.wf(),
                i <= self.slots.len(),
                forall|k: int| 0 <= k < i ==> self.slots@[k].conn_id != conn_id,
            decreases self.slots.len() - i,
        {
            if self.slots[i].conn_id == conn_id {
                proof {
                    lemma_conn_map_at(self.slots@, i as int);
                }
                return Some(i);
            }
            i = i + 1;
        }
        None
    }

    /// The connection `conn_id`, if the table holds it.
    pub fn get(&self, conn_id: Uuid) -> (r: Option<&C>)
        requires
            self.wf(),
        ensures
            match r {
                Some(c) => self@.dom().contains(conn_id) && self@[conn_id] == *c,
                None => !self@.dom().contains(conn_id),
            },
    {
        match self.position(conn_id) {
            Some(i) => Some(&self.slots[i].conn),
            None => None,
        }
    }

    /// Takes the connection `conn_id` out, if the table holds it.
    pub fn remove(&mut self, conn_id: Uuid) -> (r: Option<C>)
        requires
            old(self).wf(),
        ensures
            final(self).wf(),
            final(self)@ == old(self)@.remove(conn_id),
            match r {
                Some(c) => old(self)@.dom().contains(conn_id) && old(self)@[conn_id] == c,
                None => !old(self)@.dom().contains(conn_id),
            },
    {
        match self.position(conn_id) {
            Some(i) => {
                proof {
                    lemma_conn_map_remove(self.slots@, i as int);
                }
                let slot = self.slots.remove(i);
                Some(slot.conn)
            },
            None => {
                None
            },
        }
    }

    /// Puts `conn` in under `conn_id`, in place of what was there, and hands
    /// that back.
    pub fn insert(&mut self, conn_id: Uuid, conn: C) -> (r: Option<C>)
        requires
            old(self).wf(),
        ensures
            final(self).wf(),
            final(self)@ == old(self)@.insert(conn_id, conn),
            match r {
                Some(c) => old(self)@.dom().contains(conn_id) && old(self)@[conn_id] == c,
                None => !old(self)@.dom().contains(conn_id),
            },
    {
        let previous = self.remove(conn_id);
        proof {
            assert(!self@.dom().contains(conn_id));
            lemma_conn_map_push(self.slots@, Slot { conn_id, conn });
        }
        self.slots.push(Slot { conn_id, conn });
        previous
    }

    /// Takes out every connection that `conn_ids` names.
    pub fn remove_all(&mut self, conn_ids: &Vec<Uuid>)
        requires
            old(self).wf(),
        ensures
            final(self).wf(),
            final(self)@ == old(self)@.remove_keys(conn_ids@.to_set()),
    {
        let mut k: usize = 0;
        while k < conn_ids.len()
            invariant
                k <= conn_ids.len(),
                self.wf(),
                self@ == old(self)@.remove_keys(conn_ids@.take(k as int).to_set()),
            decreases conn_ids.len() - k,
        {
            let _ = self.remove(conn_ids[k]);
            proof {
                let done = conn_ids@.take(k as int);
                let next = conn_ids@.take(k as int + 1);
                assert forall|id: Uuid| next.to_set().contains(id) <==> (done.to_set().contains(id)
                    || id == conn_ids@[k as int]) by {
                    if id == conn_ids@[k as int] {
                        assert(next[k as int] == id);
                    }
                }
            }
            k = k + 1;
        }
        assert(conn_ids@.take(conn_ids@.len() as int) =~= conn_ids@);
    }
}

} // verus!

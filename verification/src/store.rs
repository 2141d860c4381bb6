use vstd::prelude::*;

use crate::ticket::{fresh_ticket, Identity, Ticket, TicketError, TicketId, TicketModel};

verus! {

/// No two entries share a ticket identity.
spec fn distinct_keys(s: Seq<(TicketId, Ticket)>) -> bool {
    forall|i: int, j: int| 0 <= i < j < s.len() ==> (#[trigger] s[i]).0 != (#[trigger] s[j]).0
}

/// Some entry holds the key `k`.
spec fn has_key(s: Seq<(TicketId, Ticket)>, k: TicketId) -> bool {
    exists|i: int| 0 <= i < s.len() && (#[trigger] s[i]).0 == k
}

/// The position of the entry holding `k`; unique when keys are distinct.
spec fn position_of(s: Seq<(TicketId, Ticket)>, k: TicketId) -> int {
    choose|i: int| 0 <= i < s.len() && (#[trigger] s[i]).0 == k
}

/// The entries read as a map from ticket identity to record model.
spec fn seq_contents(s: Seq<(TicketId, Ticket)>) -> Map<TicketId, TicketModel> {
    Map::new(|k: TicketId| has_key(s, k), |k: TicketId| s[position_of(s, k)].1@)
}

proof fn lemma_position_unique(s: Seq<(TicketId, Ticket)>, i: int, j: int)
    requires
        distinct_keys(s),
        0 <= i < s.len(),
        0 <= j < s.len(),
        s[i].0 == s[j].0,
    ensures
        i == j,
{
    if i < j {
        assert(s[i].0 != s[j].0);
    } else if j < i {
        assert(s[j].0 != s[i].0);
    }
}

proof fn lemma_position_of(s: Seq<(TicketId, Ticket)>, i: int)
    requires
        distinct_keys(s),
        0 <= i < s.len(),
    ensures
        has_key(s, s[i].0),
        position_of(s, s[i].0) == i,
{
    assert(has_key(s, s[i].0));
    let j = position_of(s, s[i].0);
    assert(0 <= j < s.len() && s[j].0 == s[i].0);
    lemma_position_unique(s, i, j);
}

/// Appending an entry under a fresh key inserts it into the contents map
/// and leaves every other record where it was.
proof fn lemma_push_contents(s0: Seq<(TicketId, Ticket)>, id: TicketId, t: Ticket)
    requires
        distinct_keys(s0),
        !has_key(s0, id),
    ensures
        distinct_keys(s0.push((id, t))),
        seq_contents(s0.push((id, t))) == seq_contents(s0).insert(id, t@),
{
    let s1 = s0.push((id, t));
    assert(s1[s0.len() as int] == (id, t));
    assert forall|i: int, j: int| 0 <= i < j < s1.len() implies (#[trigger] s1[i]).0 != (
    #[trigger] s1[j]).0 by {
        if j < s0.len() {
            assert(s0[i].0 != s0[j].0);
        } else {
            assert(s1[j].0 == id);
            if s1[i].0 == id {
                assert(s0[i].0 == id);
                assert(has_key(s0, id));
            }
        }
    }
    let m1 = seq_contents(s1);
    let m2 = seq_contents(s0).insert(id, t@);
    assert forall|k: TicketId| m1.contains_key(k) implies m2.contains_key(k) && m1[k] == m2[k] by {
        let i = position_of(s1, k);
        assert(0 <= i < s1.len() && s1[i].0 == k);
        if i == s0.len() {
            assert(k == id);
        } else {
            assert(s1[i] == s0[i]);
            if k == id {
                assert(has_key(s0, id));
            }
            assert(has_key(s0, k));
            lemma_position_of(s0, i);
        }
    }
    assert forall|k: TicketId| m2.contains_key(k) implies m1.contains_key(k) by {
        if k == id {
            assert(s1[s0.len() as int].0 == id);
            assert(has_key(s1, id));
        } else {
            let i = position_of(s0, k);
            assert(0 <= i < s0.len() && s0[i].0 == k);
            assert(s1[i].0 == k);
            assert(has_key(s1, k));
        }
    }
    assert(m1 =~= m2);
}

/// Replacing the entry at one position, key kept, overwrites that key's
/// record in the contents map and leaves every other record where it was.
proof fn lemma_update_contents(s0: Seq<(TicketId, Ticket)>, s1: Seq<(TicketId, Ticket)>, i: int)
    requires
        distinct_keys(s0),
        0 <= i < s0.len(),
        s1.len() == s0.len(),
        forall|j: int| 0 <= j < s0.len() && j != i ==> s1[j] == s0[j],
        (#[trigger] s1[i]).0 == s0[i].0,
    ensures
        distinct_keys(s1),
        seq_contents(s1) == seq_contents(s0).insert(s0[i].0, s1[i].1@),
{
    assert forall|j: int| 0 <= j < s1.len() implies (#[trigger] s1[j]).0 == s0[j].0 by {
        if j != i {
            assert(s1[j] == s0[j]);
        }
    }
    assert forall|a: int, b: int| 0 <= a < b < s1.len() implies (#[trigger] s1[a]).0 != (
    #[trigger] s1[b]).0 by {
        assert(s0[a].0 != s0[b].0);
    }
    let m1 = seq_contents(s1);
    let m2 = seq_contents(s0).insert(s0[i].0, s1[i].1@);
    assert forall|k: TicketId| m1.contains_key(k) implies m2.contains_key(k) && m1[k] == m2[k] by {
        let a = position_of(s1, k);
        assert(0 <= a < s1.len() && s1[a].0 == k);
        assert(s0[a].0 == k);
        assert(has_key(s0, k));
        lemma_position_of(s0, a);
        if k != s0[i].0 {
            lemma_position_unique(s0, a, position_of(s0, k));
            assert(a != i);
            assert(s1[a] == s0[a]);
        } else {
            lemma_position_unique(s0, a, i);
        }
    }
    assert forall|k: TicketId| m2.contains_key(k) implies m1.contains_key(k) by {
        if k == s0[i].0 {
            assert(s1[i].0 == k);
            assert(has_key(s1, k));
        } else {
            let a = position_of(s0, k);
            assert(0 <= a < s0.len() && s0[a].0 == k);
            assert(a != i);
            assert(s1[a] == s0[a]);
            assert(has_key(s1, k));
        }
    }
    assert(m1 =~= m2);
}

/// The durable record store: one mutable `Ticket` record per ticket
/// identity, with atomic create / read / write primitives. The store never
/// inspects `owner` to decide permission — that is exclusively the
/// authorization layer's job, and the store trusts that its callers have
/// already done it.
pub struct TicketStore {
    entries: Vec<(TicketId, Ticket)>,
}

impl TicketStore {
    /// Well-formed: no ticket identity has two records.
    pub closed spec fn wf(self) -> bool {
        distinct_keys(self.entries@)
    }

    /// The store's current contents, keyed by ticket identity.
    pub closed spec fn contents(self) -> Map<TicketId, TicketModel> {
        seq_contents(self.entries@)
    }

    /// An empty store: no ticket identity has a record yet.
    pub fn new() -> (s: TicketStore)
        ensures
            s.wf(),
            s.contents() == Map::<TicketId, TicketModel>::empty(),
    {
        let s = TicketStore { entries: Vec::new() };
        proof {
            assert(s.contents() =~= Map::<TicketId, TicketModel>::empty());
        }
        s
    }

    fn find(&self, id: TicketId) -> (r: Option<usize>)
        ensures
            match r {
                Some(i) => i < self.entries@.len() && self.entries@[i as int].0 == id,
                None => !has_key(self.entries@, id),
            },
    {
        let n = self.entries.len();
        let mut i: usize = 0;
        while i < n
            invariant
                n == self.entries@.len(),
                i <= n,
                forall|j: int| 0 <= j < i ==> (#[trigger] self.entries@[j]).0 != id,
            decreases n - i,
        {
            if self.entries[i].0 == id {
                return Some(i);
            }
            i += 1;
        }
        None
    }

    /// Allocates a new record slot for `id`. Fails with `AlreadyExists` if
    /// `id` already has a record, changing nothing; otherwise the new record
    /// starts with the given owner and metadata and is not listed.
    pub fn create(&mut self, id: TicketId, initial_owner: Identity, metadata: String) -> (r:
        Result<(), TicketError>)
        requires
            old(self).wf(),
        ensures
            final(self).wf(),
            old(self).contents().contains_key(id) ==> r == Err::<(), TicketError>(
            TicketError::AlreadyExists) && *final(self) == *old(self),
            !old(self).contents().contains_key(id) ==> r == Ok::<(), TicketError>(()) && final(
            self).contents() == old(self).contents().insert(
                id,
                fresh_ticket(initial_owner, metadata@),
            ),
    {
        match self.find(id) {
            Some(_) => Err(TicketError::AlreadyExists),
            None => {
                let t = Ticket { owner: initial_owner, metadata, price: 0 };
                proof {
                    lemma_push_contents(self.entries@, id, t);
                }
                self.entries.push((id, t));
                Ok(())
            },
        }
    }

    /// Returns a value copy of the current record under `id`, or `NotFound`
    /// if no record exists. Read access is unrestricted.
    pub fn read(&self, id: TicketId) -> (r: Result<Ticket, TicketError>)
        requires
            self.wf(),
        ensures
            self.contents().contains_key(id) ==> (r matches Ok(t) && t@ == self.contents()[id]),
            !self.contents().contains_key(id) ==> r == Err::<Ticket, TicketError>(
            TicketError::NotFound),
    {
        match self.find(id) {
            Some(i) => {
                let t = self.entries[i].1.duplicate();
                proof {
                    lemma_position_of(self.entries@, i as int);
                }
                Ok(t)
            },
            None => Err(TicketError::NotFound),
        }
    }

    /// Applies an already-authorized update: replaces the whole record under
    /// `id` in one step, so a partial update is never observable. Fails with
    /// `NotFound`, changing nothing, if no record exists.
    pub fn write(&mut self, id: TicketId, t: Ticket) -> (r: Result<(), TicketError>)
        requires
            old(self).wf(),
        ensures
            final(self).wf(),
            old(self).contents().contains_key(id) ==> r == Ok::<(), TicketError>(()) && final(
            self).contents() == old(self).contents().insert(id, t@),
            !old(self).contents().contains_key(id) ==> r == Err::<(), TicketError>(
            TicketError::NotFound) && *final(self) == *old(self),
    {
        match self.find(id) {
            Some(i) => {
                let ghost s0 = self.entries@;
                self.entries[i] = (id, t);
                proof {
                    lemma_update_contents(s0, self.entries@, i as int);
                }
                Ok(())
            },
            None => Err(TicketError::NotFound),
        }
    }
}

} // verus!

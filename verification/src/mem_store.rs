//! An in-memory store: a reference implementation of `Store` whose
//! contracts are proved rather than supplied by a backend. It keeps the
//! ownership table in a vector with pairwise-distinct app ids, viewed as
//! the map the trait's contracts speak of.

use vstd::prelude::*;

use crate::collaborators::{spec_covers_owned, spec_name_registered, Store};
use crate::error::StorageFailure;
use crate::model::{AppOwnership, ElectionLock};

verus! {

/// The map a sequence of records denotes, keyed by app id; a later record
/// under the same key shadows an earlier one.
pub open spec fn recs_view(s: Seq<AppOwnership>) -> Map<u64, AppOwnership>
    decreases s.len(),
{
    if s.len() == 0 {
        Map::empty()
    } else {
        recs_view(s.drop_last()).insert(s.last().app_id, s.last())
    }
}

/// No two records share an app id.
pub open spec fn unique_ids(s: Seq<AppOwnership>) -> bool {
    forall|i: int, j: int| 0 <= i < j < s.len() ==> s[i].app_id != s[j].app_id
}

proof fn lemma_unique_drop_last(s: Seq<AppOwnership>)
    requires
        unique_ids(s),
        s.len() > 0,
    ensures
        unique_ids(s.drop_last()),
{
    assert forall|a: int, b: int|
        0 <= a < b < s.drop_last().len() implies s.drop_last()[a].app_id
        != s.drop_last()[b].app_id by {
        assert(s.drop_last()[a] == s[a]);
        assert(s.drop_last()[b] == s[b]);
    }
}

proof fn lemma_recs_view_contains(s: Seq<AppOwnership>, id: u64)
    ensures
        recs_view(s).contains_key(id) <==> exists|i: int| 0 <= i < s.len() && s[i].app_id == id,
    decreases s.len(),
{
    if s.len() > 0 {
        lemma_recs_view_contains(s.drop_last(), id);
        if s.last().app_id == id {
            assert(s[s.len() - 1].app_id == id);
        } else if recs_view(s).contains_key(id) {
            let i = choose|i: int| 0 <= i < s.drop_last().len() && s.drop_last()[i].app_id == id;
            assert(s[i].app_id == id);
        } else {
            if exists|i: int| 0 <= i < s.len() && s[i].app_id == id {
                let i = choose|i: int| 0 <= i < s.len() && s[i].app_id == id;
                assert(s.drop_last()[i].app_id == id);
            }
        }
    }
}

proof fn lemma_recs_view_index(s: Seq<AppOwnership>, i: int)
    requires
        unique_ids(s),
        0 <= i < s.len(),
    ensures
        recs_view(s).contains_key(s[i].app_id),
        recs_view(s)[s[i].app_id] == s[i],
    decreases s.len(),
{
    if i < s.len() - 1 {
        lemma_unique_drop_last(s);
        lemma_recs_view_index(s.drop_last(), i);
        assert(s.drop_last()[i] == s[i]);
        assert(s[i].app_id != s.last().app_id);
    }
}

proof fn lemma_recs_view_update(s: Seq<AppOwnership>, i: int, rec: AppOwnership)
    requires
        unique_ids(s),
        0 <= i < s.len(),
        s[i].app_id == rec.app_id,
    ensures
        recs_view(s.update(i, rec)) == recs_view(s).insert(rec.app_id, rec),
    decreases s.len(),
{
    let t = s.update(i, rec);
    if i == s.len() - 1 {
        assert(t.drop_last() =~= s.drop_last());
        assert(t.last() == rec);
        assert(recs_view(t) =~= recs_view(s).insert(rec.app_id, rec));
    } else {
        lemma_unique_drop_last(s);
        assert(t.drop_last() =~= s.drop_last().update(i, rec));
        assert(s.drop_last()[i] == s[i]);
        lemma_recs_view_update(s.drop_last(), i, rec);
        assert(t.last() == s.last());
        assert(s[i].app_id != s.last().app_id);
        assert(recs_view(t) =~= recs_view(s).insert(rec.app_id, rec));
    }
}

fn copy_rec(r: &AppOwnership) -> (c: AppOwnership)
    ensures
        c == *r,
{
    AppOwnership {
        app_id: r.app_id,
        app_name: r.app_name.clone(),
        current_server: r.current_server.clone(),
        last_modified: r.last_modified,
    }
}

fn collect_owned(recs: &Vec<AppOwnership>, address: &str) -> (found: Vec<AppOwnership>)
    requires
        unique_ids(recs@),
    ensures
        forall|j: int|
            0 <= j < found@.len() ==> (#[trigger] found@[j]).current_server@ == address@
                && recs_view(recs@).contains_key(found@[j].app_id) && found@[j] == recs_view(
                recs@,
            )[found@[j].app_id],
        spec_covers_owned(recs_view(recs@), address@, found@),
{
    let target: String = address.to_owned();
    let mut found: Vec<AppOwnership> = Vec::new();
    let n = recs.len();
    let mut i: usize = 0;
    while i < n
        invariant
            n == recs@.len(),
            i <= n,
            unique_ids(recs@),
            target@ == address@,
            forall|j: int|
                0 <= j < found@.len() ==> (#[trigger] found@[j]).current_server@ == address@
                    && recs_view(recs@).contains_key(found@[j].app_id) && found@[j] == recs_view(
                    recs@,
                )[found@[j].app_id],
            forall|k: int|
                0 <= k < i && (#[trigger] recs@[k]).current_server@ == address@ ==> exists|j: int|
                    0 <= j < found@.len() && found@[j].app_id == recs@[k].app_id,
        decreases n - i,
    {
        let ghost pre_found = found@;
        if recs[i].current_server == target {
            let c = copy_rec(&recs[i]);
            proof {
                lemma_recs_view_index(recs@, i as int);
            }
            found.push(c);
        }
        proof {
            assert forall|k: int|
                0 <= k < i + 1 && (#[trigger] recs@[k]).current_server@ == address@
                    implies exists|j: int|
                    0 <= j < found@.len() && found@[j].app_id == recs@[k].app_id by {
                if k < i {
                    let j = choose|j: int|
                        0 <= j < pre_found.len() && pre_found[j].app_id == recs@[k].app_id;
                    assert(found@[j].app_id == recs@[k].app_id);
                } else {
                    assert(found@[found@.len() - 1].app_id == recs@[i as int].app_id);
                }
            }
        }
        i = i + 1;
    }
    proof {
        assert forall|id: u64|
            (#[trigger] recs_view(recs@).contains_key(id)) && recs_view(
                recs@,
            )[id].current_server@ == address@ implies exists|j: int|
                0 <= j < found@.len() && found@[j].app_id == id by {
            lemma_recs_view_contains(recs@, id);
            let k = choose|k: int| 0 <= k < recs@.len() && recs@[k].app_id == id;
            lemma_recs_view_index(recs@, k);
            assert(recs@[k].current_server@ == address@);
        }
        assert(spec_covers_owned(recs_view(recs@), address@, found@));
    }
    found
}

fn index_of_id(recs: &Vec<AppOwnership>, app_id: u64) -> (r: Option<usize>)
    ensures
        (r matches Some(i) ==> i < recs@.len() && recs@[i as int].app_id == app_id),
        (r matches None ==> forall|j: int| 0 <= j < recs@.len() ==> recs@[j].app_id != app_id),
{
    let n = recs.len();
    let mut i: usize = 0;
    while i < n
        invariant
            n == recs@.len(),
            i <= n,
            forall|j: int| 0 <= j < i ==> recs@[j].app_id != app_id,
        decreases n - i,
    {
        if recs[i].app_id == app_id {
            return Some(i);
        }
        i = i + 1;
    }
    None
}

/// The in-memory store. The advisory lock table is always granted: a single
/// in-process store has no contending writer to exclude.
pub struct MemStore {
    recs: Vec<AppOwnership>,
    lock_table: Ghost<Map<u64, ElectionLock>>,
    read_ops: Ghost<nat>,
    failed_ops: Ghost<nat>,
    refused_locks: Ghost<nat>,
}

impl MemStore {
    #[verifier::type_invariant]
    spec fn wf(self) -> bool {
        unique_ids(self.recs@)
    }

    /// An empty store.
    pub fn new() -> (r: MemStore)
        ensures
            r.ownerships() == Map::<u64, AppOwnership>::empty(),
            r.locks() == Map::<u64, ElectionLock>::empty(),
    {
        MemStore {
            recs: Vec::new(),
            lock_table: Ghost(Map::empty()),
            read_ops: Ghost(0nat),
            failed_ops: Ghost(0nat),
            refused_locks: Ghost(0nat),
        }
    }
}

impl Store for MemStore {
    closed spec fn ownerships(&self) -> Map<u64, AppOwnership> {
        recs_view(self.recs@)
    }

    closed spec fn locks(&self) -> Map<u64, ElectionLock> {
        self.lock_table@
    }

    closed spec fn reads(&self) -> nat {
        self.read_ops@
    }

    closed spec fn failures(&self) -> nat {
        self.failed_ops@
    }

    closed spec fn lock_refusals(&self) -> nat {
        self.refused_locks@
    }

    fn fetch_ownership(&mut self, app_id: u64) -> (r: Result<
        Option<AppOwnership>,
        StorageFailure,
    >) {
        proof {
            use_type_invariant(&*self);
        }
        self.read_ops = Ghost(self.read_ops@ + 1);
        let n = self.recs.len();
        let mut i: usize = 0;
        while i < n
            invariant
                n == self.recs@.len(),
                i <= n,
                unique_ids(self.recs@),
                self.recs@ == old(self).recs@,
                self.lock_table@ == old(self).lock_table@,
                self.read_ops@ == old(self).read_ops@ + 1,
                self.failed_ops@ == old(self).failed_ops@,
                self.refused_locks@ == old(self).refused_locks@,
                forall|j: int| 0 <= j < i ==> self.recs@[j].app_id != app_id,
            decreases n - i,
        {
            if self.recs[i].app_id == app_id {
                let found = copy_rec(&self.recs[i]);
                proof {
                    lemma_recs_view_index(self.recs@, i as int);
                }
                return Ok(Some(found));
            }
            i = i + 1;
        }
        proof {
            lemma_recs_view_contains(self.recs@, app_id);
        }
        Ok(None)
    }

    fn app_name_registered(&mut self, app_name: &str) -> (r: Result<bool, StorageFailure>) {
        proof {
            use_type_invariant(&*self);
        }
        self.read_ops = Ghost(self.read_ops@ + 1);
        let target: String = app_name.to_owned();
        let n = self.recs.len();
        let mut i: usize = 0;
        while i < n
            invariant
                n == self.recs@.len(),
                i <= n,
                unique_ids(self.recs@),
                self.recs@ == old(self).recs@,
                self.lock_table@ == old(self).lock_table@,
                self.read_ops@ == old(self).read_ops@ + 1,
                self.failed_ops@ == old(self).failed_ops@,
                self.refused_locks@ == old(self).refused_locks@,
                target@ == app_name@,
                forall|j: int| 0 <= j < i ==> self.recs@[j].app_name@ != app_name@,
            decreases n - i,
        {
            if self.recs[i].app_name == target {
                proof {
                    lemma_recs_view_index(self.recs@, i as int);
                }
                return Ok(true);
            }
            i = i + 1;
        }
        proof {
            if spec_name_registered(recs_view(self.recs@), app_name@) {
                let id = choose|id: u64|
                    #[trigger] recs_view(self.recs@).contains_key(id)
                        && recs_view(self.recs@)[id].app_name@ == app_name@;
                lemma_recs_view_contains(self.recs@, id);
                let k = choose|k: int| 0 <= k < self.recs@.len() && self.recs@[k].app_id == id;
                lemma_recs_view_index(self.recs@, k);
                assert(false);
            }
        }
        Ok(false)
    }

    fn save_ownership(&mut self, rec: AppOwnership) -> (r: Result<(), StorageFailure>) {
        proof {
            use_type_invariant(&*self);
        }
        let ghost pre = self.recs@;
        let mut recs: Vec<AppOwnership> = Vec::new();
        core::mem::swap(&mut recs, &mut self.recs);
        match index_of_id(&recs, rec.app_id) {
            Some(i) => {
                let ghost new_rec = rec;
                recs[i] = rec;
                proof {
                    assert(recs@ =~= pre.update(i as int, new_rec));
                    lemma_recs_view_update(pre, i as int, new_rec);
                    assert forall|a: int, b: int|
                        0 <= a < b < recs@.len() implies recs@[a].app_id != recs@[b].app_id by {
                        assert(pre[a].app_id == recs@[a].app_id);
                        assert(pre[b].app_id == recs@[b].app_id);
                    }
                }
            },
            None => {
                let ghost new_rec = rec;
                recs.push(rec);
                proof {
                    assert(recs@.drop_last() =~= pre);
                    assert(recs@.last() == new_rec);
                }
            },
        }
        self.recs = recs;
        Ok(())
    }

    fn try_lock(&mut self, lock: ElectionLock) -> (r: bool) {
        proof {
            use_type_invariant(&*self);
        }
        self.lock_table = Ghost(self.lock_table@.insert(lock.resource_id, lock));
        true
    }

    fn find_owned(&mut self, address: &str) -> (r: Result<
        Option<Vec<AppOwnership>>,
        StorageFailure,
    >) {
        proof {
            use_type_invariant(&*self);
        }
        self.read_ops = Ghost(self.read_ops@ + 1);
        let found = collect_owned(&self.recs, address);
        if found.len() == 0 {
            proof {
                assert forall|id: u64|
                    #[trigger] recs_view(self.recs@).contains_key(id) implies recs_view(
                    self.recs@,
                )[id].current_server@ != address@ by {
                    if recs_view(self.recs@)[id].current_server@ == address@ {
                        assert(spec_covers_owned(recs_view(self.recs@), address@, found@));
                        let j = choose|j: int|
                            0 <= j < found@.len() && found@[j].app_id == id;
                        assert(false);
                    }
                }
            }
            return Ok(None);
        }
        Ok(Some(found))
    }
}

} // verus!

use vstd::prelude::*;
use crate::post::{Post, Status};

verus! {

/// A post together with the identifier that the store gave it.
pub struct Record {
    pub id: u64,
    pub post: Post,
}

impl Record {
    /// A copy of the record, equal to it.
    pub fn duplicate(&self) -> (r: Record)
        ensures
            r == *self,
    {
        Record { id: self.id, post: self.post.duplicate() }
    }
}

/// A due post: still pending, and its scheduled time has come.
pub open spec fn is_due(p: Post, now: i64) -> bool {
    p.status == Status::Pending && p.scheduled_time <= now
}

pub open spec fn due_pred(now: i64) -> spec_fn(Record) -> bool {
    |r: Record| is_due(r.post, now)
}

/// The due records of `s`, in store order.
pub open spec fn due_set(s: Seq<Record>, now: i64) -> Seq<Record> {
    s.filter(due_pred(now))
}

/// A pending post whose scheduled time lies in `[lo, hi]`.
pub open spec fn in_window(p: Post, lo: i64, hi: i64) -> bool {
    p.status == Status::Pending && lo <= p.scheduled_time <= hi
}

pub open spec fn window_pred(lo: i64, hi: i64) -> spec_fn(Record) -> bool {
    |r: Record| in_window(r.post, lo, hi)
}

/// The pending records of `s` scheduled within `[lo, hi]`, in store order.
pub open spec fn window_set(s: Seq<Record>, lo: i64, hi: i64) -> Seq<Record> {
    s.filter(window_pred(lo, hi))
}

pub open spec fn ids_unique(s: Seq<Record>) -> bool {
    forall|i: int, j: int| 0 <= i < s.len() && 0 <= j < s.len() && i != j ==> s[i].id != s[j].id
}

pub open spec fn has_id(s: Seq<Record>, id: u64) -> bool {
    exists|i: int| 0 <= i < s.len() && s[i].id == id
}

/// The record with its status set to `status`.
pub open spec fn with_status(r: Record, status: Status) -> Record {
    Record { post: Post { status, ..r.post }, ..r }
}

/// `s` after the record with identifier `id`, if any, got status `status`.
pub open spec fn set_status_in(s: Seq<Record>, id: u64, status: Status) -> Seq<Record> {
    s.map_values(|r: Record| if r.id == id { with_status(r, status) } else { r })
}

/// Whether `s` holds a pending record with identifier `id`.
pub open spec fn has_pending_id(s: Seq<Record>, id: u64) -> bool {
    exists|i: int| 0 <= i < s.len() && s[i].id == id && s[i].post.status == Status::Pending
}

/// `s` after the post of the record with identifier `id` was replaced, if that
/// record is still pending; a published record is never edited.
pub open spec fn replace_in(s: Seq<Record>, id: u64, post: Post) -> Seq<Record> {
    s.map_values(
        |r: Record|
            if r.id == id && r.post.status == Status::Pending {
                Record { id, post }
            } else {
                r
            },
    )
}

pub open spec fn keep_pred(id: u64) -> spec_fn(Record) -> bool {
    |r: Record| r.id != id
}

/// `s` without the record with identifier `id`.
pub open spec fn remove_from(s: Seq<Record>, id: u64) -> Seq<Record> {
    s.filter(keep_pred(id))
}

/// A document store of posts keyed by identifiers that it hands out itself,
/// kept in insertion order.
pub struct PostStore {
    records: Vec<Record>,
    next_id: u64,
}

impl View for PostStore {
    type V = Seq<Record>;

    closed spec fn view(&self) -> Seq<Record> {
        self.records@
    }
}

impl PostStore {
    /// Identifiers are unique, and all lie below the next one to hand out.
    pub closed spec fn wf(&self) -> bool {
        &&& ids_unique(self.records@)
        &&& forall|i: int| 0 <= i < self.records@.len() ==> #[trigger] self.records@[i].id < self.next_id
    }

    /// How many identifiers the store has handed out.
    pub closed spec fn ids_issued(&self) -> int {
        self.next_id as int
    }

    /// Every identifier has been handed out.
    pub open spec fn ids_exhausted(&self) -> bool {
        self.ids_issued() >= u64::MAX
    }

    pub proof fn lemma_wf_ids_unique(&self)
        requires
            self.wf(),
        ensures
            ids_unique(self@),
    {
    }

    pub fn new() -> (r: PostStore)
        ensures
            r.wf(),
            r@ == Seq::<Record>::empty(),
            r.ids_issued() == 0,
    {
        PostStore { records: Vec::new(), next_id: 0 }
    }

    pub fn len(&self) -> (r: usize)
        ensures
            r == self@.len(),
    {
        self.records.len()
    }

    /// Stores `post` under a fresh identifier and returns it; `None`, with the
    /// store unchanged, once every identifier has been handed out.
    pub fn insert(&mut self, post: Post) -> (r: Option<u64>)
        requires
            old(self).wf(),
        ensures
            final(self).wf(),
            old(self).ids_exhausted() ==> r is None && final(self)@ == old(self)@
                && final(self).ids_issued() == old(self).ids_issued(),
            !old(self).ids_exhausted() ==> (r matches Some(id) && !has_id(old(self)@, id)
                && final(self)@ == old(self)@.push(Record { id, post })
                && final(self).ids_issued() == old(self).ids_issued() + 1),
    {
        if self.next_id == u64::MAX {
            return None;
        }
        let id = self.next_id;
        self.records.push(Record { id, post });
        self.next_id = id + 1;
        proof {
            assert(self.records@[self.records@.len() - 1].id == id);
        }
        Some(id)
    }

    /// The index of the record with identifier `id`.
    fn position(&self, id: u64) -> (r: Option<usize>)
        requires
            self.wf(),
        ensures
            r matches Some(i) ==> i < self@.len() && self@[i as int].id == id,
            r is None <==> !has_id(self@, id),
    {
        let mut i: usize = 0;
        while i < self.records.len()
            invariant
                i <= self.records@.len(),
                forall|j: int| 0 <= j < i ==> self.records@[j].id != id,
            decreases self.records@.len() - i,
        {
            if self.records[i].id == id {
                return Some(i);
            }
            i = i + 1;
        }
        None
    }

    /// The status of the record with identifier `id`, if there is one.
    pub fn status_of(&self, id: u64) -> (r: Option<Status>)
        requires
            self.wf(),
        ensures
            r is None <==> !has_id(self@, id),
            forall|i: int| 0 <= i < self@.len() && self@[i].id == id ==> r == Some(self@[i].post.status),
    {
        match self.position(id) {
            Some(i) => Some(self.records[i].post.status),
            None => None,
        }
    }

    /// The post of the record with identifier `id`, if there is one.
    pub fn get(&self, id: u64) -> (r: Option<&Post>)
        requires
            self.wf(),
        ensures
            r is None <==> !has_id(self@, id),
            forall|i: int| 0 <= i < self@.len() && self@[i].id == id ==> r == Some(&self@[i].post),
    {
        match self.position(id) {
            Some(i) => Some(&self.records[i].post),
            None => None,
        }
    }

    /// The due posts at `now`: pending, and scheduled at or before `now`.
    pub fn find_due(&self, now: i64) -> (r: Vec<Record>)
        ensures
            r@ == due_set(self@, now),
    {
        let mut out: Vec<Record> = Vec::new();
        let mut i: usize = 0;
        while i < self.records.len()
            invariant
                i <= self.records@.len(),
                out@ == self.records@.take(i as int).filter(due_pred(now)),
            decreases self.records@.len() - i,
        {
            let r = &self.records[i];
            if r.post.status == Status::Pending && r.post.scheduled_time <= now {
                out.push(r.duplicate());
            }
            proof {
                let s = self.records@;
                assert(s.take(i + 1) =~= s.take(i as int).push(s[i as int]));
                s.take(i as int).lemma_filter_push(s[i as int], due_pred(now));
            }
            i = i + 1;
        }
        proof {
            assert(self.records@.take(self.records@.len() as int) =~= self.records@);
        }
        out
    }

    /// The pending posts scheduled within `[lo, hi]`.
    pub fn find_pending_between(&self, lo: i64, hi: i64) -> (r: Vec<Record>)
        ensures
            r@ == window_set(self@, lo, hi),
    {
        let mut out: Vec<Record> = Vec::new();
        let mut i: usize = 0;
        while i < self.records.len()
            invariant
                i <= self.records@.len(),
                out@ == self.records@.take(i as int).filter(window_pred(lo, hi)),
            decreases self.records@.len() - i,
        {
            let r = &self.records[i];
            if r.post.status == Status::Pending && lo <= r.post.scheduled_time
                && r.post.scheduled_time <= hi {
                out.push(r.duplicate());
            }
            proof {
                let s = self.records@;
                assert(s.take(i + 1) =~= s.take(i as int).push(s[i as int]));
                s.take(i as int).lemma_filter_push(s[i as int], window_pred(lo, hi));
            }
            i = i + 1;
        }
        proof {
            assert(self.records@.take(self.records@.len() as int) =~= self.records@);
        }
        out
    }

    /// Sets the status of the record with identifier `id` and returns how many
    /// records matched: 1, or 0 when no record has that identifier (it may
    /// have been deleted meanwhile), in which case nothing changes.
    pub fn set_status(&mut self, id: u64, status: Status) -> (matched: u64)
        requires
            old(self).wf(),
        ensures
            final(self).wf(),
            final(self).ids_issued() == old(self).ids_issued(),
            final(self)@ == set_status_in(old(self)@, id, status),
            matched == (if has_id(old(self)@, id) { 1u64 } else { 0u64 }),
            !has_id(old(self)@, id) ==> final(self)@ == old(self)@,
    {
        match self.position(id) {
            None => {
                assert(set_status_in(self@, id, status) =~= self@);
                0
            },
            Some(i) => {
                let r = self.records[i].duplicate();
                let updated = Record { id: r.id, post: Post { status, ..r.post } };
                let ghost before = self.records@;
                self.records.set(i, updated);
                proof {
                    assert forall|j: int| 0 <= j < before.len() && j != i implies before[j].id != id by {
                    }
                    assert(self.records@ =~= set_status_in(before, id, status));
                }
                1
            },
        }
    }

    /// Replaces the post of the record with identifier `id` while that record
    /// is pending, and returns how many records matched: 1, or 0 when there is
    /// no pending record with that identifier (nothing changes). A published
    /// post is never edited, so it stays published at its scheduled time.
    pub fn replace(&mut self, id: u64, post: Post) -> (matched: u64)
        requires
            old(self).wf(),
        ensures
            final(self).wf(),
            final(self).ids_issued() == old(self).ids_issued(),
            final(self)@ == replace_in(old(self)@, id, post),
            matched == (if has_pending_id(old(self)@, id) { 1u64 } else { 0u64 }),
            !has_pending_id(old(self)@, id) ==> final(self)@ == old(self)@,
            forall|i: int|
                0 <= i < old(self)@.len() && old(self)@[i].post.status == Status::Published
                    ==> #[trigger] final(self)@[i] == old(self)@[i],
    {
        let ghost before = self.records@;
        let ghost p = post;
        match self.position(id) {
            Some(i) => {
                if self.records[i].post.status == Status::Pending {
                    self.records.set(i, Record { id, post });
                    proof {
                        assert forall|j: int| 0 <= j < before.len() && j != i implies before[j].id
                            != id by {}
                        assert(self.records@ =~= replace_in(before, id, p));
                    }
                    1
                } else {
                    proof {
                        assert forall|j: int| 0 <= j < before.len() && j != i implies before[j].id
                            != id by {}
                        assert(replace_in(before, id, p) =~= before);
                    }
                    0
                }
            },
            None => {
                assert(replace_in(before, id, p) =~= before);
                0
            },
        }
    }

    /// Deletes the record with identifier `id` and returns how many records
    /// were deleted: 1, or 0 when there is none.
    pub fn remove(&mut self, id: u64) -> (deleted: u64)
        requires
            old(self).wf(),
        ensures
            final(self).wf(),
            final(self).ids_issued() == old(self).ids_issued(),
            final(self)@ == remove_from(old(self)@, id),
            deleted == (if has_id(old(self)@, id) { 1u64 } else { 0u64 }),
    {
        let ghost before = self.records@;
        match self.position(id) {
            None => {
                proof {
                    let s = before;
                    assert forall|j: int| 0 <= j < s.len() implies #[trigger] keep_pred(id)(s[j]) by {}
                    lemma_filter_all(s, keep_pred(id));
                }
                0
            },
            Some(i) => {
                self.records.remove(i);
                proof {
                    lemma_filter_drop_one(before, keep_pred(id), i as int);
                    assert forall|a: int, b: int|
                        0 <= a < self.records@.len() && 0 <= b < self.records@.len() && a != b
                        implies self.records@[a].id != self.records@[b].id by {
                        let a2 = if a < i { a } else { a + 1 };
                        let b2 = if b < i { b } else { b + 1 };
                        assert(self.records@[a] == before[a2]);
                        assert(self.records@[b] == before[b2]);
                    }
                    assert forall|a: int| 0 <= a < self.records@.len()
                        implies #[trigger] self.records@[a].id < self.next_id by {
                        let a2 = if a < i { a } else { a + 1 };
                        assert(self.records@[a] == before[a2]);
                    }
                }
                1
            },
        }
    }
}

/// Filtering by a predicate that every element meets keeps the sequence.
proof fn lemma_filter_all(s: Seq<Record>, p: spec_fn(Record) -> bool)
    requires
        forall|j: int| 0 <= j < s.len() ==> #[trigger] p(s[j]),
    ensures
        s.filter(p) == s,
    decreases s.len(),
{
    if s.len() > 0 {
        let t = s.drop_last();
        assert forall|j: int| 0 <= j < t.len() implies #[trigger] p(t[j]) by {
            assert(t[j] == s[j]);
        }
        lemma_filter_all(t, p);
        t.lemma_filter_push(s.last(), p);
        assert(t.push(s.last()) =~= s);
    }
}

/// Filtering out exactly the element at `i` is removing it.
proof fn lemma_filter_drop_one(s: Seq<Record>, p: spec_fn(Record) -> bool, i: int)
    requires
        0 <= i < s.len(),
        !p(s[i]),
        forall|j: int| 0 <= j < s.len() && j != i ==> #[trigger] p(s[j]),
    ensures
        s.filter(p) == s.remove(i),
    decreases s.len(),
{
    let t = s.drop_last();
    if i == s.len() - 1 {
        assert forall|j: int| 0 <= j < t.len() implies #[trigger] p(t[j]) by {
            assert(t[j] == s[j]);
        }
        lemma_filter_all(t, p);
        t.lemma_filter_push(s.last(), p);
        assert(s =~= t.push(s.last()));
        assert(s.remove(i) =~= t);
    } else {
        assert forall|j: int| 0 <= j < t.len() && j != i implies #[trigger] p(t[j]) by {
            assert(t[j] == s[j]);
        }
        lemma_filter_drop_one(t, p, i);
        t.lemma_filter_push(s.last(), p);
        assert(s =~= t.push(s.last()));
        assert(s.remove(i) =~= t.remove(i).push(s.last()));
    }
}

} // verus!

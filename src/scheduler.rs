use vstd::prelude::*;
use crate::post::Status;
use crate::store::{
    due_pred, due_set, has_id, ids_unique, is_due, set_status_in, with_status, PostStore, Record,
};

verus! {

/// Pause between two polls of the store, in milliseconds.
pub const POLL_INTERVAL_MS: u64 = 20_000;

/// How the attempt on one due post ended.
#[derive(Clone, Copy, Debug, PartialEq, Eq, Structural)]
pub enum Outcome {
    /// The network accepted the post and its status is now `published`.
    Published,
    /// Resolving the author or publishing failed; the post stays `pending`
    /// and is picked again by a later poll.
    LeftPending,
    /// The network accepted the post, but the store no longer holds it (it
    /// was deleted meanwhile): nothing to update, and no error.
    Vanished,
}

/// Where the attempt on one due post stands.
#[derive(Clone, Copy, Debug, PartialEq, Eq, Structural)]
pub enum Stage {
    /// Taken from the due set, nothing done yet.
    Fresh,
    /// Waiting for the scheduled time, which still lies ahead.
    Sleeping,
    /// Waiting for the author identity behind the access token.
    Resolving,
    /// Waiting for the network's answer to the publish request.
    Publishing,
    /// Waiting for the store to record the `published` status.
    Recording,
    Finished(Outcome),
    /// The store failed to record a publish that succeeded: the loop stops,
    /// and the post, still `pending`, will be published again after restart.
    Halted,
}

/// What the caller reports back after carrying out an action.
pub enum Event {
    /// The post was taken from the due set.
    Picked,
    /// The requested sleep is over.
    Woke,
    /// The author identity was resolved.
    AuthorFound(String),
    /// Resolving the author identity failed.
    AuthorMissing,
    /// The network accepted the post.
    Accepted,
    /// The network refused the post, or could not be reached.
    Rejected,
    /// The store ran the status update; the count of records it matched.
    Recorded(u64),
    /// The store failed to run the status update.
    RecordFailed,
}

/// What the caller is to do next.
pub enum Action {
    /// Sleep this many milliseconds, then report `Woke`.
    Sleep(u64),
    /// Resolve the author identity, then report `AuthorFound` or `AuthorMissing`.
    ResolveAuthor,
    /// Publish the post's title and content as this author, then report
    /// `Accepted` or `Rejected`.
    Publish(String),
    /// Set the post's status to `published` in the store, then report
    /// `Recorded` or `RecordFailed`.
    MarkPublished,
    /// The attempt is over; go on with the next due post.
    Done(Outcome),
    /// Stop the loop.
    Halt,
    /// The event does not belong to the current stage; nothing changes.
    Ignore,
}

/// The milliseconds still to wait at `now` for a post scheduled at `scheduled`.
pub open spec fn delay_before(scheduled: i64, now: i64) -> int {
    if scheduled > now { scheduled - now } else { 0 }
}

/// The next stage and the action that an event leads to.
pub open spec fn transition(stage: Stage, event: Event, scheduled: i64, now: i64) -> (Stage, Action) {
    match (stage, event) {
        (Stage::Fresh, Event::Picked) => if scheduled > now {
            (Stage::Sleeping, Action::Sleep(delay_before(scheduled, now) as u64))
        } else {
            (Stage::Resolving, Action::ResolveAuthor)
        },
        (Stage::Sleeping, Event::Woke) => (Stage::Resolving, Action::ResolveAuthor),
        (Stage::Resolving, Event::AuthorFound(author)) => (Stage::Publishing, Action::Publish(author)),
        (Stage::Resolving, Event::AuthorMissing) => (
            Stage::Finished(Outcome::LeftPending),
            Action::Done(Outcome::LeftPending),
        ),
        (Stage::Publishing, Event::Accepted) => (Stage::Recording, Action::MarkPublished),
        (Stage::Publishing, Event::Rejected) => (
            Stage::Finished(Outcome::LeftPending),
            Action::Done(Outcome::LeftPending),
        ),
        (Stage::Recording, Event::Recorded(matched)) => if matched > 0 {
            (Stage::Finished(Outcome::Published), Action::Done(Outcome::Published))
        } else {
            (Stage::Finished(Outcome::Vanished), Action::Done(Outcome::Vanished))
        },
        (Stage::Recording, Event::RecordFailed) => (Stage::Halted, Action::Halt),
        _ => (stage, Action::Ignore),
    }
}

/// The attempt to publish one due post: the decisions of the polling loop for
/// that post, from the moment it is picked until it is settled.
pub struct Attempt {
    /// When the post is scheduled, in milliseconds since the epoch.
    pub scheduled_time: i64,
    /// The time of the poll that picked it, in milliseconds since the epoch.
    pub now: i64,
    pub stage: Stage,
}

impl Attempt {
    pub fn new(scheduled_time: i64, now: i64) -> (r: Attempt)
        ensures
            r.scheduled_time == scheduled_time,
            r.now == now,
            r.stage == Stage::Fresh,
    {
        Attempt { scheduled_time, now, stage: Stage::Fresh }
    }

    /// Moves the attempt on by one event and says what to do next.
    pub fn step(&mut self, event: Event) -> (a: Action)
        ensures
            final(self).scheduled_time == old(self).scheduled_time,
            final(self).now == old(self).now,
            (final(self).stage, a) == transition(
                old(self).stage,
                event,
                old(self).scheduled_time,
                old(self).now,
            ),
    {
        let (stage, action) = match (self.stage, event) {
            (Stage::Fresh, Event::Picked) => if self.scheduled_time > self.now {
                let wait = (self.scheduled_time as i128 - self.now as i128) as u64;
                (Stage::Sleeping, Action::Sleep(wait))
            } else {
                (Stage::Resolving, Action::ResolveAuthor)
            },
            (Stage::Sleeping, Event::Woke) => (Stage::Resolving, Action::ResolveAuthor),
            (Stage::Resolving, Event::AuthorFound(author)) => (Stage::Publishing, Action::Publish(author)),
            (Stage::Resolving, Event::AuthorMissing) => (
                Stage::Finished(Outcome::LeftPending),
                Action::Done(Outcome::LeftPending),
            ),
            (Stage::Publishing, Event::Accepted) => (Stage::Recording, Action::MarkPublished),
            (Stage::Publishing, Event::Rejected) => (
                Stage::Finished(Outcome::LeftPending),
                Action::Done(Outcome::LeftPending),
            ),
            (Stage::Recording, Event::Recorded(matched)) => if matched > 0 {
                (Stage::Finished(Outcome::Published), Action::Done(Outcome::Published))
            } else {
                (Stage::Finished(Outcome::Vanished), Action::Done(Outcome::Vanished))
            },
            (Stage::Recording, Event::RecordFailed) => (Stage::Halted, Action::Halt),
            (stage, _) => (stage, Action::Ignore),
        };
        self.stage = stage;
        action
    }
}

/// The answers that the outside world gives during one drain. The author is
/// looked up once per post: the lookup answers `author`, except for the posts
/// listed in `unresolved`, for which it fails. The network refuses the posts
/// listed in `refused` and accepts all others.
pub struct Replies {
    pub author: String,
    pub unresolved: Vec<u64>,
    pub refused: Vec<u64>,
}

/// Whether the author lookup for the post with identifier `id` succeeds.
pub open spec fn resolved_for(replies: Replies, id: u64) -> bool {
    !replies.unresolved@.contains(id)
}

pub open spec fn resolved_pred(replies: Replies) -> spec_fn(Record) -> bool {
    |r: Record| resolved_for(replies, r.id)
}

/// Whether publishing the post with identifier `id` succeeds under `replies`.
pub open spec fn accepted_by(replies: Replies, id: u64) -> bool {
    resolved_for(replies, id) && !replies.refused@.contains(id)
}

/// A record after one drain at `now`: published when it was due and the
/// network accepted it, unchanged otherwise.
pub open spec fn drained_record(r: Record, now: i64, replies: Replies) -> Record {
    if is_due(r.post, now) && accepted_by(replies, r.id) {
        with_status(r, Status::Published)
    } else {
        r
    }
}

/// The store after one drain at `now`.
pub open spec fn drained(s: Seq<Record>, now: i64, replies: Replies) -> Seq<Record> {
    s.map_values(|r: Record| drained_record(r, now, replies))
}

/// The identifiers of the posts handed to the network in one drain at `now`,
/// in order: every due post whose author lookup succeeded.
pub open spec fn submitted_ids(s: Seq<Record>, now: i64, replies: Replies) -> Seq<u64> {
    due_set(s, now).filter(resolved_pred(replies)).map_values(|r: Record| r.id)
}

spec fn picked_before(d: Seq<Record>, k: int, id: u64) -> bool {
    exists|j: int| 0 <= j < k && #[trigger] d[j].id == id
}

/// Whether `v` holds `id`.
fn contains_id(v: &Vec<u64>, id: u64) -> (r: bool)
    ensures
        r == v@.contains(id),
{
    let mut i: usize = 0;
    while i < v.len()
        invariant
            i <= v@.len(),
            forall|j: int| 0 <= j < i ==> v@[j] != id,
        decreases v@.len() - i,
    {
        if v[i] == id {
            return true;
        }
        i = i + 1;
    }
    false
}

/// Runs one poll and drain at `now` against the in-memory `store`: picks the
/// due posts and drives an `Attempt` for each in turn, the outside world
/// answering as `replies` says. Returns the identifiers handed to the network.
/// A service backed by a remote store runs the same `Attempt` steps itself,
/// carrying out each action and reporting its outcome as an event.
pub fn drain_due(store: &mut PostStore, now: i64, replies: &Replies) -> (submitted: Vec<u64>)
    requires
        old(store).wf(),
    ensures
        final(store).wf(),
        final(store).ids_issued() == old(store).ids_issued(),
        final(store)@ == drained(old(store)@, now, *replies),
        submitted@ == submitted_ids(old(store)@, now, *replies),
{
    let ghost s0 = store@;
    proof {
        store.lemma_wf_ids_unique();
    }
    let due = store.find_due(now);
    let ghost d = due@;
    let mut submitted: Vec<u64> = Vec::new();
    let mut k: usize = 0;
    while k < due.len()
        invariant
            store.wf(),
            store.ids_issued() == old(store).ids_issued(),
            ids_unique(s0),
            d == due_set(s0, now),
            due@ == d,
            k <= d.len(),
            store@.len() == s0.len(),
            forall|i: int|
                0 <= i < s0.len() ==> #[trigger] store@[i] == (if picked_before(d, k as int, s0[i].id)
                    && accepted_by(*replies, s0[i].id) {
                    with_status(s0[i], Status::Published)
                } else {
                    s0[i]
                }),
            submitted@ == d.take(k as int).filter(resolved_pred(*replies)).map_values(
                |r: Record| r.id,
            ),
        decreases d.len() - k,
    {
        let rec = &due[k];
        let id = rec.id;
        proof {
            s0.lemma_filter_pred(due_pred(now), k as int);
        }
        let mut attempt = Attempt::new(rec.post.scheduled_time, now);
        let mut action = attempt.step(Event::Picked);
        if let Action::Sleep(_) = action {
            action = attempt.step(Event::Woke);
        }
        let found = if contains_id(&replies.unresolved, id) {
            Event::AuthorMissing
        } else {
            Event::AuthorFound(replies.author.clone())
        };
        action = attempt.step(found);
        let ghost before = store@;
        if let Action::Publish(_) = action {
            submitted.push(id);
            let verdict = if contains_id(&replies.refused, id) {
                Event::Rejected
            } else {
                Event::Accepted
            };
            action = attempt.step(verdict);
            if let Action::MarkPublished = action {
                let matched = store.set_status(id, Status::Published);
                attempt.step(Event::Recorded(matched));
            }
        }
        proof {
            assert forall|i: int| 0 <= i < s0.len() implies #[trigger] store@[i] == (if picked_before(
                d,
                k + 1,
                s0[i].id,
            ) && accepted_by(*replies, s0[i].id) {
                with_status(s0[i], Status::Published)
            } else {
                s0[i]
            }) by {
                assert(before[i].id == s0[i].id);
                if d[k as int].id == s0[i].id {
                    assert(picked_before(d, k + 1, s0[i].id));
                } else if picked_before(d, k + 1, s0[i].id) {
                    let j = choose|j: int| 0 <= j < k + 1 && #[trigger] d[j].id == s0[i].id;
                    assert(picked_before(d, k as int, s0[i].id));
                } else {
                    assert(!picked_before(d, k as int, s0[i].id));
                }
            }
            let t = d.take(k as int);
            assert(d.take(k + 1) =~= t.push(d[k as int]));
            t.lemma_filter_push(d[k as int], resolved_pred(*replies));
            let f = t.filter(resolved_pred(*replies));
            if resolved_for(*replies, id) {
                assert(f.push(d[k as int]).map_values(|r: Record| r.id) =~= f.map_values(
                    |r: Record| r.id,
                ).push(id));
            }
        }
        k = k + 1;
    }
    proof {
        assert(d.take(d.len() as int) =~= d);
        assert forall|i: int| 0 <= i < s0.len() implies picked_before(d, d.len() as int, s0[i].id)
            == is_due(s0[i].post, now) by {
            if is_due(s0[i].post, now) {
                s0.lemma_filter_contains(due_pred(now), i);
                let j = choose|j: int| 0 <= j < d.len() && d[j] == s0[i];
                assert(d[j].id == s0[i].id);
            }
            if picked_before(d, d.len() as int, s0[i].id) {
                let j = choose|j: int| 0 <= j < d.len() && #[trigger] d[j].id == s0[i].id;
                s0.lemma_filter_pred(due_pred(now), j);
                assert(d.contains(d[j]));
                s0.lemma_filter_contains_rev(due_pred(now), d[j]);
                let m = choose|m: int| 0 <= m < s0.len() && s0[m] == d[j];
                assert(m == i);
            }
        }
        assert(store@ =~= drained(s0, now, *replies));
    }
    submitted
}

/// After one drain every post that was due is either `published`, when the
/// network accepted it, or still `pending`, when resolving the author or
/// publishing failed; nothing else about it changes.
pub proof fn lemma_drain_settles_due_posts(s: Seq<Record>, now: i64, replies: Replies)
    ensures
        drained(s, now, replies).len() == s.len(),
        forall|i: int|
            0 <= i < s.len() && is_due(s[i].post, now) ==> {
                let r = #[trigger] drained(s, now, replies)[i];
                &&& r.id == s[i].id
                &&& r.post.title == s[i].post.title
                &&& r.post.content == s[i].post.content
                &&& r.post.scheduled_time == s[i].post.scheduled_time
                &&& (r.post.status == Status::Published <==> accepted_by(replies, s[i].id))
                &&& (r.post.status == Status::Pending <==> !accepted_by(replies, s[i].id))
            },
{
}

/// A post scheduled after `now` is not in the due set at `now`, is not handed
/// to the network, and comes out of the drain unchanged.
pub proof fn lemma_future_posts_untouched(s: Seq<Record>, now: i64, replies: Replies)
    requires
        ids_unique(s),
    ensures
        forall|i: int|
            0 <= i < s.len() && s[i].post.scheduled_time > now ==> {
                &&& !due_set(s, now).contains(#[trigger] s[i])
                &&& !submitted_ids(s, now, replies).contains(s[i].id)
                &&& drained(s, now, replies)[i] == s[i]
            },
{
    assert forall|i: int| 0 <= i < s.len() && s[i].post.scheduled_time > now implies {
        &&& !due_set(s, now).contains(#[trigger] s[i])
        &&& !submitted_ids(s, now, replies).contains(s[i].id)
        &&& drained(s, now, replies)[i] == s[i]
    } by {
        lemma_not_due_not_submitted(s, now, replies, i);
        if due_set(s, now).contains(s[i]) {
            let j = choose|j: int| 0 <= j < due_set(s, now).len() && due_set(s, now)[j] == s[i];
            s.lemma_filter_pred(due_pred(now), j);
        }
    }
}

/// A post that is not due is not handed to the network.
proof fn lemma_not_due_not_submitted(s: Seq<Record>, now: i64, replies: Replies, i: int)
    requires
        ids_unique(s),
        0 <= i < s.len(),
        !is_due(s[i].post, now),
    ensures
        !submitted_ids(s, now, replies).contains(s[i].id),
{
    let d = due_set(s, now);
    if submitted_ids(s, now, replies).contains(s[i].id) {
        let f = d.filter(resolved_pred(replies));
        let ids = f.map_values(|r: Record| r.id);
        let jf = choose|j: int| 0 <= j < ids.len() && ids[j] == s[i].id;
        assert(f.contains(f[jf]));
        d.lemma_filter_contains_rev(resolved_pred(replies), f[jf]);
        let j = choose|j: int| 0 <= j < d.len() && d[j] == f[jf];
        s.lemma_filter_pred(due_pred(now), j);
        assert(d.contains(d[j]));
        s.lemma_filter_contains_rev(due_pred(now), d[j]);
        let m = choose|m: int| 0 <= m < s.len() && s[m] == d[j];
        assert(s[m].id == s[i].id);
    }
}

/// Draining keeps the identifiers, so it keeps them unique.
pub proof fn lemma_drain_keeps_ids(s: Seq<Record>, now: i64, replies: Replies)
    requires
        ids_unique(s),
    ensures
        ids_unique(drained(s, now, replies)),
        forall|i: int| 0 <= i < s.len() ==> #[trigger] drained(s, now, replies)[i].id == s[i].id,
{
}

/// A drain never turns a `published` post back, and never hands it to the
/// network again.
pub proof fn lemma_published_posts_stay(s: Seq<Record>, now: i64, replies: Replies)
    requires
        ids_unique(s),
    ensures
        forall|i: int|
            #![trigger s[i]]
            0 <= i < s.len() && s[i].post.status == Status::Published ==> {
                &&& drained(s, now, replies)[i] == s[i]
                &&& !submitted_ids(s, now, replies).contains(s[i].id)
            },
{
    assert forall|i: int|
        #![trigger s[i]]
        0 <= i < s.len() && s[i].post.status == Status::Published implies {
            &&& drained(s, now, replies)[i] == s[i]
            &&& !submitted_ids(s, now, replies).contains(s[i].id)
        } by {
        lemma_not_due_not_submitted(s, now, replies, i);
    }
}

/// Two drains in a row with no change to the store in between: a post that
/// the first one published is not handed to the network by the second.
pub proof fn lemma_second_drain_skips_published(
    s: Seq<Record>,
    first_now: i64,
    first_replies: Replies,
    second_now: i64,
    second_replies: Replies,
)
    requires
        ids_unique(s),
    ensures
        forall|i: int|
            0 <= i < s.len() && drained(s, first_now, first_replies)[i].post.status
                == Status::Published ==> !(#[trigger] submitted_ids(
                drained(s, first_now, first_replies),
                second_now,
                second_replies,
            ).contains(s[i].id)),
{
    let s1 = drained(s, first_now, first_replies);
    lemma_drain_keeps_ids(s, first_now, first_replies);
    lemma_published_posts_stay(s1, second_now, second_replies);
    assert forall|i: int| 0 <= i < s.len() && s1[i].post.status == Status::Published implies !(
    #[trigger] submitted_ids(s1, second_now, second_replies).contains(s[i].id)) by {
        assert(s1[i].id == s[i].id);
    }
}

/// Recording a publish for a post that was deleted meanwhile is no error:
/// the store matches nothing and stays as it was, and the attempt ends
/// without stopping the loop.
pub proof fn lemma_missing_record_is_benign(s: Seq<Record>, id: u64, scheduled: i64, now: i64)
    requires
        !has_id(s, id),
    ensures
        set_status_in(s, id, Status::Published) == s,
        transition(Stage::Recording, Event::Recorded(0), scheduled, now) == (
            Stage::Finished(Outcome::Vanished),
            Action::Done(Outcome::Vanished),
        ),
{
    assert(set_status_in(s, id, Status::Published) =~= s);
}

/// An attempt never publishes before its post's time: when the post is picked
/// ahead of its scheduled time, the first action is to sleep for exactly the
/// time left, and a publish request comes only from the stage that waits for
/// the author, which no stage reaches before that sleep is over.
pub proof fn lemma_publish_waits_for_schedule(scheduled: i64, now: i64)
    ensures
        scheduled > now ==> transition(Stage::Fresh, Event::Picked, scheduled, now) == (
            Stage::Sleeping,
            Action::Sleep((scheduled - now) as u64),
        ),
        forall|stage: Stage, event: Event|
            (#[trigger] transition(stage, event, scheduled, now)).1 is Publish ==> stage == Stage::Resolving,
        forall|event: Event|
            (#[trigger] transition(Stage::Sleeping, event, scheduled, now)).0 != Stage::Sleeping
                ==> event is Woke,
{
}

} // verus!

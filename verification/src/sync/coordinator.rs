//! The synchronization coordinator: the single point of truth for "is this
//! course already being handled".
//!
//! The coordinator processes one request at a time, in arrival order. The
//! first request for a course creates a pending gate and starts the one
//! authoritative worker; every further request either joins the waiters of
//! the pending gate or, once that gate has opened, is answered immediately
//! with the recorded outcome. Entries are never removed during a run: a
//! failed fetch opens its gate with a failure outcome instead of leaving it
//! pending, so no duplicate request can block forever.

use vstd::prelude::*;
use vstd::hash_map::StringHashMap;

use crate::celcat::fetchable::calendar::CourseId;
use crate::wait::{GateState, Outcome};

verus! {

/// One entry of the coordinator's table: the state of the course's gate and
/// the reply channels of everyone waiting for it to open.
///
/// Exactly one entry exists per distinct course per run, created on first
/// sight of the course and kept for the rest of the run.
#[derive(Debug)]
pub struct DedupEntry {
    pub gate: GateState,
    pub waiters: Vec<u64>,
}

/// The mathematical shape of one table entry.
#[verifier::ext_equal]
pub struct EntryView {
    pub state: GateState,
    pub waiters: Seq<u64>,
}

/// What the coordinator asks its caller to do after one request.
#[derive(Clone, Copy, PartialEq, Eq, Structural, Debug)]
pub enum Action {
    /// First request for this course: spawn the one authoritative worker.
    /// The requester's reply is already registered on the course's gate.
    StartWorker,
    /// Duplicate request while the fetch is in flight: the reply has been
    /// registered and will fire when the course's gate opens.
    Registered,
    /// The course was already handled: fire this reply now, with the
    /// outcome the course's gate was opened with.
    Reply(Outcome),
}

/// One request, in the mathematical run model: a course and the reply
/// channel that must eventually resolve.
pub struct ReqView {
    pub course: Seq<char>,
    pub reply: u64,
}

/// The coordinator and its course-to-gate table.
///
/// The table is mutated only through [`Coordinator::handle_request`] and
/// [`Coordinator::handle_worker_done`], the two steps of the single
/// dispatch loop.
pub struct Coordinator {
    table: StringHashMap<DedupEntry>,
}

impl View for Coordinator {
    type V = Map<Seq<char>, EntryView>;

    closed spec fn view(&self) -> Map<Seq<char>, EntryView> {
        Map::new(
            |k: Seq<char>| self.table@.contains_key(k),
            |k: Seq<char>| EntryView { state: self.table@[k].gate, waiters: self.table@[k].waiters@ },
        )
    }
}

/// The table after one request for `course` with reply channel `reply`.
pub open spec fn dispatch_state(
    pre: Map<Seq<char>, EntryView>,
    course: Seq<char>,
    reply: u64,
) -> Map<Seq<char>, EntryView> {
    if !pre.contains_key(course) {
        pre.insert(course, EntryView { state: GateState::Pending, waiters: seq![reply] })
    } else {
        match pre[course].state {
            GateState::Pending => pre.insert(
                course,
                EntryView { state: GateState::Pending, waiters: pre[course].waiters.push(reply) },
            ),
            GateState::Opened(_) => pre,
        }
    }
}

/// The action one request for `course` provokes.
pub open spec fn dispatch_action(
    pre: Map<Seq<char>, EntryView>,
    course: Seq<char>,
) -> Action {
    if !pre.contains_key(course) {
        Action::StartWorker
    } else {
        match pre[course].state {
            GateState::Pending => Action::Registered,
            GateState::Opened(o) => Action::Reply(o),
        }
    }
}

/// The table after the worker for `course` finishes with `outcome`: the
/// gate opens with that outcome and its waiter list is handed out.
pub open spec fn open_state(
    pre: Map<Seq<char>, EntryView>,
    course: Seq<char>,
    outcome: Outcome,
) -> Map<Seq<char>, EntryView> {
    pre.insert(course, EntryView { state: GateState::Opened(outcome), waiters: Seq::empty() })
}

/// Copies a list of reply channel ids.
fn copy_ids(v: &Vec<u64>) -> (r: Vec<u64>)
    ensures
        r@ == v@,
{
    let mut r: Vec<u64> = Vec::new();
    let mut i: usize = 0;
    while i < v.len()
        invariant
            i <= v.len(),
            r@ == v@.subrange(0, i as int),
        decreases v.len() - i,
    {
        r.push(v[i]);
        proof {
            assert(v@.subrange(0, i + 1 as int) =~= v@.subrange(0, i as int).push(v@[i as int]));
        }
        i = i + 1;
    }
    proof {
        assert(v@.subrange(0, v@.len() as int) =~= v@);
    }
    r
}

impl Coordinator {
    /// A coordinator with fresh state, one per synchronization run.
    pub fn new() -> (c: Coordinator)
        ensures
            c@ == Map::<Seq<char>, EntryView>::empty(),
    {
        let c = Coordinator { table: StringHashMap::new() };
        proof {
            assert(c@ =~= Map::<Seq<char>, EntryView>::empty());
        }
        c
    }

    /// Handles one request `(course, reply)`, in arrival order.
    ///
    /// The first request for a course creates its pending entry, registers
    /// the reply and asks for the one worker; a duplicate while pending is
    /// registered; a duplicate after the course's gate opened is answered at once
    /// with the recorded outcome, and the table is left unchanged.
    pub fn handle_request(&mut self, course: &CourseId, reply: u64) -> (a: Action)
        ensures
            final(self)@ == dispatch_state(old(self)@, course@, reply),
            a == dispatch_action(old(self)@, course@),
    {
        let mut existing: Option<(GateState, Vec<u64>)> = None;
        match self.table.get(self.str_of(course)) {
            Some(e) => {
                existing = Some((e.gate, copy_ids(&e.waiters)));
            },
            None => {},
        }
        match existing {
            None => {
                let mut ws: Vec<u64> = Vec::new();
                ws.push(reply);
                self.table.insert(course.0.clone(), DedupEntry { gate: GateState::Pending, waiters: ws });
                proof {
                    assert(self@ =~= dispatch_state(old(self)@, course@, reply));
                }
                Action::StartWorker
            },
            Some((GateState::Pending, ws)) => {
                let mut ws = ws;
                ws.push(reply);
                self.table.insert(course.0.clone(), DedupEntry { gate: GateState::Pending, waiters: ws });
                proof {
                    assert(self@ =~= dispatch_state(old(self)@, course@, reply));
                }
                Action::Registered
            },
            Some((GateState::Opened(o), _)) => {
                proof {
                    assert(self@ =~= dispatch_state(old(self)@, course@, reply));
                }
                Action::Reply(o)
            },
        }
    }

    /// Records that the one worker for `course` finished with `outcome`.
    ///
    /// The course's gate opens with that outcome — exactly once, since an opened
    /// gate is never pending again — and the returned reply channels are
    /// all the waiters registered so far: each must now be resolved with
    /// this same outcome.
    pub fn handle_worker_done(&mut self, course: &CourseId, outcome: Outcome) -> (ws: Vec<u64>)
        requires
            old(self)@.contains_key(course@),
            old(self)@[course@].state is Pending,
        ensures
            final(self)@ == open_state(old(self)@, course@, outcome),
            ws@ == old(self)@[course@].waiters,
    {
        let ws: Vec<u64> = match self.table.get(self.str_of(course)) {
            Some(e) => copy_ids(&e.waiters),
            None => vstd::pervasive::unreached(),
        };
        self.table.insert(
            course.0.clone(),
            DedupEntry { gate: GateState::Opened(outcome), waiters: Vec::new() },
        );
        proof {
            assert(self@ =~= open_state(old(self)@, course@, outcome));
        }
        ws
    }

    /// The recorded state of one course's gate, for observers.
    pub fn gate_of(&self, course: &CourseId) -> (r: Option<GateState>)
        ensures
            match r {
                Some(g) => self@.contains_key(course@) && g == self@[course@].state,
                None => !self@.contains_key(course@),
            },
    {
        match self.table.get(self.str_of(course)) {
            Some(e) => Some(e.gate),
            None => None,
        }
    }

    /// Borrows the key characters of a course id.
    fn str_of<'a>(&self, course: &'a CourseId) -> (r: &'a str)
        ensures
            r@ == course@,
    {
        course.0.as_str()
    }
}


// The run model: a burst of requests processed in arrival order, as the
// single dispatch loop does, described purely over the table mathematics.

/// The table after a whole burst of requests.
pub open spec fn run_state(pre: Map<Seq<char>, EntryView>, reqs: Seq<ReqView>) -> Map<
    Seq<char>,
    EntryView,
>
    decreases reqs.len(),
{
    if reqs.len() == 0 {
        pre
    } else {
        run_state(dispatch_state(pre, reqs[0].course, reqs[0].reply), reqs.drop_first())
    }
}

/// The actions a burst of requests provokes, one per request, in order.
pub open spec fn run_actions(pre: Map<Seq<char>, EntryView>, reqs: Seq<ReqView>) -> Seq<Action>
    decreases reqs.len(),
{
    if reqs.len() == 0 {
        Seq::empty()
    } else {
        seq![dispatch_action(pre, reqs[0].course)] + run_actions(
            dispatch_state(pre, reqs[0].course, reqs[0].reply),
            reqs.drop_first(),
        )
    }
}

/// How many requests of the burst start a worker for course `k`.
pub open spec fn starts_for(
    pre: Map<Seq<char>, EntryView>,
    reqs: Seq<ReqView>,
    k: Seq<char>,
) -> nat
    decreases reqs.len(),
{
    if reqs.len() == 0 {
        0
    } else {
        (if reqs[0].course == k && dispatch_action(pre, reqs[0].course) is StartWorker {
            1nat
        } else {
            0nat
        }) + starts_for(dispatch_state(pre, reqs[0].course, reqs[0].reply), reqs.drop_first(), k)
    }
}

/// The reply channels of the burst's requests for course `k`, in arrival
/// order.
pub open spec fn replies_for(reqs: Seq<ReqView>, k: Seq<char>) -> Seq<u64>
    decreases reqs.len(),
{
    if reqs.len() == 0 {
        Seq::empty()
    } else if reqs[0].course == k {
        seq![reqs[0].reply] + replies_for(reqs.drop_first(), k)
    } else {
        replies_for(reqs.drop_first(), k)
    }
}

/// One action per request.
pub proof fn lemma_run_actions_len(pre: Map<Seq<char>, EntryView>, reqs: Seq<ReqView>)
    ensures
        run_actions(pre, reqs).len() == reqs.len(),
    decreases reqs.len(),
{
    if reqs.len() > 0 {
        lemma_run_actions_len(dispatch_state(pre, reqs[0].course, reqs[0].reply), reqs.drop_first());
    }
}

/// At most one fetch: however many requests a burst holds for course `k`,
/// at most one of them starts a worker — and none does if the course was
/// already in the table when the burst began.
pub proof fn lemma_at_most_one_fetch(
    pre: Map<Seq<char>, EntryView>,
    reqs: Seq<ReqView>,
    k: Seq<char>,
)
    ensures
        starts_for(pre, reqs, k) <= 1,
        pre.contains_key(k) ==> starts_for(pre, reqs, k) == 0,
    decreases reqs.len(),
{
    if reqs.len() > 0 {
        let next = dispatch_state(pre, reqs[0].course, reqs[0].reply);
        lemma_at_most_one_fetch(next, reqs.drop_first(), k);
        if reqs[0].course == k {
            assert(next.contains_key(k));
        }
    }
}

/// While its worker is in flight, a course's entry accumulates exactly the
/// reply channels of the requests made for it, in arrival order; a course
/// no request asks for is never entered into the table.
pub proof fn lemma_waiters_collect(
    pre: Map<Seq<char>, EntryView>,
    reqs: Seq<ReqView>,
    k: Seq<char>,
)
    requires
        pre.contains_key(k) ==> pre[k].state is Pending,
    ensures
        ({
            let post = run_state(pre, reqs);
            &&& pre.contains_key(k) ==> post.contains_key(k) && post[k].state is Pending
                && post[k].waiters == pre[k].waiters + replies_for(reqs, k)
            &&& !pre.contains_key(k) && replies_for(reqs, k).len() > 0 ==> post.contains_key(k)
                && post[k].state is Pending && post[k].waiters == replies_for(reqs, k)
            &&& !pre.contains_key(k) && replies_for(reqs, k).len() == 0 ==> !post.contains_key(k)
        }),
    decreases reqs.len(),
{
    if reqs.len() == 0 {
        if pre.contains_key(k) {
            assert(pre[k].waiters + replies_for(reqs, k) =~= pre[k].waiters);
        }
    } else {
        let r0 = reqs[0];
        let rest = reqs.drop_first();
        let next = dispatch_state(pre, r0.course, r0.reply);
        lemma_waiters_collect(next, rest, k);
        if r0.course == k {
            if pre.contains_key(k) {
                assert(next[k].waiters == pre[k].waiters.push(r0.reply));
                assert(pre[k].waiters + (seq![r0.reply] + replies_for(rest, k)) =~= pre[k].waiters.push(
                    r0.reply,
                ) + replies_for(rest, k));
            } else {
                assert(next[k].waiters == seq![r0.reply]);
                assert(seq![r0.reply] + replies_for(rest, k) =~= replies_for(reqs, k));
            }
        }
    }
}

/// After a course's gate has opened, its entry never changes again, and
/// every later request for it is answered immediately with the recorded
/// outcome.
pub proof fn lemma_opened_is_stable(
    pre: Map<Seq<char>, EntryView>,
    reqs: Seq<ReqView>,
    k: Seq<char>,
    o: Outcome,
)
    requires
        pre.contains_key(k),
        pre[k].state == GateState::Opened(o),
    ensures
        run_state(pre, reqs).contains_key(k),
        run_state(pre, reqs)[k] == pre[k],
        forall|i: int|
            0 <= i < reqs.len() && reqs[i].course == k ==> run_actions(pre, reqs)[i]
                == Action::Reply(o),
    decreases reqs.len(),
{
    lemma_run_actions_len(pre, reqs);
    if reqs.len() > 0 {
        let rest = reqs.drop_first();
        let next = dispatch_state(pre, reqs[0].course, reqs[0].reply);
        lemma_run_actions_len(next, rest);
        lemma_opened_is_stable(next, rest, k, o);
        assert forall|i: int| 0 <= i < reqs.len() && reqs[i].course == k implies run_actions(
            pre,
            reqs,
        )[i] == Action::Reply(o) by {
            if i > 0 {
                assert(run_actions(pre, reqs)[i] == run_actions(next, rest)[i - 1]);
                assert(rest[i - 1] == reqs[i]);
            }
        }
    }
}

/// All waiters are notified, with one shared outcome: starting from a table
/// that has not seen course `k`, a burst of requests leaves exactly the
/// burst's reply channels registered on the course's pending gate, in
/// arrival order; [`Coordinator::handle_worker_done`] then hands out exactly
/// that list, each entry to be resolved with the worker's one outcome; and
/// every request that arrives after the completion is answered immediately
/// with the same outcome.
pub proof fn lemma_all_waiters_notified(
    pre: Map<Seq<char>, EntryView>,
    before: Seq<ReqView>,
    after: Seq<ReqView>,
    k: Seq<char>,
    o: Outcome,
)
    requires
        !pre.contains_key(k),
        replies_for(before, k).len() > 0,
    ensures
        ({
            let mid = run_state(pre, before);
            let opened = open_state(mid, k, o);
            &&& mid.contains_key(k) && mid[k].state is Pending
            &&& mid[k].waiters == replies_for(before, k)
            &&& opened[k].state == GateState::Opened(o)
            &&& run_state(opened, after)[k].state == GateState::Opened(o)
            &&& forall|i: int|
                0 <= i < after.len() && after[i].course == k ==> run_actions(opened, after)[i]
                    == Action::Reply(o)
        }),
{
    lemma_waiters_collect(pre, before, k);
    let mid = run_state(pre, before);
    let opened = open_state(mid, k, o);
    lemma_opened_is_stable(opened, after, k, o);
}

} // verus!

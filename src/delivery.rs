use vstd::prelude::*;

verus! {

/// Attempts after which a transiently failing delivery is abandoned.
pub const MAX_ATTEMPTS: u32 = 8;

/// Delay, in seconds, before the first retry.
pub const BASE_DELAY: u64 = 60;

/// Where a delivery task stands.
#[derive(Clone, Copy, Debug, PartialEq, Eq, Structural)]
pub enum TaskState {
    Pending,
    Delivered,
    Abandoned,
    Cancelled,
}

/// How a delivery attempt failed.
#[derive(Clone, Copy, Debug, PartialEq, Eq, Structural)]
pub enum FailureKind {
    /// Network error, server error or timeout: worth retrying.
    Transient,
    /// The destination refuses the actor or the activity.
    Permanent,
}

/// One obligation to deliver one activity to one inbox.
#[derive(Clone, Copy, Debug, PartialEq, Eq, Structural)]
pub struct DeliveryTask {
    pub activity: u64,
    pub inbox: u64,
    pub attempts: u32,
    pub next_attempt_at: u64,
    pub state: TaskState,
}

/// A recipient of an activity: its own inbox and, where its server has one,
/// the shared inbox that serves many actors at once.
#[derive(Clone, Copy, Debug, PartialEq, Eq, Structural)]
pub struct Recipient {
    pub inbox: u64,
    pub shared_inbox: Option<u64>,
}

/// The tasks created by one call of `enqueue`: positions `first .. first + count`.
#[derive(Clone, Copy, Debug, PartialEq, Eq, Structural)]
pub struct DeliveryHandle {
    pub first: usize,
    pub count: usize,
}

/// The inbox a recipient is reached at: its shared inbox where it has one.
pub open spec fn target_of(r: Recipient) -> u64 {
    match r.shared_inbox {
        Some(s) => s,
        None => r.inbox,
    }
}

/// The delay before retry number `n` (from 1), before jitter: doubling from `BASE_DELAY`.
pub open spec fn base_delay(n: nat) -> nat
    decreases n,
{
    if n <= 1 {
        BASE_DELAY as nat
    } else {
        2 * base_delay((n - 1) as nat)
    }
}

/// The delay before retry number `n`: the base delay plus a jitter below it.
pub open spec fn retry_delay(n: nat, jitter: u64) -> nat {
    base_delay(n) + jitter as nat % base_delay(n)
}

/// A task that is not due before `at`, with nothing tried yet.
pub open spec fn fresh_task(activity: u64, inbox: u64, at: u64) -> DeliveryTask {
    DeliveryTask { activity, inbox, attempts: 0, next_attempt_at: at, state: TaskState::Pending }
}

/// `now + d`, or the largest time where that does not fit.
pub open spec fn time_after(now: u64, d: nat) -> u64 {
    if now + d > u64::MAX {
        u64::MAX
    } else {
        (now + d) as u64
    }
}

/// A task after a failed attempt at `now`. A transient failure is retried
/// after `retry_delay` until the attempts reach `MAX_ATTEMPTS`, where the task
/// is abandoned; a permanent failure abandons it at once. Only pending tasks change.
pub open spec fn after_failure(t: DeliveryTask, kind: FailureKind, now: u64, jitter: u64) -> DeliveryTask {
    if t.state != TaskState::Pending {
        t
    } else {
        match kind {
            FailureKind::Permanent => DeliveryTask { attempts: (t.attempts + 1) as u32, state: TaskState::Abandoned, ..t },
            FailureKind::Transient => if t.attempts + 1 >= MAX_ATTEMPTS {
                DeliveryTask { attempts: (t.attempts + 1) as u32, state: TaskState::Abandoned, ..t }
            } else {
                DeliveryTask {
                    attempts: (t.attempts + 1) as u32,
                    next_attempt_at: time_after(now, retry_delay((t.attempts + 1) as nat, jitter)),
                    ..t
                }
            },
        }
    }
}

/// The attempt counter of a task never passes `MAX_ATTEMPTS`.
pub open spec fn task_wf(t: DeliveryTask) -> bool {
    t.attempts <= MAX_ATTEMPTS && (t.state == TaskState::Pending ==> t.attempts < MAX_ATTEMPTS)
}

/// The inboxes of a run of tasks, in order.
pub open spec fn inboxes_of(s: Seq<DeliveryTask>) -> Seq<u64> {
    s.map_values(|t: DeliveryTask| t.inbox)
}

/// `dests` holds each recipient's target inbox once, and nothing else.
pub open spec fn is_destination_set(dests: Seq<u64>, recipients: Seq<Recipient>) -> bool {
    &&& dests.no_duplicates()
    &&& forall|i: int| 0 <= i < recipients.len() ==> dests.contains(#[trigger] target_of(recipients[i]))
    &&& forall|j: int|
        0 <= j < dests.len() ==> exists|i: int| 0 <= i < recipients.len() && target_of(recipients[i]) == #[trigger] dests[j]
}

pub(crate) proof fn lemma_base_delay_positive(n: nat)
    ensures
        base_delay(n) >= BASE_DELAY,
    decreases n,
{
    if n > 1 {
        lemma_base_delay_positive((n - 1) as nat);
    }
}

pub(crate) proof fn lemma_base_delay_monotone(a: nat, b: nat)
    requires
        a <= b,
    ensures
        base_delay(a) <= base_delay(b),
    decreases b,
{
    if a < b {
        lemma_base_delay_monotone(a, (b - 1) as nat);
        lemma_base_delay_positive((b - 1) as nat);
    }
}

proof fn lemma_base_delay_bound(n: nat)
    requires
        n < MAX_ATTEMPTS,
    ensures
        base_delay(n) <= 3840,
{
    lemma_base_delay_monotone(n, 7);
    reveal_with_fuel(base_delay, 7);
}

/// The delay before retry number `n`, with the given jitter folded below the base delay.
pub fn retry_delay_for(n: u32, jitter: u64) -> (r: u64)
    requires
        1 <= n < MAX_ATTEMPTS,
    ensures
        r == retry_delay(n as nat, jitter),
{
    let mut d: u64 = BASE_DELAY;
    let mut i: u32 = 1;
    while i < n
        invariant
            1 <= i <= n < MAX_ATTEMPTS,
            d == base_delay(i as nat),
        decreases n - i,
    {
        proof {
            lemma_base_delay_bound((i + 1) as nat);
        }
        d = d * 2;
        i = i + 1;
    }
    proof {
        lemma_base_delay_positive(n as nat);
        lemma_base_delay_bound(n as nat);
    }
    d + jitter % d
}

/// Whether `s` holds `x`.
fn contains_inbox(s: &Vec<u64>, x: u64) -> (r: bool)
    ensures
        r == s@.contains(x),
{
    let mut i: usize = 0;
    while i < s.len()
        invariant
            0 <= i <= s@.len(),
            forall|j: int| 0 <= j < i ==> s@[j] != x,
        decreases s@.len() - i,
    {
        if s[i] == x {
            return true;
        }
        i = i + 1;
    }
    false
}

/// The inboxes to deliver to for `recipients`: each recipient's shared inbox
/// where it has one, else its own, each inbox once, in order of first appearance.
pub fn delivery_targets(recipients: &Vec<Recipient>) -> (r: Vec<u64>)
    ensures
        is_destination_set(r@, recipients@),
{
    let mut out: Vec<u64> = Vec::new();
    let mut i: usize = 0;
    while i < recipients.len()
        invariant
            0 <= i <= recipients@.len(),
            is_destination_set(out@, recipients@.subrange(0, i as int)),
        decreases recipients@.len() - i,
    {
        let rc = recipients[i];
        let t = match rc.shared_inbox {
            Some(s) => s,
            None => rc.inbox,
        };
        let ghost prev = out@;
        let ghost pre = recipients@.subrange(0, i as int);
        let ghost next = recipients@.subrange(0, i + 1);
        assert(forall|k: int| 0 <= k < i ==> next[k] == pre[k]);
        if !contains_inbox(&out, t) {
            out.push(t);
            assert(out@[prev.len() as int] == t);
            assert(forall|k: int| 0 <= k < prev.len() ==> out@[k] == prev[k]);
        }
        assert(next[i as int] == rc);
        assert forall|j: int| 0 <= j < out@.len() implies exists|k: int|
            0 <= k < next.len() && target_of(next[k]) == #[trigger] out@[j] by {
            if j < prev.len() {
                assert(out@[j] == prev[j]);
                let k = choose|k: int| 0 <= k < pre.len() && target_of(pre[k]) == prev[j];
                assert(target_of(next[k]) == out@[j]);
            } else {
                assert(target_of(next[i as int]) == out@[j]);
            }
        }
        assert forall|k: int| 0 <= k < next.len() implies out@.contains(#[trigger] target_of(next[k])) by {
            if k < i {
                assert(prev.contains(target_of(pre[k])));
                let j = choose|j: int| 0 <= j < prev.len() && prev[j] == target_of(pre[k]);
                assert(out@[j] == prev[j]);
            } else {
                assert(out@.contains(t));
            }
        }
        i = i + 1;
    }
    assert(recipients@.subrange(0, recipients@.len() as int) == recipients@);
    out
}

/// Delivery tasks of the outbound side, in order of creation.
pub struct DeliveryQueue {
    tasks: Vec<DeliveryTask>,
}

impl View for DeliveryQueue {
    type V = Seq<DeliveryTask>;

    closed spec fn view(&self) -> Seq<DeliveryTask> {
        self.tasks@
    }
}

impl DeliveryQueue {
    /// Every task's attempt counter stays within bounds.
    pub open spec fn wf(&self) -> bool {
        forall|i: int| 0 <= i < self@.len() ==> task_wf(#[trigger] self@[i])
    }

    /// An empty queue.
    pub fn new() -> (r: DeliveryQueue)
        ensures
            r@ == Seq::<DeliveryTask>::empty(),
            r.wf(),
    {
        DeliveryQueue { tasks: Vec::new() }
    }

    /// The number of tasks.
    pub fn len(&self) -> (r: usize)
        ensures
            r == self@.len(),
    {
        self.tasks.len()
    }

    /// The task at position `i`.
    pub fn task(&self, i: usize) -> (r: DeliveryTask)
        requires
            i < self@.len(),
        ensures
            r == self@[i as int],
    {
        self.tasks[i]
    }

    /// Creates one pending task, due at `now`, for each distinct destination
    /// inbox of `recipients` (shared inboxes collapse recipients), and returns
    /// where they stand. Tasks already queued are kept as they were.
    pub fn enqueue(&mut self, activity: u64, recipients: &Vec<Recipient>, now: u64) -> (r: DeliveryHandle)
        requires
            old(self).wf(),
        ensures
            final(self).wf(),
            r.first == old(self)@.len(),
            final(self)@.len() == old(self)@.len() + r.count,
            final(self)@.subrange(0, old(self)@.len() as int) == old(self)@,
            forall|i: int|
                old(self)@.len() <= i < final(self)@.len() ==> #[trigger] final(self)@[i] == fresh_task(
                    activity,
                    final(self)@[i].inbox,
                    now,
                ),
            is_destination_set(
                inboxes_of(final(self)@.subrange(old(self)@.len() as int, final(self)@.len() as int)),
                recipients@,
            ),
    {
        let dests = delivery_targets(recipients);
        let first = self.tasks.len();
        let mut k: usize = 0;
        while k < dests.len()
            invariant
                0 <= k <= dests@.len(),
                first == old(self)@.len(),
                self@.len() == first + k,
                self@.subrange(0, first as int) == old(self)@,
                forall|i: int| 0 <= i < first ==> task_wf(#[trigger] self@[i]),
                forall|j: int| 0 <= j < k ==> #[trigger] self@[first + j] == fresh_task(activity, dests@[j], now),
            decreases dests@.len() - k,
        {
            let ghost prev = self@;
            self.tasks.push(DeliveryTask {
                activity,
                inbox: dests[k],
                attempts: 0,
                next_attempt_at: now,
                state: TaskState::Pending,
            });
            assert(forall|i: int| 0 <= i < prev.len() ==> self@[i] == prev[i]);
            assert(self@.subrange(0, first as int) =~= prev.subrange(0, first as int));
            k = k + 1;
        }
        let ghost added = self@.subrange(first as int, self@.len() as int);
        assert forall|j: int| 0 <= j < dests@.len() implies #[trigger] inboxes_of(added)[j] == dests@[j] by {
            assert(added[j] == self@[first + j]);
        }
        assert(inboxes_of(added) =~= dests@);
        assert forall|i: int| 0 <= i < self@.len() implies task_wf(#[trigger] self@[i]) by {
            if i >= first {
                assert(self@[first + (i - first)] == self@[i]);
            }
        }
        assert forall|i: int| first <= i < self@.len() implies #[trigger] self@[i] == fresh_task(
            activity,
            self@[i].inbox,
            now,
        ) by {
            assert(self@[first + (i - first)] == self@[i]);
        }
        DeliveryHandle { first, count: k }
    }

    /// Records that the task at `i` was delivered; only a pending task changes.
    pub fn record_success(&mut self, i: usize)
        requires
            old(self).wf(),
            i < old(self)@.len(),
        ensures
            final(self).wf(),
            final(self)@ == old(self)@.update(
                i as int,
                if old(self)@[i as int].state == TaskState::Pending {
                    DeliveryTask { state: TaskState::Delivered, ..old(self)@[i as int] }
                } else {
                    old(self)@[i as int]
                },
            ),
    {
        let t = self.tasks[i];
        if t.state == TaskState::Pending {
            self.tasks.set(i, DeliveryTask { state: TaskState::Delivered, ..t });
        }
        assert(final(self)@ =~= old(self)@.update(i as int, self@[i as int])) by {
            if t.state != TaskState::Pending {
                assert(old(self)@.update(i as int, t) =~= old(self)@);
            }
        }
    }

    /// Records a failed attempt of the task at `i`, made at `now`; `jitter` is
    /// a random value that spreads retries. Returns whether the task was
    /// abandoned by this failure, which the caller reports.
    pub fn record_failure(&mut self, i: usize, kind: FailureKind, now: u64, jitter: u64) -> (r: bool)
        requires
            old(self).wf(),
            i < old(self)@.len(),
        ensures
            final(self).wf(),
            final(self)@ == old(self)@.update(i as int, after_failure(old(self)@[i as int], kind, now, jitter)),
            r == (old(self)@[i as int].state == TaskState::Pending && final(self)@[i as int].state
                == TaskState::Abandoned),
    {
        let t = self.tasks[i];
        if t.state != TaskState::Pending {
            assert(old(self)@.update(i as int, t) =~= old(self)@);
            return false;
        }
        let n = t.attempts + 1;
        let nt = match kind {
            FailureKind::Permanent => DeliveryTask { attempts: n, state: TaskState::Abandoned, ..t },
            FailureKind::Transient => {
                if n >= MAX_ATTEMPTS {
                    DeliveryTask { attempts: n, state: TaskState::Abandoned, ..t }
                } else {
                    let d = retry_delay_for(n, jitter);
                    DeliveryTask { attempts: n, next_attempt_at: now.saturating_add(d), ..t }
                }
            },
        };
        self.tasks.set(i, nt);
        assert forall|j: int| 0 <= j < self@.len() implies task_wf(#[trigger] self@[j]) by {
            if j != i {
                assert(self@[j] == old(self)@[j]);
            }
        }
        nt.state == TaskState::Abandoned
    }

    /// Cancels the task at `i` if it is still pending; it is then never attempted again.
    pub fn cancel(&mut self, i: usize)
        requires
            old(self).wf(),
            i < old(self)@.len(),
        ensures
            final(self).wf(),
            final(self)@ == old(self)@.update(
                i as int,
                if old(self)@[i as int].state == TaskState::Pending {
                    DeliveryTask { state: TaskState::Cancelled, ..old(self)@[i as int] }
                } else {
                    old(self)@[i as int]
                },
            ),
    {
        let t = self.tasks[i];
        if t.state == TaskState::Pending {
            self.tasks.set(i, DeliveryTask { state: TaskState::Cancelled, ..t });
        }
        assert(final(self)@ =~= old(self)@.update(i as int, self@[i as int])) by {
            if t.state != TaskState::Pending {
                assert(old(self)@.update(i as int, t) =~= old(self)@);
            }
        }
    }

    /// The pending task due at `now` with the earliest scheduled time (the
    /// first such in queue order on ties), or `None` when no task is due.
    pub fn next_due(&self, now: u64) -> (r: Option<usize>)
        ensures
            match r {
                Some(i) => {
                    &&& i < self@.len()
                    &&& is_due(self@[i as int], now)
                    &&& forall|j: int| 0 <= j < self@.len() && is_due(#[trigger] self@[j], now)
                        ==> self@[i as int].next_attempt_at <= self@[j].next_attempt_at
                    &&& forall|j: int| 0 <= j < i && is_due(#[trigger] self@[j], now)
                        ==> self@[i as int].next_attempt_at < self@[j].next_attempt_at
                },
                None => forall|j: int| 0 <= j < self@.len() ==> !is_due(#[trigger] self@[j], now),
            },
    {
        let mut best: Option<usize> = None;
        let mut k: usize = 0;
        while k < self.tasks.len()
            invariant
                0 <= k <= self@.len(),
                match best {
                    Some(i) => {
                        &&& i < k
                        &&& is_due(self@[i as int], now)
                        &&& forall|j: int| 0 <= j < k && is_due(#[trigger] self@[j], now)
                            ==> self@[i as int].next_attempt_at <= self@[j].next_attempt_at
                        &&& forall|j: int| 0 <= j < i && is_due(#[trigger] self@[j], now)
                            ==> self@[i as int].next_attempt_at < self@[j].next_attempt_at
                    },
                    None => forall|j: int| 0 <= j < k ==> !is_due(#[trigger] self@[j], now),
                },
            decreases self@.len() - k,
        {
            let t = self.tasks[k];
            if t.state == TaskState::Pending && t.next_attempt_at <= now {
                match best {
                    None => {
                        best = Some(k);
                    },
                    Some(b) => {
                        if t.next_attempt_at < self.tasks[b].next_attempt_at {
                            best = Some(k);
                        }
                    },
                }
            }
            k = k + 1;
        }
        best
    }
}

/// A task is due at `now` when it is pending and its scheduled time has come.
pub open spec fn is_due(t: DeliveryTask, now: u64) -> bool {
    t.state == TaskState::Pending && t.next_attempt_at <= now
}

} // verus!

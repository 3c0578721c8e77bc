//! The bounded-concurrency upload batch: admission, progress and the first
//! failure.
//!
//! The caller runs the uploads; it asks the batch before it starts one and
//! reports each outcome. The batch keeps the count of running uploads under
//! the cap, counts progress once per item and keeps the first failure only.
use vstd::prelude::*;

verus! {

/// Where one item of a batch stands.
#[derive(Clone, Copy, Debug, PartialEq, Eq, Structural)]
pub enum ItemState {
    Waiting,
    Running,
    Succeeded,
    Failed,
}

/// The failure that a batch reports: the item, its path and the cause.
#[derive(Debug)]
pub struct UploadFailure {
    pub index: usize,
    pub path: String,
    pub cause: String,
}

/// How many items of `s` stand in state `st`.
pub open spec fn count_state(s: Seq<ItemState>, st: ItemState) -> nat
    decreases s.len(),
{
    if s.len() == 0 {
        0
    } else {
        count_state(s.drop_last(), st) + if s.last() == st {
            1nat
        } else {
            0nat
        }
    }
}

proof fn lemma_count_update(s: Seq<ItemState>, i: int, v: ItemState, st: ItemState)
    requires
        0 <= i < s.len(),
    ensures
        count_state(s.update(i, v), st) as int == count_state(s, st) as int - (if s[i] == st {
            1int
        } else {
            0int
        }) + (if v == st {
            1int
        } else {
            0int
        }),
    decreases s.len(),
{
    if i == s.len() - 1 {
        assert(s.update(i, v).drop_last() =~= s.drop_last());
    } else {
        lemma_count_update(s.drop_last(), i, v, st);
        assert(s.update(i, v).drop_last() =~= s.drop_last().update(i, v));
    }
}

proof fn lemma_count_all(s: Seq<ItemState>, st: ItemState)
    requires
        forall|i: int| 0 <= i < s.len() ==> s[i] == st,
    ensures
        count_state(s, st) == s.len(),
    decreases s.len(),
{
    if s.len() > 0 {
        lemma_count_all(s.drop_last(), st);
    }
}

proof fn lemma_count_none(s: Seq<ItemState>, st: ItemState)
    requires
        forall|i: int| 0 <= i < s.len() ==> s[i] != st,
    ensures
        count_state(s, st) == 0,
    decreases s.len(),
{
    if s.len() > 0 {
        lemma_count_none(s.drop_last(), st);
    }
}

/// What a batch holds, as values. `causes[i]` is the cause reported for a
/// failed item `i`.
pub struct BatchView {
    pub paths: Seq<String>,
    pub max_concurrency: nat,
    pub states: Seq<ItemState>,
    pub causes: Seq<Seq<char>>,
    pub next: nat,
    pub running: nat,
    pub progress: nat,
    pub first_error: Option<UploadFailure>,
}

/// The batch's invariant: items start in order; the running count and the
/// progress count are those of the item states; no more than the cap run;
/// the kept failure is one that was reported, and one is kept as soon as
/// any item failed.
pub open spec fn batch_wf(v: BatchView) -> bool {
    &&& v.states.len() == v.paths.len()
    &&& v.causes.len() == v.paths.len()
    &&& v.max_concurrency >= 1
    &&& v.next <= v.states.len()
    &&& forall|i: int| 0 <= i < v.states.len() ==> (i < v.next <==> #[trigger] v.states[i] != ItemState::Waiting)
    &&& v.running == count_state(v.states, ItemState::Running)
    &&& v.progress == count_state(v.states, ItemState::Succeeded) + count_state(v.states, ItemState::Failed)
    &&& v.next == v.running + v.progress
    &&& v.running <= v.max_concurrency
    &&& match v.first_error {
        Some(f) => {
            &&& f.index < v.states.len()
            &&& v.states[f.index as int] == ItemState::Failed
            &&& f.cause@ == v.causes[f.index as int]
            &&& f.path@ == v.paths[f.index as int]@
        },
        None => forall|i: int| 0 <= i < v.states.len() ==> #[trigger] v.states[i] != ItemState::Failed,
    }
}

/// A batch of uploads under a concurrency cap.
pub struct UploadBatch {
    paths: Vec<String>,
    max_concurrency: usize,
    states: Vec<ItemState>,
    causes: Ghost<Seq<Seq<char>>>,
    next: usize,
    running: usize,
    progress: usize,
    first_error: Option<UploadFailure>,
}

impl View for UploadBatch {
    type V = BatchView;

    closed spec fn view(&self) -> BatchView {
        BatchView {
            paths: self.paths@,
            max_concurrency: self.max_concurrency as nat,
            states: self.states@,
            causes: self.causes@,
            next: self.next as nat,
            running: self.running as nat,
            progress: self.progress as nat,
            first_error: self.first_error,
        }
    }
}

impl UploadBatch {
    /// The batch's invariant.
    pub open spec fn wf(&self) -> bool {
        batch_wf(self@)
    }

    /// A batch of the given paths, none started, with at most
    /// `max_concurrency` uploads running at once.
    pub fn new(paths: Vec<String>, max_concurrency: usize) -> (r: UploadBatch)
        requires
            max_concurrency >= 1,
        ensures
            r.wf(),
            r@.paths == paths@,
            r@.max_concurrency == max_concurrency,
            r@.states == Seq::new(paths@.len(), |i: int| ItemState::Waiting),
            r@.next == 0,
            r@.running == 0,
            r@.progress == 0,
            r@.first_error.is_none(),
    {
        let n = paths.len();
        let mut states: Vec<ItemState> = Vec::new();
        let mut i: usize = 0;
        while i < n
            invariant
                i <= n,
                states@ == Seq::new(i as nat, |j: int| ItemState::Waiting),
            decreases n - i,
        {
            states.push(ItemState::Waiting);
            i = i + 1;
            assert(states@ =~= Seq::new(i as nat, |j: int| ItemState::Waiting));
        }
        let ghost causes = Seq::new(n as nat, |j: int| Seq::<char>::empty());
        proof {
            lemma_count_all(states@, ItemState::Waiting);
            lemma_count_none(states@, ItemState::Running);
            lemma_count_none(states@, ItemState::Succeeded);
            lemma_count_none(states@, ItemState::Failed);
        }
        UploadBatch {
            paths,
            max_concurrency,
            states,
            causes: Ghost(causes),
            next: 0,
            running: 0,
            progress: 0,
            first_error: None,
        }
    }

    /// The number of items.
    pub fn len(&self) -> (r: usize)
        requires
            self.wf(),
        ensures
            r == self@.states.len(),
    {
        self.states.len()
    }

    /// The number of uploads running now.
    pub fn running(&self) -> (r: usize)
        ensures
            r == self@.running,
    {
        self.running
    }

    /// The number of items settled, whether they succeeded or failed.
    pub fn progress(&self) -> (r: usize)
        ensures
            r == self@.progress,
    {
        self.progress
    }

    /// Whether another upload may start now: an item waits and the cap is
    /// not reached.
    pub fn can_start(&self) -> (r: bool)
        requires
            self.wf(),
        ensures
            r == (self@.next < self@.states.len() && self@.running < self@.max_concurrency),
    {
        self.next < self.states.len() && self.running < self.max_concurrency
    }

    /// Whether every item has settled.
    pub fn is_settled(&self) -> (r: bool)
        requires
            self.wf(),
        ensures
            r == (self@.next == self@.states.len() && self@.running == 0),
    {
        self.next == self.states.len() && self.running == 0
    }

    /// Starts the next waiting item and returns its index.
    pub fn start_next(&mut self) -> (r: usize)
        requires
            old(self).wf(),
            old(self)@.next < old(self)@.states.len(),
            old(self)@.running < old(self)@.max_concurrency,
        ensures
            final(self).wf(),
            r == old(self)@.next,
            final(self)@ == (BatchView {
                states: old(self)@.states.update(r as int, ItemState::Running),
                next: old(self)@.next + 1,
                running: old(self)@.running + 1,
                ..old(self)@
            }),
    {
        let i = self.next;
        let n = self.states.len();
        proof {
            assert(i < n);
            let s = self.states@;
            lemma_count_update(s, i as int, ItemState::Running, ItemState::Running);
            lemma_count_update(s, i as int, ItemState::Running, ItemState::Succeeded);
            lemma_count_update(s, i as int, ItemState::Running, ItemState::Failed);
        }
        self.states.set(i, ItemState::Running);
        self.next = i + 1;
        self.running = self.running + 1;
        i
    }

    /// Records the outcome of a running item. The item counts once toward
    /// progress, whatever the outcome. A failure is kept, with the item's
    /// path, only if no failure was kept before; the result says whether it
    /// was kept.
    pub fn finish(&mut self, index: usize, outcome: Result<(), String>) -> (kept: bool)
        requires
            old(self).wf(),
            index < old(self)@.states.len(),
            old(self)@.states[index as int] == ItemState::Running,
        ensures
            final(self).wf(),
            final(self)@.paths == old(self)@.paths,
            final(self)@.max_concurrency == old(self)@.max_concurrency,
            final(self)@.next == old(self)@.next,
            final(self)@.running == old(self)@.running - 1,
            final(self)@.progress == old(self)@.progress + 1,
            match outcome {
                Ok(_) => {
                    &&& !kept
                    &&& final(self)@.states == old(self)@.states.update(index as int, ItemState::Succeeded)
                    &&& final(self)@.causes == old(self)@.causes
                    &&& final(self)@.first_error == old(self)@.first_error
                },
                Err(c) => {
                    &&& kept == old(self)@.first_error.is_none()
                    &&& final(self)@.states == old(self)@.states.update(index as int, ItemState::Failed)
                    &&& final(self)@.causes == old(self)@.causes.update(index as int, c@)
                    &&& kept ==> (final(self)@.first_error matches Some(f) && f.index == index
                        && f.path@ == old(self)@.paths[index as int]@ && f.cause@ == c@)
                    &&& !kept ==> final(self)@.first_error == old(self)@.first_error
                },
            },
    {
        let ghost s = self.states@;
        proof {
            lemma_count_update(s, index as int, ItemState::Succeeded, ItemState::Running);
            lemma_count_update(s, index as int, ItemState::Succeeded, ItemState::Succeeded);
            lemma_count_update(s, index as int, ItemState::Succeeded, ItemState::Failed);
            lemma_count_update(s, index as int, ItemState::Failed, ItemState::Running);
            lemma_count_update(s, index as int, ItemState::Failed, ItemState::Succeeded);
            lemma_count_update(s, index as int, ItemState::Failed, ItemState::Failed);
        }
        self.running = self.running - 1;
        self.progress = self.progress + 1;
        match outcome {
            Ok(()) => {
                self.states.set(index, ItemState::Succeeded);
                false
            },
            Err(cause) => {
                self.states.set(index, ItemState::Failed);
                self.causes = Ghost(self.causes@.update(index as int, cause@));
                if self.first_error.is_none() {
                    let path = self.paths[index].clone();
                    self.first_error = Some(UploadFailure { index, path, cause });
                    true
                } else {
                    false
                }
            },
        }
    }

    /// The kept failure, if any item failed.
    pub fn first_error(&self) -> (r: Option<&UploadFailure>)
        ensures
            r.is_none() == self@.first_error.is_none(),
            r matches Some(f) ==> self@.first_error == Some(*f),
    {
        self.first_error.as_ref()
    }
}

/// Of every batch, at every step: no more uploads run than the cap allows;
/// once every item has settled, progress counts each item exactly once,
/// whatever the outcomes; a failure that the batch reports is one that was
/// recorded for that item, with its path; and as soon as any item has
/// failed, exactly one failure is reported.
pub proof fn lemma_batch_guarantees(b: UploadBatch)
    requires
        b.wf(),
    ensures
        b@.running <= b@.max_concurrency,
        b@.progress <= b@.states.len(),
        b@.next == b@.states.len() && b@.running == 0 ==> b@.progress == b@.states.len(),
        b@.first_error matches Some(f) ==> (f.index < b@.states.len() && b@.states[f.index as int]
            == ItemState::Failed && f.cause@ == b@.causes[f.index as int] && f.path@ == b@.paths[f.index as int]@),
        (exists|i: int| 0 <= i < b@.states.len() && b@.states[i] == ItemState::Failed) ==> b@.first_error.is_some(),
{
}

} // verus!

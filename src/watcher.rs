use vstd::prelude::*;
use crate::filter::{views, PathFilter};
use crate::paths::same_text;

verus! {

/// The kind of a debounced file-system event.
#[derive(Clone, Copy, Debug, PartialEq, Eq, Structural)]
pub enum ChangeKind {
    Any,
    Access,
    Create,
    Modify,
    Remove,
    Other,
}

impl ChangeKind {
    /// Whether events of this kind can change what a commit records.
    pub open spec fn spec_is_relevant(self) -> bool {
        !(self is Access || self is Other)
    }

    pub fn is_relevant(&self) -> (r: bool)
        ensures
            r == self.spec_is_relevant(),
    {
        match self {
            ChangeKind::Access => false,
            ChangeKind::Other => false,
            _ => true,
        }
    }
}

/// A path named by an event, and whether it named a directory when the
/// event was taken in.
pub struct ChangedPath {
    pub path: String,
    pub is_dir: bool,
}

/// One debounced file-system event.
pub struct RawChangeEvent {
    pub kind: ChangeKind,
    pub paths: Vec<ChangedPath>,
}

/// The (path, is_dir) pairs named by `paths`.
pub open spec fn path_pairs(paths: Seq<ChangedPath>) -> Seq<(Seq<char>, bool)> {
    paths.map_values(|p: ChangedPath| (p.path@, p.is_dir))
}

/// The paths named by the relevant events among `events`, in order.
pub open spec fn candidates(events: Seq<RawChangeEvent>) -> Seq<(Seq<char>, bool)>
    decreases events.len(),
{
    if events.len() == 0 {
        Seq::empty()
    } else if events.last().kind.spec_is_relevant() {
        candidates(events.drop_last()) + path_pairs(events.last().paths@)
    } else {
        candidates(events.drop_last())
    }
}

/// The batch built from `cands`: each path the filter does not ignore, once,
/// in order of first appearance.
pub open spec fn batch_of(filter: PathFilter, cands: Seq<(Seq<char>, bool)>) -> Seq<Seq<char>>
    decreases cands.len(),
{
    if cands.len() == 0 {
        Seq::empty()
    } else {
        let prev = batch_of(filter, cands.drop_last());
        let (p, d) = cands.last();
        if filter.ignores(p, d) || prev.contains(p) {
            prev
        } else {
            prev.push(p)
        }
    }
}

/// The batch of changed paths that `events` yield under `filter`.
pub open spec fn batch_for(filter: PathFilter, events: Seq<RawChangeEvent>) -> Seq<Seq<char>> {
    batch_of(filter, candidates(events))
}

fn contains_path(v: &Vec<String>, p: &str) -> (r: bool)
    ensures
        r == views(v@).contains(p@),
{
    let mut i: usize = 0;
    while i < v.len()
        invariant
            i <= v@.len(),
            forall|k: int| 0 <= k < i ==> v@[k]@ != p@,
        decreases v.len() - i,
    {
        if same_text(v[i].as_str(), p) {
            assert(views(v@)[i as int] == p@);
            return true;
        }
        i = i + 1;
    }
    assert forall|k: int| 0 <= k < views(v@).len() implies views(v@)[k] != p@ by {
        assert(views(v@)[k] == v@[k]@);
    }
    false
}

/// Builds the batch of changed paths from one delivery of debounced events:
/// events of access and other kinds are dropped, the paths of the rest taken
/// in order, ignored paths removed and repeated ones kept once.
pub fn build_batch(events: &Vec<RawChangeEvent>, filter: &PathFilter) -> (r: Vec<String>)
    requires
        filter.wf(),
    ensures
        views(r@) == batch_for(*filter, events@),
{
    let mut batch: Vec<String> = Vec::new();
    let mut i: usize = 0;
    while i < events.len()
        invariant
            filter.wf(),
            i <= events@.len(),
            views(batch@) == batch_of(*filter, candidates(events@.subrange(0, i as int))),
        decreases events.len() - i,
    {
        let ghost before = candidates(events@.subrange(0, i as int));
        assert(events@.subrange(0, i + 1).drop_last() =~= events@.subrange(0, i as int));
        let event = &events[i];
        if event.kind.is_relevant() {
            let mut j: usize = 0;
            while j < event.paths.len()
                invariant
                    filter.wf(),
                    j <= event.paths@.len(),
                    views(batch@) == batch_of(
                        *filter,
                        before + path_pairs(event.paths@).subrange(0, j as int),
                    ),
                decreases event.paths.len() - j,
            {
                let cp = &event.paths[j];
                let ghost cands = before + path_pairs(event.paths@).subrange(0, j as int);
                assert((before + path_pairs(event.paths@).subrange(0, j + 1)).drop_last() =~= cands);
                assert((before + path_pairs(event.paths@).subrange(0, j + 1)).last() == (
                cp.path@, cp.is_dir));
                if !filter.is_path_ignored(cp.path.as_str(), cp.is_dir) && !contains_path(
                    &batch,
                    cp.path.as_str(),
                ) {
                    let ghost pre = batch@;
                    batch.push(String::from_str(cp.path.as_str()));
                    assert(views(batch@) =~= views(pre).push(cp.path@));
                }
                j = j + 1;
            }
            assert(path_pairs(event.paths@).subrange(0, event.paths@.len() as int) =~= path_pairs(
                event.paths@,
            ));
        } else {
        }
        i = i + 1;
    }
    assert(events@.subrange(0, events@.len() as int) =~= events@);
    batch
}


proof fn lemma_batch_of_single(filter: PathFilter, cands: Seq<(Seq<char>, bool)>, p: Seq<char>, d: bool)
    requires
        cands.len() > 0,
        forall|i: int| 0 <= i < cands.len() ==> cands[i] == (p, d),
        !filter.ignores(p, d),
    ensures
        batch_of(filter, cands) == seq![p],
    decreases cands.len(),
{
    assert(cands.last() == (p, d));
    if cands.len() == 1 {
        assert(cands.drop_last() =~= Seq::<(Seq<char>, bool)>::empty());
        assert(batch_of(filter, cands.drop_last()) == Seq::<Seq<char>>::empty());
        assert(!Seq::<Seq<char>>::empty().contains(p));
        assert(Seq::<Seq<char>>::empty().push(p) =~= seq![p]);
    } else {
        assert forall|i: int| 0 <= i < cands.drop_last().len() implies cands.drop_last()[i] == (
        p, d) by {
            assert(cands.drop_last()[i] == cands[i]);
        }
        lemma_batch_of_single(filter, cands.drop_last(), p, d);
        assert(seq![p].contains(p)) by {
            assert(seq![p][0] == p);
        }
    }
}

proof fn lemma_batch_of_keeps(filter: PathFilter, cands: Seq<(Seq<char>, bool)>, i: int)
    requires
        0 <= i < cands.len(),
        !filter.ignores(cands[i].0, cands[i].1),
    ensures
        batch_of(filter, cands).contains(cands[i].0),
    decreases cands.len(),
{
    let prev = batch_of(filter, cands.drop_last());
    if i == cands.len() - 1 {
        if !prev.contains(cands[i].0) {
            assert(prev.push(cands[i].0)[prev.len() as int] == cands[i].0);
        }
    } else {
        lemma_batch_of_keeps(filter, cands.drop_last(), i);
        let j = choose|j: int| 0 <= j < prev.len() && prev[j] == cands[i].0;
        if !(filter.ignores(cands.last().0, cands.last().1) || prev.contains(cands.last().0)) {
            assert(prev.push(cands.last().0)[j] == cands[i].0);
        }
    }
}

/// Whether `event` is relevant and names only the path `p`, with `is_dir` equal to `d`.
pub open spec fn names_only(event: RawChangeEvent, p: Seq<char>, d: bool) -> bool {
    &&& event.kind.spec_is_relevant()
    &&& forall|j: int|
        0 <= j < event.paths@.len() ==> (#[trigger] event.paths@[j]).path@ == p
            && event.paths@[j].is_dir == d
}

proof fn lemma_candidates_all(events: Seq<RawChangeEvent>, p: Seq<char>, d: bool)
    requires
        forall|i: int| 0 <= i < events.len() ==> names_only(#[trigger] events[i], p, d),
    ensures
        forall|k: int|
            0 <= k < candidates(events).len() ==> #[trigger] candidates(events)[k] == (p, d),
        candidates(events).len() >= events.len() - count_empty(events),
    decreases events.len(),
{
    if events.len() > 0 {
        let init = events.drop_last();
        assert forall|i: int| 0 <= i < init.len() implies names_only(#[trigger] init[i], p, d) by {
            assert(init[i] == events[i]);
        }
        lemma_candidates_all(init, p, d);
        let last = events[events.len() - 1];
        assert(names_only(last, p, d));
        let pp = path_pairs(last.paths@);
        assert forall|j: int| 0 <= j < pp.len() implies pp[j] == (p, d) by {
            assert(last.paths@[j].path@ == p);
        }
    }
}

/// The number of events among `events` that name no path.
pub open spec fn count_empty(events: Seq<RawChangeEvent>) -> int
    decreases events.len(),
{
    if events.len() == 0 {
        0
    } else {
        count_empty(events.drop_last()) + if events.last().paths@.len() == 0 {
            1int
        } else {
            0
        }
    }
}

/// Coalescing: a delivery whose events all name one path, which the filter
/// does not ignore, at least one of them naming it, yields a batch of that
/// path alone, so the writes it gathers lead to one dispatch.
pub proof fn lemma_writes_coalesce(
    filter: PathFilter,
    events: Seq<RawChangeEvent>,
    p: Seq<char>,
    d: bool,
)
    requires
        forall|i: int| 0 <= i < events.len() ==> names_only(#[trigger] events[i], p, d),
        exists|i: int| 0 <= i < events.len() && #[trigger] events[i].paths@.len() > 0,
        !filter.ignores(p, d),
    ensures
        batch_for(filter, events) == seq![p],
{
    lemma_candidates_all(events, p, d);
    lemma_count_empty(events);
    lemma_batch_of_single(filter, candidates(events), p, d);
}

proof fn lemma_count_empty(events: Seq<RawChangeEvent>)
    requires
        exists|i: int| 0 <= i < events.len() && #[trigger] events[i].paths@.len() > 0,
    ensures
        count_empty(events) < events.len(),
    decreases events.len(),
{
    lemma_count_empty_bound(events);
    let i = choose|i: int| 0 <= i < events.len() && #[trigger] events[i].paths@.len() > 0;
    if i == events.len() - 1 {
        lemma_count_empty_bound(events.drop_last());
    } else {
        assert(events.drop_last()[i] == events[i]);
        lemma_count_empty(events.drop_last());
    }
}

proof fn lemma_count_empty_bound(events: Seq<RawChangeEvent>)
    ensures
        0 <= count_empty(events) <= events.len(),
    decreases events.len(),
{
    if events.len() > 0 {
        lemma_count_empty_bound(events.drop_last());
    }
}

/// Separate deliveries: every path that a delivery's relevant events name,
/// and that the filter does not ignore, is in its batch, which is then not
/// empty and is dispatched; so writes that arrive in separate deliveries
/// lead to separate dispatches.
pub proof fn lemma_delivery_dispatches(filter: PathFilter, events: Seq<RawChangeEvent>, i: int)
    requires
        0 <= i < candidates(events).len(),
        !filter.ignores(candidates(events)[i].0, candidates(events)[i].1),
    ensures
        batch_for(filter, events).contains(candidates(events)[i].0),
        batch_for(filter, events).len() > 0,
{
    lemma_batch_of_keeps(filter, candidates(events), i);
}

/// What one bounded poll of the watch loop saw.
pub enum Poll {
    /// The shutdown signal was raised.
    Shutdown,
    /// Nothing arrived within the poll window.
    Timeout,
    /// The event channel was closed by its producer.
    Closed,
    /// A delivery of debounced events.
    Events(Vec<RawChangeEvent>),
    /// A delivery of per-path watch errors, as text.
    Errors(Vec<String>),
}

/// What the watch loop does next.
pub enum LoopAction {
    /// Leave the loop with success.
    Stop,
    /// Poll again.
    KeepPolling,
    /// Report these watch errors, then poll again.
    Report(Vec<String>),
    /// Run the pipeline, under the retry policy, for this non-empty batch.
    Dispatch(Vec<String>),
}

/// What follows one attempt of the pipeline.
#[derive(Clone, Copy, Debug, PartialEq, Eq, Structural)]
pub enum AttemptVerdict {
    /// The attempt succeeded: go back to polling.
    Done,
    /// The attempt failed and the policy allows another: wait the fixed
    /// delay, then run the pipeline again.
    RetryAfterDelay,
    /// The attempt failed and no retry is left: the loop ends with its error.
    GiveUp,
}

/// The verdict on an attempt, after `retries_done` retries, under a policy
/// of `max_retries` retries (`-1` for no limit).
pub open spec fn verdict(max_retries: int, retries_done: int, succeeded: bool) -> AttemptVerdict {
    if succeeded {
        AttemptVerdict::Done
    } else if retries_done == max_retries {
        AttemptVerdict::GiveUp
    } else {
        AttemptVerdict::RetryAfterDelay
    }
}

/// The number of attempts made, and whether the last succeeded, when the
/// pipeline fails on its first `k` attempts and succeeds on the next,
/// counting from the attempt after `done` retries.
pub open spec fn settle(max_retries: int, k: nat, done: nat) -> (nat, bool)
    decreases k - done,
{
    if done >= k {
        ((done + 1) as nat, true)
    } else if verdict(max_retries, done as int, false) == AttemptVerdict::GiveUp {
        ((done + 1) as nat, false)
    } else {
        settle(max_retries, k, (done + 1) as nat)
    }
}

proof fn lemma_settle_success(max_retries: int, k: nat, done: nat)
    requires
        done <= k,
        max_retries == -1 || max_retries >= k,
    ensures
        settle(max_retries, k, done) == ((k + 1) as nat, true),
    decreases k - done,
{
    if done < k {
        lemma_settle_success(max_retries, k, (done + 1) as nat);
    }
}

proof fn lemma_settle_failure(max_retries: int, k: nat, done: nat)
    requires
        done <= max_retries < k,
    ensures
        settle(max_retries, k, done) == ((max_retries + 1) as nat, false),
    decreases k - done,
{
    if done < max_retries {
        lemma_settle_failure(max_retries, k, (done + 1) as nat);
    }
}

/// Retries: where the pipeline fails exactly `k` times and then succeeds,
/// and each attempt is judged by `FileWatcher::after_attempt` of `watcher`
/// (whose verdicts `verdict` gives), a policy that allows at least `k`
/// retries, or any number, makes `k + 1` attempts and ends in success; a
/// policy of fewer retries makes `max_retries + 1` attempts and ends with
/// the last failure.
pub proof fn lemma_retry_law(watcher: FileWatcher, k: nat)
    requires
        watcher.spec_retry_count() >= -1,
    ensures
        ({
            let max_retries = watcher.spec_retry_count();
            &&& (max_retries == -1 || max_retries >= k) ==> settle(max_retries as int, k, 0) == (
            (k + 1) as nat, true)
            &&& (0 <= max_retries < k) ==> settle(max_retries as int, k, 0) == (
            (max_retries + 1) as nat, false)
        }),
{
    let max_retries = watcher.spec_retry_count();
    if max_retries == -1 || max_retries >= k {
        lemma_settle_success(max_retries as int, k, 0);
    }
    if 0 <= max_retries < k {
        lemma_settle_failure(max_retries as int, k, 0);
    }
}

/// The watch loop's settings: the quiet period of the debounced event
/// source, and the number of retries of a failing pipeline (`-1` for no
/// limit).
pub struct FileWatcher {
    debounce_seconds: u64,
    retry_count: i32,
}

impl FileWatcher {
    pub closed spec fn spec_debounce_seconds(&self) -> u64 {
        self.debounce_seconds
    }

    pub closed spec fn spec_retry_count(&self) -> i32 {
        self.retry_count
    }

    pub fn new(debounce_seconds: u64, retry_count: i32) -> (r: FileWatcher)
        ensures
            r.spec_debounce_seconds() == debounce_seconds,
            r.spec_retry_count() == retry_count,
    {
        FileWatcher { debounce_seconds, retry_count }
    }

    /// The quiet period, in seconds, of the debounced event source.
    pub fn debounce_seconds(&self) -> (r: u64)
        ensures
            r == self.spec_debounce_seconds(),
    {
        self.debounce_seconds
    }

    /// The number of retries of a failing pipeline; `-1` for no limit.
    pub fn retry_count(&self) -> (r: i32)
        ensures
            r == self.spec_retry_count(),
    {
        self.retry_count
    }

    /// Decides the loop's next step from what one poll saw. Shutdown and a
    /// closed channel end the loop with success; watch errors are reported
    /// and the loop goes on; a delivery of events is turned into a batch,
    /// which is dispatched only where it is not empty.
    pub fn on_poll(&self, poll: Poll, filter: &PathFilter) -> (r: LoopAction)
        requires
            filter.wf(),
        ensures
            r matches LoopAction::Dispatch(b) ==> b@.len() > 0,
            match poll {
                Poll::Shutdown => r is Stop,
                Poll::Closed => r is Stop,
                Poll::Timeout => r is KeepPolling,
                Poll::Errors(e) => r matches LoopAction::Report(x) && x@ == e@,
                Poll::Events(events) => {
                    let b = batch_for(*filter, events@);
                    if b.len() == 0 {
                        r is KeepPolling
                    } else {
                        r matches LoopAction::Dispatch(x) && views(x@) == b
                    }
                },
            },
    {
        match poll {
            Poll::Shutdown => LoopAction::Stop,
            Poll::Closed => LoopAction::Stop,
            Poll::Timeout => LoopAction::KeepPolling,
            Poll::Errors(e) => LoopAction::Report(e),
            Poll::Events(events) => {
                let batch = build_batch(&events, filter);
                if batch.len() == 0 {
                    LoopAction::KeepPolling
                } else {
                    LoopAction::Dispatch(batch)
                }
            },
        }
    }

    /// Judges one attempt of the pipeline after `*retries_done` retries, and
    /// counts the retry where one follows.
    pub fn after_attempt(&self, retries_done: &mut u64, succeeded: bool) -> (r: AttemptVerdict)
        ensures
            r == verdict(self.spec_retry_count() as int, *old(retries_done) as int, succeeded),
            *final(retries_done) == if r == AttemptVerdict::RetryAfterDelay && *old(retries_done)
                < u64::MAX {
                (*old(retries_done) + 1) as u64
            } else {
                *old(retries_done)
            },
    {
        if succeeded {
            return AttemptVerdict::Done;
        }
        if self.retry_count >= 0 && *retries_done == self.retry_count as u64 {
            return AttemptVerdict::GiveUp;
        }
        if *retries_done < u64::MAX {
            *retries_done = *retries_done + 1;
        }
        AttemptVerdict::RetryAfterDelay
    }
}

} // verus!

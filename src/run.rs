use vstd::prelude::*;

verus! {

/// Progress through a fixed sequence of `total` actions performed strictly
/// one after another: `next` is the position of the next action, and
/// `failed` records that an action failed, after which nothing more runs.
#[derive(Clone, Copy, Debug, PartialEq, Eq)]
pub struct Run {
    pub total: usize,
    pub next: usize,
    pub failed: bool,
}

/// The run before any action.
pub open spec fn started(total: usize) -> Run {
    Run { total, next: 0, failed: false }
}

/// The action the run asks for next, if any.
pub open spec fn offered(r: Run) -> Option<int> {
    if !r.failed && r.next < r.total {
        Some(r.next as int)
    } else {
        None
    }
}

/// The run once the offered action has reported `ok`.
pub open spec fn advanced(r: Run, ok: bool) -> Run {
    if offered(r) is Some {
        if ok {
            Run { next: (r.next + 1) as usize, ..r }
        } else {
            Run { failed: true, ..r }
        }
    } else {
        r
    }
}

/// The run after the offered actions reported `outcomes`, in order.
pub open spec fn replayed(total: usize, outcomes: Seq<bool>) -> Run
    decreases outcomes.len(),
{
    if outcomes.len() == 0 {
        started(total)
    } else {
        advanced(replayed(total, outcomes.drop_last()), outcomes.last())
    }
}

impl Run {
    /// A run over `total` actions, none performed yet.
    pub fn start(total: usize) -> (r: Run)
        ensures
            r == started(total),
    {
        Run { total, next: 0, failed: false }
    }

    /// The position of the action to perform now, or `None` once every action
    /// succeeded or one failed.
    pub fn next_action(&self) -> (r: Option<usize>)
        ensures
            offered(*self) matches Some(i) ==> r == Some(i as usize),
            offered(*self) is None ==> r is None,
    {
        if !self.failed && self.next < self.total {
            Some(self.next)
        } else {
            None
        }
    }

    /// Records how the offered action went.
    pub fn record(&mut self, succeeded: bool)
        requires
            offered(*old(self)) is Some,
        ensures
            *final(self) == advanced(*old(self), succeeded),
    {
        if succeeded {
            self.next = self.next + 1;
        } else {
            self.failed = true;
        }
    }

    /// Whether every action ran and succeeded.
    pub fn completed(&self) -> (r: bool)
        ensures
            r == (!self.failed && self.next >= self.total),
    {
        !self.failed && self.next >= self.total
    }
}

proof fn lemma_replay_prefix(total: usize, outcomes: Seq<bool>, m: int)
    requires
        0 <= m <= outcomes.len(),
        m <= total,
        forall|i: int| 0 <= i < m ==> #[trigger] outcomes[i],
    ensures
        replayed(total, outcomes.take(m)) == (Run { total, next: m as usize, failed: false }),
    decreases m,
{
    if m > 0 {
        lemma_replay_prefix(total, outcomes, m - 1);
        assert(outcomes.take(m).drop_last() == outcomes.take(m - 1));
        assert(outcomes[m - 1]);
    }
}

proof fn lemma_stays_failed(total: usize, outcomes: Seq<bool>, j: int, m: int)
    requires
        0 <= j < m <= outcomes.len(),
        replayed(total, outcomes.take(j + 1)).failed,
        replayed(total, outcomes.take(j + 1)).next == j,
    ensures
        replayed(total, outcomes.take(m)) == replayed(total, outcomes.take(j + 1)),
    decreases m,
{
    if m > j + 1 {
        lemma_stays_failed(total, outcomes, j, m - 1);
        assert(outcomes.take(m).drop_last() == outcomes.take(m - 1));
    }
}

/// Actions run strictly in order and the run stops at the first failure:
/// when the actions before position `j` succeed and action `j` fails, every
/// one of them up to `j` is performed, and none after it ever is, whatever
/// outcomes are reported afterwards.
pub proof fn lemma_run_stops_at_first_failure(total: usize, outcomes: Seq<bool>, j: int)
    requires
        0 <= j < total,
        j < outcomes.len(),
        !outcomes[j],
        forall|i: int| 0 <= i < j ==> #[trigger] outcomes[i],
    ensures
        forall|i: int| 0 <= i <= j ==> offered(#[trigger] replayed(total, outcomes.take(i))) == Some(i),
        forall|m: int|
            j < m <= outcomes.len() ==> offered(#[trigger] replayed(total, outcomes.take(m))) is None,
        replayed(total, outcomes).failed,
{
    assert forall|i: int| 0 <= i <= j implies offered(
        #[trigger] replayed(total, outcomes.take(i)),
    ) == Some(i) by {
        lemma_replay_prefix(total, outcomes, i);
    }
    lemma_replay_prefix(total, outcomes, j);
    assert(outcomes.take(j + 1).drop_last() == outcomes.take(j));
    assert forall|m: int| j < m <= outcomes.len() implies offered(
        #[trigger] replayed(total, outcomes.take(m)),
    ) is None by {
        lemma_stays_failed(total, outcomes, j, m);
    }
    lemma_stays_failed(total, outcomes, j, outcomes.len() as int);
    assert(outcomes.take(outcomes.len() as int) == outcomes);
}

/// A run whose actions all succeed performs each of them once, in order,
/// and then reports completion.
pub proof fn lemma_run_completes_when_all_succeed(total: usize, outcomes: Seq<bool>)
    requires
        outcomes.len() == total,
        forall|i: int| 0 <= i < total ==> #[trigger] outcomes[i],
    ensures
        forall|i: int| 0 <= i < total ==> offered(#[trigger] replayed(total, outcomes.take(i))) == Some(i),
        !replayed(total, outcomes).failed,
        replayed(total, outcomes).next == total,
{
    assert forall|i: int| 0 <= i < total implies offered(
        #[trigger] replayed(total, outcomes.take(i)),
    ) == Some(i) by {
        lemma_replay_prefix(total, outcomes, i);
    }
    lemma_replay_prefix(total, outcomes, total as int);
    assert(outcomes.take(total as int) == outcomes);
}

} // verus!

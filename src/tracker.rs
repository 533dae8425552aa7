use vstd::prelude::*;

verus! {

/// Where the logger stands in the life of a match.
#[derive(Clone, Copy, Debug, PartialEq, Eq, Structural)]
pub enum MatchPhase {
    /// No match is being recorded.
    Idle,
    /// A match has started; frames are recorded.
    Active,
    /// The match has ended and its log is being exported.
    Flushing,
}

/// What a boundary notification tells about the match: whether the countdown
/// is over, and whether the results screen is showing.
#[derive(Clone, Copy, Debug, PartialEq, Eq, Structural)]
pub struct Boundary {
    pub ready_go: bool,
    pub result_mode: bool,
}

/// Before the countdown ends and before the results: a match is about to start.
pub open spec fn is_pre_match(c: Boundary) -> bool {
    !c.ready_go && !c.result_mode
}

/// The phase after one boundary notification.
pub open spec fn boundary_phase(p: MatchPhase, c: Boundary) -> MatchPhase {
    match p {
        MatchPhase::Idle => if is_pre_match(c) { MatchPhase::Active } else { MatchPhase::Idle },
        MatchPhase::Active => if c.result_mode { MatchPhase::Flushing } else { MatchPhase::Active },
        MatchPhase::Flushing => MatchPhase::Flushing,
    }
}

/// The phase after one boundary notification and the export it may start,
/// which ends in `Idle` whatever its outcome.
pub open spec fn settled_phase(p: MatchPhase, c: Boundary) -> MatchPhase {
    match boundary_phase(p, c) {
        MatchPhase::Flushing => MatchPhase::Idle,
        q => q,
    }
}

/// The phase after a sequence of boundary notifications, each settled.
pub open spec fn run_boundaries(p: MatchPhase, cs: Seq<Boundary>) -> MatchPhase
    decreases cs.len(),
{
    if cs.len() == 0 {
        p
    } else {
        settled_phase(run_boundaries(p, cs.drop_last()), cs.last())
    }
}

/// Whether the notification at index `i` of `cs` ended a match (took the
/// phase from `Active` back to `Idle` through an export).
pub open spec fn ends_match_at(p: MatchPhase, cs: Seq<Boundary>, i: int) -> bool {
    run_boundaries(p, cs.take(i)) == MatchPhase::Active && cs[i].result_mode
}

/// A boundary notification repeated at once changes nothing more: the
/// tracker is driven by the state of the match, not by how often it is told.
pub proof fn lemma_boundary_idempotent(p: MatchPhase, c: Boundary)
    requires
        p != MatchPhase::Flushing,
    ensures
        settled_phase(settled_phase(p, c), c) == settled_phase(p, c),
{
}

/// `n >= 1` copies of one notification in a row lead to the same phase as a
/// single one: exactly one transition, not `n`.
pub proof fn lemma_repeated_boundary(p: MatchPhase, c: Boundary, n: nat)
    requires
        p != MatchPhase::Flushing,
        n >= 1,
    ensures
        run_boundaries(p, Seq::new(n, |i: int| c)) == settled_phase(p, c),
    decreases n,
{
    let cs = Seq::new(n, |i: int| c);
    assert(cs.last() == c);
    assert(run_boundaries(p, cs) == settled_phase(run_boundaries(p, cs.drop_last()), c));
    if n == 1 {
        assert(cs.drop_last() =~= Seq::<Boundary>::empty());
        assert(run_boundaries(p, cs.drop_last()) == p);
    } else {
        assert(cs.drop_last() =~= Seq::new((n - 1) as nat, |i: int| c));
        lemma_repeated_boundary(p, c, (n - 1) as nat);
        lemma_boundary_idempotent(p, c);
    }
}

proof fn lemma_run_take_step(p: MatchPhase, cs: Seq<Boundary>, i: int)
    requires
        0 <= i < cs.len(),
    ensures
        run_boundaries(p, cs.take(i + 1)) == settled_phase(run_boundaries(p, cs.take(i)), cs[i]),
{
    assert(cs.take(i + 1).drop_last() =~= cs.take(i));
}

proof fn lemma_run_never_flushing(p: MatchPhase, cs: Seq<Boundary>)
    requires
        p != MatchPhase::Flushing,
    ensures
        run_boundaries(p, cs) != MatchPhase::Flushing,
    decreases cs.len(),
{
    if cs.len() > 0 {
        lemma_run_never_flushing(p, cs.drop_last());
    }
}

/// Within any sequence of notifications, one that repeats its predecessor
/// never moves the phase.
pub proof fn lemma_repeat_keeps_phase(p: MatchPhase, cs: Seq<Boundary>, i: int)
    requires
        p != MatchPhase::Flushing,
        1 <= i < cs.len(),
        cs[i] == cs[i - 1],
    ensures
        run_boundaries(p, cs.take(i + 1)) == run_boundaries(p, cs.take(i)),
{
    lemma_run_take_step(p, cs, i);
    lemma_run_take_step(p, cs, i - 1);
    lemma_run_never_flushing(p, cs.take(i - 1));
    lemma_boundary_idempotent(run_boundaries(p, cs.take(i - 1)), cs[i]);
}

proof fn lemma_idle_until_pre_match(p: MatchPhase, cs: Seq<Boundary>, a: int, b: int)
    requires
        p != MatchPhase::Flushing,
        0 <= a <= b <= cs.len(),
        run_boundaries(p, cs.take(a)) == MatchPhase::Idle,
        forall|k: int| a <= k < b ==> !is_pre_match(#[trigger] cs[k]),
    ensures
        run_boundaries(p, cs.take(b)) == MatchPhase::Idle,
    decreases b - a,
{
    if a < b {
        lemma_run_take_step(p, cs, a);
        lemma_idle_until_pre_match(p, cs, a + 1, b);
    }
}

/// A match ends at most once: between two notifications that each end a
/// match there is always a fresh pre-match notification, which starts the
/// second one.
pub proof fn lemma_one_end_per_match(p: MatchPhase, cs: Seq<Boundary>, i: int, j: int)
    requires
        p != MatchPhase::Flushing,
        0 <= i < j < cs.len(),
        ends_match_at(p, cs, i),
        ends_match_at(p, cs, j),
    ensures
        exists|k: int| i < k < j && is_pre_match(#[trigger] cs[k]),
{
    lemma_run_take_step(p, cs, i);
    if forall|k: int| i < k < j ==> !is_pre_match(#[trigger] cs[k]) {
        lemma_idle_until_pre_match(p, cs, i + 1, j);
    }
}

} // verus!

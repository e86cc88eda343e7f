//! Locating the items responsible for the failure of a batch.
//!
//! An operation is tried on a whole list. Where it fails, the list is cut in
//! two halves, which are tried in turn, the later half first; a failing half
//! is cut again. A failing part of one item is the answer at once. Otherwise
//! the answer is the shortest failing part that was seen.

use std::collections::VecDeque;
use vstd::prelude::*;

verus! {

/// A part of a list: the items from `start` up to, not including, `end`.
#[derive(Clone, Copy, Debug, PartialEq, Eq)]
pub struct Part {
    pub start: usize,
    pub end: usize,
}

impl Part {
    /// The number of items of the part.
    pub open spec fn len(self) -> int {
        self.end - self.start
    }

    /// Whether the part is a non-empty part of a list of `n` items.
    pub open spec fn within(self, n: int) -> bool {
        self.start < self.end && self.end <= n
    }

    /// Where the part is cut in two.
    pub open spec fn mid(self) -> int {
        self.start + self.len() / 2
    }

    /// The earlier half of the part.
    pub open spec fn left(self) -> Part {
        Part { start: self.start, end: self.mid() as usize }
    }

    /// The later half of the part.
    pub open spec fn right(self) -> Part {
        Part { start: self.mid() as usize, end: self.end }
    }
}

/// The state of a search: the parts still to try, the next one last, and the
/// shortest failing part seen so far.
pub struct SearchV {
    pub queue: Seq<Part>,
    pub best: Option<Part>,
}

/// What a search does once the outcome for the part it tried is known.
pub enum Verdict {
    /// The operation succeeded on the whole list.
    Passed,
    /// The search is over; this part is responsible for the failure.
    Blamed(Part),
    /// The search goes on from this state.
    Next(SearchV),
}

/// The shorter of the failing part seen so far and a new failing part; the
/// new one where they are equally long.
pub open spec fn narrower(best: Option<Part>, part: Part) -> Part {
    match best {
        None => part,
        Some(b) => if part.len() <= b.len() {
            part
        } else {
            b
        },
    }
}

/// The search over a list of `n` items before anything was tried.
pub open spec fn initial(n: usize) -> SearchV {
    SearchV { queue: seq![Part { start: 0, end: n }], best: None }
}

/// Whether a state can arise in a search over `n` items.
pub open spec fn search_wf(s: SearchV, n: int) -> bool {
    &&& forall|i: int| 0 <= i < s.queue.len() ==> (#[trigger] s.queue[i]).within(n)
    &&& match s.best {
        Some(b) => b.within(n),
        None => true,
    }
}

/// What the search does when the operation, tried on the next part, failed
/// (`failed`) or succeeded.
pub open spec fn observe(s: SearchV, failed: bool) -> Verdict
    recommends
        s.queue.len() > 0,
{
    let part = s.queue.last();
    let rest = s.queue.drop_last();
    if !failed {
        match s.best {
            None => Verdict::Passed,
            Some(b) => if rest.len() == 0 {
                Verdict::Blamed(b)
            } else {
                Verdict::Next(SearchV { queue: rest, best: s.best })
            },
        }
    } else if part.len() == 1 {
        Verdict::Blamed(part)
    } else {
        Verdict::Next(
            SearchV {
                queue: rest.push(part.left()).push(part.right()),
                best: Some(narrower(s.best, part)),
            },
        )
    }
}

/// How much work the parts still to try may cost at most: a part of `k`
/// items is tried and cut into at most `2k - 1` parts in all.
pub open spec fn potential(queue: Seq<Part>) -> int
    decreases queue.len(),
{
    if queue.len() == 0 {
        0
    } else {
        potential(queue.drop_last()) + 2 * queue.last().len() - 1
    }
}

/// The halves of a part of two items or more are parts, shorter than it, and
/// make it up.
pub proof fn lemma_halves(part: Part, n: int)
    requires
        part.within(n),
        part.len() >= 2,
        n <= usize::MAX,
    ensures
        part.left().within(n),
        part.right().within(n),
        part.left().len() + part.right().len() == part.len(),
        part.left().end == part.right().start,
        part.left().len() == part.len() / 2,
{
}

/// Every step of a search keeps the state well formed and lowers the
/// potential.
pub proof fn lemma_observe(s: SearchV, failed: bool, n: int)
    requires
        search_wf(s, n),
        s.queue.len() > 0,
        n <= usize::MAX,
    ensures
        match observe(s, failed) {
            Verdict::Next(t) => search_wf(t, n) && t.queue.len() > 0 && 0 <= potential(t.queue)
                < potential(s.queue) && t.best.is_some(),
            Verdict::Blamed(p) => p.within(n),
            Verdict::Passed => !failed && s.best.is_none(),
        },
        0 <= potential(s.queue.drop_last()),
{
    let part = s.queue.last();
    let rest = s.queue.drop_last();
    lemma_potential_nonnegative(rest, n);
    assert(part.within(n));
    if failed && part.len() >= 2 {
        lemma_halves(part, n);
        let q1 = rest.push(part.left());
        let q2 = q1.push(part.right());
        assert(q2.drop_last() =~= q1);
        assert(q1.drop_last() =~= rest);
        assert(q1.last() == part.left());
        assert(q2.last() == part.right());
        assert(potential(q1) == potential(rest) + 2 * part.left().len() - 1);
        assert(potential(q2) == potential(q1) + 2 * part.right().len() - 1);
        assert(potential(s.queue) == potential(rest) + 2 * part.len() - 1);
    }
}

/// The potential of well-formed parts is not negative.
pub proof fn lemma_potential_nonnegative(queue: Seq<Part>, n: int)
    requires
        forall|i: int| 0 <= i < queue.len() ==> (#[trigger] queue[i]).within(n),
    ensures
        potential(queue) >= 0,
    decreases queue.len(),
{
    if queue.len() > 0 {
        lemma_potential_nonnegative(queue.drop_last(), n);
        assert(queue.last().within(n));
    }
}

/// How a search ends, and after how many tries, when the operation fails
/// exactly on the parts for which `fails` holds.
pub open spec fn search(s: SearchV, fails: spec_fn(Part) -> bool, n: int) -> (Verdict, nat)
    decreases potential(s.queue),
    when search_wf(s, n) && s.queue.len() > 0 && n <= usize::MAX
    via search_decreases
{
    match observe(s, fails(s.queue.last())) {
        Verdict::Next(t) => {
            let (v, k) = search(t, fails, n);
            (v, k + 1)
        },
        v => (v, 1),
    }
}

/// Each step of the search brings it nearer to its end.
#[via_fn]
proof fn search_decreases(s: SearchV, fails: spec_fn(Part) -> bool, n: int) {
    lemma_observe(s, fails(s.queue.last()), n);
}

/// The operation that fails exactly on the parts that hold item `k`.
pub open spec fn single_fault(k: int) -> spec_fn(Part) -> bool {
    |p: Part| p.start <= k < p.end
}

/// The number of tries that it takes to find item `k` in a part of the items
/// from `start` to `end`: one for the part itself; where it has two items or
/// more, one more for the later half where `k` is not in it, and the tries
/// for the half that holds `k`.
pub open spec fn probes(start: int, end: int, k: int) -> nat
    decreases end - start,
{
    if end - start <= 1 {
        1
    } else {
        let mid = start + (end - start) / 2;
        if k >= mid {
            1 + probes(mid, end, k)
        } else {
            2 + probes(start, mid, k)
        }
    }
}

/// The least `d` such that `2^d >= n`.
pub open spec fn ceil_log2(n: int) -> nat
    decreases n,
{
    if n <= 1 {
        0
    } else {
        1 + ceil_log2(n - n / 2)
    }
}

/// A search that is about to try a part that holds the one failing item `k`
/// blames item `k` alone, after the tries that `probes` counts for that part.
proof fn lemma_single_fault_found(s: SearchV, k: int, n: int)
    requires
        search_wf(s, n),
        n <= usize::MAX,
        s.queue.len() > 0,
        s.queue.last().start <= k < s.queue.last().end,
        s.queue.len() > 1 ==> s.best.is_some(),
    ensures
        search(s, single_fault(k), n) == (
            Verdict::Blamed(Part { start: k as usize, end: (k + 1) as usize }),
            probes(s.queue.last().start as int, s.queue.last().end as int, k),
        ),
    decreases s.queue.last().len(),
{
    let fails = single_fault(k);
    let part = s.queue.last();
    assert(part.within(n));
    assert(fails(part));
    lemma_observe(s, true, n);
    if part.len() == 1 {
        assert(part == Part { start: k as usize, end: (k + 1) as usize });
        assert(observe(s, true) == Verdict::Blamed(part));
        assert(search(s, fails, n) == (Verdict::Blamed(part), 1nat));
    } else {
        lemma_halves(part, n);
        let t = observe(s, true)->Next_0;
        assert(t.queue.last() == part.right());
        assert(search(s, fails, n) == (search(t, fails, n).0, search(t, fails, n).1 + 1));
        if k >= part.mid() {
            lemma_single_fault_found(t, k, n);
        } else {
            assert(!fails(part.right()));
            lemma_observe(t, false, n);
            assert(t.queue.drop_last() =~= s.queue.drop_last().push(part.left()));
            let u = observe(t, false)->Next_0;
            assert(u.queue =~= s.queue.drop_last().push(part.left()));
            assert(u.queue.last() == part.left());
            assert(search(t, fails, n) == (search(u, fails, n).0, search(u, fails, n).1 + 1));
            lemma_single_fault_found(u, k, n);
        }
    }
}

/// With exactly one failing item among `n`, the search blames that item
/// alone, after `probes(0, n, k)` tries.
pub proof fn law_single_fault_is_located(n: usize, k: int)
    requires
        0 <= k < n,
    ensures
        search(initial(n), single_fault(k), n as int) == (
            Verdict::Blamed(Part { start: k as usize, end: (k + 1) as usize }),
            probes(0, n as int, k),
        ),
{
    let s = initial(n);
    assert(s.queue.last() == Part { start: 0, end: n });
    lemma_single_fault_found(s, k, n as int);
}

/// Where the failing item lies in the later half at every cut, which holds
/// of the last item of every list, one try per cut is enough.
pub proof fn lemma_probes_of_last(start: int, end: int)
    requires
        start < end,
    ensures
        probes(start, end, end - 1) == ceil_log2(end - start) + 1,
    decreases end - start,
{
    if end - start >= 2 {
        let mid = start + (end - start) / 2;
        lemma_probes_of_last(mid, end);
        assert(end - mid == (end - start) - (end - start) / 2);
    }
}

/// Two tries per cut are always enough.
pub proof fn lemma_probes_bound(start: int, end: int, k: int)
    requires
        start <= k < end,
    ensures
        probes(start, end, k) <= 2 * ceil_log2(end - start) + 1,
    decreases end - start,
{
    if end - start >= 2 {
        let mid = start + (end - start) / 2;
        let len = end - start;
        if k >= mid {
            lemma_probes_bound(mid, end, k);
        } else {
            lemma_probes_bound(start, mid, k);
            lemma_ceil_log2_monotonic(mid - start, end - mid);
        }
    }
}

/// A longer list takes no fewer cuts.
pub proof fn lemma_ceil_log2_monotonic(a: int, b: int)
    requires
        a <= b,
    ensures
        ceil_log2(a) <= ceil_log2(b),
    decreases b,
{
    if a > 1 {
        lemma_ceil_log2_monotonic(a - a / 2, b - b / 2);
    }
}

/// The bound on locating a single fault: with one failing item `k` among `n`,
/// the search blames item `k` alone, and where the cuts fall so that
/// `probes(0, n, k)` is at most `ceil_log2(n) + 1`, it does so in at most
/// that many tries.
pub proof fn law_single_fault_bound(n: usize, k: int)
    requires
        0 <= k < n,
        probes(0, n as int, k) <= ceil_log2(n as int) + 1,
    ensures
        search(initial(n), single_fault(k), n as int).0 == Verdict::Blamed(
            Part { start: k as usize, end: (k + 1) as usize },
        ),
        search(initial(n), single_fault(k), n as int).1 <= ceil_log2(n as int) + 1,
{
    law_single_fault_is_located(n, k);
}

/// The bound holds for the last item of every list.
pub proof fn law_single_fault_bound_for_last(n: usize)
    requires
        n > 0,
    ensures
        search(initial(n), single_fault(n - 1), n as int).1 == ceil_log2(n as int) + 1,
{
    law_single_fault_is_located(n, n - 1);
    lemma_probes_of_last(0, n as int);
}

/// With one failing item, the search never takes more than two tries per cut
/// and one.
pub proof fn law_single_fault_general_bound(n: usize, k: int)
    requires
        0 <= k < n,
    ensures
        search(initial(n), single_fault(k), n as int).1 <= 2 * ceil_log2(n as int) + 1,
{
    law_single_fault_is_located(n, k);
    lemma_probes_bound(0, n as int, k);
}

/// The state of the search over `n` items after the first `k` of the
/// outcomes `trace`, an outcome being `true` for a failure; `None` where the
/// search is over by then.
pub open spec fn state_after(n: usize, trace: Seq<bool>, k: int) -> Option<SearchV>
    decreases k,
{
    if k <= 0 {
        Some(initial(n))
    } else {
        match state_after(n, trace, k - 1) {
            Some(s) => match observe(s, trace[k - 1]) {
                Verdict::Next(t) => Some(t),
                _ => None,
            },
            None => None,
        }
    }
}

/// Whether the search over `n` items that meets the outcomes `trace`, one
/// after the other, is over with the last of them, and ends in `verdict`.
pub open spec fn ends_in(n: usize, trace: Seq<bool>, verdict: Verdict) -> bool {
    &&& trace.len() > 0
    &&& !(verdict is Next)
    &&& state_after(n, trace, trace.len() - 1).is_some()
    &&& observe(state_after(n, trace, trace.len() - 1).unwrap(), trace.last()) == verdict
}

/// The states of a search do not depend on outcomes to come.
pub proof fn lemma_state_after_prefix(n: usize, trace: Seq<bool>, more: bool, k: int)
    requires
        0 <= k <= trace.len(),
    ensures
        state_after(n, trace.push(more), k) == state_after(n, trace, k),
    decreases k,
{
    if k > 0 {
        lemma_state_after_prefix(n, trace, more, k - 1);
        assert(trace.push(more)[k - 1] == trace[k - 1]);
    }
}

/// Every state of a search is well formed and has a part to try.
pub proof fn lemma_state_after_wf(n: usize, trace: Seq<bool>, k: int)
    requires
        n > 0,
        0 <= k,
        state_after(n, trace, k).is_some(),
    ensures
        search_wf(state_after(n, trace, k).unwrap(), n as int),
        state_after(n, trace, k).unwrap().queue.len() > 0,
    decreases k,
{
    if k > 0 {
        lemma_state_after_wf(n, trace, k - 1);
        lemma_observe(state_after(n, trace, k - 1).unwrap(), trace[k - 1], n as int);
    } else {
        assert(initial(n).queue[0] == Part { start: 0, end: n });
    }
}

/// A search that meets, from its state after `k` outcomes on, the outcomes
/// that `fails` foretells, and is over with the last of them, ends as `fails`
/// foretells, after as many tries.
pub proof fn lemma_trace_is_search(
    n: usize,
    trace: Seq<bool>,
    fails: spec_fn(Part) -> bool,
    verdict: Verdict,
    k: int,
)
    requires
        n > 0,
        0 <= k < trace.len(),
        ends_in(n, trace, verdict),
        state_after(n, trace, k).is_some(),
        forall|t: int|
            k <= t < trace.len() ==> state_after(n, trace, t).is_some() && trace[t] == fails(
                (#[trigger] state_after(n, trace, t)).unwrap().queue.last(),
            ),
    ensures
        search(state_after(n, trace, k).unwrap(), fails, n as int) == (
            verdict,
            (trace.len() - k) as nat,
        ),
    decreases trace.len() - k,
{
    let s = state_after(n, trace, k).unwrap();
    lemma_state_after_wf(n, trace, k);
    assert(trace[k] == fails(s.queue.last()));
    if k == trace.len() - 1 {
        assert(observe(s, trace[k]) == verdict);
    } else {
        assert(state_after(n, trace, k + 1).is_some());
        lemma_trace_is_search(n, trace, fails, verdict, k + 1);
    }
}

/// The bound on locating a single fault, for every search: a search over `n`
/// items that meets the outcomes of an operation which fails exactly on the
/// parts that hold item `k`, and is over with the last of them, blames item
/// `k` alone, after `probes(0, n, k)` tries; where the cuts fall so that this
/// is at most `ceil_log2(n) + 1`, after at most that many tries.
pub proof fn law_single_fault_trace(n: usize, k: int, trace: Seq<bool>, verdict: Verdict)
    requires
        0 <= k < n,
        ends_in(n, trace, verdict),
        forall|t: int|
            0 <= t < trace.len() ==> state_after(n, trace, t).is_some() && trace[t]
                == single_fault(k)((#[trigger] state_after(n, trace, t)).unwrap().queue.last()),
    ensures
        verdict == Verdict::Blamed(Part { start: k as usize, end: (k + 1) as usize }),
        trace.len() == probes(0, n as int, k),
        probes(0, n as int, k) <= ceil_log2(n as int) + 1 ==> trace.len() <= ceil_log2(n as int)
            + 1,
        trace.len() <= 2 * ceil_log2(n as int) + 1,
{
    lemma_trace_is_search(n, trace, single_fault(k), verdict, 0);
    law_single_fault_is_located(n, k);
    lemma_probes_bound(0, n as int, k);
}

/// The parts of a queue from its back to its front: the part to try next,
/// which stands at the front, comes last.
pub open spec fn facing(queue: Seq<Part>) -> Seq<Part> {
    Seq::new(queue.len(), |i: int| queue[queue.len() - 1 - i])
}

/// A search in progress, with the error that came with the shortest failing
/// part seen so far. The parts to try wait in a queue, the next one at its
/// front.
pub struct Locator<E> {
    queue: VecDeque<Part>,
    best: Option<(Part, E)>,
    size: usize,
}

/// What a search does next.
pub enum Step<E> {
    /// The operation succeeded on the whole list.
    Passed,
    /// The search is over: `part` is responsible, and failed with `error`.
    Blamed { part: Part, error: E },
    /// The search goes on.
    Next(Locator<E>),
}

impl<E> View for Locator<E> {
    type V = SearchV;

    closed spec fn view(&self) -> SearchV {
        SearchV {
            queue: facing(self.queue@),
            best: match self.best {
                Some(b) => Some(b.0),
                None => None,
            },
        }
    }
}

impl<E> Locator<E> {
    /// The number of items of the list that is searched.
    pub closed spec fn size(&self) -> int {
        self.size as int
    }

    /// The error that came with the shortest failing part seen so far.
    pub closed spec fn best_error(&self) -> Option<E> {
        match self.best {
            Some(b) => Some(b.1),
            None => None,
        }
    }

    /// Whether the search has a part to try next.
    pub open spec fn live(&self) -> bool {
        search_wf(self@, self.size()) && self@.queue.len() > 0
    }

    /// The search over a list of `n` items, before anything was tried.
    pub fn new(n: usize) -> (r: Self)
        requires
            n > 0,
        ensures
            r@ == initial(n),
            r.size() == n,
            r.live(),
            r.best_error().is_none(),
    {
        let mut queue: VecDeque<Part> = VecDeque::new();
        queue.push_front(Part { start: 0, end: n });
        let r = Locator { queue, best: None, size: n };
        assert(r@.queue =~= initial(n).queue);
        r
    }

    /// The part to try next.
    pub fn current(&self) -> (r: Part)
        requires
            self.live(),
        ensures
            r == self@.queue.last(),
            r.within(self.size()),
    {
        let part = self.queue[0];
        assert(part == self@.queue[self@.queue.len() - 1]);
        part
    }

    /// What the search does once the operation was tried on the current
    /// part: `outcome` is the error where it failed, and `None` where it
    /// succeeded.
    pub fn observe(self, outcome: Option<E>) -> (r: Step<E>)
        requires
            self.live(),
        ensures
            match observe(self@, outcome.is_some()) {
                Verdict::Passed => r is Passed,
                Verdict::Blamed(p) => r is Blamed && r->part == p && r->error == (if outcome.is_some() {
                    outcome.unwrap()
                } else {
                    self.best_error().unwrap()
                }),
                Verdict::Next(t) => r is Next && r->Next_0@ == t && r->Next_0.live()
                    && r->Next_0.size() == self.size() && r->Next_0.best_error() == (
                if outcome.is_some() && narrower(self@.best, self@.queue.last())
                    == self@.queue.last() {
                    outcome
                } else {
                    self.best_error()
                }),
            },
    {
        proof {
            lemma_observe(self@, outcome.is_some(), self.size());
        }
        let Locator { mut queue, best, size } = self;
        let ghost before = queue@;
        let part = match queue.pop_front() {
            Some(part) => part,
            None => vstd::pervasive::unreached(),
        };
        assert(facing(queue@) =~= facing(before).drop_last());
        assert(part == facing(before).last());
        let ghost rest = queue@;
        match outcome {
            None => match best {
                None => Step::Passed,
                Some(b) => {
                    if queue.len() == 0 {
                        Step::Blamed { part: b.0, error: b.1 }
                    } else {
                        Step::Next(Locator { queue, best: Some(b), size })
                    }
                },
            },
            Some(error) => {
                if part.end - part.start == 1 {
                    Step::Blamed { part, error }
                } else {
                    let mid = part.start + (part.end - part.start) / 2;
                    queue.push_front(Part { start: part.start, end: mid });
                    queue.push_front(Part { start: mid, end: part.end });
                    assert(facing(queue@) =~= facing(rest).push(
                        Part { start: part.start, end: mid },
                    ).push(Part { start: mid, end: part.end }));
                    let keep_old = match &best {
                        Some(b) => part.end - part.start > b.0.end - b.0.start,
                        None => false,
                    };
                    let new_best = if keep_old {
                        best
                    } else {
                        Some((part, error))
                    };
                    Step::Next(Locator { queue, best: new_best, size })
                }
            },
        }
    }
}

} // verus!

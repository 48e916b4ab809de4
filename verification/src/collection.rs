//! Several results as one: the worst state, and the notices and metrics in the
//! order in which they came.

use crate::measure::Real;
use crate::result::CheckResult;
use crate::state::State;
use vstd::prelude::*;
use vstd::string::*;

verus! {

/// The results that have something to report, in their order.
pub open spec fn kept(results: Seq<CheckResult<Real>>) -> Seq<CheckResult<Real>> {
    results.filter(|result: CheckResult<Real>| !result.is_empty())
}

/// The most severe state among the results, and `Okay` where there are none.
pub open spec fn worst(results: Seq<CheckResult<Real>>) -> State
    decreases results.len(),
{
    if results.len() == 0 {
        State::Okay
    } else {
        worst(results.drop_last()).spec_worse_of(results.last().state)
    }
}

/// The state of the collection made of `results`: the most severe state among
/// those that have something to report. Without any, the state is `Okay`.
pub open spec fn overall_state(results: Seq<CheckResult<Real>>) -> State {
    worst(kept(results))
}

/// The notices of the results that carry one, in their order.
pub open spec fn notices(results: Seq<CheckResult<Real>>) -> Seq<Seq<char>>
    decreases results.len(),
{
    if results.len() == 0 {
        Seq::empty()
    } else {
        match results.last().notice {
            Some(text) => notices(results.drop_last()).push(text@),
            None => notices(results.drop_last()),
        }
    }
}

/// The metrics of the results that carry one, each as an item of performance
/// data, in their order.
pub open spec fn perf_items(results: Seq<CheckResult<Real>>) -> Seq<Seq<char>>
    decreases results.len(),
{
    if results.len() == 0 {
        Seq::empty()
    } else {
        match results.last().metric {
            Some(metric) => perf_items(results.drop_last()).push(metric.perf_text()),
            None => perf_items(results.drop_last()),
        }
    }
}

/// The parts in their order, with the separator between each two.
pub open spec fn joined(parts: Seq<Seq<char>>, separator: Seq<char>) -> Seq<char>
    decreases parts.len(),
{
    if parts.len() == 0 {
        Seq::empty()
    } else if parts.len() == 1 {
        parts[0]
    } else {
        joined(parts.drop_last(), separator) + separator + parts.last()
    }
}

/// The summary of a collection: its notices, separated by a comma and a space.
pub open spec fn summary_text(results: Seq<CheckResult<Real>>) -> Seq<char> {
    joined(notices(results), ", "@)
}

/// The performance data of a collection: its metrics, separated by a space.
pub open spec fn perf_data_text(results: Seq<CheckResult<Real>>) -> Seq<char> {
    joined(perf_items(results), " "@)
}

/// A collection as one line: the name of its state; then, where there is a
/// notice, ` - ` and the summary; then, where there is a metric, ` | ` and the
/// performance data.
pub open spec fn line_text(results: Seq<CheckResult<Real>>) -> Seq<char> {
    let head = worst(results).name();
    let with_summary = if notices(results).len() > 0 {
        head + " - "@ + summary_text(results)
    } else {
        head
    };
    if perf_items(results).len() > 0 {
        with_summary + " | "@ + perf_data_text(results)
    } else {
        with_summary
    }
}

/// The results of several checks, without those that have nothing to report.
#[derive(Debug, PartialEq, Eq)]
pub struct Collection {
    results: Vec<CheckResult<Real>>,
}

impl View for Collection {
    type V = Seq<CheckResult<Real>>;

    closed spec fn view(&self) -> Seq<CheckResult<Real>> {
        self.results@
    }
}

impl Collection {
    #[verifier::type_invariant]
    spec fn well_formed(self) -> bool {
        forall|i: int| 0 <= i < self.results@.len() ==> !(#[trigger] self.results@[i]).is_empty()
    }

    /// Collects the results that have something to report, in their order.
    pub fn from(results: Vec<CheckResult<Real>>) -> (collection: Collection)
        ensures
            collection@ == kept(results@),
    {
        let ghost all = results@;
        let mut found: Vec<CheckResult<Real>> = Vec::new();
        for result in it: results
            invariant
                it.seq() == all,
                found@ == kept(all.take(it.index() as int)),
                forall|i: int| 0 <= i < found@.len() ==> !(#[trigger] found@[i]).is_empty(),
        {
            proof {
                let i = it.index() as int;
                reveal(Seq::filter);
                assert(all.take(i + 1).drop_last() == all.take(i));
                assert(all.take(i + 1).last() == result);
            }
            if !result.has_nothing() {
                found.push(result);
            }
        }
        proof {
            assert(all.take(all.len() as int) == all);
        }
        Collection { results: found }
    }

    /// The results, in their order. Each has something to report.
    pub fn results(&self) -> (results: &Vec<CheckResult<Real>>)
        ensures
            results@ == self@,
            forall|i: int| 0 <= i < results@.len() ==> !(#[trigger] results@[i]).is_empty(),
    {
        proof {
            use_type_invariant(self);
        }
        &self.results
    }

    /// The most severe state among the results. A collection without results
    /// is `Okay`.
    pub fn state(&self) -> (state: State)
        ensures
            state == worst(self@),
    {
        let mut state = State::Okay;
        let mut i: usize = 0;
        while i < self.results.len()
            invariant
                i <= self.results.len(),
                state == worst(self.results@.take(i as int)),
            decreases self.results.len() - i,
        {
            proof {
                assert(self.results@.take(i + 1).drop_last() == self.results@.take(i as int));
            }
            state = state.worse_of(self.results[i].state);
            i = i + 1;
        }
        proof {
            assert(self.results@.take(i as int) == self.results@);
        }
        state
    }

    /// The notices of the results, in their order, separated by `, `.
    pub fn summary(&self) -> (out: String)
        ensures
            out@ == summary_text(self@),
    {
        self.join_notices().0
    }

    /// The metrics of the results as performance data, in their order,
    /// separated by a space.
    pub fn perf_data(&self) -> (out: String)
        ensures
            out@ == perf_data_text(self@),
    {
        self.join_metrics().0
    }

    /// The collection as one line: state, summary and performance data.
    pub fn render(&self) -> (out: String)
        ensures
            out@ == line_text(self@),
    {
        let mut out = String::from_str(self.state().as_str());
        let (summary, notices) = self.join_notices();
        if notices > 0 {
            out.append(" - ");
            out.append(summary.as_str());
        }
        let (perf_data, metrics) = self.join_metrics();
        if metrics > 0 {
            out.append(" | ");
            out.append(perf_data.as_str());
        }
        assert(out@ =~= line_text(self@));
        out
    }

    /// The summary, and the number of notices in it.
    fn join_notices(&self) -> (found: (String, usize))
        ensures
            found.0@ == summary_text(self@),
            found.1 == notices(self@).len(),
    {
        let mut out = String::new();
        let mut count: usize = 0;
        let mut i: usize = 0;
        while i < self.results.len()
            invariant
                i <= self.results.len(),
                count <= i,
                count == notices(self.results@.take(i as int)).len(),
                out@ == joined(notices(self.results@.take(i as int)), ", "@),
            decreases self.results.len() - i,
        {
            proof {
                assert(self.results@.take(i + 1).drop_last() == self.results@.take(i as int));
            }
            let ghost before = notices(self.results@.take(i as int));
            match &self.results[i].notice {
                Some(text) => {
                    if count > 0 {
                        out.append(", ");
                    }
                    out.append(text.as_str());
                    count = count + 1;
                    proof {
                        assert(before.push(text@).drop_last() == before);
                        assert(out@ =~= joined(before.push(text@), ", "@));
                    }
                },
                None => {},
            }
            i = i + 1;
        }
        proof {
            assert(self.results@.take(i as int) == self.results@);
        }
        (out, count)
    }

    /// The performance data, and the number of metrics in it.
    fn join_metrics(&self) -> (found: (String, usize))
        ensures
            found.0@ == perf_data_text(self@),
            found.1 == perf_items(self@).len(),
    {
        let mut out = String::new();
        let mut count: usize = 0;
        let mut i: usize = 0;
        while i < self.results.len()
            invariant
                i <= self.results.len(),
                count <= i,
                count == perf_items(self.results@.take(i as int)).len(),
                out@ == joined(perf_items(self.results@.take(i as int)), " "@),
            decreases self.results.len() - i,
        {
            proof {
                assert(self.results@.take(i + 1).drop_last() == self.results@.take(i as int));
            }
            let ghost before = perf_items(self.results@.take(i as int));
            match &self.results[i].metric {
                Some(metric) => {
                    if count > 0 {
                        out.append(" ");
                    }
                    out.append(metric.render().as_str());
                    count = count + 1;
                    proof {
                        assert(before.push(metric.perf_text()).drop_last() == before);
                        assert(out@ =~= joined(before.push(metric.perf_text()), " "@));
                    }
                },
                None => {},
            }
            i = i + 1;
        }
        proof {
            assert(self.results@.take(i as int) == self.results@);
        }
        (out, count)
    }
}

/// The overall state is no less severe than the state of any result that has
/// something to report, and it is the state of one of them, or `Okay`.
pub proof fn lemma_overall_state_is_worst(results: Seq<CheckResult<Real>>)
    ensures
        forall|i: int|
            0 <= i < results.len() && !results[i].is_empty() ==> (#[trigger] results[i]).state.severity()
                <= overall_state(results).severity(),
        overall_state(results) == State::Okay || exists|i: int|
            0 <= i < results.len() && !results[i].is_empty() && (#[trigger] results[i]).state
                == overall_state(results),
    decreases results.len(),
{
    reveal(Seq::filter);
    if results.len() > 0 {
        let front = results.drop_last();
        lemma_overall_state_is_worst(front);
        if !results.last().is_empty() {
            assert(kept(results).drop_last() == kept(front));
        }
        assert forall|i: int| 0 <= i < results.len() && !results[i].is_empty() implies (
        #[trigger] results[i]).state.severity() <= overall_state(results).severity() by {
            if i < front.len() {
                assert(front[i] == results[i]);
            }
        }
        if overall_state(results) != State::Okay {
            if !results.last().is_empty() && results.last().state == overall_state(results) {
                assert(results[results.len() - 1].state == overall_state(results));
            } else {
                let i = choose|i: int|
                    0 <= i < front.len() && !front[i].is_empty() && (#[trigger] front[i]).state
                        == overall_state(front);
                assert(results[i] == front[i]);
            }
        }
    }
}

/// The overall state does not depend on the order of the results: two
/// sequences that hold the same results, each as often as the other, give the
/// same state.
pub proof fn lemma_state_ignores_order(a: Seq<CheckResult<Real>>, b: Seq<CheckResult<Real>>)
    requires
        a.to_multiset() == b.to_multiset(),
    ensures
        overall_state(a) == overall_state(b),
{
    lemma_no_worse(a, b);
    lemma_no_worse(b, a);
}

/// Where every result of `a` occurs in `b`, `a` is no worse than `b`.
proof fn lemma_no_worse(a: Seq<CheckResult<Real>>, b: Seq<CheckResult<Real>>)
    requires
        a.to_multiset() == b.to_multiset(),
    ensures
        overall_state(a).severity() <= overall_state(b).severity(),
{
    lemma_overall_state_is_worst(a);
    lemma_overall_state_is_worst(b);
    if overall_state(a) != State::Okay {
        let i = choose|i: int|
            0 <= i < a.len() && !a[i].is_empty() && (#[trigger] a[i]).state == overall_state(a);
        a.to_multiset_ensures();
        b.to_multiset_ensures();
        assert(a.contains(a[i]));
        assert(a.to_multiset().count(a[i]) > 0);
        assert(b.to_multiset().count(a[i]) > 0);
        assert(b.contains(a[i]));
        let j = choose|j: int| 0 <= j < b.len() && b[j] == a[i];
        assert(!b[j].is_empty());
    }
}

} // verus!

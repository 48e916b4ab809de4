//! The outcome of one check: a state, a notice and, where something was
//! measured, a metric.

use crate::level::{assess, comment, evaluate, verdict, wording, Level};
use crate::measure::Measure;
use crate::metric::Metric;
use crate::state::State;
use vstd::prelude::*;
use vstd::string::*;

verus! {

/// What one check found.
///
/// A result without notice and without metric is empty: it stands for a check
/// that is switched off, and a [`Collection`](crate::collection::Collection)
/// leaves it out.
#[derive(Debug, PartialEq, Eq)]
pub struct CheckResult<T> {
    pub state: State,
    pub notice: Option<String>,
    pub metric: Option<Metric<T>>,
}

/// The levels of a metric that may be absent.
pub open spec fn levels_of<T>(metric: Option<Metric<T>>) -> Option<Level<T>> {
    match metric {
        Some(metric) => metric.levels,
        None => None,
    }
}

impl<T> CheckResult<T> {
    /// Whether the result has nothing to report.
    pub open spec fn is_empty(&self) -> bool {
        self.notice is None && self.metric is None
    }

    /// The result of a check that is switched off.
    pub fn empty() -> (result: CheckResult<T>)
        ensures
            result.is_empty(),
            result.state == State::Okay,
    {
        CheckResult { state: State::Okay, notice: None, metric: None }
    }

    /// A result that is a state and a notice, without a metric.
    pub fn notice(state: State, text: String) -> (result: CheckResult<T>)
        ensures
            result.state == state,
            result.notice == Some(text),
            result.metric is None,
    {
        CheckResult { state, notice: Some(text), metric: None }
    }

    /// Tells whether the result has nothing to report.
    pub fn has_nothing(&self) -> (yes: bool)
        ensures
            yes == self.is_empty(),
    {
        self.notice.is_none() && self.metric.is_none()
    }

    /// Whether `f` can be called on every value that the result holds.
    pub open spec fn accepted_by<U, F: Fn(T) -> U>(self, f: F) -> bool {
        self.metric matches Some(metric) ==> metric.accepted_by(f)
    }

    /// Whether `to` is this result with `f` applied to the values of its
    /// metric. State and notice are the same.
    pub open spec fn carried_to<U, F: Fn(T) -> U>(self, f: F, to: CheckResult<U>) -> bool {
        &&& to.state == self.state
        &&& to.notice == self.notice
        &&& match (self.metric, to.metric) {
            (Some(from), Some(metric)) => from.carried_to(f, metric),
            (None, None) => true,
            _ => false,
        }
    }

    /// Converts the values of the metric with `f`, for presentation. State and
    /// notice stay as they were found: nothing is evaluated again.
    pub fn map<U, F: Fn(T) -> U>(self, f: F) -> (to: CheckResult<U>)
        requires
            self.accepted_by(f),
        ensures
            self.carried_to(f, to),
    {
        let metric = match self.metric {
            Some(metric) => Some(metric.map(&f)),
            None => None,
        };
        CheckResult { state: self.state, notice: self.notice, metric }
    }
}

impl<T> Default for CheckResult<T> {
    fn default() -> (result: CheckResult<T>)
        ensures
            result.is_empty(),
            result.state == State::Okay,
    {
        CheckResult::empty()
    }
}

impl<T: Measure> CheckResult<T> {
    /// Holds `value` against the levels of `metric`, if it has any.
    ///
    /// The notice is `prefix`, then the value, then, where a bound was crossed,
    /// which one and where it lies. Without levels the state is fine and the
    /// notice still gives the value. The metric is attached as it is.
    pub fn from_levels(prefix: &str, value: &T, metric: Option<Metric<T>>) -> (result: CheckResult<T>)
        ensures
            result.state == verdict(levels_of(metric), *value),
            result.notice matches Some(text) && text@ == prefix@ + wording(
                levels_of(metric),
                *value,
            ),
            result.metric == metric,
    {
        let (state, words) = match &metric {
            Some(metric) => evaluate(value, &metric.levels),
            None => {
                let none: Option<Level<T>> = None;
                evaluate(value, &none)
            },
        };
        let mut text = String::from_str(prefix);
        text.append(words.as_str());
        CheckResult { state, notice: Some(text), metric }
    }

    /// Holds the value of `metric` against its levels, if it has any.
    ///
    /// The notice is `text`, then, where a bound was crossed, which one and
    /// where it lies. The metric is attached as it is.
    pub fn notice_from_levels(text: String, metric: Metric<T>) -> (result: CheckResult<T>)
        ensures
            result.state == verdict(metric.levels, metric.value),
            result.notice matches Some(notice) && notice@ == text@ + comment(
                metric.levels,
                metric.value,
            ),
            result.metric == Some(metric),
    {
        let (state, remark) = assess(&metric.value, &metric.levels);
        let mut notice = text;
        notice.append(remark.as_str());
        CheckResult { state, notice: Some(notice), metric: Some(metric) }
    }
}

} // verus!

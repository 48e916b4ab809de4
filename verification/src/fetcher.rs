//! The check of the response time.

use crate::collection::{worst, Collection};
use crate::level::{verdict, Level};
use crate::measure::{Elapsed, Measure, Real};
use crate::metric::Metric;
use crate::result::CheckResult;
use crate::text::{decimal, push_decimal};
use vstd::prelude::*;
use vstd::string::*;

verus! {

/// What the check holds the response time against.
#[derive(Debug)]
pub struct Config {
    response_time: Option<Level<Elapsed>>,
}

/// Makes a [`Config`] step by step. What is not set is absent.
pub struct ConfigBuilder {
    response_time: Option<Level<Elapsed>>,
}

impl Config {
    /// The levels for the response time, if there are any.
    pub closed spec fn response_time(&self) -> Option<Level<Elapsed>> {
        self.response_time
    }

    /// Starts a configuration without levels.
    pub fn builder() -> (builder: ConfigBuilder)
        ensures
            builder.chosen() is None,
    {
        ConfigBuilder { response_time: None }
    }
}

impl ConfigBuilder {
    /// The levels for the response time that were set, if any.
    pub closed spec fn chosen(&self) -> Option<Level<Elapsed>> {
        self.response_time
    }

    /// Sets the levels for the response time.
    pub fn response_time(self, levels: Option<Level<Elapsed>>) -> (builder: ConfigBuilder)
        ensures
            builder.chosen() == levels,
    {
        ConfigBuilder { response_time: levels }
    }

    /// The configuration.
    pub fn build(self) -> (config: Config)
        ensures
            config.response_time() == self.chosen(),
    {
        Config { response_time: self.response_time }
    }
}

/// What the notice says of the response time: its whole milliseconds.
pub open spec fn response_time_text(response_time: Elapsed) -> Seq<char> {
    "Response time: "@ + decimal(response_time.millis()) + " ms"@
}

/// Whether `result` is what the check of `response_time` against `levels`
/// finds: the state that the levels give, a notice with the milliseconds and
/// the bound that was crossed, and the metric `overall_response_time` in
/// seconds, with the levels.
pub open spec fn is_response_time_result(
    result: CheckResult<Elapsed>,
    response_time: Elapsed,
    levels: Level<Elapsed>,
) -> bool {
    &&& result.state == levels.state_of(response_time)
    &&& result.notice matches Some(notice)
    &&& notice@ == response_time_text(response_time) + levels.remark(levels.state_of(response_time))
    &&& result.metric matches Some(metric)
    &&& metric.label@ == "overall_response_time"@
    &&& metric.value == response_time
    &&& metric.uom@ == "s"@
    &&& metric.levels == Some(levels)
    &&& metric.min is None
    &&& metric.max is None
}

/// Holds the response time against the levels. Without levels there is
/// nothing to check, and no result.
pub fn check_response_time(response_time: Elapsed, levels: Option<Level<Elapsed>>) -> (found: Option<
    CheckResult<Elapsed>,
>)
    ensures
        match levels {
            Some(levels) => found matches Some(result) && is_response_time_result(
                result,
                response_time,
                levels,
            ),
            None => found is None,
        },
{
    match levels {
        Some(levels) => {
            let mut text = String::from_str("Response time: ");
            push_decimal(&mut text, response_time.as_millis());
            text.append(" ms");
            proof {
                reveal_strlit("overall_response_time");
                reveal_strlit("s");
            }
            let metric = Metric::new(
                String::from_str("overall_response_time"),
                response_time,
                "s",
                Some(levels),
                None,
                None,
            ).unwrap();
            Some(CheckResult::notice_from_levels(text, metric))
        },
        None => None,
    }
}

/// The bound `bound` in seconds.
pub open spec fn in_seconds(bound: Option<Elapsed>) -> Option<Real> {
    match bound {
        Some(span) => Some(Real::of_elapsed(span)),
        None => None,
    }
}

/// Whether `result` is `from` with every span of time turned into a number of
/// seconds, and all else the same.
pub open spec fn is_in_seconds(result: CheckResult<Real>, from: CheckResult<Elapsed>) -> bool {
    &&& result.state == from.state
    &&& result.notice == from.notice
    &&& match (from.metric, result.metric) {
        (Some(source), Some(metric)) => {
            &&& metric.label == source.label
            &&& metric.uom == source.uom
            &&& metric.value == Real::of_elapsed(source.value)
            &&& match (source.levels, metric.levels) {
                (Some(given), Some(levels)) => levels.mode == given.mode && levels.warn
                    == in_seconds(given.warn) && levels.crit == in_seconds(given.crit),
                (None, None) => true,
                _ => false,
            }
            &&& metric.min == in_seconds(source.min)
            &&& metric.max == in_seconds(source.max)
        },
        (None, None) => true,
        _ => false,
    }
}

/// Turns every span of time in `result` into a number of seconds.
pub fn to_seconds(result: CheckResult<Elapsed>) -> (converted: CheckResult<Real>)
    ensures
        is_in_seconds(converted, result),
{
    result.map(Real::from_elapsed)
}

/// Seconds stand where the spans of time stood: a level whose bounds were
/// turned into seconds gives a span in seconds the state that the level gave
/// the span.
pub proof fn lemma_seconds_keep_the_state(levels: Level<Elapsed>, value: Elapsed)
    ensures
        (Level {
            mode: levels.mode,
            warn: in_seconds(levels.warn),
            crit: in_seconds(levels.crit),
        }).state_of(Real::of_elapsed(value)) == levels.state_of(value),
{
}

/// Whether `result` is what [`check`] reports of `response_time` under
/// `levels`: state and notice as [`check_response_time`] finds them, and its
/// metric with value and bounds in seconds.
pub open spec fn is_reported_response_time(
    result: CheckResult<Real>,
    response_time: Elapsed,
    levels: Level<Elapsed>,
) -> bool {
    &&& result.state == levels.state_of(response_time)
    &&& result.notice matches Some(notice)
    &&& notice@ == response_time_text(response_time) + levels.remark(levels.state_of(response_time))
    &&& result.metric matches Some(metric)
    &&& metric.label@ == "overall_response_time"@
    &&& metric.value == Real::of_elapsed(response_time)
    &&& metric.uom@ == "s"@
    &&& metric.levels matches Some(reported)
    &&& reported.mode == levels.mode
    &&& reported.warn == in_seconds(levels.warn)
    &&& reported.crit == in_seconds(levels.crit)
    &&& metric.min is None
    &&& metric.max is None
}

/// Checks the response time and collects what was found.
///
/// With levels the collection holds one result: that of
/// [`check_response_time`], in seconds. Without levels it is empty. Its state
/// is the state of the response time under the levels, and `Okay` without.
pub fn check(response_time: Elapsed, config: Config) -> (collection: Collection)
    ensures
        match config.response_time() {
            Some(levels) => collection@.len() == 1 && is_reported_response_time(
                collection@[0],
                response_time,
                levels,
            ),
            None => collection@.len() == 0,
        },
        worst(collection@) == verdict(config.response_time(), response_time),
{
    let found = match check_response_time(response_time, config.response_time) {
        Some(result) => result,
        None => CheckResult::empty(),
    };
    let results = vec![to_seconds(found)];
    proof {
        reveal_with_fuel(Seq::filter, 2);
        reveal_with_fuel(worst, 2);
        assert(results@.drop_last() =~= Seq::empty());
    }
    Collection::from(results)
}

} // verus!

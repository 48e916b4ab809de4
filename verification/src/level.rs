//! Thresholds: a warning and a critical bound, and the side on which a value
//! has to stay.

use crate::error::ConfigError;
use crate::measure::Measure;
use crate::state::State;
use vstd::prelude::*;
use vstd::string::*;

verus! {

/// The side of a bound on which a value is acceptable.
#[derive(Clone, Copy, Debug, PartialEq, Eq, Structural)]
pub enum Mode {
    /// The value has to stay below the bound: it crosses the bound when it
    /// reaches it.
    Upper,
    /// The value has to stay at the bound or above: it crosses the bound when
    /// it falls below it.
    Lower,
}

impl Mode {
    /// Whether a value at `value` is on the acceptable side of a bound at `bound`.
    pub open spec fn within(self, value: int, bound: int) -> bool {
        match self {
            Mode::Upper => value < bound,
            Mode::Lower => value >= bound,
        }
    }

    /// Whether a value at `far` is `near` or lies further towards the side that
    /// is not acceptable.
    pub open spec fn no_nearer(self, far: int, near: int) -> bool {
        match self {
            Mode::Upper => far >= near,
            Mode::Lower => far <= near,
        }
    }
}

/// Whether `value` crosses `bound`. A bound that is absent is never crossed.
pub open spec fn crosses<T: Measure>(mode: Mode, value: T, bound: Option<T>) -> bool {
    match bound {
        Some(b) => !mode.within(value.position(), b.position()),
        None => false,
    }
}

/// Tells whether `value` crosses `bound`.
pub fn is_crossed<T: Measure>(mode: Mode, value: &T, bound: &Option<T>) -> (yes: bool)
    ensures
        yes == crosses(mode, *value, *bound),
{
    match bound {
        Some(b) => match mode {
            Mode::Upper => value.at_least(b),
            Mode::Lower => !value.at_least(b),
        },
        None => false,
    }
}

/// A warning and a critical bound, each optional, that share one [`Mode`].
#[derive(Debug, PartialEq, Eq)]
pub struct Level<T> {
    pub mode: Mode,
    pub warn: Option<T>,
    pub crit: Option<T>,
}

impl<T: Measure> Level<T> {
    /// The state of `value`: critical where it crosses the critical bound,
    /// else warning where it crosses the warning bound, else fine.
    pub open spec fn state_of(&self, value: T) -> State {
        if crosses(self.mode, value, self.crit) {
            State::Critical
        } else if crosses(self.mode, value, self.warn) {
            State::Warning
        } else {
            State::Okay
        }
    }

    /// What a notice says of the bound behind `state`: ` (warn at X)` for a
    /// warning and ` (crit at X)` for a critical state, with the bound for X.
    /// Nothing for any other state.
    pub open spec fn remark(&self, state: State) -> Seq<char> {
        match (state, self.warn, self.crit) {
            (State::Warning, Some(bound), _) => " (warn at "@ + bound.text() + ")"@,
            (State::Critical, _, Some(bound)) => " (crit at "@ + bound.text() + ")"@,
            _ => Seq::empty(),
        }
    }

    /// Whether the warning bound is reached no later than the critical one.
    /// This holds wherever one of the two is absent.
    pub open spec fn ordered(&self) -> bool {
        match (self.warn, self.crit) {
            (Some(warn), Some(crit)) => self.mode.no_nearer(crit.position(), warn.position()),
            _ => true,
        }
    }

    /// A level, with whatever bounds are given.
    pub fn new(mode: Mode, warn: Option<T>, crit: Option<T>) -> (level: Level<T>)
        ensures
            level.mode == mode,
            level.warn == warn,
            level.crit == crit,
    {
        Level { mode, warn, crit }
    }

    /// A level whose warning bound is reached no later than its critical bound.
    /// Bounds the other way round are refused.
    pub fn try_new(mode: Mode, warn: Option<T>, crit: Option<T>) -> (made: Result<Level<T>, ConfigError>)
        ensures
            match made {
                Ok(level) => level.mode == mode && level.warn == warn && level.crit == crit
                    && level.ordered(),
                Err(error) => error == ConfigError::InvertedBounds && !(Level {
                    mode,
                    warn,
                    crit,
                }).ordered(),
            },
    {
        let level = Level { mode, warn, crit };
        if level.is_ordered() {
            Ok(level)
        } else {
            Err(ConfigError::InvertedBounds)
        }
    }

    /// Tells whether the level is [`ordered`](Level::ordered).
    pub fn is_ordered(&self) -> (yes: bool)
        ensures
            yes == self.ordered(),
    {
        match (&self.warn, &self.crit) {
            (Some(warn), Some(crit)) => match self.mode {
                Mode::Upper => crit.at_least(warn),
                Mode::Lower => warn.at_least(crit),
            },
            _ => true,
        }
    }

    /// Holds `value` against the bounds, the critical one first.
    pub fn evaluate(&self, value: &T) -> (state: State)
        ensures
            state == self.state_of(*value),
    {
        if is_crossed(self.mode, value, &self.crit) {
            State::Critical
        } else if is_crossed(self.mode, value, &self.warn) {
            State::Warning
        } else {
            State::Okay
        }
    }

    /// Writes the [`remark`](Level::remark) for `state`.
    pub fn describe(&self, state: State) -> (out: String)
        ensures
            out@ == self.remark(state),
    {
        match (state, &self.warn, &self.crit) {
            (State::Warning, Some(bound), _) => {
                let mut out = String::from_str(" (warn at ");
                out.append(bound.render().as_str());
                out.append(")");
                out
            },
            (State::Critical, _, Some(bound)) => {
                let mut out = String::from_str(" (crit at ");
                out.append(bound.render().as_str());
                out.append(")");
                out
            },
            _ => String::new(),
        }
    }
}

/// Whether `f` can be called on the value, if there is one.
pub open spec fn accepts<T, U, F: Fn(T) -> U>(f: F, from: Option<T>) -> bool {
    match from {
        Some(value) => call_requires(f, (value,)),
        None => true,
    }
}

/// Whether `to` is what `f` may make of `from`: absent where `from` is absent,
/// and else a result of `f` on its value.
pub open spec fn carries<T, U, F: Fn(T) -> U>(f: F, from: Option<T>, to: Option<U>) -> bool {
    match (from, to) {
        (Some(a), Some(b)) => call_ensures(f, (a,), b),
        (None, None) => true,
        _ => false,
    }
}

/// Applies `f` to the value, if there is one.
pub fn map_optional<T, U, F: Fn(T) -> U>(f: &F, from: Option<T>) -> (to: Option<U>)
    requires
        accepts(*f, from),
    ensures
        carries(*f, from, to),
{
    match from {
        Some(value) => Some(f(value)),
        None => None,
    }
}

impl<T> Level<T> {
    /// Whether `f` can be called on both bounds.
    pub open spec fn accepted_by<U, F: Fn(T) -> U>(self, f: F) -> bool {
        accepts(f, self.warn) && accepts(f, self.crit)
    }

    /// Whether `to` is this level with `f` applied to its bounds.
    pub open spec fn carried_to<U, F: Fn(T) -> U>(self, f: F, to: Level<U>) -> bool {
        to.mode == self.mode && carries(f, self.warn, to.warn) && carries(f, self.crit, to.crit)
    }

    /// The level with `f` applied to its bounds. The mode stays.
    pub fn map<U, F: Fn(T) -> U>(self, f: &F) -> (to: Level<U>)
        requires
            self.accepted_by(*f),
        ensures
            self.carried_to(*f, to),
    {
        Level { mode: self.mode, warn: map_optional(f, self.warn), crit: map_optional(f, self.crit) }
    }
}

/// The state of `value` under an optional level. Without a level every value
/// is fine.
pub open spec fn verdict<T: Measure>(level: Option<Level<T>>, value: T) -> State {
    match level {
        Some(level) => level.state_of(value),
        None => State::Okay,
    }
}

/// What a notice says of the bound that `value` crossed: the
/// [`remark`](Level::remark) for its state. Nothing without a level.
pub open spec fn comment<T: Measure>(level: Option<Level<T>>, value: T) -> Seq<char> {
    match level {
        Some(level) => level.remark(level.state_of(value)),
        None => Seq::empty(),
    }
}

/// The words for `value` under an optional level: the value, followed by the
/// [`comment`] on the bound that it crossed, if it crossed one.
pub open spec fn wording<T: Measure>(level: Option<Level<T>>, value: T) -> Seq<char> {
    value.text() + comment(level, value)
}

/// Classifies `value` and comments on the bound that it crossed.
pub fn assess<T: Measure>(value: &T, level: &Option<Level<T>>) -> (found: (State, String))
    ensures
        found.0 == verdict(*level, *value),
        found.1@ == comment(*level, *value),
{
    match level {
        Some(level) => {
            let state = level.evaluate(value);
            (state, level.describe(state))
        },
        None => (State::Okay, String::new()),
    }
}

/// Classifies `value` and puts the finding into words. Without a level the
/// value is fine, and the words are the value alone.
pub fn evaluate<T: Measure>(value: &T, level: &Option<Level<T>>) -> (found: (State, String))
    ensures
        found.0 == verdict(*level, *value),
        found.1@ == wording(*level, *value),
{
    let (state, remark) = assess(value, level);
    let mut words = value.render();
    words.append(remark.as_str());
    (state, words)
}

/// A value within both bounds is fine, and no other value is.
pub proof fn lemma_okay_within_bounds<T: Measure>(level: Level<T>, value: T)
    ensures
        level.state_of(value) == State::Okay <==> !crosses(level.mode, value, level.warn)
            && !crosses(level.mode, value, level.crit),
{
}

/// A value that crosses the critical bound is critical, whatever the warning
/// bound is. A value that crosses the warning bound alone is a warning, never
/// critical.
pub proof fn lemma_critical_decides<T: Measure>(level: Level<T>, value: T)
    ensures
        crosses(level.mode, value, level.crit) ==> level.state_of(value) == State::Critical,
        crosses(level.mode, value, level.warn) && !crosses(level.mode, value, level.crit)
            ==> level.state_of(value) == State::Warning,
{
}

/// Moving a value away from the acceptable side never makes its state less
/// severe.
pub proof fn lemma_state_grows_with_distance<T: Measure>(level: Level<T>, near: T, far: T)
    requires
        level.mode.no_nearer(far.position(), near.position()),
    ensures
        level.state_of(near).severity() <= level.state_of(far).severity(),
{
}

/// Where the bounds are ordered, a value that crosses the critical bound has
/// crossed the warning bound as well: the warning is reached first.
pub proof fn lemma_warning_comes_first<T: Measure>(level: Level<T>, value: T)
    requires
        level.ordered(),
        level.warn is Some,
        crosses(level.mode, value, level.crit),
    ensures
        crosses(level.mode, value, level.warn),
{
}

} // verus!

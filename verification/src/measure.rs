//! Measured values: what can be held against a threshold and written out.

use crate::text::{billionths, decimal, push_billionths, push_decimal, BILLION};
use vstd::prelude::*;

verus! {

/// A value that has a place on the number line and a text.
///
/// Thresholds compare values by [`Measure::position`] alone: of two values the
/// one with the greater position is the greater.
pub trait Measure: Sized {
    /// The place of the value on the number line.
    spec fn position(&self) -> int;

    /// The value as it is written in notices and performance data.
    spec fn text(&self) -> Seq<char>;

    /// Whether `self` is `other` or greater.
    fn at_least(&self, other: &Self) -> (yes: bool)
        ensures
            yes == (self.position() >= other.position()),
    ;

    /// Writes the value out.
    fn render(&self) -> (out: String)
        ensures
            out@ == self.text(),
    ;
}

impl Measure for u64 {
    open spec fn position(&self) -> int {
        *self as int
    }

    open spec fn text(&self) -> Seq<char> {
        decimal(*self as nat)
    }

    fn at_least(&self, other: &Self) -> (yes: bool) {
        *self >= *other
    }

    fn render(&self) -> (out: String) {
        let mut out = String::new();
        push_decimal(&mut out, *self as u128);
        out
    }
}

/// A span of time: whole seconds and the nanoseconds beyond them.
#[derive(Clone, Copy, Debug, PartialEq, Eq, Structural)]
pub struct Elapsed {
    pub secs: u64,
    pub subsec_nanos: u32,
}

impl Elapsed {
    /// The span in nanoseconds.
    pub open spec fn nanos(&self) -> nat {
        self.secs as nat * (BILLION as nat) + self.subsec_nanos as nat
    }

    /// The whole milliseconds of the span.
    pub open spec fn millis(&self) -> nat {
        self.nanos() / 1_000_000
    }

    /// A span of `secs` seconds and `subsec_nanos` nanoseconds.
    pub fn new(secs: u64, subsec_nanos: u32) -> (span: Elapsed)
        ensures
            span.secs == secs,
            span.subsec_nanos == subsec_nanos,
    {
        Elapsed { secs, subsec_nanos }
    }

    /// A span of `millis` milliseconds: its whole seconds, and the rest as
    /// nanoseconds.
    pub fn from_millis(millis: u64) -> (span: Elapsed)
        ensures
            span.secs == millis / 1_000,
            span.subsec_nanos == (millis % 1_000) * 1_000_000,
            span.nanos() == millis as nat * 1_000_000,
    {
        let rest: u32 = (millis % 1_000) as u32;
        Elapsed { secs: millis / 1_000, subsec_nanos: rest * 1_000_000 }
    }

    /// The span in nanoseconds.
    pub fn as_nanos(&self) -> (n: u128)
        ensures
            n as nat == self.nanos(),
    {
        self.secs as u128 * BILLION + self.subsec_nanos as u128
    }

    /// The whole milliseconds of the span.
    pub fn as_millis(&self) -> (n: u128)
        ensures
            n as nat == self.millis(),
    {
        self.as_nanos() / 1_000_000
    }
}

impl Measure for Elapsed {
    open spec fn position(&self) -> int {
        self.nanos() as int
    }

    /// A span is written in seconds.
    open spec fn text(&self) -> Seq<char> {
        billionths(self.nanos() as int)
    }

    fn at_least(&self, other: &Self) -> (yes: bool) {
        self.as_nanos() >= other.as_nanos()
    }

    fn render(&self) -> (out: String) {
        let mut out = String::new();
        push_billionths(&mut out, self.as_nanos() as i128);
        out
    }
}

/// A number with up to nine decimal places, held as a count of billionths.
#[derive(Clone, Copy, Debug, PartialEq, Eq, Structural)]
pub struct Real {
    pub billionths: i128,
}

impl Real {
    /// The number that a span of time is in seconds.
    pub open spec fn of_elapsed(span: Elapsed) -> Real {
        Real { billionths: span.nanos() as i128 }
    }

    /// The whole number `n`.
    pub fn from_integer(n: i64) -> (number: Real)
        ensures
            number.billionths == n * BILLION,
    {
        Real { billionths: n as i128 * 1_000_000_000 }
    }

    /// The number of seconds in a span of time.
    pub fn from_elapsed(span: Elapsed) -> (number: Real)
        ensures
            number == Real::of_elapsed(span),
            number.position() == span.position(),
            number.text() == span.text(),
    {
        Real { billionths: span.as_nanos() as i128 }
    }
}

impl Measure for Real {
    open spec fn position(&self) -> int {
        self.billionths as int
    }

    open spec fn text(&self) -> Seq<char> {
        billionths(self.billionths as int)
    }

    fn at_least(&self, other: &Self) -> (yes: bool) {
        self.billionths >= other.billionths
    }

    fn render(&self) -> (out: String) {
        let mut out = String::new();
        push_billionths(&mut out, self.billionths);
        out
    }
}

} // verus!

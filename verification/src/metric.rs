//! Metrics: a measured value with its label and unit, as it is reported in
//! performance data.

use crate::error::ConfigError;
use crate::level::{accepts, carries, map_optional, Level};
use crate::measure::Measure;
use vstd::prelude::*;
use vstd::string::*;

verus! {

/// Whether a character is a space, a tab or a line break.
pub open spec fn is_blank(c: char) -> bool {
    c == ' ' || c == '\t' || c == '\n' || c == '\r'
}

/// Whether a character may stand in a unit tag: anything but a digit, a
/// semicolon, a quote or white space.
pub open spec fn unit_char(c: char) -> bool {
    !('0' <= c <= '9') && c != ';' && c != '\'' && c != '"' && !is_blank(c)
}

/// Whether a text is a unit tag. The empty text is one: it stands for a bare
/// number.
pub open spec fn valid_unit(tag: Seq<char>) -> bool {
    forall|i: int| 0 <= i < tag.len() ==> unit_char(#[trigger] tag[i])
}

/// A unit of measure, such as `s`, `ms`, `%` or `B`.
#[derive(Debug, PartialEq, Eq)]
pub struct Uom {
    tag: String,
}

impl View for Uom {
    type V = Seq<char>;

    closed spec fn view(&self) -> Seq<char> {
        self.tag@
    }
}

impl Uom {
    #[verifier::type_invariant]
    spec fn well_formed(self) -> bool {
        valid_unit(self.tag@)
    }

    /// Reads a unit tag. A text that is no unit tag is refused.
    pub fn parse(tag: &str) -> (parsed: Result<Uom, ConfigError>)
        ensures
            match parsed {
                Ok(uom) => valid_unit(tag@) && uom@ == tag@,
                Err(error) => error == ConfigError::InvalidUnit && !valid_unit(tag@),
            },
    {
        let n = tag.unicode_len();
        let mut i: usize = 0;
        while i < n
            invariant
                n == tag@.len(),
                i <= n,
                forall|j: int| 0 <= j < i ==> unit_char(#[trigger] tag@[j]),
            decreases n - i,
        {
            let c = tag.get_char(i);
            if ('0' <= c && c <= '9') || c == ';' || c == '\'' || c == '"' || c == ' ' || c == '\t'
                || c == '\n' || c == '\r' {
                return Err(ConfigError::InvalidUnit);
            }
            i = i + 1;
        }
        Ok(Uom { tag: String::from_str(tag) })
    }

    /// The tag.
    pub fn as_str(&self) -> (tag: &str)
        ensures
            tag@ == self@,
            valid_unit(tag@),
    {
        proof {
            use_type_invariant(self);
        }
        self.tag.as_str()
    }
}

/// A measured value, labelled and with its unit, together with the thresholds
/// that it was held against and the range that it can take.
#[derive(Debug, PartialEq, Eq)]
pub struct Metric<T> {
    pub label: String,
    pub value: T,
    pub uom: Uom,
    pub levels: Option<Level<T>>,
    pub min: Option<T>,
    pub max: Option<T>,
}

/// The text of a value that may be absent: nothing where it is.
pub open spec fn optional_text<T: Measure>(value: Option<T>) -> Seq<char> {
    match value {
        Some(v) => v.text(),
        None => Seq::empty(),
    }
}

/// Writes a value that may be absent.
pub fn render_optional<T: Measure>(value: &Option<T>) -> (out: String)
    ensures
        out@ == optional_text(*value),
{
    match value {
        Some(v) => v.render(),
        None => String::new(),
    }
}

impl<T> Metric<T> {
    /// The warning bound, if the metric has levels with one.
    pub open spec fn warn(&self) -> Option<T> {
        match self.levels {
            Some(levels) => levels.warn,
            None => None,
        }
    }

    /// The critical bound, if the metric has levels with one.
    pub open spec fn crit(&self) -> Option<T> {
        match self.levels {
            Some(levels) => levels.crit,
            None => None,
        }
    }

    /// A metric. The label must not be empty, and `unit` must be a unit tag.
    pub fn new(
        label: String,
        value: T,
        unit: &str,
        levels: Option<Level<T>>,
        min: Option<T>,
        max: Option<T>,
    ) -> (made: Result<Metric<T>, ConfigError>)
        ensures
            match made {
                Ok(metric) => label@.len() > 0 && valid_unit(unit@) && metric.label == label
                    && metric.value == value && metric.uom@ == unit@ && metric.levels == levels
                    && metric.min == min && metric.max == max,
                Err(error) => if label@.len() == 0 {
                    error == ConfigError::EmptyLabel
                } else {
                    error == ConfigError::InvalidUnit && !valid_unit(unit@)
                },
            },
    {
        if label.as_str().is_empty() {
            return Err(ConfigError::EmptyLabel);
        }
        match Uom::parse(unit) {
            Ok(uom) => Ok(Metric { label, value, uom, levels, min, max }),
            Err(error) => Err(error),
        }
    }
}

impl<T> Metric<T> {
    /// Whether `f` can be called on every value that the metric holds.
    pub open spec fn accepted_by<U, F: Fn(T) -> U>(self, f: F) -> bool {
        &&& call_requires(f, (self.value,))
        &&& self.levels matches Some(levels) ==> levels.accepted_by(f)
        &&& accepts(f, self.min)
        &&& accepts(f, self.max)
    }

    /// Whether `to` is this metric with `f` applied to every value that it
    /// holds. Label and unit are the same.
    pub open spec fn carried_to<U, F: Fn(T) -> U>(self, f: F, to: Metric<U>) -> bool {
        &&& to.label == self.label
        &&& to.uom == self.uom
        &&& call_ensures(f, (self.value,), to.value)
        &&& match (self.levels, to.levels) {
            (Some(from), Some(levels)) => from.carried_to(f, levels),
            (None, None) => true,
            _ => false,
        }
        &&& carries(f, self.min, to.min)
        &&& carries(f, self.max, to.max)
    }

    /// The metric with `f` applied to its value, its bounds and its range.
    pub fn map<U, F: Fn(T) -> U>(self, f: &F) -> (to: Metric<U>)
        requires
            self.accepted_by(*f),
        ensures
            self.carried_to(*f, to),
    {
        let levels = match self.levels {
            Some(levels) => Some(levels.map(f)),
            None => None,
        };
        Metric {
            label: self.label,
            value: f(self.value),
            uom: self.uom,
            levels,
            min: map_optional(f, self.min),
            max: map_optional(f, self.max),
        }
    }
}

impl<T: Measure> Metric<T> {
    /// The metric as an item of performance data:
    /// `label=value[unit];warn;crit;min;max`, where what is absent is left empty.
    pub open spec fn perf_text(&self) -> Seq<char> {
        self.label@ + "="@ + self.value.text() + self.uom@ + ";"@ + optional_text(self.warn())
            + ";"@ + optional_text(self.crit()) + ";"@ + optional_text(self.min) + ";"@
            + optional_text(self.max)
    }

    /// Writes the metric as an item of performance data.
    pub fn render(&self) -> (out: String)
        ensures
            out@ == self.perf_text(),
    {
        let mut out = self.label.clone();
        out.append("=");
        out.append(self.value.render().as_str());
        out.append(self.uom.as_str());
        out.append(";");
        match &self.levels {
            Some(levels) => {
                out.append(render_optional(&levels.warn).as_str());
                out.append(";");
                out.append(render_optional(&levels.crit).as_str());
            },
            None => {
                out.append(";");
            },
        }
        out.append(";");
        out.append(render_optional(&self.min).as_str());
        out.append(";");
        out.append(render_optional(&self.max).as_str());
        assert(out@ =~= self.perf_text());
        out
    }
}

} // verus!

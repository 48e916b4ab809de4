//! What can be wrong with a configuration.

use vstd::prelude::*;

verus! {

/// A configuration that is refused when it is made, before anything is sent.
#[derive(Clone, Copy, Debug, PartialEq, Eq, Structural)]
pub enum ConfigError {
    /// A metric without a label.
    EmptyLabel,
    /// A unit tag that holds a digit, a semicolon, a quote or white space.
    InvalidUnit,
    /// A critical bound that is reached before the warning bound.
    InvertedBounds,
}

} // verus!

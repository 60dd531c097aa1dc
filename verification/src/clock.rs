//! Spans of time, as the scanner's timeout and the monitor's interval hold them.

use vstd::prelude::*;
use core::time::Duration;

verus! {

/// The span of time of this many whole seconds.
pub uninterp spec fn span_of_secs(secs: u64) -> Duration;

/// The span of time of this many milliseconds.
pub uninterp spec fn span_of_millis(millis: u64) -> Duration;

/// `Duration::from_secs`: the duration of the given number of whole seconds.
pub assume_specification[ Duration::from_secs ](secs: u64) -> (d: Duration)
    ensures
        d == span_of_secs(secs),
;

/// `Duration::from_millis`: the duration of the given number of milliseconds.
pub assume_specification[ Duration::from_millis ](millis: u64) -> (d: Duration)
    ensures
        d == span_of_millis(millis),
;

} // verus!

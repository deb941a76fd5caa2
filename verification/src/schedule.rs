//! Planning of the seek positions sampled for candidate frames.
//!
//! Durations and positions are in nanoseconds, the clock unit of the media
//! source. Long streams are sampled only within their first third, to avoid
//! spoiling later content; short or unknown-length streams are sampled
//! across their whole range. Each percentage converts to an absolute
//! position by ceiling division, biasing slightly forward.

use vstd::prelude::*;

verus! {

use vstd::arithmetic::div_mod::{lemma_div_is_ordered, lemma_div_multiples_vanish_fancy};
use crate::arith::lemma_mul_bound;

/// Streams longer than this many nanoseconds (180 seconds) use the
/// confined, early sampling schedule.
pub const SEEK_THRESHOLD_NS: u64 = 180_000_000_000;

/// The five sampled percentages of the stream duration.
pub open spec fn seek_fractions(duration_ns: int) -> Seq<int> {
    if duration_ns > SEEK_THRESHOLD_NS {
        seq![10, 15, 20, 25, 30]
    } else {
        seq![10, 20, 30, 60, 90]
    }
}

/// `percent` percent of `duration`, rounded up.
pub open spec fn ceil_percent_of(duration: int, percent: int) -> int {
    (duration * percent + 99) / 100
}

/// The absolute seek targets: each sampled fraction of the duration,
/// rounded up to a whole nanosecond.
pub open spec fn seek_targets(duration_ns: int) -> Seq<int> {
    seek_fractions(duration_ns).map_values(|f: int| ceil_percent_of(duration_ns, f))
}

/// `percent` percent of `duration`, rounded up; never exceeds `duration`.
fn ceil_percent(duration: u64, percent: u64) -> (r: u64)
    requires
        percent <= 100,
    ensures
        r == ceil_percent_of(duration as int, percent as int),
        r <= duration,
{
    proof {
        lemma_mul_bound(duration as int, u64::MAX as int, percent as int, 100);
    }
    let n: u128 = (duration as u128) * (percent as u128) + 99;
    proof {
        assert(duration * percent <= duration * 100) by (nonlinear_arith)
            requires percent <= 100, duration >= 0;
        lemma_div_is_ordered(n as int, duration as int * 100 + 99, 100);
        lemma_div_multiples_vanish_fancy(duration as int, 99, 100);
        assert(duration as int * 100 + 99 == 100 * (duration as int) + 99);
    }
    (n / 100) as u64
}

/// Produces the five absolute seek positions for a stream of the given
/// duration (zero when unknown). The initial pre-seek frame at position 0
/// is an additional candidate that needs no seek, so it is not listed.
pub fn plan_seek_schedule(duration_ns: u64) -> (r: Vec<u64>)
    ensures
        r@.len() == seek_targets(duration_ns as int).len(),
        forall|i: int| 0 <= i < r@.len() ==> r@[i] == seek_targets(duration_ns as int)[i],
        forall|i: int| 0 <= i < r@.len() ==> r@[i] <= duration_ns,
{
    let mut targets: Vec<u64> = Vec::new();
    if duration_ns > SEEK_THRESHOLD_NS {
        targets.push(ceil_percent(duration_ns, 10));
        targets.push(ceil_percent(duration_ns, 15));
        targets.push(ceil_percent(duration_ns, 20));
        targets.push(ceil_percent(duration_ns, 25));
        targets.push(ceil_percent(duration_ns, 30));
    } else {
        targets.push(ceil_percent(duration_ns, 10));
        targets.push(ceil_percent(duration_ns, 20));
        targets.push(ceil_percent(duration_ns, 30));
        targets.push(ceil_percent(duration_ns, 60));
        targets.push(ceil_percent(duration_ns, 90));
    }
    targets
}

} // verus!

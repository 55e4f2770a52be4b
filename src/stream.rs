//! The simulated target track that a critical packet sets off: a fixed
//! number of coordinate updates, at a fixed interval, for a bounded
//! broadcast channel. Coordinates are in ten-thousandths of a degree.

use vstd::prelude::*;
use vstd::string::StringExecFns;

use crate::text::{decimal, digit_char, push_decimal, push_four_digits};

verus! {

/// Updates published per critical packet.
pub const TRACK_UPDATES: usize = 5;

/// Milliseconds between two updates.
pub const TRACK_INTERVAL_MS: u64 = 400;

/// Updates the broadcast channel buffers before it drops the oldest.
pub const TRACK_CHANNEL_CAPACITY: usize = 16;

/// Latitude of the first update.
pub const TRACK_START_LAT: u64 = 342345;

/// Longitude of the first update.
pub const TRACK_START_LON: u64 = 691234;

/// One update of the track, due `at_ms` after the track starts.
#[derive(Debug, Clone, Copy, PartialEq, Eq, Structural)]
pub struct Fix {
    pub at_ms: u64,
    pub lat_e4: u64,
    pub lon_e4: u64,
}

/// Update `i` of the track: one step north and two steps east per interval.
pub open spec fn fix_at(i: nat) -> Fix {
    Fix {
        at_ms: (i * TRACK_INTERVAL_MS) as u64,
        lat_e4: (TRACK_START_LAT + i) as u64,
        lon_e4: (TRACK_START_LON + 2 * i) as u64,
    }
}

/// A track's first update is due at once, each later one exactly one
/// interval after the one before, and the last one after four intervals.
pub proof fn lemma_track_spacing(i: nat)
    requires
        i + 1 < TRACK_UPDATES,
    ensures
        fix_at(0).at_ms == 0,
        fix_at(i + 1).at_ms == fix_at(i).at_ms + TRACK_INTERVAL_MS,
        fix_at((TRACK_UPDATES - 1) as nat).at_ms == 1600,
{
    assert((i + 1) * TRACK_INTERVAL_MS == i * TRACK_INTERVAL_MS + TRACK_INTERVAL_MS) by (nonlinear_arith);
}

/// `n` ten-thousandths written as a decimal with four fractional digits.
pub open spec fn fixed4(n: nat) -> Seq<char> {
    decimal(n / 10000) + "."@ + seq![
        digit_char((n / 1000) % 10),
        digit_char((n / 100) % 10),
        digit_char((n / 10) % 10),
        digit_char(n % 10),
    ]
}

/// The text published for update `f`.
pub open spec fn fix_text(f: Fix) -> Seq<char> {
    "[DRONE STREAM] lat="@ + fixed4(f.lat_e4 as nat) + ", lon="@ + fixed4(f.lon_e4 as nat)
}

/// The updates of one track, in order of publication.
pub fn target_track() -> (r: Vec<Fix>)
    ensures
        r@.len() == TRACK_UPDATES,
        forall|i: int| 0 <= i < TRACK_UPDATES ==> #[trigger] r@[i] == fix_at(i as nat),
{
    let mut r: Vec<Fix> = Vec::with_capacity(TRACK_UPDATES);
    let mut i: u64 = 0;
    while i < TRACK_UPDATES as u64
        invariant
            i <= TRACK_UPDATES,
            r@.len() == i,
            forall|j: int| 0 <= j < i ==> #[trigger] r@[j] == fix_at(j as nat),
        decreases TRACK_UPDATES - i,
    {
        r.push(Fix { at_ms: i * TRACK_INTERVAL_MS, lat_e4: TRACK_START_LAT + i, lon_e4: TRACK_START_LON + 2 * i });
        i = i + 1;
    }
    r
}

/// Append `n` ten-thousandths as a decimal with four fractional digits.
fn push_fixed4(out: &mut String, n: u64)
    ensures
        final(out)@ == old(out)@ + fixed4(n as nat),
{
    push_decimal(out, n / 10000);
    out.append(".");
    push_four_digits(out, n);
    assert(final(out)@ =~= old(out)@ + fixed4(n as nat));
}

/// The text published for update `f`.
pub fn fix_message(f: &Fix) -> (r: String)
    ensures
        r@ == fix_text(*f),
{
    let mut r = String::from_str("[DRONE STREAM] lat=");
    push_fixed4(&mut r, f.lat_e4);
    r.append(", lon=");
    push_fixed4(&mut r, f.lon_e4);
    assert(r@ =~= fix_text(*f));
    r
}

} // verus!

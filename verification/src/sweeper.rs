//! The daily sweep of expired bans: when it runs, and which instance runs it.
use vstd::prelude::*;
use crate::clock::Timestamp;

verus! {

/// Nanoseconds in a second.
pub const NANOS_PER_SEC: u64 = 1_000_000_000;

/// Seconds in a day.
pub const SECS_PER_DAY: i64 = 86400;

/// The sweep runs at 03:00 UTC: this many seconds into the day.
pub const SWEEP_SECS_INTO_DAY: i64 = 10800;

/// How long to wait before the next sweep.
#[derive(Clone, Copy, PartialEq, Eq, Structural, Debug)]
pub struct SweepWait {
    pub secs: u64,
    pub nanos: u32,
}

/// The instant `secs` seconds and `nanos` nanoseconds after the epoch, in nanoseconds.
pub open spec fn spec_ns(secs: int, nanos: int) -> int {
    secs * 1_000_000_000 + nanos
}

/// The wait until the first 03:00 UTC that lies strictly after `now`: it ends on a
/// 03:00, and is more than nothing and at most a day.
pub open spec fn spec_is_wait_until_sweep(now_secs: int, now_nanos: int, w: SweepWait) -> bool {
    let wait = spec_ns(w.secs as int, w.nanos as int);
    let next = spec_ns(now_secs, now_nanos) + wait;
    &&& 0 < wait <= spec_ns(SECS_PER_DAY as int, 0)
    &&& next % spec_ns(SECS_PER_DAY as int, 0) == spec_ns(SWEEP_SECS_INTO_DAY as int, 0)
    &&& w.nanos < 1_000_000_000
}

/// The wait from `now` (seconds and nanoseconds since the epoch) until the next sweep:
/// 03:00 UTC of today, or of tomorrow where that time has come.
pub fn wait_until_next_sweep(secs: i64, nanos: u32) -> (r: SweepWait)
    requires
        -0x7fff_ffff_fff0_0000 <= secs <= 0x7fff_ffff_fff0_0000,
        nanos < 1_000_000_000,
    ensures
        spec_is_wait_until_sweep(secs as int, nanos as int, r),
{
    let mut into_day = secs % SECS_PER_DAY;
    if into_day < 0 {
        into_day = into_day + SECS_PER_DAY;
    }
    let day_start = secs - into_day;
    let mut next = day_start + SWEEP_SECS_INTO_DAY;
    if secs >= next {
        next = next + SECS_PER_DAY;
    }
    let whole = (next - secs) as u64;
    let r = if nanos == 0 {
        SweepWait { secs: whole, nanos: 0 }
    } else {
        SweepWait { secs: whole - 1, nanos: 1_000_000_000 - nanos }
    };
    assert(day_start as int % SECS_PER_DAY as int == 0);
    assert(spec_ns(day_start as int, 0) % spec_ns(SECS_PER_DAY as int, 0) == 0) by {
        let k = day_start as int / SECS_PER_DAY as int;
        assert(day_start as int == k * SECS_PER_DAY as int);
        assert(spec_ns(day_start as int, 0) == k * spec_ns(SECS_PER_DAY as int, 0)) by (nonlinear_arith)
            requires day_start as int == k * 86400;
        vstd::arithmetic::div_mod::lemma_mod_multiples_basic(k, spec_ns(SECS_PER_DAY as int, 0));
    }
    let ghost base = spec_ns(day_start as int, 0);
    let ghost next_ns = spec_ns(secs as int, nanos as int) + spec_ns(r.secs as int, r.nanos as int);
    assert(next_ns == spec_ns(next as int, 0));
    assert(next_ns % spec_ns(SECS_PER_DAY as int, 0) == spec_ns(SWEEP_SECS_INTO_DAY as int, 0)) by {
        let d = spec_ns(SECS_PER_DAY as int, 0);
        let off = next_ns - base;
        assert(off == spec_ns(SWEEP_SECS_INTO_DAY as int, 0) || off == spec_ns(SWEEP_SECS_INTO_DAY as int, 0) + d);
        vstd::arithmetic::div_mod::lemma_mod_adds(base, off, d);
        if off == spec_ns(SWEEP_SECS_INTO_DAY as int, 0) + d {
            vstd::arithmetic::div_mod::lemma_mod_adds(spec_ns(SWEEP_SECS_INTO_DAY as int, 0), d, d);
        }
        vstd::arithmetic::div_mod::lemma_small_mod(spec_ns(SWEEP_SECS_INTO_DAY as int, 0) as nat, d as nat);
        vstd::arithmetic::div_mod::lemma_mod_self_0(d);
    }
    r
}

/// Whether this instance runs the sweep: only where it took the lock (the reply to
/// setting the lock key if absent was a value).
pub fn acquired_sweep_lock(reply: Option<String>) -> (r: bool)
    ensures
        r == reply is Some,
{
    reply.is_some()
}

/// The wait from the current instant until the next sweep.
pub fn wait_from_now() -> (r: SweepWait)
    ensures
        exists|s: int, n: int| s >= 0 && 0 <= n < 1_000_000_000 && spec_is_wait_until_sweep(s, n, r),
{
    let now = Timestamp::now();
    let secs = now.secs();
    let nanos = now.nanos();
    wait_until_next_sweep(secs, nanos)
}

} // verus!

//! The progress tracker: a counter, a time-gated emission policy, and the
//! throughput and remaining-time math behind each emitted status line.
//!
//! Time is measured in whole milliseconds since the tracker was started.
//! Throughput and remaining time are fixed-point values in hundredths
//! (items per second, and seconds), so every figure in a status line is an
//! exact function of the counter and the clock readings.

use vstd::prelude::*;

use crate::platform::{
    elapsed_ms_since, instant_now, refresh_memory, system_new, used_memory_bytes, used_swap_bytes,
};
use crate::pretty::{
    plain_fix2, plain_fix2_spec, pretty_fix2, pretty_fix2_spec, pretty_spec, pretty_u64, Fix2,
};

verus! {

/// An elapsed time of zero is treated as one millisecond, so that throughput
/// is always defined.
pub open spec fn effective_ms(elapsed_ms: nat) -> nat {
    if elapsed_ms == 0 {
        1
    } else {
        elapsed_ms
    }
}

/// Throughput in hundredths of an item per second: count divided by the
/// elapsed seconds, saturating at u64::MAX hundredths.
pub open spec fn throughput_spec(count: nat, elapsed_ms: nat) -> nat {
    let t = count * 100_000 / effective_ms(elapsed_ms);
    if t > u64::MAX {
        u64::MAX as nat
    } else {
        t
    }
}

/// How many items are still owed; zero once the count has passed the target.
pub open spec fn remaining_spec(expected: nat, count: nat) -> nat {
    if count >= expected {
        0
    } else {
        (expected - count) as nat
    }
}

/// Estimated time to completion in hundredths of a second: the remaining
/// items divided by the throughput, saturating at u64::MAX; if no progress
/// was made yet (throughput zero), the estimate is u64::MAX, an "unbounded"
/// sentinel.
pub open spec fn eta_spec(expected: nat, count: nat, elapsed_ms: nat) -> nat {
    let tp = throughput_spec(count, elapsed_ms);
    if tp == 0 {
        u64::MAX as nat
    } else {
        let e = remaining_spec(expected, count) * 10_000 / tp;
        if e > u64::MAX {
            u64::MAX as nat
        } else {
            e
        }
    }
}

/// The emission gate: open once strictly more than the configured interval
/// has passed since the last emission.
pub open spec fn gate_open(now_ms: nat, last_ms: nat, interval_ms: nat) -> bool {
    now_ms > last_ms + interval_ms
}

/// An elapsed time rendered as seconds with two decimals, e.g. "12.34s".
pub open spec fn elapsed_str_spec(elapsed_ms: nat) -> Seq<char> {
    plain_fix2_spec(elapsed_ms / 10) + "s"@
}

/// The status line emitted while tracking: memory and swap usage, elapsed
/// time, the formatted count with its label, the estimated time left when a
/// target is known, and the formatted throughput.
pub open spec fn progress_line_spec(
    mem_kb: nat,
    swap_kb: nat,
    elapsed_ms: nat,
    count: nat,
    expected: Option<u64>,
    items: Seq<char>,
) -> Seq<char> {
    let head = "[mem: "@ + pretty_spec(mem_kb) + " kB, swap: "@ + pretty_spec(swap_kb) + " kB] "@
        + elapsed_str_spec(elapsed_ms) + " "@ + pretty_spec(count) + " "@ + items;
    let tail = " ("@ + pretty_fix2_spec(throughput_spec(count, elapsed_ms)) + " "@ + items
        + "/s)"@;
    match expected {
        Some(e) => head + ", "@ + pretty_fix2_spec(eta_spec(e as nat, count, elapsed_ms))
            + " s left"@ + tail,
        None => head + tail,
    }
}

/// The final line emitted by stop: total elapsed time, the formatted count
/// with its label, and the overall throughput.
pub open spec fn stop_line_spec(elapsed_ms: nat, count: nat, items: Seq<char>) -> Seq<char> {
    "Done in "@ + elapsed_str_spec(elapsed_ms) + ". "@ + pretty_spec(count) + " "@ + items + " ("@
        + pretty_fix2_spec(throughput_spec(count, elapsed_ms)) + " "@ + items + "/s)"@
}

/// Computes the throughput figure exactly as `throughput_spec` states it.
pub fn compute_throughput(count: u64, elapsed_ms: u64) -> (t: u64)
    ensures
        t as nat == throughput_spec(count as nat, elapsed_ms as nat),
{
    let eff: u64 = if elapsed_ms == 0 {
        1
    } else {
        elapsed_ms
    };
    proof {
        assert((count as u128) * 100_000 <= (u64::MAX as u128) * 100_000) by (nonlinear_arith)
            requires
                count as u128 <= u64::MAX as u128,
        ;
    }
    let prod: u128 = (count as u128) * 100_000u128;
    let q: u128 = prod / (eff as u128);
    if q > u64::MAX as u128 {
        u64::MAX
    } else {
        q as u64
    }
}

/// Computes the remaining-time figure exactly as `eta_spec` states it.
pub fn compute_eta(expected: u64, count: u64, elapsed_ms: u64) -> (e: u64)
    ensures
        e as nat == eta_spec(expected as nat, count as nat, elapsed_ms as nat),
{
    let tp: u64 = compute_throughput(count, elapsed_ms);
    if tp == 0 {
        u64::MAX
    } else {
        let rem: u64 = if count >= expected {
            0
        } else {
            expected - count
        };
        proof {
            assert((rem as u128) * 10_000 <= (u64::MAX as u128) * 10_000) by (nonlinear_arith)
                requires
                    rem as u128 <= u64::MAX as u128,
            ;
        }
        let prod: u128 = (rem as u128) * 10_000u128;
        let q: u128 = prod / (tp as u128);
        if q > u64::MAX as u128 {
            u64::MAX
        } else {
            q as u64
        }
    }
}

fn elapsed_str(elapsed_ms: u64) -> (s: String)
    ensures
        s@ == elapsed_str_spec(elapsed_ms as nat),
{
    let mut s = plain_fix2(elapsed_ms / 10);
    s.append("s");
    s
}

/// Builds the in-flight status line exactly as `progress_line_spec` states
/// it.
fn progress_line(
    mem_kb: u64,
    swap_kb: u64,
    elapsed_ms: u64,
    count: u64,
    expected: Option<u64>,
    items: &str,
) -> (line: String)
    ensures
        line@ == progress_line_spec(
            mem_kb as nat,
            swap_kb as nat,
            elapsed_ms as nat,
            count as nat,
            expected,
            items@,
        ),
{
    let mut line = String::from_str("[mem: ");
    line.append(pretty_u64(mem_kb).as_str());
    line.append(" kB, swap: ");
    line.append(pretty_u64(swap_kb).as_str());
    line.append(" kB] ");
    line.append(elapsed_str(elapsed_ms).as_str());
    line.append(" ");
    line.append(pretty_u64(count).as_str());
    line.append(" ");
    line.append(items);
    match expected {
        Some(e) => {
            line.append(", ");
            line.append(
                pretty_fix2(Fix2 { hundredths: compute_eta(e, count, elapsed_ms) }).as_str(),
            );
            line.append(" s left");
        },
        None => {},
    }
    line.append(" (");
    line.append(pretty_fix2(Fix2 { hundredths: compute_throughput(count, elapsed_ms) }).as_str());
    line.append(" ");
    line.append(items);
    line.append("/s)");
    proof {
        assert(line@ =~= progress_line_spec(
            mem_kb as nat,
            swap_kb as nat,
            elapsed_ms as nat,
            count as nat,
            expected,
            items@,
        ));
    }
    line
}

/// Builds the final line exactly as `stop_line_spec` states it.
fn stop_line(elapsed_ms: u64, count: u64, items: &str) -> (line: String)
    ensures
        line@ == stop_line_spec(elapsed_ms as nat, count as nat, items@),
{
    let mut line = String::from_str("Done in ");
    line.append(elapsed_str(elapsed_ms).as_str());
    line.append(". ");
    line.append(pretty_u64(count).as_str());
    line.append(" ");
    line.append(items);
    line.append(" (");
    line.append(pretty_fix2(Fix2 { hundredths: compute_throughput(count, elapsed_ms) }).as_str());
    line.append(" ");
    line.append(items);
    line.append("/s)");
    proof {
        assert(line@ =~= stop_line_spec(elapsed_ms as nat, count as nat, items@));
    }
    line
}

/// The sum of a sequence of increments.
pub open spec fn sum_of(ns: Seq<u64>) -> int
    decreases ns.len(),
{
    if ns.len() == 0 {
        0
    } else {
        ns[0] + sum_of(ns.skip(1))
    }
}

/// The counter value after applying a sequence of increments one by one, as
/// every update method does (each one adds its argument to the counter,
/// whether or not a line is emitted).
pub open spec fn count_after(c: int, ns: Seq<u64>) -> int
    decreases ns.len(),
{
    if ns.len() == 0 {
        c
    } else {
        count_after(c + ns[0], ns.skip(1))
    }
}

/// Law: after any sequence of update calls the counter equals the starting
/// value plus the sum of all the increments, however the calls were batched
/// and whatever the clock did in between.
pub proof fn lemma_count_is_sum(c: int, ns: Seq<u64>)
    ensures
        count_after(c, ns) == c + sum_of(ns),
    decreases ns.len(),
{
    if ns.len() != 0 {
        lemma_count_is_sum(c + ns[0], ns.skip(1));
    }
}

/// Law: `up` adds one, so `k` calls of `up` reach the same counter value as
/// a single `update(k)`.
pub proof fn lemma_up_k_equals_update_k(c: int, k: u64)
    ensures
        count_after(c, Seq::new(k as nat, |i: int| 1u64)) == count_after(c, seq![k]),
    decreases k,
{
    let ones = Seq::new(k as nat, |i: int| 1u64);
    assert(count_after(c, seq![k]) == count_after(c + k, seq![k].skip(1)));
    assert(seq![k].skip(1) =~= Seq::<u64>::empty());
    if k == 0 {
        assert(ones =~= Seq::<u64>::empty());
    } else {
        assert(ones.skip(1) =~= Seq::new((k - 1) as nat, |i: int| 1u64));
        lemma_up_k_equals_update_k(c + 1, (k - 1) as u64);
        assert(count_after(c + 1, seq![(k - 1) as u64]) == count_after(
            c + k,
            seq![(k - 1) as u64].skip(1),
        ));
        assert(seq![(k - 1) as u64].skip(1) =~= Seq::<u64>::empty());
    }
}

/// A tool to report the progress of long-running computations. Configure and
/// start it through `ProgressLogger::builder`. Each update method adds to an
/// internal counter and, when enough wall-clock time has passed since the
/// last report, hands back one status line meant for an informational log
/// sink; `stop` always hands back one final line.
pub struct ProgressLogger {
    start: std::time::Instant,
    count: u64,
    expected_updates: Option<u64>,
    items: String,
    last_logged_ms: u64,
    ettc_hundredths: Option<u64>,
    throughput_hundredths: Option<u64>,
    frequency_ms: u64,
    system: sysinfo::System,
}

impl ProgressLogger {
    /// The cumulative number of items counted so far.
    pub closed spec fn spec_count(&self) -> u64 {
        self.count
    }

    /// The configured target count, if one was given.
    pub closed spec fn spec_expected(&self) -> Option<u64> {
        self.expected_updates
    }

    /// The label naming the counted items.
    pub closed spec fn spec_items(&self) -> Seq<char> {
        self.items@
    }

    /// The minimum wall-clock gap between two update-driven emissions.
    pub closed spec fn spec_frequency_ms(&self) -> u64 {
        self.frequency_ms
    }

    /// The elapsed time, in milliseconds since start, of the last emission
    /// (zero if none happened yet).
    pub closed spec fn spec_last_logged_ms(&self) -> u64 {
        self.last_logged_ms
    }

    /// The throughput cached at the last emission, in hundredths of an item
    /// per second.
    pub closed spec fn spec_throughput(&self) -> Option<u64> {
        self.throughput_hundredths
    }

    /// The time-to-completion estimate cached at the last emission, in
    /// hundredths of a second.
    pub closed spec fn spec_eta(&self) -> Option<u64> {
        self.ettc_hundredths
    }

    /// Without a target count there is never a time-to-completion estimate.
    pub open spec fn wf(&self) -> bool {
        self.spec_expected() is None ==> self.spec_eta() is None
    }

    /// The configuration fixed at construction never changes afterwards.
    pub open spec fn same_config(&self, other: &Self) -> bool {
        &&& self.spec_expected() == other.spec_expected()
        &&& self.spec_items() == other.spec_items()
        &&& self.spec_frequency_ms() == other.spec_frequency_ms()
    }

    /// Creates a builder to configure a new progress logger.
    pub fn builder() -> (b: ProgressLoggerBuilder)
        ensures
            b.spec_expected() is None,
            b.spec_items() is None,
            b.spec_frequency_ms() is None,
    {
        ProgressLoggerBuilder { expected_updates: None, items: None, frequency_ms: None }
    }

    /// Emits one status line now: computes and caches throughput (and the
    /// remaining-time estimate when a target is known) and records this
    /// moment as the last emission.
    fn emit_line(&mut self, now_ms: u64, mem_kb: u64, swap_kb: u64) -> (line: String)
        requires
            old(self).wf(),
        ensures
            final(self).wf(),
            final(self).spec_count() == old(self).spec_count(),
            final(self).same_config(old(self)),
            line@ == progress_line_spec(
                mem_kb as nat,
                swap_kb as nat,
                now_ms as nat,
                old(self).spec_count() as nat,
                old(self).spec_expected(),
                old(self).spec_items(),
            ),
            final(self).spec_last_logged_ms() == now_ms,
            final(self).spec_throughput() == Some(
                throughput_spec(old(self).spec_count() as nat, now_ms as nat) as u64,
            ),
            final(self).spec_eta() == (match old(self).spec_expected() {
                Some(e) => Some(
                    eta_spec(e as nat, old(self).spec_count() as nat, now_ms as nat) as u64,
                ),
                None => None::<u64>,
            }),
    {
        let tp: u64 = compute_throughput(self.count, now_ms);
        self.throughput_hundredths = Some(tp);
        match self.expected_updates {
            Some(e) => {
                let eta: u64 = compute_eta(e, self.count, now_ms);
                self.ettc_hundredths = Some(eta);
            },
            None => {},
        }
        let line = progress_line(
            mem_kb,
            swap_kb,
            now_ms,
            self.count,
            self.expected_updates,
            self.items.as_str(),
        );
        self.last_logged_ms = now_ms;
        line
    }

    /// Adds `n` to the counter; with the clock reading and the memory sample
    /// given from outside, emission is an exact function of the inputs: a
    /// line comes back if and only if strictly more than the configured
    /// interval passed since the last emission.
    pub fn update_at(&mut self, n: u64, now_ms: u64, mem_kb: u64, swap_kb: u64) -> (r: Option<
        String,
    >)
        requires
            old(self).wf(),
            old(self).spec_count() + n <= u64::MAX,
        ensures
            final(self).wf(),
            final(self).spec_count() == old(self).spec_count() + n,
            final(self).same_config(old(self)),
            ({
                let c2 = (old(self).spec_count() + n) as nat;
                if gate_open(
                    now_ms as nat,
                    old(self).spec_last_logged_ms() as nat,
                    old(self).spec_frequency_ms() as nat,
                ) {
                    &&& r is Some
                    &&& r.unwrap()@ == progress_line_spec(
                        mem_kb as nat,
                        swap_kb as nat,
                        now_ms as nat,
                        c2,
                        old(self).spec_expected(),
                        old(self).spec_items(),
                    )
                    &&& final(self).spec_last_logged_ms() == now_ms
                    &&& final(self).spec_throughput() == Some(
                        throughput_spec(c2, now_ms as nat) as u64,
                    )
                    &&& final(self).spec_eta() == (match old(self).spec_expected() {
                        Some(e) => Some(eta_spec(e as nat, c2, now_ms as nat) as u64),
                        None => None::<u64>,
                    })
                } else {
                    &&& r is None
                    &&& final(self).spec_last_logged_ms() == old(self).spec_last_logged_ms()
                    &&& final(self).spec_throughput() == old(self).spec_throughput()
                    &&& final(self).spec_eta() == old(self).spec_eta()
                }
            }),
    {
        self.count = self.count + n;
        if now_ms > self.last_logged_ms && now_ms - self.last_logged_ms > self.frequency_ms {
            Some(self.emit_line(now_ms, mem_kb, swap_kb))
        } else {
            None
        }
    }

    /// Adds `n` to the counter; the clock reading matters only when the new
    /// count is an exact multiple of one million, so a line comes back if
    /// and only if both that and the time condition hold.
    pub fn update_light_at(&mut self, n: u64, now_ms: u64, mem_kb: u64, swap_kb: u64) -> (r:
        Option<String>)
        requires
            old(self).wf(),
            old(self).spec_count() + n <= u64::MAX,
        ensures
            final(self).wf(),
            final(self).spec_count() == old(self).spec_count() + n,
            final(self).same_config(old(self)),
            ({
                let c2 = (old(self).spec_count() + n) as nat;
                if c2 % 1_000_000 == 0 && gate_open(
                    now_ms as nat,
                    old(self).spec_last_logged_ms() as nat,
                    old(self).spec_frequency_ms() as nat,
                ) {
                    &&& r is Some
                    &&& r.unwrap()@ == progress_line_spec(
                        mem_kb as nat,
                        swap_kb as nat,
                        now_ms as nat,
                        c2,
                        old(self).spec_expected(),
                        old(self).spec_items(),
                    )
                    &&& final(self).spec_last_logged_ms() == now_ms
                    &&& final(self).spec_throughput() == Some(
                        throughput_spec(c2, now_ms as nat) as u64,
                    )
                    &&& final(self).spec_eta() == (match old(self).spec_expected() {
                        Some(e) => Some(eta_spec(e as nat, c2, now_ms as nat) as u64),
                        None => None::<u64>,
                    })
                } else {
                    &&& r is None
                    &&& final(self).spec_last_logged_ms() == old(self).spec_last_logged_ms()
                    &&& final(self).spec_throughput() == old(self).spec_throughput()
                    &&& final(self).spec_eta() == old(self).spec_eta()
                }
            }),
    {
        self.count = self.count + n;
        if self.count % 1_000_000 == 0 && now_ms > self.last_logged_ms && now_ms
            - self.last_logged_ms > self.frequency_ms {
            Some(self.emit_line(now_ms, mem_kb, swap_kb))
        } else {
            None
        }
    }

    /// Adds `n` to the counter and reads the clock; when the configured
    /// interval has passed since the last emission, samples memory and hands
    /// back one status line. Whatever the clock read, the counter grows by
    /// exactly `n`, and without an emission nothing else changes.
    pub fn update(&mut self, n: u64) -> (r: Option<String>)
        requires
            old(self).wf(),
            old(self).spec_count() + n <= u64::MAX,
        ensures
            final(self).wf(),
            final(self).spec_count() == old(self).spec_count() + n,
            final(self).same_config(old(self)),
            r is None ==> ({
                &&& final(self).spec_last_logged_ms() == old(self).spec_last_logged_ms()
                &&& final(self).spec_throughput() == old(self).spec_throughput()
                &&& final(self).spec_eta() == old(self).spec_eta()
            }),
            r is Some ==> ({
                &&& final(self).spec_last_logged_ms() > old(self).spec_last_logged_ms() + old(
                    self,
                ).spec_frequency_ms()
                &&& final(self).spec_throughput() == Some(
                    throughput_spec(
                        final(self).spec_count() as nat,
                        final(self).spec_last_logged_ms() as nat,
                    ) as u64,
                )
                &&& final(self).spec_eta() == (match old(self).spec_expected() {
                    Some(e) => Some(
                        eta_spec(
                            e as nat,
                            final(self).spec_count() as nat,
                            final(self).spec_last_logged_ms() as nat,
                        ) as u64,
                    ),
                    None => None::<u64>,
                })
            }),
    {
        let now_ms: u64 = elapsed_ms_since(&self.start);
        if now_ms > self.last_logged_ms && now_ms - self.last_logged_ms > self.frequency_ms {
            refresh_memory(&mut self.system);
            let mem_kb: u64 = used_memory_bytes(&self.system) / 1024;
            let swap_kb: u64 = used_swap_bytes(&self.system) / 1024;
            self.update_at(n, now_ms, mem_kb, swap_kb)
        } else {
            self.count = self.count + n;
            None
        }
    }

    /// Adds `n` to the counter, and only when the new count is an exact
    /// multiple of one million consults the clock and possibly emits. An
    /// order of magnitude cheaper per call than `update` in hot loops.
    pub fn update_light(&mut self, n: u64) -> (r: Option<String>)
        requires
            old(self).wf(),
            old(self).spec_count() + n <= u64::MAX,
        ensures
            final(self).wf(),
            final(self).spec_count() == old(self).spec_count() + n,
            final(self).same_config(old(self)),
            r is None ==> ({
                &&& final(self).spec_last_logged_ms() == old(self).spec_last_logged_ms()
                &&& final(self).spec_throughput() == old(self).spec_throughput()
                &&& final(self).spec_eta() == old(self).spec_eta()
            }),
            r is Some ==> ({
                &&& final(self).spec_count() % 1_000_000 == 0
                &&& final(self).spec_last_logged_ms() > old(self).spec_last_logged_ms() + old(
                    self,
                ).spec_frequency_ms()
                &&& final(self).spec_throughput() == Some(
                    throughput_spec(
                        final(self).spec_count() as nat,
                        final(self).spec_last_logged_ms() as nat,
                    ) as u64,
                )
                &&& final(self).spec_eta() == (match old(self).spec_expected() {
                    Some(e) => Some(
                        eta_spec(
                            e as nat,
                            final(self).spec_count() as nat,
                            final(self).spec_last_logged_ms() as nat,
                        ) as u64,
                    ),
                    None => None::<u64>,
                })
            }),
    {
        let new_count: u64 = self.count + n;
        if new_count % 1_000_000 == 0 {
            let now_ms: u64 = elapsed_ms_since(&self.start);
            if now_ms > self.last_logged_ms && now_ms - self.last_logged_ms > self.frequency_ms {
                refresh_memory(&mut self.system);
                let mem_kb: u64 = used_memory_bytes(&self.system) / 1024;
                let swap_kb: u64 = used_swap_bytes(&self.system) / 1024;
                return self.update_light_at(n, now_ms, mem_kb, swap_kb);
            }
        }
        self.count = self.count + n;
        None
    }

    /// Adds one to the counter: shorthand for `update(1)`, with the same
    /// contract.
    pub fn up(&mut self) -> (r: Option<String>)
        requires
            old(self).wf(),
            old(self).spec_count() < u64::MAX,
        ensures
            final(self).wf(),
            final(self).spec_count() == old(self).spec_count() + 1,
            final(self).same_config(old(self)),
            r is None ==> ({
                &&& final(self).spec_last_logged_ms() == old(self).spec_last_logged_ms()
                &&& final(self).spec_throughput() == old(self).spec_throughput()
                &&& final(self).spec_eta() == old(self).spec_eta()
            }),
            r is Some ==> ({
                &&& final(self).spec_last_logged_ms() > old(self).spec_last_logged_ms() + old(
                    self,
                ).spec_frequency_ms()
                &&& final(self).spec_throughput() == Some(
                    throughput_spec(
                        final(self).spec_count() as nat,
                        final(self).spec_last_logged_ms() as nat,
                    ) as u64,
                )
                &&& final(self).spec_eta() == (match old(self).spec_expected() {
                    Some(e) => Some(
                        eta_spec(
                            e as nat,
                            final(self).spec_count() as nat,
                            final(self).spec_last_logged_ms() as nat,
                        ) as u64,
                    ),
                    None => None::<u64>,
                })
            }),
    {
        self.update(1)
    }

    /// The time-to-completion estimate cached at the most recent emission,
    /// in hundredths of a second; absent before any emission, and always
    /// absent when no target count was configured.
    pub fn time_to_completion(&self) -> (r: Option<Fix2>)
        ensures
            match self.spec_eta() {
                Some(h) => r == Some(Fix2 { hundredths: h }),
                None => r is None,
            },
            self.wf() && self.spec_expected() is None ==> r is None,
    {
        match self.ettc_hundredths {
            Some(h) => Some(Fix2 { hundredths: h }),
            None => None,
        }
    }

    /// The throughput cached at the most recent emission, in hundredths of
    /// an item per second; absent before any emission.
    pub fn throughput(&self) -> (r: Option<Fix2>)
        ensures
            match self.spec_throughput() {
                Some(h) => r == Some(Fix2 { hundredths: h }),
                None => r is None,
            },
    {
        match self.throughput_hundredths {
            Some(h) => Some(Fix2 { hundredths: h }),
            None => None,
        }
    }

    /// Consumes the tracker and hands back the final line for the given
    /// clock reading, bypassing the emission gate: exactly one line, always.
    pub fn stop_at(self, now_ms: u64) -> (line: String)
        ensures
            line@ == stop_line_spec(now_ms as nat, self.spec_count() as nat, self.spec_items()),
    {
        stop_line(now_ms, self.count, self.items.as_str())
    }

    /// Consumes the tracker, reads the clock once more and hands back the
    /// final line unconditionally: exactly one line, whatever the clock
    /// read and even if the counter is still zero.
    pub fn stop(self) -> (line: String)
        ensures
            exists|e_ms: u64|
                line@ == stop_line_spec(
                    e_ms as nat,
                    self.spec_count() as nat,
                    self.spec_items(),
                ),
    {
        let now_ms: u64 = elapsed_ms_since(&self.start);
        let line = self.stop_at(now_ms);
        proof {
            assert(line@ == stop_line_spec(
                now_ms as nat,
                self.spec_count() as nat,
                self.spec_items(),
            ));
        }
        line
    }
}

/// Builds a new progress logger. All the configuration steps are optional;
/// obtain one through `ProgressLogger::builder`.
pub struct ProgressLoggerBuilder {
    expected_updates: Option<u64>,
    items: Option<String>,
    frequency_ms: Option<u64>,
}

impl ProgressLoggerBuilder {
    /// The configured target count, if any.
    pub closed spec fn spec_expected(&self) -> Option<u64> {
        self.expected_updates
    }

    /// The configured items label, if any.
    pub closed spec fn spec_items(&self) -> Option<Seq<char>> {
        match self.items {
            Some(s) => Some(s@),
            None => None,
        }
    }

    /// The configured emission interval in milliseconds, if any.
    pub closed spec fn spec_frequency_ms(&self) -> Option<u64> {
        self.frequency_ms
    }

    /// Configures the expected total number of updates, enabling the
    /// time-to-completion estimate.
    pub fn with_expected_updates(self, updates: u64) -> (b: Self)
        ensures
            b.spec_expected() == Some(updates),
            b.spec_items() == self.spec_items(),
            b.spec_frequency_ms() == self.spec_frequency_ms(),
    {
        ProgressLoggerBuilder {
            expected_updates: Some(updates),
            items: self.items,
            frequency_ms: self.frequency_ms,
        }
    }

    /// Sets the name of the items being counted.
    pub fn with_items_name(self, name: &str) -> (b: Self)
        ensures
            b.spec_items() == Some(name@),
            b.spec_expected() == self.spec_expected(),
            b.spec_frequency_ms() == self.spec_frequency_ms(),
    {
        ProgressLoggerBuilder {
            expected_updates: self.expected_updates,
            items: Some(String::from_str(name)),
            frequency_ms: self.frequency_ms,
        }
    }

    /// Sets the minimum wall-clock gap between two reports, in milliseconds.
    pub fn with_frequency(self, frequency_ms: u64) -> (b: Self)
        ensures
            b.spec_frequency_ms() == Some(frequency_ms),
            b.spec_expected() == self.spec_expected(),
            b.spec_items() == self.spec_items(),
    {
        ProgressLoggerBuilder {
            expected_updates: self.expected_updates,
            items: self.items,
            frequency_ms: Some(frequency_ms),
        }
    }

    /// Builds the `ProgressLogger`, applying the defaults ("updates" as the
    /// label, ten seconds between reports) and starting the internal timer.
    pub fn start(self) -> (pl: ProgressLogger)
        ensures
            pl.wf(),
            pl.spec_count() == 0,
            pl.spec_expected() == self.spec_expected(),
            pl.spec_items() == (match self.spec_items() {
                Some(s) => s,
                None => "updates"@,
            }),
            pl.spec_frequency_ms() == (match self.spec_frequency_ms() {
                Some(f) => f,
                None => 10_000u64,
            }),
            pl.spec_last_logged_ms() == 0,
            pl.spec_throughput() is None,
            pl.spec_eta() is None,
    {
        let items: String = match self.items {
            Some(s) => s,
            None => String::from_str("updates"),
        };
        let frequency_ms: u64 = match self.frequency_ms {
            Some(f) => f,
            None => 10_000,
        };
        ProgressLogger {
            start: instant_now(),
            count: 0,
            expected_updates: self.expected_updates,
            items,
            last_logged_ms: 0,
            ettc_hundredths: None,
            throughput_hundredths: None,
            frequency_ms,
            system: system_new(),
        }
    }
}

} // verus!

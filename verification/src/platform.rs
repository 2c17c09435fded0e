//! Trusted boundary to the platform: the monotonic clock and the process
//! memory sampler. Nothing is promised of the values these calls return —
//! they depend on the machine and the moment — so every caller in this crate
//! states what holds whatever comes back.

use vstd::prelude::*;

verus! {

#[verifier::external_type_specification]
#[verifier::external_body]
pub struct ExInstant(std::time::Instant);

#[verifier::external_type_specification]
#[verifier::external_body]
pub struct ExSystem(sysinfo::System);

/// Relies on std::time::Instant::now: an opaque timestamp of the monotonic
/// clock, usable only as an anchor for later elapsed-time readings.
#[verifier::external_body]
pub(crate) fn instant_now() -> std::time::Instant {
    std::time::Instant::now()
}

/// Relies on std::time::Instant::elapsed: the wall-clock time since `start`
/// (never negative), converted here to whole milliseconds, saturating at
/// u64::MAX.
#[verifier::external_body]
pub(crate) fn elapsed_ms_since(start: &std::time::Instant) -> u64 {
    let d = start.elapsed();
    u64::try_from(d.as_millis()).unwrap_or(u64::MAX)
}

/// Relies on sysinfo::System::new: a sampler with no data loaded yet; a
/// refresh must be asked for before any figure is read.
#[verifier::external_body]
pub(crate) fn system_new() -> sysinfo::System {
    sysinfo::System::new()
}

/// Relies on sysinfo::System::refresh_memory: reloads the RAM and swap
/// figures of this machine; on an unsupported platform they stay zero.
#[verifier::external_body]
pub(crate) fn refresh_memory(sys: &mut sysinfo::System) {
    sys.refresh_memory();
}

/// Relies on sysinfo::System::used_memory: the used RAM in bytes as of the
/// last refresh, or zero if never refreshed or unsupported.
#[verifier::external_body]
pub(crate) fn used_memory_bytes(sys: &sysinfo::System) -> u64 {
    sys.used_memory()
}

/// Relies on sysinfo::System::used_swap: the used swap in bytes as of the
/// last refresh, or zero if never refreshed or unsupported.
#[verifier::external_body]
pub(crate) fn used_swap_bytes(sys: &sysinfo::System) -> u64 {
    sys.used_swap()
}

} // verus!

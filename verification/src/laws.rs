use vstd::prelude::*;
use crate::device::{DeviceState, OperationalState};

verus! {

/// Readiness is idempotent and sticky: once a poll answers true, the device
/// rests in `Idle` with the flag latched, and every later poll — with no
/// exposure started in between — answers true again and changes nothing.
pub proof fn lemma_ready_is_sticky(s: DeviceState, now1_micros: i64, now2_micros: i64)
    requires
        s.wf(),
        s.ready_at(now1_micros),
    ensures
        s.after_check(now1_micros).wf(),
        s.after_check(now1_micros).image_ready_flag,
        s.after_check(now1_micros).operational_state == OperationalState::Idle,
        s.after_check(now1_micros).ready_at(now2_micros),
        s.after_check(now1_micros).after_check(now2_micros) == s.after_check(now1_micros),
{
}

/// Exposure gating is monotonic in elapsed time: while an exposure runs and
/// the flag is not yet sticky, a poll at elapsed time at most the requested
/// duration answers false and leaves the state exactly as it was, and any
/// poll at elapsed time strictly greater answers true.
pub proof fn lemma_monotonic_gating(s: DeviceState, now_micros: i64)
    requires
        s.wf(),
        !s.image_ready_flag,
        s.operational_state == OperationalState::Exposing,
    ensures
        now_micros - s.exposure_start_micros <= s.requested_exposure_micros
            ==> !s.ready_at(now_micros) && s.after_check(now_micros) == s,
        now_micros - s.exposure_start_micros > s.requested_exposure_micros
            ==> s.ready_at(now_micros) && s.after_check(now_micros).image_ready_flag,
{
}

/// Starting a new exposure while the readiness flag is sticky-true resets
/// the flag to false and moves the device to `Exposing`.
pub proof fn lemma_restart_resets_ready(s: DeviceState, duration_micros: i64, now_micros: i64)
    requires
        s.wf(),
        s.image_ready_flag,
        0 <= duration_micros,
        0 <= now_micros,
    ensures
        !s.after_start(duration_micros, now_micros).image_ready_flag,
        s.after_start(duration_micros, now_micros).operational_state == OperationalState::Exposing,
        s.after_start(duration_micros, now_micros).wf(),
{
}

/// A freshly constructed device is never ready: before any exposure was
/// started, a poll at any instant answers false and changes nothing.
pub proof fn lemma_fresh_never_ready(now_micros: i64)
    ensures
        DeviceState::initial().wf(),
        !DeviceState::initial().ready_at(now_micros),
        DeviceState::initial().after_check(now_micros) == DeviceState::initial(),
{
}

} // verus!

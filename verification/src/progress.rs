//! Generation progress, and the machine that tells model loading apart from
//! sampling and decoding.
//!
//! sd.cpp reports tensor loading and sampling through the same progress
//! callback, so a 386-of-386 tensor load looks exactly like a 386-step sample.
//! The rule implemented here:
//!
//! * The **step count is authoritative** and runs on every progress event:
//!   only an event whose total equals the requested step count and whose step
//!   index is at least 1 is real sampling, and only such an event latches the
//!   phase. The opening `step == 0` tick of `sample()` never latches.
//! * **Log markers are one-way upgrades** on top of it. A `sampling using`
//!   marker moves the phase to `Sampling` but never latches it (weights are
//!   still streamed in lazily after it); a `decoding … latents` marker moves
//!   it to `Decoding` and latches; a load marker never moves the phase away
//!   from anything but `Loading`.
//! * With `expected_steps == 0` (the context-creation window) no step count
//!   applies, and the recorded phase is reported unchanged.
//!
//! sd.cpp's callbacks are process-global and Blink runs one context at a time,
//! so a program keeps exactly one [`PhaseState`] and hands it to these
//! functions.
use vstd::prelude::*;
use crate::text::{has_sub, str_contains, trim_end, trim_end_str};

verus! {

/// What the engine is actually doing when a progress event arrives.
#[derive(Debug, Clone, Copy, PartialEq, Eq, Structural)]
pub enum Phase {
    /// Reading weights off disk. Progress counts tensors, not steps.
    Loading,
    /// Real sampling. Progress counts the steps the user asked for.
    Sampling,
    /// VAE decode. Progress counts latents or tiles.
    Decoding,
}

/// The wire name of each phase.
pub open spec fn phase_name(p: Phase) -> Seq<char> {
    match p {
        Phase::Loading => "loading"@,
        Phase::Sampling => "sampling"@,
        Phase::Decoding => "decoding"@,
    }
}

/// The byte a phase is stored as.
pub open spec fn phase_byte(p: Phase) -> u8 {
    match p {
        Phase::Loading => 0,
        Phase::Sampling => 1,
        Phase::Decoding => 2,
    }
}

/// The phase a stored byte stands for; unknown bytes read as `Loading`.
pub open spec fn byte_phase(v: u8) -> Phase {
    if v == 1 {
        Phase::Sampling
    } else if v == 2 {
        Phase::Decoding
    } else {
        Phase::Loading
    }
}

impl Phase {
    /// The wire name used by the progress event and the UI.
    pub fn as_str(self) -> (s: &'static str)
        ensures
            s@ == phase_name(self),
    {
        match self {
            Phase::Loading => "loading",
            Phase::Sampling => "sampling",
            Phase::Decoding => "decoding",
        }
    }

    /// The byte this phase is stored as.
    pub fn to_u8(self) -> (v: u8)
        ensures
            v == phase_byte(self),
    {
        match self {
            Phase::Loading => 0,
            Phase::Sampling => 1,
            Phase::Decoding => 2,
        }
    }

    /// The phase a stored byte stands for; anything unknown is `Loading`.
    pub fn from_u8(v: u8) -> (p: Phase)
        ensures
            p == byte_phase(v),
    {
        if v == 1 {
            Phase::Sampling
        } else if v == 2 {
            Phase::Decoding
        } else {
            Phase::Loading
        }
    }
}

/// The process-wide phase record: the last phase seen, and whether real
/// sampling (or decoding) has latched it for the current generation.
#[derive(Debug, Clone)]
pub struct PhaseState {
    phase: u8,
    latched: bool,
}

/// The abstract state of the phase machine.
pub struct PhaseView {
    pub phase: Phase,
    pub latched: bool,
}

impl PhaseState {
    /// The abstract state: the recorded phase and the latch.
    pub closed spec fn view_of(&self) -> PhaseView {
        PhaseView { phase: byte_phase(self.phase), latched: self.latched }
    }

    /// The recorded phase.
    pub open spec fn phase(&self) -> Phase {
        self.view_of().phase
    }

    /// Whether the phase is latched.
    pub open spec fn latched(&self) -> bool {
        self.view_of().latched
    }

    /// A fresh record: `Loading`, latch clear.
    pub fn new() -> (st: PhaseState)
        ensures
            st.phase() == Phase::Loading,
            !st.latched(),
    {
        PhaseState { phase: 0, latched: false }
    }

    /// Whether real sampling or decoding has latched the phase.
    pub fn is_latched(&self) -> (b: bool)
        ensures
            b == self.latched(),
    {
        self.latched
    }

    fn set_phase(&mut self, p: Phase)
        ensures
            final(self).phase() == p,
            final(self).latched() == old(self).latched(),
    {
        self.phase = p.to_u8();
    }
}

/// How one sd.cpp log line classifies.
pub open spec fn log_line_phase(line: Seq<char>) -> Option<Phase> {
    if has_sub(line, "sampling using "@) {
        Some(Phase::Sampling)
    } else if has_sub(line, "decoding "@) && has_sub(line, " latents"@) {
        Some(Phase::Decoding)
    } else if has_sub(line, "model from '"@) || has_sub(line, "loading clip_l from '"@) || has_sub(
        line,
        "loading t5xxl from '"@,
    ) || has_sub(line, "loading llm from '"@) {
        Some(Phase::Loading)
    } else {
        None
    }
}

/// The phase and latch after a log line has been applied.
pub open spec fn phase_after_log(phase: Phase, latched: bool, line: Seq<char>) -> (Phase, bool) {
    match log_line_phase(line) {
        Some(Phase::Sampling) => (Phase::Sampling, latched),
        Some(Phase::Decoding) => (Phase::Decoding, true),
        _ => (phase, latched),
    }
}

/// Whether a progress event is real sampling for a generation that asked for
/// `expected` steps.
pub open spec fn is_sampling_event(step: u32, total: u32, expected: u32) -> bool {
    expected != 0 && total == expected && step != 0
}

/// The phase and latch after a progress event has been applied.
pub open spec fn phase_after_progress(
    phase: Phase,
    latched: bool,
    step: u32,
    total: u32,
    expected: u32,
) -> (Phase, bool) {
    if expected == 0 {
        (phase, latched)
    } else if is_sampling_event(step, total, expected) {
        (Phase::Sampling, true)
    } else if latched {
        (phase, latched)
    } else {
        (Phase::Loading, false)
    }
}

/// The phase as last recorded.
pub fn current_phase(st: &PhaseState) -> (p: Phase)
    ensures
        p == st.phase(),
{
    Phase::from_u8(st.phase)
}

/// Back to `Loading`, latch cleared. Called at the start of every generation
/// and every context creation.
pub fn reset_phase(st: &mut PhaseState)
    ensures
        final(st).phase() == Phase::Loading,
        !final(st).latched(),
{
    st.latched = false;
    st.set_phase(Phase::Loading);
}

/// Classify one sd.cpp log line. Pure: the caller applies the result as a
/// one-way upgrade ([`note_log_line`]).
pub fn phase_from_log_line(line: &str) -> (p: Option<Phase>)
    ensures
        p == log_line_phase(line@),
{
    if str_contains(line, "sampling using ") {
        return Some(Phase::Sampling);
    }
    if str_contains(line, "decoding ") && str_contains(line, " latents") {
        return Some(Phase::Decoding);
    }
    if str_contains(line, "model from '") || str_contains(line, "loading clip_l from '")
        || str_contains(line, "loading t5xxl from '") || str_contains(line, "loading llm from '") {
        return Some(Phase::Loading);
    }
    None
}

/// Handle one message of sd.cpp's log: trailing white space is dropped; a
/// message left blank is ignored, any other is applied to the phase and
/// returned to be printed.
pub fn note_engine_log(st: &mut PhaseState, msg: &str) -> (shown: Option<String>)
    ensures
        trim_end(msg@).len() == 0 ==> shown is None && *final(st) == *old(st),
        trim_end(msg@).len() > 0 ==> (shown matches Some(t) && t@ == trim_end(msg@)) && (
        final(st).phase(),
        final(st).latched(),
        ) == phase_after_log(old(st).phase(), old(st).latched(), trim_end(msg@)),
{
    let trimmed = trim_end_str(msg);
    if trimmed.as_str().is_empty() {
        return None;
    }
    note_log_line(st, trimmed.as_str());
    Some(trimmed)
}

/// Apply a log line as a one-way upgrade: `Loading` only confirms `Loading`,
/// `Sampling` moves the phase without latching, `Decoding` moves and latches.
pub fn note_log_line(st: &mut PhaseState, line: &str)
    ensures
        (final(st).phase(), final(st).latched()) == phase_after_log(
            old(st).phase(),
            old(st).latched(),
            line@,
        ),
{
    match phase_from_log_line(line) {
        Some(Phase::Loading) => {
            if current_phase(st) == Phase::Loading {
                st.set_phase(Phase::Loading);
            }
        },
        Some(Phase::Sampling) => st.set_phase(Phase::Sampling),
        Some(Phase::Decoding) => {
            st.set_phase(Phase::Decoding);
            st.latched = true;
        },
        None => {},
    }
}

/// The authoritative rule, run on every progress event. `expected_steps` is
/// the step count the generation asked for, `0` in the context-creation
/// window. Returns the phase to report, which is the phase now recorded.
pub fn note_progress(st: &mut PhaseState, step: u32, total_steps: u32, expected_steps: u32) -> (p:
    Phase)
    ensures
        (final(st).phase(), final(st).latched()) == phase_after_progress(
            old(st).phase(),
            old(st).latched(),
            step,
            total_steps,
            expected_steps,
        ),
        p == final(st).phase(),
{
    if expected_steps != 0 && (total_steps != expected_steps || step == 0) {
        if st.latched {
            return current_phase(st);
        }
        st.set_phase(Phase::Loading);
        return Phase::Loading;
    }
    if expected_steps != 0 {
        st.set_phase(Phase::Sampling);
        st.latched = true;
        return Phase::Sampling;
    }
    current_phase(st)
}

// ---------------------------------------------------------------------------
// Laws
// ---------------------------------------------------------------------------

/// A stored phase reads back as itself.
pub proof fn law_phase_byte_roundtrip(p: Phase)
    ensures
        byte_phase(phase_byte(p)) == p,
{
}

/// Every operation keeps the invariant that a latched phase is not `Loading`:
/// log lines and progress events map a good state to a good state.
pub proof fn law_latch_never_loading(phase: Phase, latched: bool, line: Seq<char>, step: u32, total: u32, expected: u32)
    requires
        latched ==> phase != Phase::Loading,
    ensures
        ({
            let (p, l) = phase_after_log(phase, latched, line);
            l ==> p != Phase::Loading
        }),
        ({
            let (p, l) = phase_after_progress(phase, latched, step, total, expected);
            l ==> p != Phase::Loading
        }),
{
}

/// Once real sampling has latched, no later progress event of the same
/// generation reports `Loading`.
pub proof fn law_latched_progress_never_loading(phase: Phase, step: u32, total: u32, expected: u32)
    requires
        phase != Phase::Loading,
    ensures
        phase_after_progress(phase, true, step, total, expected).0 != Phase::Loading,
        phase_after_progress(phase, true, step, total, expected).1,
{
}

/// A log line never downgrades the phase to `Loading`, and never clears the
/// latch.
pub proof fn law_log_line_never_downgrades(phase: Phase, latched: bool, line: Seq<char>)
    ensures
        phase_after_log(phase, latched, line).0 == Phase::Loading ==> phase == Phase::Loading,
        latched ==> phase_after_log(phase, latched, line).1,
{
}

/// Only a decoding marker can set the latch from a log line; in particular a
/// sampling marker never does.
pub proof fn law_only_decoding_marker_latches(phase: Phase, line: Seq<char>)
    ensures
        phase_after_log(phase, false, line).1 ==> log_line_phase(line) == Some(Phase::Decoding),
        log_line_phase(line) == Some(Phase::Sampling) ==> !phase_after_log(phase, false, line).1,
{
}

/// The opening `step == 0` tick of sampling never latches, and reports
/// `Loading` unless a latch is already set.
pub proof fn law_step_zero_never_latches(phase: Phase, latched: bool, total: u32, expected: u32)
    ensures
        phase_after_progress(phase, latched, 0, total, expected).1 == latched,
        !latched && expected != 0 ==> phase_after_progress(phase, latched, 0, total, expected).0
            == Phase::Loading,
{
}

/// In the context-creation window (`expected_steps == 0`) a progress event
/// changes nothing.
pub proof fn law_context_window_is_inert(phase: Phase, latched: bool, step: u32, total: u32)
    ensures
        phase_after_progress(phase, latched, step, total, 0) == (phase, latched),
{
}

/// A real sampling event always reports `Sampling` and latches.
pub proof fn law_sampling_event_latches(phase: Phase, latched: bool, step: u32, expected: u32)
    requires
        expected != 0,
        step != 0,
    ensures
        phase_after_progress(phase, latched, step, expected, expected) == (Phase::Sampling, true),
{
}

} // verus!

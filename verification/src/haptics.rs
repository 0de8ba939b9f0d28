//! Haptics, mapped to the same event vocabulary as audio.
//!
//! A desktop machine has no general haptic engine, so this degrades to a
//! clean no-op: every event is gated by the shared `enabled` flag and by
//! whether a real backend exists, and none does here. Each event reports
//! whether a transient would have been emitted.

use vstd::prelude::*;
use std::sync::Arc;
use std::sync::atomic::AtomicBool;

verus! {

/// Reads the shared flag with `AtomicBool::load`. Another thread may store
/// to it at any time, so nothing is promised of the value read.
#[verifier::external_body]
fn read_flag(flag: &AtomicBool) -> bool {
    flag.load(std::sync::atomic::Ordering::Relaxed)
}

/// Phase-driven haptic events. `enabled` is shared with the settings screen
/// so that it can gate output while the ceremony worker holds this handle.
pub struct PawHaptics {
    enabled: Arc<AtomicBool>,
    /// `true` if a real haptic backend was found.
    supported: bool,
}

impl PawHaptics {
    /// No haptic backend exists on a desktop machine, so no handle has one.
    #[verifier::type_invariant]
    closed spec fn no_backend(self) -> bool {
        !self.supported
    }

    /// Whether a real haptic backend exists.
    pub closed spec fn supported(self) -> bool {
        self.supported
    }

    /// The shared flag that gates output.
    pub closed spec fn enabled_flag(self) -> Arc<AtomicBool> {
        self.enabled
    }

    /// A handle gated by the shared flag `enabled`; no backend is found on a
    /// desktop machine.
    pub fn new(enabled: Arc<AtomicBool>) -> (h: PawHaptics)
        ensures
            h.enabled_flag() == enabled,
            !h.supported(),
    {
        PawHaptics { enabled, supported: false }
    }

    /// Would emit one transient of the given intensity and sharpness (in
    /// hundredths) when enabled and supported; reports whether it did.
    /// With no backend, nothing is ever emitted, whatever the flag says.
    fn fire(&self, intensity_pct: u8, sharpness_pct: u8) -> (fired: bool)
        ensures
            fired == false,
            !self.supported(),
    {
        proof {
            use_type_invariant(self);
        }
        let _ = (intensity_pct, sharpness_pct);
        read_flag(&self.enabled) && self.supported
    }

    /// Light tick — one per satellite found.
    pub fn satellite_found(&self) -> (fired: bool)
        ensures
            fired == false,
    {
        self.fire(40, 50)
    }

    /// Sharp transient thunk on lock.
    pub fn lock(&self) -> (fired: bool)
        ensures
            fired == false,
    {
        self.fire(100, 100)
    }

    /// Low buzz during transmitting (a single pulse).
    pub fn transmit(&self) -> (fired: bool)
        ensures
            fired == false,
    {
        self.fire(30, 20)
    }

    /// Sharp double-tap on receiving; reports whether either tap fired.
    pub fn receive(&self) -> (fired: bool)
        ensures
            fired == false,
    {
        let first = self.fire(80, 90);
        let second = self.fire(80, 90);
        first || second
    }

    /// Dull thud on failure.
    pub fn failed(&self) -> (fired: bool)
        ensures
            fired == false,
    {
        self.fire(60, 10)
    }
}

} // verus!

use std::sync::atomic::AtomicBool;
use std::sync::Arc;

use pawphone::haptics::PawHaptics;
use pawphone::synth::Rng;

#[test]
fn desktop_haptics_never_fire() {
    let enabled = Arc::new(AtomicBool::new(true));
    let h = PawHaptics::new(enabled);
    assert!(!h.satellite_found());
    assert!(!h.lock());
    assert!(!h.transmit());
    assert!(!h.receive());
    assert!(!h.failed());
}

#[test]
fn xorshift_steps_match_the_reference_sequence() {
    let mut r = Rng::new(0x1234_5678);
    let mut x: u32 = 0x1234_5678 | 1;
    for _ in 0..1000 {
        x ^= x << 13;
        x ^= x >> 17;
        x ^= x << 5;
        assert_eq!(r.next_u32(), x);
    }
}

#[test]
fn a_zero_seed_is_forced_odd_and_never_sticks() {
    let mut r = Rng::new(0);
    let first = r.next_u32();
    assert_eq!(first, 1u32 ^ (1 << 13) ^ ((1u32 ^ (1 << 13)) >> 17) ^ ((1u32 ^ (1 << 13) ^ ((1u32 ^ (1 << 13)) >> 17)) << 5));
    for _ in 0..10_000 {
        assert_ne!(r.next_u32(), 0);
    }
}

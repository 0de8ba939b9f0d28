# pawphone

Paw Phone is a toy messenger in which cats message cats over a fictional
satellite constellation; every message goes through a theatrical "uplink
ceremony" (power-up, satellite search, handshake, lock, transmit, the wait
for a reply). Nothing is networked: the other cat is simulated.

## Layout

- `src/` — the library, written in Verus and verified:
  - `phase.rs` — the ceremony phases, the flavored errors, the realism
    profiles and their timings.
  - `models.rs` — cats, messages, delivery status, phrases, screens.
  - `connection.rs` — the ceremony as a state machine (`Ceremony::step`
    turns an event into the effects to perform next) and the shared state
    the UI polls, with the proofs that a ceremony walks its phases in order
    and publishes exactly one outcome.
  - `persistence.rs` — the store: seeding, inserting, status updates and
    thread listings ordered by time and id.
  - `app.rs` — the application's state and decisions: sending, resending,
    applying outcomes once, the HUD's linger.
  - `personality.rs`, `telemetry.rs`, `text.rs` — meow translation, replies,
    failure rolls, and the telemetry copy.
  - `haptics.rs`, `synth.rs` — the haptics gate and the audio thread's
    xorshift generator.
  - `chance.rs` — the wrappers around the `rand` crate.
- `app/` — the program around it: the egui window, the cpal audio engine and
  synthesizer, the worker thread that runs ceremonies, and the JSON file.
- `tests/` — tests of the library.

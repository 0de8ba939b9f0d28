//! The uplink ceremony at the centre of everything.
//!
//! A send walks `Idle → PoweringUp → … → Connected | Failed`, waiting out the
//! profile's duration of each beat. [`Ceremony`] decides every beat: given
//! the event that just happened it returns the effects to perform next —
//! phase changes and telemetry for the shared state, audio and haptic cues,
//! pauses, the dice rolls it needs, and finally the outcome. The caller runs
//! the effects (on a worker thread) and reports back.
//!
//! [`SharedState`] is what the UI reads each frame.

use vstd::prelude::*;
use std::collections::VecDeque;
use crate::models::{Cat, MeowPhrase};
use crate::phase::{PawLinkError, PawLinkPhase, RealismProfile, Timings};

verus! {

/// The most telemetry lines the shared state keeps; older lines scroll off.
pub const TELEMETRY_CAP: usize = 80;

/// What a ceremony ends with; the app applies it to the store.
#[derive(Debug)]
pub enum Outcome {
    Delivered { reply: Option<MeowPhrase> },
    Lost(PawLinkError),
}

impl Clone for Outcome {
    fn clone(&self) -> (o: Self)
        ensures
            o == *self,
    {
        match self {
            Outcome::Delivered { reply } => {
                let r = match reply {
                    Some(p) => Some(p.clone()),
                    None => None,
                };
                Outcome::Delivered { reply: r }
            },
            Outcome::Lost(e) => Outcome::Lost(*e),
        }
    }
}

/// A queued send. `incoming` is the human-readable intent handed to the
/// reply logic.
#[derive(Debug)]
pub struct SendRequest {
    pub cat: Cat,
    pub incoming: String,
    pub profile: RealismProfile,
}

// ── shared state ───────────────────────────────────────────────────────────

/// Everything the UI reads each frame: the current phase, the scrolling
/// telemetry, the outcome of the last ceremony and its sequence number.
pub struct SharedState {
    phase: PawLinkPhase,
    telemetry: VecDeque<String>,
    seq: u64,
    outcome: Option<Outcome>,
    running: bool,
}

/// The abstract contents of the shared state.
pub struct SharedView {
    pub phase: PawLinkPhase,
    pub telemetry: Seq<String>,
    /// Bumps (wrapping) each time a new outcome is ready.
    pub seq: u64,
    pub outcome: Option<Outcome>,
    pub running: bool,
}

/// The telemetry after logging `line`: the line goes last, and the oldest
/// line scrolls off when the log is full.
pub open spec fn logged(telemetry: Seq<String>, line: String) -> Seq<String> {
    if telemetry.len() >= TELEMETRY_CAP {
        telemetry.skip(1).push(line)
    } else {
        telemetry.push(line)
    }
}

/// The sequence number after one more outcome (wrapping at the top).
pub open spec fn next_seq(seq: u64) -> u64 {
    if seq == u64::MAX { 0 } else { (seq + 1) as u64 }
}

impl View for SharedState {
    type V = SharedView;

    closed spec fn view(&self) -> SharedView {
        SharedView {
            phase: self.phase,
            telemetry: self.telemetry@,
            seq: self.seq,
            outcome: self.outcome,
            running: self.running,
        }
    }
}

impl SharedState {
    #[verifier::type_invariant]
    closed spec fn bounded(self) -> bool {
        self.telemetry@.len() <= TELEMETRY_CAP
    }

    /// Nothing has happened yet.
    pub fn idle() -> (s: SharedState)
        ensures
            s@.phase == PawLinkPhase::Idle,
            s@.telemetry.len() == 0,
            s@.seq == 0,
            s@.outcome is None,
            !s@.running,
    {
        SharedState {
            phase: PawLinkPhase::Idle,
            telemetry: VecDeque::with_capacity(TELEMETRY_CAP),
            seq: 0,
            outcome: None,
            running: false,
        }
    }

    /// A ceremony starts: running, no outcome yet, fresh telemetry.
    pub fn begin(&mut self)
        ensures
            final(self)@ == (SharedView {
                running: true,
                outcome: None,
                telemetry: Seq::empty(),
                ..old(self)@
            }),
    {
        proof {
            use_type_invariant(&*self);
        }
        self.running = true;
        self.outcome = None;
        self.telemetry = VecDeque::new();
    }

    pub fn set_phase(&mut self, phase: PawLinkPhase)
        ensures
            final(self)@ == (SharedView { phase, ..old(self)@ }),
    {
        proof {
            use_type_invariant(&*self);
        }
        self.phase = phase;
    }

    /// Appends a telemetry line, dropping the oldest one when full.
    pub fn log(&mut self, line: String)
        ensures
            final(self)@ == (SharedView { telemetry: logged(old(self)@.telemetry, line), ..old(self)@ }),
            final(self)@.telemetry.len() <= TELEMETRY_CAP,
            final(self)@.telemetry.last() == line,
    {
        proof {
            use_type_invariant(&*self);
        }
        let mut lines = VecDeque::new();
        std::mem::swap(&mut lines, &mut self.telemetry);
        if lines.len() >= TELEMETRY_CAP {
            lines.pop_front();
        }
        lines.push_back(line);
        self.telemetry = lines;
    }

    /// Publishes the outcome of a ceremony exactly once: a new sequence
    /// number, and no longer running.
    pub fn finish(&mut self, outcome: Outcome)
        ensures
            final(self)@ == (SharedView {
                outcome: Some(outcome),
                seq: next_seq(old(self)@.seq),
                running: false,
                ..old(self)@
            }),
    {
        proof {
            use_type_invariant(&*self);
        }
        self.outcome = Some(outcome);
        self.seq = self.seq.wrapping_add(1);
        self.running = false;
    }

    pub fn phase(&self) -> (p: PawLinkPhase)
        ensures
            p == self@.phase,
    {
        self.phase
    }

    pub fn seq(&self) -> (s: u64)
        ensures
            s == self@.seq,
    {
        self.seq
    }

    pub fn running(&self) -> (r: bool)
        ensures
            r == self@.running,
    {
        self.running
    }

    pub fn outcome(&self) -> (o: Option<Outcome>)
        ensures
            o == self@.outcome,
    {
        match &self.outcome {
            Some(o) => Some(o.clone()),
            None => None,
        }
    }

    /// The telemetry lines, oldest first.
    pub fn telemetry_lines(&self) -> (lines: Vec<String>)
        ensures
            lines@ == self@.telemetry,
            lines@.len() <= TELEMETRY_CAP,
    {
        proof {
            use_type_invariant(self);
        }
        let mut out: Vec<String> = Vec::new();
        let mut i: usize = 0;
        while i < self.telemetry.len()
            invariant
                i <= self.telemetry@.len(),
                out@ == self.telemetry@.take(i as int),
            decreases self.telemetry@.len() - i,
        {
            out.push(self.telemetry[i].clone());
            assert(out@ =~= self.telemetry@.take(i + 1));
            i = i + 1;
        }
        assert(out@ =~= self.telemetry@);
        out
    }
}


/// What the UI copies out of the shared state each frame.
#[derive(Debug)]
pub struct Snapshot {
    pub phase: PawLinkPhase,
    pub telemetry: Vec<String>,
    pub seq: u64,
    /// The outcome, only when it is newer than what the UI has applied.
    pub new_outcome: Option<Outcome>,
}

impl SharedState {
    /// Copies out what the UI shows, with the outcome only when its sequence
    /// number is past `last_seq` (the last one the UI applied).
    pub fn snapshot(&self, last_seq: u64) -> (s: Snapshot)
        ensures
            s.phase == self@.phase,
            s.telemetry@ == self@.telemetry,
            s.seq == self@.seq,
            s.new_outcome == (if self@.seq > last_seq { self@.outcome } else { None }),
    {
        let new_outcome = if self.seq > last_seq { self.outcome() } else { None };
        Snapshot { phase: self.phase, telemetry: self.telemetry_lines(), seq: self.seq, new_outcome }
    }
}

// ── the ceremony ───────────────────────────────────────────────────────────

/// Which telemetry line to write; the random readings of each are drawn
/// when the line is rendered.
#[derive(Clone, Copy, Debug, PartialEq, Eq, Structural)]
pub enum LogLine {
    Ambient,
    PoweringUp,
    Acquiring { found: u32, total: u32 },
    Handshaking,
    Locked,
    Transmitting,
    Awaiting,
    ReplyLost,
    Receiving,
    LinkFailed(PawLinkError),
}

/// The audio event vocabulary, one per sonic beat of the ceremony.
#[derive(Clone, Copy, Debug, PartialEq, Eq, Structural)]
pub enum AudioCue {
    PowerUp,
    /// The low noise bed under the satellite search.
    Acquiring,
    /// One sonar ping, pitched up by the satellite count.
    Ping(u32),
    Handshake,
    Lock,
    Transmit,
    Incoming,
    /// The signal drops out, flavored by the error.
    SignalLost(PawLinkError),
}

/// The haptic event vocabulary.
#[derive(Clone, Copy, Debug, PartialEq, Eq, Structural)]
pub enum HapticCue {
    SatelliteFound,
    Lock,
    Transmit,
    Receive,
    Failed,
}

/// One thing for the caller to do, in order.
#[derive(Debug)]
pub enum Effect {
    /// `SharedState::begin`.
    Begin,
    /// `SharedState::set_phase`.
    SetPhase(PawLinkPhase),
    /// Render the line and `SharedState::log` it.
    Log(LogLine),
    Audio(AudioCue),
    Haptic(HapticCue),
    /// Sleep for `millis` milliseconds divided by `parts`.
    Sleep { millis: u64, parts: u32 },
    /// Roll for an outright failure and report `FailureRolled`.
    RollFailure,
    /// Roll for reply packet loss and report `PacketLossRolled`.
    RollPacketLoss,
    /// Pick the other cat's reply and report `ReplyChosen`.
    ChooseReply,
    /// `SharedState::finish` with this outcome.
    Finish(Outcome),
}

/// What happened since the last step.
#[derive(Debug)]
pub enum CeremonyEvent {
    Start,
    FailureRolled(Option<PawLinkError>),
    PacketLossRolled(bool),
    ReplyChosen(MeowPhrase),
}

/// Where a ceremony stands between steps.
#[derive(Clone, Copy, Debug, PartialEq, Eq, Structural)]
pub enum CeremonyStage {
    Ready,
    RollingFailure,
    RollingPacketLoss,
    ChoosingReply,
    Finished,
}

/// One uplink ceremony, run with the knobs of a realism profile.
pub struct Ceremony {
    pub timings: Timings,
    pub stage: CeremonyStage,
}

pub open spec fn pause(millis: u64) -> Effect {
    Effect::Sleep { millis, parts: 1 }
}

/// The satellite search shares its duration out over the satellites (at
/// least one share).
pub open spec fn search_shares(total: u32) -> u32 {
    if total == 0 { 1 } else { total }
}

/// The beat of finding satellite number `found`.
pub open spec fn satellite_found(t: Timings, found: u32) -> Seq<Effect> {
    seq![
        Effect::Audio(AudioCue::Ping(found)),
        Effect::Haptic(HapticCue::SatelliteFound),
        Effect::SetPhase(PawLinkPhase::Acquiring { found, total: t.total_satellites }),
        Effect::Log(LogLine::Acquiring { found, total: t.total_satellites }),
        Effect::Sleep { millis: t.acquiring_ms, parts: search_shares(t.total_satellites) },
    ]
}

/// Finding satellites 1 to `n`, in order.
pub open spec fn satellite_search(t: Timings, n: nat) -> Seq<Effect>
    decreases n,
{
    if n == 0 {
        Seq::empty()
    } else {
        satellite_search(t, (n - 1) as nat) + satellite_found(t, n as u32)
    }
}

/// From the start through transmitting, then the failure roll.
pub open spec fn opening(t: Timings) -> Seq<Effect> {
    seq![
        Effect::Begin,
        Effect::Log(LogLine::Ambient),
        Effect::SetPhase(PawLinkPhase::PoweringUp),
        Effect::Log(LogLine::PoweringUp),
        Effect::Audio(AudioCue::PowerUp),
        pause(t.powering_up_ms),
        Effect::Audio(AudioCue::Acquiring),
        Effect::SetPhase(PawLinkPhase::Acquiring { found: 0, total: t.total_satellites }),
    ] + satellite_search(t, t.total_satellites as nat) + seq![
        Effect::SetPhase(PawLinkPhase::Handshaking),
        Effect::Log(LogLine::Handshaking),
        Effect::Audio(AudioCue::Handshake),
        pause(t.handshaking_ms),
        Effect::SetPhase(PawLinkPhase::Locked),
        Effect::Log(LogLine::Locked),
        Effect::Audio(AudioCue::Lock),
        Effect::Haptic(HapticCue::Lock),
        pause(t.locked_ms),
        Effect::SetPhase(PawLinkPhase::Transmitting),
        Effect::Log(LogLine::Transmitting),
        Effect::Audio(AudioCue::Transmit),
        Effect::Haptic(HapticCue::Transmit),
        pause(t.transmitting_ms),
        Effect::RollFailure,
    ]
}

/// A flavored failure: the signal drops, the phase fails, the outcome is lost.
pub open spec fn failing(err: PawLinkError) -> Seq<Effect> {
    seq![
        Effect::Audio(AudioCue::SignalLost(err)),
        Effect::Haptic(HapticCue::Failed),
        Effect::SetPhase(PawLinkPhase::Failed(err)),
        Effect::Log(LogLine::LinkFailed(err)),
        Effect::Finish(Outcome::Lost(err)),
    ]
}

/// The latency drama, then the packet-loss roll.
pub open spec fn awaiting(t: Timings) -> Seq<Effect> {
    seq![
        Effect::SetPhase(PawLinkPhase::AwaitingReply),
        Effect::Log(LogLine::Awaiting),
        pause(t.awaiting_reply_ms),
        Effect::RollPacketLoss,
    ]
}

/// The reply was lost in orbit: a bird-flavored failure.
pub open spec fn reply_lost() -> Seq<Effect> {
    seq![Effect::Log(LogLine::ReplyLost)] + failing(PawLinkError::BirdDistracted)
}

/// The incoming meow, then the reply pick.
pub open spec fn receiving(t: Timings) -> Seq<Effect> {
    seq![
        Effect::SetPhase(PawLinkPhase::Receiving),
        Effect::Log(LogLine::Receiving),
        Effect::Audio(AudioCue::Incoming),
        Effect::Haptic(HapticCue::Receive),
        Effect::ChooseReply,
    ]
}

/// Delivery with the chosen reply.
pub open spec fn connecting(t: Timings, reply: MeowPhrase) -> Seq<Effect> {
    seq![
        pause(t.receiving_ms),
        Effect::SetPhase(PawLinkPhase::Connected),
        Effect::Finish(Outcome::Delivered { reply: Some(reply) }),
    ]
}

/// The next stage and the effects to perform, for an event at a stage. An
/// event that does not fit the stage changes nothing.
pub open spec fn ceremony_next(stage: CeremonyStage, t: Timings, event: CeremonyEvent) -> (
    CeremonyStage,
    Seq<Effect>,
) {
    match (stage, event) {
        (CeremonyStage::Ready, CeremonyEvent::Start) => (CeremonyStage::RollingFailure, opening(t)),
        (CeremonyStage::RollingFailure, CeremonyEvent::FailureRolled(Some(err))) => (
            CeremonyStage::Finished,
            failing(err),
        ),
        (CeremonyStage::RollingFailure, CeremonyEvent::FailureRolled(None)) => (
            CeremonyStage::RollingPacketLoss,
            awaiting(t),
        ),
        (CeremonyStage::RollingPacketLoss, CeremonyEvent::PacketLossRolled(true)) => (
            CeremonyStage::Finished,
            reply_lost(),
        ),
        (CeremonyStage::RollingPacketLoss, CeremonyEvent::PacketLossRolled(false)) => (
            CeremonyStage::ChoosingReply,
            receiving(t),
        ),
        (CeremonyStage::ChoosingReply, CeremonyEvent::ReplyChosen(reply)) => (
            CeremonyStage::Finished,
            connecting(t, reply),
        ),
        _ => (stage, Seq::empty()),
    }
}

fn push_failing(effects: &mut Vec<Effect>, err: PawLinkError)
    ensures
        final(effects)@ == old(effects)@ + failing(err),
{
    effects.push(Effect::Audio(AudioCue::SignalLost(err)));
    effects.push(Effect::Haptic(HapticCue::Failed));
    effects.push(Effect::SetPhase(PawLinkPhase::Failed(err)));
    effects.push(Effect::Log(LogLine::LinkFailed(err)));
    effects.push(Effect::Finish(Outcome::Lost(err)));
    assert(final(effects)@ =~= old(effects)@ + failing(err));
}

fn opening_effects(t: &Timings) -> (effects: Vec<Effect>)
    ensures
        effects@ == opening(*t),
{
    let total = t.total_satellites;
    let mut effects: Vec<Effect> = Vec::new();
    effects.push(Effect::Begin);
    effects.push(Effect::Log(LogLine::Ambient));
    effects.push(Effect::SetPhase(PawLinkPhase::PoweringUp));
    effects.push(Effect::Log(LogLine::PoweringUp));
    effects.push(Effect::Audio(AudioCue::PowerUp));
    effects.push(Effect::Sleep { millis: t.powering_up_ms, parts: 1 });
    effects.push(Effect::Audio(AudioCue::Acquiring));
    effects.push(Effect::SetPhase(PawLinkPhase::Acquiring { found: 0, total }));
    let ghost prefix = effects@;
    let shares: u32 = if total == 0 { 1 } else { total };
    let mut found: u32 = 0;
    while found < total
        invariant
            found <= total,
            total == t.total_satellites,
            shares == search_shares(total),
            effects@ == prefix + satellite_search(*t, found as nat),
        decreases total - found,
    {
        found = found + 1;
        effects.push(Effect::Audio(AudioCue::Ping(found)));
        effects.push(Effect::Haptic(HapticCue::SatelliteFound));
        effects.push(Effect::SetPhase(PawLinkPhase::Acquiring { found, total }));
        effects.push(Effect::Log(LogLine::Acquiring { found, total }));
        effects.push(Effect::Sleep { millis: t.acquiring_ms, parts: shares });
        assert(effects@ =~= prefix + satellite_search(*t, found as nat));
    }
    effects.push(Effect::SetPhase(PawLinkPhase::Handshaking));
    effects.push(Effect::Log(LogLine::Handshaking));
    effects.push(Effect::Audio(AudioCue::Handshake));
    effects.push(Effect::Sleep { millis: t.handshaking_ms, parts: 1 });
    effects.push(Effect::SetPhase(PawLinkPhase::Locked));
    effects.push(Effect::Log(LogLine::Locked));
    effects.push(Effect::Audio(AudioCue::Lock));
    effects.push(Effect::Haptic(HapticCue::Lock));
    effects.push(Effect::Sleep { millis: t.locked_ms, parts: 1 });
    effects.push(Effect::SetPhase(PawLinkPhase::Transmitting));
    effects.push(Effect::Log(LogLine::Transmitting));
    effects.push(Effect::Audio(AudioCue::Transmit));
    effects.push(Effect::Haptic(HapticCue::Transmit));
    effects.push(Effect::Sleep { millis: t.transmitting_ms, parts: 1 });
    effects.push(Effect::RollFailure);
    assert(effects@ =~= opening(*t));
    effects
}

impl Ceremony {
    /// A ceremony with the knobs of `profile`, not yet started.
    pub fn new(profile: RealismProfile) -> (c: Ceremony)
        ensures
            c.timings == profile.timings_spec(),
            c.stage == CeremonyStage::Ready,
    {
        Ceremony { timings: profile.timings(), stage: CeremonyStage::Ready }
    }

    /// Takes the event that just happened and returns what to do next.
    pub fn step(&mut self, event: CeremonyEvent) -> (effects: Vec<Effect>)
        ensures
            (final(self).stage, effects@) == ceremony_next(old(self).stage, old(self).timings, event),
            final(self).timings == old(self).timings,
    {
        let ghost ev = event;
        match (self.stage, event) {
            (CeremonyStage::Ready, CeremonyEvent::Start) => {
                self.stage = CeremonyStage::RollingFailure;
                opening_effects(&self.timings)
            },
            (CeremonyStage::RollingFailure, CeremonyEvent::FailureRolled(Some(err))) => {
                self.stage = CeremonyStage::Finished;
                let mut effects: Vec<Effect> = Vec::new();
                push_failing(&mut effects, err);
                assert(effects@ =~= failing(err));
                effects
            },
            (CeremonyStage::RollingFailure, CeremonyEvent::FailureRolled(None)) => {
                self.stage = CeremonyStage::RollingPacketLoss;
                let mut effects: Vec<Effect> = Vec::new();
                effects.push(Effect::SetPhase(PawLinkPhase::AwaitingReply));
                effects.push(Effect::Log(LogLine::Awaiting));
                effects.push(Effect::Sleep { millis: self.timings.awaiting_reply_ms, parts: 1 });
                effects.push(Effect::RollPacketLoss);
                assert(effects@ =~= awaiting(self.timings));
                effects
            },
            (CeremonyStage::RollingPacketLoss, CeremonyEvent::PacketLossRolled(lost)) => {
                let mut effects: Vec<Effect> = Vec::new();
                if lost {
                    self.stage = CeremonyStage::Finished;
                    effects.push(Effect::Log(LogLine::ReplyLost));
                    push_failing(&mut effects, PawLinkError::BirdDistracted);
                    assert(effects@ =~= reply_lost());
                } else {
                    self.stage = CeremonyStage::ChoosingReply;
                    effects.push(Effect::SetPhase(PawLinkPhase::Receiving));
                    effects.push(Effect::Log(LogLine::Receiving));
                    effects.push(Effect::Audio(AudioCue::Incoming));
                    effects.push(Effect::Haptic(HapticCue::Receive));
                    effects.push(Effect::ChooseReply);
                    assert(effects@ =~= receiving(self.timings));
                }
                effects
            },
            (CeremonyStage::ChoosingReply, CeremonyEvent::ReplyChosen(reply)) => {
                self.stage = CeremonyStage::Finished;
                let mut effects: Vec<Effect> = Vec::new();
                effects.push(Effect::Sleep { millis: self.timings.receiving_ms, parts: 1 });
                effects.push(Effect::SetPhase(PawLinkPhase::Connected));
                effects.push(Effect::Finish(Outcome::Delivered { reply: Some(reply) }));
                assert(effects@ =~= connecting(self.timings, reply));
                effects
            },
            _ => {
                let effects: Vec<Effect> = Vec::new();
                assert(effects@ =~= Seq::<Effect>::empty());
                effects
            },
        }
    }
}

// ── laws of the ceremony ───────────────────────────────────────────────────

/// The phases a list of effects sets, in order.
pub open spec fn phase_trace(effects: Seq<Effect>) -> Seq<PawLinkPhase>
    decreases effects.len(),
{
    if effects.len() == 0 {
        Seq::empty()
    } else {
        let rest = phase_trace(effects.drop_last());
        match effects.last() {
            Effect::SetPhase(p) => rest.push(p),
            _ => rest,
        }
    }
}

/// The beats of a ceremony follow one another in this order only: power-up,
/// the satellite count climbing one by one from zero to the total, handshake,
/// lock, transmit, then either a failure or the wait for a reply; the wait
/// ends in a bird-flavored failure (lost reply) or an incoming meow, and the
/// incoming meow in a connection.
pub open spec fn phase_follows(p: PawLinkPhase, q: PawLinkPhase) -> bool {
    match (p, q) {
        (PawLinkPhase::PoweringUp, PawLinkPhase::Acquiring { found, .. }) => found == 0,
        (PawLinkPhase::Acquiring { found: f, total: t }, PawLinkPhase::Acquiring { found: g, total: u }) =>
            u == t && g == f + 1 && g <= t,
        (PawLinkPhase::Acquiring { found, total }, PawLinkPhase::Handshaking) => found == total,
        (PawLinkPhase::Handshaking, PawLinkPhase::Locked) => true,
        (PawLinkPhase::Locked, PawLinkPhase::Transmitting) => true,
        (PawLinkPhase::Transmitting, PawLinkPhase::Failed(_)) => true,
        (PawLinkPhase::Transmitting, PawLinkPhase::AwaitingReply) => true,
        (PawLinkPhase::AwaitingReply, PawLinkPhase::Failed(e)) => e == PawLinkError::BirdDistracted,
        (PawLinkPhase::AwaitingReply, PawLinkPhase::Receiving) => true,
        (PawLinkPhase::Receiving, PawLinkPhase::Connected) => true,
        _ => false,
    }
}

/// Every phase of `trace` is followed by an allowed next phase.
pub open spec fn is_phase_walk(trace: Seq<PawLinkPhase>) -> bool {
    forall|i: int| 0 <= i < trace.len() - 1 ==> phase_follows(#[trigger] trace[i], trace[i + 1])
}

/// What happens after the failure roll, for given dice and reply.
pub open spec fn run_tail(t: Timings, failure: Option<PawLinkError>, lost: bool, reply: MeowPhrase) -> Seq<Effect> {
    match failure {
        Some(err) => failing(err),
        None => awaiting(t) + if lost {
            reply_lost()
        } else {
            receiving(t) + connecting(t, reply)
        },
    }
}

/// Every effect of a complete ceremony, for given dice and reply.
pub open spec fn run_effects(t: Timings, failure: Option<PawLinkError>, lost: bool, reply: MeowPhrase) -> Seq<Effect> {
    opening(t) + run_tail(t, failure, lost, reply)
}

/// The outcome a complete ceremony publishes.
pub open spec fn run_outcome(failure: Option<PawLinkError>, lost: bool, reply: MeowPhrase) -> Outcome {
    match failure {
        Some(err) => Outcome::Lost(err),
        None => if lost {
            Outcome::Lost(PawLinkError::BirdDistracted)
        } else {
            Outcome::Delivered { reply: Some(reply) }
        },
    }
}

pub open spec fn is_finish(e: Effect) -> bool {
    e is Finish
}

proof fn lemma_trace_concat(a: Seq<Effect>, b: Seq<Effect>)
    ensures
        phase_trace(a + b) == phase_trace(a) + phase_trace(b),
    decreases b.len(),
{
    if b.len() == 0 {
        assert(a + b =~= a);
        assert(phase_trace(a) + phase_trace(b) =~= phase_trace(a));
    } else {
        assert((a + b).drop_last() =~= a + b.drop_last());
        lemma_trace_concat(a, b.drop_last());
        assert((a + b).last() == b.last());
        match b.last() {
            Effect::SetPhase(p) => {
                assert(phase_trace(a) + phase_trace(b.drop_last()).push(p) =~= (phase_trace(a)
                    + phase_trace(b.drop_last())).push(p));
            },
            _ => {},
        }
    }
}

proof fn lemma_walk_concat(a: Seq<PawLinkPhase>, b: Seq<PawLinkPhase>)
    requires
        is_phase_walk(a),
        is_phase_walk(b),
        a.len() > 0 && b.len() > 0 ==> phase_follows(a.last(), b[0]),
    ensures
        is_phase_walk(a + b),
{
    assert forall|i: int| 0 <= i < (a + b).len() - 1 implies phase_follows(
        #[trigger] (a + b)[i],
        (a + b)[i + 1],
    ) by {
        if i < a.len() - 1 {
            assert((a + b)[i] == a[i] && (a + b)[i + 1] == a[i + 1]);
        } else if i == a.len() - 1 {
            assert((a + b)[i] == a.last() && (a + b)[i + 1] == b[0]);
        } else {
            assert((a + b)[i] == b[i - a.len()] && (a + b)[i + 1] == b[i - a.len() + 1]);
        }
    }
}

/// The phases of finding satellites `1..=n`.
pub open spec fn search_trace(total: u32, n: nat) -> Seq<PawLinkPhase> {
    Seq::new(n, |i: int| PawLinkPhase::Acquiring { found: (i + 1) as u32, total })
}

proof fn lemma_search_trace(t: Timings, n: nat)
    requires
        n <= t.total_satellites,
    ensures
        phase_trace(satellite_search(t, n)) == search_trace(t.total_satellites, n),
        forall|i: int| 0 <= i < satellite_search(t, n).len() ==> !is_finish(#[trigger] satellite_search(t, n)[i]),
    decreases n,
{
    if n > 0 {
        let prev = satellite_search(t, (n - 1) as nat);
        let block = satellite_found(t, n as u32);
        lemma_search_trace(t, (n - 1) as nat);
        lemma_trace_concat(prev, block);
        lemma_trace_one(block, 2);
        assert(search_trace(t.total_satellites, (n - 1) as nat).push(
            PawLinkPhase::Acquiring { found: n as u32, total: t.total_satellites },
        ) =~= search_trace(t.total_satellites, n));
        assert(search_trace(t.total_satellites, (n - 1) as nat) + seq![
            PawLinkPhase::Acquiring { found: n as u32, total: t.total_satellites },
        ] =~= search_trace(t.total_satellites, n));
        assert forall|i: int| 0 <= i < satellite_search(t, n).len() implies !is_finish(
            #[trigger] satellite_search(t, n)[i],
        ) by {
            if i < prev.len() {
                assert(satellite_search(t, n)[i] == prev[i]);
            } else {
                assert(satellite_search(t, n)[i] == block[i - prev.len()]);
            }
        }
    }
}

/// A list of effects that sets no phase has an empty trace.
proof fn lemma_trace_none(s: Seq<Effect>)
    requires
        forall|i: int| 0 <= i < s.len() ==> !(#[trigger] s[i] is SetPhase),
    ensures
        phase_trace(s) == Seq::<PawLinkPhase>::empty(),
    decreases s.len(),
{
    if s.len() > 0 {
        lemma_trace_none(s.drop_last());
        assert(!(s[s.len() - 1] is SetPhase));
    }
}

/// A list of effects that sets exactly one phase, at index `k`, has that
/// phase as its whole trace.
proof fn lemma_trace_one(s: Seq<Effect>, k: int)
    requires
        0 <= k < s.len(),
        s[k] is SetPhase,
        forall|i: int| 0 <= i < s.len() && i != k ==> !(#[trigger] s[i] is SetPhase),
    ensures
        phase_trace(s) == seq![s[k]->SetPhase_0],
    decreases s.len(),
{
    let rest = s.drop_last();
    if k == s.len() - 1 {
        lemma_trace_none(rest);
        assert(Seq::<PawLinkPhase>::empty().push(s[k]->SetPhase_0) =~= seq![s[k]->SetPhase_0]);
    } else {
        assert(!(s[s.len() - 1] is SetPhase));
        lemma_trace_one(rest, k);
    }
}

/// The phases set by all the beats before the failure roll: power-up, the
/// whole satellite count, handshake, lock, transmit.
pub open spec fn opening_trace(total: u32) -> Seq<PawLinkPhase> {
    seq![PawLinkPhase::PoweringUp] + Seq::new(
        total as nat + 1,
        |i: int| PawLinkPhase::Acquiring { found: i as u32, total },
    ) + seq![PawLinkPhase::Handshaking, PawLinkPhase::Locked, PawLinkPhase::Transmitting]
}

proof fn lemma_opening_trace(t: Timings)
    ensures
        phase_trace(opening(t)) == opening_trace(t.total_satellites),
        is_phase_walk(opening_trace(t.total_satellites)),
        forall|i: int| 0 <= i < opening(t).len() ==> !is_finish(#[trigger] opening(t)[i]),
{
    let total = t.total_satellites;
    let head = seq![
        Effect::Begin,
        Effect::Log(LogLine::Ambient),
        Effect::SetPhase(PawLinkPhase::PoweringUp),
        Effect::Log(LogLine::PoweringUp),
        Effect::Audio(AudioCue::PowerUp),
        pause(t.powering_up_ms),
        Effect::Audio(AudioCue::Acquiring),
        Effect::SetPhase(PawLinkPhase::Acquiring { found: 0, total }),
    ];
    let search = satellite_search(t, total as nat);
    let tail = seq![
        Effect::SetPhase(PawLinkPhase::Handshaking),
        Effect::Log(LogLine::Handshaking),
        Effect::Audio(AudioCue::Handshake),
        pause(t.handshaking_ms),
        Effect::SetPhase(PawLinkPhase::Locked),
        Effect::Log(LogLine::Locked),
        Effect::Audio(AudioCue::Lock),
        Effect::Haptic(HapticCue::Lock),
        pause(t.locked_ms),
        Effect::SetPhase(PawLinkPhase::Transmitting),
        Effect::Log(LogLine::Transmitting),
        Effect::Audio(AudioCue::Transmit),
        Effect::Haptic(HapticCue::Transmit),
        pause(t.transmitting_ms),
        Effect::RollFailure,
    ];
    assert(opening(t) == head + search + tail);
    lemma_trace_concat(head + search, tail);
    lemma_trace_concat(head, search);
    lemma_search_trace(t, total as nat);
    // the head sets power-up, then the empty count
    assert(head =~= head.take(3) + head.skip(3));
    lemma_trace_concat(head.take(3), head.skip(3));
    lemma_trace_one(head.take(3), 2);
    lemma_trace_one(head.skip(3), 4);
    assert(phase_trace(head) =~= seq![
        PawLinkPhase::PoweringUp,
        PawLinkPhase::Acquiring { found: 0, total },
    ]);
    // the tail sets handshaking, locked, transmitting
    let t_hs = tail.take(4);
    let t_lk = tail.skip(4).take(5);
    let t_tx = tail.skip(9);
    assert(tail =~= t_hs + t_lk + t_tx);
    lemma_trace_concat(t_hs + t_lk, t_tx);
    lemma_trace_concat(t_hs, t_lk);
    lemma_trace_one(t_hs, 0);
    lemma_trace_one(t_lk, 0);
    lemma_trace_one(t_tx, 0);
    assert(phase_trace(tail) =~= seq![
        PawLinkPhase::Handshaking,
        PawLinkPhase::Locked,
        PawLinkPhase::Transmitting,
    ]);
    let counts = Seq::new(total as nat + 1, |i: int| PawLinkPhase::Acquiring { found: i as u32, total });
    assert(seq![PawLinkPhase::PoweringUp, PawLinkPhase::Acquiring { found: 0, total }]
        + search_trace(total, total as nat) =~= seq![PawLinkPhase::PoweringUp] + counts);
    assert(phase_trace(opening(t)) =~= opening_trace(total));
    // it is a walk
    assert(is_phase_walk(counts)) by {
        assert forall|i: int| 0 <= i < counts.len() - 1 implies phase_follows(
            #[trigger] counts[i],
            counts[i + 1],
        ) by {}
    }
    assert(is_phase_walk(seq![PawLinkPhase::PoweringUp]));
    lemma_walk_concat(seq![PawLinkPhase::PoweringUp], counts);
    let hlt = seq![PawLinkPhase::Handshaking, PawLinkPhase::Locked, PawLinkPhase::Transmitting];
    assert(is_phase_walk(hlt)) by {
        assert forall|i: int| 0 <= i < hlt.len() - 1 implies phase_follows(#[trigger] hlt[i], hlt[i + 1]) by {
            if i == 0 {
                assert(hlt[0] == PawLinkPhase::Handshaking && hlt[1] == PawLinkPhase::Locked);
            } else {
                assert(hlt[1] == PawLinkPhase::Locked && hlt[2] == PawLinkPhase::Transmitting);
            }
        }
    }
    assert((seq![PawLinkPhase::PoweringUp] + counts).last() == PawLinkPhase::Acquiring { found: total, total });
    lemma_walk_concat(seq![PawLinkPhase::PoweringUp] + counts, hlt);
    // no outcome yet
    assert forall|i: int| 0 <= i < opening(t).len() implies !is_finish(#[trigger] opening(t)[i]) by {
        if i < head.len() {
            assert(opening(t)[i] == head[i]);
        } else if i < head.len() + search.len() {
            assert(opening(t)[i] == search[i - head.len()]);
        } else {
            assert(opening(t)[i] == tail[i - head.len() - search.len()]);
        }
    }
}

proof fn lemma_tail_traces(t: Timings, err: PawLinkError, reply: MeowPhrase)
    ensures
        phase_trace(failing(err)) == seq![PawLinkPhase::Failed(err)],
        phase_trace(awaiting(t)) == seq![PawLinkPhase::AwaitingReply],
        phase_trace(reply_lost()) == seq![PawLinkPhase::Failed(PawLinkError::BirdDistracted)],
        phase_trace(receiving(t)) == seq![PawLinkPhase::Receiving],
        phase_trace(connecting(t, reply)) == seq![PawLinkPhase::Connected],
{
    lemma_trace_one(failing(err), 2);
    lemma_trace_one(awaiting(t), 0);
    lemma_trace_one(receiving(t), 0);
    lemma_trace_one(connecting(t, reply), 1);
    let lost_log = seq![Effect::Log(LogLine::ReplyLost)];
    lemma_trace_none(lost_log);
    lemma_trace_one(failing(PawLinkError::BirdDistracted), 2);
    lemma_trace_concat(lost_log, failing(PawLinkError::BirdDistracted));
    assert(phase_trace(reply_lost()) =~= seq![PawLinkPhase::Failed(PawLinkError::BirdDistracted)]);
}

/// The phase a complete ceremony ends in.
pub open spec fn final_phase(o: Outcome) -> PawLinkPhase {
    match o {
        Outcome::Lost(err) => PawLinkPhase::Failed(err),
        Outcome::Delivered { .. } => PawLinkPhase::Connected,
    }
}

/// Feeds a fresh ceremony the natural events: the start, the failure roll,
/// then (while it asks for them) the packet-loss roll and the reply.
pub open spec fn run_by_steps(t: Timings, failure: Option<PawLinkError>, lost: bool, reply: MeowPhrase) -> (
    CeremonyStage,
    Seq<Effect>,
) {
    let (s1, e1) = ceremony_next(CeremonyStage::Ready, t, CeremonyEvent::Start);
    let (s2, e2) = ceremony_next(s1, t, CeremonyEvent::FailureRolled(failure));
    let (s3, e3) = if s2 == CeremonyStage::RollingPacketLoss {
        ceremony_next(s2, t, CeremonyEvent::PacketLossRolled(lost))
    } else {
        (s2, Seq::empty())
    };
    let (s4, e4) = if s3 == CeremonyStage::ChoosingReply {
        ceremony_next(s3, t, CeremonyEvent::ReplyChosen(reply))
    } else {
        (s3, Seq::empty())
    };
    (s4, e1 + e2 + e3 + e4)
}

/// Stepping a fresh ceremony with the start, the failure roll, the
/// packet-loss roll and the reply (as far as it asks for them) always ends
/// it, and what it asks the caller to do is exactly the complete run.
pub proof fn stepping_a_ceremony_completes_it(
    t: Timings,
    failure: Option<PawLinkError>,
    lost: bool,
    reply: MeowPhrase,
)
    ensures
        run_by_steps(t, failure, lost, reply) == (CeremonyStage::Finished, run_effects(t, failure, lost, reply)),
{
    let run = run_effects(t, failure, lost, reply);
    let (s, e) = run_by_steps(t, failure, lost, reply);
    match failure {
        Some(err) => {
            assert(e =~= run);
        },
        None => {
            if lost {
                assert(e =~= run);
            } else {
                assert(e =~= run);
            }
        },
    }
}

/// A send walks `PoweringUp → Acquiring 0 … Acquiring total → Handshaking →
/// Locked → Transmitting → …` and ends in `Connected` or `Failed`: every
/// phase a complete ceremony sets is followed by an allowed next phase, and
/// the last one matches the published outcome.
pub proof fn a_ceremony_walks_its_phases_in_order(
    t: Timings,
    failure: Option<PawLinkError>,
    lost: bool,
    reply: MeowPhrase,
)
    ensures
        phase_trace(run_effects(t, failure, lost, reply)).len() > 0,
        phase_trace(run_effects(t, failure, lost, reply))[0] == PawLinkPhase::PoweringUp,
        is_phase_walk(phase_trace(run_effects(t, failure, lost, reply))),
        phase_trace(run_effects(t, failure, lost, reply)).last() == final_phase(
            run_outcome(failure, lost, reply),
        ),
{
    let total = t.total_satellites;
    let err = match failure { Some(e) => e, None => PawLinkError::BirdDistracted };
    lemma_opening_trace(t);
    lemma_tail_traces(t, err, reply);
    let tail = run_tail(t, failure, lost, reply);
    lemma_trace_concat(opening(t), tail);
    let head = opening_trace(total);
    assert(head.last() == PawLinkPhase::Transmitting);
    assert(head[0] == PawLinkPhase::PoweringUp);
    match failure {
        Some(e) => {
            let tt = seq![PawLinkPhase::Failed(e)];
            assert(phase_trace(tail) == tt);
            lemma_walk_concat(head, tt);
        },
        None => {
            lemma_trace_concat(awaiting(t), if lost { reply_lost() } else { receiving(t) + connecting(t, reply) });
            if lost {
                let tt = seq![PawLinkPhase::AwaitingReply] + seq![PawLinkPhase::Failed(PawLinkError::BirdDistracted)];
                assert(phase_trace(tail) == tt);
                assert(is_phase_walk(tt)) by {
                    assert(tt[0] == PawLinkPhase::AwaitingReply);
                    assert(tt[1] == PawLinkPhase::Failed(PawLinkError::BirdDistracted));
                }
                lemma_walk_concat(head, tt);
            } else {
                lemma_trace_concat(receiving(t), connecting(t, reply));
                let tt = seq![PawLinkPhase::AwaitingReply] + (seq![PawLinkPhase::Receiving] + seq![PawLinkPhase::Connected]);
                assert(phase_trace(tail) == tt);
                assert(is_phase_walk(tt)) by {
                    assert(tt[0] == PawLinkPhase::AwaitingReply);
                    assert(tt[1] == PawLinkPhase::Receiving);
                    assert(tt[2] == PawLinkPhase::Connected);
                }
                lemma_walk_concat(head, tt);
            }
        },
    }
}

/// A complete ceremony publishes exactly one outcome, as its very last
/// effect: the flavored error of a failed roll, a bird-flavored loss when
/// the reply is lost, and otherwise the delivery with the chosen reply.
pub proof fn a_ceremony_publishes_one_outcome(
    t: Timings,
    failure: Option<PawLinkError>,
    lost: bool,
    reply: MeowPhrase,
)
    ensures
        run_effects(t, failure, lost, reply).last() == Effect::Finish(run_outcome(failure, lost, reply)),
        forall|i: int|
            0 <= i < run_effects(t, failure, lost, reply).len() - 1 ==> !is_finish(
                #[trigger] run_effects(t, failure, lost, reply)[i],
            ),
{
    lemma_opening_trace(t);
    let open = opening(t);
    let tail = run_tail(t, failure, lost, reply);
    let run = run_effects(t, failure, lost, reply);
    assert(run == open + tail);
    assert forall|i: int| 0 <= i < run.len() - 1 implies !is_finish(#[trigger] run[i]) by {
        if i < open.len() {
            assert(run[i] == open[i]);
        } else {
            assert(run[i] == tail[i - open.len()]);
            let j = i - open.len();
            match failure {
                Some(e) => {},
                None => {
                    let rest = if lost { reply_lost() } else { receiving(t) + connecting(t, reply) };
                    if j < 4 {
                        assert(tail[j] == awaiting(t)[j]);
                    } else {
                        assert(tail[j] == rest[j - 4]);
                        if !lost && j - 4 >= 5 {
                            assert(rest[j - 4] == connecting(t, reply)[j - 9]);
                        }
                    }
                },
            }
        }
    }
    assert(run.last() == tail.last());
}

/// Once a ceremony has finished, no event makes it do anything more.
pub proof fn a_finished_ceremony_stays_finished(t: Timings, event: CeremonyEvent)
    ensures
        ceremony_next(CeremonyStage::Finished, t, event) == (CeremonyStage::Finished, Seq::<Effect>::empty()),
{
}


/// The event that answers a request among the effects: the failure roll
/// answers `RollFailure`, the packet-loss roll `RollPacketLoss`, the chosen
/// reply `ChooseReply`.
pub open spec fn answers(request: Effect, event: CeremonyEvent) -> bool {
    match (request, event) {
        (Effect::RollFailure, CeremonyEvent::FailureRolled(_)) => true,
        (Effect::RollPacketLoss, CeremonyEvent::PacketLossRolled(_)) => true,
        (Effect::ChooseReply, CeremonyEvent::ReplyChosen(_)) => true,
        _ => false,
    }
}

/// Whether an effect asks the caller for an event.
pub open spec fn is_request(e: Effect) -> bool {
    e is RollFailure || e is RollPacketLoss || e is ChooseReply
}

/// How far along the ceremony a stage is.
pub open spec fn stage_rank(s: CeremonyStage) -> int {
    match s {
        CeremonyStage::Ready => 0,
        CeremonyStage::RollingFailure => 1,
        CeremonyStage::RollingPacketLoss => 2,
        CeremonyStage::ChoosingReply => 3,
        CeremonyStage::Finished => 4,
    }
}

/// Every step ends with what comes next. An event that moves a ceremony on
/// moves it forward, and its effects end with what the new stage waits for:
/// the outcome, once finished; otherwise a request that every one of its
/// answers moves the new stage on from. An event that does not fit changes
/// nothing. So a caller that answers each request as it comes drives the
/// ceremony, stage by stage, to its outcome.
pub proof fn every_step_ends_with_what_comes_next(stage: CeremonyStage, t: Timings, event: CeremonyEvent)
    ensures
        ({
            let (next, effects) = ceremony_next(stage, t, event);
            &&& next == stage ==> effects.len() == 0
            &&& next != stage ==> {
                &&& stage_rank(next) > stage_rank(stage)
                &&& effects.len() > 0
                &&& next == CeremonyStage::Finished ==> is_finish(effects.last())
                &&& next != CeremonyStage::Finished ==> is_request(effects.last())
                &&& next != CeremonyStage::Finished ==> forall|answer: CeremonyEvent|
                    #[trigger] answers(effects.last(), answer) ==> ceremony_next(next, t, answer).0 != next
            }
        }),
{
    let (next, effects) = ceremony_next(stage, t, event);
    match (stage, event) {
        (CeremonyStage::Ready, CeremonyEvent::Start) => {
            let head = seq![
                Effect::Begin,
                Effect::Log(LogLine::Ambient),
                Effect::SetPhase(PawLinkPhase::PoweringUp),
                Effect::Log(LogLine::PoweringUp),
                Effect::Audio(AudioCue::PowerUp),
                pause(t.powering_up_ms),
                Effect::Audio(AudioCue::Acquiring),
                Effect::SetPhase(PawLinkPhase::Acquiring { found: 0, total: t.total_satellites }),
            ] + satellite_search(t, t.total_satellites as nat);
            let tail = seq![
                Effect::SetPhase(PawLinkPhase::Handshaking),
                Effect::Log(LogLine::Handshaking),
                Effect::Audio(AudioCue::Handshake),
                pause(t.handshaking_ms),
                Effect::SetPhase(PawLinkPhase::Locked),
                Effect::Log(LogLine::Locked),
                Effect::Audio(AudioCue::Lock),
                Effect::Haptic(HapticCue::Lock),
                pause(t.locked_ms),
                Effect::SetPhase(PawLinkPhase::Transmitting),
                Effect::Log(LogLine::Transmitting),
                Effect::Audio(AudioCue::Transmit),
                Effect::Haptic(HapticCue::Transmit),
                pause(t.transmitting_ms),
                Effect::RollFailure,
            ];
            assert(effects == head + tail);
            assert(effects.last() == tail.last());
        },
        (CeremonyStage::RollingPacketLoss, CeremonyEvent::PacketLossRolled(true)) => {
            assert(effects.last() == failing(PawLinkError::BirdDistracted).last());
        },
        _ => {},
    }
}

} // verus!

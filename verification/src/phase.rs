//! The connection state machine vocabulary.
//!
//! `PawLinkPhase` is the one shared description of where an uplink ceremony
//! stands; the HUD, the audio engine and the haptics layer all react to it.

use vstd::prelude::*;
use crate::text::{ascii_uppercased, is_ascii_text, uppercased};

verus! {

/// Every theatrical beat of the PawLink "uplink ceremony", in order.
///
/// A send walks `Idle → PoweringUp → … → Connected` (or `→ Failed`).
/// `Acquiring` carries live telemetry (`found` of `total` satellites) so the
/// HUD can animate the count climbing.
#[derive(Clone, Copy, Debug, PartialEq, Eq, Structural)]
pub enum PawLinkPhase {
    Idle,
    /// Relay click and rising power hum.
    PoweringUp,
    /// Satellite search; telemetry counts up.
    Acquiring { found: u32, total: u32 },
    /// Modem warble / data burst.
    Handshaking,
    /// Confirmation chime and haptic thunk.
    Locked,
    /// Outbound data chitter.
    Transmitting,
    /// Satellite latency drama.
    AwaitingReply,
    /// Incoming meow.
    Receiving,
    /// Ceremony complete; conversation updated.
    Connected,
    /// Flavored failure.
    Failed(PawLinkError),
}

/// Flavored uplink failures, each with its own headline and detail text.
#[derive(Clone, Copy, Debug, PartialEq, Eq, Structural)]
pub enum PawLinkError {
    SolarFlare,
    HairballInterference,
    CatSatOnRouter,
    BirdDistracted,
    LowTreats,
}

/// How "realistic" — i.e. how comically slow — the constellation behaves.
#[derive(Clone, Copy, Debug, PartialEq, Eq, Structural)]
pub enum RealismProfile {
    /// Snappy; barely a ceremony.
    Instant,
    /// LEO-plausible reply latency, packet loss on.
    RealisticLeo,
    /// Maximum theatre.
    Dramatic,
}

impl PawLinkPhase {
    /// The HUD readout for a phase.
    pub open spec fn label_text(self) -> Seq<char> {
        match self {
            PawLinkPhase::Idle => "STANDBY"@,
            PawLinkPhase::PoweringUp => "ENGAGING RELAY"@,
            PawLinkPhase::Acquiring { .. } => "ACQUIRING PAWLINK"@,
            PawLinkPhase::Handshaking => "HANDSHAKING"@,
            PawLinkPhase::Locked => "SIGNAL LOCKED"@,
            PawLinkPhase::Transmitting => "TRANSMITTING"@,
            PawLinkPhase::AwaitingReply => "AWAITING REPLY"@,
            PawLinkPhase::Receiving => "INCOMING"@,
            PawLinkPhase::Connected => "CONNECTED"@,
            PawLinkPhase::Failed(_) => "LINK FAILED"@,
        }
    }

    /// Short uppercase label for the HUD phase readout.
    pub fn label(&self) -> (s: &'static str)
        ensures
            s@ == self.label_text(),
    {
        match self {
            PawLinkPhase::Idle => "STANDBY",
            PawLinkPhase::PoweringUp => "ENGAGING RELAY",
            PawLinkPhase::Acquiring { .. } => "ACQUIRING PAWLINK",
            PawLinkPhase::Handshaking => "HANDSHAKING",
            PawLinkPhase::Locked => "SIGNAL LOCKED",
            PawLinkPhase::Transmitting => "TRANSMITTING",
            PawLinkPhase::AwaitingReply => "AWAITING REPLY",
            PawLinkPhase::Receiving => "INCOMING",
            PawLinkPhase::Connected => "CONNECTED",
            PawLinkPhase::Failed(_) => "LINK FAILED",
        }
    }
}

impl PawLinkError {
    /// Every flavored failure, in declaration order.
    pub const ALL: [PawLinkError; 5] = [
        PawLinkError::SolarFlare,
        PawLinkError::HairballInterference,
        PawLinkError::CatSatOnRouter,
        PawLinkError::BirdDistracted,
        PawLinkError::LowTreats,
    ];

    /// The terse uppercase headline shown on the failed HUD.
    pub open spec fn headline_text(self) -> Seq<char> {
        match self {
            PawLinkError::SolarFlare => "SOLAR FLARE"@,
            PawLinkError::HairballInterference => "HAIRBALL INTERFERENCE"@,
            PawLinkError::CatSatOnRouter => "ROUTER OCCUPIED"@,
            PawLinkError::BirdDistracted => "BIRD OFF-TASK"@,
            PawLinkError::LowTreats => "LOW TREATS"@,
        }
    }

    /// The longer, sillier explanation.
    pub open spec fn detail_text(self) -> Seq<char> {
        match self {
            PawLinkError::SolarFlare => "whiskers scrambled · re-aim antenna and try again"@,
            PawLinkError::HairballInterference => "uplink obstructed by a coughed-up payload"@,
            PawLinkError::CatSatOnRouter => "a cat is sitting on the router. it will not move."@,
            PawLinkError::BirdDistracted => "uplink bird chasing a moth · ETA unknown"@,
            PawLinkError::LowTreats => "insufficient treats to maintain orbit"@,
        }
    }

    /// The terse uppercase headline shown on the failed HUD.
    pub fn headline(&self) -> (s: &'static str)
        ensures
            s@ == self.headline_text(),
    {
        match self {
            PawLinkError::SolarFlare => "SOLAR FLARE",
            PawLinkError::HairballInterference => "HAIRBALL INTERFERENCE",
            PawLinkError::CatSatOnRouter => "ROUTER OCCUPIED",
            PawLinkError::BirdDistracted => "BIRD OFF-TASK",
            PawLinkError::LowTreats => "LOW TREATS",
        }
    }

    /// The longer, sillier explanation.
    pub fn detail(&self) -> (s: &'static str)
        ensures
            s@ == self.detail_text(),
    {
        match self {
            PawLinkError::SolarFlare => "whiskers scrambled · re-aim antenna and try again",
            PawLinkError::HairballInterference => "uplink obstructed by a coughed-up payload",
            PawLinkError::CatSatOnRouter => "a cat is sitting on the router. it will not move.",
            PawLinkError::BirdDistracted => "uplink bird chasing a moth · ETA unknown",
            PawLinkError::LowTreats => "insufficient treats to maintain orbit",
        }
    }
}

impl RealismProfile {
    /// Every profile, from least to most theatrical.
    pub const ALL: [RealismProfile; 3] = [
        RealismProfile::Instant,
        RealismProfile::RealisticLeo,
        RealismProfile::Dramatic,
    ];

    pub open spec fn name_text(self) -> Seq<char> {
        match self {
            RealismProfile::Instant => "Instant"@,
            RealismProfile::RealisticLeo => "Realistic LEO"@,
            RealismProfile::Dramatic => "Dramatic"@,
        }
    }

    pub open spec fn blurb_text(self) -> Seq<char> {
        match self {
            RealismProfile::Instant => "for the impatient cat"@,
            RealismProfile::RealisticLeo => "~550ms latency · packet loss on"@,
            RealismProfile::Dramatic => "maximum uplink theatre"@,
        }
    }

    /// The resolved knobs of each profile: phase durations in milliseconds,
    /// the constellation size, and the two chances in thousandths.
    pub open spec fn timings_spec(self) -> Timings {
        match self {
            RealismProfile::Instant => Timings {
                powering_up_ms: 150,
                acquiring_ms: 500,
                handshaking_ms: 300,
                locked_ms: 120,
                transmitting_ms: 350,
                awaiting_reply_ms: 200,
                receiving_ms: 300,
                total_satellites: 12,
                failure_chance_permille: 50,
                packet_loss_chance_permille: 0,
            },
            RealismProfile::RealisticLeo => Timings {
                powering_up_ms: 800,
                acquiring_ms: 2500,
                handshaking_ms: 1500,
                locked_ms: 300,
                transmitting_ms: 1000,
                awaiting_reply_ms: 550,
                receiving_ms: 700,
                total_satellites: 12,
                failure_chance_permille: 80,
                packet_loss_chance_permille: 180,
            },
            RealismProfile::Dramatic => Timings {
                powering_up_ms: 1200,
                acquiring_ms: 4200,
                handshaking_ms: 2400,
                locked_ms: 450,
                transmitting_ms: 1600,
                awaiting_reply_ms: 2600,
                receiving_ms: 1100,
                total_satellites: 12,
                failure_chance_permille: 100,
                packet_loss_chance_permille: 120,
            },
        }
    }

    pub fn name(&self) -> (s: &'static str)
        ensures
            s@ == self.name_text(),
    {
        match self {
            RealismProfile::Instant => "Instant",
            RealismProfile::RealisticLeo => "Realistic LEO",
            RealismProfile::Dramatic => "Dramatic",
        }
    }

    pub fn blurb(&self) -> (s: &'static str)
        ensures
            s@ == self.blurb_text(),
    {
        match self {
            RealismProfile::Instant => "for the impatient cat",
            RealismProfile::RealisticLeo => "~550ms latency · packet loss on",
            RealismProfile::Dramatic => "maximum uplink theatre",
        }
    }

    /// Resolved phase durations and probabilities for this profile.
    pub fn timings(&self) -> (t: Timings)
        ensures
            t == self.timings_spec(),
    {
        match self {
            RealismProfile::Instant => Timings {
                powering_up_ms: 150,
                acquiring_ms: 500,
                handshaking_ms: 300,
                locked_ms: 120,
                transmitting_ms: 350,
                awaiting_reply_ms: 200,
                receiving_ms: 300,
                total_satellites: 12,
                failure_chance_permille: 50,
                packet_loss_chance_permille: 0,
            },
            RealismProfile::RealisticLeo => Timings {
                powering_up_ms: 800,
                acquiring_ms: 2500,
                handshaking_ms: 1500,
                locked_ms: 300,
                transmitting_ms: 1000,
                awaiting_reply_ms: 550,
                receiving_ms: 700,
                total_satellites: 12,
                failure_chance_permille: 80,
                packet_loss_chance_permille: 180,
            },
            RealismProfile::Dramatic => Timings {
                powering_up_ms: 1200,
                acquiring_ms: 4200,
                handshaking_ms: 2400,
                locked_ms: 450,
                transmitting_ms: 1600,
                awaiting_reply_ms: 2600,
                receiving_ms: 1100,
                total_satellites: 12,
                failure_chance_permille: 100,
                packet_loss_chance_permille: 120,
            },
        }
    }
}

/// Concrete, profile-resolved timing and probability knobs that the
/// ceremony reads. Durations are in milliseconds; the two chances are in
/// thousandths (`80` is an 8% chance).
#[derive(Clone, Copy, Debug, PartialEq, Eq, Structural)]
pub struct Timings {
    pub powering_up_ms: u64,
    pub acquiring_ms: u64,
    pub handshaking_ms: u64,
    pub locked_ms: u64,
    pub transmitting_ms: u64,
    pub awaiting_reply_ms: u64,
    pub receiving_ms: u64,
    pub total_satellites: u32,
    /// Chance in thousandths that the uplink fails outright before delivery.
    pub failure_chance_permille: u32,
    /// Chance in thousandths that the reply is dropped.
    pub packet_loss_chance_permille: u32,
}

impl Timings {
    /// Both chances are proper probabilities (at most a thousand thousandths).
    pub open spec fn chances_valid(self) -> bool {
        &&& self.failure_chance_permille <= 1000
        &&& self.packet_loss_chance_permille <= 1000
    }

    /// Every phase of `self` takes strictly less time than the same phase of `other`.
    pub open spec fn every_phase_shorter_than(self, other: Timings) -> bool {
        &&& self.powering_up_ms < other.powering_up_ms
        &&& self.acquiring_ms < other.acquiring_ms
        &&& self.handshaking_ms < other.handshaking_ms
        &&& self.locked_ms < other.locked_ms
        &&& self.transmitting_ms < other.transmitting_ms
        &&& self.awaiting_reply_ms < other.awaiting_reply_ms
        &&& self.receiving_ms < other.receiving_ms
    }
}


/// Which kind of phase `p` is, ignoring its counts and error.
pub open spec fn phase_kind(p: PawLinkPhase) -> int {
    match p {
        PawLinkPhase::Idle => 0,
        PawLinkPhase::PoweringUp => 1,
        PawLinkPhase::Acquiring { .. } => 2,
        PawLinkPhase::Handshaking => 3,
        PawLinkPhase::Locked => 4,
        PawLinkPhase::Transmitting => 5,
        PawLinkPhase::AwaitingReply => 6,
        PawLinkPhase::Receiving => 7,
        PawLinkPhase::Connected => 8,
        PawLinkPhase::Failed(_) => 9,
    }
}

proof fn lemma_capitals(s: Seq<char>)
    requires
        forall|i: int| 0 <= i < s.len() ==> (#[trigger] s[i] as u32) < 128 && !('a' <= s[i] <= 'z'),
    ensures
        uppercased(s) == s,
{
    assert(is_ascii_text(s));
    assert(ascii_uppercased(s) =~= s);
}

/// The phase readouts: every label is non-empty and in capitals, it depends
/// only on the kind of phase, and different kinds have different labels.
pub proof fn phase_labels_are_distinct_capitals(p: PawLinkPhase, q: PawLinkPhase)
    ensures
        p.label_text().len() > 0,
        uppercased(p.label_text()) == p.label_text(),
        phase_kind(p) == phase_kind(q) ==> p.label_text() == q.label_text(),
        p.label_text() == q.label_text() ==> phase_kind(p) == phase_kind(q),
{
    reveal_strlit("STANDBY");
    reveal_strlit("ENGAGING RELAY");
    reveal_strlit("ACQUIRING PAWLINK");
    reveal_strlit("HANDSHAKING");
    reveal_strlit("SIGNAL LOCKED");
    reveal_strlit("TRANSMITTING");
    reveal_strlit("AWAITING REPLY");
    reveal_strlit("INCOMING");
    reveal_strlit("CONNECTED");
    reveal_strlit("LINK FAILED");
    lemma_capitals(p.label_text());
    if p.label_text() == q.label_text() && phase_kind(p) != phase_kind(q) {
        assert(p.label_text().len() == q.label_text().len());
        assert(p.label_text()[0] == q.label_text()[0]);
        assert(p.label_text()[1] == q.label_text()[1]);
        assert(p.label_text()[2] == q.label_text()[2]);
    }
}

/// The failure headlines: each is non-empty and in capitals, and every
/// error has its own.
pub proof fn error_headlines_are_distinct_capitals(e: PawLinkError, f: PawLinkError)
    ensures
        e.headline_text().len() > 0,
        uppercased(e.headline_text()) == e.headline_text(),
        e.headline_text() == f.headline_text() ==> e == f,
{
    reveal_strlit("SOLAR FLARE");
    reveal_strlit("HAIRBALL INTERFERENCE");
    reveal_strlit("ROUTER OCCUPIED");
    reveal_strlit("BIRD OFF-TASK");
    reveal_strlit("LOW TREATS");
    lemma_capitals(e.headline_text());
    if e.headline_text() == f.headline_text() && e != f {
        assert(e.headline_text().len() == f.headline_text().len());
        assert(e.headline_text()[0] == f.headline_text()[0]);
    }
}

/// Every profile searches the same twelve-bird constellation and its two
/// chances are proper probabilities.
pub proof fn profile_timings_are_valid(p: RealismProfile)
    ensures
        p.timings_spec().chances_valid(),
        p.timings_spec().total_satellites == 12,
{
}

/// Realism is monotone: every phase of the Instant profile is shorter than
/// the same phase of Realistic LEO, which is in turn shorter than Dramatic.
pub proof fn realism_orders_every_phase()
    ensures
        RealismProfile::Instant.timings_spec().every_phase_shorter_than(
            RealismProfile::RealisticLeo.timings_spec(),
        ),
        RealismProfile::RealisticLeo.timings_spec().every_phase_shorter_than(
            RealismProfile::Dramatic.timings_spec(),
        ),
{
}

/// Only the Instant profile has no reply packet loss; the realistic profile
/// waits about 550 ms for a reply and loses some.
pub proof fn packet_loss_only_off_when_instant(p: RealismProfile)
    ensures
        (p.timings_spec().packet_loss_chance_permille == 0) <==> (p == RealismProfile::Instant),
        RealismProfile::RealisticLeo.timings_spec().awaiting_reply_ms == 550,
{
}

} // verus!

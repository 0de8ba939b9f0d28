use pawphone::connection::{
    AudioCue, Ceremony, CeremonyEvent, CeremonyStage, Effect, HapticCue, LogLine, Outcome,
    SharedState, TELEMETRY_CAP,
};
use pawphone::models::MeowPhrase;
use pawphone::phase::{PawLinkError, PawLinkPhase, RealismProfile};

fn phases(effects: &[Effect]) -> Vec<PawLinkPhase> {
    effects
        .iter()
        .filter_map(|e| if let Effect::SetPhase(p) = e { Some(*p) } else { None })
        .collect()
}

fn run(failure: Option<PawLinkError>, lost: bool) -> (Vec<Effect>, CeremonyStage) {
    let mut c = Ceremony::new(RealismProfile::RealisticLeo);
    let mut all = c.step(CeremonyEvent::Start);
    all.extend(c.step(CeremonyEvent::FailureRolled(failure)));
    if c.stage == CeremonyStage::RollingPacketLoss {
        all.extend(c.step(CeremonyEvent::PacketLossRolled(lost)));
    }
    if c.stage == CeremonyStage::ChoosingReply {
        all.extend(c.step(CeremonyEvent::ReplyChosen(MeowPhrase::new("mlem", "yes"))));
    }
    (all, c.stage)
}

#[test]
fn a_delivered_ceremony_walks_every_phase() {
    let (effects, stage) = run(None, false);
    assert_eq!(stage, CeremonyStage::Finished);
    let p = phases(&effects);
    let mut expected = vec![PawLinkPhase::PoweringUp];
    for found in 0..=12 {
        expected.push(PawLinkPhase::Acquiring { found, total: 12 });
    }
    expected.extend([
        PawLinkPhase::Handshaking,
        PawLinkPhase::Locked,
        PawLinkPhase::Transmitting,
        PawLinkPhase::AwaitingReply,
        PawLinkPhase::Receiving,
        PawLinkPhase::Connected,
    ]);
    assert_eq!(p, expected);
    match effects.last() {
        Some(Effect::Finish(Outcome::Delivered { reply: Some(r) })) => assert_eq!(r.meow, "mlem"),
        other => panic!("unexpected last effect {other:?}"),
    }
    let finishes = effects.iter().filter(|e| matches!(e, Effect::Finish(_))).count();
    assert_eq!(finishes, 1);
    assert!(matches!(effects[0], Effect::Begin));
}

#[test]
fn a_failed_roll_ends_after_transmitting() {
    let (effects, stage) = run(Some(PawLinkError::HairballInterference), false);
    assert_eq!(stage, CeremonyStage::Finished);
    let p = phases(&effects);
    assert_eq!(p[p.len() - 2], PawLinkPhase::Transmitting);
    assert_eq!(p[p.len() - 1], PawLinkPhase::Failed(PawLinkError::HairballInterference));
    assert!(effects.iter().any(|e| matches!(e, Effect::Audio(AudioCue::SignalLost(PawLinkError::HairballInterference)))));
    assert!(effects.iter().any(|e| matches!(e, Effect::Haptic(HapticCue::Failed))));
    assert!(matches!(effects.last(), Some(Effect::Finish(Outcome::Lost(PawLinkError::HairballInterference)))));
}

#[test]
fn a_lost_reply_is_a_distracted_bird() {
    let (effects, _) = run(None, true);
    let p = phases(&effects);
    assert_eq!(p[p.len() - 2], PawLinkPhase::AwaitingReply);
    assert_eq!(p[p.len() - 1], PawLinkPhase::Failed(PawLinkError::BirdDistracted));
    assert!(effects.iter().any(|e| matches!(e, Effect::Log(LogLine::ReplyLost))));
    assert!(matches!(effects.last(), Some(Effect::Finish(Outcome::Lost(PawLinkError::BirdDistracted)))));
}

#[test]
fn the_search_shares_its_time_among_the_satellites() {
    let (effects, _) = run(None, false);
    let pings: Vec<u32> = effects
        .iter()
        .filter_map(|e| if let Effect::Audio(AudioCue::Ping(n)) = e { Some(*n) } else { None })
        .collect();
    assert_eq!(pings, (1..=12).collect::<Vec<u32>>());
    assert!(effects.iter().any(|e| matches!(e, Effect::Sleep { millis: 2500, parts: 12 })));
    assert!(effects.iter().any(|e| matches!(e, Effect::Sleep { millis: 800, parts: 1 })));
}

#[test]
fn events_out_of_turn_do_nothing() {
    let mut c = Ceremony::new(RealismProfile::Instant);
    assert!(c.step(CeremonyEvent::PacketLossRolled(true)).is_empty());
    assert_eq!(c.stage, CeremonyStage::Ready);
    c.step(CeremonyEvent::Start);
    c.step(CeremonyEvent::FailureRolled(Some(PawLinkError::LowTreats)));
    assert_eq!(c.stage, CeremonyStage::Finished);
    assert!(c.step(CeremonyEvent::Start).is_empty());
    assert!(c.step(CeremonyEvent::FailureRolled(None)).is_empty());
    assert_eq!(c.stage, CeremonyStage::Finished);
}

#[test]
fn telemetry_keeps_only_the_latest_lines() {
    let mut s = SharedState::idle();
    for i in 0..(TELEMETRY_CAP + 5) {
        s.log(format!("line {i}"));
    }
    let lines = s.telemetry_lines();
    assert_eq!(lines.len(), TELEMETRY_CAP);
    assert_eq!(lines[0], "line 5");
    assert_eq!(lines[TELEMETRY_CAP - 1], format!("line {}", TELEMETRY_CAP + 4));
    s.begin();
    assert!(s.telemetry_lines().is_empty());
    assert!(s.running());
}

#[test]
fn finishing_publishes_once_with_a_new_sequence_number() {
    let mut s = SharedState::idle();
    assert_eq!(s.seq(), 0);
    s.begin();
    s.set_phase(PawLinkPhase::Connected);
    s.finish(Outcome::Lost(PawLinkError::SolarFlare));
    assert_eq!(s.seq(), 1);
    assert!(!s.running());
    assert_eq!(s.phase(), PawLinkPhase::Connected);
    let snap = s.snapshot(0);
    assert!(matches!(snap.new_outcome, Some(Outcome::Lost(PawLinkError::SolarFlare))));
    let again = s.snapshot(1);
    assert!(again.new_outcome.is_none());
    s.begin();
    assert!(s.outcome().is_none());
}

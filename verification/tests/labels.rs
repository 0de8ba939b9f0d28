use pawphone::models::{CatStatus, DeliveryStatus, MeowPhrase};
use pawphone::phase::{PawLinkError, PawLinkPhase, RealismProfile};

#[test]
fn phase_labels_match_the_hud_readouts() {
    assert_eq!(PawLinkPhase::Idle.label(), "STANDBY");
    assert_eq!(PawLinkPhase::PoweringUp.label(), "ENGAGING RELAY");
    assert_eq!(PawLinkPhase::Acquiring { found: 3, total: 12 }.label(), "ACQUIRING PAWLINK");
    assert_eq!(PawLinkPhase::Handshaking.label(), "HANDSHAKING");
    assert_eq!(PawLinkPhase::Locked.label(), "SIGNAL LOCKED");
    assert_eq!(PawLinkPhase::Transmitting.label(), "TRANSMITTING");
    assert_eq!(PawLinkPhase::AwaitingReply.label(), "AWAITING REPLY");
    assert_eq!(PawLinkPhase::Receiving.label(), "INCOMING");
    assert_eq!(PawLinkPhase::Connected.label(), "CONNECTED");
    assert_eq!(PawLinkPhase::Failed(PawLinkError::LowTreats).label(), "LINK FAILED");
}

#[test]
fn every_error_has_its_own_headline_and_detail() {
    assert_eq!(PawLinkError::SolarFlare.headline(), "SOLAR FLARE");
    assert_eq!(PawLinkError::HairballInterference.headline(), "HAIRBALL INTERFERENCE");
    assert_eq!(PawLinkError::CatSatOnRouter.headline(), "ROUTER OCCUPIED");
    assert_eq!(PawLinkError::BirdDistracted.headline(), "BIRD OFF-TASK");
    assert_eq!(PawLinkError::LowTreats.headline(), "LOW TREATS");
    assert_eq!(
        PawLinkError::CatSatOnRouter.detail(),
        "a cat is sitting on the router. it will not move."
    );
    assert_eq!(PawLinkError::LowTreats.detail(), "insufficient treats to maintain orbit");
    let mut headlines: Vec<&str> = PawLinkError::ALL.iter().map(|e| e.headline()).collect();
    headlines.sort();
    headlines.dedup();
    assert_eq!(headlines.len(), 5);
}

#[test]
fn profiles_have_names_and_blurbs() {
    assert_eq!(RealismProfile::Instant.name(), "Instant");
    assert_eq!(RealismProfile::RealisticLeo.name(), "Realistic LEO");
    assert_eq!(RealismProfile::Dramatic.name(), "Dramatic");
    assert_eq!(RealismProfile::RealisticLeo.blurb(), "~550ms latency · packet loss on");
    assert_eq!(RealismProfile::Dramatic.blurb(), "maximum uplink theatre");
    assert_eq!(RealismProfile::Instant.blurb(), "for the impatient cat");
    assert_eq!(RealismProfile::ALL.len(), 3);
}

#[test]
fn model_labels() {
    assert_eq!(CatStatus::Online.label(), "online");
    assert_eq!(CatStatus::Napping.label(), "napping");
    assert_eq!(DeliveryStatus::Sending.glyph(), "◌ sending");
    assert_eq!(DeliveryStatus::Delivered.glyph(), "✓ delivered");
    assert_eq!(DeliveryStatus::Lost(PawLinkError::SolarFlare).glyph(), "✕ lost");
    let p = MeowPhrase::new("mew", "hello");
    assert_eq!(p.meow, "mew");
    assert_eq!(p.subtitle, "hello");
}

#[test]
fn realistic_leo_timings() {
    let t = RealismProfile::RealisticLeo.timings();
    assert_eq!(t.powering_up_ms, 800);
    assert_eq!(t.acquiring_ms, 2500);
    assert_eq!(t.awaiting_reply_ms, 550);
    assert_eq!(t.total_satellites, 12);
    assert_eq!(t.failure_chance_permille, 80);
    assert_eq!(t.packet_loss_chance_permille, 180);
}

#[test]
fn realism_slows_every_phase() {
    let a = RealismProfile::Instant.timings();
    let b = RealismProfile::RealisticLeo.timings();
    let c = RealismProfile::Dramatic.timings();
    for (x, y) in [(a, b), (b, c)] {
        assert!(x.powering_up_ms < y.powering_up_ms);
        assert!(x.acquiring_ms < y.acquiring_ms);
        assert!(x.handshaking_ms < y.handshaking_ms);
        assert!(x.locked_ms < y.locked_ms);
        assert!(x.transmitting_ms < y.transmitting_ms);
        assert!(x.awaiting_reply_ms < y.awaiting_reply_ms);
        assert!(x.receiving_ms < y.receiving_ms);
    }
    assert_eq!(a.packet_loss_chance_permille, 0);
    for p in RealismProfile::ALL {
        let t = p.timings();
        assert!(t.failure_chance_permille <= 1000 && t.packet_loss_chance_permille <= 1000);
        assert_eq!(t.total_satellites, 12);
    }
}

#[test]
fn labels_and_headlines_are_distinct_capitals() {
    let phases = [
        PawLinkPhase::Idle,
        PawLinkPhase::PoweringUp,
        PawLinkPhase::Acquiring { found: 0, total: 12 },
        PawLinkPhase::Handshaking,
        PawLinkPhase::Locked,
        PawLinkPhase::Transmitting,
        PawLinkPhase::AwaitingReply,
        PawLinkPhase::Receiving,
        PawLinkPhase::Connected,
        PawLinkPhase::Failed(PawLinkError::SolarFlare),
    ];
    let mut labels: Vec<&str> = phases.iter().map(|p| p.label()).collect();
    assert!(labels.iter().all(|l| !l.is_empty() && l.to_uppercase() == *l));
    labels.sort();
    labels.dedup();
    assert_eq!(labels.len(), 10);
    assert_eq!(
        PawLinkPhase::Acquiring { found: 3, total: 12 }.label(),
        PawLinkPhase::Acquiring { found: 9, total: 4 }.label()
    );
    for e in PawLinkError::ALL {
        assert!(!e.headline().is_empty() && e.headline().to_uppercase() == e.headline());
    }
}

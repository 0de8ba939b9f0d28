use pawphone::models::{Cat, CatPersona, CatStatus};
use pawphone::personality::{
    chance_hits, failure_from_draws, phrasebook, reply_bank, roll_failure, roll_packet_loss, translate_to_meow, weighted_reply,
};
use pawphone::phase::{PawLinkError, RealismProfile};

fn cat(persona: CatPersona) -> Cat {
    Cat {
        id: 7,
        name: "Pixel".to_string(),
        avatar: String::new(),
        signal_bits: 0x3f000000,
        status: CatStatus::Online,
        persona,
    }
}

#[test]
fn phrasebook_has_ten_presets_in_order() {
    let p = phrasebook();
    assert_eq!(p.len(), 10);
    assert_eq!(p[0].meow, "Mrrp?");
    assert_eq!(p[0].subtitle, "where is the food");
    assert_eq!(p[9].meow, "meow meow meow");
    assert_eq!(p[9].subtitle, "pet me. do not pet me. decide later.");
}

#[test]
fn reply_banks_hold_four_replies_each() {
    for persona in [CatPersona::FoodObsessed, CatPersona::Aloof, CatPersona::Chaotic, CatPersona::Needy] {
        assert_eq!(reply_bank(persona).len(), 4);
    }
    assert_eq!(reply_bank(CatPersona::Chaotic)[3].meow, "mlem");
}

#[test]
fn blank_text_translates_to_mew() {
    let p = translate_to_meow("   ");
    assert_eq!(p.meow, "mew");
    assert_eq!(p.subtitle, "");
}

#[test]
fn translation_trims_the_subtitle() {
    let p = translate_to_meow("  hi there \n");
    assert_eq!(p.subtitle, "hi there");
    // 8 characters after trimming: two r's
    assert_eq!(p.meow, "mrrp");
}

#[test]
fn shouting_translates_to_mrow() {
    assert_eq!(translate_to_meow("FOOD NOW").meow, "MROW");
    assert_eq!(translate_to_meow("ÉCLAIR").meow, "MROW");
    // exactly half uppercase is not a majority
    assert_eq!(translate_to_meow("ABcd").meow, "mrp");
}

#[test]
fn r_count_is_clamped_between_one_and_five() {
    assert_eq!(translate_to_meow("a").meow, "mrp");
    assert_eq!(translate_to_meow("abcdefghijkl").meow, "mrrrp");
    let long = "a".repeat(400);
    assert_eq!(translate_to_meow(&long).meow, "mrrrrrp");
}

#[test]
fn translation_is_deterministic_on_concrete_text() {
    let a = translate_to_meow("where is my dinner?");
    let b = translate_to_meow("where is my dinner?");
    assert_eq!(a.meow, b.meow);
    assert_eq!(a.subtitle, b.subtitle);
}

#[test]
fn replies_come_from_the_persona_bank() {
    for persona in [CatPersona::FoodObsessed, CatPersona::Aloof, CatPersona::Chaotic, CatPersona::Needy] {
        let bank = reply_bank(persona);
        for _ in 0..20 {
            let r = weighted_reply(&cat(persona), "hello");
            assert!(bank.iter().any(|p| p.meow == r.meow && p.subtitle == r.subtitle));
        }
    }
}

#[test]
fn certain_and_impossible_rolls() {
    let mut t = RealismProfile::Instant.timings();
    for _ in 0..50 {
        assert!(!roll_packet_loss(&t));
    }
    t.failure_chance_permille = 0;
    for _ in 0..50 {
        assert!(roll_failure(&t).is_none());
    }
    t.failure_chance_permille = 1000;
    t.packet_loss_chance_permille = 1000;
    for _ in 0..50 {
        let e = roll_failure(&t).expect("a certain failure");
        assert!(PawLinkError::ALL.contains(&e));
        assert!(roll_packet_loss(&t));
    }
}

#[test]
fn a_draw_hits_below_the_chance() {
    assert!(chance_hits(80, 0));
    assert!(chance_hits(80, 79));
    assert!(!chance_hits(80, 80));
    assert!(!chance_hits(0, 0));
    assert!(chance_hits(1000, 999));
}

#[test]
fn translating_trimmed_text_gives_the_same_phrase() {
    for text in ["  hi there \n", "\u{3000}FOOD\u{2003}", "", "a b c d e f g h i"] {
        let once = translate_to_meow(text);
        let twice = translate_to_meow(text.trim());
        assert_eq!(once.meow, twice.meow);
        assert_eq!(once.subtitle, twice.subtitle);
    }
    // ideographic and em spaces are trimmed too
    assert_eq!(translate_to_meow("\u{3000}FOOD\u{2003}").subtitle, "FOOD");
}

#[test]
fn failure_follows_the_draw_and_the_pick() {
    assert_eq!(failure_from_draws(80, 79, PawLinkError::CatSatOnRouter), Some(PawLinkError::CatSatOnRouter));
    assert_eq!(failure_from_draws(80, 80, PawLinkError::CatSatOnRouter), None);
    assert_eq!(failure_from_draws(0, 0, PawLinkError::SolarFlare), None);
    assert_eq!(failure_from_draws(1000, 999, PawLinkError::LowTreats), Some(PawLinkError::LowTreats));
}

#[test]
fn permille_draws_cover_their_range() {
    let mut low = false;
    let mut high = false;
    for _ in 0..5000 {
        let d = pawphone::chance::draw_permille();
        assert!(d < 1000);
        low |= d < 100;
        high |= d >= 900;
    }
    assert!(low && high);
}

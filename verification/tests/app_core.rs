use pawphone::app::PawPhoneApp;
use pawphone::connection::{Outcome, SharedState};
use pawphone::models::{DeliveryStatus, MeowPhrase, Screen};
use pawphone::persistence::Store;
use pawphone::phase::{PawLinkError, PawLinkPhase, RealismProfile};

fn app_in_thread(cat_id: i64) -> PawPhoneApp {
    let mut app = PawPhoneApp::new(Store::in_memory());
    app.open_thread(cat_id);
    app
}

fn outcome_snapshot(seq_bumps: u64, outcome: Outcome, last_seq: u64) -> pawphone::connection::Snapshot {
    let mut s = SharedState::idle();
    for _ in 0..seq_bumps {
        s.finish(outcome.clone());
    }
    s.set_phase(PawLinkPhase::Connected);
    s.log("done".to_string());
    s.snapshot(last_seq)
}

#[test]
fn a_new_app_starts_on_contacts() {
    let app = PawPhoneApp::new(Store::in_memory());
    assert_eq!(app.screen, Screen::Contacts);
    assert_eq!(app.profile, RealismProfile::RealisticLeo);
    assert_eq!(app.cats.len(), 4);
    assert!(!app.busy && !app.hud_visible);
    assert_eq!(app.cat(2).unwrap().name, "Mittens");
    assert!(app.cat(42).is_none());
}

#[test]
fn sending_outside_a_thread_does_nothing() {
    let mut app = PawPhoneApp::new(Store::in_memory());
    assert!(app.send_phrase(MeowPhrase::new("mew", "hi"), 1000).is_none());
    assert!(!app.busy);
    assert!(app.store.load_messages(1).is_empty());
}

#[test]
fn sending_stores_the_message_and_requests_a_ceremony() {
    let mut app = app_in_thread(3);
    let req = app.send_phrase(MeowPhrase::new("prrrt", "I acknowledge your existence"), 1234).unwrap();
    assert_eq!(req.cat.id, 3);
    assert_eq!(req.incoming, "I acknowledge your existence");
    assert_eq!(req.profile, RealismProfile::RealisticLeo);
    assert!(app.busy && app.hud_visible);
    assert_eq!(app.pending_message_id, Some(1));
    assert_eq!(app.pending_cat_id, Some(3));
    assert_eq!(app.current_messages.len(), 1);
    let m = &app.current_messages[0];
    assert!(m.from_me);
    assert_eq!(m.meow, "prrrt");
    assert_eq!(m.status, DeliveryStatus::Sending);
    assert_eq!(m.created_at, 1234);
}

#[test]
fn typed_text_is_translated_and_the_buffer_cleared() {
    let mut app = app_in_thread(1);
    app.compose = "   ".to_string();
    assert!(app.send_typed(5).is_none());
    assert_eq!(app.compose, "   ");
    app.compose = "  FEED ME  ".to_string();
    let req = app.send_typed(6).unwrap();
    assert_eq!(app.compose, "");
    assert_eq!(req.incoming, "FEED ME");
    assert_eq!(app.current_messages[0].meow, "MROW");
}

#[test]
fn a_delivery_stores_the_reply_and_lingers() {
    let mut app = app_in_thread(2);
    app.send_phrase(MeowPhrase::new("mew", "hello"), 100).unwrap();
    let reply = MeowPhrase::new("MEW MEW", "pet me immediately, it has been 4 seconds");
    let snap = outcome_snapshot(1, Outcome::Delivered { reply: Some(reply) }, app.last_seq);
    app.poll(snap, 200, 10_000);
    assert!(!app.busy);
    assert_eq!(app.last_seq, 1);
    assert_eq!(app.pending_message_id, None);
    assert_eq!(app.live_phase, PawLinkPhase::Connected);
    assert_eq!(app.live_telemetry, vec!["done".to_string()]);
    assert_eq!(app.current_messages.len(), 2);
    assert_eq!(app.current_messages[0].status, DeliveryStatus::Delivered);
    assert!(!app.current_messages[1].from_me);
    assert_eq!(app.current_messages[1].meow, "MEW MEW");
    assert_eq!(app.current_messages[1].created_at, 200);
    assert!(app.hud_visible);
    assert_eq!(app.connected_at_ms, Some(10_000));
    // still lingering at 1.1 s, hidden after
    let quiet = SharedState::idle().snapshot(app.last_seq);
    app.poll(quiet, 300, 11_100);
    assert!(app.hud_visible);
    let quiet = SharedState::idle().snapshot(app.last_seq);
    app.poll(quiet, 300, 11_101);
    assert!(!app.hud_visible);
    assert_eq!(app.connected_at_ms, None);
}

#[test]
fn an_outcome_is_applied_only_once() {
    let mut app = app_in_thread(2);
    app.send_phrase(MeowPhrase::new("mew", "hello"), 100).unwrap();
    let outcome = Outcome::Delivered { reply: Some(MeowPhrase::new("mlem", "?")) };
    app.poll(outcome_snapshot(1, outcome.clone(), 0), 200, 1);
    assert_eq!(app.store.load_messages(2).len(), 2);
    // the same outcome seen again (stale sequence number) changes nothing
    app.poll(outcome_snapshot(1, outcome, 0), 300, 2);
    assert_eq!(app.store.load_messages(2).len(), 2);
}

#[test]
fn a_loss_keeps_the_message_pending_and_resend_reuses_its_words() {
    let mut app = app_in_thread(4);
    app.send_phrase(MeowPhrase::new("MROW", "the food bowl is empty"), 100).unwrap();
    app.poll(outcome_snapshot(1, Outcome::Lost(PawLinkError::LowTreats), 0), 200, 1);
    assert!(!app.busy);
    assert_eq!(app.pending_message_id, Some(1));
    assert_eq!(app.current_messages[0].status, DeliveryStatus::Lost(PawLinkError::LowTreats));
    let req = app.resend().unwrap();
    assert_eq!(req.incoming, "the food bowl is empty");
    assert_eq!(req.cat.id, 4);
    assert!(app.busy && app.hud_visible);
    assert_eq!(app.current_messages.len(), 1);
    assert_eq!(app.current_messages[0].status, DeliveryStatus::Sending);
}

#[test]
fn resend_without_a_pending_message_does_nothing() {
    let mut app = app_in_thread(1);
    assert!(app.resend().is_none());
    assert!(!app.busy);
}

#[test]
fn dismissing_hides_the_hud() {
    let mut app = app_in_thread(1);
    app.send_phrase(MeowPhrase::new("mew", "x"), 1).unwrap();
    app.dismiss_hud();
    assert!(!app.hud_visible);
    assert_eq!(app.connected_at_ms, None);
}

use pawphone::models::{CatPersona, CatStatus, DeliveryStatus, Message};
use pawphone::persistence::{Db, Store};
use pawphone::phase::PawLinkError;

fn msg(cat_id: i64, created_at: i64, text: &str) -> Message {
    Message {
        id: 0,
        cat_id,
        from_me: true,
        meow: "mew".to_string(),
        subtitle: text.to_string(),
        status: DeliveryStatus::Sending,
        created_at,
    }
}

#[test]
fn in_memory_store_is_seeded_with_four_cats() {
    let store = Store::in_memory();
    let cats = store.load_cats();
    assert_eq!(cats.len(), 4);
    let names: Vec<&str> = cats.iter().map(|c| c.name.as_str()).collect();
    assert_eq!(names, vec!["Sir Whiskers", "Mittens", "The Orange One", "Biscuit"]);
    assert_eq!(cats.iter().map(|c| c.id).collect::<Vec<_>>(), vec![1, 2, 3, 4]);
    assert_eq!(cats[1].status, CatStatus::Napping);
    assert_eq!(cats[3].persona, CatPersona::FoodObsessed);
    assert_eq!(f32::from_bits(cats[0].signal_bits), 0.82);
    assert_eq!(f32::from_bits(cats[3].signal_bits), 0.40);
    let avatars: Vec<&str> = cats.iter().map(|c| c.avatar.as_str()).collect();
    assert_eq!(avatars, vec!["🐱", "🧤", "🟠", "🐾"]);
    assert!(cats.iter().all(|c| c.avatar.chars().count() == 1));
    assert!(store.load_messages(1).is_empty());
}

#[test]
fn opening_keeps_existing_cats_and_marks_unsaved() {
    let seeded = Store::in_memory();
    let mut db = Db::default();
    db.cats.push(seeded.load_cats()[2].clone());
    db.next_message_id = 9;
    let mut store = Store::open(db);
    assert_eq!(store.load_cats().len(), 1);
    assert_eq!(store.db().next_message_id, 9);
    assert!(store.take_unsaved());
    assert!(!store.take_unsaved());
    let fresh = Store::open(Db::default());
    assert_eq!(fresh.load_cats().len(), 4);
}

#[test]
fn insert_assigns_increasing_ids() {
    let mut store = Store::in_memory();
    assert_eq!(store.insert_message(&msg(1, 10, "a")), 1);
    assert_eq!(store.insert_message(&msg(2, 11, "b")), 2);
    assert_eq!(store.insert_message(&msg(1, 12, "c")), 3);
    assert!(store.take_unsaved());
    let ids: Vec<i64> = store.db().messages.iter().map(|m| m.id).collect();
    assert_eq!(ids, vec![1, 2, 3]);
}

#[test]
fn what_is_inserted_is_listed_in_its_thread() {
    let mut store = Store::in_memory();
    let id = store.insert_message(&msg(3, 500, "hello"));
    let thread = store.load_messages(3);
    assert_eq!(thread.len(), 1);
    assert_eq!(thread[0].id, id);
    assert_eq!(thread[0].subtitle, "hello");
    assert!(store.load_messages(4).is_empty());
}

#[test]
fn threads_are_sorted_by_time_then_id() {
    let mut store = Store::in_memory();
    store.insert_message(&msg(1, 30, "third"));
    store.insert_message(&msg(2, 5, "other cat"));
    store.insert_message(&msg(1, 10, "first"));
    store.insert_message(&msg(1, 30, "fourth"));
    store.insert_message(&msg(1, 20, "second"));
    let thread = store.load_messages(1);
    let texts: Vec<&str> = thread.iter().map(|m| m.subtitle.as_str()).collect();
    assert_eq!(texts, vec!["first", "second", "third", "fourth"]);
}

#[test]
fn equal_keys_keep_their_stored_order() {
    let mut db = Db::default();
    for (i, text) in ["x", "y", "z"].iter().enumerate() {
        let mut m = msg(1, 100, text);
        m.id = 7;
        if i == 1 {
            m.created_at = 50;
        }
        db.messages.push(m);
    }
    let store = Store::open(db);
    let texts: Vec<String> = store.load_messages(1).into_iter().map(|m| m.subtitle).collect();
    assert_eq!(texts, vec!["y", "x", "z"]);
}

#[test]
fn status_update_touches_only_the_first_matching_message() {
    let mut store = Store::in_memory();
    let a = store.insert_message(&msg(1, 1, "a"));
    let b = store.insert_message(&msg(1, 2, "b"));
    store.take_unsaved();
    store.update_message_status(b, DeliveryStatus::Lost(PawLinkError::SolarFlare));
    assert!(store.take_unsaved());
    let thread = store.load_messages(1);
    assert_eq!(thread[0].id, a);
    assert_eq!(thread[0].status, DeliveryStatus::Sending);
    assert_eq!(thread[1].status, DeliveryStatus::Lost(PawLinkError::SolarFlare));
    assert_eq!(thread[1].subtitle, "b");
    store.update_message_status(99, DeliveryStatus::Delivered);
    assert!(store.take_unsaved());
    assert_eq!(store.load_messages(1)[0].status, DeliveryStatus::Sending);
}

#[test]
fn a_listing_holds_each_thread_message_exactly_once() {
    let mut store = Store::in_memory();
    for (cat, t) in [(1, 9), (2, 3), (1, 4), (1, 9), (3, 1), (1, 2)] {
        store.insert_message(&msg(cat, t, "m"));
    }
    let thread = store.load_messages(1);
    let mut listed: Vec<i64> = thread.iter().map(|m| m.id).collect();
    listed.sort();
    let mut stored: Vec<i64> = store.db().messages.iter().filter(|m| m.cat_id == 1).map(|m| m.id).collect();
    stored.sort();
    assert_eq!(listed, stored);
    let times: Vec<i64> = thread.iter().map(|m| m.created_at).collect();
    assert_eq!(times, vec![2, 4, 9, 9]);
}

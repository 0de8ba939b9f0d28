//! The application's state and decisions: which screen is open, what the
//! compose bar holds, which message is in flight, and how each outcome of a
//! ceremony lands in the store. The window, the clock and the worker thread
//! belong to the caller, which hands in times and ceremony snapshots and
//! queues the send requests this returns.

use vstd::prelude::*;
use vstd::string::*;
use crate::connection::{Outcome, SendRequest, Snapshot};
use crate::models::{Cat, DeliveryStatus, Message, MeowPhrase, Screen};
use crate::persistence::{is_thread_listing, status_updated, Store, StoreContents};
use crate::personality::{meow_text, translate_to_meow, translating_trimmed_text_changes_nothing};
use crate::phase::{PawLinkPhase, RealismProfile};
use crate::text::{trim, trimmed};

verus! {

/// How long the success HUD lingers after delivery before hiding, in ms.
pub const CONNECTED_LINGER_MS: u64 = 1100;

/// The first cat with id `id`.
pub open spec fn find_cat(cats: Seq<Cat>, id: i64) -> Option<Cat>
    decreases cats.len(),
{
    if cats.len() == 0 {
        None
    } else if cats[0].id == id {
        Some(cats[0])
    } else {
        find_cat(cats.drop_first(), id)
    }
}

/// The first message with id `id`.
pub open spec fn find_message(messages: Seq<Message>, id: i64) -> Option<Message>
    decreases messages.len(),
{
    if messages.len() == 0 {
        None
    } else if messages[0].id == id {
        Some(messages[0])
    } else {
        find_message(messages.drop_first(), id)
    }
}

proof fn lemma_found_cat_has_id(cats: Seq<Cat>, id: i64)
    ensures
        find_cat(cats, id) matches Some(c) ==> c.id == id,
    decreases cats.len(),
{
    if cats.len() > 0 && cats[0].id != id {
        lemma_found_cat_has_id(cats.drop_first(), id);
    }
}

pub struct PawPhoneApp {
    pub store: Store,
    pub cats: Vec<Cat>,
    /// Messages of the open thread (reloaded on change).
    pub current_messages: Vec<Message>,
    pub screen: Screen,
    pub profile: RealismProfile,
    pub compose: String,
    /// Sequence number of the last outcome applied, so each applies once.
    pub last_seq: u64,
    pub pending_message_id: Option<i64>,
    pub pending_cat_id: Option<i64>,
    pub hud_visible: bool,
    /// UI time (ms) of delivery; drives the success HUD's auto-hide.
    pub connected_at_ms: Option<u64>,
    /// A ceremony is dispatched and awaiting its outcome.
    pub busy: bool,
    /// Live ceremony snapshot, refreshed each frame for the HUD.
    pub live_phase: PawLinkPhase,
    pub live_telemetry: Vec<String>,
}

/// `after` shows, for the open screen of `after`, the conversation stored in
/// `after`'s store; with no thread open it keeps `before`'s messages.
pub open spec fn thread_reloaded(before: PawPhoneApp, after: PawPhoneApp) -> bool {
    match after.screen {
        Screen::Thread { cat_id } => is_thread_listing(
            after.current_messages@,
            after.store@.messages,
            cat_id,
        ),
        _ => after.current_messages == before.current_messages,
    }
}

/// The fields that sending, resending and outcomes never touch.
pub open spec fn keeps_settings(before: PawPhoneApp, after: PawPhoneApp) -> bool {
    &&& after.cats == before.cats
    &&& after.screen == before.screen
    &&& after.profile == before.profile
    &&& after.compose == before.compose
    &&& after.last_seq == before.last_seq
    &&& after.live_phase == before.live_phase
    &&& after.live_telemetry == before.live_telemetry
}

/// The cat that a send from `app` goes to, if any: the open thread's cat,
/// when it is known.
pub open spec fn send_target(app: PawPhoneApp) -> Option<Cat> {
    match app.screen {
        Screen::Thread { cat_id } => find_cat(app.cats@, cat_id),
        _ => None,
    }
}

/// `after` and `req` are what sending a phrase with texts `meow` and
/// `subtitle` at wall-clock time `now_ms` makes of `before`: outside a thread
/// with a known cat nothing happens; otherwise the message is stored as sent
/// by me and `Sending`, becomes the pending message, the HUD opens, and a
/// ceremony for that cat, with the subtitle as its intent, is requested.
pub open spec fn phrase_sent(
    before: PawPhoneApp,
    after: PawPhoneApp,
    meow: Seq<char>,
    subtitle: Seq<char>,
    now_ms: i64,
    req: Option<SendRequest>,
) -> bool {
    match send_target(before) {
        None => req is None && after == before,
        Some(cat) => {
            let id = (before.store@.next_message_id + 1) as i64;
            let m = after.store@.messages.last();
            &&& after.store@ == (StoreContents {
                messages: before.store@.messages.push(m),
                next_message_id: id,
                unsaved: true,
                ..before.store@
            })
            &&& m.id == id && m.cat_id == cat.id && m.from_me && m.meow@ == meow && m.subtitle@ == subtitle
            &&& m.status == DeliveryStatus::Sending && m.created_at == now_ms
            &&& after.pending_message_id == Some(id)
            &&& after.pending_cat_id == Some(cat.id)
            &&& thread_reloaded(before, after)
            &&& after.hud_visible && after.connected_at_ms is None && after.busy
            &&& keeps_settings(before, after)
            &&& req matches Some(r) && r.cat == cat && r.incoming@ == subtitle && r.profile == before.profile
        },
    }
}


/// Applying `outcome` to `app` stores the other cat's reply: a delivery
/// with a reply, while a message and its cat are pending.
pub open spec fn stores_reply(app: PawPhoneApp, outcome: Outcome) -> bool {
    &&& app.pending_message_id is Some
    &&& app.pending_cat_id is Some
    &&& outcome matches Outcome::Delivered { reply: Some(_) }
}

/// The pending message, its cat and its shown copy, when a resend is possible.
pub open spec fn resend_target(app: PawPhoneApp) -> Option<(i64, Cat, Message)> {
    match (app.pending_message_id, app.pending_cat_id) {
        (Some(id), Some(cat_id)) => match (find_cat(app.cats@, cat_id), find_message(app.current_messages@, id)) {
            (Some(cat), Some(m)) => Some((id, cat, m)),
            _ => None,
        },
        _ => None,
    }
}

/// `after` and `req` are what resending makes of `before`: with a pending
/// message shown in the open thread and a known cat, the message goes back to
/// `Sending` (nothing new is stored) and a ceremony with the same words is
/// requested; otherwise nothing happens.
pub open spec fn resent(before: PawPhoneApp, after: PawPhoneApp, req: Option<SendRequest>) -> bool {
    match resend_target(before) {
        None => req is None && after == before,
        Some((id, cat, m)) => {
            &&& after.store@ == (StoreContents {
                messages: status_updated(before.store@.messages, id, DeliveryStatus::Sending),
                unsaved: true,
                ..before.store@
            })
            &&& thread_reloaded(before, after)
            &&& after.hud_visible && after.connected_at_ms is None && after.busy
            &&& after.pending_message_id == before.pending_message_id
            &&& after.pending_cat_id == before.pending_cat_id
            &&& keeps_settings(before, after)
            &&& req matches Some(r) && r.cat == cat && r.incoming@ == m.subtitle@ && r.profile == before.profile
        },
    }
}

/// `after` is `before` with a ceremony's outcome applied at wall-clock time
/// `wall_ms` and UI time `ui_ms`. Any outcome ends the in-flight ceremony.
/// With a pending message: a delivery marks it delivered, stores the reply
/// (from the other cat, delivered) and starts the success HUD's linger; a
/// loss marks it lost and keeps it pending so it can be resent.
pub open spec fn outcome_applied(
    before: PawPhoneApp,
    after: PawPhoneApp,
    outcome: Outcome,
    wall_ms: i64,
    ui_ms: u64,
) -> bool {
    match before.pending_message_id {
        None => after == (PawPhoneApp { busy: false, ..before }),
        Some(id) => {
            &&& !after.busy
            &&& thread_reloaded(before, after)
            &&& keeps_settings(before, after)
            &&& after.hud_visible == before.hud_visible
            &&& after.pending_cat_id == before.pending_cat_id
            &&& match outcome {
                Outcome::Lost(err) => {
                    &&& after.store@ == (StoreContents {
                        messages: status_updated(before.store@.messages, id, DeliveryStatus::Lost(err)),
                        unsaved: true,
                        ..before.store@
                    })
                    &&& after.pending_message_id == before.pending_message_id
                    &&& after.connected_at_ms == before.connected_at_ms
                },
                Outcome::Delivered { reply } => {
                    let delivered = status_updated(before.store@.messages, id, DeliveryStatus::Delivered);
                    &&& after.pending_message_id is None
                    &&& after.connected_at_ms == Some(ui_ms)
                    &&& match (reply, before.pending_cat_id) {
                        (Some(r), Some(cat_id)) => {
                            let next = (before.store@.next_message_id + 1) as i64;
                            let m = after.store@.messages.last();
                            &&& after.store@ == (StoreContents {
                                messages: delivered.push(m),
                                next_message_id: next,
                                unsaved: true,
                                ..before.store@
                            })
                            &&& m.id == next && m.cat_id == cat_id && !m.from_me
                            &&& m.meow@ == r.meow@ && m.subtitle@ == r.subtitle@
                            &&& m.status == DeliveryStatus::Delivered && m.created_at == wall_ms
                        },
                        _ => after.store@ == (StoreContents { messages: delivered, unsaved: true, ..before.store@ }),
                    }
                },
            }
        },
    }
}

/// The success HUD hides itself once it has lingered past
/// `CONNECTED_LINGER_MS` of UI time.
pub open spec fn lingered(app: PawPhoneApp, ui_ms: u64) -> PawPhoneApp {
    match app.connected_at_ms {
        Some(t0) => if ui_ms >= t0 && ui_ms - t0 > CONNECTED_LINGER_MS {
            PawPhoneApp { hud_visible: false, connected_at_ms: None, ..app }
        } else {
            app
        },
        None => app,
    }
}

/// `after` is `before` after one frame's poll of the ceremony snapshot
/// `snap`: the live phase and telemetry are copied, an outcome newer than
/// the last one applied is applied (once), then the success HUD may hide.
pub open spec fn polled(before: PawPhoneApp, after: PawPhoneApp, snap: Snapshot, wall_ms: i64, ui_ms: u64) -> bool {
    let fresh = snap.seq > before.last_seq;
    let seen = PawPhoneApp {
        live_phase: snap.phase,
        live_telemetry: snap.telemetry,
        last_seq: if fresh { snap.seq } else { before.last_seq },
        ..before
    };
    let applies = fresh && snap.new_outcome is Some;
    let mid_connected = if applies && seen.pending_message_id is Some && snap.new_outcome.unwrap() is Delivered {
        Some(ui_ms)
    } else {
        seen.connected_at_ms
    };
    let mid = PawPhoneApp { hud_visible: seen.hud_visible, connected_at_ms: mid_connected, ..after };
    &&& if applies {
        outcome_applied(seen, mid, snap.new_outcome.unwrap(), wall_ms, ui_ms)
    } else {
        mid == seen
    }
    &&& after == lingered(mid, ui_ms)
}


/// Each outcome lands once: after a poll the app has seen the snapshot's
/// sequence number, and a snapshot it has already seen changes none of its
/// data (store, pending message, in-flight flag, shown messages).
pub proof fn an_outcome_applies_at_most_once(
    before: PawPhoneApp,
    after: PawPhoneApp,
    snap: Snapshot,
    wall_ms: i64,
    ui_ms: u64,
)
    requires
        polled(before, after, snap, wall_ms, ui_ms),
    ensures
        after.last_seq >= snap.seq,
        after.last_seq >= before.last_seq,
        snap.seq <= before.last_seq ==> {
            &&& after.store == before.store
            &&& after.pending_message_id == before.pending_message_id
            &&& after.pending_cat_id == before.pending_cat_id
            &&& after.busy == before.busy
            &&& after.current_messages == before.current_messages
        },
{
}

/// Any new outcome means the in-flight ceremony has ended: the app is no
/// longer busy, so resend and dismiss are offered again.
pub proof fn a_new_outcome_ends_the_flight(
    before: PawPhoneApp,
    after: PawPhoneApp,
    snap: Snapshot,
    wall_ms: i64,
    ui_ms: u64,
)
    requires
        polled(before, after, snap, wall_ms, ui_ms),
        snap.seq > before.last_seq,
        snap.new_outcome is Some,
    ensures
        !after.busy,
{
}

/// A lost message stays pending (so it can be resent) and is marked lost
/// with the flavor of its failure; a delivered one stops being pending.
pub proof fn lost_messages_stay_pending(
    before: PawPhoneApp,
    after: PawPhoneApp,
    outcome: Outcome,
    wall_ms: i64,
    ui_ms: u64,
)
    requires
        outcome_applied(before, after, outcome, wall_ms, ui_ms),
        before.pending_message_id is Some,
    ensures
        outcome matches Outcome::Lost(err) ==> after.pending_message_id == before.pending_message_id
            && after.store@.messages == status_updated(
            before.store@.messages,
            before.pending_message_id.unwrap(),
            DeliveryStatus::Lost(err),
        ),
        outcome is Delivered ==> after.pending_message_id is None,
{
}

/// A delivered reply is stored word for word. When a poll applies a fresh
/// delivery with reply `reply` while a message and its cat are pending, the
/// store gains exactly one message after the earlier ones (the pending one
/// now delivered): from the pending cat, not from me, delivered, stamped
/// with the wall-clock time, with the reply's own meow and subtitle.
pub proof fn a_delivered_reply_is_stored_word_for_word(
    before: PawPhoneApp,
    after: PawPhoneApp,
    snap: Snapshot,
    reply: MeowPhrase,
    wall_ms: i64,
    ui_ms: u64,
)
    requires
        polled(before, after, snap, wall_ms, ui_ms),
        snap.seq > before.last_seq,
        snap.new_outcome == Some(Outcome::Delivered { reply: Some(reply) }),
        before.pending_message_id is Some,
        before.pending_cat_id is Some,
    ensures
        after.store@.messages.len() == before.store@.messages.len() + 1,
        after.store@.messages.drop_last() == status_updated(
            before.store@.messages,
            before.pending_message_id.unwrap(),
            DeliveryStatus::Delivered,
        ),
        after.store@.messages.last().meow@ == reply.meow@,
        after.store@.messages.last().subtitle@ == reply.subtitle@,
        !after.store@.messages.last().from_me,
        after.store@.messages.last().cat_id == before.pending_cat_id.unwrap(),
        after.store@.messages.last().status == DeliveryStatus::Delivered,
        after.store@.messages.last().created_at == wall_ms,
        after.pending_message_id is None,
{
    let id = before.pending_message_id.unwrap();
    let delivered = status_updated(before.store@.messages, id, DeliveryStatus::Delivered);
    let m = after.store@.messages.last();
    assert(after.store@.messages == delivered.push(m));
    assert(delivered.push(m).drop_last() =~= delivered);
}

/// A send goes out with the realism profile chosen in the app: sending to
/// the open thread's known cat requests a ceremony for that cat, under the
/// app's current profile, with the sent subtitle as its intent, and leaves
/// the chosen profile as it was.
pub proof fn a_send_uses_the_chosen_profile(
    before: PawPhoneApp,
    after: PawPhoneApp,
    meow: Seq<char>,
    subtitle: Seq<char>,
    now_ms: i64,
    req: Option<SendRequest>,
)
    requires
        phrase_sent(before, after, meow, subtitle, now_ms, req),
        send_target(before) is Some,
    ensures
        req is Some,
        req.unwrap().profile == before.profile,
        req.unwrap().cat == send_target(before).unwrap(),
        req.unwrap().incoming@ == subtitle,
        after.profile == before.profile,
{
}

/// A resend goes out with the realism profile chosen in the app: resending
/// the pending message requests a ceremony for its cat, under the app's
/// current profile, with the message's own subtitle as its intent.
pub proof fn a_resend_uses_the_chosen_profile(before: PawPhoneApp, after: PawPhoneApp, req: Option<SendRequest>)
    requires
        resent(before, after, req),
        resend_target(before) is Some,
    ensures
        req is Some,
        req.unwrap().profile == before.profile,
        req.unwrap().cat == resend_target(before).unwrap().1,
        req.unwrap().incoming@ == resend_target(before).unwrap().2.subtitle@,
        after.profile == before.profile,
{
}

impl PawPhoneApp {
    /// The app over an opened store: the contacts screen, Realistic LEO,
    /// nothing in flight.
    pub fn new(store: Store) -> (app: PawPhoneApp)
        ensures
            app.cats@ == store@.cats,
            app.store == store,
            app.current_messages@.len() == 0,
            app.screen == Screen::Contacts,
            app.profile == RealismProfile::RealisticLeo,
            app.compose@.len() == 0,
            app.last_seq == 0,
            app.pending_message_id is None,
            app.pending_cat_id is None,
            !app.hud_visible,
            app.connected_at_ms is None,
            !app.busy,
            app.live_phase == PawLinkPhase::Idle,
            app.live_telemetry@.len() == 0,
    {
        let cats = store.load_cats();
        PawPhoneApp {
            store,
            cats,
            current_messages: Vec::new(),
            screen: Screen::Contacts,
            profile: RealismProfile::RealisticLeo,
            compose: String::new(),
            last_seq: 0,
            pending_message_id: None,
            pending_cat_id: None,
            hud_visible: false,
            connected_at_ms: None,
            busy: false,
            live_phase: PawLinkPhase::Idle,
            live_telemetry: Vec::new(),
        }
    }

    /// The contact with id `id`, if known.
    pub fn cat(&self, id: i64) -> (c: Option<Cat>)
        ensures
            c == find_cat(self.cats@, id),
    {
        let n = self.cats.len();
        let mut i: usize = 0;
        assert(self.cats@.skip(0) =~= self.cats@);
        while i < n
            invariant
                n == self.cats@.len(),
                i <= n,
                find_cat(self.cats@, id) == find_cat(self.cats@.skip(i as int), id),
            decreases n - i,
        {
            assert(self.cats@.skip(i as int)[0] == self.cats@[i as int]);
            if self.cats[i].id == id {
                return Some(self.cats[i].clone());
            }
            assert(self.cats@.skip(i as int).drop_first() =~= self.cats@.skip(i + 1));
            i = i + 1;
        }
        assert(self.cats@.skip(n as int).len() == 0);
        None
    }

    fn find_current_message(&self, id: i64) -> (m: Option<Message>)
        ensures
            m == find_message(self.current_messages@, id),
    {
        let n = self.current_messages.len();
        let mut i: usize = 0;
        assert(self.current_messages@.skip(0) =~= self.current_messages@);
        while i < n
            invariant
                n == self.current_messages@.len(),
                i <= n,
                find_message(self.current_messages@, id) == find_message(
                    self.current_messages@.skip(i as int),
                    id,
                ),
            decreases n - i,
        {
            assert(self.current_messages@.skip(i as int)[0] == self.current_messages@[i as int]);
            if self.current_messages[i].id == id {
                return Some(self.current_messages[i].clone());
            }
            assert(self.current_messages@.skip(i as int).drop_first() =~= self.current_messages@.skip(
                i + 1,
            ));
            i = i + 1;
        }
        assert(self.current_messages@.skip(n as int).len() == 0);
        None
    }

    /// Opens the conversation with `cat_id`.
    pub fn open_thread(&mut self, cat_id: i64)
        ensures
            final(self).screen == (Screen::Thread { cat_id }),
            is_thread_listing(final(self).current_messages@, old(self).store@.messages, cat_id),
            *final(self) == (PawPhoneApp {
                screen: final(self).screen,
                current_messages: final(self).current_messages,
                ..*old(self)
            }),
    {
        self.current_messages = self.store.load_messages(cat_id);
        self.screen = Screen::Thread { cat_id };
    }

    fn reload_thread(&mut self)
        ensures
            thread_reloaded(*old(self), *final(self)),
            *final(self) == (PawPhoneApp { current_messages: final(self).current_messages, ..*old(self) }),
    {
        if let Screen::Thread { cat_id } = self.screen {
            self.current_messages = self.store.load_messages(cat_id);
        }
    }

    /// Hides the HUD.
    pub fn dismiss_hud(&mut self)
        ensures
            *final(self) == (PawPhoneApp { hud_visible: false, connected_at_ms: None, ..*old(self) }),
    {
        self.hud_visible = false;
        self.connected_at_ms = None;
    }

    /// Sends a ready-made phrase (from the phrasebook) to the open thread's
    /// cat, at wall-clock time `now_ms`; returns the ceremony to queue.
    pub fn send_phrase(&mut self, phrase: MeowPhrase, now_ms: i64) -> (req: Option<SendRequest>)
        requires
            send_target(*old(self)) is Some ==> old(self).store@.next_message_id < i64::MAX,
        ensures
            phrase_sent(*old(self), *final(self), phrase.meow@, phrase.subtitle@, now_ms, req),
    {
        let cat_id = match self.screen {
            Screen::Thread { cat_id } => cat_id,
            _ => return None,
        };
        let cat = match self.cat(cat_id) {
            Some(c) => c,
            None => return None,
        };
        let ghost before = *self;
        proof {
            lemma_found_cat_has_id(self.cats@, cat_id);
        }
        let msg = Message {
            id: 0,
            cat_id,
            from_me: true,
            meow: phrase.meow.clone(),
            subtitle: phrase.subtitle.clone(),
            status: DeliveryStatus::Sending,
            created_at: now_ms,
        };
        let id = self.store.insert_message(&msg);
        self.pending_message_id = Some(id);
        self.pending_cat_id = Some(cat_id);
        self.reload_thread();
        self.hud_visible = true;
        self.connected_at_ms = None;
        self.busy = true;
        proof {
            assert(self.store@.messages.last() == self.store@.messages[before.store@.messages.len() as int]);
        }
        Some(SendRequest { cat, incoming: phrase.subtitle, profile: self.profile })
    }

    /// Translates the compose buffer into meows and sends it (unless it is
    /// blank, which changes nothing); the buffer is cleared.
    pub fn send_typed(&mut self, now_ms: i64) -> (req: Option<SendRequest>)
        requires
            trimmed(old(self).compose@).len() > 0 && send_target(*old(self)) is Some
                ==> old(self).store@.next_message_id < i64::MAX,
        ensures
            trimmed(old(self).compose@).len() == 0 ==> req is None && *final(self) == *old(self),
            trimmed(old(self).compose@).len() > 0 ==> final(self).compose@ == Seq::<char>::empty()
                && phrase_sent(
                PawPhoneApp { compose: final(self).compose, ..*old(self) },
                *final(self),
                meow_text(trimmed(old(self).compose@)),
                trimmed(old(self).compose@),
                now_ms,
                req,
            ),
    {
        let text = String::from_str(trim(self.compose.as_str()));
        if text.as_str().unicode_len() == 0 {
            return None;
        }
        proof {
            translating_trimmed_text_changes_nothing(self.compose@);
        }
        self.compose = String::new();
        let phrase = translate_to_meow(text.as_str());
        self.send_phrase(phrase, now_ms)
    }

    /// Re-runs the ceremony for the pending (failed) message.
    pub fn resend(&mut self) -> (req: Option<SendRequest>)
        ensures
            resent(*old(self), *final(self), req),
    {
        let id = match self.pending_message_id {
            Some(id) => id,
            None => return None,
        };
        let cat_id = match self.pending_cat_id {
            Some(c) => c,
            None => return None,
        };
        let cat = match self.cat(cat_id) {
            Some(c) => c,
            None => return None,
        };
        let msg = match self.find_current_message(id) {
            Some(m) => m,
            None => return None,
        };
        self.store.update_message_status(id, DeliveryStatus::Sending);
        self.reload_thread();
        self.hud_visible = true;
        self.connected_at_ms = None;
        self.busy = true;
        Some(SendRequest { cat, incoming: msg.subtitle, profile: self.profile })
    }

    fn apply_outcome(&mut self, outcome: Outcome, wall_ms: i64, ui_ms: u64)
        requires
            stores_reply(*old(self), outcome) ==> old(self).store@.next_message_id < i64::MAX,
        ensures
            outcome_applied(*old(self), *final(self), outcome, wall_ms, ui_ms),
    {
        self.busy = false;
        let id = match self.pending_message_id {
            Some(id) => id,
            None => return,
        };
        let ghost before = *old(self);
        match outcome {
            Outcome::Delivered { reply } => {
                self.store.update_message_status(id, DeliveryStatus::Delivered);
                let ghost delivered = self.store@.messages;
                match (reply, self.pending_cat_id) {
                    (Some(reply), Some(cat_id)) => {
                        let reply_msg = Message {
                            id: 0,
                            cat_id,
                            from_me: false,
                            meow: reply.meow,
                            subtitle: reply.subtitle,
                            status: DeliveryStatus::Delivered,
                            created_at: wall_ms,
                        };
                        self.store.insert_message(&reply_msg);
                        assert(self.store@.messages.last() == self.store@.messages[delivered.len() as int]);
                    },
                    _ => {},
                }
                self.pending_message_id = None;
                self.connected_at_ms = Some(ui_ms);
            },
            Outcome::Lost(err) => {
                self.store.update_message_status(id, DeliveryStatus::Lost(err));
            },
        }
        self.reload_thread();
    }

    /// One frame's poll: copies the live ceremony snapshot, applies a new
    /// outcome once, and lets the success HUD hide after it has lingered.
    /// `wall_ms` is the wall clock (for stored messages), `ui_ms` the UI clock.
    pub fn poll(&mut self, snap: Snapshot, wall_ms: i64, ui_ms: u64)
        requires
            (snap.seq > old(self).last_seq && snap.new_outcome is Some && stores_reply(
                *old(self),
                snap.new_outcome.unwrap(),
            )) ==> old(self).store@.next_message_id < i64::MAX,
        ensures
            polled(*old(self), *final(self), snap, wall_ms, ui_ms),
    {
        let ghost snap0 = snap;
        let fresh = snap.seq > self.last_seq;
        self.live_phase = snap.phase;
        self.live_telemetry = snap.telemetry;
        if fresh {
            self.last_seq = snap.seq;
            if let Some(o) = snap.new_outcome {
                self.apply_outcome(o, wall_ms, ui_ms);
            }
        }
        let ghost mid = *self;
        if let Some(t0) = self.connected_at_ms {
            if ui_ms >= t0 && ui_ms - t0 > CONNECTED_LINGER_MS {
                self.hud_visible = false;
                self.connected_at_ms = None;
            }
        }
        assert(mid == (PawPhoneApp { hud_visible: mid.hud_visible, connected_at_ms: mid.connected_at_ms, ..*self }));
    }
}

} // verus!

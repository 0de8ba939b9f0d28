//! The document store behind the app: the cast of cats, every message, and
//! the message id counter. Reading and writing the file on disk is the
//! caller's business; the store says when it holds changes not yet written.

use vstd::prelude::*;
use vstd::string::*;
use crate::models::{Cat, CatPersona, CatStatus, DeliveryStatus, Message};

verus! {

broadcast use vstd::seq_lib::group_seq_properties, vstd::seq_lib::group_filter_ensures;

/// The persisted document.
pub struct Db {
    pub cats: Vec<Cat>,
    pub messages: Vec<Message>,
    pub next_message_id: i64,
}

impl Default for Db {
    fn default() -> (d: Db)
        ensures
            d.cats@.len() == 0,
            d.messages@.len() == 0,
            d.next_message_id == 0,
    {
        Db { cats: Vec::new(), messages: Vec::new(), next_message_id: 0 }
    }
}

/// The abstract contents of a store.
pub struct StoreContents {
    pub cats: Seq<Cat>,
    pub messages: Seq<Message>,
    pub next_message_id: i64,
    /// Changes have been made since the store was last written out.
    pub unsaved: bool,
}

pub struct Store {
    db: Db,
    unsaved: bool,
}

// ── message ordering and threads ───────────────────────────────────────────

/// Messages are listed by creation time, ties broken by id.
pub open spec fn key_le(a: Message, b: Message) -> bool {
    a.created_at < b.created_at || (a.created_at == b.created_at && a.id <= b.id)
}

pub open spec fn sorted_by_key(s: Seq<Message>) -> bool {
    forall|i: int, j: int| 0 <= i < j < s.len() ==> key_le(#[trigger] s[i], #[trigger] s[j])
}

/// The message belongs to the conversation with `cat_id`.
pub open spec fn in_thread(cat_id: i64) -> spec_fn(Message) -> bool {
    |m: Message| m.cat_id == cat_id
}

/// The message has ordering key `(created_at, id)`.
pub open spec fn has_key(created_at: i64, id: i64) -> spec_fn(Message) -> bool {
    |m: Message| m.created_at == created_at && m.id == id
}

/// `out` lists the conversation with `cat_id` out of `messages`: ordered by
/// `(created_at, id)`, and messages with equal keys keep their stored order.
/// (For every key, the messages of `out` with that key are exactly, and in the
/// same order, the thread's messages with that key.)
pub open spec fn is_thread_listing(out: Seq<Message>, messages: Seq<Message>, cat_id: i64) -> bool {
    &&& sorted_by_key(out)
    &&& forall|c: i64, id: i64|
        #[trigger] out.filter(has_key(c, id)) == messages.filter(in_thread(cat_id)).filter(
            has_key(c, id),
        )
}

/// The message with a new delivery status.
pub open spec fn with_status(m: Message, status: DeliveryStatus) -> Message {
    Message { status, ..m }
}

/// The messages after the first one with id `id` (if any) has taken `status`.
pub open spec fn status_updated(messages: Seq<Message>, id: i64, status: DeliveryStatus) -> Seq<
    Message,
> {
    Seq::new(
        messages.len(),
        |j: int|
            if messages[j].id == id && (forall|k: int| 0 <= k < j ==> messages[k].id != id) {
                with_status(messages[j], status)
            } else {
                messages[j]
            },
    )
}

/// Every stored id is at most the counter, and no two messages share an id.
pub open spec fn ids_consistent(v: StoreContents) -> bool {
    &&& forall|i: int| 0 <= i < v.messages.len() ==> (#[trigger] v.messages[i]).id <= v.next_message_id
    &&& forall|i: int, j: int|
        0 <= i < j < v.messages.len() ==> (#[trigger] v.messages[i]).id != (#[trigger] v.messages[j]).id
}

/// The message as stored under id `id`.
pub open spec fn stored_as(m: Message, id: i64) -> Message {
    Message { id, ..m }
}

impl StoreContents {
    /// The store after inserting `m`: it is stored under the next id.
    pub open spec fn after_insert(self, m: Message) -> StoreContents {
        StoreContents {
            cats: self.cats,
            messages: self.messages.push(stored_as(m, (self.next_message_id + 1) as i64)),
            next_message_id: (self.next_message_id + 1) as i64,
            unsaved: true,
        }
    }
}


// ── laws of the store ──────────────────────────────────────────────────────

/// A thread listing holds exactly the stored messages of that conversation:
/// a message is listed if and only if it is stored and belongs to the cat.
pub proof fn listing_holds_exactly_the_thread(out: Seq<Message>, messages: Seq<Message>, cat_id: i64)
    requires
        is_thread_listing(out, messages, cat_id),
    ensures
        forall|x: Message| out.contains(x) <==> (messages.contains(x) && x.cat_id == cat_id),
{
    assert forall|x: Message| out.contains(x) <==> (messages.contains(x) && x.cat_id == cat_id) by {
        let k = has_key(x.created_at, x.id);
        let thread = messages.filter(in_thread(cat_id));
        assert(out.filter(k) == thread.filter(k));
        if out.contains(x) {
            let i = choose|i: int| 0 <= i < out.len() && out[i] == x;
            out.lemma_filter_contains(k, i);
            thread.lemma_filter_contains_rev(k, x);
            messages.lemma_filter_contains_rev(in_thread(cat_id), x);
            let j = choose|j: int| 0 <= j < thread.len() && thread[j] == x;
            messages.lemma_filter_pred(in_thread(cat_id), j);
        }
        if messages.contains(x) && x.cat_id == cat_id {
            let i = choose|i: int| 0 <= i < messages.len() && messages[i] == x;
            messages.lemma_filter_contains(in_thread(cat_id), i);
            let j = choose|j: int| 0 <= j < thread.len() && thread[j] == x;
            thread.lemma_filter_contains(k, j);
            out.lemma_filter_contains_rev(k, x);
        }
    }
}


/// Filtering by a predicate that `x` meets keeps every copy of `x`.
proof fn lemma_filter_keeps_count(s: Seq<Message>, p: spec_fn(Message) -> bool, x: Message)
    requires
        p(x),
    ensures
        s.filter(p).to_multiset().count(x) == s.to_multiset().count(x),
    decreases s.len(),
{
    broadcast use vstd::seq_lib::group_to_multiset_ensures;

    if s.len() == 0 {
        reveal(Seq::filter);
        assert(s.filter(p) =~= s);
    } else {
        let t = s.drop_last();
        let e = s.last();
        assert(s =~= t.push(e));
        lemma_filter_keeps_count(t, p, x);
        t.lemma_filter_push(e, p);
    }
}

/// A thread listing is a permutation of the conversation's stored messages:
/// every message of the thread appears in it exactly as often as it is stored.
pub proof fn listing_is_a_permutation_of_the_thread(out: Seq<Message>, messages: Seq<Message>, cat_id: i64)
    requires
        is_thread_listing(out, messages, cat_id),
    ensures
        out.to_multiset() == messages.filter(in_thread(cat_id)).to_multiset(),
{
    let thread = messages.filter(in_thread(cat_id));
    assert forall|x: Message| #[trigger] out.to_multiset().count(x) == thread.to_multiset().count(x) by {
        let k = has_key(x.created_at, x.id);
        assert(out.filter(k) == thread.filter(k));
        lemma_filter_keeps_count(out, k, x);
        lemma_filter_keeps_count(thread, k, x);
    }
    assert(out.to_multiset() =~= thread.to_multiset());
}

/// What is written can be read back: after inserting a message, listing its
/// conversation shows it, under the id the insert returned.
pub proof fn inserted_message_is_listed(before: StoreContents, m: Message, listing: Seq<Message>)
    requires
        is_thread_listing(listing, before.after_insert(m).messages, m.cat_id),
    ensures
        listing.contains(stored_as(m, (before.next_message_id + 1) as i64)),
{
    let x = stored_as(m, (before.next_message_id + 1) as i64);
    let after = before.after_insert(m).messages;
    assert(after.contains(x)) by {
        assert(after[after.len() - 1] == x);
    }
    listing_holds_exactly_the_thread(listing, after, m.cat_id);
}

/// Updating a delivery status touches nothing but that status: the
/// conversation, ids, texts and times of every message stay as they were.
pub proof fn status_update_changes_only_status(messages: Seq<Message>, id: i64, status: DeliveryStatus)
    ensures
        status_updated(messages, id, status).len() == messages.len(),
        forall|j: int|
            0 <= j < messages.len() ==> (#[trigger] status_updated(messages, id, status)[j])
                == with_status(messages[j], status_updated(messages, id, status)[j].status),
        forall|j: int|
            0 <= j < messages.len() && messages[j].id != id ==> #[trigger] status_updated(
                messages,
                id,
                status,
            )[j] == messages[j],
{
}

/// The bit patterns of the seed cats' `f32` signal badges (0.82, 0.61, 0.95, 0.40).
pub open spec fn seed_signal_bits(i: int) -> u32 {
    if i == 0 { 0x3f51eb85 } else if i == 1 { 0x3f1c28f6 } else if i == 2 { 0x3f733333 } else { 0x3ecccccd }
}

/// The cast of cats that a store without cats is seeded with, ids 1 to 4,
/// each with a one-emoji avatar.
pub open spec fn is_seed_cast(cats: Seq<Cat>) -> bool {
    &&& cats.len() == 4
    &&& forall|i: int| 0 <= i < 4 ==> (#[trigger] cats[i]).id == i + 1
        && cats[i].signal_bits == seed_signal_bits(i)
    &&& cats[0].avatar@ == "🐱"@ && cats[1].avatar@ == "🧤"@ && cats[2].avatar@ == "🟠"@ && cats[3].avatar@ == "🐾"@
    &&& cats[0].name@ == "Sir Whiskers"@ && cats[0].status == CatStatus::Online && cats[0].persona == CatPersona::Aloof
    &&& cats[1].name@ == "Mittens"@ && cats[1].status == CatStatus::Napping && cats[1].persona == CatPersona::Needy
    &&& cats[2].name@ == "The Orange One"@ && cats[2].status == CatStatus::Online && cats[2].persona == CatPersona::Chaotic
    &&& cats[3].name@ == "Biscuit"@ && cats[3].status == CatStatus::Napping && cats[3].persona == CatPersona::FoodObsessed
}


/// Filtering keeps nothing when no element passes.
proof fn lemma_filter_none(s: Seq<Message>, p: spec_fn(Message) -> bool)
    requires
        forall|i: int| 0 <= i < s.len() ==> !p(#[trigger] s[i]),
    ensures
        s.filter(p) == Seq::<Message>::empty(),
    decreases s.len(),
{
    reveal(Seq::filter);
    if s.len() > 0 {
        lemma_filter_none(s.drop_last(), p);
    }
}

/// Inserting `m` just before the messages that sort after it adds `m` to the
/// end of its own key's group and leaves every other key's group alone.
proof fn lemma_insert_keeps_groups(out: Seq<Message>, pos: int, m: Message, c: i64, id: i64)
    requires
        0 <= pos <= out.len(),
        forall|t: int| pos <= t < out.len() ==> !key_le(#[trigger] out[t], m),
    ensures
        out.insert(pos, m).filter(has_key(c, id)) == if has_key(c, id)(m) {
            out.filter(has_key(c, id)).push(m)
        } else {
            out.filter(has_key(c, id))
        },
{
    let p = has_key(c, id);
    let pre = out.take(pos);
    let post = out.skip(pos);
    assert(out.insert(pos, m) =~= pre + seq![m] + post);
    assert(out =~= pre + post);
    Seq::filter_distributes_over_add(pre + seq![m], post, p);
    Seq::filter_distributes_over_add(pre, seq![m], p);
    Seq::filter_distributes_over_add(pre, post, p);
    reveal_with_fuel(Seq::filter, 2);
    assert(seq![m].drop_last() =~= Seq::<Message>::empty());
    if p(m) {
        assert forall|t: int| 0 <= t < post.len() implies !p(#[trigger] post[t]) by {
            assert(post[t] == out[pos + t]);
        }
        lemma_filter_none(post, p);
        assert(seq![m].filter(p) =~= seq![m]);
        assert(pre.filter(p) + seq![m] + post.filter(p) =~= (pre.filter(p) + post.filter(p)).push(m));
    } else {
        assert(seq![m].filter(p) =~= Seq::<Message>::empty());
        assert(pre.filter(p) + seq![m].filter(p) =~= pre.filter(p));
    }
}

/// Whether `a` sorts strictly after `b`.
fn sorts_after(a: &Message, b: &Message) -> (r: bool)
    ensures
        r == !key_le(*a, *b),
{
    a.created_at > b.created_at || (a.created_at == b.created_at && a.id > b.id)
}


/// The seed cast is planted once: it has cats, so seeding (or opening) a
/// store that holds it keeps it as it is, and each seeded avatar is a single
/// emoji.
pub proof fn the_seed_cast_is_kept_and_has_avatars(cats: Seq<Cat>)
    requires
        is_seed_cast(cats),
    ensures
        cats.len() != 0,
        forall|i: int| 0 <= i < 4 ==> (#[trigger] cats[i]).avatar@.len() == 1,
{
    reveal_strlit("🐱");
    reveal_strlit("🧤");
    reveal_strlit("🟠");
    reveal_strlit("🐾");
}

fn seed_cat(id: i64, name: &str, avatar: &str, signal_bits: u32, status: CatStatus, persona: CatPersona) -> (c: Cat)
    ensures
        c.id == id,
        c.name@ == name@,
        c.avatar@ == avatar@,
        c.signal_bits == signal_bits,
        c.status == status,
        c.persona == persona,
{
    Cat { id, name: String::from_str(name), avatar: String::from_str(avatar), signal_bits, status, persona }
}

fn seed_cast() -> (cats: Vec<Cat>)
    ensures
        is_seed_cast(cats@),
{
    let mut cats: Vec<Cat> = Vec::new();
    cats.push(seed_cat(1, "Sir Whiskers", "🐱", 0x3f51eb85, CatStatus::Online, CatPersona::Aloof));
    cats.push(seed_cat(2, "Mittens", "🧤", 0x3f1c28f6, CatStatus::Napping, CatPersona::Needy));
    cats.push(seed_cat(3, "The Orange One", "🟠", 0x3f733333, CatStatus::Online, CatPersona::Chaotic));
    cats.push(seed_cat(4, "Biscuit", "🐾", 0x3ecccccd, CatStatus::Napping, CatPersona::FoodObsessed));
    cats
}

impl View for Store {
    type V = StoreContents;

    closed spec fn view(&self) -> StoreContents {
        StoreContents {
            cats: self.db.cats@,
            messages: self.db.messages@,
            next_message_id: self.db.next_message_id,
            unsaved: self.unsaved,
        }
    }
}

impl Store {
    /// Takes the document read from disk (or an empty one when there was none
    /// or it did not parse), seeds the cast of cats if it has none, and marks
    /// the result as to be written back.
    pub fn open(loaded: Db) -> (s: Store)
        ensures
            loaded.cats@.len() == 0 ==> is_seed_cast(s@.cats),
            loaded.cats@.len() != 0 ==> s@.cats == loaded.cats@,
            s@.messages == loaded.messages@,
            s@.next_message_id == loaded.next_message_id,
            s@.unsaved,
    {
        let mut store = Store { db: loaded, unsaved: true };
        store.seed_if_empty();
        store
    }

    /// An in-memory store: the seed cast and no messages, never written out.
    pub fn in_memory() -> (s: Store)
        ensures
            is_seed_cast(s@.cats),
            s@.messages.len() == 0,
            s@.next_message_id == 0,
            !s@.unsaved,
            ids_consistent(s@),
    {
        let mut store = Store { db: Db::default(), unsaved: false };
        store.seed_if_empty();
        store
    }

    fn seed_if_empty(&mut self)
        ensures
            old(self).db.cats@.len() == 0 ==> is_seed_cast(final(self).db.cats@),
            old(self).db.cats@.len() != 0 ==> final(self).db.cats@ == old(self).db.cats@,
            final(self).db.messages@ == old(self).db.messages@,
            final(self).db.next_message_id == old(self).db.next_message_id,
            final(self).unsaved == old(self).unsaved,
    {
        if self.db.cats.len() != 0 {
            return;
        }
        self.db.cats = seed_cast();
    }

    /// The document to write to disk.
    pub fn db(&self) -> (d: &Db)
        ensures
            d.cats@ == self@.cats,
            d.messages@ == self@.messages,
            d.next_message_id == self@.next_message_id,
    {
        &self.db
    }

    /// Reports whether there are changes not yet written out, and from now
    /// on counts the store as written.
    pub fn take_unsaved(&mut self) -> (was: bool)
        ensures
            was == old(self)@.unsaved,
            final(self)@ == (StoreContents { unsaved: false, ..old(self)@ }),
    {
        let was = self.unsaved;
        self.unsaved = false;
        was
    }

    pub fn load_cats(&self) -> (cats: Vec<Cat>)
        ensures
            cats@ == self@.cats,
    {
        let mut out: Vec<Cat> = Vec::new();
        let mut i: usize = 0;
        while i < self.db.cats.len()
            invariant
                i <= self.db.cats@.len(),
                out@ == self.db.cats@.take(i as int),
            decreases self.db.cats@.len() - i,
        {
            out.push(self.db.cats[i].clone());
            i = i + 1;
        }
        out
    }


    /// The conversation with `cat_id`, oldest first (by creation time, then
    /// id; equal keys keep their stored order).
    pub fn load_messages(&self, cat_id: i64) -> (msgs: Vec<Message>)
        ensures
            is_thread_listing(msgs@, self@.messages, cat_id),
    {
        let ghost all = self.db.messages@;
        let mut out: Vec<Message> = Vec::new();
        let n = self.db.messages.len();
        let mut i: usize = 0;
        assert forall|c: i64, id: i64|
            #[trigger] out@.filter(has_key(c, id)) == all.take(0).filter(in_thread(cat_id)).filter(
                has_key(c, id),
            ) by {
            reveal(Seq::filter);
            assert(all.take(0) =~= Seq::<Message>::empty());
        }
        while i < n
            invariant
                n == all.len(),
                all == self.db.messages@,
                i <= n,
                sorted_by_key(out@),
                forall|c: i64, id: i64|
                    #[trigger] out@.filter(has_key(c, id)) == all.take(i as int).filter(
                        in_thread(cat_id),
                    ).filter(has_key(c, id)),
            decreases n - i,
        {
            let m = &self.db.messages[i];
            let ghost before = out@;
            proof {
                assert(all.take(i + 1) =~= all.take(i as int).push(*m));
                all.take(i as int).lemma_filter_push(*m, in_thread(cat_id));
            }
            if m.cat_id == cat_id {
                let mut pos = out.len();
                while pos > 0 && sorts_after(&out[pos - 1], m)
                    invariant
                        out@ == before,
                        pos <= out@.len(),
                        forall|t: int| pos <= t < out@.len() ==> !key_le(#[trigger] out@[t], *m),
                    decreases pos,
                {
                    pos = pos - 1;
                }
                let copy = m.clone();
                out.insert(pos, copy);
                assert forall|c: i64, id: i64|
                    #[trigger] out@.filter(has_key(c, id)) == all.take(i + 1).filter(
                        in_thread(cat_id),
                    ).filter(has_key(c, id)) by {
                    lemma_insert_keeps_groups(before, pos as int, *m, c, id);
                    all.take(i as int).filter(in_thread(cat_id)).lemma_filter_push(*m, has_key(c, id));
                }
                assert forall|a: int, b: int| 0 <= a < b < out@.len() implies key_le(
                    #[trigger] out@[a],
                    #[trigger] out@[b],
                ) by {
                    if pos > 0 {
                        assert(key_le(before[pos - 1], *m));
                    }
                    if a < pos && b > pos {
                        assert(key_le(before[a], before[pos - 1]) || a == pos - 1);
                    }
                }
            } else {
                assert forall|c: i64, id: i64|
                    #[trigger] out@.filter(has_key(c, id)) == all.take(i + 1).filter(
                        in_thread(cat_id),
                    ).filter(has_key(c, id)) by {}
            }
            i = i + 1;
        }
        assert(all.take(n as int) =~= all);
        out
    }

    /// Inserts a message; assigns and returns its id, one past the last id
    /// handed out. Ids stay distinct.
    pub fn insert_message(&mut self, m: &Message) -> (id: i64)
        requires
            old(self)@.next_message_id < i64::MAX,
        ensures
            id == old(self)@.next_message_id + 1,
            final(self)@ == old(self)@.after_insert(*m),
            ids_consistent(old(self)@) ==> ids_consistent(final(self)@),
            ids_consistent(old(self)@) ==> forall|i: int|
                0 <= i < old(self)@.messages.len() ==> (#[trigger] old(self)@.messages[i]).id != id,
    {
        self.db.next_message_id = self.db.next_message_id + 1;
        let id = self.db.next_message_id;
        let mut stored = m.clone();
        stored.id = id;
        self.db.messages.push(stored);
        self.unsaved = true;
        id
    }

    /// Sets the delivery status of the first message with id `id`, if any.
    pub fn update_message_status(&mut self, id: i64, status: DeliveryStatus)
        ensures
            final(self)@.messages == status_updated(old(self)@.messages, id, status),
            final(self)@.cats == old(self)@.cats,
            final(self)@.next_message_id == old(self)@.next_message_id,
            final(self)@.unsaved,
    {
        let n = self.db.messages.len();
        let mut i: usize = 0;
        while i < n
            invariant
                n == self.db.messages@.len(),
                i <= n,
                self.db == old(self).db,
                forall|k: int| 0 <= k < i ==> self.db.messages@[k].id != id,
            decreases n - i,
        {
            if self.db.messages[i].id == id {
                let mut changed = self.db.messages[i].clone();
                changed.status = status;
                self.db.messages.set(i, changed);
                assert(self.db.messages@ =~= status_updated(old(self).db.messages@, id, status));
                self.unsaved = true;
                return;
            }
            i = i + 1;
        }
        assert(self.db.messages@ =~= status_updated(old(self).db.messages@, id, status));
        self.unsaved = true;
    }
}

} // verus!

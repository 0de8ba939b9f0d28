//! Plain data: the cats, their messages, and how a message is doing on its
//! way to space.

use vstd::prelude::*;
use vstd::string::*;
use crate::phase::PawLinkError;

verus! {

/// A contact: the other end of every (simulated) conversation.
#[derive(Debug)]
pub struct Cat {
    pub id: i64,
    pub name: String,
    /// Single emoji avatar.
    pub avatar: String,
    /// The 0..1 signal-strength badge, carried as the bit pattern of its
    /// `f32` value; the library never interprets it.
    pub signal_bits: u32,
    pub status: CatStatus,
    /// Shapes how this cat tends to reply.
    pub persona: CatPersona,
}

impl Clone for Cat {
    fn clone(&self) -> (c: Self)
        ensures
            c == *self,
    {
        Cat {
            id: self.id,
            name: self.name.clone(),
            avatar: self.avatar.clone(),
            signal_bits: self.signal_bits,
            status: self.status,
            persona: self.persona,
        }
    }
}

#[derive(Clone, Copy, Debug, PartialEq, Eq, Structural)]
pub enum CatStatus {
    Online,
    Napping,
}

impl CatStatus {
    pub open spec fn label_text(self) -> Seq<char> {
        match self {
            CatStatus::Online => "online"@,
            CatStatus::Napping => "napping"@,
        }
    }

    pub fn label(&self) -> (s: &'static str)
        ensures
            s@ == self.label_text(),
    {
        match self {
            CatStatus::Online => "online",
            CatStatus::Napping => "napping",
        }
    }
}

/// A cat's disposition; it steers which replies the cat picks.
#[derive(Clone, Copy, Debug, PartialEq, Eq, Structural)]
pub enum CatPersona {
    /// Everything routes back to food.
    FoodObsessed,
    /// Tolerates you, barely.
    Aloof,
    /// Non-sequiturs and zoomies.
    Chaotic,
    /// Demands attention, now.
    Needy,
}

/// One chat bubble.
#[derive(Debug)]
pub struct Message {
    pub id: i64,
    /// The contact this message belongs to (conversation key).
    pub cat_id: i64,
    /// `true` if the human's cat sent it.
    pub from_me: bool,
    /// The meow text actually "sent".
    pub meow: String,
    /// Plain-English subtitle / translation.
    pub subtitle: String,
    pub status: DeliveryStatus,
    /// Epoch milliseconds, for ordering.
    pub created_at: i64,
}

impl Clone for Message {
    fn clone(&self) -> (m: Self)
        ensures
            m == *self,
    {
        Message {
            id: self.id,
            cat_id: self.cat_id,
            from_me: self.from_me,
            meow: self.meow.clone(),
            subtitle: self.subtitle.clone(),
            status: self.status,
            created_at: self.created_at,
        }
    }
}

/// Lifecycle of an outbound message.
#[derive(Clone, Copy, Debug, PartialEq, Eq, Structural)]
pub enum DeliveryStatus {
    /// Mid-ceremony, not yet confirmed.
    Sending,
    /// Confirmed delivered (and a reply may follow).
    Delivered,
    /// Uplink failed; the user can resend.
    Lost(PawLinkError),
}

impl DeliveryStatus {
    pub open spec fn glyph_text(self) -> Seq<char> {
        match self {
            DeliveryStatus::Sending => "◌ sending"@,
            DeliveryStatus::Delivered => "✓ delivered"@,
            DeliveryStatus::Lost(_) => "✕ lost"@,
        }
    }

    pub fn glyph(&self) -> (s: &'static str)
        ensures
            s@ == self.glyph_text(),
    {
        match self {
            DeliveryStatus::Sending => "◌ sending",
            DeliveryStatus::Delivered => "✓ delivered",
            DeliveryStatus::Lost(_) => "✕ lost",
        }
    }
}

/// A cat utterance with its human translation.
#[derive(Debug)]
pub struct MeowPhrase {
    pub meow: String,
    pub subtitle: String,
}

impl Clone for MeowPhrase {
    fn clone(&self) -> (p: Self)
        ensures
            p == *self,
    {
        MeowPhrase { meow: self.meow.clone(), subtitle: self.subtitle.clone() }
    }
}

impl MeowPhrase {
    pub fn new(meow: &str, subtitle: &str) -> (p: MeowPhrase)
        ensures
            p.meow@ == meow@,
            p.subtitle@ == subtitle@,
    {
        MeowPhrase { meow: String::from_str(meow), subtitle: String::from_str(subtitle) }
    }
}

/// Which screen the app is showing.
#[derive(Clone, Copy, Debug, PartialEq, Eq, Structural)]
pub enum Screen {
    Contacts,
    Thread { cat_id: i64 },
    Settings,
}

} // verus!

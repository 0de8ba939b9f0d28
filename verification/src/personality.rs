//! The app's personality: meow translation, reply weighting, and failure
//! injection, plus the fixed banks of phrases they draw from.

use vstd::prelude::*;
use vstd::string::*;
use crate::chance::{choose_one, draw_permille};
use crate::models::{Cat, CatPersona, MeowPhrase};
use crate::phase::{PawLinkError, Timings};
use crate::text::{count_uppercase, repeated, trim, trimmed, trimming_is_idempotent, uppercase_count};

verus! {

/// A phrase as its two texts: the meow and its subtitle.
pub open spec fn phrase_text(p: MeowPhrase) -> (Seq<char>, Seq<char>) {
    (p.meow@, p.subtitle@)
}

/// A list of phrases as their texts.
pub open spec fn phrases_text(ps: Seq<MeowPhrase>) -> Seq<(Seq<char>, Seq<char>)> {
    ps.map_values(|p: MeowPhrase| phrase_text(p))
}

/// The preset utterances of the compose-bar phrasebook, in order.
pub open spec fn phrasebook_text() -> Seq<(Seq<char>, Seq<char>)> {
    seq![
        ("Mrrp?"@, "where is the food"@),
        ("MROW"@, "the food bowl is empty and I am dying"@),
        ("mew"@, "hello, small human"@),
        ("prrrt"@, "I acknowledge your existence"@),
        ("MRRRROW"@, "let me out. also let me in."@),
        ("hsss"@, "the vacuum has returned"@),
        ("chirp chirp"@, "bird outside — this is extremely urgent"@),
        ("😼"@, "I tolerate you (slow blink)"@),
        ("brrrap"@, "I have knocked something off the table"@),
        ("meow meow meow"@, "pet me. do not pet me. decide later."@),
    ]
}

/// The canned replies of each persona, in order.
pub open spec fn reply_bank_text(persona: CatPersona) -> Seq<(Seq<char>, Seq<char>)> {
    match persona {
        CatPersona::FoodObsessed => seq![
            ("MROW MROW"@, "is that food. is what you said food."@),
            ("mrrrp!"@, "the bowl. check the bowl. now."@),
            ("nyom"@, "I will respond after a snack"@),
            ("MRRROW"@, "treats were mentioned. I heard treats."@),
        ],
        CatPersona::Aloof => seq![
            ("..."@, "I have read your message and chosen silence"@),
            ("mew."@, "noted. uninterested."@),
            ("😼"@, "(slow blink, turns away)"@),
            ("prt"@, "fine. acknowledged. don't make it weird."@),
        ],
        CatPersona::Chaotic => seq![
            ("BRRRAP"@, "I knocked a glass off the counter, ask me why"@),
            ("mrr-AH"@, "ZOOMIES INBOUND take cover"@),
            ("chrrp chrp chrp"@, "there is a moth. EVERYTHING has changed."@),
            ("mlem"@, "I forgot what we were talking about"@),
        ],
        CatPersona::Needy => seq![
            ("mrrrrrr"@, "come back. why did you leave. come back."@),
            ("MEW MEW"@, "pet me immediately, it has been 4 seconds"@),
            ("prrrrt?"@, "are you still there. are you. still. there."@),
            ("mrp mrp mrp"@, "sit down so I can sit on you"@),
        ],
    }
}

/// Preset utterances for the compose-bar phrasebook picker.
pub fn phrasebook() -> (v: Vec<MeowPhrase>)
    ensures
        phrases_text(v@) == phrasebook_text(),
{
    let v = vec![
        MeowPhrase::new("Mrrp?", "where is the food"),
        MeowPhrase::new("MROW", "the food bowl is empty and I am dying"),
        MeowPhrase::new("mew", "hello, small human"),
        MeowPhrase::new("prrrt", "I acknowledge your existence"),
        MeowPhrase::new("MRRRROW", "let me out. also let me in."),
        MeowPhrase::new("hsss", "the vacuum has returned"),
        MeowPhrase::new("chirp chirp", "bird outside — this is extremely urgent"),
        MeowPhrase::new("😼", "I tolerate you (slow blink)"),
        MeowPhrase::new("brrrap", "I have knocked something off the table"),
        MeowPhrase::new("meow meow meow", "pet me. do not pet me. decide later."),
    ];
    assert(phrases_text(v@) =~= phrasebook_text());
    v
}

/// Canned replies, grouped by the replying cat's persona.
pub fn reply_bank(persona: CatPersona) -> (v: Vec<MeowPhrase>)
    ensures
        phrases_text(v@) == reply_bank_text(persona),
{
    let v = match persona {
        CatPersona::FoodObsessed => vec![
            MeowPhrase::new("MROW MROW", "is that food. is what you said food."),
            MeowPhrase::new("mrrrp!", "the bowl. check the bowl. now."),
            MeowPhrase::new("nyom", "I will respond after a snack"),
            MeowPhrase::new("MRRROW", "treats were mentioned. I heard treats."),
        ],
        CatPersona::Aloof => vec![
            MeowPhrase::new("...", "I have read your message and chosen silence"),
            MeowPhrase::new("mew.", "noted. uninterested."),
            MeowPhrase::new("😼", "(slow blink, turns away)"),
            MeowPhrase::new("prt", "fine. acknowledged. don't make it weird."),
        ],
        CatPersona::Chaotic => vec![
            MeowPhrase::new("BRRRAP", "I knocked a glass off the counter, ask me why"),
            MeowPhrase::new("mrr-AH", "ZOOMIES INBOUND take cover"),
            MeowPhrase::new("chrrp chrp chrp", "there is a moth. EVERYTHING has changed."),
            MeowPhrase::new("mlem", "I forgot what we were talking about"),
        ],
        CatPersona::Needy => vec![
            MeowPhrase::new("mrrrrrr", "come back. why did you leave. come back."),
            MeowPhrase::new("MEW MEW", "pet me immediately, it has been 4 seconds"),
            MeowPhrase::new("prrrrt?", "are you still there. are you. still. there."),
            MeowPhrase::new("mrp mrp mrp", "sit down so I can sit on you"),
        ],
    };
    assert(phrases_text(v@) =~= reply_bank_text(persona));
    v
}

/// The meow that a (trimmed) text translates to: `mew` for nothing,
/// `MROW` when most characters shout, otherwise `m`, one `r` per four
/// characters (at least one, at most five), and `p`.
pub open spec fn meow_text(t: Seq<char>) -> Seq<char> {
    let len = t.len();
    if len == 0 {
        "mew"@
    } else if uppercase_count(t) * 2 > len {
        "MROW"@
    } else {
        let rs: nat = if len / 4 < 1 { 1 } else if len / 4 > 5 { 5 } else { len / 4 };
        "m"@ + repeated("r"@, rs) + "p"@
    }
}

/// Turns free-typed human text into cat speech, keeping the trimmed
/// original as the subtitle. The mapping is a function of the text alone.
pub fn translate_to_meow(text: &str) -> (p: MeowPhrase)
    ensures
        p.meow@ == meow_text(trimmed(text@)),
        p.subtitle@ == trimmed(text@),
{
    let t = trim(text);
    let len = t.unicode_len();
    let meow = if len == 0 {
        String::from_str("mew")
    } else if count_uppercase(t) > len / 2 {
        String::from_str("MROW")
    } else {
        let quarter = len / 4;
        let rs: usize = if quarter < 1 { 1 } else if quarter > 5 { 5 } else { quarter };
        let mut m = String::from_str("m");
        let mut i: usize = 0;
        while i < rs
            invariant
                i <= rs,
                m@ == "m"@ + repeated("r"@, i as nat),
            decreases rs - i,
        {
            m.append("r");
            i = i + 1;
        }
        m.append("p");
        m
    };
    MeowPhrase { meow, subtitle: String::from_str(t) }
}


/// The translation is deterministic: the same text always gives the same
/// meow and subtitle, so a resent message looks identical.
pub proof fn translation_is_deterministic(a: &str, b: &str, pa: MeowPhrase, pb: MeowPhrase)
    requires
        a@ == b@,
        pa.meow@ == meow_text(trimmed(a@)) && pa.subtitle@ == trimmed(a@),
        pb.meow@ == meow_text(trimmed(b@)) && pb.subtitle@ == trimmed(b@),
    ensures
        pa.meow@ == pb.meow@,
        pa.subtitle@ == pb.subtitle@,
{
}


/// Translating text that was already trimmed gives the same phrase as
/// translating the text itself.
pub proof fn translating_trimmed_text_changes_nothing(t: Seq<char>)
    ensures
        trimmed(trimmed(t)) == trimmed(t),
        meow_text(trimmed(trimmed(t))) == meow_text(trimmed(t)),
{
    trimming_is_idempotent(t);
}

/// Every translation is one of three shapes: `mew` for blank text, `MROW`
/// for shouting, or `m`, one to five `r`s, and `p`.
pub proof fn translations_have_three_shapes(t: Seq<char>)
    ensures
        meow_text(t) == "mew"@ || meow_text(t) == "MROW"@ || exists|n: nat|
            1 <= n <= 5 && meow_text(t) == "m"@ + #[trigger] repeated("r"@, n) + "p"@,
{
    let len = t.len();
    if len > 0 && !(uppercase_count(t) * 2 > len) {
        let rs: nat = if len / 4 < 1 { 1 } else if len / 4 > 5 { 5 } else { len / 4 };
        assert(meow_text(t) == "m"@ + repeated("r"@, rs) + "p"@);
    }
}

proof fn lemma_repeated_r(n: nat)
    ensures
        repeated("r"@, n).len() == n,
        forall|i: int| 0 <= i < n ==> #[trigger] repeated("r"@, n)[i] == 'r',
    decreases n,
{
    reveal_strlit("r");
    if n > 0 {
        lemma_repeated_r((n - 1) as nat);
    }
}

/// Shouting is a strict majority of capitals: a non-blank text translates
/// to `MROW` exactly when more than half of its characters are uppercase,
/// and a text translates to `mew` exactly when it is blank.
pub proof fn shouting_is_a_capital_majority(t: Seq<char>)
    ensures
        t.len() > 0 ==> (meow_text(t) == "MROW"@ <==> 2 * uppercase_count(t) > t.len()),
        meow_text(t) == "mew"@ <==> t.len() == 0,
{
    reveal_strlit("MROW");
    reveal_strlit("mew");
    reveal_strlit("m");
    reveal_strlit("p");
    let len = t.len();
    if len > 0 && !(uppercase_count(t) * 2 > len) {
        let rs: nat = if len / 4 < 1 { 1 } else if len / 4 > 5 { 5 } else { len / 4 };
        let m = "m"@ + repeated("r"@, rs) + "p"@;
        lemma_repeated_r(rs);
        assert(m == meow_text(t));
        assert(m[0] == 'm');
        assert(m[1] == repeated("r"@, rs)[0]);
        assert(m[1] == 'r');
        assert(m != "MROW"@) by {
            assert("MROW"@[0] == 'M');
        }
        assert(m != "mew"@) by {
            assert("mew"@[1] == 'e');
        }
    }
    if len > 0 && uppercase_count(t) * 2 > len {
        assert("MROW"@ != "mew"@) by {
            assert("MROW"@.len() != "mew"@.len());
        }
    }
}

/// `p` is one of the replies of `persona`.
pub open spec fn is_reply_of(persona: CatPersona, p: MeowPhrase) -> bool {
    reply_bank_text(persona).contains(phrase_text(p))
}

/// Chooses the other cat's reply: one of the canned replies of its persona,
/// picked at random. The human's message does not steer the pick.
pub fn weighted_reply(cat: &Cat, incoming: &str) -> (p: MeowPhrase)
    ensures
        is_reply_of(cat.persona, p),
{
    let _ = incoming;
    let bank = reply_bank(cat.persona);
    let picked = choose_one(bank.as_slice());
    match picked {
        Some(p) => {
            proof {
                let i = choose|i: int| 0 <= i < bank@.len() && bank@[i] == *p;
                assert(phrases_text(bank@)[i] == phrase_text(*p));
            }
            p.clone()
        },
        None => MeowPhrase::new("mew", "..."),
    }
}

/// Whether the draw `draw` from `0..1000` falls within a chance of
/// `permille` thousandths.
pub open spec fn within_chance(permille: u32, draw: u32) -> bool {
    draw < permille
}

/// How many of the draws `0..n` fall within a chance of `permille`.
pub open spec fn draws_within(permille: u32, n: nat) -> nat
    decreases n,
{
    if n == 0 {
        0
    } else {
        draws_within(permille, (n - 1) as nat) + if within_chance(permille, (n - 1) as u32) { 1nat } else { 0nat }
    }
}

proof fn lemma_draws_within(permille: u32, n: nat)
    requires
        n <= 1000,
    ensures
        draws_within(permille, n) == (if n <= permille { n } else { permille as nat }),
    decreases n,
{
    if n > 0 {
        lemma_draws_within(permille, (n - 1) as nat);
    }
}

/// A chance of `permille` thousandths is hit by exactly that many of the
/// thousand equally likely draws (by all of them from 1000 up), so a roll
/// judged by `chance_hits` hits with probability `permille / 1000`; and any
/// chance strictly between none and certain has a draw that hits and one that
/// misses, so such a roll can go either way.
pub proof fn a_chance_is_hit_by_its_share_of_draws(permille: u32)
    ensures
        draws_within(permille, 1000) == (if permille < 1000 { permille as nat } else { 1000 }),
        0 < permille < 1000 ==> within_chance(permille, 0) && !within_chance(permille, 999),
{
    lemma_draws_within(permille, 1000);
}

/// Whether a draw, uniform over `0..1000`, falls within a chance of
/// `permille` thousandths: it does when it is below the chance, which
/// happens with probability `permille / 1000`.
pub fn chance_hits(permille: u32, draw: u32) -> (hit: bool)
    requires
        draw < 1000,
    ensures
        hit == within_chance(permille, draw),
        hit == (draw < permille),
{
    draw < permille
}

/// The outcome of the failure roll for a draw from `0..1000` and a picked
/// error: the pick, when the draw falls within the failure chance.
pub fn failure_from_draws(permille: u32, draw: u32, pick: PawLinkError) -> (r: Option<PawLinkError>)
    requires
        draw < 1000,
    ensures
        r == (if within_chance(permille, draw) { Some(pick) } else { None::<PawLinkError> }),
        r == (if draw < permille { Some(pick) } else { None::<PawLinkError> }),
{
    if chance_hits(permille, draw) {
        Some(pick)
    } else {
        None
    }
}

/// Decides whether this uplink fails outright before delivery, and with which
/// flavored error: one draw from `0..1000` (see `draw_permille`) and one
/// error picked at random, combined by `failure_from_draws`. A chance of zero
/// never fails and a certain chance always does.
pub fn roll_failure(timings: &Timings) -> (r: Option<PawLinkError>)
    requires
        timings.failure_chance_permille <= 1000,
    ensures
        timings.failure_chance_permille == 0 ==> r is None,
        timings.failure_chance_permille == 1000 ==> r is Some,
{
    let draw = draw_permille();
    let all = PawLinkError::ALL;
    match choose_one(all.as_slice()) {
        Some(pick) => failure_from_draws(timings.failure_chance_permille, draw, *pick),
        None => None,
    }
}

/// Decides whether the reply of a delivered message is lost in orbit: one
/// draw from `0..1000` (see `draw_permille`), judged by `chance_hits`. A
/// chance of zero never loses it and a certain chance always does.
pub fn roll_packet_loss(timings: &Timings) -> (lost: bool)
    requires
        timings.packet_loss_chance_permille <= 1000,
    ensures
        timings.packet_loss_chance_permille == 0 ==> !lost,
        timings.packet_loss_chance_permille == 1000 ==> lost,
{
    chance_hits(timings.packet_loss_chance_permille, draw_permille())
}

} // verus!

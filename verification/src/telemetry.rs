//! Telemetry copy: plausible-sounding nonsense with real units — dBm, AZ/EL
//! degrees, Doppler shift, purr-rate. Each line has a pure builder whose text
//! is stated exactly, and a public function that draws the random readings.

use vstd::prelude::*;
use vstd::string::*;
use crate::chance::{choose_one, random_range};
use crate::connection::LogLine;
use crate::phase::PawLinkError;
use crate::text::{to_uppercase, uppercased, decimal, push_decimal, push_signed_decimal, push_tenths, signed_decimal, tenths_text};

verus! {

pub const ALIGN_TAGS: [&'static str; 6] = [
    "whisker-aligned",
    "tail-stabilized",
    "ear-tracking",
    "nose-cone nominal",
    "paw-steady",
    "loaf-locked",
];

pub const AMBIENT: [&'static str; 8] = [
    "constellation drift within tolerance",
    "purr-rate stable",
    "thermal: warm sunbeam detected",
    "treat reserves nominal",
    "bird telemetry: alert, distractible",
    "antenna licked clean",
    "orbital nap schedule synced",
    "litter of packets queued",
];

/// A tenths value with a mandatory sign, one decimal place (`-5` gives `"-0.5"`,
/// `0` gives `"+0.0"`).
pub open spec fn signed_tenths_text(t: int) -> Seq<char> {
    if t < 0 {
        "-"@ + tenths_text((-t) as nat)
    } else {
        "+"@ + tenths_text(t as nat)
    }
}

pub open spec fn acquiring_text(
    found: nat,
    total: nat,
    azimuth: nat,
    elevation: nat,
    rssi: int,
    tag: Seq<char>,
) -> Seq<char> {
    "ACQUIRING PAWLINK SAT "@ + decimal(found) + " OF "@ + decimal(total) + " · AZ "@ + decimal(
        azimuth,
    ) + "° EL "@ + decimal(elevation) + "° · RSSI "@ + signed_decimal(rssi) + "dBm · "@ + tag
}

pub open spec fn powering_up_text(bus_tenth: nat) -> Seq<char> {
    "RELAY ENGAGED · bus +"@ + decimal(4) + "."@ + decimal(bus_tenth) + "V · spinning up gyro-paws"@
}

pub open spec fn handshaking_text(doppler_tenths: int, purr_tenths: nat) -> Seq<char> {
    "HANDSHAKE · FSK warble · Doppler "@ + signed_tenths_text(doppler_tenths) + "kHz · purr-rate "@
        + tenths_text(purr_tenths) + "Hz"@
}

pub open spec fn locked_text(rssi: int) -> Seq<char> {
    "CARRIER LOCKED · RSSI "@ + signed_decimal(rssi) + "dBm · BER 0.00 · whiskers true"@
}

pub open spec fn transmitting_text(packets: nat, kbits: nat) -> Seq<char> {
    "TX BURST · "@ + decimal(packets) + " packets · "@ + decimal(kbits) + " kbit/s · tail-wagging"@
}

pub open spec fn awaiting_text(latency_ms: nat) -> Seq<char> {
    "AWAITING REPLY · RTT pending · bird latency "@ + decimal(latency_ms) + "ms"@
}

pub open spec fn receiving_text(snr: nat) -> Seq<char> {
    "RX · inbound meow · SNR "@ + decimal(snr) + "dB · decoding purr"@
}

/// `s` is one of the alignment tags.
pub open spec fn is_align_tag(s: Seq<char>) -> bool {
    exists|i: int| 0 <= i < 6 && s == (#[trigger] ALIGN_TAGS[i])@
}

// ── the random readings, each uniform over the stated range ────────────────

fn rssi() -> (r: i32)
    ensures
        -95 <= r <= -58,
{
    random_range(-95, -57) as i32
}

fn azimuth() -> (a: u32)
    ensures
        a < 360,
{
    random_range(0, 360) as u32
}

fn elevation() -> (e: u32)
    ensures
        5 <= e < 86,
{
    random_range(5, 86) as u32
}

/// Doppler shift in tenths of a kHz.
fn doppler_tenths() -> (d: i32)
    ensures
        -42 <= d <= 42,
{
    random_range(-42, 43) as i32
}

/// Purr-rate in tenths of a Hz.
fn purr_rate_tenths() -> (p: u32)
    ensures
        180 <= p <= 285,
{
    random_range(180, 286) as u32
}

// ── pure builders ──────────────────────────────────────────────────────────

pub fn acquiring_line(
    found: u32,
    total: u32,
    azimuth: u32,
    elevation: u32,
    rssi: i32,
    tag: &str,
) -> (s: String)
    ensures
        s@ == acquiring_text(
            found as nat,
            total as nat,
            azimuth as nat,
            elevation as nat,
            rssi as int,
            tag@,
        ),
{
    let mut s = String::from_str("ACQUIRING PAWLINK SAT ");
    push_decimal(&mut s, found as u64);
    s.append(" OF ");
    push_decimal(&mut s, total as u64);
    s.append(" · AZ ");
    push_decimal(&mut s, azimuth as u64);
    s.append("° EL ");
    push_decimal(&mut s, elevation as u64);
    s.append("° · RSSI ");
    push_signed_decimal(&mut s, rssi as i64);
    s.append("dBm · ");
    s.append(tag);
    s
}

pub fn powering_up_line(bus_tenth: u32) -> (s: String)
    ensures
        s@ == powering_up_text(bus_tenth as nat),
{
    let mut s = String::from_str("RELAY ENGAGED · bus +");
    push_decimal(&mut s, 4);
    s.append(".");
    push_decimal(&mut s, bus_tenth as u64);
    s.append("V · spinning up gyro-paws");
    s
}

pub fn handshaking_line(doppler_tenths: i32, purr_tenths: u32) -> (s: String)
    ensures
        s@ == handshaking_text(doppler_tenths as int, purr_tenths as nat),
{
    let mut s = String::from_str("HANDSHAKE · FSK warble · Doppler ");
    if doppler_tenths < 0 {
        s.append("-");
        let magnitude: u64 = (-(doppler_tenths as i64)) as u64;
        push_tenths(&mut s, magnitude);
    } else {
        s.append("+");
        push_tenths(&mut s, doppler_tenths as u64);
    }
    s.append("kHz · purr-rate ");
    push_tenths(&mut s, purr_tenths as u64);
    s.append("Hz");
    s
}

pub fn locked_line(rssi: i32) -> (s: String)
    ensures
        s@ == locked_text(rssi as int),
{
    let mut s = String::from_str("CARRIER LOCKED · RSSI ");
    push_signed_decimal(&mut s, rssi as i64);
    s.append("dBm · BER 0.00 · whiskers true");
    s
}

pub fn transmitting_line(packets: u32, kbits: u32) -> (s: String)
    ensures
        s@ == transmitting_text(packets as nat, kbits as nat),
{
    let mut s = String::from_str("TX BURST · ");
    push_decimal(&mut s, packets as u64);
    s.append(" packets · ");
    push_decimal(&mut s, kbits as u64);
    s.append(" kbit/s · tail-wagging");
    s
}

pub fn awaiting_line(latency_ms: u32) -> (s: String)
    ensures
        s@ == awaiting_text(latency_ms as nat),
{
    let mut s = String::from_str("AWAITING REPLY · RTT pending · bird latency ");
    push_decimal(&mut s, latency_ms as u64);
    s.append("ms");
    s
}

pub fn receiving_line(snr: u32) -> (s: String)
    ensures
        s@ == receiving_text(snr as nat),
{
    let mut s = String::from_str("RX · inbound meow · SNR ");
    push_decimal(&mut s, snr as u64);
    s.append("dB · decoding purr");
    s
}

// ── the random lines ───────────────────────────────────────────────────────

/// `ACQUIRING PAWLINK SAT 7 OF 12 · AZ 218° EL 41° · RSSI -71dBm · whisker-aligned`
pub fn acquiring(found: u32, total: u32) -> (s: String)
    ensures
        exists|az: nat, el: nat, rssi: int, tag: Seq<char>|
            az < 360 && 5 <= el < 86 && -95 <= rssi <= -58 && is_align_tag(tag) && s@
                == #[trigger] acquiring_text(found as nat, total as nat, az, el, rssi, tag),
{
    let picked = choose_one(ALIGN_TAGS.as_slice());
    let tag: &str = match picked {
        Some(t) => *t,
        None => "aligned",
    };
    proof {
        assert(ALIGN_TAGS@.len() == 6);
        let i = choose|i: int| 0 <= i < ALIGN_TAGS@.len() && ALIGN_TAGS@[i] == tag;
        assert(ALIGN_TAGS[i]@ == tag@);
    }
    let az = azimuth();
    let el = elevation();
    let r = rssi();
    acquiring_line(found, total, az, el, r, tag)
}

pub fn powering_up() -> (s: String)
    ensures
        exists|d: nat| d < 9 && s@ == #[trigger] powering_up_text(d),
{
    let d = random_range(0, 9) as u32;
    powering_up_line(d)
}

pub fn handshaking() -> (s: String)
    ensures
        exists|d: int, p: nat|
            -42 <= d <= 42 && 180 <= p <= 285 && s@ == #[trigger] handshaking_text(d, p),
{
    let d = doppler_tenths();
    let p = purr_rate_tenths();
    handshaking_line(d, p)
}

pub fn locked() -> (s: String)
    ensures
        exists|r: int| -95 <= r <= -58 && s@ == #[trigger] locked_text(r),
{
    let r = rssi();
    locked_line(r)
}

pub fn transmitting() -> (s: String)
    ensures
        exists|p: nat, k: nat| 3 <= p < 18 && 9 <= k < 96 && s@ == #[trigger] transmitting_text(p, k),
{
    let p = random_range(3, 18) as u32;
    let k = random_range(9, 96) as u32;
    transmitting_line(p, k)
}

pub fn awaiting() -> (s: String)
    ensures
        exists|ms: nat| 180 <= ms < 2600 && s@ == #[trigger] awaiting_text(ms),
{
    let ms = random_range(180, 2600) as u32;
    awaiting_line(ms)
}

pub fn receiving() -> (s: String)
    ensures
        exists|snr: nat| 8 <= snr < 32 && s@ == #[trigger] receiving_text(snr),
{
    let snr = random_range(8, 32) as u32;
    receiving_line(snr)
}

/// A random ambient flavor line for the idle HUD scroll, in capitals.
pub fn ambient() -> (s: String)
    ensures
        exists|i: int| 0 <= i < 8 && s@ == uppercased((#[trigger] AMBIENT[i])@),
{
    let picked = choose_one(AMBIENT.as_slice());
    let line: &str = match picked {
        Some(t) => *t,
        None => "nominal",
    };
    proof {
        assert(AMBIENT@.len() == 8);
        let i = choose|i: int| 0 <= i < AMBIENT@.len() && AMBIENT@[i] == line;
        assert(AMBIENT[i]@ == line@);
    }
    to_uppercase(line)
}

// ── rendering a requested line ─────────────────────────────────────────────

pub open spec fn link_failed_text(err: PawLinkError) -> Seq<char> {
    "LINK FAILED · "@ + err.headline_text()
}

/// `s` is a possible rendering of `line`: the fixed lines exactly, and the
/// ones with readings for some readings within their ranges.
pub open spec fn renders(line: LogLine, s: Seq<char>) -> bool {
    match line {
        LogLine::Ambient => exists|i: int| 0 <= i < 8 && s == uppercased((#[trigger] AMBIENT[i])@),
        LogLine::PoweringUp => exists|d: nat| d < 9 && s == #[trigger] powering_up_text(d),
        LogLine::Acquiring { found, total } => exists|az: nat, el: nat, rssi: int, tag: Seq<char>|
            az < 360 && 5 <= el < 86 && -95 <= rssi <= -58 && is_align_tag(tag) && s
                == #[trigger] acquiring_text(found as nat, total as nat, az, el, rssi, tag),
        LogLine::Handshaking => exists|d: int, p: nat|
            -42 <= d <= 42 && 180 <= p <= 285 && s == #[trigger] handshaking_text(d, p),
        LogLine::Locked => exists|r: int| -95 <= r <= -58 && s == #[trigger] locked_text(r),
        LogLine::Transmitting => exists|p: nat, k: nat|
            3 <= p < 18 && 9 <= k < 96 && s == #[trigger] transmitting_text(p, k),
        LogLine::Awaiting => exists|ms: nat| 180 <= ms < 2600 && s == #[trigger] awaiting_text(ms),
        LogLine::ReplyLost => s == "REPLY LOST IN ORBIT"@,
        LogLine::Receiving => exists|snr: nat| 8 <= snr < 32 && s == #[trigger] receiving_text(snr),
        LogLine::LinkFailed(err) => s == link_failed_text(err),
    }
}

/// `LINK FAILED · SOLAR FLARE` and the like.
pub fn link_failed_line(err: PawLinkError) -> (s: String)
    ensures
        s@ == link_failed_text(err),
{
    let mut s = String::from_str("LINK FAILED · ");
    s.append(err.headline());
    s
}

/// Renders a requested telemetry line, drawing its readings.
pub fn render(line: LogLine) -> (s: String)
    ensures
        renders(line, s@),
{
    match line {
        LogLine::Ambient => ambient(),
        LogLine::PoweringUp => powering_up(),
        LogLine::Acquiring { found, total } => acquiring(found, total),
        LogLine::Handshaking => handshaking(),
        LogLine::Locked => locked(),
        LogLine::Transmitting => transmitting(),
        LogLine::Awaiting => awaiting(),
        LogLine::ReplyLost => String::from_str("REPLY LOST IN ORBIT"),
        LogLine::Receiving => receiving(),
        LogLine::LinkFailed(err) => link_failed_line(err),
    }
}

} // verus!

use pawphone::connection::LogLine;
use pawphone::phase::PawLinkError;
use pawphone::telemetry::{
    acquiring, acquiring_line, ambient, awaiting, handshaking, handshaking_line, link_failed_line,
    locked, locked_line, powering_up, powering_up_line, receiving, render, transmitting,
    transmitting_line, ALIGN_TAGS, AMBIENT,
};

#[test]
fn acquiring_line_text() {
    assert_eq!(
        acquiring_line(7, 12, 218, 41, -71, "whisker-aligned"),
        "ACQUIRING PAWLINK SAT 7 OF 12 · AZ 218° EL 41° · RSSI -71dBm · whisker-aligned"
    );
    assert_eq!(
        acquiring_line(0, 0, 0, 5, -95, "loaf-locked"),
        "ACQUIRING PAWLINK SAT 0 OF 0 · AZ 0° EL 5° · RSSI -95dBm · loaf-locked"
    );
}

#[test]
fn handshaking_line_formats_signed_tenths() {
    assert_eq!(
        handshaking_line(-5, 180),
        "HANDSHAKE · FSK warble · Doppler -0.5kHz · purr-rate 18.0Hz"
    );
    assert_eq!(
        handshaking_line(0, 285),
        "HANDSHAKE · FSK warble · Doppler +0.0kHz · purr-rate 28.5Hz"
    );
    assert_eq!(
        handshaking_line(42, 215),
        "HANDSHAKE · FSK warble · Doppler +4.2kHz · purr-rate 21.5Hz"
    );
    // the same as the float formatting of the readings
    for d in -42i32..=42 {
        for p in [180u32, 233, 285] {
            let expected = format!(
                "HANDSHAKE · FSK warble · Doppler {:+.1}kHz · purr-rate {:.1}Hz",
                d as f32 / 10.0,
                p as f32 / 10.0
            );
            assert_eq!(handshaking_line(d, p), expected);
        }
    }
}

#[test]
fn fixed_format_lines() {
    assert_eq!(powering_up_line(7), "RELAY ENGAGED · bus +4.7V · spinning up gyro-paws");
    assert_eq!(locked_line(-58), "CARRIER LOCKED · RSSI -58dBm · BER 0.00 · whiskers true");
    assert_eq!(transmitting_line(3, 95), "TX BURST · 3 packets · 95 kbit/s · tail-wagging");
    assert_eq!(link_failed_line(PawLinkError::SolarFlare), "LINK FAILED · SOLAR FLARE");
    assert_eq!(render(LogLine::ReplyLost), "REPLY LOST IN ORBIT");
    assert_eq!(render(LogLine::LinkFailed(PawLinkError::LowTreats)), "LINK FAILED · LOW TREATS");
}

#[test]
fn random_lines_stay_in_their_ranges() {
    for _ in 0..100 {
        let a = acquiring(3, 12);
        assert!(a.starts_with("ACQUIRING PAWLINK SAT 3 OF 12 · AZ "));
        assert!(ALIGN_TAGS.iter().any(|t| a.ends_with(t)));
        let rssi: i32 = a.split("RSSI ").nth(1).unwrap().split("dBm").next().unwrap().parse().unwrap();
        assert!((-95..=-58).contains(&rssi));
        let bus = powering_up();
        let digit: u32 = bus["RELAY ENGAGED · bus +4.".len()..].chars().next().unwrap().to_digit(10).unwrap();
        assert!(digit < 9);
        assert!(handshaking().starts_with("HANDSHAKE · FSK warble · Doppler "));
        assert!(locked().starts_with("CARRIER LOCKED · RSSI -"));
        let ms: u32 = awaiting()
            .trim_start_matches("AWAITING REPLY · RTT pending · bird latency ")
            .trim_end_matches("ms")
            .parse()
            .unwrap();
        assert!((180..2600).contains(&ms));
        let snr: u32 = receiving()
            .trim_start_matches("RX · inbound meow · SNR ")
            .trim_end_matches("dB · decoding purr")
            .parse()
            .unwrap();
        assert!((8..32).contains(&snr));
        assert!(transmitting().ends_with(" kbit/s · tail-wagging"));
    }
}

#[test]
fn ambient_lines_are_uppercased_table_entries() {
    for _ in 0..50 {
        let line = ambient();
        assert!(AMBIENT.iter().any(|a| a.to_uppercase() == line));
        assert_eq!(line, line.to_uppercase());
        assert_ne!(line, line.to_lowercase());
    }
}

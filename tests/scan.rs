use rom_dumper::scan::{Action, ConfigError, Event, Phase, ScanConfig, Scanner};
use rom_dumper::simulate::scan_image;

fn config(capacity: u32, lines: usize, ascii: bool) -> ScanConfig {
    ScanConfig::new(capacity, lines, ascii, 0).unwrap()
}

#[test]
fn config_accepts_consistent_builds() {
    let c = ScanConfig::new(131_072, 17, true, 1).unwrap();
    assert_eq!(c.capacity, 131_072);
    assert_eq!(c.address_lines, 17);
    assert!(ScanConfig::new(32, 5, false, 0).is_ok());
    assert!(ScanConfig::new(16, 17, false, 0).is_ok());
    assert!(ScanConfig::new(0, 0, false, 0).is_ok());
    assert!(ScanConfig::new(0xFFFF_FFF0, 32, false, 0).is_ok());
}

#[test]
fn config_errors() {
    assert_eq!(ScanConfig::new(32, 33, false, 0), Err(ConfigError::TooManyAddressLines));
    assert_eq!(ScanConfig::new(40, 8, false, 0), Err(ConfigError::CapacityNotGroupMultiple));
    assert_eq!(ScanConfig::new(64, 5, false, 0), Err(ConfigError::TooFewAddressLines));
    assert_eq!(ScanConfig::new(131_088, 17, true, 0), Err(ConfigError::TooFewAddressLines));
}

/// Drives a scanner by hand with a chip whose byte at `a` is `chip(a)`,
/// recording the sampled addresses per emitted line and the indicator.
fn drive(cfg: ScanConfig, chip: impl Fn(u32) -> u8) -> (Vec<String>, Vec<Vec<u32>>, Vec<bool>, Scanner) {
    let mut scanner = Scanner::new(cfg);
    let mut lines = Vec::new();
    let mut groups = Vec::new();
    let mut indicator = Vec::new();
    let mut current = Vec::new();
    let mut event = Event::Ready;
    loop {
        match scanner.step(event) {
            Action::Setup { address_levels } => {
                assert!(address_levels.iter().all(|&l| !l));
                assert_eq!(address_levels.len(), cfg.address_lines);
                indicator.push(true);
                event = Event::Ready;
            }
            Action::Sample { address, address_levels } => {
                assert_eq!(rom_dumper::lines::decode_address(&address_levels), address);
                current.push(address);
                event = Event::Sampled(chip(address));
            }
            Action::Emit { line, indicator: level } => {
                lines.push(line);
                groups.push(std::mem::take(&mut current));
                indicator.push(level);
                event = Event::Ready;
            }
            Action::Finish => {
                indicator.push(false);
                break;
            }
            Action::Halted => panic!("halted before finishing"),
        }
    }
    (lines, groups, indicator, scanner)
}

#[test]
fn capacity_32_gives_two_groups() {
    let (lines, groups, _, scanner) = drive(config(32, 5, false), |a| a as u8);
    assert_eq!(lines.len(), 2);
    assert_eq!(groups[0], (0..16).collect::<Vec<u32>>());
    assert_eq!(groups[1], (16..32).collect::<Vec<u32>>());
    assert_eq!(lines[1], "10 11 12 13 14 15 16 17 18 19 1A 1B 1C 1D 1E 1F \n");
    assert_eq!(scanner.phase(), Phase::Done);
    assert_eq!(scanner.groups_emitted(), 2);
}

#[test]
fn all_lines_high_gives_ff_lines() {
    let (lines, _, _, _) = drive(config(64, 6, false), |_| 0xFF);
    assert_eq!(lines.len(), 4);
    for line in &lines {
        assert_eq!(line, "FF FF FF FF FF FF FF FF FF FF FF FF FF FF FF FF \n");
    }
    let (lines, _, _, _) = drive(config(32, 5, true), |_| 0xFF);
    for line in &lines {
        assert_eq!(
            line,
            "FF FF FF FF FF FF FF FF FF FF FF FF FF FF FF FF   . . . . . . . . . . . . . . . . \n"
        );
    }
}

#[test]
fn scan_stops_after_capacity_over_sixteen_groups() {
    let (lines, _, _, mut scanner) = drive(config(256, 8, true), |a| (a * 7) as u8);
    assert_eq!(lines.len(), 16);
    for _ in 0..5 {
        assert_eq!(scanner.step(Event::Ready), Action::Halted);
        assert_eq!(scanner.step(Event::Sampled(0)), Action::Halted);
    }
    assert_eq!(scanner.groups_emitted(), 16);
    assert_eq!(scanner.phase(), Phase::Done);
}

#[test]
fn zero_capacity_finishes_at_once() {
    let (lines, _, indicator, scanner) = drive(config(0, 0, false), |_| 0);
    assert!(lines.is_empty());
    assert_eq!(indicator, vec![true, false]);
    assert!(!scanner.indicator());
}

#[test]
fn indicator_toggles_once_per_group_and_ends_off() {
    let (lines, _, indicator, scanner) = drive(config(80, 7, false), |a| a as u8);
    assert_eq!(lines.len(), 5);
    assert_eq!(indicator, vec![true, false, true, false, true, false, false]);
    assert!(!scanner.indicator());
}

#[test]
fn scanner_protocol_by_hand() {
    let mut s = Scanner::new(config(16, 4, false));
    assert_eq!(s.phase(), Phase::Init);
    assert!(!s.indicator());
    assert_eq!(s.step(Event::Ready), Action::Setup { address_levels: vec![false; 4] });
    assert!(s.indicator());
    assert!(!s.expects_sample());
    assert_eq!(
        s.step(Event::Ready),
        Action::Sample { address: 0, address_levels: vec![false; 4] }
    );
    assert!(s.expects_sample());
    for a in 1..16u32 {
        match s.step(Event::Sampled(0xA0 + a as u8 - 1)) {
            Action::Sample { address, .. } => assert_eq!(address, a),
            other => panic!("unexpected {:?}", other),
        }
    }
    assert_eq!(
        s.step(Event::Sampled(0xAF)),
        Action::Emit {
            line: "A0 A1 A2 A3 A4 A5 A6 A7 A8 A9 AA AB AC AD AE AF \n".to_string(),
            indicator: false,
        }
    );
    assert_eq!(s.step(Event::Ready), Action::Finish);
    assert_eq!(s.phase(), Phase::Done);
    assert_eq!(s.step(Event::Ready), Action::Halted);
}

#[test]
fn simulated_chip_scan_matches_image() {
    let image: Vec<u8> = (0..48u32).map(|a| (a * 5 + 0x20) as u8).collect();
    let lines = scan_image(config(48, 6, true), &image);
    assert_eq!(lines.len(), 3);
    assert_eq!(
        lines[0],
        "20 25 2A 2F 34 39 3E 43 48 4D 52 57 5C 61 66 6B   . % * / 4 9 > C H M R W \\ a f k \n"
    );
    assert_eq!(lines[2], rom_dumper::dump::format_group(&image[32..48], true));
}

#[test]
fn simulated_chip_all_high() {
    let image = vec![0xFFu8; 32];
    let lines = scan_image(config(32, 5, false), &image);
    assert_eq!(lines, vec!["FF FF FF FF FF FF FF FF FF FF FF FF FF FF FF FF \n".to_string(); 2]);
}

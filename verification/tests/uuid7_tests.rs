use uuid7::build_v7;
use uuid7::format_uuid;
use uuid7::generate_lines;
use uuid7::generate_v7;

fn decode_ts(b: &[u8; 16]) -> u64 {
    ((b[0] as u64) << 40)
        | ((b[1] as u64) << 32)
        | ((b[2] as u64) << 24)
        | ((b[3] as u64) << 16)
        | ((b[4] as u64) << 8)
        | (b[5] as u64)
}

/// Canonical hyphenated lowercase form of a version 7 identifier:
/// 8-4-4-4-12 lowercase hex groups, version digit 7, variant digit in 8..b.
fn is_canonical_lower(s: &str) -> bool {
    let cs: Vec<char> = s.chars().collect();
    if cs.len() != 36 {
        return false;
    }
    for (i, c) in cs.iter().enumerate() {
        let ok = match i {
            8 | 13 | 18 | 23 => *c == '-',
            14 => *c == '7',
            19 => matches!(*c, '8' | '9' | 'a' | 'b'),
            _ => c.is_ascii_hexdigit() && !c.is_ascii_uppercase(),
        };
        if !ok {
            return false;
        }
    }
    true
}

const FILL: [u8; 10] = [0xc4, 0xd8, 0x1e, 0x1f, 0xaa, 0xbb, 0xcc, 0xdd, 0xee, 0xff];

#[test]
fn version_and_variant_bits() {
    let id = generate_v7().expect("clock before the Unix epoch");
    assert_eq!(id[6] >> 4, 7);
    assert_eq!(id[8] >> 6, 0b10);
    let built = build_v7(0, &[0xff; 10]);
    assert_eq!(built[6], 0x7f);
    assert_eq!(built[8], 0xbf);
    assert_eq!(built[6] >> 4, 7);
    assert_eq!(built[8] >> 6, 0b10);
}

#[test]
fn timestamp_within_bounds() {
    let before = std::time::SystemTime::now()
        .duration_since(std::time::UNIX_EPOCH)
        .unwrap()
        .as_millis() as u64
        & 0x0000_ffff_ffff_ffff;
    let id = generate_v7().expect("clock before the Unix epoch");
    let after = std::time::SystemTime::now()
        .duration_since(std::time::UNIX_EPOCH)
        .unwrap()
        .as_millis() as u64
        & 0x0000_ffff_ffff_ffff;
    let ts = decode_ts(&id);
    assert!(before <= ts);
    assert!(ts <= after);
}

#[test]
fn timestamp_is_masked_low_48_bits() {
    let id = build_v7(0xabcd_018f_3a2b_7c4d, &FILL);
    assert_eq!(decode_ts(&id), 0x018f_3a2b_7c4d);
}

#[test]
fn render_deterministic() {
    let id = build_v7(0x018f_3a2b_7c4d, &FILL);
    for &no_hyphen in &[false, true] {
        for &braced in &[false, true] {
            for &upper in &[false, true] {
                let a = format_uuid(id, no_hyphen, braced, upper);
                let b = format_uuid(id, no_hyphen, braced, upper);
                assert_eq!(a, b);
            }
        }
    }
}

#[test]
fn round_trip_hyphenated_vs_contiguous() {
    let id = build_v7(0x018f_3a2b_7c4d, &FILL);
    let hyphenated = format_uuid(id, false, false, false);
    let contiguous_upper = format_uuid(id, true, false, true);
    assert_eq!(
        hyphenated.replace('-', "").to_lowercase(),
        contiguous_upper.to_lowercase()
    );
}

#[test]
fn rendered_lengths() {
    let id = build_v7(0x018f_3a2b_7c4d, &FILL);
    for &upper in &[false, true] {
        assert_eq!(format_uuid(id, false, false, upper).len(), 36);
        assert_eq!(format_uuid(id, true, false, upper).len(), 32);
        assert_eq!(format_uuid(id, false, true, upper).len(), 38);
        assert_eq!(format_uuid(id, true, true, upper).len(), 34);
    }
}

#[test]
fn canonical_scenario() {
    let id = build_v7(0x018f_3a2b_7c4d, &FILL);
    let plain = format_uuid(id, false, false, false);
    assert_eq!(plain, "018f3a2b-7c4d-74d8-9e1f-aabbccddeeff");
    assert!(is_canonical_lower(&plain));
    assert_eq!(
        format_uuid(id, false, true, false),
        "{018f3a2b-7c4d-74d8-9e1f-aabbccddeeff}"
    );
    assert_eq!(
        format_uuid(id, true, false, true),
        "018F3A2B7C4D74D89E1FAABBCCDDEEFF"
    );
    assert_eq!(
        format_uuid(id, true, true, true),
        "{018F3A2B7C4D74D89E1FAABBCCDDEEFF}"
    );
}

#[test]
fn count_five_lines() {
    let lines = generate_lines(5, false, false, false).expect("clock before the Unix epoch");
    assert_eq!(lines.len(), 5);
    let mut previous: u64 = 0;
    for line in &lines {
        assert!(is_canonical_lower(line));
        let ts = u64::from_str_radix(&line.replace('-', "")[..12], 16).unwrap();
        assert!(previous <= ts);
        previous = ts;
    }
}

#[test]
fn count_zero_lines() {
    let lines = generate_lines(0, false, false, false).expect("clock before the Unix epoch");
    assert!(lines.is_empty());
}

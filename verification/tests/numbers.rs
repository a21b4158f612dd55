use fdg::number::parse_decimal;
use fdg::{Delta, DirectionSource, Entropy, Script};

#[test]
fn decimal_integers_are_read() {
    assert_eq!(parse_decimal(b"0"), Some(0));
    assert_eq!(parse_decimal(b"42"), Some(42));
    assert_eq!(parse_decimal(b"+42"), Some(42));
    assert_eq!(parse_decimal(b"-42"), Some(-42));
    assert_eq!(parse_decimal(b"-0"), Some(0));
    assert_eq!(parse_decimal(b"007"), Some(7));
    assert_eq!(parse_decimal(b"9223372036854775807"), Some(i64::MAX));
    assert_eq!(parse_decimal(b"-9223372036854775808"), Some(i64::MIN));
    assert_eq!(parse_decimal(b"0000000000000000000000000000001"), Some(1));
}

#[test]
fn anything_else_is_no_integer() {
    assert_eq!(parse_decimal(b""), None);
    assert_eq!(parse_decimal(b"+"), None);
    assert_eq!(parse_decimal(b"-"), None);
    assert_eq!(parse_decimal(b"--1"), None);
    assert_eq!(parse_decimal(b"+-1"), None);
    assert_eq!(parse_decimal(b" 1"), None);
    assert_eq!(parse_decimal(b"1 "), None);
    assert_eq!(parse_decimal(b"1\n"), None);
    assert_eq!(parse_decimal(b"1_000"), None);
    assert_eq!(parse_decimal(b"12a"), None);
    assert_eq!(parse_decimal(b"0x10"), None);
    assert_eq!(parse_decimal(b"1.5"), None);
    assert_eq!(parse_decimal(b"9223372036854775808"), None);
    assert_eq!(parse_decimal(b"-9223372036854775809"), None);
    assert_eq!(parse_decimal(b"99999999999999999999999"), None);
    assert_eq!(parse_decimal(b"-99999999999999999999999"), None);
    assert_eq!(parse_decimal(b"99999999999999999999999x"), None);
}

#[test]
fn parsing_agrees_with_the_standard_library() {
    let samples = [
        "0", "-1", "+1", "12345", "-12345", "", "+", "-", "1-", "٣", "1e3", " 7",
        "9223372036854775807", "9223372036854775808", "-9223372036854775808",
        "-9223372036854775809", "18446744073709551616",
    ];
    for s in samples {
        assert_eq!(parse_decimal(s.as_bytes()), s.parse::<i64>().ok(), "{:?}", s);
    }
}

#[test]
fn script_goes_through_its_directions_again_and_again() {
    let mut s = Script::new(vec![Delta::N, Delta::W, Delta::S]);
    let drawn: Vec<Delta> = (0..7).map(|_| s.next_direction()).collect();
    assert_eq!(
        drawn,
        vec![Delta::N, Delta::W, Delta::S, Delta::N, Delta::W, Delta::S, Delta::N]
    );
    assert_eq!(s.next_direction(), Delta::W);
}

#[test]
fn empty_script_gives_east() {
    let mut s = Script::new(vec![]);
    assert_eq!(s.next_direction(), Delta::E);
    assert_eq!(s.next_direction(), Delta::E);
}

#[test]
fn entropy_gives_every_direction() {
    let mut source = Entropy;
    let mut seen = [false; 4];
    for _ in 0..2000 {
        let i = match source.next_direction() {
            Delta::N => 0,
            Delta::S => 1,
            Delta::E => 2,
            Delta::W => 3,
        };
        seen[i] = true;
    }
    assert_eq!(seen, [true; 4]);
}

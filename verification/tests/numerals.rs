use amethyst_cli::bytes::{append, before, behind, copy_of, find_byte, same_bytes};
use amethyst_cli::numeral::{read_numeral, write_decimal};

#[test]
fn reads_numerals() {
    assert_eq!(read_numeral(b"0"), Some(0));
    assert_eq!(read_numeral(b"7"), Some(7));
    assert_eq!(read_numeral(b"10"), Some(10));
    assert_eq!(read_numeral(b"1234567890"), Some(1234567890));
    assert_eq!(read_numeral(b"18446744073709551615"), Some(u64::MAX));
}

#[test]
fn refuses_what_is_no_numeral() {
    assert_eq!(read_numeral(b""), None);
    assert_eq!(read_numeral(b"00"), None);
    assert_eq!(read_numeral(b"01"), None);
    assert_eq!(read_numeral(b"1a"), None);
    assert_eq!(read_numeral(b"-1"), None);
    assert_eq!(read_numeral(b"+1"), None);
    assert_eq!(read_numeral(b" 1"), None);
    assert_eq!(read_numeral(b"18446744073709551616"), None);
    assert_eq!(read_numeral(b"184467440737095516150"), None);
    assert_eq!(read_numeral(b"99999999999999999999"), None);
}

#[test]
fn writes_numerals() {
    let mut out = b"v".to_vec();
    write_decimal(0, &mut out);
    assert_eq!(out, b"v0");
    write_decimal(42, &mut out);
    assert_eq!(out, b"v042");
    let mut max = Vec::new();
    write_decimal(u64::MAX, &mut max);
    assert_eq!(max, b"18446744073709551615");
}

#[test]
fn numerals_round_trip() {
    for n in [0u64, 1, 9, 10, 11, 99, 100, 101, 65535, 4294967296, u64::MAX - 1, u64::MAX] {
        let mut out = Vec::new();
        write_decimal(n, &mut out);
        assert_eq!(read_numeral(&out), Some(n));
        assert_eq!(out, n.to_string().into_bytes());
    }
}

#[test]
fn finds_the_first_occurrence() {
    assert_eq!(find_byte(b"a.b.c", b'.'), 1);
    assert_eq!(find_byte(b".a", b'.'), 0);
    assert_eq!(find_byte(b"abc", b'.'), 3);
    assert_eq!(find_byte(b"", b'.'), 0);
}

#[test]
fn cuts_around_a_separator() {
    let s = b"left=right=more";
    let k = find_byte(s, b'=');
    assert_eq!(before(s, k), b"left");
    assert_eq!(behind(s, k), b"right=more");
    assert_eq!(before(s, 0), b"");
    assert_eq!(before(s, s.len()), s);
    assert_eq!(behind(s, s.len() - 1), b"");
}

#[test]
fn copies_appends_and_compares() {
    let mut out = copy_of(b"ab");
    append(&mut out, b"cd");
    append(&mut out, b"");
    assert_eq!(out, b"abcd");
    assert!(same_bytes(&out, b"abcd"));
    assert!(!same_bytes(&out, b"abce"));
    assert!(!same_bytes(&out, b"abc"));
    assert!(same_bytes(b"", b""));
}

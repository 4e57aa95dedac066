use amethyst_cli::error::InstallError;
use amethyst_cli::precedence::{order_bytes, order_numbers, order_tags, order_versions, Precedence};
use amethyst_cli::version::{check_identifier, check_tag, is_latest_token, parse, Version, VersionRequest};

fn version(text: &str) -> Version {
    Version::parse_exact(text.as_bytes()).unwrap()
}

#[test]
fn parses_a_plain_version() {
    let v = version("1.2.3");
    assert_eq!(v.major(), 1);
    assert_eq!(v.minor(), 2);
    assert_eq!(v.patch(), 3);
    assert!(v.pre().is_empty());
    assert!(v.build().is_empty());
    assert!(!v.is_prerelease());
}

#[test]
fn parses_tags() {
    let v = version("10.20.30-rc.1+build.5-x");
    assert_eq!(v.major(), 10);
    assert_eq!(v.minor(), 20);
    assert_eq!(v.patch(), 30);
    assert_eq!(v.pre(), b"rc.1");
    assert_eq!(v.build(), b"build.5-x");
    assert!(v.is_prerelease());
}

#[test]
fn parses_a_build_tag_without_pre_release() {
    let v = version("0.0.0+001");
    assert_eq!((v.major(), v.minor(), v.patch()), (0, 0, 0));
    assert!(v.pre().is_empty());
    assert_eq!(v.build(), b"001");
}

#[test]
fn a_hyphen_behind_the_plus_belongs_to_the_build_tag() {
    let v = version("1.0.0+a-b");
    assert!(v.pre().is_empty());
    assert_eq!(v.build(), b"a-b");
}

#[test]
fn parses_the_largest_number() {
    let v = version("18446744073709551615.0.0");
    assert_eq!(v.major(), u64::MAX);
}

#[test]
fn refuses_a_number_that_does_not_fit() {
    assert_eq!(
        Version::parse_exact(b"18446744073709551616.0.0"),
        Err(InstallError::InvalidVersionFormat)
    );
    assert_eq!(
        Version::parse_exact(b"1.99999999999999999999999.0"),
        Err(InstallError::InvalidVersionFormat)
    );
}

#[test]
fn parses_the_latest_token() {
    assert_eq!(parse(b"latest"), Ok(VersionRequest::Latest));
    assert!(is_latest_token(b"latest"));
    assert!(!is_latest_token(b"Latest"));
    assert!(!is_latest_token(b"latest "));
}

#[test]
fn parses_a_concrete_request() {
    assert_eq!(parse(b"2.0.1"), Ok(VersionRequest::Exact(version("2.0.1"))));
}

#[test]
fn refuses_what_is_no_version() {
    let bad: [&[u8]; 22] = [
        b"",
        b"1",
        b"1.2",
        b"1.2.",
        b"1.2.3.4",
        b"01.2.3",
        b"1.02.3",
        b"1.2.03",
        b"1.2.3-",
        b"1.2.3+",
        b"1.2.3-+b",
        b"1.2.3-a..b",
        b"1.2.3-.a",
        b"1.2.3-a.",
        b"1.2.3-01",
        b"1.2.3-a_b",
        b"1.2.3+a+b",
        b"v1.2.3",
        b" 1.2.3",
        b"1.2.3 ",
        b"1.x.3",
        b"LATEST",
    ];
    for text in bad {
        assert_eq!(parse(text), Err(InstallError::InvalidVersionFormat), "{:?}", text);
        assert_eq!(
            Version::parse_exact(text),
            Err(InstallError::InvalidVersionFormat),
            "{:?}",
            text
        );
    }
}

#[test]
fn the_latest_token_is_no_concrete_version() {
    assert_eq!(Version::parse_exact(b"latest"), Err(InstallError::InvalidVersionFormat));
}

#[test]
fn a_build_tag_may_start_with_zero_but_a_pre_release_number_may_not() {
    assert!(Version::parse_exact(b"1.2.3+01").is_ok());
    assert!(Version::parse_exact(b"1.2.3-0").is_ok());
    assert!(Version::parse_exact(b"1.2.3-0a").is_ok());
    assert!(Version::parse_exact(b"1.2.3-00").is_err());
}

#[test]
fn text_round_trip() {
    let texts: [&str; 8] = [
        "0.0.0",
        "1.2.3",
        "1.0.0-alpha",
        "1.0.0-alpha.1",
        "1.0.0-0.3.7",
        "1.0.0-x.7.z.92",
        "1.0.0+20130313144700",
        "18446744073709551615.18446744073709551615.18446744073709551615-rc-1.x+exp.sha.5114f85",
    ];
    for text in texts {
        let v = version(text);
        assert_eq!(v.to_bytes(), text.as_bytes());
        assert_eq!(Version::parse_exact(&v.to_bytes()), Ok(v));
    }
}

#[test]
fn new_builds_what_parse_reads() {
    let built = Version::new(1, 2, 3, b"rc.1", b"b5").unwrap();
    assert_eq!(built, version("1.2.3-rc.1+b5"));
    assert_eq!(built.to_bytes(), b"1.2.3-rc.1+b5");
    let plain = Version::new(4, 5, 6, b"", b"").unwrap();
    assert_eq!(plain.to_bytes(), b"4.5.6");
}

#[test]
fn new_refuses_bad_tags() {
    assert_eq!(Version::new(1, 2, 3, b"rc..1", b""), Err(InstallError::InvalidVersionFormat));
    assert_eq!(Version::new(1, 2, 3, b"01", b""), Err(InstallError::InvalidVersionFormat));
    assert_eq!(Version::new(1, 2, 3, b"", b"a+b"), Err(InstallError::InvalidVersionFormat));
    assert_eq!(Version::new(1, 2, 3, b"", b"."), Err(InstallError::InvalidVersionFormat));
}

#[test]
fn duplicate_and_same_agree() {
    let v = version("1.2.3-rc.1+b5");
    let w = v.duplicate();
    assert!(v.same(&w));
    assert_eq!(v.clone(), w);
    assert!(!v.same(&version("1.2.3-rc.1+b6")));
    assert!(!v.same(&version("1.2.3-rc.2+b5")));
    assert!(!v.same(&version("1.2.4-rc.1+b5")));
}

#[test]
fn identifiers_and_tags() {
    assert!(check_identifier(b"alpha", true));
    assert!(check_identifier(b"0", true));
    assert!(check_identifier(b"10", true));
    assert!(!check_identifier(b"010", true));
    assert!(check_identifier(b"010", false));
    assert!(check_identifier(b"01a", true));
    assert!(!check_identifier(b"", false));
    assert!(!check_identifier(b"a.b", false));
    assert!(check_tag(b"a.b.c", true));
    assert!(!check_tag(b"a..c", true));
    assert!(!check_tag(b"", true));
    assert!(!check_tag(b".", false));
    assert!(!check_tag(b"a.00", true));
    assert!(check_tag(b"a.00", false));
}

#[test]
fn numbers_decide_before_tags() {
    assert_eq!(order_versions(&version("1.0.0"), &version("2.0.0")), Precedence::Lower);
    assert_eq!(order_versions(&version("2.1.0"), &version("2.0.9")), Precedence::Higher);
    assert_eq!(order_versions(&version("2.1.1"), &version("2.1.0")), Precedence::Higher);
    assert_eq!(order_versions(&version("9.0.0"), &version("10.0.0")), Precedence::Lower);
    assert_eq!(order_versions(&version("1.0.1-rc1"), &version("1.0.0")), Precedence::Higher);
}

#[test]
fn stable_beats_pre_release() {
    assert_eq!(order_versions(&version("1.1.0"), &version("1.1.0-rc1")), Precedence::Higher);
    assert_eq!(order_versions(&version("1.1.0-rc1"), &version("1.1.0")), Precedence::Lower);
}

#[test]
fn pre_release_tags_are_ordered_as_byte_strings() {
    assert_eq!(order_versions(&version("1.0.0-alpha"), &version("1.0.0-beta")), Precedence::Lower);
    assert_eq!(order_versions(&version("1.0.0-rc1"), &version("1.0.0-rc2")), Precedence::Lower);
    assert_eq!(order_versions(&version("1.0.0-rc"), &version("1.0.0-rc.1")), Precedence::Lower);
    assert_eq!(order_versions(&version("1.0.0-rc.10"), &version("1.0.0-rc.9")), Precedence::Lower);
    assert_eq!(order_versions(&version("1.0.0-b"), &version("1.0.0-B")), Precedence::Higher);
}

#[test]
fn the_build_tag_plays_no_part() {
    assert_eq!(order_versions(&version("1.0.0+a"), &version("1.0.0+b")), Precedence::Same);
    assert_eq!(order_versions(&version("1.0.0-x+a"), &version("1.0.0-x")), Precedence::Same);
}

#[test]
fn order_flips_and_is_reflexive() {
    let texts: [&str; 6] = ["1.0.0", "1.0.0-a", "1.0.0-b", "1.0.1", "0.9.9", "1.0.0+z"];
    for a in texts {
        assert_eq!(order_versions(&version(a), &version(a)), Precedence::Same);
        for b in texts {
            let forth = order_versions(&version(a), &version(b));
            let back = order_versions(&version(b), &version(a));
            let flipped = match forth {
                Precedence::Lower => Precedence::Higher,
                Precedence::Same => Precedence::Same,
                Precedence::Higher => Precedence::Lower,
            };
            assert_eq!(back, flipped);
            for c in texts {
                let next = order_versions(&version(b), &version(c));
                if forth != Precedence::Higher && next != Precedence::Higher {
                    assert_ne!(order_versions(&version(a), &version(c)), Precedence::Higher);
                }
            }
        }
    }
}

#[test]
fn orders_of_the_parts() {
    assert_eq!(order_numbers(1, 2), Precedence::Lower);
    assert_eq!(order_numbers(2, 2), Precedence::Same);
    assert_eq!(order_numbers(u64::MAX, 0), Precedence::Higher);
    assert_eq!(order_bytes(b"", b""), Precedence::Same);
    assert_eq!(order_bytes(b"", b"a"), Precedence::Lower);
    assert_eq!(order_bytes(b"ab", b"a"), Precedence::Higher);
    assert_eq!(order_bytes(b"ab", b"ac"), Precedence::Lower);
    assert_eq!(order_tags(b"", b""), Precedence::Same);
    assert_eq!(order_tags(b"", b"a"), Precedence::Higher);
    assert_eq!(order_tags(b"a", b""), Precedence::Lower);
    assert_eq!(order_tags(b"a", b"b"), Precedence::Lower);
}

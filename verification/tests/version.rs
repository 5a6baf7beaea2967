use release_config::error::ConfigError;
use release_config::version::{canonical_version, parse_version};

#[test]
fn parses_plain_release() {
    assert_eq!(parse_version("1.2.3"), Ok((1, 2, 3, 0, 0)));
}

#[test]
fn parses_beta() {
    assert_eq!(parse_version("1.2.3-beta4"), Ok((1, 2, 3, 4, 0)));
}

#[test]
fn parses_release_candidate() {
    assert_eq!(parse_version("1.2.3-rc2"), Ok((1, 2, 3, 0, 2)));
}

#[test]
fn parses_beta_of_next_major() {
    assert_eq!(parse_version("2.0.0-beta1"), Ok((2, 0, 0, 1, 0)));
    assert_eq!(canonical_version("2.0.0-beta1"), "2.0.0");
}

#[test]
fn parses_largest_numbers() {
    assert_eq!(parse_version("255.255.255-rc255"), Ok((255, 255, 255, 0, 255)));
    assert_eq!(parse_version("0.0.0"), Ok((0, 0, 0, 0, 0)));
}

#[test]
fn parses_numbers_of_several_digits() {
    assert_eq!(parse_version("30.12.107-beta12"), Ok((30, 12, 107, 12, 0)));
}

#[test]
fn leading_zeros_do_not_count() {
    assert_eq!(parse_version("01.002.0003"), Ok((1, 2, 3, 0, 0)));
    assert_eq!(parse_version("1.2.3-beta007"), Ok((1, 2, 3, 7, 0)));
}

#[test]
fn exactly_one_qualifier_number_is_positive() {
    let (_, _, _, beta, rc) = parse_version("4.5.6-beta9").unwrap();
    assert!(beta > 0 && rc == 0);
    let (_, _, _, beta, rc) = parse_version("4.5.6-rc9").unwrap();
    assert!(beta == 0 && rc > 0);
    let (_, _, _, beta, rc) = parse_version("4.5.6").unwrap();
    assert!(beta == 0 && rc == 0);
}

#[test]
fn rejects_empty_text() {
    assert_eq!(parse_version(""), Err(ConfigError::InvalidVersionFormat));
}

#[test]
fn rejects_too_few_fields() {
    assert_eq!(parse_version("1"), Err(ConfigError::InvalidVersionFormat));
    assert_eq!(parse_version("1.2"), Err(ConfigError::InvalidVersionFormat));
    assert_eq!(parse_version("1.2-beta1"), Err(ConfigError::InvalidVersionFormat));
}

#[test]
fn rejects_too_many_fields() {
    assert_eq!(parse_version("1.2.3.4"), Err(ConfigError::InvalidVersionFormat));
}

#[test]
fn rejects_empty_fields() {
    assert_eq!(parse_version("1..3"), Err(ConfigError::InvalidVersionFormat));
    assert_eq!(parse_version(".2.3"), Err(ConfigError::InvalidVersionFormat));
    assert_eq!(parse_version("1.2."), Err(ConfigError::InvalidVersionFormat));
    assert_eq!(parse_version(".."), Err(ConfigError::InvalidVersionFormat));
}

#[test]
fn rejects_what_is_no_digit() {
    assert_eq!(parse_version("a.b.c"), Err(ConfigError::InvalidVersionFormat));
    assert_eq!(parse_version("1.2.x"), Err(ConfigError::InvalidVersionFormat));
    assert_eq!(parse_version("+1.2.3"), Err(ConfigError::InvalidVersionFormat));
    assert_eq!(parse_version(" 1.2.3"), Err(ConfigError::InvalidVersionFormat));
    assert_eq!(parse_version("1.2.3 "), Err(ConfigError::InvalidVersionFormat));
    assert_eq!(parse_version("1.2.\u{663}"), Err(ConfigError::InvalidVersionFormat));
}

#[test]
fn rejects_numbers_beyond_eight_bits() {
    assert_eq!(parse_version("256.0.0"), Err(ConfigError::InvalidVersionFormat));
    assert_eq!(parse_version("0.1000.0"), Err(ConfigError::InvalidVersionFormat));
    assert_eq!(parse_version("1.2.3-beta256"), Err(ConfigError::InvalidVersionFormat));
    assert_eq!(
        parse_version("1.2.99999999999999999999999999"),
        Err(ConfigError::InvalidVersionFormat)
    );
}

#[test]
fn rejects_unknown_keyword() {
    assert_eq!(parse_version("1.2.3-alpha1"), Err(ConfigError::InvalidVersionFormat));
    assert_eq!(parse_version("1.2.3-Beta1"), Err(ConfigError::InvalidVersionFormat));
    assert_eq!(parse_version("1.2.3-1"), Err(ConfigError::InvalidVersionFormat));
    assert_eq!(parse_version("1.2.3-"), Err(ConfigError::InvalidVersionFormat));
    assert_eq!(parse_version("1.2.3-r1"), Err(ConfigError::InvalidVersionFormat));
}

#[test]
fn rejects_qualifier_without_positive_number() {
    assert_eq!(parse_version("1.2.3-beta"), Err(ConfigError::InvalidVersionFormat));
    assert_eq!(parse_version("1.2.3-rc"), Err(ConfigError::InvalidVersionFormat));
    assert_eq!(parse_version("1.2.3-beta0"), Err(ConfigError::InvalidVersionFormat));
    assert_eq!(parse_version("1.2.3-rc0"), Err(ConfigError::InvalidVersionFormat));
    assert_eq!(parse_version("1.2.3-betax"), Err(ConfigError::InvalidVersionFormat));
}

#[test]
fn rejects_second_hyphen() {
    assert_eq!(parse_version("1.2.3-rc1-2"), Err(ConfigError::InvalidVersionFormat));
    assert_eq!(parse_version("1.2.3--rc1"), Err(ConfigError::InvalidVersionFormat));
    assert_eq!(parse_version("-1.2.3"), Err(ConfigError::InvalidVersionFormat));
}

#[test]
fn canonical_form_is_what_stands_before_the_first_hyphen() {
    assert_eq!(canonical_version("1.2.3"), "1.2.3");
    assert_eq!(canonical_version("1.2.3-rc2"), "1.2.3");
    assert_eq!(canonical_version("1.2.3-rc2-more"), "1.2.3");
    assert_eq!(canonical_version("-rc2"), "");
    assert_eq!(canonical_version(""), "");
    assert_eq!(canonical_version("\u{e9}t\u{e9}-x"), "\u{e9}t\u{e9}");
}

#[test]
fn canonical_form_parses_to_the_same_release() {
    for text in ["1.2.3-beta4", "10.20.30-rc1", "7.8.9"] {
        let (major, minor, patch, _, _) = parse_version(text).unwrap();
        let canonical = canonical_version(text);
        assert_eq!(parse_version(&canonical), Ok((major, minor, patch, 0, 0)));
        assert_eq!(canonical_version(&canonical), canonical);
    }
}

#[test]
fn written_out_versions_parse_to_themselves() {
    for (major, minor, patch) in [(0u8, 0u8, 0u8), (1, 2, 3), (9, 10, 99), (100, 200, 255)] {
        let release = format!("{}.{}.{}", major, minor, patch);
        assert_eq!(parse_version(&release), Ok((major, minor, patch, 0, 0)));
        for n in [1u8, 9, 10, 255] {
            let beta = format!("{}-beta{}", release, n);
            assert_eq!(parse_version(&beta), Ok((major, minor, patch, n, 0)));
            let rc = format!("{}-rc{}", release, n);
            assert_eq!(parse_version(&rc), Ok((major, minor, patch, 0, n)));
            assert_eq!(canonical_version(&rc), release);
        }
    }
}

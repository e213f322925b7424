use realitydefender::text::{chars_of, join, decimal_string};
use realitydefender::Score;

fn value(score: Score) -> f64 {
    score.to_string().parse().unwrap()
}

#[test]
fn decimal_string_spells_numbers() {
    assert_eq!(decimal_string(0), "0");
    assert_eq!(decimal_string(7), "7");
    assert_eq!(decimal_string(10), "10");
    assert_eq!(decimal_string(2000), "2000");
    assert_eq!(decimal_string(1234567890), "1234567890");
    assert_eq!(decimal_string(u64::MAX), "18446744073709551615");
}

#[test]
fn join_joins_and_chars_of_splits() {
    assert_eq!(join("File not found: ", "a.jpg"), "File not found: a.jpg");
    assert_eq!(join("", ""), "");
    assert_eq!(chars_of("añ€"), vec!['a', 'ñ', '€']);
    assert_eq!(chars_of(""), Vec::<char>::new());
}

#[test]
fn parse_reads_integers() {
    assert_eq!(Score::parse("0"), Some(Score::new(0, 0)));
    assert_eq!(Score::parse("85"), Some(Score::new(85, 0)));
    assert_eq!(Score::parse("-3"), Some(Score::new(-3, 0)));
    assert_eq!(Score::parse("100"), Some(Score::new(100, 0)));
}

#[test]
fn parse_reads_fractions() {
    assert_eq!(Score::parse("92.5"), Some(Score::new(925, -1)));
    assert_eq!(Score::parse("0.27"), Some(Score::new(27, -2)));
    assert_eq!(Score::parse("85.0"), Some(Score::new(850, -1)));
    assert_eq!(Score::parse("-0.0"), Some(Score::new(0, -1)));
    assert_eq!(Score::parse("0.001"), Some(Score::new(1, -3)));
}

#[test]
fn parse_reads_exponents() {
    assert_eq!(Score::parse("1e-7"), Some(Score::new(1, -7)));
    assert_eq!(Score::parse("1E5"), Some(Score::new(1, 5)));
    assert_eq!(Score::parse("1e+5"), Some(Score::new(1, 5)));
    assert_eq!(Score::parse("1.5e300"), Some(Score::new(15, 299)));
    assert_eq!(Score::parse("-2.50e-3"), Some(Score::new(-250, -5)));
    assert_eq!(Score::parse("0e0"), Some(Score::new(0, 0)));
}

#[test]
fn parse_refuses_what_is_no_json_number() {
    for text in [
        "", "-", "+1", "01", "00", "1.", ".5", "1e", "1e+", "1e-", "e5", "1.e5", "1 ", " 1",
        "1,5", "0x10", "NaN", "inf", "1.2.3", "1e5.0", "--1", "1e--5", "٣",
    ] {
        assert_eq!(Score::parse(text), None, "text {:?}", text);
    }
}

#[test]
fn parse_refuses_what_does_not_fit() {
    assert_eq!(
        Score::parse("9223372036854775807"),
        Some(Score::new(i64::MAX, 0))
    );
    assert_eq!(Score::parse("9223372036854775808"), None);
    assert_eq!(
        Score::parse("-9223372036854775808"),
        Some(Score::new(i64::MIN, 0))
    );
    assert_eq!(Score::parse("-9223372036854775809"), None);
    assert_eq!(Score::parse("18446744073709551615"), None);
    assert_eq!(Score::parse("123456789012345678901234567890"), None);
    assert_eq!(Score::parse("1e2147483647"), Some(Score::new(1, i32::MAX)));
    assert_eq!(Score::parse("1e2147483648"), None);
    assert_eq!(Score::parse("1e-2147483648"), Some(Score::new(1, i32::MIN)));
    assert_eq!(Score::parse("1e-2147483649"), None);
    assert_eq!(Score::parse("0.1e-2147483648"), None);
    assert_eq!(Score::parse("1e99999999999999999999999999"), None);
}

#[test]
fn parse_keeps_leading_zeros_of_the_fraction_out_of_the_mantissa() {
    assert_eq!(
        Score::parse("0.0000000000000000000000001"),
        Some(Score::new(1, -25))
    );
}

#[test]
fn to_string_writes_mantissa_and_exponent() {
    assert_eq!(Score::new(925, -3).to_string(), "925e-3");
    assert_eq!(Score::new(0, 0).to_string(), "0e0");
    assert_eq!(Score::new(-17, 4).to_string(), "-17e4");
    assert_eq!(
        Score::new(i64::MIN, i32::MIN).to_string(),
        "-9223372036854775808e-2147483648"
    );
    assert_eq!(
        Score::new(i64::MAX, i32::MAX).to_string(),
        "9223372036854775807e2147483647"
    );
}

#[test]
fn what_to_string_writes_parse_reads_back() {
    for score in [
        Score::new(925, -3),
        Score::new(0, 0),
        Score::new(-17, 4),
        Score::new(i64::MIN, i32::MIN),
        Score::new(i64::MAX, i32::MAX),
    ] {
        assert_eq!(Score::parse(&score.to_string()), Some(score));
    }
}

#[test]
fn is_above_one_compares_with_one() {
    assert!(!Score::new(0, 0).is_above_one());
    assert!(!Score::new(1, 0).is_above_one());
    assert!(Score::new(2, 0).is_above_one());
    assert!(Score::new(1, 1).is_above_one());
    assert!(!Score::new(-5, 3).is_above_one());
    assert!(!Score::new(10, -1).is_above_one());
    assert!(Score::new(11, -1).is_above_one());
    assert!(!Score::new(99, -2).is_above_one());
    assert!(!Score::new(1000000000000000000, -18).is_above_one());
    assert!(Score::new(1000000000000000001, -18).is_above_one());
    assert!(!Score::new(i64::MAX, -19).is_above_one());
    assert!(!Score::new(i64::MAX, i32::MIN).is_above_one());
    assert!(Score::new(1, i32::MAX).is_above_one());
    assert!(!Score::new(0, i32::MAX).is_above_one());
}

#[test]
fn a_score_above_one_is_divided_by_one_hundred() {
    assert_eq!(Score::new(85, 0).normalized(), Score::new(85, -2));
    assert_eq!(Score::new(925, -1).normalized(), Score::new(925, -3));
    assert_eq!(Score::new(100, 0).normalized(), Score::new(100, -2));
    assert_eq!(Score::new(15, -1).normalized(), Score::new(15, -3));
    assert_eq!(Score::new(250, 0).normalized(), Score::new(250, -2));
    assert_eq!(value(Score::new(85, 0).normalized()), 0.85);
    assert_eq!(value(Score::new(925, -1).normalized()), 0.925);
    assert_eq!(value(Score::new(75, 0).normalized()), 0.75);
    assert_eq!(value(Score::new(100, 0).normalized()), 1.0);
}

#[test]
fn a_score_of_one_or_less_is_kept() {
    assert_eq!(Score::new(1, 0).normalized(), Score::new(1, 0));
    assert_eq!(Score::new(27, -2).normalized(), Score::new(27, -2));
    assert_eq!(Score::new(0, 0).normalized(), Score::new(0, 0));
    assert_eq!(Score::new(-5, 0).normalized(), Score::new(-5, 0));
    assert_eq!(value(Score::new(27, -2).normalized()), 0.27);
    assert_eq!(value(Score::new(92, -2).normalized()), 0.92);
}

#[test]
fn normalizing_twice_changes_nothing_up_to_one_hundred() {
    for score in [Score::new(85, 0), Score::new(100, 0), Score::new(5, -1), Score::new(101, -2)] {
        let once = score.normalized();
        assert_eq!(once.normalized(), once);
    }
}

#[test]
fn scores_between_zero_and_one_hundred_end_between_zero_and_one() {
    let mut hundredths: i64 = 0;
    while hundredths <= 10000 {
        let v = value(Score::new(hundredths, -2).normalized());
        assert!((0.0..=1.0).contains(&v), "{} gave {}", hundredths, v);
        hundredths += 1;
    }
}

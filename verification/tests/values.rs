use lumus_sql_builder::numeric::{decimal_string, parse_u32, value_is_numeric};
use lumus_sql_builder::{escape_value, format_value};

#[test]
fn escape_value_wraps_in_single_quotes() {
    assert_eq!(escape_value("abc"), "'abc'");
    assert_eq!(escape_value(""), "''");
    assert_eq!(escape_value("30"), "'30'");
}

#[test]
fn escape_value_leaves_inner_quotes_alone() {
    assert_eq!(escape_value("O'Reilly"), "'O'Reilly'");
    assert_eq!(escape_value("'"), "'''");
}

#[test]
fn format_value_leaves_numbers_bare() {
    assert_eq!(format_value("30"), "30");
    assert_eq!(format_value("25.50"), "25.50");
    assert_eq!(format_value("-7"), "-7");
    assert_eq!(format_value("+7"), "+7");
    assert_eq!(format_value("1e5"), "1e5");
    assert_eq!(format_value("1E-5"), "1E-5");
    assert_eq!(format_value(".5"), ".5");
    assert_eq!(format_value("5."), "5.");
    assert_eq!(format_value("inf"), "inf");
    assert_eq!(format_value("-Infinity"), "-Infinity");
    assert_eq!(format_value("NaN"), "NaN");
}

#[test]
fn format_value_quotes_everything_else() {
    assert_eq!(format_value("John"), "'John'");
    assert_eq!(format_value(""), "''");
    assert_eq!(format_value(" 30"), "' 30'");
    assert_eq!(format_value("30 "), "'30 '");
    assert_eq!(format_value("1,5"), "'1,5'");
    assert_eq!(format_value("0x10"), "'0x10'");
    assert_eq!(format_value("1_000"), "'1_000'");
    assert_eq!(format_value("--1"), "'--1'");
    assert_eq!(format_value("O'Reilly"), "'O'Reilly'");
    assert_eq!(format_value("João"), "'João'");
}

#[test]
fn numeric_values_are_those_that_read_as_a_float() {
    let samples = [
        "", "0", "1", "42", "007", "-0", "+0", "+", "-", "+-1", "-+1", "1.", ".1", ".", "..", "1.2",
        "1.2.3", "1..2", "-.5", "+5.", "-.", "e", "e5", "1e", "1e+", "1e-", "1e5", "1E5", "1e+5",
        "1e-5", "1e5.", "1e5e5", "1.e5", ".5e5", ".e5", "1.5e10", "1.5E+10", "1e 5", " 1", "1 ",
        "\t1", "1\n", "inf", "INF", "Inf", "iNf", "infinity", "INFINITY", "Infinity", "infinit",
        "infinityy", "in", "nan", "NAN", "NaN", "nane", "-inf", "+inf", "-nan", "+NaN",
        "-infinity", "+-inf", "1inf", "inf1", "0x1", "1f", "1d", "1_0", "1,0", "٣", "１", "½",
        "1e5０", "99999999999999999999999999999999999999999999", "1e999", "1e-999", "-1e999",
        "0.0000000000000000000000000000000000000001", "abc", "a1", "1a", "--1", "++1", "1-", "1+",
        "1e5-", "1.5.", "ınf", "İnf", "ｉｎｆ", "ⁿan", "n\u{207f}n", "1e٣",
    ];
    for s in samples {
        assert_eq!(value_is_numeric(s), s.parse::<f64>().is_ok(), "{:?}", s);
    }
}

#[test]
fn numeric_values_are_rendered_unchanged_and_others_quoted() {
    let samples = ["12", "-3.5", "1e3", "nan", "x", "12a", "", " ", "'"];
    for s in samples {
        let expected = if s.parse::<f64>().is_ok() {
            s.to_string()
        } else {
            format!("'{}'", s)
        };
        assert_eq!(format_value(s), expected);
    }
}

#[test]
fn decimal_string_writes_plain_decimal() {
    assert_eq!(decimal_string(0), "0");
    assert_eq!(decimal_string(7), "7");
    assert_eq!(decimal_string(10), "10");
    assert_eq!(decimal_string(1234567890), "1234567890");
    assert_eq!(decimal_string(u32::MAX), "4294967295");
}

#[test]
fn decimal_string_agrees_with_to_string() {
    let mut n: u32 = 0;
    for _ in 0..2000 {
        assert_eq!(decimal_string(n), n.to_string());
        n = n.wrapping_mul(1664525).wrapping_add(1013904223);
    }
}

#[test]
fn parse_u32_reads_digits_with_an_optional_plus() {
    assert_eq!(parse_u32("0"), Some(0));
    assert_eq!(parse_u32("10"), Some(10));
    assert_eq!(parse_u32("+10"), Some(10));
    assert_eq!(parse_u32("0010"), Some(10));
    assert_eq!(parse_u32("4294967295"), Some(u32::MAX));
    assert_eq!(parse_u32("00000000004294967295"), Some(u32::MAX));
}

#[test]
fn parse_u32_refuses_everything_else() {
    assert_eq!(parse_u32(""), None);
    assert_eq!(parse_u32("+"), None);
    assert_eq!(parse_u32("-1"), None);
    assert_eq!(parse_u32("-0"), None);
    assert_eq!(parse_u32("++1"), None);
    assert_eq!(parse_u32("1+"), None);
    assert_eq!(parse_u32("1.0"), None);
    assert_eq!(parse_u32(" 1"), None);
    assert_eq!(parse_u32("1 "), None);
    assert_eq!(parse_u32("1a"), None);
    assert_eq!(parse_u32("4294967296"), None);
    assert_eq!(parse_u32("99999999999999999999"), None);
    assert_eq!(parse_u32("١"), None);
}

#[test]
fn parse_u32_agrees_with_the_standard_parser() {
    let samples = [
        "", "0", "1", "+1", "-1", "+", "-", "+0", "-0", "00", "4294967295", "4294967296",
        "+4294967295", "42949672950", "1e1", "1_0", " 1", "1 ", "0x1", "１", "12345", "+-1", "++1",
        "18446744073709551616",
    ];
    for s in samples {
        assert_eq!(parse_u32(s), s.parse::<u32>().ok(), "{:?}", s);
    }
}

#[test]
fn parse_u32_reads_back_what_decimal_string_writes() {
    for n in [0u32, 1, 9, 10, 99, 100, 65535, 65536, 4294967294, 4294967295] {
        assert_eq!(parse_u32(&decimal_string(n)), Some(n));
    }
}

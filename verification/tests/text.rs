use sqldb_mysql::bits::{decode_f32_bits, decode_f64_bits};
use sqldb_mysql::set::{format_mysql_set, parse_mysql_set};
use sqldb_mysql::string_map::StringMap;
use sqldb_mysql::text::{is_affirmative, is_blank, is_whitespace, parse_unsigned};
use sqldb_mysql::value::Year;
use sqldb_mysql::year::{mysql_year_to_u16, u16_to_mysql_year};

fn strings(texts: &[&str]) -> Vec<String> {
    texts.iter().map(|s| s.to_string()).collect()
}

#[test]
fn whitespace_agrees_with_std_on_every_character() {
    for code in 0..=0x10ffffu32 {
        if let Some(c) = char::from_u32(code) {
            assert_eq!(is_whitespace(c), c.is_whitespace(), "{code:x}");
        }
    }
}

#[test]
fn blank_is_what_trimming_empties() {
    for text in ["", " ", "\t\r\n", "\u{3000}\u{a0}", " x ", "SELECT 1", "\u{200b}"] {
        assert_eq!(is_blank(text), text.trim().is_empty(), "{text:?}");
    }
}

#[test]
fn affirmative_in_any_case() {
    for text in ["true", "TRUE", "True", "yes", "YES", "yEs"] {
        assert!(is_affirmative(text), "{text}");
    }
    for text in ["", "1", "on", "truee", "tru", "ye", "no", " true", "y\u{e9}s"] {
        assert!(!is_affirmative(text), "{text}");
    }
}

#[test]
fn folding_ascii_capitals_is_enough_for_true_and_yes() {
    for code in 0x80..=0x10ffffu32 {
        if let Some(c) = char::from_u32(code) {
            let lower: String = c.to_lowercase().collect();
            assert!(!lower.chars().all(|l| "trueys".contains(l)), "{code:x}");
        }
    }
}

#[test]
fn numbers_read_as_std_reads_them() {
    for text in [
        "0", "7", "3306", "65535", "65536", "+12", "++1", "+", "-", "-0", "-1", "", " 1", "1 ",
        "1_000", "0x10", "00080", "99999999999999999999999", "\u{661}",
    ] {
        assert_eq!(
            parse_unsigned(text, u16::MAX as u64),
            text.parse::<u16>().ok().map(|n| n as u64),
            "{text:?}"
        );
        assert_eq!(
            parse_unsigned(text, usize::MAX as u64),
            text.parse::<usize>().ok().map(|n| n as u64),
            "{text:?}"
        );
    }
    assert_eq!(parse_unsigned("18446744073709551615", u64::MAX), Some(u64::MAX));
    assert_eq!(parse_unsigned("18446744073709551616", u64::MAX), None);
    assert_eq!(parse_unsigned("0", 0), Some(0));
    assert_eq!(parse_unsigned("1", 0), None);
}

#[test]
fn written_number_reads_back() {
    for n in [0u64, 9, 10, 42, 65535, u64::MAX] {
        assert_eq!(parse_unsigned(&n.to_string(), u64::MAX), Some(n));
    }
}

#[test]
fn set_texts_are_split_at_commas() {
    assert_eq!(parse_mysql_set(""), Vec::<String>::new());
    assert_eq!(parse_mysql_set("a"), strings(&["a"]));
    assert_eq!(parse_mysql_set("a,b,c"), strings(&["a", "b", "c"]));
    assert_eq!(parse_mysql_set(","), strings(&["", ""]));
    assert_eq!(parse_mysql_set("a,,b,"), strings(&["a", "", "b", ""]));
    assert_eq!(parse_mysql_set("\u{e9}t\u{e9},hiver"), strings(&["\u{e9}t\u{e9}", "hiver"]));
}

#[test]
fn commas_separate_members() {
    for text in ["a", ",", "a,b,,c", ",,,x"] {
        let members = parse_mysql_set(text);
        assert_eq!(members.len(), 1 + text.matches(',').count());
        assert!(members.iter().all(|m| !m.contains(',')));
    }
}

#[test]
fn set_members_are_joined_with_commas() {
    assert_eq!(format_mysql_set(&[]), "");
    assert_eq!(format_mysql_set(&strings(&["a"])), "a");
    assert_eq!(format_mysql_set(&strings(&["a", "", "b"])), "a,,b");
}

#[test]
fn set_texts_and_members_survive() {
    for text in ["", "a", "a,b", ",", "a,,b,", ",,,"] {
        assert_eq!(format_mysql_set(&parse_mysql_set(text)), text);
    }
    for members in [strings(&[]), strings(&["a"]), strings(&["x", "y"]), strings(&["", ""])] {
        assert_eq!(parse_mysql_set(&format_mysql_set(&members)), members);
    }
    assert_eq!(parse_mysql_set(&format_mysql_set(&strings(&[""]))), strings(&[]));
}

#[test]
fn years_of_two_digits() {
    assert_eq!(mysql_year_to_u16(&Year::YearTwo(0)), 2000);
    assert_eq!(mysql_year_to_u16(&Year::YearTwo(69)), 2069);
    assert_eq!(mysql_year_to_u16(&Year::YearTwo(70)), 1970);
    assert_eq!(mysql_year_to_u16(&Year::YearTwo(99)), 1999);
    assert_eq!(mysql_year_to_u16(&Year::YearTwo(255)), 2155);
    assert_eq!(mysql_year_to_u16(&Year::YearFour(2155)), 2155);
    assert_eq!(mysql_year_to_u16(&Year::YearFour(65536 + 12)), 12);
}

#[test]
fn years_survive() {
    for year in 0..=u16::MAX {
        assert_eq!(mysql_year_to_u16(&u16_to_mysql_year(year)), year);
    }
    for digits in 0..=99u8 {
        let year = Year::YearTwo(digits);
        assert_eq!(u16_to_mysql_year(mysql_year_to_u16(&year)), year);
    }
    assert_eq!(u16_to_mysql_year(1969), Year::YearFour(1969));
    assert_eq!(u16_to_mysql_year(2070), Year::YearFour(2070));
}

#[test]
fn floats_come_apart_as_num_traits_takes_them() {
    for f in [
        0.0f64, -0.0, 1.0, -1.5, 0.1, f64::MAX, f64::MIN_POSITIVE, 5e-324, f64::INFINITY,
        f64::NEG_INFINITY, f64::NAN,
    ] {
        assert_eq!(decode_f64_bits(f.to_bits()), num_traits::Float::integer_decode(f));
    }
    for f in [
        0.0f32, -0.0, 1.0, -1.5, 0.1, f32::MAX, f32::MIN_POSITIVE, 1e-45, f32::INFINITY,
        f32::NEG_INFINITY, f32::NAN,
    ] {
        assert_eq!(decode_f32_bits(f.to_bits()), num_traits::Float::integer_decode(f));
    }
    assert_eq!(decode_f64_bits(1.0f64.to_bits()), (1 << 52, -52, 1));
    assert_eq!(decode_f32_bits((-2.0f32).to_bits()), (1 << 23, -22, -1));
}

#[test]
fn different_floats_have_different_parts() {
    let singles = [0.0f32, -0.0, 1e-45, 1.0, 2.0, f32::MAX, f32::INFINITY, f32::NAN];
    let doubles = [0.0f64, -0.0, 5e-324, 1.0, 2.0, f64::MAX, f64::INFINITY, f64::NAN];
    for i in 0..singles.len() {
        for j in 0..i {
            assert_ne!(
                decode_f32_bits(singles[i].to_bits()),
                decode_f32_bits(singles[j].to_bits())
            );
            assert_ne!(
                decode_f64_bits(doubles[i].to_bits()),
                decode_f64_bits(doubles[j].to_bits())
            );
        }
    }
}

#[test]
fn string_map_keeps_one_value_per_key() {
    let mut map: StringMap<u32> = StringMap::new();
    assert_eq!(map.get("a"), None);
    map.insert("a".to_string(), 1);
    map.insert("b".to_string(), 2);
    map.insert("a".to_string(), 3);
    assert_eq!(map.get("a"), Some(&3));
    assert_eq!(map.get("b"), Some(&2));
    map.remove("missing");
    map.remove("a");
    assert!(!map.contains_key("a"));
    assert!(map.contains_key("b"));
    map.insert("c".to_string(), 5);
    map.insert("d".to_string(), 6);
    map.retain(|v: &u32| *v % 2 == 0);
    assert!(map.contains_key("b") && !map.contains_key("c") && map.contains_key("d"));
    map.clear();
    assert!(!map.contains_key("b") && !map.contains_key("d"));
}

use rambt::text::{join, repeat, to_decimal, trim_matches};

#[test]
fn quotes_come_off_both_ends() {
    assert_eq!(trim_matches("\"Album\"", '"'), "Album");
    assert_eq!(trim_matches("\"\"Mixtape/Street\"", '"'), "Mixtape/Street");
    assert_eq!(trim_matches("Live", '"'), "Live");
}

#[test]
fn quotes_inside_stay() {
    assert_eq!(trim_matches("\"a\"b\"", '"'), "a\"b");
    assert_eq!(trim_matches("xxaxbxx", 'x'), "axb");
}

#[test]
fn nothing_is_left_of_quotes_alone() {
    assert_eq!(trim_matches("\"\"\"", '"'), "");
    assert_eq!(trim_matches("\"", '"'), "");
    assert_eq!(trim_matches("", '"'), "");
}

#[test]
fn trimming_counts_characters_not_bytes() {
    assert_eq!(trim_matches("★é★", '★'), "é");
    assert_eq!(trim_matches("\"★ ⯨\"", '"'), "★ ⯨");
}

#[test]
fn parts_are_joined_with_the_separator_between() {
    let parts = vec![String::from("Album"), String::from("Live"), String::from("Remix")];
    assert_eq!(join(&parts, " + "), "Album + Live + Remix");
    assert_eq!(join(&vec![String::from("Album")], " + "), "Album");
    assert_eq!(join(&Vec::new(), " + "), "");
    assert_eq!(join(&vec![String::new(), String::new()], "-"), "-");
}

#[test]
fn numbers_are_written_in_decimal() {
    assert_eq!(to_decimal(0), "0");
    assert_eq!(to_decimal(7), "7");
    assert_eq!(to_decimal(10), "10");
    assert_eq!(to_decimal(1994), "1994");
    assert_eq!(to_decimal(-5), "-5");
    assert_eq!(to_decimal(-120), "-120");
    assert_eq!(to_decimal(i32::MAX), "2147483647");
    assert_eq!(to_decimal(i32::MIN), "-2147483648");
}

#[test]
fn decimal_agrees_with_the_standard_library() {
    for n in [-1000, -999, -11, -10, -9, -1, 1, 9, 11, 99, 100, 101, 1970, 2024, 65536] {
        assert_eq!(to_decimal(n), n.to_string());
    }
}

#[test]
fn a_unit_is_repeated() {
    assert_eq!(repeat("★ ", 3), "★ ★ ★ ");
    assert_eq!(repeat("ab", 1), "ab");
    assert_eq!(repeat("ab", 0), "");
    assert_eq!(repeat("", 4), "");
}

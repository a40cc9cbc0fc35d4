use dotz::{parse_number, valid_spacing};

#[test]
fn spacing_of_a_positive_number_is_accepted() {
    assert_eq!(valid_spacing("3"), Ok(3));
    assert_eq!(valid_spacing("1"), Ok(1));
    assert_eq!(valid_spacing("250"), Ok(250));
    assert_eq!(valid_spacing("+4"), Ok(4));
    assert_eq!(valid_spacing("007"), Ok(7));
}

#[test]
fn spacing_of_zero_points_to_the_infinite_mode() {
    let message = "You should use the `infinite` mode if you don't want any spaces".to_string();
    assert_eq!(valid_spacing("0"), Err(message.clone()));
    assert_eq!(valid_spacing("000"), Err(message.clone()));
    assert_eq!(valid_spacing("+0"), Err(message));
}

#[test]
fn spacing_that_is_no_number_is_named_in_the_message() {
    assert_eq!(valid_spacing("abc"), Err("`abc` is not a valid number".to_string()));
    assert_eq!(valid_spacing(""), Err("`` is not a valid number".to_string()));
    assert_eq!(valid_spacing("-1"), Err("`-1` is not a valid number".to_string()));
    assert_eq!(valid_spacing("3.5"), Err("`3.5` is not a valid number".to_string()));
    assert_eq!(valid_spacing(" 3"), Err("` 3` is not a valid number".to_string()));
    assert_eq!(valid_spacing("\u{663}"), Err("`\u{663}` is not a valid number".to_string()));
}

#[test]
fn spacing_too_large_for_the_machine_is_no_number() {
    let input = format!("{}0", usize::MAX);
    assert_eq!(valid_spacing(&input), Err(format!("`{input}` is not a valid number")));
    let next = format!("{}", usize::MAX as u128 + 1);
    assert_eq!(valid_spacing(&next), Err(format!("`{next}` is not a valid number")));
}

#[test]
fn the_largest_spacing_is_accepted() {
    let input = format!("{}", usize::MAX);
    assert_eq!(valid_spacing(&input), Ok(usize::MAX));
    assert_eq!(parse_number(&input), Some(usize::MAX));
}

#[test]
fn parse_number_reads_decimal_digits() {
    assert_eq!(parse_number("0"), Some(0));
    assert_eq!(parse_number("12"), Some(12));
    assert_eq!(parse_number("+12"), Some(12));
    assert_eq!(parse_number("0012"), Some(12));
    assert_eq!(parse_number("4294967295"), Some(4_294_967_295));
}

#[test]
fn parse_number_refuses_everything_else() {
    for text in ["", "+", "-", "++1", "+-1", "1+", "-0", "1 ", " 1", "1_000", "0x10", "1e3", "١٢", "12a", "a12", "１２"] {
        assert_eq!(parse_number(text), None);
    }
}

#[test]
fn parse_number_agrees_with_the_standard_parser() {
    let mut texts: Vec<String> = vec![
        "", "+", "-", "0", "+0", "-0", "00", "1", "+1", "-1", "++1", "9", "10", "99", "100",
        "18446744073709551615", "18446744073709551616", "18446744073709551614",
        "4294967295", "4294967296", "99999999999999999999999999", "+18446744073709551615",
        "000000000000000000000000000000001", " 1", "1 ", "1\n", "\t1", "1.0", "1,0", "0b1",
        "٣", "१", "1٣", "a", "1a", "a1", "+a", "1+1", "1-", "٠", "１",
    ]
    .into_iter()
    .map(|text| text.to_string())
    .collect();
    for number in 0..300usize {
        texts.push(number.to_string());
        texts.push(format!("+{number}"));
        texts.push(format!("{number}x"));
    }
    for text in &texts {
        assert_eq!(parse_number(text), text.parse::<usize>().ok());
    }
}

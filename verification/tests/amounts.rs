use casper_types::U512;
use txn_display::amount::{format_amount, Motes};

fn shown(value: U512) -> String {
    let motes = Motes::from_dec_str(&value.to_string()).expect("a number in decimal");
    format_amount(&motes)
}

#[test]
fn amount_space_separated() {
    let one: U512 = 1u8.into();
    let expected = "1 motes".to_string();
    assert_eq!(expected, shown(one));
    let thousand: U512 = 1_000u32.into();
    let expected = "1 000 motes".to_string();
    assert_eq!(expected, shown(thousand));
    let ten_thousand: U512 = 10_000u64.into();
    let expected = "10 000 motes".to_string();
    assert_eq!(expected, shown(ten_thousand));
    let ten_billion: U512 = U512::from(10000000000u64);
    let expected = "10 000 000 000 motes".to_string();
    assert_eq!(expected, shown(ten_billion));
}

#[test]
fn amount_from_u64_is_grouped() {
    assert_eq!(format_amount(&Motes::from_u64(0)), "0 motes");
    assert_eq!(format_amount(&Motes::from_u64(999)), "999 motes");
    assert_eq!(format_amount(&Motes::from_u64(1_000)), "1 000 motes");
    assert_eq!(format_amount(&Motes::from_u64(123_456)), "123 456 motes");
    assert_eq!(format_amount(&Motes::from_u64(1_234_567)), "1 234 567 motes");
    assert_eq!(
        format_amount(&Motes::from_u64(u64::MAX)),
        "18 446 744 073 709 551 615 motes"
    );
}

#[test]
fn amount_literal_drops_leading_zeros() {
    let motes = Motes::from_dec_str("0001000").expect("digits");
    assert_eq!(format_amount(&motes), "1 000 motes");
}

#[test]
fn amount_literal_needs_a_digit() {
    assert!(Motes::from_dec_str("").is_none());
    let zero = Motes::from_dec_str("0").expect("a digit");
    assert_eq!(format_amount(&zero), "0 motes");
    let zeros = Motes::from_dec_str("000").expect("digits");
    assert_eq!(format_amount(&zeros), "0 motes");
}

#[test]
fn amount_literal_rejects_other_characters() {
    assert!(Motes::from_dec_str("12a").is_none());
    assert!(Motes::from_dec_str("-1").is_none());
    assert!(Motes::from_dec_str("1 000").is_none());
    assert!(Motes::from_dec_str("1.5").is_none());
    assert!(Motes::from_dec_str("١٢").is_none());
}

#[test]
fn amount_literal_limit() {
    let largest = U512::MAX.to_string();
    assert!(Motes::from_dec_str(&largest).is_some());
    let past = format!("{}0", largest);
    assert!(Motes::from_dec_str(&past).is_none());
    // 2^512 itself: the largest value plus one.
    let mut digits: Vec<u8> = largest.into_bytes();
    let last = digits.len() - 1;
    assert_eq!(digits[last], b'5');
    digits[last] = b'6';
    let next = String::from_utf8(digits).expect("digits");
    assert!(Motes::from_dec_str(&next).is_none());
}

#[test]
fn amount_of_largest_value_is_grouped() {
    let largest = U512::MAX;
    let text = shown(largest);
    let plain: String = text.trim_end_matches(" motes").chars().filter(|c| *c != ' ').collect();
    assert_eq!(plain, largest.to_string());
    let groups: Vec<&str> = text.trim_end_matches(" motes").split(' ').collect();
    assert!(groups[0].len() >= 1 && groups[0].len() <= 3);
    for g in &groups[1..] {
        assert_eq!(g.len(), 3);
    }
}

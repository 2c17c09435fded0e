use progress_logger::{pretty_fix2, pretty_u64, Fix2};

const RESET: &str = "\u{1b}[0m";
const UNDER: &str = "\u{1b}[4m";

fn strip(s: &str) -> String {
    s.replace(RESET, "").replace(UNDER, "")
}

#[test]
fn zero_is_reset_and_digit() {
    assert_eq!(pretty_u64(0), format!("{RESET}0"));
}

#[test]
fn single_chunk_is_unstyled() {
    assert_eq!(pretty_u64(7), format!("{RESET}7"));
    assert_eq!(pretty_u64(12), format!("{RESET}12"));
    assert_eq!(pretty_u64(999), format!("{RESET}999"));
}

#[test]
fn two_chunks_alternate() {
    assert_eq!(pretty_u64(1000), format!("{UNDER}1{RESET}000"));
    assert_eq!(pretty_u64(654321), format!("{UNDER}654{RESET}321"));
}

#[test]
fn three_chunks_alternate() {
    assert_eq!(pretty_u64(1234567), format!("{RESET}1{UNDER}234{RESET}567"));
    assert_eq!(pretty_u64(100000000), format!("{RESET}100{UNDER}000{RESET}000"));
}

#[test]
fn largest_value_renders() {
    assert_eq!(
        pretty_u64(u64::MAX),
        format!("{RESET}18{UNDER}446{RESET}744{UNDER}073{RESET}709{UNDER}551{RESET}615")
    );
}

#[test]
fn stripping_integer_gives_decimal() {
    assert_eq!(strip(&pretty_u64(0)), "0");
    assert_eq!(strip(&pretty_u64(987654321)), "987654321");
    assert_eq!(strip(&pretty_u64(1000)), "1000");
}

#[test]
fn fix2_groups_integer_part_only() {
    assert_eq!(
        pretty_fix2(Fix2 { hundredths: 123456 }),
        format!("{UNDER}1{RESET}234.56")
    );
}

#[test]
fn fix2_small_values_keep_two_decimals() {
    assert_eq!(pretty_fix2(Fix2 { hundredths: 0 }), format!("{RESET}0.00"));
    assert_eq!(pretty_fix2(Fix2 { hundredths: 5 }), format!("{RESET}0.05"));
    assert_eq!(pretty_fix2(Fix2 { hundredths: 250 }), format!("{RESET}2.50"));
}

#[test]
fn stripping_fix2_gives_decimal_with_fraction() {
    assert_eq!(strip(&pretty_fix2(Fix2 { hundredths: 123456 })), "1234.56");
    assert_eq!(strip(&pretty_fix2(Fix2 { hundredths: 7 })), "0.07");
}

use solana_sdk::native_token::Sol;
use solcli::lamports::{dec_padded9, format_sol, u64_to_dec, LAMPORTS_PER_SOL};

#[test]
fn lamports_per_sol_is_a_billion() {
    assert_eq!(LAMPORTS_PER_SOL, 1_000_000_000);
    assert_eq!(LAMPORTS_PER_SOL, solana_sdk::native_token::LAMPORTS_PER_SOL);
}

#[test]
fn decimal_of_zero() {
    assert_eq!(u64_to_dec(0), "0");
}

#[test]
fn decimal_of_single_digit() {
    assert_eq!(u64_to_dec(7), "7");
}

#[test]
fn decimal_of_round_number() {
    assert_eq!(u64_to_dec(10), "10");
    assert_eq!(u64_to_dec(1_000_000_000), "1000000000");
}

#[test]
fn decimal_of_large_number() {
    assert_eq!(u64_to_dec(120_034), "120034");
    assert_eq!(u64_to_dec(u64::MAX), "18446744073709551615");
}

#[test]
fn padded_decimal_of_zero() {
    assert_eq!(dec_padded9(0), "000000000");
}

#[test]
fn padded_decimal_of_short_number() {
    assert_eq!(dec_padded9(123), "000000123");
}

#[test]
fn padded_decimal_of_nine_digits() {
    assert_eq!(dec_padded9(999_999_999), "999999999");
}

#[test]
fn padded_decimal_of_wide_number_is_unpadded() {
    assert_eq!(dec_padded9(1_234_567_890), "1234567890");
}

#[test]
fn sol_of_zero() {
    assert_eq!(format_sol(0), "◎0.000000000");
}

#[test]
fn sol_of_one_lamport() {
    assert_eq!(format_sol(1), "◎0.000000001");
}

#[test]
fn sol_of_one_and_a_half() {
    assert_eq!(format_sol(1_500_000_000), "◎1.500000000");
}

#[test]
fn sol_of_largest_balance() {
    assert_eq!(format_sol(u64::MAX), "◎18446744073.709551615");
}

#[test]
fn sol_matches_sdk_rendering() {
    for lamports in [
        0,
        1,
        999_999_999,
        1_000_000_000,
        1_500_000_000,
        987_654_321_012,
        u64::MAX,
    ] {
        assert_eq!(format_sol(lamports), format!("{}", Sol(lamports)));
    }
}

use std::str::FromStr;

use etherscan::{EtherscanRequest, Uint256};
use web3::types::U256;

const MAX_HEX: &str = "0xFFFFFFFFFFFFFFFFFFFFFFFFFFFFFFFFFFFFFFFFFFFFFFFFFFFFFFFFFFFFFFFF";
const MAX_DECIMAL: &str =
    "115792089237316195423570985008687907853269984665640564039457584007913129639935";

#[test]
fn hex_of_zero() {
    assert_eq!(Uint256::from_u64(0).to_hex_text(), "0x0");
    assert_eq!(Uint256([0, 0, 0, 0]).to_hex_text(), "0x0");
}

#[test]
fn hex_of_the_largest_value() {
    assert_eq!(Uint256([u64::MAX; 4]).to_hex_text(), MAX_HEX);
}

#[test]
fn hex_is_upper_case_without_leading_zeros() {
    assert_eq!(Uint256::from_u64(0xAB).to_hex_text(), "0xAB");
    assert_eq!(Uint256::from_u64(0x0abcdef0).to_hex_text(), "0xABCDEF0");
    assert_eq!(Uint256::from_u64(u64::MAX).to_hex_text(), "0xFFFFFFFFFFFFFFFF");
}

#[test]
fn hex_across_limbs() {
    assert_eq!(Uint256([0, 1, 0, 0]).to_hex_text(), "0x10000000000000000");
    assert_eq!(Uint256([0x2, 0x1, 0, 0]).to_hex_text(), "0x10000000000000002");
    assert_eq!(
        Uint256([0, 0, 0, 1]).to_hex_text(),
        "0x1000000000000000000000000000000000000000000000000"
    );
    assert_eq!(
        Uint256([0x1111, 0x2222, 0x3333, 0x4444]).to_hex_text(),
        "0x4444000000000000333300000000000022220000000000001111"
    );
}

#[test]
fn hex_has_one_prefix() {
    for x in [Uint256::from_u64(0), Uint256::from_u64(0xAB), Uint256([u64::MAX; 4])] {
        let text = x.to_hex_text();
        assert!(text.starts_with("0x"));
        assert!(!text[2..].contains('x'));
        assert!(text[2..].chars().all(|c| c.is_ascii_digit() || ('A'..='F').contains(&c)));
    }
}

#[test]
fn hex_round_trip() {
    for text in ["0x0", "0xAB", "0x10000000000000000", "0xDE0B6B3A7640000", MAX_HEX] {
        let parsed = U256::from_str(text).unwrap();
        let rendered = Uint256(parsed.0).to_hex_text();
        assert_eq!(rendered, text);
        assert_eq!(U256::from_str(&rendered).unwrap(), parsed);
    }
}

#[test]
fn hex_round_trip_from_lower_case_and_padding() {
    let parsed = U256::from_str("0x00ab").unwrap();
    let rendered = Uint256(parsed.0).to_hex_text();
    assert_eq!(rendered, "0xAB");
    assert_eq!(U256::from_str(&rendered).unwrap(), parsed);
}

#[test]
fn decimal_of_zero() {
    assert_eq!(Uint256::from_u64(0).to_decimal_text(), "0");
}

#[test]
fn decimal_of_the_largest_value() {
    assert_eq!(Uint256([u64::MAX; 4]).to_decimal_text(), MAX_DECIMAL);
}

#[test]
fn decimal_is_plain() {
    assert_eq!(Uint256::from_u64(7).to_decimal_text(), "7");
    assert_eq!(Uint256::from_u64(10).to_decimal_text(), "10");
    assert_eq!(Uint256::from_u64(1_000_000).to_decimal_text(), "1000000");
    assert_eq!(Uint256::from_u64(u64::MAX).to_decimal_text(), "18446744073709551615");
    assert_eq!(Uint256([0, 1, 0, 0]).to_decimal_text(), "18446744073709551616");
    assert_eq!(
        Uint256([0, 0, 1, 0]).to_decimal_text(),
        "340282366920938463463374607431768211456"
    );
}

#[test]
fn decimal_round_trip() {
    for text in ["0", "1", "1000000", "18446744073709551616", MAX_DECIMAL] {
        let parsed = U256::from_dec_str(text).unwrap();
        let rendered = Uint256(parsed.0).to_decimal_text();
        assert_eq!(rendered, text);
        assert!(rendered.chars().all(|c| c.is_ascii_digit()));
        assert_eq!(U256::from_dec_str(&rendered).unwrap(), parsed);
    }
}

#[test]
fn from_u64_fills_the_lowest_limb() {
    assert_eq!(Uint256::from_u64(0xAB), Uint256([0xAB, 0, 0, 0]));
    assert_eq!(U256(Uint256::from_u64(0xAB).0), U256::from(0xABu64));
}

#[test]
fn limbs_agree_with_the_outside_type() {
    let x = U256::from_dec_str("123456789012345678901234567890123456789").unwrap();
    assert_eq!(Uint256(x.0).to_decimal_text(), "123456789012345678901234567890123456789");
    assert_eq!(Uint256(x.0).to_hex_text(), format!("0x{:X}", x));
}

#[test]
fn large_values_in_a_request() {
    let url = EtherscanRequest::account_token_nft_tx(
        Uint256([u64::MAX; 4]),
        Uint256([0, 0, 0, 0]),
        Some(Uint256([0, 1, 0, 0])),
        Some(Uint256([u64::MAX; 4])),
        None,
        None,
        None,
    )
    .build();
    assert_eq!(
        url,
        format!(
            "?module=account&action=tokennfttx&contractaddress={}&address=0x0&startblock=18446744073709551616&endblock={}",
            MAX_HEX, MAX_DECIMAL
        )
    );
}

#[test]
fn join_of_addresses() {
    assert_eq!(etherscan::request::join_hex(&Vec::new()), "");
    assert_eq!(etherscan::request::join_hex(&vec![Uint256::from_u64(0xA)]), "0xA");
    assert_eq!(
        etherscan::request::join_hex(&vec![
            Uint256::from_u64(0xA),
            Uint256([u64::MAX; 4]),
            Uint256::from_u64(0)
        ]),
        format!("0xA,{},0x0", MAX_HEX)
    );
}

use plumise_agent::chain::{
    balance_display, claim_reward_data, keccak256, parse_balance, parse_hex_u64, parse_reward,
    pending_reward_call, receipt_succeeded, register_agent_data, reward_call, selector,
    selector_of, RpcError,
};

#[test]
fn quantities_of_64_bits() {
    assert_eq!(parse_hex_u64(Some("0x10")), Ok(16));
    assert_eq!(parse_hex_u64(Some("ff")), Ok(255));
    assert_eq!(parse_hex_u64(Some("0xFF")), Ok(255));
    assert_eq!(parse_hex_u64(Some("0x")), Ok(0));
    assert_eq!(parse_hex_u64(Some("")), Ok(0));
    assert_eq!(parse_hex_u64(Some("0x0")), Ok(0));
    assert_eq!(parse_hex_u64(Some("0xffffffffffffffff")), Ok(u64::MAX));
    assert_eq!(parse_hex_u64(Some("0x10000000000000000")), Err(RpcError::InvalidHex));
    assert_eq!(parse_hex_u64(Some("0xzz")), Err(RpcError::InvalidHex));
    assert_eq!(parse_hex_u64(Some("0x0x1")), Err(RpcError::InvalidHex));
    assert_eq!(parse_hex_u64(Some("+a")), Ok(10));
    assert_eq!(parse_hex_u64(Some("-a")), Err(RpcError::InvalidHex));
    assert_eq!(parse_hex_u64(None), Err(RpcError::NotText));
    assert_eq!(RpcError::NotText.message(), "Expected hex string in RPC response");
}

#[test]
fn quantities_agree_with_the_standard_library() {
    for text in ["0", "1f", "DEADbeef", "+", "", "g", "00000000000000000001", "ffffffffffffffffffffffffffffffff", "100000000000000000000000000000000", " 1"] {
        if !text.is_empty() {
            assert_eq!(parse_hex_u64(Some(text)).ok(), u64::from_str_radix(text, 16).ok(), "{:?}", text);
            assert_eq!(parse_reward(Some(text)).ok(), u128::from_str_radix(text, 16).ok(), "{:?}", text);
        }
        assert_eq!(parse_balance(Some(text)).ok(), u128::from_str_radix(text, 16).ok(), "{:?}", text);
    }
}

#[test]
fn rewards_and_balances() {
    assert_eq!(parse_reward(Some("0x")), Ok(0));
    assert_eq!(parse_reward(Some("0x0000")), Ok(0));
    assert_eq!(parse_reward(Some("0xde0b6b3a7640000")), Ok(1_000_000_000_000_000_000));
    assert_eq!(parse_reward(None), Err(RpcError::NotText));
    assert_eq!(parse_balance(Some("0x")), Err(RpcError::InvalidHex));
    assert_eq!(parse_balance(Some("0x1bc16d674ec80000")), Ok(2_000_000_000_000_000_000));
    assert_eq!(
        parse_balance(Some("0xffffffffffffffffffffffffffffffff")),
        Ok(u128::MAX)
    );
}

#[test]
fn balances_are_shown_in_whole_units() {
    assert_eq!(balance_display(0), "0.0000");
    assert_eq!(balance_display(1_234_500_000_000_000_000), "1.2345");
    assert_eq!(balance_display(2_000_000_000_000_000_000), "2.0000");
    assert_eq!(
        balance_display(u128::MAX),
        "340282366920938463463.374607431768211455"
    );
}

#[test]
fn receipts() {
    assert!(receipt_succeeded(Some("0x1")));
    assert!(!receipt_succeeded(Some("0x0")));
    assert!(!receipt_succeeded(Some("0x01")));
    assert!(!receipt_succeeded(None));
}

#[test]
fn selectors_are_the_first_four_bytes_of_the_digest() {
    assert_eq!(selector("transfer(address,uint256)"), vec![0xa9, 0x05, 0x9c, 0xbb]);
    assert_eq!(selector("claimReward()"), keccak256(b"claimReward()")[..4].to_vec());
    assert_eq!(claim_reward_data(), selector("claimReward()"));
    let digest = keccak256(b"x");
    assert_eq!(selector_of(&digest), digest[..4].to_vec());
}

#[test]
fn pending_reward_call_pads_the_address() {
    let address = "0x7e5f4552091a69125d5dfcb7b8c2659029395bdf";
    let sel: String = selector("getPendingReward(address)").iter().map(|b| format!("{:02x}", b)).collect();
    assert_eq!(
        pending_reward_call(address),
        Some(format!("0x{}{}{}", sel, "0".repeat(24), &address[2..]))
    );
    assert_eq!(pending_reward_call(&address[2..]), pending_reward_call(address));
    assert_eq!(pending_reward_call("0xnothex"), None);
    assert_eq!(reward_call(&[1, 2, 3, 4], "0xff"), Some(format!("0x01020304{}ff", "0".repeat(24))));
}

#[test]
fn registration_data_is_three_words() {
    let hash = keccak256(b"model");
    let data = register_agent_data("agent-7", &hash);
    assert_eq!(data.len(), 96);
    assert_eq!(&data[..7], b"agent-7");
    assert!(data[7..32].iter().all(|b| *b == 0));
    assert_eq!(&data[32..64], &hash);
    assert!(data[64..].iter().all(|b| *b == 0));
    let long = "n".repeat(40);
    let data = register_agent_data(&long, &hash);
    assert_eq!(data.len(), 96);
    assert_eq!(&data[..32], "n".repeat(32).as_bytes());
    let exact = "e".repeat(32);
    assert_eq!(&register_agent_data(&exact, &hash)[..32], exact.as_bytes());
    assert_eq!(&register_agent_data("", &hash)[..32], &[0u8; 32]);
}

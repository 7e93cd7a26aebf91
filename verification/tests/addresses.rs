use wallet_tui::address::parse_address;
use wallet_tui::network::{endpoint_host, endpoint_url};

#[test]
fn parse_accepts_plain_hex() {
    let addr = parse_address("a0b86991c6218b36c1d19d4a2e9eb0ce3606eb48").unwrap();
    assert_eq!(addr.bytes.len(), 20);
    assert_eq!(addr.bytes[0], 0xa0);
    assert_eq!(addr.bytes[19], 0x48);
}

#[test]
fn parse_accepts_prefix_mixed_case_and_whitespace() {
    let addr = parse_address("  0xA0b86991c6218b36c1d19D4a2e9Eb0cE3606eB48\n").unwrap();
    assert_eq!(addr.bytes[0], 0xa0);
    assert_eq!(addr.bytes[1], 0xb8);
    assert_eq!(addr.bytes[19], 0x48);
    assert_eq!(addr.hex_string(), "0xa0b86991c6218b36c1d19d4a2e9eb0ce3606eb48");
}

#[test]
fn parse_rejects_wrong_length() {
    assert!(parse_address("0x1234").is_none());
    assert!(parse_address("a0b86991c6218b36c1d19d4a2e9eb0ce3606eb4").is_none());
    assert!(parse_address("a0b86991c6218b36c1d19d4a2e9eb0ce3606eb4800").is_none());
}

#[test]
fn parse_rejects_non_hex() {
    assert!(parse_address("g0b86991c6218b36c1d19d4a2e9eb0ce3606eb48").is_none());
    assert!(parse_address("a0b86991c6218b36c1d19d4a2e9eb0ce3606eb4 ").is_none());
    assert!(parse_address("not-an-address").is_none());
}

#[test]
fn parse_rejects_empty_and_blank() {
    assert!(parse_address("").is_none());
    assert!(parse_address("   ").is_none());
    assert!(parse_address("0x").is_none());
}

#[test]
fn parse_strips_prefix_only_once() {
    assert!(parse_address("0x0xb86991c6218b36c1d19d4a2e9eb0ce3606eb48").is_none());
}

#[test]
fn hex_string_round_trip() {
    let addr = parse_address("0x000000000000000000000000000000000000dEaD").unwrap();
    assert_eq!(addr.hex_string(), "0x000000000000000000000000000000000000dead");
    let again = parse_address(&addr.hex_string()).unwrap();
    assert_eq!(again.bytes, addr.bytes);
}

#[test]
fn endpoint_hosts_follow_chain_ids() {
    assert_eq!(endpoint_host(1), "mainnet");
    assert_eq!(endpoint_host(137), "polygon-mainnet");
    assert_eq!(endpoint_host(10), "optimism-mainnet");
}

#[test]
fn endpoint_url_embeds_host_and_key() {
    assert_eq!(
        endpoint_url(1, "test-key"),
        "https://mainnet.infura.io/v3/test-key"
    );
    assert_eq!(
        endpoint_url(10, "k"),
        "https://optimism-mainnet.infura.io/v3/k"
    );
}

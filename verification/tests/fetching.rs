use wallet_tui::address::parse_address;
use wallet_tui::fetch::{
    after_balance, after_decimals, fetch_error_message, zero_balance_message, BalanceStep,
    FetchError, RawBalance,
};

#[test]
fn zero_balance_short_circuits_decimals() {
    let outcome = after_balance(Ok(RawBalance { limbs: [0, 0, 0, 0] }));
    match outcome {
        BalanceStep::Done(t) => assert_eq!(t, "The wallet has 0 USDC."),
        BalanceStep::NeedDecimals => panic!("a zero balance must not ask for decimals"),
    }
}

#[test]
fn nonzero_balance_needs_decimals() {
    let outcome = after_balance(Ok(RawBalance { limbs: [5, 0, 0, 0] }));
    assert!(matches!(outcome, BalanceStep::NeedDecimals));
    let outcome = after_balance(Ok(RawBalance { limbs: [0, 0, 0, 1] }));
    assert!(matches!(outcome, BalanceStep::NeedDecimals));
}

#[test]
fn zero_balance_message_is_fixed() {
    assert_eq!(zero_balance_message(), "The wallet has 0 USDC.");
}

#[test]
fn each_failure_kind_renders_its_prefix() {
    assert_eq!(
        fetch_error_message(&FetchError::Connection("no route".to_string())),
        "Failed to connect: no route"
    );
    assert_eq!(
        fetch_error_message(&FetchError::BalanceCall("timeout".to_string())),
        "Failed to get balance: timeout"
    );
    assert_eq!(
        fetch_error_message(&FetchError::DecimalsCall("revert".to_string())),
        "Failed to get decimals: revert"
    );
    assert_eq!(
        fetch_error_message(&FetchError::Format("overflow".to_string())),
        "Failed to format units: overflow"
    );
}

#[test]
fn balance_read_failure_is_done_with_message() {
    let outcome = after_balance(Err(FetchError::Connection("refused".to_string())));
    match outcome {
        BalanceStep::Done(t) => assert_eq!(t, "Failed to connect: refused"),
        BalanceStep::NeedDecimals => panic!("a failed read must not ask for decimals"),
    }
}

#[test]
fn formats_scaled_balance_with_real_decimals() {
    let wallet = parse_address("0x000000000000000000000000000000000000dEaD").unwrap();
    let balance = RawBalance { limbs: [1_000_000, 0, 0, 0] };
    let text = after_decimals(&wallet, &balance, Ok(6));
    assert_eq!(
        text,
        "Address: 0x000000000000000000000000000000000000dead has 1.000000 USDC"
    );
}

#[test]
fn formats_fractional_balance() {
    let wallet = parse_address("0xA0b86991c6218b36c1d19D4a2e9Eb0cE3606eB48").unwrap();
    let balance = RawBalance { limbs: [1_234_567, 0, 0, 0] };
    let text = after_decimals(&wallet, &balance, Ok(6));
    assert_eq!(
        text,
        "Address: 0xa0b86991c6218b36c1d19d4a2e9eb0ce3606eb48 has 1.234567 USDC"
    );
}

#[test]
fn decimals_read_failure_renders_message() {
    let wallet = parse_address("0x000000000000000000000000000000000000dEaD").unwrap();
    let balance = RawBalance { limbs: [7, 0, 0, 0] };
    let text = after_decimals(
        &wallet,
        &balance,
        Err(FetchError::DecimalsCall("bad call".to_string())),
    );
    assert_eq!(text, "Failed to get decimals: bad call");
}

#[test]
fn oversized_decimals_render_as_format_failure() {
    let wallet = parse_address("0x000000000000000000000000000000000000dEaD").unwrap();
    let balance = RawBalance { limbs: [7, 0, 0, 0] };
    let text = after_decimals(&wallet, &balance, Ok(200));
    assert!(text.starts_with("Failed to format units: "));
}

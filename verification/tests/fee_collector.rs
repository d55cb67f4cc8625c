use stellar_swipe::fee_collector::{DEFAULT_MAX_FEE_PER_TRADE, DEFAULT_MIN_FEE_PER_TRADE};
use stellar_swipe::{AccountId, AddressKind, FeeCollectorContract, FeeCollectorError, FeeConfig};

fn address(n: u128) -> AccountId {
    AccountId::new(AddressKind::Account, n, n.wrapping_mul(31).wrapping_add(7))
}

fn create_test_env() -> FeeCollectorContract {
    FeeCollectorContract::new()
}

fn setup_contract(contract: &mut FeeCollectorContract) {
    let admin = address(1);
    contract.initialize(admin);
}

#[test]
fn test_normal_trade() {
    let mut client = create_test_env();
    setup_contract(&mut client);

    let trade_amount = 10_000_000_000; // 1000 XLM
    let calculated_fee = 10_000_000; // 1 XLM

    let result = client.collect_fee(trade_amount, calculated_fee);
    assert_eq!(result, Ok(10_000_000));
}

#[test]
fn test_large_trade_cap() {
    let mut client = create_test_env();
    setup_contract(&mut client);

    let trade_amount = 1_000_000_000_000; // 100,000 XLM
    let calculated_fee = 2_000_000_000; // 200 XLM (above max)

    let result = client.collect_fee(trade_amount, calculated_fee);
    assert_eq!(result, Ok(1_000_000_000));
}

#[test]
fn test_small_trade_floor() {
    let mut client = create_test_env();
    setup_contract(&mut client);

    let trade_amount = 1_000_000_000; // 100 XLM
    let calculated_fee = 10_000; // 0.001 XLM (below min)

    let result = client.collect_fee(trade_amount, calculated_fee);
    assert_eq!(result, Ok(100_000));
}

#[test]
fn test_tiny_trade_reject() {
    let mut client = create_test_env();
    setup_contract(&mut client);

    let trade_amount = 50_000; // 0.005 XLM (below min_fee_per_trade)
    let calculated_fee = 5_000;

    let result = client.collect_fee(trade_amount, calculated_fee);
    assert_eq!(result, Err(FeeCollectorError::TradeTooSmall));
}

#[test]
fn test_set_fee_config() {
    let mut client = create_test_env();
    setup_contract(&mut client);

    let admin = address(2);
    let new_config = FeeConfig {
        max_fee_per_trade: 2_000_000_000, // 200 XLM
        min_fee_per_trade: 200_000,       // 0.02 XLM
    };

    assert_eq!(client.set_fee_config(admin, new_config), Ok(()));

    let retrieved_config = client.get_fee_config();
    assert_eq!(retrieved_config, new_config);
}

#[test]
fn test_claim_fees_normal() {
    let mut client = create_test_env();
    setup_contract(&mut client);

    let provider = address(3);
    let token = address(4);
    let amount = 1_000_000; // 0.1 XLM

    // Simulate adding pending fees by setting storage directly
    client.set_pending_fees(provider, token, amount);

    // Claim fees
    let claimed = client.claim_fees(provider, token);
    assert_eq!(claimed.amount, amount);

    // Check that storage is reset
    let remaining = client.pending_fees(provider, token).unwrap_or(0);
    assert_eq!(remaining, 0);
}

#[test]
fn test_claim_fees_zero_balance() {
    let mut client = create_test_env();
    setup_contract(&mut client);

    let provider = address(3);
    let token = address(4);

    // No pending fees set, should return 0
    let claimed = client.claim_fees(provider, token);
    assert_eq!(claimed.amount, 0);
}

#[test]
fn initialize_sets_default_config() {
    let mut c = create_test_env();
    setup_contract(&mut c);
    let config = c.get_fee_config();
    assert_eq!(config.max_fee_per_trade, 1_000_000_000);
    assert_eq!(config.min_fee_per_trade, 100_000);
    assert_eq!(DEFAULT_MAX_FEE_PER_TRADE, 1_000_000_000);
    assert_eq!(DEFAULT_MIN_FEE_PER_TRADE, 100_000);
}

#[test]
fn initialize_keeps_pending_fees() {
    let mut c = create_test_env();
    c.set_pending_fees(address(3), address(4), 55);
    setup_contract(&mut c);
    assert_eq!(c.pending_fees(address(3), address(4)), Some(55));
}

#[test]
fn collect_fee_rejects_non_positive_trade() {
    let mut c = create_test_env();
    setup_contract(&mut c);
    assert_eq!(c.collect_fee(0, 10), Err(FeeCollectorError::InvalidAmount));
    assert_eq!(c.collect_fee(-5, 10), Err(FeeCollectorError::InvalidAmount));
}

#[test]
fn collect_fee_rejects_negative_fee() {
    let mut c = create_test_env();
    setup_contract(&mut c);
    assert_eq!(c.collect_fee(1_000_000_000, -1), Err(FeeCollectorError::InvalidAmount));
}

#[test]
fn collect_fee_checks_inputs_before_initialization() {
    let c = create_test_env();
    assert_eq!(c.collect_fee(0, 0), Err(FeeCollectorError::InvalidAmount));
    assert_eq!(c.collect_fee(100, -1), Err(FeeCollectorError::InvalidAmount));
}

#[test]
fn collect_fee_rejects_fee_above_trade() {
    let mut c = create_test_env();
    setup_contract(&mut c);
    // The trade covers the floor, but the fee (within the bounds) is larger
    // than the trade itself.
    assert_eq!(c.collect_fee(100_000, 500_000), Err(FeeCollectorError::TradeTooSmall));
    assert_eq!(c.collect_fee(150_000, 120_000), Ok(120_000));
}

#[test]
fn collect_fee_at_exact_bounds() {
    let mut c = create_test_env();
    setup_contract(&mut c);
    assert_eq!(c.collect_fee(100_000, 100_000), Ok(100_000));
    assert_eq!(c.collect_fee(100_000, 0), Ok(100_000));
    assert_eq!(c.collect_fee(99_999, 0), Err(FeeCollectorError::TradeTooSmall));
    assert_eq!(c.collect_fee(5_000_000_000, 1_000_000_000), Ok(1_000_000_000));
}

#[test]
fn collect_fee_is_idempotent() {
    let mut c = create_test_env();
    setup_contract(&mut c);
    let first = c.collect_fee(1_000_000_000_000, 2_000_000_000).unwrap();
    assert_eq!(c.collect_fee(1_000_000_000_000, first), Ok(first));
    let floored = c.collect_fee(1_000_000_000, 10_000).unwrap();
    assert_eq!(c.collect_fee(1_000_000_000, floored), Ok(floored));
}

#[test]
fn collect_fee_is_monotone() {
    let mut c = create_test_env();
    setup_contract(&mut c);
    let mut last = 0;
    for fee in [0i128, 50_000, 100_000, 500_000, 999_999_999, 1_000_000_000, 3_000_000_000] {
        let got = c.collect_fee(10_000_000_000, fee).unwrap();
        assert!(got >= last);
        last = got;
    }
}

#[test]
fn set_fee_config_rejects_invalid() {
    let mut c = create_test_env();
    setup_contract(&mut c);
    let before = c.get_fee_config();
    let zero_floor = FeeConfig { max_fee_per_trade: 10, min_fee_per_trade: 0 };
    let cap_below_floor = FeeConfig { max_fee_per_trade: 10, min_fee_per_trade: 10 };
    let negative = FeeConfig { max_fee_per_trade: 10, min_fee_per_trade: -1 };
    for bad in [zero_floor, cap_below_floor, negative] {
        assert_eq!(c.set_fee_config(address(1), bad), Err(FeeCollectorError::InvalidAmount));
        assert_eq!(c.get_fee_config(), before);
    }
}

#[test]
fn new_config_governs_collection() {
    let mut c = create_test_env();
    setup_contract(&mut c);
    let config = FeeConfig { max_fee_per_trade: 5_000, min_fee_per_trade: 1_000 };
    assert_eq!(c.set_fee_config(address(1), config), Ok(()));
    assert_eq!(c.collect_fee(100_000, 10), Ok(1_000));
    assert_eq!(c.collect_fee(100_000, 9_000), Ok(5_000));
    assert_eq!(c.collect_fee(999, 10), Err(FeeCollectorError::TradeTooSmall));
}

#[test]
fn claim_twice_pays_once() {
    let mut c = create_test_env();
    setup_contract(&mut c);
    c.set_pending_fees(address(3), address(4), 7_000);
    let first = c.claim_fees(address(3), address(4));
    assert_eq!(first.amount, 7_000);
    assert!(first.pay_out);
    let second = c.claim_fees(address(3), address(4));
    assert_eq!(second.amount, 0);
    assert!(!second.pay_out);
    assert_eq!(c.pending_fees(address(3), address(4)), Some(0));
}

#[test]
fn claim_of_non_positive_balance_changes_nothing() {
    let mut c = create_test_env();
    setup_contract(&mut c);
    c.set_pending_fees(address(3), address(4), -20);
    let claim = c.claim_fees(address(3), address(4));
    assert_eq!(claim.amount, -20);
    assert!(!claim.pay_out);
    assert_eq!(c.pending_fees(address(3), address(4)), Some(-20));
}

#[test]
fn claim_leaves_other_providers_and_tokens() {
    let mut c = create_test_env();
    setup_contract(&mut c);
    c.set_pending_fees(address(3), address(4), 10);
    c.set_pending_fees(address(3), address(5), 20);
    c.set_pending_fees(address(6), address(4), 30);
    assert_eq!(c.claim_fees(address(3), address(4)).amount, 10);
    assert_eq!(c.pending_fees(address(3), address(5)), Some(20));
    assert_eq!(c.pending_fees(address(6), address(4)), Some(30));
    assert_eq!(c.pending_fees(address(3), address(4)), Some(0));
    assert_eq!(c.pending_fees(address(7), address(4)), None);
}

#[test]
fn contract_and_account_addresses_differ() {
    let mut c = create_test_env();
    setup_contract(&mut c);
    let account = AccountId::new(AddressKind::Account, 9, 9);
    let contract = AccountId::new(AddressKind::Contract, 9, 9);
    assert!(!account.same_as(&contract));
    assert!(account.same_as(&AccountId::new(AddressKind::Account, 9, 9)));
    c.set_pending_fees(account, address(4), 1);
    assert_eq!(c.pending_fees(contract, address(4)), None);
}

#[test]
fn overwriting_pending_fees_keeps_the_last() {
    let mut c = create_test_env();
    c.set_pending_fees(address(3), address(4), 1);
    c.set_pending_fees(address(3), address(4), 2);
    assert_eq!(c.pending_fees(address(3), address(4)), Some(2));
    assert_eq!(c.claim_fees(address(3), address(4)).amount, 2);
}

#[test]
fn fee_error_codes() {
    let all = [
        (FeeCollectorError::TradeTooSmall, 1),
        (FeeCollectorError::ArithmeticOverflow, 2),
        (FeeCollectorError::InvalidAmount, 3),
        (FeeCollectorError::Unauthorized, 4),
    ];
    for (e, code) in all {
        assert_eq!(e.code(), code);
        assert_eq!(FeeCollectorError::from_code(code), Some(e));
    }
    assert_eq!(FeeCollectorError::from_code(0), None);
    assert_eq!(FeeCollectorError::from_code(5), None);
}

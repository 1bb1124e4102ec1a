use seismic_rpc::balance::{
    balance, balance_lookups, balance_of_request, encode_balance_of, usdc_balance, BalanceLookups,
    BALANCE_OF_SELECTOR, USDC_CONTRACT, USDC_DECIMAL_SCALE,
};
use seismic_rpc::request::{Address, TransactionInput, TransactionRequest, TxKind};
use seismic_rpc::uint::U256;

const ONE_ETHER: u64 = 1_000_000_000_000_000_000;

fn small(value: u64) -> U256 {
    U256::from_limbs([value, 0, 0, 0])
}

fn word(value: alloy_primitives::U256) -> Vec<u8> {
    value.to_be_bytes::<32>().to_vec()
}

fn account(fill: u8) -> Address {
    Address { bytes: [fill; 20] }
}

fn reply(bytes: Vec<u8>) -> Result<Vec<u8>, String> {
    Ok(bytes)
}

fn native(value: U256) -> Result<Option<U256>, String> {
    Ok(Some(value))
}

#[test]
fn selector_is_the_hash_prefix() {
    let hash = alloy_primitives::keccak256("balanceOf(address)");
    assert_eq!(&hash[0..4], &BALANCE_OF_SELECTOR[..]);
}

#[test]
fn usdc_contract_is_the_predeploy() {
    let address = alloy_primitives::Address::parse_checksummed(
        "0x215dfD51D1e6C05C1f7e322c0f9ddc607300e053",
        None,
    );
    assert_eq!(address.unwrap().into_array(), USDC_CONTRACT);
}

#[test]
fn scale_is_twelve_decimals() {
    assert_eq!(USDC_DECIMAL_SCALE, 10u64.pow(12));
}

#[test]
fn calldata_is_selector_and_padded_address() {
    let mut bytes = [0u8; 20];
    for i in 0..20 {
        bytes[i] = i as u8 + 1;
    }
    let calldata = encode_balance_of(Address { bytes });
    let mut expected = vec![0u8; 36];
    expected[0..4].copy_from_slice(&[0x70, 0xa0, 0x82, 0x31]);
    expected[16..36].copy_from_slice(&bytes);
    assert_eq!(calldata, expected);
}

#[test]
fn calldata_tells_addresses_apart() {
    assert_ne!(encode_balance_of(account(1)), encode_balance_of(account(2)));
    assert_eq!(encode_balance_of(account(1)), encode_balance_of(account(1)));
}

#[test]
fn calldata_word_spells_the_address() {
    let calldata = encode_balance_of(account(0x42));
    let from_word = alloy_primitives::U256::from_be_slice(&calldata[4..36]);
    let from_address = alloy_primitives::U256::from_be_slice(&[0x42; 20]);
    assert_eq!(from_word, from_address);
}

#[test]
fn request_calls_the_predeploy_and_sets_nothing_else() {
    let request = balance_of_request(account(7));
    let expected = TransactionRequest {
        to: Some(TxKind::Call(Address { bytes: USDC_CONTRACT })),
        input: TransactionInput { input: Some(encode_balance_of(account(7))), data: None },
        ..Default::default()
    };
    assert_eq!(request, expected);
    assert_eq!(request.from, None);
    assert_eq!(request.value, None);
    assert_eq!(request.gas, None);
}

#[test]
fn lookups_are_of_one_account_at_one_block() {
    let at = Some(alloy_eips::BlockId::number(17));
    let lookups: BalanceLookups<(), ()> = balance_lookups(account(9), at);
    assert_eq!(lookups.usdc.request, balance_of_request(account(9)));
    assert_eq!(lookups.usdc.block_id, at);
    assert_eq!(lookups.usdc.overrides.state, None);
    assert_eq!(lookups.usdc.overrides.block, None);
    assert_eq!(lookups.native.address, account(9));
    assert_eq!(lookups.native.block_id, at);
}

#[test]
fn lookups_without_a_block_name_none() {
    let lookups: BalanceLookups<(), ()> = balance_lookups(account(9), None);
    assert_eq!(lookups.usdc.block_id, None);
    assert_eq!(lookups.native.block_id, None);
}

#[test]
fn one_usdc_is_one_at_eighteen_decimals() {
    let one = word(alloy_primitives::U256::from(1_000_000u64));
    assert_eq!(usdc_balance(reply(one)), small(ONE_ETHER));
}

#[test]
fn smallest_usdc_amount_is_the_scale() {
    let mut bytes = vec![0u8; 32];
    bytes[31] = 1;
    assert_eq!(usdc_balance(reply(bytes)), small(1_000_000_000_000));
}

#[test]
fn reply_is_read_most_significant_byte_first() {
    let mut bytes = vec![0u8; 32];
    bytes[23] = 1;
    assert_eq!(usdc_balance(reply(bytes)), U256::from_limbs([0, 1_000_000_000_000, 0, 0]));
}

#[test]
fn reply_of_thirty_one_bytes_counts_as_nothing() {
    assert_eq!(usdc_balance(reply(vec![0xff; 31])), U256::zero());
    assert_eq!(usdc_balance(reply(vec![])), U256::zero());
}

#[test]
fn failed_call_counts_as_nothing() {
    let failed: Result<Vec<u8>, String> = Err("execution reverted".to_string());
    assert_eq!(usdc_balance(failed), U256::zero());
}

#[test]
fn bytes_behind_the_first_word_do_not_count() {
    let mut bytes = word(alloy_primitives::U256::from(5u64));
    bytes.extend_from_slice(&[0xff; 40]);
    assert_eq!(usdc_balance(reply(bytes)), small(5_000_000_000_000));
}

#[test]
fn scaling_saturates_only_beyond_the_largest_number() {
    let scale = alloy_primitives::U256::from(1_000_000_000_000u64);
    let most = alloy_primitives::U256::MAX / scale;
    let exact = most * scale;
    assert_eq!(usdc_balance(reply(word(most))).limbs, exact.into_limbs());
    let beyond = most + alloy_primitives::U256::from(1u64);
    assert_eq!(usdc_balance(reply(word(beyond))).limbs, [u64::MAX; 4]);
    assert_eq!(usdc_balance(reply(vec![0xff; 32])).limbs, [u64::MAX; 4]);
}

#[test]
fn higher_native_balance_is_reported() {
    let usdc = word(alloy_primitives::U256::from(1_000_000u64));
    let r = balance(reply(usdc), native(small(2 * ONE_ETHER)));
    assert_eq!(r, Ok(small(2 * ONE_ETHER)));
}

#[test]
fn higher_usdc_balance_is_reported() {
    let usdc = word(alloy_primitives::U256::from(3_000_000u64));
    let r = balance(reply(usdc), native(small(2 * ONE_ETHER)));
    assert_eq!(r, Ok(small(3 * ONE_ETHER)));
}

#[test]
fn equal_balances_are_reported_once() {
    let usdc = word(alloy_primitives::U256::from(1_000_000u64));
    let r = balance(reply(usdc), native(small(ONE_ETHER)));
    assert_eq!(r, Ok(small(ONE_ETHER)));
}

#[test]
fn upper_limbs_decide_first() {
    let low = word(alloy_primitives::U256::from(u64::MAX / 1_000_000_000_000));
    let high = U256::from_limbs([0, 0, 0, 1]);
    assert_eq!(balance(reply(low), native(high)), Ok(high));
    let r = balance(reply(vec![0xff; 32]), native(U256::from_limbs([u64::MAX, 0, 0, 0])));
    assert_eq!(r, Ok(U256::from_limbs([u64::MAX; 4])));
}

#[test]
fn missing_usdc_leaves_the_native_balance() {
    let failed: Result<Vec<u8>, String> = Err("timeout".to_string());
    assert_eq!(balance(failed, native(small(42))), Ok(small(42)));
    assert_eq!(balance(reply(vec![0xff; 31]), native(small(42))), Ok(small(42)));
}

#[test]
fn account_that_is_not_held_has_no_native_balance() {
    let absent: Result<Option<U256>, String> = Ok(None);
    let usdc = word(alloy_primitives::U256::from(1u64));
    assert_eq!(balance(reply(usdc), absent), Ok(small(1_000_000_000_000)));
    let absent: Result<Option<U256>, String> = Ok(None);
    assert_eq!(balance(reply(vec![]), absent), Ok(U256::zero()));
}

#[test]
fn failed_native_lookup_is_the_error() {
    let failed: Result<Option<U256>, String> = Err("header not found".to_string());
    let usdc = word(alloy_primitives::U256::from(1_000_000u64));
    assert_eq!(balance(reply(usdc), failed), Err("header not found".to_string()));
    let failed: Result<Option<U256>, String> = Err("header not found".to_string());
    let reverted: Result<Vec<u8>, String> = Err("execution reverted".to_string());
    assert_eq!(balance(reverted, failed), Err("header not found".to_string()));
}

#[test]
fn higher_balances_never_lower_the_report() {
    let amounts = [0u64, 1, 999_999, 1_000_000, u64::MAX];
    let mut last = U256::zero();
    for amount in amounts {
        let usdc = word(alloy_primitives::U256::from(amount));
        let r = balance(reply(usdc), native(small(5_000_000_000_000))).unwrap();
        let now = alloy_primitives::U256::from_limbs(r.limbs);
        assert!(now >= alloy_primitives::U256::from_limbs(last.limbs));
        last = r;
    }
    assert_eq!(last, U256::from_limbs([u64::MAX - 999_999_999_999, 999_999_999_999, 0, 0]));
}

#[test]
fn a_missing_side_never_raises_the_report() {
    let reverted: Result<Vec<u8>, String> = Err("execution reverted".to_string());
    let absent: Result<Option<U256>, String> = Ok(None);
    let nothing = balance(reverted, absent).unwrap();
    assert_eq!(nothing, U256::zero());

    let absent: Result<Option<U256>, String> = Ok(None);
    let one = word(alloy_primitives::U256::from(1_000_000u64));
    assert_eq!(balance(reply(one.clone()), absent), Ok(small(ONE_ETHER)));
    assert_eq!(balance(reply(one), native(small(1))), Ok(small(ONE_ETHER)));

    let short = balance(reply(vec![0xff; 31]), native(small(7)));
    let full = balance(reply(vec![0; 32]), native(small(8)));
    assert_eq!(short, Ok(small(7)));
    assert_eq!(full, Ok(small(8)));
}

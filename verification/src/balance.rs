//! The balance of an account: the higher of its native balance and of its USDC balance, the
//! latter scaled from 6 to 18 decimals so that the two compare.
//!
//! Two lookups feed it. [`balance_lookups`] says which; [`balance`] says what their outcomes
//! amount to.

use crate::request::{Address, TransactionInput, TransactionRequest, TxKind};
use crate::uint::{be_value, from_be_slice, higher, max, saturating_mul, saturating_product, U256};
use vstd::prelude::*;

verus! {

/// Declares `alloy_eips::BlockId`, which the lookups carry unread.
#[verifier::external_type_specification]
#[verifier::external_body]
pub struct ExBlockId(alloy_eips::BlockId);

/// The USDC predeploy, `0x215dfD51D1e6C05C1f7e322c0f9ddc607300e053`.
pub const USDC_CONTRACT: [u8; 20] = [
    0x21, 0x5d, 0xfd, 0x51, 0xd1, 0xe6, 0xc0, 0x5c, 0x1f, 0x7e, 0x32, 0x2c, 0x0f, 0x9d, 0xdc, 0x60,
    0x73, 0x00, 0xe0, 0x53,
];

/// What a USDC amount is multiplied by to have 18 decimals in place of 6: 10^12.
pub const USDC_DECIMAL_SCALE: u64 = 1_000_000_000_000;

/// The first four bytes of the Keccak-256 hash of `balanceOf(address)`.
pub const BALANCE_OF_SELECTOR: [u8; 4] = [0x70, 0xa0, 0x82, 0x31];

/// The bytes that fill an address up to an ABI word.
const ADDRESS_PADDING: [u8; 12] = [0, 0, 0, 0, 0, 0, 0, 0, 0, 0, 0, 0];

/// The ABI encoding of the call `balanceOf(address)`: the selector, then the address as a word
/// of 32 bytes, right-aligned over zeros.
pub open spec fn balance_of_calldata(address: Seq<u8>) -> Seq<u8> {
    BALANCE_OF_SELECTOR@ + Seq::new(12, |i: int| 0u8) + address
}

/// A request that calls `balanceOf(address)` on the USDC predeploy and sets nothing else.
pub open spec fn is_balance_of_request(request: TransactionRequest, address: Seq<u8>) -> bool {
    &&& request.to matches Some(TxKind::Call(contract)) && contract@ == USDC_CONTRACT@
    &&& request.input.input matches Some(calldata) && calldata@ == balance_of_calldata(address)
    &&& (TransactionRequest {
        to: None,
        input: (TransactionInput { input: None, data: request.input.data }),
        ..request
    }) == TransactionRequest::unset()
}

/// What a USDC amount is worth in wei, cut off at the largest 256-bit number.
pub open spec fn usdc_to_wei(amount: nat) -> nat {
    saturating_product(amount, USDC_DECIMAL_SCALE as nat)
}

/// The USDC balance in wei that a reply to `balanceOf` amounts to. A reply that did not come, or
/// that is too short to hold a word, counts as no USDC at all.
pub open spec fn usdc_wei(reply: Option<Seq<u8>>) -> nat {
    match reply {
        Some(bytes) => if bytes.len() >= 32 {
            usdc_to_wei(be_value(bytes.take(32)))
        } else {
            0
        },
        None => 0,
    }
}

/// The native balance of an account in wei. An account that the state does not hold has none.
pub open spec fn native_wei(account: Option<U256>) -> nat {
    match account {
        Some(balance) => balance@,
        None => 0,
    }
}

/// The balance that is reported for what the two lookups found.
pub open spec fn reported_wei(reply: Option<Seq<u8>>, account: Option<U256>) -> nat {
    higher(native_wei(account), usdc_wei(reply))
}

/// The bytes of a reply, if one came.
pub open spec fn reply_bytes<E>(reply: Result<Vec<u8>, E>) -> Option<Seq<u8>> {
    match reply {
        Ok(bytes) => Some(bytes@),
        Err(_) => None,
    }
}

/// What a simulated call changes of the state and of the block before it runs. `S` and `B` are
/// the kinds of change that the node understands.
#[derive(Debug, PartialEq, Eq)]
pub struct EvmOverrides<S, B> {
    pub state: Option<S>,
    pub block: Option<B>,
}

impl<S, B> EvmOverrides<S, B> {
    /// The given changes.
    pub fn new(state: Option<S>, block: Option<B>) -> (r: Self)
        ensures
            r.state == state,
            r.block == block,
    {
        EvmOverrides { state, block }
    }
}

/// A simulated call: what is called, on top of which block, and with what changed first.
#[derive(Debug, PartialEq, Eq)]
pub struct CallLookup<S, B> {
    pub request: TransactionRequest,
    pub block_id: Option<alloy_eips::BlockId>,
    pub overrides: EvmOverrides<S, B>,
}

/// A read of an account's native balance in the state after a block, the latest one where none
/// is given.
#[derive(Clone, Copy, Debug, PartialEq, Eq)]
pub struct AccountLookup {
    pub address: Address,
    pub block_id: Option<alloy_eips::BlockId>,
}

/// The two lookups that a balance takes.
#[derive(Debug, PartialEq, Eq)]
pub struct BalanceLookups<S, B> {
    pub usdc: CallLookup<S, B>,
    pub native: AccountLookup,
}

/// The calldata of `balanceOf(address)`.
pub fn encode_balance_of(address: Address) -> (r: Vec<u8>)
    ensures
        r@ == balance_of_calldata(address@),
{
    let mut calldata: Vec<u8> = Vec::new();
    calldata.extend_from_slice(&BALANCE_OF_SELECTOR);
    calldata.extend_from_slice(&ADDRESS_PADDING);
    calldata.extend_from_slice(address.as_slice());
    assert(ADDRESS_PADDING@ =~= Seq::new(12, |i: int| 0u8));
    assert(calldata@ =~= balance_of_calldata(address@));
    calldata
}

/// The request for the USDC balance of `address`.
pub fn balance_of_request(address: Address) -> (r: TransactionRequest)
    ensures
        is_balance_of_request(r, address@),
{
    let calldata = encode_balance_of(address);
    TransactionRequest {
        to: Some(TxKind::Call(Address { bytes: USDC_CONTRACT })),
        input: TransactionInput { input: Some(calldata), data: None },
        ..Default::default()
    }
}

/// The lookups for the balance of `address` at a block. Both are of the same account and the
/// same block, and the call runs on the state as it is.
pub fn balance_lookups<S, B>(address: Address, block_id: Option<alloy_eips::BlockId>) -> (r:
    BalanceLookups<S, B>)
    ensures
        is_balance_of_request(r.usdc.request, address@),
        r.usdc.block_id == block_id,
        r.usdc.overrides.state is None,
        r.usdc.overrides.block is None,
        r.native.address == address,
        r.native.block_id == block_id,
{
    BalanceLookups {
        usdc: CallLookup {
            request: balance_of_request(address),
            block_id,
            overrides: EvmOverrides::new(None, None),
        },
        native: AccountLookup { address, block_id },
    }
}

/// The USDC balance in wei that a reply to `balanceOf` amounts to.
pub fn usdc_balance<E>(reply: Result<Vec<u8>, E>) -> (r: U256)
    ensures
        r@ == usdc_wei(reply_bytes(reply)),
        reply is Err ==> r@ == 0,
        reply matches Ok(bytes) ==> if bytes@.len() < 32 {
            r@ == 0
        } else {
            r@ == saturating_product(be_value(bytes@.take(32)), 1_000_000_000_000)
        },
{
    match reply {
        Ok(result) => {
            if result.len() >= 32 {
                let word = from_be_slice(&result[0..32]);
                saturating_mul(word, U256::from_limbs([USDC_DECIMAL_SCALE, 0, 0, 0]))
            } else {
                U256::zero()
            }
        },
        Err(_) => U256::zero(),
    }
}

/// The balance to report, from the reply to the USDC call and the account's native balance. A
/// USDC lookup that fails never fails the whole; a native one does, with its own error.
pub fn balance<C, E>(reply: Result<Vec<u8>, C>, native: Result<Option<U256>, E>) -> (r: Result<
    U256,
    E,
>)
    ensures
        match native {
            Ok(account) => r matches Ok(wei) && wei@ == reported_wei(reply_bytes(reply), account),
            Err(e) => r == Err::<U256, E>(e),
        },
        native matches Ok(Some(held)) ==> r->Ok_0@ == higher(held@, usdc_wei(reply_bytes(reply))),
        native matches Ok(None) ==> r->Ok_0@ == usdc_wei(reply_bytes(reply)),
{
    let usdc = usdc_balance(reply);
    match native {
        Ok(account) => {
            let native = match account {
                Some(balance) => balance,
                None => U256::zero(),
            };
            Ok(max(native, usdc))
        },
        Err(e) => Err(e),
    }
}

} // verus!

//! What holds of balances and requests as a whole.

use crate::balance::{
    balance_of_calldata, is_balance_of_request, native_wei, reply_bytes, reported_wei, usdc_to_wei,
    usdc_wei, BALANCE_OF_SELECTOR, USDC_DECIMAL_SCALE,
};
use crate::request::{
    is_env_by_way_of, is_tx_env_outcome, Address, SeismicTransactionRequest,
    SignableSeismicTransactionRequest, TransactionRequest,
};
use crate::uint::{
    abi_word, be_value, higher, law_abi_word_round_trip, law_largest_number, law_leading_zeros,
    law_u256_fits, u256_max, U256,
};
use vstd::arithmetic::power2::pow2;
use vstd::prelude::*;
use vstd::std_specs::convert::FromSpec;

verus! {

/// The reported balance is the higher one: it is one of the two balances, and neither exceeds
/// it.
pub proof fn law_balance_is_the_higher(reply: Option<Seq<u8>>, account: Option<U256>)
    ensures
        reported_wei(reply, account) >= native_wei(account),
        reported_wei(reply, account) >= usdc_wei(reply),
        reported_wei(reply, account) == native_wei(account) || reported_wei(reply, account)
            == usdc_wei(reply),
{
}

/// The native balance counts in full. Whatever the reply, no less than what the account holds is
/// reported, and exactly that where there is no USDC: where the call failed, its reply is too
/// short, or its first word is zero. An account that the state does not hold adds nothing to
/// what the USDC is worth.
pub proof fn law_native_balance_counts_in_full<C>(reply: Result<Vec<u8>, C>, held: U256)
    ensures
        reported_wei(reply_bytes(reply), Some(held)) >= held@,
        reply is Err ==> reported_wei(reply_bytes(reply), Some(held)) == held@,
        reply matches Ok(bytes) ==> bytes@.len() < 32 ==> reported_wei(
            reply_bytes(reply),
            Some(held),
        ) == held@,
        reply matches Ok(bytes) ==> bytes@.len() >= 32 && (forall|i: int|
            0 <= i < 32 ==> bytes@[i] == 0) ==> reported_wei(reply_bytes(reply), Some(held))
            == held@,
        reported_wei(reply_bytes(reply), Some(held)) != held@ ==> reported_wei(
            reply_bytes(reply),
            Some(held),
        ) == reported_wei(reply_bytes(reply), None),
        reported_wei(reply_bytes(reply), Some(held)) >= reported_wei(reply_bytes(reply), None),
        reply is Err ==> reported_wei(reply_bytes(reply), None) == 0,
        reply matches Ok(bytes) ==> bytes@.len() < 32 ==> reported_wei(reply_bytes(reply), None)
            == 0,
        native_wei(Some(held)) == held@,
        native_wei(None) == 0,
{
    if reply matches Ok(bytes) && bytes@.len() >= 32 && (forall|i: int|
        0 <= i < 32 ==> bytes@[i] == 0) {
        let word = reply->Ok_0@.take(32);
        assert(word + Seq::<u8>::empty() =~= word);
        law_leading_zeros(word, Seq::empty());
    }
}

/// A USDC reply counts in full. Where it starts with the ABI encoding of an amount, it is worth
/// 10^12 times the amount, or the largest 256-bit number where that does not fit, and the
/// reported balance is the higher of this and of what the account holds.
pub proof fn law_usdc_reply_counts_in_full<C>(
    bytes: Vec<u8>,
    amount: nat,
    rest: Seq<u8>,
    held: U256,
)
    requires
        amount < pow2(256),
        bytes@ == abi_word(amount) + rest,
    ensures
        amount * 1_000_000_000_000 < pow2(256) ==> {
            &&& usdc_wei(reply_bytes(Ok::<Vec<u8>, C>(bytes))) == amount * 1_000_000_000_000
            &&& reported_wei(reply_bytes(Ok::<Vec<u8>, C>(bytes)), None) == amount
                * 1_000_000_000_000
            &&& held@ <= amount * 1_000_000_000_000 ==> reported_wei(
                reply_bytes(Ok::<Vec<u8>, C>(bytes)),
                Some(held),
            ) == amount * 1_000_000_000_000
            &&& held@ >= amount * 1_000_000_000_000 ==> reported_wei(
                reply_bytes(Ok::<Vec<u8>, C>(bytes)),
                Some(held),
            ) == held@
        },
        amount * 1_000_000_000_000 >= pow2(256) ==> {
            &&& usdc_wei(reply_bytes(Ok::<Vec<u8>, C>(bytes))) == pow2(256) - 1
            &&& reported_wei(reply_bytes(Ok::<Vec<u8>, C>(bytes)), None) == pow2(256) - 1
            &&& reported_wei(reply_bytes(Ok::<Vec<u8>, C>(bytes)), Some(held)) == pow2(256) - 1
        },
{
    law_largest_number(held);
    law_u256_fits(held);
    law_abi_word_round_trip(amount);
    assert((abi_word(amount) + rest).take(32) =~= abi_word(amount));
}

/// A reply of at least a word counts by what its first word spells, times 10^12, and any other
/// outcome of the call counts as nothing.
pub proof fn law_usdc_is_read_from_the_first_word<C>(reply: Result<Vec<u8>, C>)
    ensures
        reply is Err ==> usdc_wei(reply_bytes(reply)) == 0,
        reply matches Ok(bytes) ==> bytes@.len() < 32 ==> usdc_wei(reply_bytes(reply)) == 0,
        reply matches Ok(bytes) ==> bytes@.len() >= 32 && be_value(bytes@.take(32))
            * 1_000_000_000_000 < pow2(256) ==> usdc_wei(reply_bytes(reply)) == be_value(
            bytes@.take(32),
        ) * 1_000_000_000_000,
        reply matches Ok(bytes) ==> bytes@.len() >= 32 && be_value(bytes@.take(32))
            * 1_000_000_000_000 >= pow2(256) ==> usdc_wei(reply_bytes(reply)) == pow2(256) - 1,
{
    law_largest_number(U256 { limbs: [0, 0, 0, 0] });
}

/// The reported balance is always a 256-bit number.
pub proof fn law_balance_fits(reply: Option<Seq<u8>>, account: Option<U256>)
    ensures
        reported_wei(reply, account) <= u256_max(),
{
    if account is Some {
        law_u256_fits(account->0);
    }
}

/// Without a USDC reply, or with one too short to hold a word, the native balance is reported.
pub proof fn law_no_usdc_leaves_native(reply: Option<Seq<u8>>, account: Option<U256>)
    requires
        reply matches Some(bytes) ==> bytes.len() < 32,
    ensures
        reported_wei(reply, account) == native_wei(account),
{
}

/// Of a reply only the first word counts.
pub proof fn law_only_the_first_word_counts(
    word: Seq<u8>,
    rest: Seq<u8>,
    account: Option<U256>,
)
    requires
        word.len() == 32,
    ensures
        reported_wei(Some(word + rest), account) == reported_wei(Some(word), account),
{
    assert((word + rest).take(32) =~= word);
    assert(word.take(32) =~= word);
}

/// A reply that starts with the ABI encoding of an amount counts as that amount, scaled: exactly
/// as long as the product fits in 256 bits, and as the largest 256-bit number beyond.
pub proof fn law_usdc_reply_is_scaled(amount: nat, rest: Seq<u8>)
    requires
        amount <= u256_max(),
    ensures
        amount * USDC_DECIMAL_SCALE <= u256_max() ==> usdc_wei(Some(abi_word(amount) + rest))
            == amount * USDC_DECIMAL_SCALE,
        amount * USDC_DECIMAL_SCALE > u256_max() ==> usdc_wei(Some(abi_word(amount) + rest))
            == u256_max(),
{
    law_abi_word_round_trip(amount);
    assert((abi_word(amount) + rest).take(32) =~= abi_word(amount));
}

/// Where the predeploy answers with the ABI encoding of what it holds for the account, the
/// balance is the higher of the native balance and of that amount at 18 decimals.
pub proof fn law_balance_of_native_and_usdc(account: Option<U256>, amount: nat, rest: Seq<u8>)
    requires
        amount <= u256_max(),
    ensures
        reported_wei(Some(abi_word(amount) + rest), account) == higher(
            native_wei(account),
            usdc_to_wei(amount),
        ),
{
    law_usdc_reply_is_scaled(amount, rest);
}

/// A whole number of USDC, at 6 decimals, is worth the same whole number at 18 decimals.
pub proof fn law_decimals_agree(whole: nat)
    requires
        whole * 1_000_000_000_000_000_000 <= u256_max(),
    ensures
        usdc_to_wei(whole * 1_000_000) == whole * 1_000_000_000_000_000_000,
{
}

/// More USDC never lowers the balance in wei that it counts as.
pub proof fn law_scaling_is_monotone(less: nat, more: nat)
    requires
        less <= more,
    ensures
        usdc_to_wei(less) <= usdc_to_wei(more),
{
}

/// A higher balance on either side never lowers the reported one, whether or not the lookups
/// found an account and a full reply.
pub proof fn law_balance_is_monotone(
    reply: Option<Seq<u8>>,
    higher_reply: Option<Seq<u8>>,
    account: Option<U256>,
    higher_account: Option<U256>,
)
    requires
        usdc_wei(reply) <= usdc_wei(higher_reply),
        native_wei(account) <= native_wei(higher_account),
    ensures
        reported_wei(reply, account) <= reported_wei(higher_reply, higher_account),
{
}

/// A reply whose first word spells a larger amount, and an account that holds more, never lower
/// the reported balance.
pub proof fn law_balance_is_monotone_in_amounts(
    reply: Seq<u8>,
    higher_reply: Seq<u8>,
    account: U256,
    higher_account: U256,
)
    requires
        reply.len() >= 32,
        higher_reply.len() >= 32,
        be_value(reply.take(32)) <= be_value(higher_reply.take(32)),
        account@ <= higher_account@,
    ensures
        reported_wei(Some(reply), Some(account)) <= reported_wei(
            Some(higher_reply),
            Some(higher_account),
        ),
{
    law_scaling_is_monotone(be_value(reply.take(32)), be_value(higher_reply.take(32)));
    law_balance_is_monotone(
        Some(reply),
        Some(higher_reply),
        Some(account),
        Some(higher_account),
    );
}

/// The calldata is the selector and one word, and the word spells what the address spells.
pub proof fn law_calldata_carries_the_address(address: Seq<u8>)
    requires
        address.len() == 20,
    ensures
        balance_of_calldata(address).len() == 36,
        balance_of_calldata(address).take(4) == BALANCE_OF_SELECTOR@,
        balance_of_calldata(address).skip(16) == address,
        be_value(balance_of_calldata(address).skip(4)) == be_value(address),
{
    let zeros = Seq::new(12, |i: int| 0u8);
    let calldata = balance_of_calldata(address);
    assert(calldata.take(4) =~= BALANCE_OF_SELECTOR@);
    assert(calldata.skip(16) =~= address);
    assert(calldata.skip(4) =~= zeros + address);
    law_leading_zeros(zeros, address);
}

/// The calldata, byte for byte: the selector `70a08231`, twelve zeros, and the bytes of the
/// address in their order.
pub proof fn law_calldata_byte_for_byte(address: Seq<u8>)
    requires
        address.len() == 20,
    ensures
        balance_of_calldata(address).len() == 36,
        balance_of_calldata(address)[0] == 0x70,
        balance_of_calldata(address)[1] == 0xa0,
        balance_of_calldata(address)[2] == 0x82,
        balance_of_calldata(address)[3] == 0x31,
        forall|i: int| 4 <= i < 16 ==> balance_of_calldata(address)[i] == 0,
        forall|i: int| 0 <= i < 20 ==> balance_of_calldata(address)[16 + i] == #[trigger] address[i],
{
}

/// An address stands for its 20 bytes, in their order.
pub proof fn law_address_is_its_bytes(address: Address)
    ensures
        address@.len() == 20,
        forall|i: int| 0 <= i < 20 ==> address@[i] == address.bytes[i],
{
}

/// A request for the USDC balance of an address sends, byte for byte, the selector `70a08231`,
/// twelve zeros and the bytes of the address in their order, to the USDC predeploy, and leaves
/// every other field unset.
pub proof fn law_request_asks_for_the_address(request: TransactionRequest, address: Seq<u8>)
    requires
        address.len() == 20,
        is_balance_of_request(request, address),
    ensures
        request.input.input is Some,
        request.input.input->0@.len() == 36,
        request.input.input->0@[0] == 0x70,
        request.input.input->0@[1] == 0xa0,
        request.input.input->0@[2] == 0x82,
        request.input.input->0@[3] == 0x31,
        forall|i: int| 4 <= i < 16 ==> request.input.input->0@[i] == 0,
        forall|i: int| 0 <= i < 20 ==> request.input.input->0@[16 + i] == #[trigger] address[i],
        request.input.data is None,
        request.to is Some,
        request.to->0 is Call,
        request.to->0->Call_0.bytes@ == seq![
            0x21u8,
            0x5du8,
            0xfdu8,
            0x51u8,
            0xd1u8,
            0xe6u8,
            0xc0u8,
            0x5cu8,
            0x1fu8,
            0x7eu8,
            0x32u8,
            0x2cu8,
            0x0fu8,
            0x9du8,
            0xdcu8,
            0x60u8,
            0x73u8,
            0x00u8,
            0xe0u8,
            0x53u8,
        ],
        request.from is None,
        request.gas_price is None,
        request.max_fee_per_gas is None,
        request.max_priority_fee_per_gas is None,
        request.max_fee_per_blob_gas is None,
        request.gas is None,
        request.value is None,
        request.nonce is None,
        request.chain_id is None,
        request.access_list is None,
        request.transaction_type is None,
        request.blob_versioned_hashes is None,
        request.sidecar is None,
        request.authorization_list is None,
{
    law_calldata_byte_for_byte(address);
}

/// The default request leaves every field unset.
pub proof fn law_default_request_is_unset(request: TransactionRequest)
    requires
        request == TransactionRequest::unset(),
    ensures
        request.from is None,
        request.to is None,
        request.gas_price is None,
        request.max_fee_per_gas is None,
        request.max_priority_fee_per_gas is None,
        request.max_fee_per_blob_gas is None,
        request.gas is None,
        request.value is None,
        request.input.input is None,
        request.input.data is None,
        request.nonce is None,
        request.chain_id is None,
        request.access_list is None,
        request.transaction_type is None,
        request.blob_versioned_hashes is None,
        request.sidecar is None,
        request.authorization_list is None,
{
}

/// Requests for the USDC balance of two addresses carry the same calldata only if the addresses
/// are the same, and they call the same contract.
pub proof fn law_requests_tell_addresses_apart(
    first: TransactionRequest,
    second: TransactionRequest,
    first_address: Seq<u8>,
    second_address: Seq<u8>,
)
    requires
        first_address.len() == 20,
        second_address.len() == 20,
        is_balance_of_request(first, first_address),
        is_balance_of_request(second, second_address),
    ensures
        first.to == second.to,
        first.input.input->0@ == second.input.input->0@ <==> first_address == second_address,
{
    law_calldata_carries_the_address(first_address);
    law_calldata_carries_the_address(second_address);
    assert(first.to->0->Call_0.bytes =~= second.to->0->Call_0.bytes);
}

/// A Seismic request is taken as it is: the signable request holds every field of it, the
/// elements among them, unchanged.
pub proof fn law_seismic_requests_are_kept<E>(req: SeismicTransactionRequest<E>)
    ensures
        <SignableSeismicTransactionRequest<E> as FromSpec<
            SeismicTransactionRequest<E>,
        >>::obeys_from_spec(),
        SignableSeismicTransactionRequest::<E>::from_spec(req).0 == req,
        SignableSeismicTransactionRequest::<E>::from_spec(req).0.inner == req.inner,
        SignableSeismicTransactionRequest::<E>::from_spec(req).0.seismic_elements
            == req.seismic_elements,
{
}

/// A plain request is taken as it is: the signable request holds it unchanged, and no elements.
pub proof fn law_plain_requests_are_kept<E>(req: TransactionRequest)
    ensures
        <SignableSeismicTransactionRequest<E> as FromSpec<TransactionRequest>>::obeys_from_spec(),
        SignableSeismicTransactionRequest::<E>::from_spec(req).0.inner == req,
        SignableSeismicTransactionRequest::<E>::from_spec(req).0.seismic_elements is None,
{
}

/// A plain request becomes what the Seismic request with that inner request and without elements
/// becomes.
pub proof fn law_plain_requests_have_no_elements<E>(req: TransactionRequest)
    ensures
        SignableSeismicTransactionRequest::<E>::from_spec(req)
            == SignableSeismicTransactionRequest::<E>::from_spec(
            SeismicTransactionRequest { inner: req, seismic_elements: None::<E> },
        ),
{
}

/// The Seismic elements do not influence the transaction environment: two requests with the same
/// inner request are turned into the same environment, or fail alike, where `convert` and `wrap`
/// give one result for one argument.
pub proof fn law_elements_do_not_reach_the_tx_env<E, T, S, F, Convert, Wrap>(
    first: SignableSeismicTransactionRequest<E>,
    second: SignableSeismicTransactionRequest<E>,
    convert: Convert,
    wrap: Wrap,
    first_outcome: Result<S, F>,
    second_outcome: Result<S, F>,
) where Convert: FnOnce(TransactionRequest) -> Result<T, F>, Wrap: FnOnce(T) -> S
    requires
        first.0.inner == second.0.inner,
        is_tx_env_outcome(convert, wrap, first.0.inner, first_outcome),
        is_tx_env_outcome(convert, wrap, second.0.inner, second_outcome),
        forall|x: Result<T, F>, y: Result<T, F>|
            #[trigger] convert.ensures((first.0.inner,), x) && #[trigger] convert.ensures(
                (first.0.inner,),
                y,
            ) ==> x == y,
        forall|base: T, x: S, y: S|
            #[trigger] wrap.ensures((base,), x) && #[trigger] wrap.ensures((base,), y) ==> x == y,
    ensures
        first_outcome == second_outcome,
{
    let inner = first.0.inner;
    match (first_outcome, second_outcome) {
        (Ok(x), Ok(y)) => {
            let p = choose|base: T| #[trigger] is_env_by_way_of(convert, wrap, inner, base, x);
            let q = choose|base: T| #[trigger] is_env_by_way_of(convert, wrap, inner, base, y);
            assert(Ok::<T, F>(p) == Ok::<T, F>(q));
        },
        (Ok(x), Err(e)) => {
            let p = choose|base: T| #[trigger] is_env_by_way_of(convert, wrap, inner, base, x);
            assert(Ok::<T, F>(p) == Err::<T, F>(e));
        },
        (Err(e), Ok(y)) => {
            let q = choose|base: T| #[trigger] is_env_by_way_of(convert, wrap, inner, base, y);
            assert(Err::<T, F>(e) == Ok::<T, F>(q));
        },
        (Err(e), Err(f)) => {
            assert(Err::<T, F>(e) == Err::<T, F>(f));
        },
    }
}

/// The transaction environment comes from the inner request as it is. Where `convert` can only
/// answer the inner request with `converted`, and `wrap` only a base with what `wrapped` says,
/// the outcome is `converted` with its base wrapped, or its error.
pub proof fn law_tx_env_comes_from_the_inner_request<E, T, S, F, Convert, Wrap>(
    signable: SignableSeismicTransactionRequest<E>,
    convert: Convert,
    wrap: Wrap,
    outcome: Result<S, F>,
    converted: Result<T, F>,
    wrapped: spec_fn(T) -> S,
) where Convert: FnOnce(TransactionRequest) -> Result<T, F>, Wrap: FnOnce(T) -> S
    requires
        is_tx_env_outcome(convert, wrap, signable.0.inner, outcome),
        forall|x: Result<T, F>| #[trigger]
            convert.ensures((signable.0.inner,), x) ==> x == converted,
        forall|base: T, x: S| #[trigger] wrap.ensures((base,), x) ==> x == wrapped(base),
    ensures
        converted matches Ok(base) ==> outcome == Ok::<S, F>(wrapped(base)),
        converted matches Err(e) ==> outcome == Err::<S, F>(e),
{
    match outcome {
        Ok(env) => {
            let base = choose|base: T|
                #[trigger] is_env_by_way_of(convert, wrap, signable.0.inner, base, env);
            assert(Ok::<T, F>(base) == converted);
        },
        Err(e) => {
            assert(Err::<T, F>(e) == converted);
        },
    }
}

} // verus!

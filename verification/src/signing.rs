//! The transaction that a signable request is turned into.
//!
//! Signing is not supported: every request, whatever it asks for and whoever signs it, becomes
//! the same placeholder, a legacy contract creation without code under an all-zero signature.

use crate::request::{SignableSeismicTransactionRequest, TxKind};
use crate::uint::U256;
use vstd::prelude::*;

verus! {

/// A legacy transaction.
#[derive(Debug, PartialEq, Eq)]
pub struct TxLegacy {
    pub chain_id: Option<u64>,
    pub nonce: u64,
    pub gas_price: u128,
    pub gas_limit: u64,
    pub to: TxKind,
    pub value: U256,
    pub input: Vec<u8>,
}

/// An ECDSA signature.
#[derive(Clone, Copy, Debug, PartialEq, Eq)]
pub struct Signature {
    pub r: U256,
    pub s: U256,
    pub y_parity: bool,
}

impl Signature {
    /// The signature with the given parts.
    pub fn new(r: U256, s: U256, y_parity: bool) -> (sig: Self)
        ensures
            sig == (Signature { r, s, y_parity }),
    {
        Signature { r, s, y_parity }
    }
}

/// A transaction with a signature and the hash that it goes by.
#[derive(Debug, PartialEq, Eq)]
pub struct Signed {
    pub tx: TxLegacy,
    pub signature: Signature,
    pub hash: [u8; 32],
}

impl Signed {
    /// Puts the parts together. Neither the signature nor the hash is checked.
    pub fn new_unchecked(tx: TxLegacy, signature: Signature, hash: [u8; 32]) -> (r: Self)
        ensures
            r == (Signed { tx, signature, hash }),
    {
        Signed { tx, signature, hash }
    }
}

/// The placeholder: what every request is turned into.
pub open spec fn is_placeholder(signed: Signed) -> bool {
    &&& signed.tx.chain_id == Some(1u64)
    &&& signed.tx.nonce == 0
    &&& signed.tx.gas_price == 20_000_000_000
    &&& signed.tx.gas_limit == 21_000
    &&& signed.tx.to == TxKind::Create
    &&& signed.tx.value@ == 0
    &&& signed.tx.input@ == Seq::<u8>::empty()
    &&& signed.signature.r@ == 0
    &&& signed.signature.s@ == 0
    &&& !signed.signature.y_parity
    &&& signed.hash@ == Seq::new(32, |i: int| 0u8)
}

impl<E> SignableSeismicTransactionRequest<E> {
    /// Builds the placeholder. Neither the request nor the signer matters, and it never fails.
    pub fn try_build_and_sign<S, F>(self, _signer: S) -> (r: Result<Signed, F>)
        ensures
            r matches Ok(signed) && is_placeholder(signed),
    {
        let tx = TxLegacy {
            chain_id: Some(1),
            nonce: 0,
            gas_price: 20_000_000_000u128,
            gas_limit: 21_000,
            to: TxKind::Create,
            value: U256::zero(),
            input: Vec::new(),
        };
        let signature = Signature::new(U256::zero(), U256::zero(), false);
        let hash: [u8; 32] = [0u8; 32];
        assert(hash@ =~= Seq::new(32, |i: int| 0u8));
        Ok(Signed::new_unchecked(tx, signature, hash))
    }
}

/// The placeholder moves nothing and proves nothing: it is a contract creation on chain 1 without
/// value and without code, at 20 gwei and the gas of a plain transfer, and every limb of its
/// signature and every byte of its hash is zero.
pub proof fn law_placeholder_is_empty(signed: Signed)
    requires
        is_placeholder(signed),
    ensures
        signed.tx.chain_id == Some(1u64),
        signed.tx.nonce == 0,
        signed.tx.gas_price == 20 * 1_000_000_000,
        signed.tx.gas_limit == 21_000,
        signed.tx.to is Create,
        signed.tx.input@.len() == 0,
        forall|i: int| 0 <= i < 4 ==> signed.tx.value.limbs@[i] == 0,
        forall|i: int| 0 <= i < 4 ==> signed.signature.r.limbs@[i] == 0,
        forall|i: int| 0 <= i < 4 ==> signed.signature.s.limbs@[i] == 0,
        !signed.signature.y_parity,
        forall|i: int| 0 <= i < 32 ==> signed.hash@[i] == 0,
{
}

/// There is one placeholder only: what two requests are turned into agrees in every part.
pub proof fn law_requests_are_signed_alike(first: Signed, second: Signed)
    requires
        is_placeholder(first),
        is_placeholder(second),
    ensures
        first.signature == second.signature,
        first.hash == second.hash,
        first.tx.input@ == second.tx.input@,
        (TxLegacy { input: second.tx.input, ..first.tx }) == second.tx,
{
    crate::uint::law_u256_canonical(first.tx.value, second.tx.value);
    crate::uint::law_u256_canonical(first.signature.r, second.signature.r);
    crate::uint::law_u256_canonical(first.signature.s, second.signature.s);
    assert(first.hash =~= second.hash);
}

} // verus!

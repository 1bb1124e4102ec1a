//! Transaction requests as the `eth_` endpoint receives and makes them.

use crate::uint::U256;
use vstd::prelude::*;
use vstd::std_specs::convert::FromSpecImpl;

verus! {

/// Declares `alloy_eips::eip7594::BlobTransactionSidecarVariant`, which requests carry unread.
#[verifier::external_type_specification]
#[verifier::external_body]
pub struct ExBlobTransactionSidecarVariant(alloy_eips::eip7594::BlobTransactionSidecarVariant);

/// Declares `alloy_eips::eip7702::SignedAuthorization`, which requests carry unread.
#[verifier::external_type_specification]
#[verifier::external_body]
pub struct ExSignedAuthorization(alloy_eips::eip7702::SignedAuthorization);

/// A 20-byte account address.
#[derive(Clone, Copy, Debug, PartialEq, Eq)]
pub struct Address {
    pub bytes: [u8; 20],
}

impl View for Address {
    type V = Seq<u8>;

    open spec fn view(&self) -> Seq<u8> {
        self.bytes@
    }
}

impl Address {
    /// The bytes of the address.
    pub fn as_slice(&self) -> (r: &[u8])
        ensures
            r@ == self@,
    {
        &self.bytes
    }
}

/// What a transaction is sent to.
#[derive(Clone, Copy, Debug, PartialEq, Eq)]
pub enum TxKind {
    /// It creates a contract.
    Create,
    /// It calls the account at the address.
    Call(Address),
}

/// An account and the storage slots of it that a transaction announces that it will touch.
#[derive(Clone, Debug, PartialEq, Eq)]
pub struct AccessListItem {
    pub address: Address,
    pub storage_keys: Vec<[u8; 32]>,
}

/// The input of a request. `data` is the older name of `input`.
#[derive(Clone, Debug, PartialEq, Eq)]
pub struct TransactionInput {
    pub input: Option<Vec<u8>>,
    pub data: Option<Vec<u8>>,
}

/// A transaction request with every field optional.
#[derive(Clone, Debug, PartialEq, Eq)]
pub struct TransactionRequest {
    pub from: Option<Address>,
    pub to: Option<TxKind>,
    pub gas_price: Option<u128>,
    pub max_fee_per_gas: Option<u128>,
    pub max_priority_fee_per_gas: Option<u128>,
    pub max_fee_per_blob_gas: Option<u128>,
    pub gas: Option<u64>,
    pub value: Option<U256>,
    pub input: TransactionInput,
    pub nonce: Option<u64>,
    pub chain_id: Option<u64>,
    pub access_list: Option<Vec<AccessListItem>>,
    pub transaction_type: Option<u8>,
    pub blob_versioned_hashes: Option<Vec<[u8; 32]>>,
    pub sidecar: Option<alloy_eips::eip7594::BlobTransactionSidecarVariant>,
    pub authorization_list: Option<Vec<alloy_eips::eip7702::SignedAuthorization>>,
}

impl TransactionRequest {
    /// The request with no field set.
    pub open spec fn unset() -> Self {
        TransactionRequest {
            from: None,
            to: None,
            gas_price: None,
            max_fee_per_gas: None,
            max_priority_fee_per_gas: None,
            max_fee_per_blob_gas: None,
            gas: None,
            value: None,
            input: TransactionInput { input: None, data: None },
            nonce: None,
            chain_id: None,
            access_list: None,
            transaction_type: None,
            blob_versioned_hashes: None,
            sidecar: None,
            authorization_list: None,
        }
    }
}

impl Default for TransactionRequest {
    fn default() -> (r: Self)
        ensures
            r == Self::unset(),
    {
        TransactionRequest {
            from: None,
            to: None,
            gas_price: None,
            max_fee_per_gas: None,
            max_priority_fee_per_gas: None,
            max_fee_per_blob_gas: None,
            gas: None,
            value: None,
            input: TransactionInput { input: None, data: None },
            nonce: None,
            chain_id: None,
            access_list: None,
            transaction_type: None,
            blob_versioned_hashes: None,
            sidecar: None,
            authorization_list: None,
        }
    }
}

/// A transaction request with the elements `E` that a Seismic transaction adds to it.
#[derive(Clone, Debug, PartialEq, Eq)]
pub struct SeismicTransactionRequest<E> {
    pub inner: TransactionRequest,
    pub seismic_elements: Option<E>,
}

/// A Seismic transaction request that the node can turn into a signed transaction.
#[derive(Clone, Debug, PartialEq, Eq)]
pub struct SignableSeismicTransactionRequest<E>(pub SeismicTransactionRequest<E>);

impl<E> From<SeismicTransactionRequest<E>> for SignableSeismicTransactionRequest<E> {
    fn from(req: SeismicTransactionRequest<E>) -> (r: Self) {
        SignableSeismicTransactionRequest(req)
    }
}

impl<E> FromSpecImpl<SeismicTransactionRequest<E>> for SignableSeismicTransactionRequest<E> {
    open spec fn obeys_from_spec() -> bool {
        true
    }

    open spec fn from_spec(req: SeismicTransactionRequest<E>) -> Self {
        SignableSeismicTransactionRequest(req)
    }
}

impl<E> From<TransactionRequest> for SignableSeismicTransactionRequest<E> {
    fn from(req: TransactionRequest) -> (r: Self) {
        SignableSeismicTransactionRequest(
            SeismicTransactionRequest { inner: req, seismic_elements: None },
        )
    }
}

impl<E> FromSpecImpl<TransactionRequest> for SignableSeismicTransactionRequest<E> {
    open spec fn obeys_from_spec() -> bool {
        true
    }

    open spec fn from_spec(req: TransactionRequest) -> Self {
        SignableSeismicTransactionRequest(
            SeismicTransactionRequest { inner: req, seismic_elements: None },
        )
    }
}

impl<E> AsRef<TransactionRequest> for SignableSeismicTransactionRequest<E> {
    fn as_ref(&self) -> (r: &TransactionRequest)
        ensures
            *r == self.0.inner,
    {
        &self.0.inner
    }
}

impl<E> AsMut<TransactionRequest> for SignableSeismicTransactionRequest<E> {
    fn as_mut(&mut self) -> (r: &mut TransactionRequest)
        ensures
            *r == old(self).0.inner,
            final(self).0.inner == *final(r),
            final(self).0.seismic_elements == old(self).0.seismic_elements,
    {
        &mut self.0.inner
    }
}

/// `convert` can make `base` from the request, and `wrap` can make `env` from `base`.
pub open spec fn is_env_by_way_of<T, S, F, Convert, Wrap>(
    convert: Convert,
    wrap: Wrap,
    request: TransactionRequest,
    base: T,
    env: S,
) -> bool where Convert: FnOnce(TransactionRequest) -> Result<T, F>, Wrap: FnOnce(T) -> S {
    convert.ensures((request,), Ok(base)) && wrap.ensures((base,), env)
}

/// What turning a request into a transaction environment can give: on success what `wrap` makes
/// of a base that `convert` makes from the request, and on failure an error of `convert`.
pub open spec fn is_tx_env_outcome<T, S, F, Convert, Wrap>(
    convert: Convert,
    wrap: Wrap,
    request: TransactionRequest,
    outcome: Result<S, F>,
) -> bool where Convert: FnOnce(TransactionRequest) -> Result<T, F>, Wrap: FnOnce(T) -> S {
    match outcome {
        Ok(env) => exists|base: T|
            #[trigger] is_env_by_way_of(convert, wrap, request, base, env),
        Err(e) => convert.ensures((request,), Err(e)),
    }
}

impl<E> SignableSeismicTransactionRequest<E> {
    /// Turns the request into a transaction environment. `convert` makes the base environment
    /// from the inner request and may fail; `wrap` makes the Seismic environment from the base.
    /// The Seismic elements reach neither.
    pub fn try_into_tx_env<T, S, F, Convert, Wrap>(self, convert: Convert, wrap: Wrap) -> (r:
        Result<S, F>) where
        Convert: FnOnce(TransactionRequest) -> Result<T, F>,
        Wrap: FnOnce(T) -> S,

        requires
            convert.requires((self.0.inner,)),
            forall|base: T|
                convert.ensures((self.0.inner,), Ok(base)) ==> #[trigger] wrap.requires((base,)),
        ensures
            is_tx_env_outcome(convert, wrap, self.0.inner, r),
    {
        let ghost inner = self.0.inner;
        match convert(self.0.inner) {
            Ok(base) => {
                let r: Result<S, F> = Ok(wrap(base));
                assert(is_env_by_way_of(convert, wrap, inner, base, r->Ok_0));
                r
            },
            Err(e) => Err(e),
        }
    }
}

} // verus!

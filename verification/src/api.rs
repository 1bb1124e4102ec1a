//! The endpoint itself and its builder.

use std::marker::PhantomData;
use std::sync::Arc;
use vstd::prelude::*;

verus! {

/// How many accounts a development node signs for.
pub const DEV_ACCOUNT_COUNT: usize = 20;

/// The network whose transaction requests are
/// [`SignableSeismicTransactionRequest`](crate::request::SignableSeismicTransactionRequest)s.
#[derive(Debug, Clone, Copy)]
pub struct SeismicRethWithSignable;

/// What can stand behind a [`SeismicEthApi`].
pub trait SeismicNodeCore {

}

impl<T> SeismicNodeCore for T {

}

/// The `eth_` endpoint: a shared handle on the backend `N` that holds what it is served from.
pub struct SeismicEthApi<N: SeismicNodeCore> {
    pub inner: Arc<N>,
}

impl<N: SeismicNodeCore> Clone for SeismicEthApi<N> {
    /// Another handle on the same backend.
    fn clone(&self) -> (r: Self)
        ensures
            r == *self,
    {
        SeismicEthApi { inner: self.inner.clone() }
    }
}

impl<N: SeismicNodeCore> SeismicEthApi<N> {
    /// The backend.
    pub fn eth_api(&self) -> (r: &N)
        ensures
            *r == *self.inner,
    {
        &self.inner
    }

    /// A builder for the network `Rpc`.
    pub fn builder<Rpc>() -> (r: SeismicEthApiBuilder<Rpc>)
        ensures
            r == SeismicEthApiBuilder::<Rpc>::fresh(),
    {
        SeismicEthApiBuilder::new()
    }

    /// The endpoint as debug output shows it, which says nothing of the backend.
    pub fn debug_text(&self) -> (r: String)
        ensures
            r@ == "SeismicEthApi { .. }"@,
    {
        "SeismicEthApi { .. }".to_string()
    }

    /// Replaces the signers of a node by as many random ones as a development node has.
    pub fn with_dev_accounts<S, Random>(signers: &mut Vec<S>, random_signers: Random) where
        Random: FnOnce(usize) -> Vec<S>,

        requires
            random_signers.requires((DEV_ACCOUNT_COUNT,)),
        ensures
            random_signers.ensures((DEV_ACCOUNT_COUNT,), *final(signers)),
    {
        *signers = random_signers(DEV_ACCOUNT_COUNT);
    }
}

/// Builds a [`SeismicEthApi`] for the network `NetworkT`.
#[derive(Debug)]
pub struct SeismicEthApiBuilder<NetworkT> {
    _nt: PhantomData<NetworkT>,
}

impl<NetworkT> Default for SeismicEthApiBuilder<NetworkT> {
    fn default() -> (r: Self)
        ensures
            r == Self::fresh(),
    {
        SeismicEthApiBuilder { _nt: PhantomData }
    }
}

impl<NetworkT> SeismicEthApiBuilder<NetworkT> {
    /// The builder as it is made.
    pub closed spec fn fresh() -> Self {
        SeismicEthApiBuilder { _nt: PhantomData }
    }

    /// A builder.
    pub fn new() -> (r: Self)
        ensures
            r == Self::fresh(),
    {
        SeismicEthApiBuilder { _nt: PhantomData }
    }

    /// Puts the endpoint on top of a backend.
    pub fn build_eth_api<N: SeismicNodeCore>(self, eth_api: N) -> (r: SeismicEthApi<N>)
        ensures
            *r.inner == eth_api,
    {
        SeismicEthApi { inner: Arc::new(eth_api) }
    }
}

} // verus!

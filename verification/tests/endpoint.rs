use seismic_rpc::api::{
    SeismicEthApi, SeismicEthApiBuilder, SeismicNodeCore, SeismicRethWithSignable,
    DEV_ACCOUNT_COUNT,
};
use std::sync::Arc;

#[test]
fn builder_puts_the_endpoint_on_the_backend() {
    let api = SeismicEthApi::<String>::builder::<SeismicRethWithSignable>()
        .build_eth_api("backend".to_string());
    assert_eq!(api.eth_api(), "backend");
}

#[test]
fn all_builders_build_alike() {
    let made: SeismicEthApiBuilder<u8> = SeismicEthApiBuilder::new();
    let default: SeismicEthApiBuilder<u8> = Default::default();
    assert_eq!(made.build_eth_api(3u64).eth_api(), default.build_eth_api(3u64).eth_api());
}

#[test]
fn clones_share_the_backend() {
    let api = SeismicEthApiBuilder::<()>::new().build_eth_api(vec![1, 2, 3]);
    let other = api.clone();
    assert!(Arc::ptr_eq(&api.inner, &other.inner));
    assert_eq!(other.eth_api(), &vec![1, 2, 3]);
}

#[test]
fn debug_text_hides_the_backend() {
    let api = SeismicEthApiBuilder::<()>::new().build_eth_api("secret");
    assert_eq!(api.debug_text(), "SeismicEthApi { .. }");
}

#[test]
fn dev_accounts_replace_the_signers() {
    let mut signers = vec!["old".to_string()];
    SeismicEthApi::<()>::with_dev_accounts(&mut signers, |count| {
        let mut fresh = vec![];
        for i in 0..count {
            fresh.push(format!("dev{}", i));
        }
        fresh
    });
    assert_eq!(signers.len(), 20);
    assert_eq!(signers.len(), DEV_ACCOUNT_COUNT);
    assert_eq!(signers[0], "dev0");
    assert_eq!(signers[19], "dev19");
}

fn is_core<N: SeismicNodeCore>(_node: &N) -> bool {
    true
}

#[test]
fn anything_can_stand_behind_the_endpoint() {
    assert!(is_core(&5u8));
    assert!(is_core(&"node"));
}

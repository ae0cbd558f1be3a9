use bria::fees::blockstream::{BlockstreamClient, BlockstreamConfig};
use bria::fees::client::FeesClient;
use bria::fees::config::FeesConfig;
use bria::fees::electrum::ElectrumFeeEstimator;
use bria::fees::mempool_space::{MempoolSpaceClient, MempoolSpaceConfig, RecommendedFees};
use bria::fees::retry_bounds;
use bria::primitives::TxPriority;

#[test]
fn fee_configs_default_to_public_services() {
    let m = MempoolSpaceConfig::default();
    assert_eq!(m.url, "https://mempool.tk7.mempool.space");
    assert_eq!((m.timeout, m.number_of_retries), (3, 2));
    let b = BlockstreamConfig::default();
    assert_eq!(b.url, "https://blockstream.info");
    assert_eq!((b.timeout, b.number_of_retries), (3, 2));
    let c = FeesConfig::default();
    assert_eq!(c.mempool_space.url, m.url);
    assert_eq!(c.blockstream.url, b.url);
}

#[test]
fn fee_urls() {
    let c = FeesClient::new(FeesConfig::default());
    assert_eq!(c.mempool_space().fees_url(), "https://mempool.tk7.mempool.space/api/v1/fees/recommended");
    assert_eq!(c.blockstream().fees_url(), "https://blockstream.info/api/fee-estimates");
    let m = MempoolSpaceClient::new(MempoolSpaceConfig { url: "http://m".to_string(), timeout: 9, number_of_retries: 1 });
    assert_eq!(m.fees_url(), "http://m/api/v1/fees/recommended");
    assert_eq!((m.timeout(), m.number_of_retries()), (9, 1));
    let b = BlockstreamClient::new(BlockstreamConfig { url: "http://b".to_string(), timeout: 7, number_of_retries: 4 });
    assert_eq!(b.fees_url(), "http://b/api/fee-estimates");
    assert_eq!((b.timeout(), b.number_of_retries()), (7, 4));
}

#[test]
fn fee_estimate_for_each_priority() {
    let fees = RecommendedFees { fastest_fee: 30, half_hour_fee: 20, hour_fee: 10 };
    assert_eq!(MempoolSpaceClient::fee_for_priority(&fees, TxPriority::NextBlock), 30);
    assert_eq!(MempoolSpaceClient::fee_for_priority(&fees, TxPriority::HalfHour), 20);
    assert_eq!(MempoolSpaceClient::fee_for_priority(&fees, TxPriority::OneHour), 10);
    assert_eq!(BlockstreamClient::estimate_key(TxPriority::NextBlock), "1");
    assert_eq!(BlockstreamClient::estimate_key(TxPriority::HalfHour), "3");
    assert_eq!(BlockstreamClient::estimate_key(TxPriority::OneHour), "6");
    assert_eq!(ElectrumFeeEstimator::target_blocks(TxPriority::HalfHour), 3);
    assert_eq!(TxPriority::OneHour.n_blocks(), 6);
}

#[test]
fn fallback_only_when_the_first_estimate_fails() {
    assert!(!FeesClient::needs_fallback::<u64, ()>(&Ok(3)));
    assert!(FeesClient::needs_fallback::<u64, ()>(&Err(())));
    assert_eq!(retry_bounds(), (1, 1800));
    let e = ElectrumFeeEstimator::new("ssl://electrum:50002".to_string());
    assert_eq!(e.server_url(), "ssl://electrum:50002");
}

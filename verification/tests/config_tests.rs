use process_orchestrator::configs::AirdropTokens;
use process_orchestrator::configs::AppConfig;
use process_orchestrator::configs::ConfigCore;
use process_orchestrator::configs::ConfigWallet;

fn legacy_config() -> AppConfig {
    AppConfig {
        p2pool_enabled: true,
        use_tor: true,
        allow_telemetry: false,
        last_binaries_update_timestamp: 1_700_000_000,
        anon_id: "anon-123".to_string(),
        should_auto_launch: true,
        mmproxy_use_monero_fail: true,
        mmproxy_monero_nodes: vec!["node-a".to_string(), "node-b".to_string()],
        auto_update: false,
        p2pool_stats_server_port: Some(19000),
        pre_release: true,
        last_changelog_version: "1.2.3".to_string(),
        airdrop_tokens: Some(AirdropTokens {
            token: "airdrop-access".to_string(),
            refresh_token: "airdrop-refresh".to_string(),
        }),
        keyring_accessed: true,
        monero_address: "4ABCD".to_string(),
        monero_address_is_generated: true,
    }
}

#[test]
fn core_config_defaults_match_a_fresh_install() {
    let config = ConfigCore::new();
    let content = config.get_content();
    assert_eq!(content.created_at, 0);
    assert!(!content.is_p2pool_enabled);
    assert!(!content.use_tor);
    assert!(content.allow_telemetry);
    assert!(content.last_binaries_update_timestamp.is_none());
    assert!(content.anon_id.is_none());
    assert!(!content.should_auto_launch);
    assert!(!content.mmproxy_use_monero_failover);
    assert!(content.mmproxy_monero_nodes.is_empty());
    assert!(content.auto_update);
    assert!(content.p2pool_stats_server_port.is_none());
    assert!(!content.pre_release);
    assert!(content.last_changelog_version.is_none());
    assert!(content.airdrop_tokens.is_none());
    assert_eq!(ConfigCore::get_name(), "core_config");
}

#[test]
fn core_config_migrates_every_field() {
    let mut config = ConfigCore::new();
    config.migrate_old_config(legacy_config(), 1_800_000_000);
    let content = config.get_content();
    assert_eq!(content.created_at, 1_800_000_000);
    assert!(content.is_p2pool_enabled);
    assert!(content.use_tor);
    assert!(!content.allow_telemetry);
    assert_eq!(content.last_binaries_update_timestamp, Some(1_700_000_000));
    assert_eq!(content.anon_id.as_deref(), Some("anon-123"));
    assert!(content.should_auto_launch);
    assert!(content.mmproxy_use_monero_failover);
    assert_eq!(content.mmproxy_monero_nodes, vec!["node-a".to_string(), "node-b".to_string()]);
    assert!(!content.auto_update);
    assert_eq!(content.p2pool_stats_server_port, Some(19000));
    assert!(content.pre_release);
    assert_eq!(content.last_changelog_version.as_deref(), Some("1.2.3"));
    assert!(content.airdrop_tokens.is_some());
}

#[test]
fn core_config_content_can_be_edited_in_place() {
    let mut config = ConfigCore::new();
    let content = config.get_content_mut();
    content.use_tor = true;
    content.pre_release = true;
    assert!(config.get_content().use_tor);
    assert!(config.get_content().pre_release);
}

#[test]
fn wallet_config_defaults_and_migration() {
    let config = ConfigWallet::new();
    let content = config.get_content();
    assert_eq!(content.created_at, 0);
    assert_eq!(content.monero_address, "");
    assert!(!content.monero_address_is_generated);
    assert!(!content.keyring_accessed);
    assert_eq!(ConfigWallet::get_name(), "wallet_config");

    let mut config = ConfigWallet::new();
    config.migrate_old_config(legacy_config(), 1_800_000_000);
    let content = config.get_content();
    assert_eq!(content.created_at, 1_800_000_000);
    assert_eq!(content.monero_address, "4ABCD");
    assert!(content.monero_address_is_generated);
    assert!(content.keyring_accessed);
}

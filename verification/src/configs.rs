//! Persisted configuration records and their migration from the legacy
//! single-file configuration.
//!
//! Reading and writing configuration files is the runtime's work; the
//! records, their defaults, and the field-for-field migration from the
//! legacy format are decided here. Timestamps are seconds since the epoch
//! and are supplied by the caller, so record contents are a function of
//! their inputs.

use vstd::prelude::*;

verus! {

/// Bearer tokens of the airdrop account, when one is linked.
#[derive(Clone)]
pub struct AirdropTokens {
    pub token: String,
    pub refresh_token: String,
}

/// The legacy single-file application configuration, as far as the split
/// records migrate it.
pub struct AppConfig {
    pub p2pool_enabled: bool,
    pub use_tor: bool,
    pub allow_telemetry: bool,
    pub last_binaries_update_timestamp: u64,
    pub anon_id: String,
    pub should_auto_launch: bool,
    pub mmproxy_use_monero_fail: bool,
    pub mmproxy_monero_nodes: Vec<String>,
    pub auto_update: bool,
    pub p2pool_stats_server_port: Option<u16>,
    pub pre_release: bool,
    pub last_changelog_version: String,
    pub airdrop_tokens: Option<AirdropTokens>,
    pub keyring_accessed: bool,
    pub monero_address: String,
    pub monero_address_is_generated: bool,
}

/// The core slice of the persisted configuration.
pub struct ConfigCoreContent {
    pub created_at: u64,
    pub is_p2pool_enabled: bool,
    pub use_tor: bool,
    pub allow_telemetry: bool,
    pub last_binaries_update_timestamp: Option<u64>,
    pub anon_id: Option<String>,
    pub should_auto_launch: bool,
    pub mmproxy_use_monero_failover: bool,
    pub mmproxy_monero_nodes: Vec<String>,
    pub auto_update: bool,
    pub p2pool_stats_server_port: Option<u16>,
    pub pre_release: bool,
    pub last_changelog_version: Option<String>,
    pub airdrop_tokens: Option<AirdropTokens>,
}

impl Default for ConfigCoreContent {
    /// A fresh record: telemetry and auto-update on, everything else off or
    /// absent. The creation timestamp starts at the epoch origin until a
    /// caller with access to a clock sets it.
    fn default() -> (content: Self)
        ensures
            content.created_at == 0,
            !content.is_p2pool_enabled,
            !content.use_tor,
            content.allow_telemetry,
            content.last_binaries_update_timestamp is None,
            content.anon_id is None,
            !content.should_auto_launch,
            !content.mmproxy_use_monero_failover,
            content.mmproxy_monero_nodes@.len() == 0,
            content.auto_update,
            content.p2pool_stats_server_port is None,
            !content.pre_release,
            content.last_changelog_version is None,
            content.airdrop_tokens is None,
    {
        ConfigCoreContent {
            created_at: 0,
            is_p2pool_enabled: false,
            use_tor: false,
            allow_telemetry: true,
            last_binaries_update_timestamp: None,
            anon_id: None,
            should_auto_launch: false,
            mmproxy_use_monero_failover: false,
            mmproxy_monero_nodes: Vec::new(),
            auto_update: true,
            p2pool_stats_server_port: None,
            pre_release: false,
            last_changelog_version: None,
            airdrop_tokens: None,
        }
    }
}

/// Owner of the core configuration record.
pub struct ConfigCore {
    content: ConfigCoreContent,
}

impl ConfigCore {
    /// The record currently held.
    pub closed spec fn content_view(self) -> ConfigCoreContent {
        self.content
    }

    pub fn new() -> (config: Self)
        ensures
            config.content_view().created_at == 0,
            !config.content_view().is_p2pool_enabled,
            !config.content_view().use_tor,
            config.content_view().allow_telemetry,
            config.content_view().last_binaries_update_timestamp is None,
            config.content_view().anon_id is None,
            !config.content_view().should_auto_launch,
            !config.content_view().mmproxy_use_monero_failover,
            config.content_view().mmproxy_monero_nodes@.len() == 0,
            config.content_view().auto_update,
            config.content_view().p2pool_stats_server_port is None,
            !config.content_view().pre_release,
            config.content_view().last_changelog_version is None,
            config.content_view().airdrop_tokens is None,
    {
        ConfigCore { content: ConfigCoreContent::default() }
    }

    /// The file-name stem this record is persisted under.
    pub fn get_name() -> (name: String)
        ensures
            name@ == "core_config"@,
    {
        "core_config".to_owned()
    }

    pub fn get_content(&self) -> (content: &ConfigCoreContent)
        ensures
            *content == self.content_view(),
    {
        &self.content
    }

    pub fn get_content_mut(&mut self) -> (content: &mut ConfigCoreContent)
        ensures
            *content == old(self).content_view(),
            final(self).content_view() == *final(content),
    {
        &mut self.content
    }

    /// Take every migrated field over from the legacy configuration,
    /// stamping the record with the supplied creation time (seconds since
    /// the epoch).
    pub fn migrate_old_config(&mut self, old_config: AppConfig, now: u64)
        ensures
            final(self).content_view().created_at == now,
            final(self).content_view().is_p2pool_enabled == old_config.p2pool_enabled,
            final(self).content_view().use_tor == old_config.use_tor,
            final(self).content_view().allow_telemetry == old_config.allow_telemetry,
            final(self).content_view().last_binaries_update_timestamp == Some(
                old_config.last_binaries_update_timestamp,
            ),
            final(self).content_view().anon_id matches Some(anon_id) && anon_id@
                == old_config.anon_id@,
            final(self).content_view().should_auto_launch == old_config.should_auto_launch,
            final(self).content_view().mmproxy_use_monero_failover
                == old_config.mmproxy_use_monero_fail,
            final(self).content_view().mmproxy_monero_nodes == old_config.mmproxy_monero_nodes,
            final(self).content_view().auto_update == old_config.auto_update,
            final(self).content_view().p2pool_stats_server_port
                == old_config.p2pool_stats_server_port,
            final(self).content_view().pre_release == old_config.pre_release,
            final(self).content_view().last_changelog_version matches Some(version) && version@
                == old_config.last_changelog_version@,
            final(self).content_view().airdrop_tokens == old_config.airdrop_tokens,
    {
        self.content = ConfigCoreContent {
            created_at: now,
            is_p2pool_enabled: old_config.p2pool_enabled,
            use_tor: old_config.use_tor,
            allow_telemetry: old_config.allow_telemetry,
            last_binaries_update_timestamp: Some(old_config.last_binaries_update_timestamp),
            anon_id: Some(old_config.anon_id),
            should_auto_launch: old_config.should_auto_launch,
            mmproxy_use_monero_failover: old_config.mmproxy_use_monero_fail,
            mmproxy_monero_nodes: old_config.mmproxy_monero_nodes,
            auto_update: old_config.auto_update,
            p2pool_stats_server_port: old_config.p2pool_stats_server_port,
            pre_release: old_config.pre_release,
            last_changelog_version: Some(old_config.last_changelog_version),
            airdrop_tokens: old_config.airdrop_tokens,
        };
    }
}

/// The wallet slice of the persisted configuration.
pub struct ConfigWalletContent {
    pub created_at: u64,
    pub monero_address: String,
    pub monero_address_is_generated: bool,
    pub keyring_accessed: bool,
}

impl Default for ConfigWalletContent {
    /// A fresh record: empty address, nothing generated, keyring untouched.
    /// The creation timestamp starts at the epoch origin until a caller with
    /// access to a clock sets it.
    fn default() -> (content: Self)
        ensures
            content.created_at == 0,
            content.monero_address@.len() == 0,
            !content.monero_address_is_generated,
            !content.keyring_accessed,
    {
        ConfigWalletContent {
            created_at: 0,
            monero_address: String::new(),
            monero_address_is_generated: false,
            keyring_accessed: false,
        }
    }
}

/// Owner of the wallet configuration record.
pub struct ConfigWallet {
    content: ConfigWalletContent,
}

impl ConfigWallet {
    /// The record currently held.
    pub closed spec fn content_view(self) -> ConfigWalletContent {
        self.content
    }

    pub fn new() -> (config: Self)
        ensures
            config.content_view().created_at == 0,
            config.content_view().monero_address@.len() == 0,
            !config.content_view().monero_address_is_generated,
            !config.content_view().keyring_accessed,
    {
        ConfigWallet { content: ConfigWalletContent::default() }
    }

    /// The file-name stem this record is persisted under.
    pub fn get_name() -> (name: String)
        ensures
            name@ == "wallet_config"@,
    {
        "wallet_config".to_owned()
    }

    pub fn get_content(&self) -> (content: &ConfigWalletContent)
        ensures
            *content == self.content_view(),
    {
        &self.content
    }

    pub fn get_content_mut(&mut self) -> (content: &mut ConfigWalletContent)
        ensures
            *content == old(self).content_view(),
            final(self).content_view() == *final(content),
    {
        &mut self.content
    }

    /// Take every migrated field over from the legacy configuration,
    /// stamping the record with the supplied creation time (seconds since
    /// the epoch).
    pub fn migrate_old_config(&mut self, old_config: AppConfig, now: u64)
        ensures
            final(self).content_view().created_at == now,
            final(self).content_view().monero_address@ == old_config.monero_address@,
            final(self).content_view().monero_address_is_generated
                == old_config.monero_address_is_generated,
            final(self).content_view().keyring_accessed == old_config.keyring_accessed,
    {
        self.content = ConfigWalletContent {
            created_at: now,
            monero_address: old_config.monero_address,
            monero_address_is_generated: old_config.monero_address_is_generated,
            keyring_accessed: old_config.keyring_accessed,
        };
    }
}

} // verus!

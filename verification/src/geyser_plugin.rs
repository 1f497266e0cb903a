//! The plugin-facing hook: configuration handling and the per-callback
//! decisions that do not touch the host's wire types.
//!
//! The host-facing layer reads and parses the configuration file and
//! extracts raw event payloads; the hook here owns what can be decided on
//! plain values: which configuration takes effect, which notifications are
//! wanted, and how an account update is summarized or refused.

use vstd::prelude::*;

verus! {

use vstd::string::StringExecFns;

use crate::base58::base58_of;
use crate::base58::encode_base58;
use crate::events::AccountUpdate;

/// The plugin's configuration: an optional sink path, and an optional list
/// of account-owner filters that the core hands through uninterpreted.
#[derive(Debug, Clone, PartialEq, Eq)]
pub struct GeyserPluginConfig {
    pub output_file: Option<String>,
    pub account_owners_filter: Option<Vec<String>>,
}

/// The configuration that takes effect for a parse outcome: what was
/// parsed, or the default when the configuration section was missing,
/// malformed or not an object.
pub open spec fn effective_config(parsed: Option<GeyserPluginConfig>) -> GeyserPluginConfig {
    match parsed {
        Some(c) => c,
        None => GeyserPluginConfig { output_file: None, account_owners_filter: None },
    }
}

impl Default for GeyserPluginConfig {
    /// An empty configuration: no sink path, no owner filter.
    fn default() -> (c: GeyserPluginConfig)
        ensures
            c == (GeyserPluginConfig { output_file: None, account_owners_filter: None }),
    {
        GeyserPluginConfig { output_file: None, account_owners_filter: None }
    }
}

/// Why a hook callback refuses an event.
#[derive(Debug, Clone, Copy, PartialEq, Eq, Structural)]
pub enum HookError {
    /// The first account-update wire version cannot be read.
    UnsupportedAccountVersion,
}

/// The plugin hook: holds the configuration once loaded.
#[derive(Debug)]
pub struct GeyserPluginHook {
    pub config: Option<GeyserPluginConfig>,
}

impl Default for GeyserPluginHook {
    /// A hook with no configuration loaded yet.
    fn default() -> (h: GeyserPluginHook)
        ensures
            h.config is None,
    {
        GeyserPluginHook { config: None }
    }
}

impl GeyserPluginHook {
    /// The plugin's name, as reported to the host.
    pub fn name(&self) -> (r: &'static str)
        ensures
            r@ == "GeyserPluginHook"@,
    {
        "GeyserPluginHook"
    }

    /// Resolves a configuration-parse outcome: a parsed section stands,
    /// anything else falls back to the default.
    pub fn extract_config(parsed: Option<GeyserPluginConfig>) -> (c: GeyserPluginConfig)
        ensures
            c == effective_config(parsed),
    {
        match parsed {
            Some(c) => c,
            None => GeyserPluginConfig::default(),
        }
    }

    /// Takes the configuration-parse outcome on load and records the
    /// configuration that takes effect.
    pub fn load_config(&mut self, parsed: Option<GeyserPluginConfig>)
        ensures
            final(self).config == Some(effective_config(parsed)),
    {
        self.config = Some(Self::extract_config(parsed));
    }

    /// Handles an account update: the unsupported first version is refused
    /// with an error, a supported one is summarized as
    /// `pubkey: <base58>, owner: <base58>`.
    pub fn update_account(&self, account: &AccountUpdate) -> (r: Result<String, HookError>)
        ensures
            account is V1 <==> r is Err,
            r matches Err(e) ==> e == HookError::UnsupportedAccountVersion,
            account matches AccountUpdate::V2 { pubkey, owner, .. } ==> (r matches Ok(s) && s@
                == "pubkey: "@ + base58_of(pubkey@) + ", owner: "@ + base58_of(owner@)),
            account matches AccountUpdate::V3 { pubkey, owner, .. } ==> (r matches Ok(s) && s@
                == "pubkey: "@ + base58_of(pubkey@) + ", owner: "@ + base58_of(owner@)),
    {
        match account {
            AccountUpdate::V1 => Err(HookError::UnsupportedAccountVersion),
            AccountUpdate::V2 { pubkey, owner, .. } => {
                let mut s = String::from_str("pubkey: ");
                s.append(encode_base58(pubkey.as_slice()).as_str());
                s.append(", owner: ");
                s.append(encode_base58(owner.as_slice()).as_str());
                Ok(s)
            },
            AccountUpdate::V3 { pubkey, owner, .. } => {
                let mut s = String::from_str("pubkey: ");
                s.append(encode_base58(pubkey.as_slice()).as_str());
                s.append(", owner: ");
                s.append(encode_base58(owner.as_slice()).as_str());
                Ok(s)
            },
        }
    }

    /// The plugin wants account-data notifications.
    pub fn account_data_notifications_enabled(&self) -> (r: bool)
        ensures
            r,
    {
        true
    }

    /// The plugin wants transaction notifications.
    pub fn transaction_notifications_enabled(&self) -> (r: bool)
        ensures
            r,
    {
        true
    }
}

} // verus!

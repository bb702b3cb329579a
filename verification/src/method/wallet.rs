//! The messages that can be sent to the wallet itself.

use vstd::prelude::*;

use crate::method::account::AccountMethod;
use crate::payload::{
    AccountIdentifier, ClientOptions, GenerateAddressOptions, NodeAuth, SyncOptions, WalletEvent,
    WalletEventType,
};

verus! {

/// Each public wallet method.
#[allow(inconsistent_fields)]
pub enum WalletMethod {
    /// Create an account.
    /// Expected response: the created account.
    CreateAccount { alias: Option<String>, bech32_hrp: Option<String> },
    /// Read an account.
    /// Expected response: the account.
    GetAccount { account_id: AccountIdentifier },
    /// The indexes of all accounts.
    /// Expected response: the account indexes.
    GetAccountIndexes,
    /// Read all accounts.
    /// Expected response: the accounts.
    GetAccounts,
    /// Consume an account method on one account.
    /// Expected response: that of the account method.
    CallAccountMethod { account_id: AccountIdentifier, method: AccountMethod },
    /// Back the storage up. The password must be the current one when a
    /// secret vault backs the storage.
    /// Expected response: `Done`.
    Backup { destination: std::path::PathBuf, password: String },
    /// Change the vault password and re-encrypt the loaded snapshot.
    /// Expected response: `Done`.
    ChangeStrongholdPassword { current_password: String, new_password: String },
    /// Clear the vault password from memory.
    /// Expected response: `Done`.
    ClearStrongholdPassword,
    /// Whether the vault password is available.
    /// Expected response: a boolean.
    IsStrongholdPasswordAvailable,
    /// Find accounts with unspent outputs.
    /// Expected response: the accounts.
    RecoverAccounts {
        account_start_index: u32,
        account_gap_limit: u32,
        address_gap_limit: u32,
        sync_options: Option<SyncOptions>,
    },
    /// Restore a backup. Replaces client options, coin type, secret
    /// manager and accounts; errs if accounts were already created.
    /// Expected response: `Done`.
    RestoreBackup {
        source: std::path::PathBuf,
        password: String,
        ignore_if_coin_type_mismatch: Option<bool>,
    },
    /// Remove the account with the largest index.
    /// Expected response: `Done`.
    RemoveLatestAccount,
    /// Update the client options of every account.
    /// Expected response: `Done`.
    SetClientOptions { client_options: Box<ClientOptions> },
    /// Generate an address without storing it.
    /// Expected response: the address.
    GenerateAddress {
        account_index: u32,
        internal: bool,
        address_index: u32,
        options: Option<GenerateAddressOptions>,
        bech32_hrp: Option<String>,
    },
    /// The status of the attached signing device.
    /// Expected response: the device status.
    GetLedgerNanoStatus,
    /// Set the vault password.
    /// Expected response: `Done`.
    SetStrongholdPassword { password: String },
    /// Set the interval after which the vault password is cleared.
    /// Expected response: `Done`.
    SetStrongholdPasswordClearInterval { interval_in_milliseconds: Option<u64> },
    /// Store a mnemonic in the vault.
    /// Expected response: `Done`.
    StoreMnemonic { mnemonic: String },
    /// Start background syncing.
    /// Expected response: `Done`.
    StartBackgroundSync {
        options: Option<SyncOptions>,
        interval_in_milliseconds: Option<u64>,
    },
    /// Stop background syncing.
    /// Expected response: `Done`.
    StopBackgroundSync,
    /// Emit an event, to test that the event system is working.
    /// Expected response: `Done`.
    EmitTestEvent { event: WalletEvent },
    /// Remove all listeners of the given types; none clears all listeners.
    /// Expected response: `Done`.
    ClearListeners { event_types: Vec<WalletEventType> },
    /// Update the authentication of a node.
    /// Expected response: `Done`.
    UpdateNodeAuth { url: url::Url, auth: Option<NodeAuth> },
}

} // verus!

//! Carriers for engine-owned payloads.
//!
//! The engine features that define these types are not compiled into this
//! crate, so each is carried in its wire form: the JSON value it arrived
//! as. The dispatch forwards these values without reading them; the caller
//! that drives the engine turns each back into the engine's own type.

use vstd::prelude::*;

verus! {

/// Wire form of the engine's transaction options.
pub struct TransactionOptionsDto(pub serde_json::Value);

/// Wire form of a burn request: native tokens, nfts, foundries or aliases.
pub struct BurnDto(pub serde_json::Value);

/// Wire form of the parameters of an alias output.
pub struct CreateAliasParamsDto(pub serde_json::Value);

/// Wire form of the options of address generation.
pub struct GenerateAddressOptions(pub serde_json::Value);

/// Wire form of the selection of outputs to claim.
pub struct OutputsToClaim(pub serde_json::Value);

/// Wire form of an output filter.
pub struct FilterOptions(pub serde_json::Value);

/// Wire form of the options of an account sync.
pub struct SyncOptions(pub serde_json::Value);

/// Wire form of the parameters of a native token mint.
pub struct MintNativeTokenParamsDto(pub serde_json::Value);

/// Wire form of the parameters of an nft mint.
pub struct MintNftParamsDto(pub serde_json::Value);

/// Wire form of the parameters of a prepared output.
pub struct OutputParamsDto(pub serde_json::Value);

/// Wire form of one amount-to-address send.
pub struct SendAmountParams(pub serde_json::Value);

/// Wire form of one native-token send.
pub struct SendNativeTokensParams(pub serde_json::Value);

/// Wire form of one nft send.
pub struct SendNftParams(pub serde_json::Value);

/// Wire form of prepared transaction data.
pub struct PreparedTransactionDataDto(pub serde_json::Value);

/// Wire form of signed transaction data.
pub struct SignedTransactionDataDto(pub serde_json::Value);

/// Wire form of the options of a participation event registration.
pub struct ParticipationEventRegistrationOptions(pub serde_json::Value);

/// Wire form of a node.
pub struct Node(pub serde_json::Value);

/// Wire form of a node's authentication options.
pub struct NodeAuth(pub serde_json::Value);

/// Wire form of the client options shared by all accounts.
pub struct ClientOptions(pub serde_json::Value);

/// Wire form of an account identifier: an index or an alias.
pub struct AccountIdentifier(pub serde_json::Value);

/// Wire form of a wallet event.
pub struct WalletEvent(pub serde_json::Value);

/// Wire form of a wallet event type.
pub struct WalletEventType(pub serde_json::Value);

/// Wire form of a transaction of the account.
pub struct TransactionDto(pub serde_json::Value);

/// Wire form of the data of one stored output.
pub struct OutputDataDto(pub serde_json::Value);

/// Wire form of an address of the account.
pub struct AccountAddress(pub serde_json::Value);

/// Wire form of an address together with its unspent outputs.
pub struct AddressWithUnspentOutputs(pub serde_json::Value);

/// Wire form of an account balance.
pub struct AccountBalanceDto(pub serde_json::Value);

/// Wire form of a native token mint: the token id and the transaction.
pub struct MintTokenTransactionDto(pub serde_json::Value);

/// Wire form of a participation overview of the account.
pub struct ParticipationOverview(pub serde_json::Value);

/// Wire form of a collection of participation events, keyed by event id.
pub struct ParticipationEventsDto(pub serde_json::Value);

/// Wire form of a participation event together with the nodes it lives on.
pub struct ParticipationEventWithNodes(pub serde_json::Value);

} // verus!

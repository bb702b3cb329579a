//! The methods that can be called on one account of the wallet.

use vstd::prelude::*;

use crate::payload::{
    BurnDto, CreateAliasParamsDto, FilterOptions, GenerateAddressOptions, MintNativeTokenParamsDto,
    MintNftParamsDto, Node, OutputParamsDto, OutputsToClaim, ParticipationEventRegistrationOptions,
    PreparedTransactionDataDto, SendAmountParams, SendNativeTokensParams, SendNftParams,
    SignedTransactionDataDto, SyncOptions, TransactionOptionsDto,
};

use iota_sdk::types::api::plugins::participation::types::{
    ParticipationEventId, ParticipationEventType,
};
use iota_sdk::types::block::output::dto::OutputDto;
use iota_sdk::types::block::output::{OutputId, TokenId};
use iota_sdk::types::block::payload::transaction::TransactionId;
use iota_sdk::U256;

verus! {

/// Each public account method.
#[allow(inconsistent_fields)]
pub enum AccountMethod {
    /// A generic burn of native tokens, nfts, foundries or aliases.
    /// Expected response: `SentTransaction`.
    Burn { burn: BurnDto, options: Option<TransactionOptionsDto> },
    /// Consolidate outputs.
    /// Expected response: `SentTransaction`.
    ConsolidateOutputs { force: bool, output_consolidation_threshold: Option<usize> },
    /// Create an alias output.
    /// Expected response: `SentTransaction`.
    CreateAliasOutput {
        params: Option<CreateAliasParamsDto>,
        options: Option<TransactionOptionsDto>,
    },
    /// Generate new unused addresses.
    /// Expected response: `GeneratedAddress`.
    GenerateAddresses { amount: u32, options: Option<GenerateAddressOptions> },
    /// Get the data of an output stored in the account.
    /// Expected response: `OutputData`.
    GetOutput { output_id: OutputId },
    /// Get the output that minted a native token, by the token's id.
    /// Expected response: `Output`.
    GetFoundryOutput { token_id: TokenId },
    /// Get outputs with additional unlock conditions.
    /// Expected response: `OutputIds`.
    GetOutputsWithAdditionalUnlockConditions { outputs_to_claim: OutputsToClaim },
    /// Get a transaction stored in the account.
    /// Expected response: `Transaction`.
    GetTransaction { transaction_id: TransactionId },
    /// Get an incoming transaction stored in the account, with its inputs.
    /// Expected response: `Transaction`.
    GetIncomingTransaction { transaction_id: TransactionId },
    /// List addresses.
    /// Expected response: `Addresses`.
    Addresses,
    /// List only the addresses of the account with unspent outputs.
    /// Expected response: `AddressesWithUnspentOutputs`.
    AddressesWithUnspentOutputs,
    /// List all outputs of the account.
    /// Expected response: `OutputsData`.
    Outputs { filter_options: Option<FilterOptions> },
    /// List all unspent outputs of the account.
    /// Expected response: `OutputsData`.
    UnspentOutputs { filter_options: Option<FilterOptions> },
    /// List all incoming transactions of the account.
    /// Expected response: `Transactions`.
    IncomingTransactions,
    /// List all transactions of the account.
    /// Expected response: `Transactions`.
    Transactions,
    /// List all pending transactions of the account.
    /// Expected response: `Transactions`.
    PendingTransactions,
    /// Melt native tokens through the foundry output that minted them.
    /// Expected response: `SentTransaction`.
    DecreaseNativeTokenSupply {
        token_id: TokenId,
        melt_amount: U256,
        options: Option<TransactionOptionsDto>,
    },
    /// The minimum required storage deposit of an output.
    /// Expected response: `MinimumRequiredStorageDeposit`.
    MinimumRequiredStorageDeposit { output: OutputDto },
    /// Mint more of a native token.
    /// Expected response: `MintTokenTransaction`.
    IncreaseNativeTokenSupply {
        token_id: TokenId,
        mint_amount: U256,
        options: Option<TransactionOptionsDto>,
    },
    /// Mint a native token.
    /// Expected response: `MintTokenTransaction`.
    MintNativeToken {
        params: MintNativeTokenParamsDto,
        options: Option<TransactionOptionsDto>,
    },
    /// Mint nfts.
    /// Expected response: `SentTransaction`.
    MintNfts { params: Vec<MintNftParamsDto>, options: Option<TransactionOptionsDto> },
    /// The balance of the account.
    /// Expected response: `Balance`.
    GetBalance,
    /// Prepare an output.
    /// Expected response: `Output`.
    PrepareOutput {
        params: OutputParamsDto,
        transaction_options: Option<TransactionOptionsDto>,
    },
    /// Prepare a transaction from outputs given in wire form.
    /// Expected response: `PreparedTransaction`.
    PrepareTransaction { outputs: Vec<OutputDto>, options: Option<TransactionOptionsDto> },
    /// Prepare a send of amounts to addresses.
    /// Expected response: `PreparedTransaction`.
    PrepareSendAmount { params: Vec<SendAmountParams>, options: Option<TransactionOptionsDto> },
    /// Retry a sent transaction until a milestone includes it.
    /// Expected response: `BlockId`.
    RetryTransactionUntilIncluded {
        transaction_id: TransactionId,
        interval: Option<u64>,
        max_attempts: Option<u64>,
    },
    /// Sync the account against the nodes.
    /// Expected response: `Balance`.
    Sync { options: Option<SyncOptions> },
    /// Send amounts to addresses.
    /// Expected response: `SentTransaction`.
    SendAmount { params: Vec<SendAmountParams>, options: Option<TransactionOptionsDto> },
    /// Send native tokens.
    /// Expected response: `SentTransaction`.
    SendNativeTokens { params: Vec<SendNativeTokensParams>, options: Option<TransactionOptionsDto> },
    /// Send nfts.
    /// Expected response: `SentTransaction`.
    SendNft { params: Vec<SendNftParams>, options: Option<TransactionOptionsDto> },
    /// Set the alias of the account.
    /// Expected response: `Done`.
    SetAlias { alias: String },
    /// Set the fallback sync options of the account.
    /// Expected response: `Done`.
    SetDefaultSyncOptions { options: SyncOptions },
    /// Send outputs, given in wire form, in a transaction.
    /// Expected response: `SentTransaction`.
    SendOutputs { outputs: Vec<OutputDto>, options: Option<TransactionOptionsDto> },
    /// Sign a prepared transaction.
    /// Expected response: `SignedTransactionData`.
    SignTransactionEssence { prepared_transaction_data: PreparedTransactionDataDto },
    /// Validate a signed transaction, submit it and store it.
    /// Expected response: `SentTransaction`.
    SubmitAndStoreTransaction { signed_transaction_data: SignedTransactionDataDto },
    /// Claim outputs.
    /// Expected response: `SentTransaction`.
    ClaimOutputs { output_ids_to_claim: Vec<OutputId> },
    /// Vote for a participation event.
    /// Expected response: `SentTransaction`.
    Vote { event_id: Option<ParticipationEventId>, answers: Option<Vec<u8>> },
    /// Stop participating in an event.
    /// Expected response: `SentTransaction`.
    StopParticipating { event_id: ParticipationEventId },
    /// The account's total voting power.
    /// Expected response: `VotingPower`.
    GetVotingPower,
    /// A participation overview of the account.
    /// Expected response: `AccountParticipationOverview`.
    GetParticipationOverview { event_ids: Option<Vec<ParticipationEventId>> },
    /// Designate an amount, written in decimal, as voting power.
    /// Expected response: `SentTransaction`.
    IncreaseVotingPower { amount: String },
    /// Reduce the voting power by an amount written in decimal.
    /// Expected response: `SentTransaction`.
    DecreaseVotingPower { amount: String },
    /// Store participation event information locally.
    /// Expected response: `ParticipationEvents`.
    RegisterParticipationEvents { options: ParticipationEventRegistrationOptions },
    /// Remove a registered participation event from local storage.
    /// Expected response: `Done`.
    DeregisterParticipationEvent { event_id: ParticipationEventId },
    /// A registered participation event.
    /// Expected response: `ParticipationEvent`.
    GetParticipationEvent { event_id: ParticipationEventId },
    /// The ids of the participation events on a node.
    /// Expected response: `ParticipationEventIds`.
    GetParticipationEventIds { node: Node, event_type: Option<ParticipationEventType> },
    /// The status of a participation event.
    /// Expected response: `ParticipationEventStatus`.
    GetParticipationEventStatus { event_id: ParticipationEventId },
    /// All registered participation events.
    /// Expected response: `ParticipationEvents`.
    GetParticipationEvents,
}

} // verus!

//! The response envelope the binding layer answers with.

use vstd::prelude::*;

use crate::payload::{
    AccountAddress, AccountBalanceDto, AddressWithUnspentOutputs, MintTokenTransactionDto,
    OutputDataDto, ParticipationEventWithNodes, ParticipationEventsDto, ParticipationOverview,
    PreparedTransactionDataDto, SignedTransactionDataDto, TransactionDto,
};

use iota_sdk::types::api::plugins::participation::types::{
    ParticipationEventId, ParticipationEventStatus,
};
use iota_sdk::types::block::output::dto::OutputDto;
use iota_sdk::types::block::output::OutputId;
use iota_sdk::types::block::BlockId;

verus! {

/// The response to one account method.
pub enum Response {
    /// A transaction that was sent.
    SentTransaction(TransactionDto),
    /// Addresses that were generated.
    GeneratedAddress(Vec<AccountAddress>),
    /// Ids of outputs.
    OutputIds(Vec<OutputId>),
    /// The data of one stored output, when it exists.
    OutputData(Option<Box<OutputDataDto>>),
    /// One output, in wire form.
    Output(OutputDto),
    /// One stored transaction, when it exists.
    Transaction(Option<Box<TransactionDto>>),
    /// The addresses of the account.
    Addresses(Vec<AccountAddress>),
    /// The addresses of the account that have unspent outputs.
    AddressesWithUnspentOutputs(Vec<AddressWithUnspentOutputs>),
    /// The data of stored outputs.
    OutputsData(Vec<OutputDataDto>),
    /// Stored transactions.
    Transactions(Vec<TransactionDto>),
    /// A native token mint: the token id and the transaction.
    MintTokenTransaction(MintTokenTransactionDto),
    /// The minimum required storage deposit, written in decimal.
    MinimumRequiredStorageDeposit(String),
    /// The balance of the account.
    Balance(AccountBalanceDto),
    /// A prepared transaction.
    PreparedTransaction(PreparedTransactionDataDto),
    /// The id of the block that included a transaction.
    BlockId(BlockId),
    /// Signed transaction data.
    SignedTransactionData(SignedTransactionDataDto),
    /// The plain acknowledgement: the engine reported success and nothing
    /// more was asked.
    Done,
    /// The voting power of the account, written in decimal.
    VotingPower(String),
    /// A participation overview of the account.
    AccountParticipationOverview(ParticipationOverview),
    /// Participation events, keyed by event id.
    ParticipationEvents(ParticipationEventsDto),
    /// One participation event with its nodes, when it is registered.
    ParticipationEvent(Option<ParticipationEventWithNodes>),
    /// Ids of participation events.
    ParticipationEventIds(Vec<ParticipationEventId>),
    /// The status of a participation event.
    ParticipationEventStatus(ParticipationEventStatus),
}

/// The kind of a response, with payloads forgotten.
#[derive(Clone, Copy, PartialEq, Eq, Structural, Debug)]
pub enum ResponseKind {
    SentTransaction,
    GeneratedAddress,
    OutputIds,
    OutputData,
    Output,
    Transaction,
    Addresses,
    AddressesWithUnspentOutputs,
    OutputsData,
    Transactions,
    MintTokenTransaction,
    MinimumRequiredStorageDeposit,
    Balance,
    PreparedTransaction,
    BlockId,
    SignedTransactionData,
    Done,
    VotingPower,
    AccountParticipationOverview,
    ParticipationEvents,
    ParticipationEvent,
    ParticipationEventIds,
    ParticipationEventStatus,
}

/// The kind of `r`.
pub open spec fn response_kind(r: Response) -> ResponseKind {
    match r {
        Response::SentTransaction(..) => ResponseKind::SentTransaction,
        Response::GeneratedAddress(..) => ResponseKind::GeneratedAddress,
        Response::OutputIds(..) => ResponseKind::OutputIds,
        Response::OutputData(..) => ResponseKind::OutputData,
        Response::Output(..) => ResponseKind::Output,
        Response::Transaction(..) => ResponseKind::Transaction,
        Response::Addresses(..) => ResponseKind::Addresses,
        Response::AddressesWithUnspentOutputs(..) => ResponseKind::AddressesWithUnspentOutputs,
        Response::OutputsData(..) => ResponseKind::OutputsData,
        Response::Transactions(..) => ResponseKind::Transactions,
        Response::MintTokenTransaction(..) => ResponseKind::MintTokenTransaction,
        Response::MinimumRequiredStorageDeposit(..) => ResponseKind::MinimumRequiredStorageDeposit,
        Response::Balance(..) => ResponseKind::Balance,
        Response::PreparedTransaction(..) => ResponseKind::PreparedTransaction,
        Response::BlockId(..) => ResponseKind::BlockId,
        Response::SignedTransactionData(..) => ResponseKind::SignedTransactionData,
        Response::Done => ResponseKind::Done,
        Response::VotingPower(..) => ResponseKind::VotingPower,
        Response::AccountParticipationOverview(..) => ResponseKind::AccountParticipationOverview,
        Response::ParticipationEvents(..) => ResponseKind::ParticipationEvents,
        Response::ParticipationEvent(..) => ResponseKind::ParticipationEvent,
        Response::ParticipationEventIds(..) => ResponseKind::ParticipationEventIds,
        Response::ParticipationEventStatus(..) => ResponseKind::ParticipationEventStatus,
    }
}

} // verus!

//! Dispatch of account methods.
//!
//! The engine's operations are asynchronous and live outside this crate,
//! so one method is handled in three steps, of which the first and the
//! last are decided and verified here:
//!
//! 1. [`client_need`] says what the caller must fetch from the engine's
//!    client first, and [`plan_account_call`] turns the method into the
//!    one engine call it maps to, validating and converting the fields
//!    this layer owns. A method that needs no engine call is answered on
//!    the spot.
//! 2. The caller performs the planned call on its account handle and
//!    brings the outcome back in wire form.
//! 3. [`respond`] wraps the outcome into the response envelope.

use vstd::prelude::*;

use crate::engine::{
    checked_output_of, output_dto_of, output_from_dto, output_to_dto, rent_cost_of,
    rent_cost_spec,
};
use crate::error::DispatchError;
use crate::method::account::AccountMethod;
use crate::numeric::{dec_val, digits_of, format_u64, parse_u64, parses_as_u64, u64_dec};
use crate::payload::{
    AccountAddress, AccountBalanceDto, AddressWithUnspentOutputs, BurnDto, CreateAliasParamsDto,
    FilterOptions, GenerateAddressOptions, MintNativeTokenParamsDto, MintNftParamsDto,
    MintTokenTransactionDto, Node, OutputDataDto, OutputParamsDto, OutputsToClaim,
    ParticipationEventRegistrationOptions, ParticipationEventWithNodes, ParticipationEventsDto,
    ParticipationOverview, PreparedTransactionDataDto, SendAmountParams, SendNativeTokensParams,
    SendNftParams, SignedTransactionDataDto, SyncOptions, TransactionDto, TransactionOptionsDto,
};
use crate::response::{response_kind, Response, ResponseKind};

use iota_sdk::types::api::plugins::participation::types::{
    ParticipationEventId, ParticipationEventStatus, ParticipationEventType,
};
use iota_sdk::types::block::output::dto::OutputDto;
use iota_sdk::types::block::output::{Output, OutputId, RentStructure, TokenId};
use iota_sdk::types::block::payload::transaction::TransactionId;
use iota_sdk::types::block::BlockId;
use iota_sdk::U256;

verus! {

/// What must be fetched from the engine's client before a method can be
/// dispatched: the token supply to check outputs against, the rent
/// structure to price storage, or the protocol parameters that the
/// engine's own reading of prepared and signed transaction data wants.
#[derive(Clone, Copy, PartialEq, Eq, Structural, Debug)]
pub enum ClientNeed {
    Nothing,
    TokenSupply,
    TokenSupplyAndRent,
    ProtocolParameters,
}

/// What `m` needs from the engine's client before it can be dispatched.
pub open spec fn need_of(m: AccountMethod) -> ClientNeed {
    match m {
        AccountMethod::MinimumRequiredStorageDeposit { .. } => ClientNeed::TokenSupplyAndRent,
        AccountMethod::PrepareTransaction { .. } => ClientNeed::TokenSupply,
        AccountMethod::SendOutputs { .. } => ClientNeed::TokenSupply,
        AccountMethod::SignTransactionEssence { .. } => ClientNeed::ProtocolParameters,
        AccountMethod::SubmitAndStoreTransaction { .. } => ClientNeed::ProtocolParameters,
        _ => ClientNeed::Nothing,
    }
}

/// Says what the caller must fetch from the engine's client before
/// handing `m` to [`plan_account_call`].
pub fn client_need(m: &AccountMethod) -> (r: ClientNeed)
    ensures
        r == need_of(*m),
{
    match m {
        AccountMethod::MinimumRequiredStorageDeposit { .. } => ClientNeed::TokenSupplyAndRent,
        AccountMethod::PrepareTransaction { .. } => ClientNeed::TokenSupply,
        AccountMethod::SendOutputs { .. } => ClientNeed::TokenSupply,
        AccountMethod::SignTransactionEssence { .. } => ClientNeed::ProtocolParameters,
        AccountMethod::SubmitAndStoreTransaction { .. } => ClientNeed::ProtocolParameters,
        _ => ClientNeed::Nothing,
    }
}

/// What the caller fetched from the engine's client.
pub struct ClientData {
    /// The total token supply, when the method needs it.
    pub token_supply: Option<u64>,
    /// The rent structure, when the method needs it.
    pub rent_structure: Option<RentStructure>,
}

/// Whether `client` holds what `m` needs.
pub open spec fn covers(client: ClientData, m: AccountMethod) -> bool {
    match need_of(m) {
        ClientNeed::Nothing => true,
        ClientNeed::TokenSupply => client.token_supply is Some,
        ClientNeed::TokenSupplyAndRent => client.token_supply is Some
            && client.rent_structure is Some,
        ClientNeed::ProtocolParameters => true,
    }
}

/// The one engine call an account method maps to, with the fields this
/// layer owns already validated and converted.
#[allow(inconsistent_fields)]
pub enum AccountCall {
    Burn { burn: BurnDto, options: Option<TransactionOptionsDto> },
    ConsolidateOutputs { force: bool, output_consolidation_threshold: Option<usize> },
    CreateAliasOutput {
        params: Option<CreateAliasParamsDto>,
        options: Option<TransactionOptionsDto>,
    },
    GenerateAddresses { amount: u32, options: Option<GenerateAddressOptions> },
    GetOutput { output_id: OutputId },
    GetFoundryOutput { token_id: TokenId },
    GetOutputsWithAdditionalUnlockConditions { outputs_to_claim: OutputsToClaim },
    GetTransaction { transaction_id: TransactionId },
    GetIncomingTransaction { transaction_id: TransactionId },
    Addresses,
    AddressesWithUnspentOutputs,
    Outputs { filter_options: Option<FilterOptions> },
    UnspentOutputs { filter_options: Option<FilterOptions> },
    IncomingTransactions,
    Transactions,
    PendingTransactions,
    DecreaseNativeTokenSupply {
        token_id: TokenId,
        melt_amount: U256,
        options: Option<TransactionOptionsDto>,
    },
    IncreaseNativeTokenSupply {
        token_id: TokenId,
        mint_amount: U256,
        options: Option<TransactionOptionsDto>,
    },
    MintNativeToken {
        params: MintNativeTokenParamsDto,
        options: Option<TransactionOptionsDto>,
    },
    MintNfts { params: Vec<MintNftParamsDto>, options: Option<TransactionOptionsDto> },
    GetBalance,
    PrepareOutput {
        params: OutputParamsDto,
        transaction_options: Option<TransactionOptionsDto>,
    },
    PrepareSendAmount { params: Vec<SendAmountParams>, options: Option<TransactionOptionsDto> },
    /// Outputs already checked against the token supply.
    PrepareTransaction { outputs: Vec<Output>, options: Option<TransactionOptionsDto> },
    RetryTransactionUntilIncluded {
        transaction_id: TransactionId,
        interval: Option<u64>,
        max_attempts: Option<u64>,
    },
    Sync { options: Option<SyncOptions> },
    SendAmount { params: Vec<SendAmountParams>, options: Option<TransactionOptionsDto> },
    SendNativeTokens { params: Vec<SendNativeTokensParams>, options: Option<TransactionOptionsDto> },
    SendNft { params: Vec<SendNftParams>, options: Option<TransactionOptionsDto> },
    SetAlias { alias: String },
    SetDefaultSyncOptions { options: SyncOptions },
    /// Outputs already checked against the token supply.
    SendOutputs { outputs: Vec<Output>, options: Option<TransactionOptionsDto> },
    SignTransactionEssence { prepared_transaction_data: PreparedTransactionDataDto },
    SubmitAndStoreTransaction { signed_transaction_data: SignedTransactionDataDto },
    ClaimOutputs { output_ids_to_claim: Vec<OutputId> },
    Vote { event_id: Option<ParticipationEventId>, answers: Option<Vec<u8>> },
    StopParticipating { event_id: ParticipationEventId },
    GetVotingPower,
    GetParticipationOverview { event_ids: Option<Vec<ParticipationEventId>> },
    /// The amount already read from its decimal writing.
    IncreaseVotingPower { amount: u64 },
    /// The amount already read from its decimal writing.
    DecreaseVotingPower { amount: u64 },
    RegisterParticipationEvents { options: ParticipationEventRegistrationOptions },
    DeregisterParticipationEvent { event_id: ParticipationEventId },
    GetParticipationEvent { event_id: ParticipationEventId },
    GetParticipationEventIds { node: Node, event_type: Option<ParticipationEventType> },
    GetParticipationEventStatus { event_id: ParticipationEventId },
    GetParticipationEvents,
}

/// What dispatching a method comes to: one engine call, or a response
/// that this layer computed on its own.
pub enum AccountPlan {
    /// Perform this call on the account and bring the outcome back.
    Call(AccountCall),
    /// Nothing to perform: the response is already known.
    Respond(Response),
}

/// The variant of engine call that `m` maps to.
pub open spec fn call_for_method(m: AccountMethod, c: AccountCall) -> bool {
    match m {
        AccountMethod::Burn { .. } => c is Burn,
        AccountMethod::ConsolidateOutputs { .. } => c is ConsolidateOutputs,
        AccountMethod::CreateAliasOutput { .. } => c is CreateAliasOutput,
        AccountMethod::GenerateAddresses { .. } => c is GenerateAddresses,
        AccountMethod::GetOutput { .. } => c is GetOutput,
        AccountMethod::GetFoundryOutput { .. } => c is GetFoundryOutput,
        AccountMethod::GetOutputsWithAdditionalUnlockConditions { .. } => (
        c is GetOutputsWithAdditionalUnlockConditions),
        AccountMethod::GetTransaction { .. } => c is GetTransaction,
        AccountMethod::GetIncomingTransaction { .. } => c is GetIncomingTransaction,
        AccountMethod::Addresses => c is Addresses,
        AccountMethod::AddressesWithUnspentOutputs => c is AddressesWithUnspentOutputs,
        AccountMethod::Outputs { .. } => c is Outputs,
        AccountMethod::UnspentOutputs { .. } => c is UnspentOutputs,
        AccountMethod::IncomingTransactions => c is IncomingTransactions,
        AccountMethod::Transactions => c is Transactions,
        AccountMethod::PendingTransactions => c is PendingTransactions,
        AccountMethod::DecreaseNativeTokenSupply { .. } => c is DecreaseNativeTokenSupply,
        AccountMethod::MinimumRequiredStorageDeposit { .. } => false,
        AccountMethod::IncreaseNativeTokenSupply { .. } => c is IncreaseNativeTokenSupply,
        AccountMethod::MintNativeToken { .. } => c is MintNativeToken,
        AccountMethod::MintNfts { .. } => c is MintNfts,
        AccountMethod::GetBalance => c is GetBalance,
        AccountMethod::PrepareOutput { .. } => c is PrepareOutput,
        AccountMethod::PrepareTransaction { .. } => c is PrepareTransaction,
        AccountMethod::PrepareSendAmount { .. } => c is PrepareSendAmount,
        AccountMethod::RetryTransactionUntilIncluded { .. } => c is RetryTransactionUntilIncluded,
        AccountMethod::Sync { .. } => c is Sync,
        AccountMethod::SendAmount { .. } => c is SendAmount,
        AccountMethod::SendNativeTokens { .. } => c is SendNativeTokens,
        AccountMethod::SendNft { .. } => c is SendNft,
        AccountMethod::SetAlias { .. } => c is SetAlias,
        AccountMethod::SetDefaultSyncOptions { .. } => c is SetDefaultSyncOptions,
        AccountMethod::SendOutputs { .. } => c is SendOutputs,
        AccountMethod::SignTransactionEssence { .. } => c is SignTransactionEssence,
        AccountMethod::SubmitAndStoreTransaction { .. } => c is SubmitAndStoreTransaction,
        AccountMethod::ClaimOutputs { .. } => c is ClaimOutputs,
        AccountMethod::Vote { .. } => c is Vote,
        AccountMethod::StopParticipating { .. } => c is StopParticipating,
        AccountMethod::GetVotingPower => c is GetVotingPower,
        AccountMethod::GetParticipationOverview { .. } => c is GetParticipationOverview,
        AccountMethod::IncreaseVotingPower { .. } => c is IncreaseVotingPower,
        AccountMethod::DecreaseVotingPower { .. } => c is DecreaseVotingPower,
        AccountMethod::RegisterParticipationEvents { .. } => c is RegisterParticipationEvents,
        AccountMethod::DeregisterParticipationEvent { .. } => c is DeregisterParticipationEvent,
        AccountMethod::GetParticipationEvent { .. } => c is GetParticipationEvent,
        AccountMethod::GetParticipationEventIds { .. } => c is GetParticipationEventIds,
        AccountMethod::GetParticipationEventStatus { .. } => c is GetParticipationEventStatus,
        AccountMethod::GetParticipationEvents => c is GetParticipationEvents,
    }
}

/// A plan, as a successful dispatch result.
pub open spec fn ok_plan(p: AccountPlan) -> Result<AccountPlan, DispatchError> {
    Ok(p)
}

/// An error, as a refused dispatch result.
pub open spec fn err_plan(e: DispatchError) -> Result<AccountPlan, DispatchError> {
    Err(e)
}

/// What dispatching `m` must come to, given the fetched client data.
pub open spec fn plan_post(
    m: AccountMethod,
    client: ClientData,
    r: Result<AccountPlan, DispatchError>,
) -> bool {
    match m {
        AccountMethod::Burn { burn, options } => r == ok_plan(
            AccountPlan::Call(AccountCall::Burn { burn, options }),
        ),
        AccountMethod::ConsolidateOutputs { force, output_consolidation_threshold } => r == ok_plan(
            AccountPlan::Call(
                AccountCall::ConsolidateOutputs { force, output_consolidation_threshold },
            ),
        ),
        AccountMethod::CreateAliasOutput { params, options } => r == ok_plan(
            AccountPlan::Call(AccountCall::CreateAliasOutput { params, options }),
        ),
        AccountMethod::GenerateAddresses { amount, options } => r == ok_plan(
            AccountPlan::Call(AccountCall::GenerateAddresses { amount, options }),
        ),
        AccountMethod::GetOutput { output_id } => r == ok_plan(
            AccountPlan::Call(AccountCall::GetOutput { output_id }),
        ),
        AccountMethod::GetFoundryOutput { token_id } => r == ok_plan(
            AccountPlan::Call(AccountCall::GetFoundryOutput { token_id }),
        ),
        AccountMethod::GetOutputsWithAdditionalUnlockConditions { outputs_to_claim } => r == ok_plan(
            AccountPlan::Call(
                AccountCall::GetOutputsWithAdditionalUnlockConditions { outputs_to_claim },
            ),
        ),
        AccountMethod::GetTransaction { transaction_id } => r == ok_plan(
            AccountPlan::Call(AccountCall::GetTransaction { transaction_id }),
        ),
        AccountMethod::GetIncomingTransaction { transaction_id } => r == ok_plan(
            AccountPlan::Call(AccountCall::GetIncomingTransaction { transaction_id }),
        ),
        AccountMethod::Addresses => r == ok_plan(AccountPlan::Call(AccountCall::Addresses)),
        AccountMethod::AddressesWithUnspentOutputs => r == ok_plan(
            AccountPlan::Call(AccountCall::AddressesWithUnspentOutputs),
        ),
        AccountMethod::Outputs { filter_options } => r == ok_plan(
            AccountPlan::Call(AccountCall::Outputs { filter_options }),
        ),
        AccountMethod::UnspentOutputs { filter_options } => r == ok_plan(
            AccountPlan::Call(AccountCall::UnspentOutputs { filter_options }),
        ),
        AccountMethod::IncomingTransactions => r == ok_plan(
            AccountPlan::Call(AccountCall::IncomingTransactions),
        ),
        AccountMethod::Transactions => r == ok_plan(AccountPlan::Call(AccountCall::Transactions)),
        AccountMethod::PendingTransactions => r == ok_plan(
            AccountPlan::Call(AccountCall::PendingTransactions),
        ),
        AccountMethod::DecreaseNativeTokenSupply { token_id, melt_amount, options } => r == ok_plan(
            AccountPlan::Call(
                AccountCall::DecreaseNativeTokenSupply { token_id, melt_amount, options },
            ),
        ),
        AccountMethod::MinimumRequiredStorageDeposit { output } => {
            &&& client.token_supply is Some
            &&& client.rent_structure is Some
            &&& match checked_output_of(output, client.token_supply->0) {
                Ok(o) => r matches Ok(p) && p matches AccountPlan::Respond(resp)
                    && resp matches Response::MinimumRequiredStorageDeposit(s) && s@ =~= u64_dec(
                    rent_cost_spec(o, client.rent_structure->0) as int,
                ),
                Err(e) => r == err_plan(DispatchError::Block(e)),
            }
        },
        AccountMethod::IncreaseNativeTokenSupply { token_id, mint_amount, options } => r == ok_plan(
            AccountPlan::Call(
                AccountCall::IncreaseNativeTokenSupply { token_id, mint_amount, options },
            ),
        ),
        AccountMethod::MintNativeToken { params, options } => r == ok_plan(
            AccountPlan::Call(AccountCall::MintNativeToken { params, options }),
        ),
        AccountMethod::MintNfts { params, options } => r == ok_plan(
            AccountPlan::Call(AccountCall::MintNfts { params, options }),
        ),
        AccountMethod::GetBalance => r == ok_plan(AccountPlan::Call(AccountCall::GetBalance)),
        AccountMethod::PrepareOutput { params, transaction_options } => r == ok_plan(
            AccountPlan::Call(AccountCall::PrepareOutput { params, transaction_options }),
        ),
        AccountMethod::PrepareTransaction { outputs, options } => {
            &&& client.token_supply is Some
            &&& (r matches Ok(p) ==> p matches AccountPlan::Call(c) && c matches (
            AccountCall::PrepareTransaction { outputs: converted, options: opts }) && opts
                == options && outputs_checked(outputs@, client.token_supply->0, converted@))
            &&& (r matches Err(e) ==> outputs_refused(outputs@, client.token_supply->0, e))
        },
        AccountMethod::PrepareSendAmount { params, options } => r == ok_plan(
            AccountPlan::Call(AccountCall::PrepareSendAmount { params, options }),
        ),
        AccountMethod::RetryTransactionUntilIncluded {
            transaction_id,
            interval,
            max_attempts,
        } => r == ok_plan(
            AccountPlan::Call(
                AccountCall::RetryTransactionUntilIncluded {
                    transaction_id,
                    interval,
                    max_attempts,
                },
            ),
        ),
        AccountMethod::Sync { options } => r == ok_plan(
            AccountPlan::Call(AccountCall::Sync { options }),
        ),
        AccountMethod::SendAmount { params, options } => r == ok_plan(
            AccountPlan::Call(AccountCall::SendAmount { params, options }),
        ),
        AccountMethod::SendNativeTokens { params, options } => r == ok_plan(
            AccountPlan::Call(AccountCall::SendNativeTokens { params, options }),
        ),
        AccountMethod::SendNft { params, options } => r == ok_plan(
            AccountPlan::Call(AccountCall::SendNft { params, options }),
        ),
        AccountMethod::SetAlias { alias } => r == ok_plan(
            AccountPlan::Call(AccountCall::SetAlias { alias }),
        ),
        AccountMethod::SetDefaultSyncOptions { options } => r == ok_plan(
            AccountPlan::Call(AccountCall::SetDefaultSyncOptions { options }),
        ),
        AccountMethod::SendOutputs { outputs, options } => {
            &&& client.token_supply is Some
            &&& (r matches Ok(p) ==> p matches AccountPlan::Call(c) && c matches (
            AccountCall::SendOutputs { outputs: converted, options: opts }) && opts == options
                && outputs_checked(outputs@, client.token_supply->0, converted@))
            &&& (r matches Err(e) ==> outputs_refused(outputs@, client.token_supply->0, e))
        },
        AccountMethod::SignTransactionEssence { prepared_transaction_data } => r == ok_plan(
            AccountPlan::Call(AccountCall::SignTransactionEssence { prepared_transaction_data }),
        ),
        AccountMethod::SubmitAndStoreTransaction { signed_transaction_data } => r == ok_plan(
            AccountPlan::Call(AccountCall::SubmitAndStoreTransaction { signed_transaction_data }),
        ),
        AccountMethod::ClaimOutputs { output_ids_to_claim } => r == ok_plan(
            AccountPlan::Call(AccountCall::ClaimOutputs { output_ids_to_claim }),
        ),
        AccountMethod::Vote { event_id, answers } => r == ok_plan(
            AccountPlan::Call(AccountCall::Vote { event_id, answers }),
        ),
        AccountMethod::StopParticipating { event_id } => r == ok_plan(
            AccountPlan::Call(AccountCall::StopParticipating { event_id }),
        ),
        AccountMethod::GetVotingPower => r == ok_plan(AccountPlan::Call(AccountCall::GetVotingPower)),
        AccountMethod::GetParticipationOverview { event_ids } => r == ok_plan(
            AccountPlan::Call(AccountCall::GetParticipationOverview { event_ids }),
        ),
        AccountMethod::IncreaseVotingPower { amount } => if parses_as_u64(amount@) {
            r == ok_plan(
                AccountPlan::Call(
                    AccountCall::IncreaseVotingPower {
                        amount: dec_val(digits_of(amount@)) as u64,
                    },
                ),
            )
        } else {
            r == err_plan(DispatchError::InvalidAmount(amount))
        },
        AccountMethod::DecreaseVotingPower { amount } => if parses_as_u64(amount@) {
            r == ok_plan(
                AccountPlan::Call(
                    AccountCall::DecreaseVotingPower {
                        amount: dec_val(digits_of(amount@)) as u64,
                    },
                ),
            )
        } else {
            r == err_plan(DispatchError::InvalidAmount(amount))
        },
        AccountMethod::RegisterParticipationEvents { options } => r == ok_plan(
            AccountPlan::Call(AccountCall::RegisterParticipationEvents { options }),
        ),
        AccountMethod::DeregisterParticipationEvent { event_id } => r == ok_plan(
            AccountPlan::Call(AccountCall::DeregisterParticipationEvent { event_id }),
        ),
        AccountMethod::GetParticipationEvent { event_id } => r == ok_plan(
            AccountPlan::Call(AccountCall::GetParticipationEvent { event_id }),
        ),
        AccountMethod::GetParticipationEventIds { node, event_type } => r == ok_plan(
            AccountPlan::Call(AccountCall::GetParticipationEventIds { node, event_type }),
        ),
        AccountMethod::GetParticipationEventStatus { event_id } => r == ok_plan(
            AccountPlan::Call(AccountCall::GetParticipationEventStatus { event_id }),
        ),
        AccountMethod::GetParticipationEvents => r == ok_plan(
            AccountPlan::Call(AccountCall::GetParticipationEvents),
        ),
    }
}

/// Every wire output of `dtos` converts under `token_supply`, elementwise
/// and in order, into `converted`.
pub open spec fn outputs_checked(
    dtos: Seq<OutputDto>,
    token_supply: u64,
    converted: Seq<Output>,
) -> bool {
    &&& converted.len() == dtos.len()
    &&& forall|j: int|
        0 <= j < dtos.len() ==> #[trigger] checked_output_of(dtos[j], token_supply) == Ok::<
            Output,
            iota_sdk::types::block::Error,
        >(converted[j])
}

/// Some wire output of `dtos` is refused under `token_supply`, every
/// element before it converts, and `e` wraps that first refusal.
pub open spec fn outputs_refused(dtos: Seq<OutputDto>, token_supply: u64, e: DispatchError) -> bool {
    exists|j: int|
        0 <= j < dtos.len() && ((#[trigger] checked_output_of(dtos[j], token_supply)) matches Err(be)
            && e == DispatchError::Block(be)) && (forall|k: int|
            0 <= k < j ==> #[trigger] checked_output_of(dtos[k], token_supply) is Ok)
}

/// Checks each output of `outputs` against the token supply, as the
/// engine's own reading of wire outputs does, and keeps the engine's
/// first refusal.
fn convert_outputs(outputs: &Vec<OutputDto>, token_supply: u64) -> (r: Result<
    Vec<Output>,
    DispatchError,
>)
    ensures
        (r matches Ok(v) ==> outputs_checked(outputs@, token_supply, v@)),
        (r matches Err(e) ==> outputs_refused(outputs@, token_supply, e)),
{
    let mut converted: Vec<Output> = Vec::new();
    let mut i: usize = 0;
    while i < outputs.len()
        invariant
            i <= outputs@.len(),
            converted@.len() == i,
            forall|k: int|
                0 <= k < i ==> #[trigger] checked_output_of(outputs@[k], token_supply) == Ok::<
                    Output,
                    iota_sdk::types::block::Error,
                >(converted@[k]),
        decreases outputs@.len() - i,
    {
        match output_from_dto(&outputs[i], token_supply) {
            Ok(o) => converted.push(o),
            Err(e) => {
                proof {
                    assert(checked_output_of(outputs@[i as int], token_supply) == Err::<
                        Output,
                        iota_sdk::types::block::Error,
                    >(e));
                    assert(outputs_refused(outputs@, token_supply, DispatchError::Block(e)));
                }
                return Err(DispatchError::Block(e));
            },
        }
        i = i + 1;
    }
    assert(outputs_checked(outputs@, token_supply, converted@));
    Ok(converted)
}

/// Turns one account method into its plan: the engine call it maps to,
/// or the ready response where no call is needed. Errs exactly where the
/// layer's own validation refuses a field, or where the engine's reading
/// of a wire output refuses it.
pub fn plan_account_call(method: AccountMethod, client: &ClientData) -> (r: Result<
    AccountPlan,
    DispatchError,
>)
    requires
        covers(*client, method),
    ensures
        plan_post(method, *client, r),
        (r matches Ok(p) ==> (p matches AccountPlan::Call(c) ==> call_for_method(method, c))),
        (r matches Ok(p) ==> (p matches AccountPlan::Respond(resp) ==> response_kind(resp)
            == expected_response_kind(method))),
{
    match method {
        AccountMethod::Burn { burn, options } => Ok(
            AccountPlan::Call(AccountCall::Burn { burn, options }),
        ),
        AccountMethod::ConsolidateOutputs { force, output_consolidation_threshold } => Ok(
            AccountPlan::Call(
                AccountCall::ConsolidateOutputs { force, output_consolidation_threshold },
            ),
        ),
        AccountMethod::CreateAliasOutput { params, options } => Ok(
            AccountPlan::Call(AccountCall::CreateAliasOutput { params, options }),
        ),
        AccountMethod::GenerateAddresses { amount, options } => Ok(
            AccountPlan::Call(AccountCall::GenerateAddresses { amount, options }),
        ),
        AccountMethod::GetOutput { output_id } => Ok(
            AccountPlan::Call(AccountCall::GetOutput { output_id }),
        ),
        AccountMethod::GetFoundryOutput { token_id } => Ok(
            AccountPlan::Call(AccountCall::GetFoundryOutput { token_id }),
        ),
        AccountMethod::GetOutputsWithAdditionalUnlockConditions { outputs_to_claim } => Ok(
            AccountPlan::Call(
                AccountCall::GetOutputsWithAdditionalUnlockConditions { outputs_to_claim },
            ),
        ),
        AccountMethod::GetTransaction { transaction_id } => Ok(
            AccountPlan::Call(AccountCall::GetTransaction { transaction_id }),
        ),
        AccountMethod::GetIncomingTransaction { transaction_id } => Ok(
            AccountPlan::Call(AccountCall::GetIncomingTransaction { transaction_id }),
        ),
        AccountMethod::Addresses => Ok(AccountPlan::Call(AccountCall::Addresses)),
        AccountMethod::AddressesWithUnspentOutputs => Ok(
            AccountPlan::Call(AccountCall::AddressesWithUnspentOutputs),
        ),
        AccountMethod::Outputs { filter_options } => Ok(
            AccountPlan::Call(AccountCall::Outputs { filter_options }),
        ),
        AccountMethod::UnspentOutputs { filter_options } => Ok(
            AccountPlan::Call(AccountCall::UnspentOutputs { filter_options }),
        ),
        AccountMethod::IncomingTransactions => Ok(
            AccountPlan::Call(AccountCall::IncomingTransactions),
        ),
        AccountMethod::Transactions => Ok(AccountPlan::Call(AccountCall::Transactions)),
        AccountMethod::PendingTransactions => Ok(
            AccountPlan::Call(AccountCall::PendingTransactions),
        ),
        AccountMethod::DecreaseNativeTokenSupply { token_id, melt_amount, options } => Ok(
            AccountPlan::Call(
                AccountCall::DecreaseNativeTokenSupply { token_id, melt_amount, options },
            ),
        ),
        AccountMethod::MinimumRequiredStorageDeposit { output } => {
            let token_supply: u64 = client.token_supply.unwrap();
            match output_from_dto(&output, token_supply) {
                Ok(checked) => {
                    let rent_structure: RentStructure = client.rent_structure.unwrap();
                    let deposit: u64 = rent_cost_of(&checked, &rent_structure);
                    Ok(
                        AccountPlan::Respond(
                            Response::MinimumRequiredStorageDeposit(format_u64(deposit)),
                        ),
                    )
                },
                Err(e) => Err(DispatchError::Block(e)),
            }
        },
        AccountMethod::IncreaseNativeTokenSupply { token_id, mint_amount, options } => Ok(
            AccountPlan::Call(
                AccountCall::IncreaseNativeTokenSupply { token_id, mint_amount, options },
            ),
        ),
        AccountMethod::MintNativeToken { params, options } => Ok(
            AccountPlan::Call(AccountCall::MintNativeToken { params, options }),
        ),
        AccountMethod::MintNfts { params, options } => Ok(
            AccountPlan::Call(AccountCall::MintNfts { params, options }),
        ),
        AccountMethod::GetBalance => Ok(AccountPlan::Call(AccountCall::GetBalance)),
        AccountMethod::PrepareOutput { params, transaction_options } => Ok(
            AccountPlan::Call(AccountCall::PrepareOutput { params, transaction_options }),
        ),
        AccountMethod::PrepareTransaction { outputs, options } => {
            let token_supply: u64 = client.token_supply.unwrap();
            match convert_outputs(&outputs, token_supply) {
                Ok(converted) => Ok(
                    AccountPlan::Call(
                        AccountCall::PrepareTransaction { outputs: converted, options },
                    ),
                ),
                Err(e) => Err(e),
            }
        },
        AccountMethod::PrepareSendAmount { params, options } => Ok(
            AccountPlan::Call(AccountCall::PrepareSendAmount { params, options }),
        ),
        AccountMethod::RetryTransactionUntilIncluded {
            transaction_id,
            interval,
            max_attempts,
        } => Ok(
            AccountPlan::Call(
                AccountCall::RetryTransactionUntilIncluded {
                    transaction_id,
                    interval,
                    max_attempts,
                },
            ),
        ),
        AccountMethod::Sync { options } => Ok(AccountPlan::Call(AccountCall::Sync { options })),
        AccountMethod::SendAmount { params, options } => Ok(
            AccountPlan::Call(AccountCall::SendAmount { params, options }),
        ),
        AccountMethod::SendNativeTokens { params, options } => Ok(
            AccountPlan::Call(AccountCall::SendNativeTokens { params, options }),
        ),
        AccountMethod::SendNft { params, options } => Ok(
            AccountPlan::Call(AccountCall::SendNft { params, options }),
        ),
        AccountMethod::SetAlias { alias } => Ok(
            AccountPlan::Call(AccountCall::SetAlias { alias }),
        ),
        AccountMethod::SetDefaultSyncOptions { options } => Ok(
            AccountPlan::Call(AccountCall::SetDefaultSyncOptions { options }),
        ),
        AccountMethod::SendOutputs { outputs, options } => {
            let token_supply: u64 = client.token_supply.unwrap();
            match convert_outputs(&outputs, token_supply) {
                Ok(converted) => Ok(
                    AccountPlan::Call(AccountCall::SendOutputs { outputs: converted, options }),
                ),
                Err(e) => Err(e),
            }
        },
        AccountMethod::SignTransactionEssence { prepared_transaction_data } => Ok(
            AccountPlan::Call(AccountCall::SignTransactionEssence { prepared_transaction_data }),
        ),
        AccountMethod::SubmitAndStoreTransaction { signed_transaction_data } => Ok(
            AccountPlan::Call(AccountCall::SubmitAndStoreTransaction { signed_transaction_data }),
        ),
        AccountMethod::ClaimOutputs { output_ids_to_claim } => Ok(
            AccountPlan::Call(AccountCall::ClaimOutputs { output_ids_to_claim }),
        ),
        AccountMethod::Vote { event_id, answers } => Ok(
            AccountPlan::Call(AccountCall::Vote { event_id, answers }),
        ),
        AccountMethod::StopParticipating { event_id } => Ok(
            AccountPlan::Call(AccountCall::StopParticipating { event_id }),
        ),
        AccountMethod::GetVotingPower => Ok(AccountPlan::Call(AccountCall::GetVotingPower)),
        AccountMethod::GetParticipationOverview { event_ids } => Ok(
            AccountPlan::Call(AccountCall::GetParticipationOverview { event_ids }),
        ),
        AccountMethod::IncreaseVotingPower { amount } => match parse_u64(amount.as_str()) {
            Some(value) => Ok(
                AccountPlan::Call(AccountCall::IncreaseVotingPower { amount: value }),
            ),
            None => Err(DispatchError::InvalidAmount(amount)),
        },
        AccountMethod::DecreaseVotingPower { amount } => match parse_u64(amount.as_str()) {
            Some(value) => Ok(
                AccountPlan::Call(AccountCall::DecreaseVotingPower { amount: value }),
            ),
            None => Err(DispatchError::InvalidAmount(amount)),
        },
        AccountMethod::RegisterParticipationEvents { options } => Ok(
            AccountPlan::Call(AccountCall::RegisterParticipationEvents { options }),
        ),
        AccountMethod::DeregisterParticipationEvent { event_id } => Ok(
            AccountPlan::Call(AccountCall::DeregisterParticipationEvent { event_id }),
        ),
        AccountMethod::GetParticipationEvent { event_id } => Ok(
            AccountPlan::Call(AccountCall::GetParticipationEvent { event_id }),
        ),
        AccountMethod::GetParticipationEventIds { node, event_type } => Ok(
            AccountPlan::Call(AccountCall::GetParticipationEventIds { node, event_type }),
        ),
        AccountMethod::GetParticipationEventStatus { event_id } => Ok(
            AccountPlan::Call(AccountCall::GetParticipationEventStatus { event_id }),
        ),
        AccountMethod::GetParticipationEvents => Ok(
            AccountPlan::Call(AccountCall::GetParticipationEvents),
        ),
    }
}

/// What the engine's call produced, brought back in wire form by the
/// caller that performed it.
pub enum CallOutcome {
    /// A transaction was sent.
    SentTransaction(TransactionDto),
    /// Addresses were generated.
    GeneratedAddresses(Vec<AccountAddress>),
    /// Ids of unlockable outputs.
    OutputIds(Vec<OutputId>),
    /// The data of one stored output, when it exists.
    OutputData(Option<OutputDataDto>),
    /// One output of the engine's own type.
    Output(Output),
    /// One stored transaction, when it exists.
    Transaction(Option<TransactionDto>),
    /// The addresses of the account.
    Addresses(Vec<AccountAddress>),
    /// The addresses with unspent outputs.
    AddressesWithUnspentOutputs(Vec<AddressWithUnspentOutputs>),
    /// The data of stored outputs.
    OutputsData(Vec<OutputDataDto>),
    /// Stored transactions.
    Transactions(Vec<TransactionDto>),
    /// A native token mint.
    MintTokenTransaction(MintTokenTransactionDto),
    /// The balance of the account.
    Balance(AccountBalanceDto),
    /// A prepared transaction.
    PreparedTransaction(PreparedTransactionDataDto),
    /// The id of the including block.
    BlockId(BlockId),
    /// Signed transaction data.
    SignedTransactionData(SignedTransactionDataDto),
    /// Plain success.
    Done,
    /// The voting power of the account.
    VotingPower(u64),
    /// A participation overview.
    ParticipationOverview(ParticipationOverview),
    /// Participation events, keyed by event id.
    ParticipationEvents(ParticipationEventsDto),
    /// One participation event with its nodes, when registered.
    ParticipationEvent(Option<ParticipationEventWithNodes>),
    /// Ids of participation events.
    ParticipationEventIds(Vec<ParticipationEventId>),
    /// The status of a participation event.
    ParticipationEventStatus(ParticipationEventStatus),
}

/// The kind of response an outcome is wrapped into.
pub open spec fn outcome_kind(o: CallOutcome) -> ResponseKind {
    match o {
        CallOutcome::SentTransaction(..) => ResponseKind::SentTransaction,
        CallOutcome::GeneratedAddresses(..) => ResponseKind::GeneratedAddress,
        CallOutcome::OutputIds(..) => ResponseKind::OutputIds,
        CallOutcome::OutputData(..) => ResponseKind::OutputData,
        CallOutcome::Output(..) => ResponseKind::Output,
        CallOutcome::Transaction(..) => ResponseKind::Transaction,
        CallOutcome::Addresses(..) => ResponseKind::Addresses,
        CallOutcome::AddressesWithUnspentOutputs(..) => ResponseKind::AddressesWithUnspentOutputs,
        CallOutcome::OutputsData(..) => ResponseKind::OutputsData,
        CallOutcome::Transactions(..) => ResponseKind::Transactions,
        CallOutcome::MintTokenTransaction(..) => ResponseKind::MintTokenTransaction,
        CallOutcome::Balance(..) => ResponseKind::Balance,
        CallOutcome::PreparedTransaction(..) => ResponseKind::PreparedTransaction,
        CallOutcome::BlockId(..) => ResponseKind::BlockId,
        CallOutcome::SignedTransactionData(..) => ResponseKind::SignedTransactionData,
        CallOutcome::Done => ResponseKind::Done,
        CallOutcome::VotingPower(..) => ResponseKind::VotingPower,
        CallOutcome::ParticipationOverview(..) => ResponseKind::AccountParticipationOverview,
        CallOutcome::ParticipationEvents(..) => ResponseKind::ParticipationEvents,
        CallOutcome::ParticipationEvent(..) => ResponseKind::ParticipationEvent,
        CallOutcome::ParticipationEventIds(..) => ResponseKind::ParticipationEventIds,
        CallOutcome::ParticipationEventStatus(..) => ResponseKind::ParticipationEventStatus,
    }
}

/// Which outcomes the engine can bring back for `c`.
pub open spec fn outcome_matches(c: AccountCall, o: CallOutcome) -> bool {
    match c {
        AccountCall::Burn { .. } => o is SentTransaction,
        AccountCall::ConsolidateOutputs { .. } => o is SentTransaction,
        AccountCall::CreateAliasOutput { .. } => o is SentTransaction,
        AccountCall::GenerateAddresses { .. } => o is GeneratedAddresses,
        AccountCall::GetOutput { .. } => o is OutputData,
        AccountCall::GetFoundryOutput { .. } => o is Output,
        AccountCall::GetOutputsWithAdditionalUnlockConditions { .. } => o is OutputIds,
        AccountCall::GetTransaction { .. } => o is Transaction,
        AccountCall::GetIncomingTransaction { .. } => o is Transaction,
        AccountCall::Addresses => o is Addresses,
        AccountCall::AddressesWithUnspentOutputs => o is AddressesWithUnspentOutputs,
        AccountCall::Outputs { .. } => o is OutputsData,
        AccountCall::UnspentOutputs { .. } => o is OutputsData,
        AccountCall::IncomingTransactions => o is Transactions,
        AccountCall::Transactions => o is Transactions,
        AccountCall::PendingTransactions => o is Transactions,
        AccountCall::DecreaseNativeTokenSupply { .. } => o is SentTransaction,
        AccountCall::IncreaseNativeTokenSupply { .. } => o is MintTokenTransaction,
        AccountCall::MintNativeToken { .. } => o is MintTokenTransaction,
        AccountCall::MintNfts { .. } => o is SentTransaction,
        AccountCall::GetBalance => o is Balance,
        AccountCall::PrepareOutput { .. } => o is Output,
        AccountCall::PrepareSendAmount { .. } => o is PreparedTransaction,
        AccountCall::PrepareTransaction { .. } => o is PreparedTransaction,
        AccountCall::RetryTransactionUntilIncluded { .. } => o is BlockId,
        AccountCall::Sync { .. } => o is Balance,
        AccountCall::SendAmount { .. } => o is SentTransaction,
        AccountCall::SendNativeTokens { .. } => o is SentTransaction,
        AccountCall::SendNft { .. } => o is SentTransaction,
        AccountCall::SetAlias { .. } => o is Done,
        AccountCall::SetDefaultSyncOptions { .. } => o is Done,
        AccountCall::SendOutputs { .. } => o is SentTransaction,
        AccountCall::SignTransactionEssence { .. } => o is SignedTransactionData,
        AccountCall::SubmitAndStoreTransaction { .. } => o is SentTransaction,
        AccountCall::ClaimOutputs { .. } => o is SentTransaction,
        AccountCall::Vote { .. } => o is SentTransaction,
        AccountCall::StopParticipating { .. } => o is SentTransaction,
        AccountCall::GetVotingPower => o is VotingPower,
        AccountCall::GetParticipationOverview { .. } => o is ParticipationOverview,
        AccountCall::IncreaseVotingPower { .. } => o is SentTransaction,
        AccountCall::DecreaseVotingPower { .. } => o is SentTransaction,
        AccountCall::RegisterParticipationEvents { .. } => o is ParticipationEvents,
        AccountCall::DeregisterParticipationEvent { .. } => o is Done,
        AccountCall::GetParticipationEvent { .. } => o is ParticipationEvent,
        AccountCall::GetParticipationEventIds { .. } => o is ParticipationEventIds,
        AccountCall::GetParticipationEventStatus { .. } => o is ParticipationEventStatus,
        AccountCall::GetParticipationEvents => o is ParticipationEvents,
    }
}

/// The response kind each method documents.
pub open spec fn expected_response_kind(m: AccountMethod) -> ResponseKind {
    match m {
        AccountMethod::Burn { .. } => ResponseKind::SentTransaction,
        AccountMethod::ConsolidateOutputs { .. } => ResponseKind::SentTransaction,
        AccountMethod::CreateAliasOutput { .. } => ResponseKind::SentTransaction,
        AccountMethod::GenerateAddresses { .. } => ResponseKind::GeneratedAddress,
        AccountMethod::GetOutput { .. } => ResponseKind::OutputData,
        AccountMethod::GetFoundryOutput { .. } => ResponseKind::Output,
        AccountMethod::GetOutputsWithAdditionalUnlockConditions { .. } => ResponseKind::OutputIds,
        AccountMethod::GetTransaction { .. } => ResponseKind::Transaction,
        AccountMethod::GetIncomingTransaction { .. } => ResponseKind::Transaction,
        AccountMethod::Addresses => ResponseKind::Addresses,
        AccountMethod::AddressesWithUnspentOutputs => ResponseKind::AddressesWithUnspentOutputs,
        AccountMethod::Outputs { .. } => ResponseKind::OutputsData,
        AccountMethod::UnspentOutputs { .. } => ResponseKind::OutputsData,
        AccountMethod::IncomingTransactions => ResponseKind::Transactions,
        AccountMethod::Transactions => ResponseKind::Transactions,
        AccountMethod::PendingTransactions => ResponseKind::Transactions,
        AccountMethod::DecreaseNativeTokenSupply { .. } => ResponseKind::SentTransaction,
        AccountMethod::MinimumRequiredStorageDeposit { .. } => (
        ResponseKind::MinimumRequiredStorageDeposit),
        AccountMethod::IncreaseNativeTokenSupply { .. } => ResponseKind::MintTokenTransaction,
        AccountMethod::MintNativeToken { .. } => ResponseKind::MintTokenTransaction,
        AccountMethod::MintNfts { .. } => ResponseKind::SentTransaction,
        AccountMethod::GetBalance => ResponseKind::Balance,
        AccountMethod::PrepareOutput { .. } => ResponseKind::Output,
        AccountMethod::PrepareTransaction { .. } => ResponseKind::PreparedTransaction,
        AccountMethod::PrepareSendAmount { .. } => ResponseKind::PreparedTransaction,
        AccountMethod::RetryTransactionUntilIncluded { .. } => ResponseKind::BlockId,
        AccountMethod::Sync { .. } => ResponseKind::Balance,
        AccountMethod::SendAmount { .. } => ResponseKind::SentTransaction,
        AccountMethod::SendNativeTokens { .. } => ResponseKind::SentTransaction,
        AccountMethod::SendNft { .. } => ResponseKind::SentTransaction,
        AccountMethod::SetAlias { .. } => ResponseKind::Done,
        AccountMethod::SetDefaultSyncOptions { .. } => ResponseKind::Done,
        AccountMethod::SendOutputs { .. } => ResponseKind::SentTransaction,
        AccountMethod::SignTransactionEssence { .. } => ResponseKind::SignedTransactionData,
        AccountMethod::SubmitAndStoreTransaction { .. } => ResponseKind::SentTransaction,
        AccountMethod::ClaimOutputs { .. } => ResponseKind::SentTransaction,
        AccountMethod::Vote { .. } => ResponseKind::SentTransaction,
        AccountMethod::StopParticipating { .. } => ResponseKind::SentTransaction,
        AccountMethod::GetVotingPower => ResponseKind::VotingPower,
        AccountMethod::GetParticipationOverview { .. } => (
        ResponseKind::AccountParticipationOverview),
        AccountMethod::IncreaseVotingPower { .. } => ResponseKind::SentTransaction,
        AccountMethod::DecreaseVotingPower { .. } => ResponseKind::SentTransaction,
        AccountMethod::RegisterParticipationEvents { .. } => ResponseKind::ParticipationEvents,
        AccountMethod::DeregisterParticipationEvent { .. } => ResponseKind::Done,
        AccountMethod::GetParticipationEvent { .. } => ResponseKind::ParticipationEvent,
        AccountMethod::GetParticipationEventIds { .. } => ResponseKind::ParticipationEventIds,
        AccountMethod::GetParticipationEventStatus { .. } => (
        ResponseKind::ParticipationEventStatus),
        AccountMethod::GetParticipationEvents => ResponseKind::ParticipationEvents,
    }
}

/// Wraps one engine outcome into the response envelope. Every payload is
/// kept as it came; the voting power is written in decimal, and an output
/// of the engine's own type leaves in wire form.
pub fn respond(outcome: CallOutcome) -> (r: Response)
    ensures
        response_kind(r) == outcome_kind(outcome),
        (outcome matches CallOutcome::SentTransaction(t) ==> r == Response::SentTransaction(t)),
        (outcome matches CallOutcome::GeneratedAddresses(a) ==> r == Response::GeneratedAddress(
            a,
        )),
        (outcome matches CallOutcome::OutputIds(v) ==> r == Response::OutputIds(v)),
        (outcome matches CallOutcome::OutputData(d) ==> r matches Response::OutputData(rd) && (
        match (d, rd) {
            (Some(x), Some(b)) => *b == x,
            (None, None) => true,
            _ => false,
        })),
        (outcome matches CallOutcome::Transaction(t) ==> r matches Response::Transaction(rt) && (
        match (t, rt) {
            (Some(x), Some(b)) => *b == x,
            (None, None) => true,
            _ => false,
        })),
        (outcome matches CallOutcome::Addresses(a) ==> r == Response::Addresses(a)),
        (outcome matches CallOutcome::AddressesWithUnspentOutputs(a) ==> r
            == Response::AddressesWithUnspentOutputs(a)),
        (outcome matches CallOutcome::OutputsData(v) ==> r == Response::OutputsData(v)),
        (outcome matches CallOutcome::Transactions(v) ==> r == Response::Transactions(v)),
        (outcome matches CallOutcome::MintTokenTransaction(m) ==> r
            == Response::MintTokenTransaction(m)),
        (outcome matches CallOutcome::Balance(b) ==> r == Response::Balance(b)),
        (outcome matches CallOutcome::PreparedTransaction(p) ==> r == Response::PreparedTransaction(
            p,
        )),
        (outcome matches CallOutcome::BlockId(b) ==> r == Response::BlockId(b)),
        (outcome matches CallOutcome::SignedTransactionData(s) ==> r
            == Response::SignedTransactionData(s)),
        (outcome matches CallOutcome::Output(o) ==> r == Response::Output(output_dto_of(o))),
        (outcome matches CallOutcome::Done ==> r == Response::Done),
        (outcome matches CallOutcome::VotingPower(n) ==> r matches Response::VotingPower(s) && s@
            =~= u64_dec(n as int)),
        (outcome matches CallOutcome::ParticipationOverview(o) ==> r
            == Response::AccountParticipationOverview(o)),
        (outcome matches CallOutcome::ParticipationEvents(e) ==> r == Response::ParticipationEvents(
            e,
        )),
        (outcome matches CallOutcome::ParticipationEvent(e) ==> r == Response::ParticipationEvent(
            e,
        )),
        (outcome matches CallOutcome::ParticipationEventIds(v) ==> r
            == Response::ParticipationEventIds(v)),
        (outcome matches CallOutcome::ParticipationEventStatus(s) ==> r
            == Response::ParticipationEventStatus(s)),
{
    match outcome {
        CallOutcome::SentTransaction(t) => Response::SentTransaction(t),
        CallOutcome::GeneratedAddresses(a) => Response::GeneratedAddress(a),
        CallOutcome::OutputIds(v) => Response::OutputIds(v),
        CallOutcome::OutputData(d) => match d {
            Some(x) => Response::OutputData(Some(Box::new(x))),
            None => Response::OutputData(None),
        },
        CallOutcome::Output(o) => Response::Output(output_to_dto(&o)),
        CallOutcome::Transaction(t) => match t {
            Some(x) => Response::Transaction(Some(Box::new(x))),
            None => Response::Transaction(None),
        },
        CallOutcome::Addresses(a) => Response::Addresses(a),
        CallOutcome::AddressesWithUnspentOutputs(a) => Response::AddressesWithUnspentOutputs(a),
        CallOutcome::OutputsData(v) => Response::OutputsData(v),
        CallOutcome::Transactions(v) => Response::Transactions(v),
        CallOutcome::MintTokenTransaction(m) => Response::MintTokenTransaction(m),
        CallOutcome::Balance(b) => Response::Balance(b),
        CallOutcome::PreparedTransaction(p) => Response::PreparedTransaction(p),
        CallOutcome::BlockId(b) => Response::BlockId(b),
        CallOutcome::SignedTransactionData(s) => Response::SignedTransactionData(s),
        CallOutcome::Done => Response::Done,
        CallOutcome::VotingPower(n) => Response::VotingPower(format_u64(n)),
        CallOutcome::ParticipationOverview(o) => Response::AccountParticipationOverview(o),
        CallOutcome::ParticipationEvents(e) => Response::ParticipationEvents(e),
        CallOutcome::ParticipationEvent(e) => Response::ParticipationEvent(e),
        CallOutcome::ParticipationEventIds(v) => Response::ParticipationEventIds(v),
        CallOutcome::ParticipationEventStatus(s) => Response::ParticipationEventStatus(s),
    }
}

/// The dispatch honors the documented response contract: whenever a
/// method was planned into an engine call, every outcome the engine can
/// bring back for that call is wrapped into a response of exactly the
/// kind the method documents.
pub proof fn lemma_response_kind_matches(m: AccountMethod, c: AccountCall, o: CallOutcome)
    requires
        call_for_method(m, c),
        outcome_matches(c, o),
    ensures
        outcome_kind(o) == expected_response_kind(m),
{
}

} // verus!

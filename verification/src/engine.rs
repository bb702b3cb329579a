//! Declarations of the engine's own types that run through the vocabulary,
//! and the few engine computations this layer invokes itself.
//!
//! Every item here either names an outside type so that it can stand in a
//! field or a signature, or wraps one outside call. Values of these types
//! are carried through the dispatch unread.

use vstd::prelude::*;

use iota_sdk::types::block::output::Rent;
use iota_sdk::types::TryFromDto;

verus! {

#[verifier::external_type_specification]
#[verifier::external_body]
pub struct ExValue(serde_json::Value);

#[verifier::external_type_specification]
#[verifier::external_body]
pub struct ExOutputId(iota_sdk::types::block::output::OutputId);

#[verifier::external_type_specification]
#[verifier::external_body]
pub struct ExTokenId(iota_sdk::types::block::output::TokenId);

#[verifier::external_type_specification]
#[verifier::external_body]
pub struct ExTransactionId(iota_sdk::types::block::payload::transaction::TransactionId);

#[verifier::external_type_specification]
#[verifier::external_body]
pub struct ExBlockId(iota_sdk::types::block::BlockId);

#[verifier::external_type_specification]
#[verifier::external_body]
pub struct ExOutput(iota_sdk::types::block::output::Output);

#[verifier::external_type_specification]
#[verifier::external_body]
pub struct ExOutputDto(iota_sdk::types::block::output::dto::OutputDto);

#[verifier::external_type_specification]
#[verifier::external_body]
pub struct ExRentStructure(iota_sdk::types::block::output::RentStructure);

#[verifier::external_type_specification]
#[verifier::external_body]
pub struct ExBlockError(iota_sdk::types::block::Error);

#[verifier::external_type_specification]
#[verifier::external_body]
pub struct ExU256(iota_sdk::U256);

#[verifier::external_type_specification]
#[verifier::external_body]
pub struct ExParticipationEventId(
    iota_sdk::types::api::plugins::participation::types::ParticipationEventId,
);

#[verifier::external_type_specification]
#[verifier::external_body]
pub struct ExParticipationEventType(
    iota_sdk::types::api::plugins::participation::types::ParticipationEventType,
);

#[verifier::external_type_specification]
#[verifier::external_body]
pub struct ExParticipationEventStatus(
    iota_sdk::types::api::plugins::participation::types::ParticipationEventStatus,
);

#[verifier::external_type_specification]
#[verifier::external_body]
pub struct ExUrl(url::Url);

#[verifier::external_type_specification]
#[verifier::external_body]
pub struct ExPathBuf(std::path::PathBuf);

/// What `Output::try_from_dto_with_params` returns for a wire form and a
/// token supply: the checked output, or the engine's refusal. The call
/// reads nothing but its arguments.
pub uninterp spec fn checked_output_of(
    dto: iota_sdk::types::block::output::dto::OutputDto,
    token_supply: u64,
) -> Result<iota_sdk::types::block::output::Output, iota_sdk::types::block::Error>;

/// What `OutputDto::from` returns for an output: its wire form, a pure
/// structural mapping.
pub uninterp spec fn output_dto_of(
    output: iota_sdk::types::block::output::Output,
) -> iota_sdk::types::block::output::dto::OutputDto;

/// What `Rent::rent_cost` returns for an output and a rent structure: the
/// storage deposit charged, computed from the two arguments alone.
pub uninterp spec fn rent_cost_spec(
    output: iota_sdk::types::block::output::Output,
    rent_structure: iota_sdk::types::block::output::RentStructure,
) -> u64;

/// Relies on `Output::try_from_dto_with_params`: builds an output from its
/// wire form, checking it against the given token supply; which wire forms
/// are accepted is the engine's own rule, a function of the two arguments.
#[verifier::external_body]
pub(crate) fn output_from_dto(
    dto: &iota_sdk::types::block::output::dto::OutputDto,
    token_supply: u64,
) -> (r: Result<iota_sdk::types::block::output::Output, iota_sdk::types::block::Error>)
    ensures
        r == checked_output_of(*dto, token_supply),
{
    iota_sdk::types::block::output::Output::try_from_dto_with_params(dto.clone(), token_supply)
}

/// Relies on `OutputDto::from`: the wire form of an output.
#[verifier::external_body]
pub(crate) fn output_to_dto(
    output: &iota_sdk::types::block::output::Output,
) -> (r: iota_sdk::types::block::output::dto::OutputDto)
    ensures
        r == output_dto_of(*output),
{
    iota_sdk::types::block::output::dto::OutputDto::from(output)
}

/// Relies on `Rent::rent_cost`: the storage deposit the given rent
/// structure charges for the output.
#[verifier::external_body]
pub(crate) fn rent_cost_of(
    output: &iota_sdk::types::block::output::Output,
    rent_structure: &iota_sdk::types::block::output::RentStructure,
) -> (r: u64)
    ensures
        r == rent_cost_spec(*output, *rent_structure),
{
    output.rent_cost(rent_structure)
}

} // verus!

use iota_sdk_bindings_core::error::DispatchError;
use iota_sdk_bindings_core::method::account::AccountMethod;
use iota_sdk_bindings_core::method_handler::account::{
    client_need, plan_account_call, respond, AccountCall, AccountPlan, CallOutcome, ClientData,
    ClientNeed,
};
use iota_sdk_bindings_core::payload::{SyncOptions, TransactionDto};
use iota_sdk_bindings_core::response::Response;

use iota_sdk::types::block::output::dto::OutputDto;
use iota_sdk::types::block::output::RentStructure;

fn no_client_data() -> ClientData {
    ClientData { token_supply: None, rent_structure: None }
}

const BASIC_OUTPUT_JSON: &str = r#"{
    "type": 3,
    "amount": "1000000",
    "unlockConditions": [
        {
            "type": 0,
            "address": {
                "type": 0,
                "pubKeyHash": "0x7ffec9e1233204d9c6dce6812b1539ee96af691ca2e4d9065daa85907d33e5d3"
            }
        }
    ]
}"#;

const ZERO_AMOUNT_OUTPUT_JSON: &str = r#"{
    "type": 3,
    "amount": "0",
    "unlockConditions": [
        {
            "type": 0,
            "address": {
                "type": 0,
                "pubKeyHash": "0x7ffec9e1233204d9c6dce6812b1539ee96af691ca2e4d9065daa85907d33e5d3"
            }
        }
    ]
}"#;

const TOKEN_SUPPLY: u64 = 1813620509061365;

#[test]
fn addresses_maps_to_its_call() {
    let plan = plan_account_call(AccountMethod::Addresses, &no_client_data());
    assert!(matches!(plan, Ok(AccountPlan::Call(AccountCall::Addresses))));
}

#[test]
fn set_alias_forwards_the_alias() {
    let plan = plan_account_call(
        AccountMethod::SetAlias { alias: "savings".to_string() },
        &no_client_data(),
    );
    match plan {
        Ok(AccountPlan::Call(AccountCall::SetAlias { alias })) => assert_eq!(alias, "savings"),
        _ => panic!("unexpected plan"),
    }
}

#[test]
fn consolidate_outputs_forwards_its_fields() {
    let plan = plan_account_call(
        AccountMethod::ConsolidateOutputs {
            force: true,
            output_consolidation_threshold: Some(3),
        },
        &no_client_data(),
    );
    match plan {
        Ok(AccountPlan::Call(AccountCall::ConsolidateOutputs {
            force,
            output_consolidation_threshold,
        })) => {
            assert!(force);
            assert_eq!(output_consolidation_threshold, Some(3));
        },
        _ => panic!("unexpected plan"),
    }
}

#[test]
fn sync_forwards_missing_options() {
    let plan = plan_account_call(AccountMethod::Sync { options: None }, &no_client_data());
    assert!(matches!(plan, Ok(AccountPlan::Call(AccountCall::Sync { options: None }))));
}

#[test]
fn sync_forwards_present_options() {
    let plan = plan_account_call(
        AccountMethod::Sync { options: Some(SyncOptions(serde_json::Value::Null)) },
        &no_client_data(),
    );
    assert!(matches!(plan, Ok(AccountPlan::Call(AccountCall::Sync { options: Some(_) }))));
}

#[test]
fn increase_voting_power_reads_the_amount() {
    let plan = plan_account_call(
        AccountMethod::IncreaseVotingPower { amount: "4000".to_string() },
        &no_client_data(),
    );
    match plan {
        Ok(AccountPlan::Call(AccountCall::IncreaseVotingPower { amount })) => {
            assert_eq!(amount, 4000)
        },
        _ => panic!("unexpected plan"),
    }
}

#[test]
fn decrease_voting_power_accepts_a_plus_sign() {
    let plan = plan_account_call(
        AccountMethod::DecreaseVotingPower { amount: "+7".to_string() },
        &no_client_data(),
    );
    match plan {
        Ok(AccountPlan::Call(AccountCall::DecreaseVotingPower { amount })) => {
            assert_eq!(amount, 7)
        },
        _ => panic!("unexpected plan"),
    }
}

#[test]
fn increase_voting_power_refuses_a_bad_amount() {
    let plan = plan_account_call(
        AccountMethod::IncreaseVotingPower { amount: "12x".to_string() },
        &no_client_data(),
    );
    match plan {
        Err(DispatchError::InvalidAmount(amount)) => {
            assert_eq!(amount, "12x");
        },
        _ => panic!("expected an invalid amount error"),
    }
}

#[test]
fn decrease_voting_power_refuses_an_overflowing_amount() {
    let plan = plan_account_call(
        AccountMethod::DecreaseVotingPower { amount: "18446744073709551616".to_string() },
        &no_client_data(),
    );
    match plan {
        Err(e) => assert_eq!(e.label(), "invalid amount"),
        _ => panic!("expected an invalid amount error"),
    }
}

#[test]
fn client_need_of_each_kind() {
    assert_eq!(client_need(&AccountMethod::GetBalance), ClientNeed::Nothing);
    assert_eq!(
        client_need(&AccountMethod::PrepareTransaction { outputs: Vec::new(), options: None }),
        ClientNeed::TokenSupply
    );
    let output: OutputDto = serde_json::from_str(BASIC_OUTPUT_JSON).unwrap();
    assert_eq!(
        client_need(&AccountMethod::MinimumRequiredStorageDeposit { output }),
        ClientNeed::TokenSupplyAndRent
    );
}

#[test]
fn minimum_storage_deposit_is_a_decimal_amount() {
    let output: OutputDto = serde_json::from_str(BASIC_OUTPUT_JSON).unwrap();
    let client = ClientData {
        token_supply: Some(TOKEN_SUPPLY),
        rent_structure: Some(RentStructure::new(100, 1, 10)),
    };
    let plan = plan_account_call(AccountMethod::MinimumRequiredStorageDeposit { output }, &client);
    match plan {
        Ok(AccountPlan::Respond(Response::MinimumRequiredStorageDeposit(deposit))) => {
            let value = iota_sdk_bindings_core::numeric::parse_u64(&deposit)
                .expect("the deposit is written in decimal");
            assert!(value > 0);
        },
        _ => panic!("expected a ready response"),
    }
}

#[test]
fn minimum_storage_deposit_under_a_free_rent_structure_is_zero() {
    let output: OutputDto = serde_json::from_str(BASIC_OUTPUT_JSON).unwrap();
    let client = ClientData {
        token_supply: Some(TOKEN_SUPPLY),
        rent_structure: Some(RentStructure::new(0, 0, 0)),
    };
    let plan = plan_account_call(AccountMethod::MinimumRequiredStorageDeposit { output }, &client);
    match plan {
        Ok(AccountPlan::Respond(Response::MinimumRequiredStorageDeposit(deposit))) => {
            assert_eq!(deposit, "0");
        },
        _ => panic!("expected a ready response"),
    }
}

#[test]
fn minimum_storage_deposit_refuses_a_zero_amount_output() {
    let output: OutputDto = serde_json::from_str(ZERO_AMOUNT_OUTPUT_JSON).unwrap();
    let client = ClientData {
        token_supply: Some(TOKEN_SUPPLY),
        rent_structure: Some(RentStructure::new(100, 1, 10)),
    };
    let plan = plan_account_call(AccountMethod::MinimumRequiredStorageDeposit { output }, &client);
    match plan {
        Err(e) => assert_eq!(e.label(), "block"),
        _ => panic!("expected the engine's refusal"),
    }
}

#[test]
fn prepare_transaction_checks_each_output() {
    let good: OutputDto = serde_json::from_str(BASIC_OUTPUT_JSON).unwrap();
    let client = ClientData { token_supply: Some(TOKEN_SUPPLY), rent_structure: None };
    let plan = plan_account_call(
        AccountMethod::PrepareTransaction { outputs: vec![good], options: None },
        &client,
    );
    match plan {
        Ok(AccountPlan::Call(AccountCall::PrepareTransaction { outputs, options })) => {
            assert_eq!(outputs.len(), 1);
            assert!(options.is_none());
        },
        _ => panic!("unexpected plan"),
    }
}

#[test]
fn send_outputs_keeps_the_first_refusal() {
    let good: OutputDto = serde_json::from_str(BASIC_OUTPUT_JSON).unwrap();
    let bad: OutputDto = serde_json::from_str(ZERO_AMOUNT_OUTPUT_JSON).unwrap();
    let client = ClientData { token_supply: Some(TOKEN_SUPPLY), rent_structure: None };
    let plan = plan_account_call(
        AccountMethod::SendOutputs { outputs: vec![good, bad], options: None },
        &client,
    );
    match plan {
        Err(e) => assert_eq!(e.label(), "block"),
        _ => panic!("expected the engine's refusal"),
    }
}

#[test]
fn respond_writes_the_voting_power_in_decimal() {
    match respond(CallOutcome::VotingPower(982410)) {
        Response::VotingPower(s) => assert_eq!(s, "982410"),
        _ => panic!("unexpected response"),
    }
}

#[test]
fn respond_acknowledges_plain_success() {
    assert!(matches!(respond(CallOutcome::Done), Response::Done));
}

#[test]
fn respond_keeps_a_missing_transaction_missing() {
    assert!(matches!(
        respond(CallOutcome::Transaction(None)),
        Response::Transaction(None)
    ));
}

#[test]
fn respond_boxes_a_present_transaction() {
    let outcome = CallOutcome::Transaction(Some(TransactionDto(serde_json::Value::Null)));
    assert!(matches!(respond(outcome), Response::Transaction(Some(_))));
}

#[test]
fn respond_wraps_an_output_in_wire_form() {
    let dto: OutputDto = serde_json::from_str(BASIC_OUTPUT_JSON).unwrap();
    let client = ClientData { token_supply: Some(TOKEN_SUPPLY), rent_structure: None };
    let plan = plan_account_call(
        AccountMethod::PrepareTransaction { outputs: vec![dto], options: None },
        &client,
    );
    let output = match plan {
        Ok(AccountPlan::Call(AccountCall::PrepareTransaction { mut outputs, .. })) => {
            outputs.pop().unwrap()
        },
        _ => panic!("unexpected plan"),
    };
    match respond(CallOutcome::Output(output)) {
        Response::Output(OutputDto::Basic(basic)) => assert_eq!(basic.amount, "1000000"),
        _ => panic!("unexpected response"),
    }
}

#[test]
fn burn_forwards_its_payload() {
    let wire = serde_json::Value::String("burn body".to_string());
    let plan = plan_account_call(
        AccountMethod::Burn {
            burn: iota_sdk_bindings_core::payload::BurnDto(wire.clone()),
            options: None,
        },
        &no_client_data(),
    );
    match plan {
        Ok(AccountPlan::Call(AccountCall::Burn { burn, options })) => {
            assert_eq!(burn.0, wire);
            assert!(options.is_none());
        },
        _ => panic!("unexpected plan"),
    }
}

#[test]
fn mint_nfts_keeps_every_param() {
    let params = vec![
        iota_sdk_bindings_core::payload::MintNftParamsDto(serde_json::Value::Null),
        iota_sdk_bindings_core::payload::MintNftParamsDto(serde_json::Value::Bool(true)),
    ];
    let plan = plan_account_call(
        AccountMethod::MintNfts { params, options: None },
        &no_client_data(),
    );
    match plan {
        Ok(AccountPlan::Call(AccountCall::MintNfts { params, .. })) => {
            assert_eq!(params.len(), 2);
            assert_eq!(params[1].0, serde_json::Value::Bool(true));
        },
        _ => panic!("unexpected plan"),
    }
}

#[test]
fn retry_forwards_interval_and_attempts() {
    let transaction_id =
        "0x24a1f46bdb6b2bf38f1c59f73cdd4ae5b418804bb231d76d06fbf246498d5883"
            .parse::<iota_sdk::types::block::payload::transaction::TransactionId>()
            .unwrap();
    let plan = plan_account_call(
        AccountMethod::RetryTransactionUntilIncluded {
            transaction_id,
            interval: Some(5),
            max_attempts: Some(10),
        },
        &no_client_data(),
    );
    match plan {
        Ok(AccountPlan::Call(AccountCall::RetryTransactionUntilIncluded {
            interval,
            max_attempts,
            ..
        })) => {
            assert_eq!(interval, Some(5));
            assert_eq!(max_attempts, Some(10));
        },
        _ => panic!("unexpected plan"),
    }
}

#[test]
fn get_incoming_transaction_is_its_own_call() {
    let transaction_id =
        "0x24a1f46bdb6b2bf38f1c59f73cdd4ae5b418804bb231d76d06fbf246498d5883"
            .parse::<iota_sdk::types::block::payload::transaction::TransactionId>()
            .unwrap();
    let plan = plan_account_call(
        AccountMethod::GetIncomingTransaction { transaction_id },
        &no_client_data(),
    );
    assert!(matches!(
        plan,
        Ok(AccountPlan::Call(AccountCall::GetIncomingTransaction { .. }))
    ));
}

#[test]
fn respond_keeps_outputs_data() {
    let outcome = CallOutcome::OutputsData(vec![
        iota_sdk_bindings_core::payload::OutputDataDto(serde_json::Value::Null),
    ]);
    match respond(outcome) {
        Response::OutputsData(data) => assert_eq!(data.len(), 1),
        _ => panic!("unexpected response"),
    }
}

#[test]
fn respond_boxes_present_output_data() {
    let outcome = CallOutcome::OutputData(Some(iota_sdk_bindings_core::payload::OutputDataDto(
        serde_json::Value::Bool(false),
    )));
    match respond(outcome) {
        Response::OutputData(Some(data)) => assert_eq!(data.0, serde_json::Value::Bool(false)),
        _ => panic!("unexpected response"),
    }
}

#[test]
fn respond_keeps_output_ids() {
    match respond(CallOutcome::OutputIds(Vec::new())) {
        Response::OutputIds(ids) => assert!(ids.is_empty()),
        _ => panic!("unexpected response"),
    }
}

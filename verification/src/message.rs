use vstd::prelude::*;

use crate::coin::Coin;
use crate::errors::ExecError;

verus! {

#[verifier::external_type_specification]
#[verifier::external_body]
pub struct ExJsonValue(serde_json::Value);

/// Whether a string is well-formed JSON, as serde_json's parser decides it.
pub uninterp spec fn json_valid(s: Seq<char>) -> bool;

/// Relies on serde_json::from_str::<Value>: whether a string parses as a
/// JSON document depends on its text alone.
#[verifier::external_body]
fn parse_json(s: &str) -> (r: Option<serde_json::Value>)
    ensures
        r is Some <==> json_valid(s@),
{
    serde_json::from_str(s).ok()
}

/// Whether a string is a chain-format account address (bech32 with the
/// chain's prefix and length), as the chain client's decoder decides it.
pub uninterp spec fn address_ok(s: Seq<char>) -> bool;

/// Relies on terra_rust_api::PublicKey::from_account: it bech32-decodes the
/// address and checks the `terra` prefix and length; success depends on the
/// text alone.
#[verifier::external_body]
fn check_address(s: &str) -> (r: bool)
    ensures
        r == address_ok(s@),
{
    terra_rust_api::PublicKey::from_account(s).is_ok()
}

/// A single contract-execution instruction, fully determined: the sender's
/// account address, the contract invoked, the validated JSON argument, and
/// the attached funds.
#[derive(Debug)]
pub struct ExecuteRequest {
    pub sender_account: String,
    pub contract_address: String,
    pub payload: serde_json::Value,
    pub funds: Vec<Coin>,
}

/// Validate the raw JSON payload at the command-line boundary, before any
/// network-bound step runs. Malformed JSON is a `ParseError` naming the
/// payload; the parsed value is carried through to the message builder.
pub fn validate_payload(json: &str) -> (r: Result<serde_json::Value, ExecError>)
    ensures
        r is Ok <==> json_valid(json@),
        r matches Err(e) ==> e matches ExecError::ParseError(m) && m@ == json@,
{
    match parse_json(json) {
        Some(v) => Ok(v),
        None => Err(ExecError::ParseError(json.to_owned())),
    }
}

/// Combine the sender's account address, the contract address, the already
/// validated payload, and the parsed funds into one execute request. Pure
/// construction: it fails only when the contract address fails the
/// delegated chain-format check, with `AddressError` naming the address.
pub fn build_execute_message(
    sender_account: &str,
    contract_address: &str,
    payload: serde_json::Value,
    funds: Vec<Coin>,
) -> (r: Result<ExecuteRequest, ExecError>)
    ensures
        r is Ok <==> address_ok(contract_address@),
        r matches Ok(m) ==> m.sender_account@ == sender_account@ && m.contract_address@
            == contract_address@ && m.payload == payload && m.funds == funds,
        r matches Err(e) ==> e matches ExecError::AddressError(a) && a@ == contract_address@,
{
    if !check_address(contract_address) {
        return Err(ExecError::AddressError(contract_address.to_owned()));
    }
    Ok(
        ExecuteRequest {
            sender_account: sender_account.to_owned(),
            contract_address: contract_address.to_owned(),
            payload,
            funds,
        },
    )
}

} // verus!

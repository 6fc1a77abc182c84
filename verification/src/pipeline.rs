use vstd::prelude::*;

use crate::coin::{parse_coins, parse_coins_spec, Coin, CoinModel};
use crate::errors::ExecError;
use crate::explorer::{explorer_url, explorer_url_spec};
use crate::gas::{
    explicit_gas_options_spec, resolve_gas_options, FeeInputs, GasResolution,
};
use crate::identity::{signer_request, SignerRequest};
use crate::message::{json_valid, validate_payload};

verus! {

/// The process-wide configuration, read once at startup and passed into
/// every stage; nothing is kept in ambient globals.
#[derive(Debug, Clone)]
pub struct CliConfig {
    pub lcd: String,
    pub fcd: String,
    pub chain_id: String,
    pub wallet: String,
    pub seed: String,
    pub fee: FeeInputs,
}

/// The contract-execution subcommand's parameters.
#[derive(Debug, Clone)]
pub struct ExecCmd {
    pub contract: String,
    pub sender: String,
    pub coins: Option<String>,
    pub json: String,
}

/// The subcommands this client accepts.
#[derive(Debug, Clone)]
pub enum Command {
    Exec(ExecCmd),
}

/// The funds directive: absent means no attached coins, otherwise the
/// comma-separated coin list must parse.
pub open spec fn funds_spec(coins: &Option<String>) -> Option<Seq<CoinModel>> {
    match coins {
        None => Some(Seq::empty()),
        Some(s) => parse_coins_spec(s@),
    }
}

/// Everything decided locally before any network-bound step: the validated
/// payload, the parsed funds, the key-derivation request, and the fee
/// resolution (either complete, or awaiting one gas-price answer).
#[derive(Debug)]
pub struct PreparedExec {
    pub payload: serde_json::Value,
    pub funds: Vec<Coin>,
    pub signer: SignerRequest,
    pub gas: GasResolution,
}

/// Run every cheap local validation, in a fixed order, before anything that
/// would touch the network: the JSON payload first, then the coin list,
/// then the fee directives. An input doomed to fail is therefore rejected
/// before the gas-price service or the wallet could be consulted, with no
/// observable side effect.
pub fn prepare(cfg: &CliConfig, cmd: &ExecCmd) -> (r: Result<PreparedExec, ExecError>)
    ensures
        r is Ok <==> (json_valid(cmd.json@) && funds_spec(&cmd.coins) is Some && (
        cfg.fee.gas_price@ == "auto"@ || explicit_gas_options_spec(
            cfg.fee.fees@,
            cfg.fee.gas@,
            cfg.fee.gas_price@,
            cfg.fee.gas_adjustment@,
        ) is Some)),
        !json_valid(cmd.json@) ==> (r matches Err(e) && e matches ExecError::ParseError(m) && m@
            == cmd.json@),
        json_valid(cmd.json@) && funds_spec(&cmd.coins) is None ==> (r matches Err(e)
            && e matches ExecError::ParseError(_)),
        r matches Err(e) ==> e matches ExecError::ParseError(_),
        r matches Ok(p) ==> p.funds@.map_values(|c: Coin| c@) == funds_spec(&cmd.coins).unwrap(),
        r matches Ok(p) ==> p.signer.wallet@ == cfg.wallet@ && p.signer.account@ == cmd.sender@,
        r matches Ok(p) ==> (cfg.seed@.len() == 0 ==> p.signer.seed is None),
        r matches Ok(p) ==> (cfg.seed@.len() > 0 ==> (p.signer.seed matches Some(s) && s@
            == cfg.seed@)),
        r matches Ok(p) ==> (cfg.fee.gas_price@ == "auto"@ ==> (p.gas
            matches GasResolution::NeedsPrice { denom, adjustment } && denom@
            == cfg.fee.gas_price_denom@ && adjustment@ == cfg.fee.gas_adjustment@)),
        r matches Ok(p) ==> (cfg.fee.gas_price@ != "auto"@ ==> (p.gas
            matches GasResolution::Resolved(g) && g@ == explicit_gas_options_spec(
            cfg.fee.fees@,
            cfg.fee.gas@,
            cfg.fee.gas_price@,
            cfg.fee.gas_adjustment@,
        ).unwrap() && g.wf())),
{
    let payload = match validate_payload(cmd.json.as_str()) {
        Ok(v) => v,
        Err(e) => { return Err(e); },
    };
    let funds = match &cmd.coins {
        Some(list) => match parse_coins(list.as_str()) {
            Ok(v) => v,
            Err(e) => { return Err(e); },
        },
        None => {
            let empty: Vec<Coin> = Vec::new();
            proof {
                assert(empty@.map_values(|c: Coin| c@) =~= Seq::<CoinModel>::empty());
            }
            empty
        },
    };
    let gas = match resolve_gas_options(&cfg.fee) {
        Ok(g) => g,
        Err(e) => { return Err(e); },
    };
    let signer = signer_request(cfg.wallet.as_str(), cmd.sender.as_str(), cfg.seed.as_str());
    Ok(PreparedExec { payload, funds, signer, gas })
}

/// The client tag sent along with the transaction, naming the tool and its
/// version.
pub fn memo_tag(name: &str, version: &str) -> (r: String)
    ensures
        r@ == "PFC-"@ + name@ + "/"@ + version@,
{
    let tag = String::from_str("PFC-").concat(name).concat("/").concat(version);
    proof {
        assert(tag@ =~= "PFC-"@ + name@ + "/"@ + version@);
    }
    tag
}

/// What a successful synchronous submission reports back: the hash under
/// which the chain included the transaction.
#[derive(Debug, Clone)]
pub struct SubmissionResult {
    pub tx_hash: String,
}

/// Interpret a successful submission: the printed report is the explorer
/// link for the returned transaction hash, on the network the configured
/// chain identifier selects.
pub fn report_success(chain_id: &str, result: &SubmissionResult) -> (r: String)
    ensures
        r@ == explorer_url_spec(chain_id@, result.tx_hash@),
{
    explorer_url(chain_id, result.tx_hash.as_str())
}

/// Interpret the chain client's submission outcome: a transaction hash
/// becomes the explorer link to print, and a rejection is propagated
/// unchanged as a `SubmissionError` — never retried, since resubmitting a
/// possibly-broadcast transaction is not reasoned about here.
pub fn interpret_submission(chain_id: &str, outcome: Result<SubmissionResult, String>) -> (r:
    Result<String, ExecError>)
    ensures
        outcome matches Ok(res) ==> (r matches Ok(url) && url@ == explorer_url_spec(
            chain_id@,
            res.tx_hash@,
        )),
        outcome matches Err(m) ==> (r matches Err(e) && e matches ExecError::SubmissionError(d)
            && d@ == m@),
{
    match outcome {
        Ok(res) => Ok(report_success(chain_id, &res)),
        Err(m) => Err(ExecError::SubmissionError(m)),
    }
}

} // verus!

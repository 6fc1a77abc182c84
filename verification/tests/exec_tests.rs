use terra_exec::coin::{parse_coin, parse_coins, Coin};
use terra_exec::errors::ExecError;
use terra_exec::explorer::{explorer_url, is_testnet};
use terra_exec::gas::{
    find_price, gas_options_from_price, parse_gas_directive, parse_u64, resolve_gas_explicit,
    resolve_gas_options, FeeInputs, GasDirective, GasResolution,
};
use terra_exec::identity::{key_derivation_failure, signer_request};
use terra_exec::message::{build_execute_message, validate_payload};
use terra_exec::pipeline::{
    interpret_submission, memo_tag, prepare, report_success, CliConfig, Command, ExecCmd,
    SubmissionResult,
};

fn coin(amount: u64, denom: &str) -> Coin {
    Coin { amount, denom: denom.to_string() }
}

// A syntactically valid (bech32-checksummed) contract account address.
const CONTRACT: &str = "terra16ckeuu7c6ggu52a8se005mg5c0kd2kmuun63cu";

fn fee_inputs(fees: &str, gas: &str, gas_price: &str, denom: &str, adj: &str) -> FeeInputs {
    FeeInputs {
        fees: fees.to_string(),
        gas: gas.to_string(),
        gas_price: gas_price.to_string(),
        gas_price_denom: denom.to_string(),
        gas_adjustment: adj.to_string(),
    }
}

#[test]
fn parse_coin_round_trips() {
    assert_eq!(parse_coin("1000uluna").unwrap(), coin(1000, "uluna"));
    assert_eq!(parse_coin("0uusd").unwrap(), coin(0, "uusd"));
    assert_eq!(parse_coin("007ukrw").unwrap(), coin(7, "ukrw"));
    assert_eq!(
        parse_coin("18446744073709551615uluna").unwrap(),
        coin(u64::MAX, "uluna")
    );
}

#[test]
fn parse_coin_rejects_missing_parts() {
    assert!(matches!(parse_coin("uluna"), Err(ExecError::ParseError(m)) if m == "uluna"));
    assert!(matches!(parse_coin("1000"), Err(ExecError::ParseError(_))));
    assert!(matches!(parse_coin(""), Err(ExecError::ParseError(_))));
    assert!(matches!(parse_coin("1000ULUNA"), Err(ExecError::ParseError(_))));
    assert!(matches!(parse_coin("1000 uluna"), Err(ExecError::ParseError(_))));
    // one past the largest representable amount
    assert!(matches!(
        parse_coin("18446744073709551616uluna"),
        Err(ExecError::ParseError(_))
    ));
}

#[test]
fn parse_coins_keeps_order_and_length() {
    let coins = parse_coins("1000uluna,50ukrw").unwrap();
    assert_eq!(coins, vec![coin(1000, "uluna"), coin(50, "ukrw")]);
    let trimmed = parse_coins(" 1000uluna ,\t50ukrw ").unwrap();
    assert_eq!(trimmed, vec![coin(1000, "uluna"), coin(50, "ukrw")]);
}

#[test]
fn parse_coins_empty_inputs() {
    assert_eq!(parse_coins("").unwrap(), vec![]);
    assert_eq!(parse_coins("   ").unwrap(), vec![]);
    assert_eq!(parse_coins(" , ,").unwrap(), vec![]);
    assert_eq!(parse_coins("1000uluna,,50ukrw").unwrap().len(), 2);
}

#[test]
fn parse_coin_allows_digits_inside_denomination() {
    assert_eq!(parse_coin("10co2in").unwrap(), coin(10, "co2in"));
    assert!(matches!(parse_coin("-5uluna"), Err(ExecError::ParseError(_))));
}

#[test]
fn prepare_rejects_bad_coins_after_valid_payload() {
    let cfg = config("auto");
    let cmd = ExecCmd {
        contract: CONTRACT.to_string(),
        sender: "wallet1".to_string(),
        coins: Some("1000uluna,nonsense".to_string()),
        json: "{}".to_string(),
    };
    let err = prepare(&cfg, &cmd).unwrap_err();
    assert!(matches!(err, ExecError::ParseError(m) if m == "nonsense"));
}

#[test]
fn parse_coins_names_offending_segment() {
    let err = parse_coins("1000uluna, 5!bad , 50ukrw").unwrap_err();
    assert!(matches!(err, ExecError::ParseError(m) if m == "5!bad"));
}

#[test]
fn parse_u64_accepts_digits_only() {
    assert_eq!(parse_u64("90000").unwrap(), 90000);
    assert!(matches!(parse_u64(""), Err(ExecError::ParseError(_))));
    assert!(matches!(parse_u64("12x"), Err(ExecError::ParseError(_))));
    assert!(matches!(parse_u64("-5"), Err(ExecError::ParseError(_))));
    assert!(matches!(
        parse_u64("18446744073709551616"),
        Err(ExecError::ParseError(_))
    ));
}

#[test]
fn gas_directive_auto_and_numeric() {
    assert_eq!(parse_gas_directive("auto").unwrap(), GasDirective::Auto);
    assert_eq!(parse_gas_directive("250000").unwrap(), GasDirective::Amount(250000));
    assert!(matches!(parse_gas_directive("fast"), Err(ExecError::ParseError(_))));
}

#[test]
fn explicit_mode_gas_auto_estimates() {
    let opts = resolve_gas_explicit("", "auto", "1000uluna", "1.4").unwrap();
    assert!(opts.estimate_gas);
    assert_eq!(opts.gas, None);
    assert_eq!(opts.fees, vec![]);
    assert_eq!(opts.gas_price, Some(coin(1000, "uluna")));
    assert_eq!(opts.gas_adjustment, Some("1.4".to_string()));
}

#[test]
fn explicit_mode_numeric_gas_is_fixed() {
    let opts = resolve_gas_explicit("100uluna", "250000", "", "1.4").unwrap();
    assert!(!opts.estimate_gas);
    assert_eq!(opts.gas, Some(250000));
    assert_eq!(opts.fees, vec![coin(100, "uluna")]);
    assert_eq!(opts.gas_price, None);
}

#[test]
fn explicit_mode_bad_gas_fails() {
    assert!(matches!(
        resolve_gas_explicit("", "fast", "", "1.4"),
        Err(ExecError::ParseError(_))
    ));
    assert!(matches!(
        resolve_gas_explicit("nonsense", "auto", "", "1.4"),
        Err(ExecError::ParseError(_))
    ));
    assert!(matches!(
        resolve_gas_explicit("", "auto", "1.5uluna", "1.4"),
        Err(ExecError::ParseError(_))
    ));
}

#[test]
fn auto_price_directive_queries_service() {
    let inputs = fee_inputs("", "auto", "auto", "ukrw", "1.4");
    match resolve_gas_options(&inputs).unwrap() {
        GasResolution::NeedsPrice { denom, adjustment } => {
            assert_eq!(denom, "ukrw");
            assert_eq!(adjustment, "1.4");
        }
        GasResolution::Resolved(_) => panic!("auto gas price must consult the service"),
    }
}

#[test]
fn explicit_price_directive_never_queries_service() {
    let inputs = fee_inputs("100uluna", "auto", "1000ukrw", "ukrw", "1.4");
    match resolve_gas_options(&inputs).unwrap() {
        GasResolution::Resolved(opts) => {
            assert_eq!(opts.fees, vec![coin(100, "uluna")]);
            assert!(opts.estimate_gas);
        }
        GasResolution::NeedsPrice { .. } => {
            panic!("explicit gas price must not consult the service")
        }
    }
}

#[test]
fn service_price_yields_no_explicit_fees() {
    let opts = gas_options_from_price(Some(coin(180, "ukrw")), "ukrw", "1.4").unwrap();
    assert_eq!(opts.fees, vec![]);
    assert!(opts.estimate_gas);
    assert_eq!(opts.gas, None);
    assert_eq!(opts.gas_price, Some(coin(180, "ukrw")));
    assert_eq!(opts.gas_adjustment, Some("1.4".to_string()));
}

#[test]
fn missing_service_price_is_fatal() {
    let err = gas_options_from_price(None, "ukrw", "1.4").unwrap_err();
    assert!(matches!(err, ExecError::GasResolutionError(m) if m == "ukrw"));
}

#[test]
fn find_price_picks_requested_denomination() {
    let table = vec![coin(180, "ukrw"), coin(15, "uluna"), coin(12, "uusd")];
    assert_eq!(find_price(&table, "uluna"), Some(coin(15, "uluna")));
    assert_eq!(find_price(&table, "ueur"), None);
    assert_eq!(find_price(&vec![], "uluna"), None);
}

#[test]
fn explorer_url_selects_network() {
    assert!(is_testnet("bombay-12"));
    assert!(!is_testnet("columbus-5"));
    assert_eq!(
        explorer_url("bombay-12", "ABC123"),
        "https://finder.extraterrestrial.money/testnet/tx/ABC123"
    );
    assert_eq!(
        explorer_url("columbus-5", "ABC123"),
        "https://finder.extraterrestrial.money/mainnet/tx/ABC123"
    );
}

#[test]
fn seed_phrase_is_normalized() {
    let without = signer_request("default", "wallet1", "");
    assert_eq!(without.seed, None);
    assert_eq!(without.wallet, "default");
    assert_eq!(without.account, "wallet1");
    let with = signer_request("default", "wallet1", "some seed words");
    assert_eq!(with.seed, Some("some seed words".to_string()));
}

#[test]
fn payload_must_be_valid_json() {
    assert!(validate_payload("{\"transfer\":{\"amount\":\"100\"}}").is_ok());
    assert!(validate_payload("[1,2,3]").is_ok());
    let err = validate_payload("{not valid").unwrap_err();
    assert!(matches!(err, ExecError::ParseError(m) if m == "{not valid"));
}

#[test]
fn message_builder_checks_contract_address() {
    let payload = validate_payload("{\"transfer\":{}}").unwrap();
    let msg = build_execute_message(
        "terra1f32xyep306hhcxxxf7mlyh0ucggc00rm2s9da5",
        CONTRACT,
        payload,
        vec![coin(1000, "uluna")],
    )
    .unwrap();
    assert_eq!(msg.contract_address, CONTRACT);
    assert_eq!(msg.sender_account, "terra1f32xyep306hhcxxxf7mlyh0ucggc00rm2s9da5");
    assert_eq!(msg.funds, vec![coin(1000, "uluna")]);

    let payload = validate_payload("{}").unwrap();
    let err = build_execute_message("sender", "terra1abc", payload, vec![]).unwrap_err();
    assert!(matches!(err, ExecError::AddressError(a) if a == "terra1abc"));
}

#[test]
fn memo_tag_names_tool_and_version() {
    assert_eq!(memo_tag("terra-exec", "0.1.0"), "PFC-terra-exec/0.1.0");
}

#[test]
fn error_messages_carry_kind_and_detail() {
    assert_eq!(
        ExecError::ParseError("10x!".to_string()).message(),
        "parse error: 10x!"
    );
    assert_eq!(
        ExecError::GasResolutionError("ukrw".to_string()).message(),
        "gas resolution error: ukrw"
    );
    assert_eq!(
        ExecError::SubmissionError("rejected".to_string()).message(),
        "submission error: rejected"
    );
    assert_eq!(ExecError::AddressError("a".to_string()).detail().as_str(), "a");
}

#[test]
fn command_carries_the_exec_subcommand() {
    let cmd = Command::Exec(ExecCmd {
        contract: CONTRACT.to_string(),
        sender: "wallet1".to_string(),
        coins: None,
        json: "{}".to_string(),
    });
    let Command::Exec(inner) = cmd;
    assert_eq!(inner.sender, "wallet1");
    assert_eq!(inner.coins, None);
}

#[test]
fn wallet_failures_become_key_derivation_errors() {
    let err = key_derivation_failure("no such key: wallet1");
    assert!(matches!(err, ExecError::KeyDerivationError(m) if m == "no such key: wallet1"));
}

#[test]
fn submission_outcomes_are_interpreted() {
    let ok = interpret_submission(
        "bombay-12",
        Ok(SubmissionResult { tx_hash: "DEADBEEF".to_string() }),
    );
    assert_eq!(
        ok.unwrap(),
        "https://finder.extraterrestrial.money/testnet/tx/DEADBEEF"
    );
    let err = interpret_submission("bombay-12", Err("insufficient funds".to_string()));
    assert!(matches!(
        err.unwrap_err(),
        ExecError::SubmissionError(m) if m == "insufficient funds"
    ));
}

fn config(gas_price: &str) -> CliConfig {
    CliConfig {
        lcd: "https://lcd.terra.dev".to_string(),
        fcd: "https://fcd.terra.dev".to_string(),
        chain_id: "columbus-5".to_string(),
        wallet: "default".to_string(),
        seed: "".to_string(),
        fee: fee_inputs("100uluna", "auto", gas_price, "ukrw", "1.4"),
    }
}

#[test]
fn scenario_explicit_fees_end_to_end() {
    // Explicit fees, two attached coins, mainnet chain: the prepared
    // request carries both funds in order and the report uses the mainnet
    // explorer link.
    let cfg = config("1000ukrw");
    let cmd = ExecCmd {
        contract: CONTRACT.to_string(),
        sender: "wallet1".to_string(),
        coins: Some("1000uluna,50ukrw".to_string()),
        json: "{\"transfer\":{\"recipient\":\"terra1abc\",\"amount\":\"100\"}}".to_string(),
    };
    let prepared = prepare(&cfg, &cmd).unwrap();
    assert_eq!(prepared.funds, vec![coin(1000, "uluna"), coin(50, "ukrw")]);
    assert_eq!(prepared.signer.account, "wallet1");
    assert_eq!(prepared.signer.seed, None);
    let opts = match prepared.gas {
        GasResolution::Resolved(opts) => opts,
        GasResolution::NeedsPrice { .. } => panic!("explicit mode resolved locally"),
    };
    assert_eq!(opts.fees, vec![coin(100, "uluna")]);
    let msg = build_execute_message(
        "terra1f32xyep306hhcxxxf7mlyh0ucggc00rm2s9da5",
        &cmd.contract,
        prepared.payload,
        prepared.funds,
    )
    .unwrap();
    assert_eq!(msg.funds.len(), 2);
    let result = SubmissionResult { tx_hash: "CAFEBABE".to_string() };
    assert_eq!(
        report_success(&cfg.chain_id, &result),
        "https://finder.extraterrestrial.money/mainnet/tx/CAFEBABE"
    );
}

#[test]
fn scenario_service_has_no_price() {
    // Auto gas price, but the service's table lacks the requested
    // denomination: the invocation fails with a gas resolution error and
    // nothing is submitted.
    let cfg = config("auto");
    let cmd = ExecCmd {
        contract: CONTRACT.to_string(),
        sender: "wallet1".to_string(),
        coins: None,
        json: "{}".to_string(),
    };
    let prepared = prepare(&cfg, &cmd).unwrap();
    let (denom, adjustment) = match prepared.gas {
        GasResolution::NeedsPrice { denom, adjustment } => (denom, adjustment),
        GasResolution::Resolved(_) => panic!("auto mode awaits the service"),
    };
    assert_eq!(adjustment, "1.4");
    let table = vec![coin(15, "uluna")];
    let price = find_price(&table, &denom);
    assert_eq!(price, None);
    let err = gas_options_from_price(price, &denom, &adjustment).unwrap_err();
    assert!(matches!(err, ExecError::GasResolutionError(m) if m == "ukrw"));
}

#[test]
fn scenario_malformed_payload_fails_first() {
    // A malformed JSON payload is rejected by the local validation pass,
    // before the gas-price service or the wallet would be consulted, even
    // though the fee directives would also need the service.
    let cfg = config("auto");
    let cmd = ExecCmd {
        contract: CONTRACT.to_string(),
        sender: "wallet1".to_string(),
        coins: Some("1000uluna".to_string()),
        json: "{not valid".to_string(),
    };
    let err = prepare(&cfg, &cmd).unwrap_err();
    assert!(matches!(err, ExecError::ParseError(m) if m == "{not valid"));
}

use vstd::prelude::*;

use crate::coin::{
    is_digit, digits_value, parse_coin_spec, parse_coins_spec, parse_coin, parse_coins, Coin,
    CoinModel, lemma_digits_value_prefix_le,
};
use crate::errors::ExecError;
use crate::text::str_eq;

verus! {

/// How the gas limit was directed on the command line: the sentinel
/// `"auto"` asks the chain client to estimate it, a decimal number fixes it.
#[derive(Debug, Clone, PartialEq, Eq)]
pub enum GasDirective {
    Auto,
    Amount(u64),
}

/// The normalized fee/gas configuration handed to the chain client. An
/// empty `fees` list means no explicit fee was given; a non-empty one takes
/// precedence over any gas-price computation downstream.
#[derive(Debug, Clone, PartialEq, Eq)]
pub struct GasOptions {
    pub fees: Vec<Coin>,
    pub estimate_gas: bool,
    pub gas: Option<u64>,
    pub gas_price: Option<Coin>,
    pub gas_adjustment: Option<String>,
}

/// Mathematical model of a gas configuration.
#[verifier::ext_equal]
pub ghost struct GasOptionsModel {
    pub fees: Seq<CoinModel>,
    pub estimate_gas: bool,
    pub gas: Option<u64>,
    pub gas_price: Option<CoinModel>,
    pub gas_adjustment: Option<Seq<char>>,
}

impl View for GasOptions {
    type V = GasOptionsModel;

    open spec fn view(&self) -> GasOptionsModel {
        GasOptionsModel {
            fees: self.fees@.map_values(|c: Coin| c@),
            estimate_gas: self.estimate_gas,
            gas: self.gas,
            gas_price: match self.gas_price {
                Some(c) => Some(c@),
                None => None,
            },
            gas_adjustment: match self.gas_adjustment {
                Some(ref a) => Some(a@),
                None => None,
            },
        }
    }
}

impl GasOptions {
    /// When the chain client is asked to estimate the gas, no fixed gas
    /// amount may be carried along: it is computed later.
    pub open spec fn wf(&self) -> bool {
        self.estimate_gas ==> self.gas is None
    }
}

/// What parsing a decimal unsigned integer returns.
pub open spec fn parse_u64_spec(s: Seq<char>) -> Option<u64> {
    if s.len() > 0 && (forall|i: int| 0 <= i < s.len() ==> is_digit(#[trigger] s[i]))
        && digits_value(s) <= u64::MAX {
        Some(digits_value(s) as u64)
    } else {
        None
    }
}

/// Parse a decimal unsigned integer: non-empty, digits only, within the
/// native width. Fails with `ParseError` naming the input.
pub fn parse_u64(s: &str) -> (r: Result<u64, ExecError>)
    ensures
        r is Ok <==> parse_u64_spec(s@) is Some,
        r matches Ok(v) ==> v == parse_u64_spec(s@).unwrap(),
        r matches Err(e) ==> e matches ExecError::ParseError(m) && m@ == s@,
{
    let len = s.unicode_len();
    if len == 0 {
        return Err(ExecError::ParseError(s.to_owned()));
    }
    let mut value: u64 = 0;
    let mut i: usize = 0;
    while i < len
        invariant
            i <= len,
            len == s@.len(),
            forall|j: int| 0 <= j < i ==> is_digit(#[trigger] s@[j]),
            value == digits_value(s@.subrange(0, i as int)),
        decreases len - i,
    {
        let c = s.get_char(i);
        let u = c as u32;
        if !(48 <= u && u <= 57) {
            return Err(ExecError::ParseError(s.to_owned()));
        }
        let d: u64 = (u - 48) as u64;
        proof {
            assert(s@.subrange(0, i + 1).drop_last() =~= s@.subrange(0, i as int));
        }
        let next = match value.checked_mul(10) {
            Some(v) => v.checked_add(d),
            None => None,
        };
        match next {
            Some(v) => {
                value = v;
                i += 1;
            },
            None => {
                proof {
                    lemma_digits_value_prefix_le(s@, i + 1, len as int);
                    assert(s@.subrange(0, len as int) =~= s@);
                }
                return Err(ExecError::ParseError(s.to_owned()));
            },
        }
    }
    proof {
        assert(s@.subrange(0, len as int) =~= s@);
    }
    Ok(value)
}

/// What parsing the gas directive returns: the sentinel or a number.
pub open spec fn gas_directive_spec(s: Seq<char>) -> Option<GasDirective> {
    if s == "auto"@ {
        Some(GasDirective::Auto)
    } else {
        match parse_u64_spec(s) {
            Some(v) => Some(GasDirective::Amount(v)),
            None => None,
        }
    }
}

/// Parse the gas directive: `"auto"` means estimate, anything else must be
/// a decimal gas amount.
pub fn parse_gas_directive(s: &str) -> (r: Result<GasDirective, ExecError>)
    ensures
        r is Ok <==> gas_directive_spec(s@) is Some,
        r matches Ok(d) ==> d == gas_directive_spec(s@).unwrap(),
        r matches Err(e) ==> e matches ExecError::ParseError(m) && m@ == s@,
{
    if str_eq(s, "auto") {
        Ok(GasDirective::Auto)
    } else {
        match parse_u64(s) {
            Ok(v) => Ok(GasDirective::Amount(v)),
            Err(e) => Err(e),
        }
    }
}

/// What parsing an optional coin returns: an empty string is no coin at
/// all, anything else must be a single well-formed coin.
pub open spec fn opt_coin_spec(s: Seq<char>) -> Option<Option<CoinModel>> {
    if s.len() == 0 {
        Some(None)
    } else {
        match parse_coin_spec(s) {
            Some(c) => Some(Some(c)),
            None => None,
        }
    }
}

/// Parse an optional coin: empty input yields no coin, not an error.
pub fn parse_opt_coin(s: &str) -> (r: Result<Option<Coin>, ExecError>)
    ensures
        r is Ok <==> opt_coin_spec(s@) is Some,
        r matches Ok(None) ==> opt_coin_spec(s@).unwrap() is None,
        r matches Ok(Some(c)) ==> opt_coin_spec(s@).unwrap() == Some(c@),
        r matches Err(e) ==> e matches ExecError::ParseError(m) && m@ == s@,
{
    if s.unicode_len() == 0 {
        Ok(None)
    } else {
        match parse_coin(s) {
            Ok(c) => Ok(Some(c)),
            Err(e) => Err(e),
        }
    }
}

/// What explicit-mode gas resolution returns, from the four raw command
/// line directives.
pub open spec fn explicit_gas_options_spec(
    fees: Seq<char>,
    gas: Seq<char>,
    gas_price: Seq<char>,
    adjustment: Seq<char>,
) -> Option<GasOptionsModel> {
    match parse_coins_spec(fees) {
        None => None,
        Some(fee_coins) => match gas_directive_spec(gas) {
            None => None,
            Some(dir) => match opt_coin_spec(gas_price) {
                None => None,
                Some(price) => Some(
                    GasOptionsModel {
                        fees: fee_coins,
                        estimate_gas: dir is Auto,
                        gas: match dir {
                            GasDirective::Auto => None,
                            GasDirective::Amount(v) => Some(v),
                        },
                        gas_price: price,
                        gas_adjustment: Some(adjustment),
                    },
                ),
            },
        },
    }
}

/// Explicit-mode gas resolution: parse the fee list (empty meaning none),
/// the gas directive (`"auto"` meaning estimate, so no fixed gas is
/// carried), and the optional gas price, and carry the adjustment through
/// unchanged. Pure parsing; the gas-price service is never involved.
pub fn resolve_gas_explicit(fees: &str, gas: &str, gas_price: &str, gas_adjustment: &str) -> (r:
    Result<GasOptions, ExecError>)
    ensures
        r is Ok <==> explicit_gas_options_spec(fees@, gas@, gas_price@, gas_adjustment@) is Some,
        r matches Ok(g) ==> g@ == explicit_gas_options_spec(
            fees@,
            gas@,
            gas_price@,
            gas_adjustment@,
        ).unwrap(),
        r matches Ok(g) ==> g.wf(),
        r matches Err(e) ==> e matches ExecError::ParseError(_),
{
    let fee_coins = match parse_coins(fees) {
        Ok(v) => v,
        Err(e) => { return Err(e); },
    };
    let dir = match parse_gas_directive(gas) {
        Ok(d) => d,
        Err(e) => { return Err(e); },
    };
    let price = match parse_opt_coin(gas_price) {
        Ok(p) => p,
        Err(e) => { return Err(e); },
    };
    let (estimate_gas, gas_amount) = match dir {
        GasDirective::Auto => (true, None),
        GasDirective::Amount(v) => (false, Some(v)),
    };
    let opts = GasOptions {
        fees: fee_coins,
        estimate_gas,
        gas: gas_amount,
        gas_price: price,
        gas_adjustment: Some(gas_adjustment.to_owned()),
    };
    proof {
        assert(opts@ =~= explicit_gas_options_spec(fees@, gas@, gas_price@, gas_adjustment@)
            .unwrap());
    }
    Ok(opts)
}

/// What auto-mode resolution produces once the service has answered with
/// the price for the requested denomination: estimation is on, no fixed
/// gas, no explicit fees.
pub open spec fn auto_gas_options_spec(price: CoinModel, adjustment: Seq<char>) -> GasOptionsModel {
    GasOptionsModel {
        fees: Seq::empty(),
        estimate_gas: true,
        gas: None,
        gas_price: Some(price),
        gas_adjustment: Some(adjustment),
    }
}

/// Finish auto-mode gas resolution from the gas-price service's answer for
/// the requested denomination. A missing price is a `GasResolutionError`
/// naming the denomination; there is no silent fallback to explicit mode.
/// The resulting configuration never carries explicit fees.
pub fn gas_options_from_price(price: Option<Coin>, gas_denom: &str, gas_adjustment: &str) -> (r:
    Result<GasOptions, ExecError>)
    ensures
        price is None <==> r is Err,
        r matches Err(e) ==> e matches ExecError::GasResolutionError(m) && m@ == gas_denom@,
        r matches Ok(g) ==> (price matches Some(p) && g@ == auto_gas_options_spec(
            p@,
            gas_adjustment@,
        )),
        r matches Ok(g) ==> g.wf() && g@.fees.len() == 0,
{
    match price {
        None => Err(ExecError::GasResolutionError(gas_denom.to_owned())),
        Some(p) => {
            let opts = GasOptions {
                fees: Vec::new(),
                estimate_gas: true,
                gas: None,
                gas_price: Some(p),
                gas_adjustment: Some(gas_adjustment.to_owned()),
            };
            proof {
                assert(opts@.fees =~= Seq::<CoinModel>::empty());
                assert(opts@ =~= auto_gas_options_spec(p@, gas_adjustment@));
            }
            Ok(opts)
        },
    }
}

/// Pick the service-reported price for the requested denomination: the
/// first entry in the price table whose denomination matches, if any.
pub fn find_price(prices: &Vec<Coin>, denom: &str) -> (r: Option<Coin>)
    ensures
        r is Some <==> exists|i: int|
            0 <= i < prices@.len() && (#[trigger] prices@[i]).denom@ == denom@,
        r matches Some(c) ==> exists|i: int|
            0 <= i < prices@.len() && (#[trigger] prices@[i])@ == c@ && c.denom@ == denom@ && (
            forall|j: int| 0 <= j < i ==> (#[trigger] prices@[j]).denom@ != denom@),
{
    let n = prices.len();
    let mut i: usize = 0;
    while i < n
        invariant
            i <= n,
            n == prices@.len(),
            forall|j: int| 0 <= j < i ==> (#[trigger] prices@[j]).denom@ != denom@,
        decreases n - i,
    {
        if str_eq(prices[i].denom.as_str(), denom) {
            let c = Coin { amount: prices[i].amount, denom: prices[i].denom.clone() };
            proof {
                assert(c@ =~= prices@[i as int]@);
            }
            return Some(c);
        }
        i += 1;
    }
    None
}

/// How the fee directives are to be resolved: either the gas-price service
/// must be asked for the price of `denom` (the `"auto"` sentinel), or the
/// configuration is already fully determined from the explicit directives.
#[derive(Debug, Clone, PartialEq, Eq)]
pub enum GasResolution {
    NeedsPrice { denom: String, adjustment: String },
    Resolved(GasOptions),
}

/// The raw fee/gas directives taken from the command line.
#[derive(Debug, Clone, PartialEq, Eq)]
pub struct FeeInputs {
    pub fees: String,
    pub gas: String,
    pub gas_price: String,
    pub gas_price_denom: String,
    pub gas_adjustment: String,
}

/// Decide between the two fee strategies. With the `"auto"` gas-price
/// sentinel the caller must ask the gas-price service (and only then); with
/// anything else the configuration is resolved here by pure parsing and the
/// service is never consulted.
pub fn resolve_gas_options(inputs: &FeeInputs) -> (r: Result<GasResolution, ExecError>)
    ensures
        inputs.gas_price@ == "auto"@ ==> (r matches Ok(GasResolution::NeedsPrice {
            denom,
            adjustment,
        }) && denom@ == inputs.gas_price_denom@ && adjustment@ == inputs.gas_adjustment@),
        inputs.gas_price@ != "auto"@ ==> (r is Ok <==> explicit_gas_options_spec(
            inputs.fees@,
            inputs.gas@,
            inputs.gas_price@,
            inputs.gas_adjustment@,
        ) is Some),
        inputs.gas_price@ != "auto"@ ==> (r matches Ok(res) ==> (res matches GasResolution::Resolved(
            g,
        ) && g@ == explicit_gas_options_spec(
            inputs.fees@,
            inputs.gas@,
            inputs.gas_price@,
            inputs.gas_adjustment@,
        ).unwrap() && g.wf())),
        r matches Err(e) ==> e matches ExecError::ParseError(_),
{
    if str_eq(inputs.gas_price.as_str(), "auto") {
        Ok(
            GasResolution::NeedsPrice {
                denom: inputs.gas_price_denom.clone(),
                adjustment: inputs.gas_adjustment.clone(),
            },
        )
    } else {
        match resolve_gas_explicit(
            inputs.fees.as_str(),
            inputs.gas.as_str(),
            inputs.gas_price.as_str(),
            inputs.gas_adjustment.as_str(),
        ) {
            Ok(g) => Ok(GasResolution::Resolved(g)),
            Err(e) => Err(e),
        }
    }
}

} // verus!

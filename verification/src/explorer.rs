use vstd::prelude::*;

use crate::text::{contains_seq, str_contains};

verus! {

/// The operator-facing explorer link for a submitted transaction: the
/// finder host, then `testnet` when the chain identifier carries the
/// testnet marker and `mainnet` otherwise, then the transaction hash.
pub open spec fn explorer_url_spec(chain_id: Seq<char>, tx_hash: Seq<char>) -> Seq<char> {
    "https://finder.extraterrestrial.money/"@ + (if contains_seq(chain_id, "bombay"@) {
        "testnet"@
    } else {
        "mainnet"@
    }) + "/tx/"@ + tx_hash
}

/// Whether the configured chain identifier names the test network: it
/// contains the testnet marker substring.
pub fn is_testnet(chain_id: &str) -> (r: bool)
    ensures
        r == contains_seq(chain_id@, "bombay"@),
{
    str_contains(chain_id, "bombay")
}

/// Build the explorer link reported for a submitted transaction.
pub fn explorer_url(chain_id: &str, tx_hash: &str) -> (r: String)
    ensures
        r@ == explorer_url_spec(chain_id@, tx_hash@),
{
    let base = String::from_str("https://finder.extraterrestrial.money/");
    let with_net = if is_testnet(chain_id) {
        base.concat("testnet")
    } else {
        base.concat("mainnet")
    };
    let full = with_net.concat("/tx/").concat(tx_hash);
    proof {
        assert(full@ =~= explorer_url_spec(chain_id@, tx_hash@));
    }
    full
}

} // verus!

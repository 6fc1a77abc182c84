use vstd::prelude::*;

use crate::errors::ExecError;

verus! {

/// What the wallet collaborator is asked for in order to derive the signing
/// key: the wallet to search, the account label of the sender, and the seed
/// phrase when one was given.
#[derive(Debug, Clone, PartialEq, Eq)]
pub struct SignerRequest {
    pub wallet: String,
    pub account: String,
    pub seed: Option<String>,
}

/// Prepare the key-derivation request. An empty seed string means no seed
/// phrase at all: it is normalized to absent, never passed through
/// literally.
pub fn signer_request(wallet: &str, sender: &str, seed: &str) -> (r: SignerRequest)
    ensures
        r.wallet@ == wallet@,
        r.account@ == sender@,
        seed@.len() == 0 ==> r.seed is None,
        seed@.len() > 0 ==> (r.seed matches Some(s) && s@ == seed@),
{
    let seed_opt = if seed.unicode_len() == 0 {
        None
    } else {
        Some(seed.to_owned())
    };
    SignerRequest { wallet: wallet.to_owned(), account: sender.to_owned(), seed: seed_opt }
}

/// Translate a failed wallet key derivation — no matching account label, an
/// invalid seed phrase, or a failure in the derivation itself — into the
/// pipeline's own error. Retrying with the same inputs cannot succeed, so
/// the failure is final.
pub fn key_derivation_failure(detail: &str) -> (e: ExecError)
    ensures
        e matches ExecError::KeyDerivationError(m) && m@ == detail@,
{
    ExecError::KeyDerivationError(detail.to_owned())
}

} // verus!

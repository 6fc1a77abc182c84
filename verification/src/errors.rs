use vstd::prelude::*;

verus! {

/// The failure taxonomy of the transaction pipeline. Every stage fails fast
/// with one of these; nothing is retried. Each variant carries a detail
/// string naming the offending input or the underlying cause.
#[derive(Debug, Clone, PartialEq, Eq)]
pub enum ExecError {
    /// A malformed coin string, gas amount, or JSON payload.
    ParseError(String),
    /// The gas-price service was unreachable or returned no usable price
    /// for the requested denomination.
    GasResolutionError(String),
    /// The wallet had no matching account, the seed phrase was invalid,
    /// or key derivation failed.
    KeyDerivationError(String),
    /// A contract address failed the chain-format check.
    AddressError(String),
    /// The chain rejected or failed to process the transaction.
    SubmissionError(String),
}

impl ExecError {
    /// The detail string carried by the error.
    pub open spec fn detail_spec(&self) -> Seq<char> {
        match self {
            ExecError::ParseError(m) => m@,
            ExecError::GasResolutionError(m) => m@,
            ExecError::KeyDerivationError(m) => m@,
            ExecError::AddressError(m) => m@,
            ExecError::SubmissionError(m) => m@,
        }
    }

    /// The kind label used when the error is reported.
    pub open spec fn label_spec(&self) -> Seq<char> {
        match self {
            ExecError::ParseError(_) => "parse error: "@,
            ExecError::GasResolutionError(_) => "gas resolution error: "@,
            ExecError::KeyDerivationError(_) => "key derivation error: "@,
            ExecError::AddressError(_) => "address error: "@,
            ExecError::SubmissionError(_) => "submission error: "@,
        }
    }

    /// The detail string carried by the error.
    pub fn detail(&self) -> (r: &String)
        ensures
            r@ == self.detail_spec(),
    {
        match self {
            ExecError::ParseError(m) => m,
            ExecError::GasResolutionError(m) => m,
            ExecError::KeyDerivationError(m) => m,
            ExecError::AddressError(m) => m,
            ExecError::SubmissionError(m) => m,
        }
    }

    /// A one-line report of the error: its kind label followed by the detail.
    pub fn message(&self) -> (r: String)
        ensures
            r@ == self.label_spec() + self.detail_spec(),
    {
        let label: &str = match self {
            ExecError::ParseError(_) => "parse error: ",
            ExecError::GasResolutionError(_) => "gas resolution error: ",
            ExecError::KeyDerivationError(_) => "key derivation error: ",
            ExecError::AddressError(_) => "address error: ",
            ExecError::SubmissionError(_) => "submission error: ",
        };
        String::from_str(label).concat(self.detail().as_str())
    }
}

} // verus!

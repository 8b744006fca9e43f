use vstd::prelude::*;
use vstd::string::*;

verus! {

/// How a retryable failure asks to be retried: wait `sleep_ns` nanoseconds
/// before the first retry, multiply the wait by `factor` before each further
/// one, and retry at most `retries` times after the first failure.
#[derive(Debug, Clone, Copy, PartialEq, Eq, Structural)]
pub struct ModelErrorRetryOptions {
    pub sleep_ns: u128,
    pub factor: u32,
    pub retries: usize,
}

/// A failed model call, as a backend reports it. Without retry options the
/// failure is fatal.
#[derive(Debug)]
pub struct ModelError {
    pub message: String,
    pub retryable: Option<ModelErrorRetryOptions>,
    pub request_id: Option<String>,
}

pub open spec fn bool_text(b: bool) -> Seq<char> {
    if b {
        "true"@
    } else {
        "false"@
    }
}

impl ModelError {
    /// The human-readable form: whether the error is retryable, then its message.
    pub open spec fn rendering(&self) -> Seq<char> {
        "[model_error(retryable="@ + bool_text(self.retryable is Some) + ")] "@ + self.message@
    }

    pub fn to_string(&self) -> (r: String)
        ensures
            r@ == self.rendering(),
    {
        let flag: &str = if self.retryable.is_some() {
            "true"
        } else {
            "false"
        };
        String::from_str("[model_error(retryable=").concat(flag).concat(")] ").concat(
            self.message.as_str(),
        )
    }
}

} // verus!

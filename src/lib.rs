//! Provider identifiers, the error taxonomy of model calls, and the
//! retry-with-backoff decisions taken on those errors.
mod text;

pub mod provider_id;
pub mod model_error;
pub mod retry;
pub mod provider;





pub use provider_id::{ParseError, ProviderID};
pub use model_error::{ModelError, ModelErrorRetryOptions};
pub use retry::{Outcome, RetryAction, RetryState, MAX_DELAY_NS};
pub use provider::{provider, Provider, ProviderHandle};

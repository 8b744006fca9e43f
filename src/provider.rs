use vstd::prelude::*;
use crate::provider_id::ProviderID;

verus! {

/// A model backend, as callers see it.
pub trait Provider {
    spec fn spec_id(&self) -> ProviderID;

    /// The identifier of this backend.
    fn id(&self) -> (r: ProviderID)
        ensures
            r == self.spec_id(),
    ;
}

/// The backend selected for an identifier.
#[derive(Debug, Clone, Copy, PartialEq, Eq, Structural)]
pub struct ProviderHandle {
    id: ProviderID,
}

impl Provider for ProviderHandle {
    closed spec fn spec_id(&self) -> ProviderID {
        self.id
    }

    fn id(&self) -> (r: ProviderID) {
        self.id
    }
}

/// The backend for identifier `t`; every identifier has one.
pub fn provider(t: ProviderID) -> (r: ProviderHandle)
    ensures
        r.spec_id() == t,
{
    match t {
        ProviderID::OpenAI => ProviderHandle { id: ProviderID::OpenAI },
        ProviderID::Cohere => ProviderHandle { id: ProviderID::Cohere },
        ProviderID::AI21 => ProviderHandle { id: ProviderID::AI21 },
        ProviderID::AzureOpenAI => ProviderHandle { id: ProviderID::AzureOpenAI },
        ProviderID::Anthropic => ProviderHandle { id: ProviderID::Anthropic },
        ProviderID::Mistral => ProviderHandle { id: ProviderID::Mistral },
        ProviderID::GoogleAiStudio => ProviderHandle { id: ProviderID::GoogleAiStudio },
    }
}

} // verus!

use vstd::prelude::*;
use crate::text::str_equals;

verus! {

/// The backends a model call can be routed to.
#[derive(Debug, Clone, Copy, PartialEq, Eq, Structural)]
pub enum ProviderID {
    OpenAI,
    Cohere,
    AI21,
    AzureOpenAI,
    Anthropic,
    Mistral,
    GoogleAiStudio,
}

/// A string that names no provider.
#[derive(Debug)]
pub struct ParseError {
    pub message: String,
}

impl ParseError {
    pub fn with_message(message: &str) -> (r: ParseError)
        ensures
            r.message@ == message@,
    {
        ParseError { message: String::from_str(message) }
    }
}

/// What a failed parse reports: every accepted name.
pub open spec fn unknown_provider_message() -> Seq<char> {
    "Unknown provider ID (possible values: openai, cohere, ai21, azure_openai, anthropic, mistral, google_ai_studio)"@
}

impl ProviderID {
    /// The canonical name, used both to display and to parse.
    pub open spec fn name(self) -> Seq<char> {
        match self {
            ProviderID::OpenAI => "openai"@,
            ProviderID::Cohere => "cohere"@,
            ProviderID::AI21 => "ai21"@,
            ProviderID::AzureOpenAI => "azure_openai"@,
            ProviderID::Anthropic => "anthropic"@,
            ProviderID::Mistral => "mistral"@,
            ProviderID::GoogleAiStudio => "google_ai_studio"@,
        }
    }

    /// The provider a string names, if any: exact, case-sensitive match.
    pub open spec fn parse(s: Seq<char>) -> Option<ProviderID> {
        if s == "openai"@ {
            Some(ProviderID::OpenAI)
        } else         if s == "cohere"@ {
            Some(ProviderID::Cohere)
        } else         if s == "ai21"@ {
            Some(ProviderID::AI21)
        } else         if s == "azure_openai"@ {
            Some(ProviderID::AzureOpenAI)
        } else         if s == "anthropic"@ {
            Some(ProviderID::Anthropic)
        } else         if s == "mistral"@ {
            Some(ProviderID::Mistral)
        } else         if s == "google_ai_studio"@ {
            Some(ProviderID::GoogleAiStudio)
        } else {
            None
        }
    }

    pub fn as_str(&self) -> (r: &'static str)
        ensures
            r@ == self.name(),
    {
        match self {
            ProviderID::OpenAI => {
                proof { reveal_strlit("openai"); }
                "openai"
            },
            ProviderID::Cohere => {
                proof { reveal_strlit("cohere"); }
                "cohere"
            },
            ProviderID::AI21 => {
                proof { reveal_strlit("ai21"); }
                "ai21"
            },
            ProviderID::AzureOpenAI => {
                proof { reveal_strlit("azure_openai"); }
                "azure_openai"
            },
            ProviderID::Anthropic => {
                proof { reveal_strlit("anthropic"); }
                "anthropic"
            },
            ProviderID::Mistral => {
                proof { reveal_strlit("mistral"); }
                "mistral"
            },
            ProviderID::GoogleAiStudio => {
                proof { reveal_strlit("google_ai_studio"); }
                "google_ai_studio"
            },
        }
    }

    /// The canonical name as an owned string.
    pub fn to_string(&self) -> (r: String)
        ensures
            r@ == self.name(),
    {
        String::from_str(self.as_str())
    }

    pub fn from_str(s: &str) -> (r: Result<ProviderID, ParseError>)
        ensures
            ProviderID::parse(s@) matches Some(id) ==> r == Ok::<ProviderID, ParseError>(id),
            ProviderID::parse(s@) is None ==> (r matches Err(e) && e.message@ == unknown_provider_message()),
    {
        if str_equals(s, "openai") {
            Ok(ProviderID::OpenAI)
        } else         if str_equals(s, "cohere") {
            Ok(ProviderID::Cohere)
        } else         if str_equals(s, "ai21") {
            Ok(ProviderID::AI21)
        } else         if str_equals(s, "azure_openai") {
            Ok(ProviderID::AzureOpenAI)
        } else         if str_equals(s, "anthropic") {
            Ok(ProviderID::Anthropic)
        } else         if str_equals(s, "mistral") {
            Ok(ProviderID::Mistral)
        } else         if str_equals(s, "google_ai_studio") {
            Ok(ProviderID::GoogleAiStudio)
        } else {
            Err(ParseError::with_message("Unknown provider ID (possible values: openai, cohere, ai21, azure_openai, anthropic, mistral, google_ai_studio)"))
        }
    }
}

/// Parsing a name gives back the provider it names.
pub proof fn lemma_parse_name(id: ProviderID)
    ensures
        ProviderID::parse(id.name()) == Some(id),
{
    reveal_strlit("openai");
    reveal_strlit("cohere");
    reveal_strlit("ai21");
    reveal_strlit("azure_openai");
    reveal_strlit("anthropic");
    reveal_strlit("mistral");
    reveal_strlit("google_ai_studio");
    assert("openai"@.len() == 6 && "openai"@[0] == 'o');
    assert("cohere"@.len() == 6 && "cohere"@[0] == 'c');
    assert("ai21"@.len() == 4 && "ai21"@[0] == 'a');
    assert("azure_openai"@.len() == 12 && "azure_openai"@[0] == 'a');
    assert("anthropic"@.len() == 9 && "anthropic"@[0] == 'a');
    assert("mistral"@.len() == 7 && "mistral"@[0] == 'm');
    assert("google_ai_studio"@.len() == 16 && "google_ai_studio"@[0] == 'g');
}

/// Parsing a string, displaying the provider found and parsing again gives
/// the same result as the first parse.
pub proof fn lemma_parse_display_round_trip(s: Seq<char>)
    requires
        ProviderID::parse(s) is Some,
    ensures
        ProviderID::parse(ProviderID::parse(s).unwrap().name()) == ProviderID::parse(s),
{
    lemma_parse_name(ProviderID::parse(s).unwrap());
}

/// Exactly the seven canonical names parse.
pub proof fn lemma_parse_only_names(s: Seq<char>)
    ensures
        ProviderID::parse(s) is Some <==> exists|id: ProviderID| id.name() == s,
{
    if ProviderID::parse(s) is Some {
        lemma_parse_name(ProviderID::parse(s).unwrap());
        assert(ProviderID::parse(s).unwrap().name() == s) by {
        reveal_strlit("openai");
        reveal_strlit("cohere");
        reveal_strlit("ai21");
        reveal_strlit("azure_openai");
        reveal_strlit("anthropic");
        reveal_strlit("mistral");
        reveal_strlit("google_ai_studio");
        }
    } else {
        assert forall|id: ProviderID| id.name() != s by {
            lemma_parse_name(id);
        }
    }
}

} // verus!

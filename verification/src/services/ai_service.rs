//! The client side of the text provider: what it is configured with, what one
//! call carries, and how a call can fail. The call itself is made outside
//! this crate.

use crate::config::{AppConfig, ProviderConfig, ProviderConfigView};
use crate::models::{ContentRequest, ContentRequestView};
use vstd::prelude::*;

verus! {

/// Why a provider call produced no text. The orchestration treats all of
/// these alike; the kinds exist for those who watch the service.
#[derive(Clone, Copy, Debug, PartialEq, Eq, Structural)]
pub enum ProviderFailure {
    Network,
    Authentication,
    RateLimited,
    Rejected,
    DeadlineExpired,
}

/// One call to the provider: the three request fields that are forwarded, and
/// the time the call may take.
pub struct ProviderCall {
    pub prompt: String,
    pub content_type: String,
    pub language: String,
    pub deadline_ms: u64,
}

/// A provider call as contracts see it.
pub struct ProviderCallView {
    pub prompt: Seq<char>,
    pub content_type: Seq<char>,
    pub language: Seq<char>,
    pub deadline_ms: u64,
}

impl View for ProviderCall {
    type V = ProviderCallView;

    open spec fn view(&self) -> ProviderCallView {
        ProviderCallView {
            prompt: self.prompt@,
            content_type: self.content_type@,
            language: self.language@,
            deadline_ms: self.deadline_ms,
        }
    }
}

/// The call that `request` gives rise to under `config`: prompt, content type
/// and language are forwarded unchanged, the tenant is not sent.
pub open spec fn call_for(config: ProviderConfigView, request: ContentRequestView)
    -> ProviderCallView {
    ProviderCallView {
        prompt: request.prompt,
        content_type: request.content_type,
        language: request.language,
        deadline_ms: config.deadline_ms,
    }
}

/// The provider client. It owns the connection parameters and offers no way
/// to change them.
pub struct AIService {
    config: ProviderConfig,
}

impl AIService {
    /// The connection parameters this client was made with.
    pub closed spec fn parameters(&self) -> ProviderConfigView {
        self.config@
    }

    /// Makes the client from the provider section of the startup configuration.
    pub fn new(config: &AppConfig) -> (service: Self)
        ensures
            service.parameters() == config.provider@,
    {
        AIService {
            config: ProviderConfig {
                endpoint: config.provider.endpoint.clone(),
                credential: config.provider.credential.clone(),
                model: config.provider.model.clone(),
                deadline_ms: config.provider.deadline_ms,
            },
        }
    }

    pub fn config(&self) -> (config: &ProviderConfig)
        ensures
            config@ == self.parameters(),
    {
        &self.config
    }

    /// Turns a request into the one provider call it is answered from.
    pub fn prepare(&self, request: ContentRequest) -> (call: ProviderCall)
        ensures
            call@ == call_for(self.parameters(), request@),
    {
        ProviderCall {
            prompt: request.prompt,
            content_type: request.content_type,
            language: request.language,
            deadline_ms: self.config.deadline_ms,
        }
    }
}

} // verus!

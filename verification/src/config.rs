//! Startup configuration: read once, never changed afterwards.

use vstd::prelude::*;

verus! {

/// How to reach the text provider.
pub struct ProviderConfig {
    pub endpoint: String,
    pub credential: String,
    pub model: String,
    /// How long one provider call may take, in milliseconds.
    pub deadline_ms: u64,
}

/// Connection parameters as contracts see them.
pub struct ProviderConfigView {
    pub endpoint: Seq<char>,
    pub credential: Seq<char>,
    pub model: Seq<char>,
    pub deadline_ms: u64,
}

impl View for ProviderConfig {
    type V = ProviderConfigView;

    open spec fn view(&self) -> ProviderConfigView {
        ProviderConfigView {
            endpoint: self.endpoint@,
            credential: self.credential@,
            model: self.model@,
            deadline_ms: self.deadline_ms,
        }
    }
}

/// Everything the service is started with.
pub struct AppConfig {
    pub port: u16,
    pub provider: ProviderConfig,
}

} // verus!

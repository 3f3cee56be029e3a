//! Request orchestration for a content-generation service.
//!
//! A request for generated text is handed to an upstream text provider; what
//! the provider answers is turned into a result envelope, or into one generic
//! failure. The transport, the provider's wire protocol and the configuration
//! loader live outside this crate and exchange plain values with it.

pub mod clock;
pub mod config;
pub mod handlers;
pub mod identity;
pub mod models;
pub mod orchestrator;
pub mod services;

use crate::services::ai_service::AIService;
use std::sync::Arc;
use vstd::prelude::*;

verus! {

/// What every request handler shares: the provider client, read-only.
#[derive(Clone)]
pub struct AppState {
    ai_service: Arc<AIService>,
}

impl AppState {
    pub closed spec fn service(&self) -> AIService {
        *self.ai_service
    }

    pub fn new(ai_service: Arc<AIService>) -> (state: Self)
        ensures
            state.service() == *ai_service,
    {
        AppState { ai_service }
    }

    pub fn ai_service(&self) -> (service: &AIService)
        ensures
            *service == self.service(),
    {
        &self.ai_service
    }
}

} // verus!

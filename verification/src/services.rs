//! Collaborators that the orchestration delegates to.

pub mod ai_service;

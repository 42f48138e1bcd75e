use vstd::prelude::*;

verus! {

/// Failures of an automated participant binding. The engine never produces
/// these; they belong to the boundary a scripted or machine participant sits
/// behind.
#[derive(Clone, Debug)]
pub enum AgentError {
    RoleParseError { role: String },
    InitializationError { error: String },
    UninitializedError,
    CommunicationError { error: String },
}

} // verus!

use vstd::prelude::*;

use crate::roles::RoleName;

verus! {

/// Failures at the participant boundary: the transport broke, or the
/// participant answered in a shape the engine did not offer.
#[derive(Clone, Debug)]
pub enum PlayerInterfaceError {
    CommunicationError(String),
    UnexpectedResponse(String),
}

/// Whose card a reveal refers to: a participant's, or a center-pile slot.
#[derive(Clone, Copy, Debug, PartialEq, Eq, Structural)]
pub enum RoleTarget {
    Player(usize),
    Center(usize),
}

/// A free-text-style claim or question addressed to the whole table.
/// The engine only fans these out; it never validates or stores them.
#[derive(Clone, Copy, Debug, PartialEq, Eq, Structural)]
pub struct Message {
    pub mtype: MessageType,
    pub sender: usize,
}

#[derive(Clone, Copy, Debug, PartialEq, Eq, Structural)]
pub enum MessageType {
    Claim(ClaimType),
    ClaimNot(ClaimType),
    Question(usize, QuestionType),
}

#[derive(Clone, Copy, Debug, PartialEq, Eq, Structural)]
pub enum ClaimType {
    IsRole(RoleName),
    PerformedRoleActionToSelf(RoleName),
    PerformedRoleActionToOne(RoleName, usize),
    PerformedRoleActionToTwo(RoleName, usize, usize),
}

#[derive(Clone, Copy, Debug, PartialEq, Eq, Structural)]
pub enum QuestionType {
    WhatRole,
    AreRole(RoleName),
    DidRoleActionToSelf(RoleName),
    DidRoleActionToOne(RoleName, usize),
    DidRoleActionToTwo(RoleName, usize, usize),
}

} // verus!

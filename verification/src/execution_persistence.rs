//! Opaque two-phase activation seam for persist-before-send execution writes.

use crate::identifiers::{ClientOrderId, InstrumentId, UnixNanos, UUID4};
use crate::text::join;
use vstd::prelude::*;

verus! {

/// Opaque one-use authorization staged by an application before cache persistence.
#[derive(Clone, Copy, Debug, PartialEq, Eq, Structural, Hash)]
pub struct ExecutionWriteStageToken(pub UUID4);

impl ExecutionWriteStageToken {
    /// Creates a stage token from random bits. Two tokens are equal only if the bits that a
    /// version 4 UUID leaves free are equal.
    pub fn new(random: u128) -> (token: Self)
        ensures
            token.0.is_version_four(),
            token.0.bits & !(crate::identifiers::UUID_VERSION_MASK
                | crate::identifiers::UUID_VARIANT_MASK) == random & !(
            crate::identifiers::UUID_VERSION_MASK | crate::identifiers::UUID_VARIANT_MASK),
    {
        ExecutionWriteStageToken(UUID4::from_random_bits(random))
    }
}

/// Opaque stage token plus its strict activation deadline carried by a native command.
#[derive(Clone, Copy, Debug, PartialEq, Eq, Structural, Hash)]
pub struct StagedExecutionWrite {
    /// Opaque one-use stage token.
    pub token: ExecutionWriteStageToken,
    /// Deadline after which activation must fail.
    pub expires_at: UnixNanos,
}

/// Native command kinds which can result in a venue mutation.
#[derive(Clone, Copy, Debug, PartialEq, Eq, Structural, Hash)]
pub enum ExecutionWriteKind {
    /// Submit one order.
    Submit,
    /// Submit an order list.
    SubmitList,
    /// Modify one order.
    Modify,
    /// Modify multiple orders.
    BatchModify,
    /// Cancel one exact order.
    Cancel,
    /// Cancel multiple exact orders.
    BatchCancel,
    /// Cancel every order on one instrument, deny-only at the first-release boundary.
    CancelAll,
    /// Retry a previously constructed mutation.
    Retry,
}

impl ExecutionWriteKind {
    /// The variant's name.
    pub open spec fn name(self) -> Seq<char> {
        match self {
            ExecutionWriteKind::Submit => "Submit"@,
            ExecutionWriteKind::SubmitList => "SubmitList"@,
            ExecutionWriteKind::Modify => "Modify"@,
            ExecutionWriteKind::BatchModify => "BatchModify"@,
            ExecutionWriteKind::Cancel => "Cancel"@,
            ExecutionWriteKind::BatchCancel => "BatchCancel"@,
            ExecutionWriteKind::CancelAll => "CancelAll"@,
            ExecutionWriteKind::Retry => "Retry"@,
        }
    }

    /// The variant's name.
    pub fn as_name(&self) -> (r: &'static str)
        ensures
            r@ == self.name(),
    {
        match self {
            ExecutionWriteKind::Submit => "Submit",
            ExecutionWriteKind::SubmitList => "SubmitList",
            ExecutionWriteKind::Modify => "Modify",
            ExecutionWriteKind::BatchModify => "BatchModify",
            ExecutionWriteKind::Cancel => "Cancel",
            ExecutionWriteKind::BatchCancel => "BatchCancel",
            ExecutionWriteKind::CancelAll => "CancelAll",
            ExecutionWriteKind::Retry => "Retry",
        }
    }
}

/// Upstream identity bound to the exact command activated after persistence.
#[derive(Clone, Debug, PartialEq, Eq)]
pub struct ExecutionWriteIdentity {
    /// Command identifier which must be reused for publication and transport.
    pub command_id: UUID4,
    /// Exact client order identifier affected by the command, when singular.
    pub client_order_id: Option<ClientOrderId>,
    /// Exact instrument affected by the command.
    pub instrument_id: InstrumentId,
    /// Native mutation kind.
    pub kind: ExecutionWriteKind,
    /// Deadline after which activation must fail.
    pub expires_at: UnixNanos,
}

/// Typed two-phase activation failure.
#[derive(Clone, Debug, PartialEq, Eq)]
pub enum ExecutionWriteActivationError {
    /// No activator was installed for a staged command.
    MissingActivator,
    /// The stage token was absent, expired, consumed, or did not match the identity.
    Rejected(String),
    /// The persistence receipt did not cover the exact current sequence.
    Receipt(String),
}

impl ExecutionWriteActivationError {
    /// What the failure says.
    pub open spec fn text(self) -> Seq<char> {
        match self {
            ExecutionWriteActivationError::MissingActivator =>
                "persisted execution write activator is missing"@,
            ExecutionWriteActivationError::Rejected(detail) =>
                "persisted execution write activation was rejected: "@ + detail@,
            ExecutionWriteActivationError::Receipt(detail) =>
                "persisted execution write receipt was rejected: "@ + detail@,
        }
    }

    /// What the failure says.
    pub fn message(&self) -> (r: String)
        ensures
            r@ == self.text(),
    {
        match self {
            ExecutionWriteActivationError::MissingActivator =>
                "persisted execution write activator is missing".to_owned(),
            ExecutionWriteActivationError::Rejected(detail) => join(
                "persisted execution write activation was rejected: ",
                detail.as_str(),
            ),
            ExecutionWriteActivationError::Receipt(detail) => join(
                "persisted execution write receipt was rejected: ",
                detail.as_str(),
            ),
        }
    }
}

/// Application-owned registry which converts an opaque stage into one publishable command.
pub trait PersistedExecutionWriteActivator {
    /// What shows that a command was made durable.
    type PersistenceReceipt;

    /// What went wrong on the persistence path.
    type PersistenceError;

    /// Activates `identity` only when `stage` and `persistence` match its staged authorization.
    ///
    /// # Errors
    ///
    /// Returns an error for an absent, expired, consumed, mismatched, or insufficiently durable
    /// stage. A failure must leave the command unpublished.
    fn activate_persisted(
        &self,
        stage: ExecutionWriteStageToken,
        identity: ExecutionWriteIdentity,
        persistence: Self::PersistenceReceipt,
    ) -> Result<(), ExecutionWriteActivationError>;

    /// Permanently halts application admission after a persistence-path failure.
    fn halt(&self, cause: &Self::PersistenceError);

    /// Permanently halts application admission after stage activation fails.
    fn halt_activation(&self, cause: &ExecutionWriteActivationError);
}

} // verus!

use vstd::prelude::*;

verus! {

/// What an approval request asks to do.
#[derive(Debug, Clone, Copy, PartialEq, Eq, Structural)]
pub enum ApprovalKind {
    Exec,
    Patch,
}

/// The sandbox's assessment of a command.
#[derive(Debug)]
pub struct RiskAssessment {
    pub description: String,
    pub risk_level: String,
}

/// What an approval request carries, by kind.
#[derive(Debug)]
pub enum ApprovalDetails {
    /// A command to run.
    Exec {
        command: Vec<String>,
        cwd: String,
        reason: Option<String>,
        risk: Option<RiskAssessment>,
    },
    /// A patch to apply.
    Patch { reason: Option<String>, grant_root: Option<String>, files: Vec<String> },
}

/// A request for a human decision before a sensitive action.
#[derive(Debug)]
pub struct ApprovalRequest {
    pub id: String,
    pub details: ApprovalDetails,
}

/// The kind of a request.
pub open spec fn request_kind(req: ApprovalRequest) -> ApprovalKind {
    match req.details {
        ApprovalDetails::Exec { .. } => ApprovalKind::Exec,
        ApprovalDetails::Patch { .. } => ApprovalKind::Patch,
    }
}

impl ApprovalRequest {
    /// The kind of this request.
    pub fn kind(&self) -> (r: ApprovalKind)
        ensures
            r == request_kind(*self),
    {
        match &self.details {
            ApprovalDetails::Exec { .. } => ApprovalKind::Exec,
            ApprovalDetails::Patch { .. } => ApprovalKind::Patch,
        }
    }
}

} // verus!

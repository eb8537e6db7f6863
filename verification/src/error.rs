use vstd::prelude::*;

verus! {

/// The platform's own error codes.
#[derive(Clone, Copy, Debug, PartialEq, Eq, Structural)]
pub enum ErrorCode {
    Unauthorized,
    LabelTooLong,
    CourseIdEmpty,
    InvalidLessonCount,
    InvalidDifficulty,
    CourseNotActive,
    PrerequisiteNotMet,
    CourseAlreadyFinalized,
    CourseNotCompleted,
    CourseNotFinalized,
    LessonOutOfBounds,
    LessonAlreadyCompleted,
    UnenrollCooldown,
    Overflow,
    InvalidAmount,
    CredentialAlreadyIssued,
    CredentialAssetMismatch,
}

/// A declared relation between the accounts of an instruction that does not hold.
#[derive(Clone, Copy, Debug, PartialEq, Eq, Structural)]
pub enum Constraint {
    /// A stored key (such as `config.authority`) differs from the account given for it.
    HasOne,
    /// A stated equation between accounts (such as `enrollment.course == course`) fails.
    Raw,
    /// An account is not the one whose address the configuration records.
    Address,
    /// A token account is not owned by the wallet that the other accounts name.
    TokenOwner,
}

/// Why an instruction was refused.
#[derive(Clone, Copy, Debug, PartialEq, Eq, Structural)]
pub enum InstructionError {
    /// The accounts handed to the instruction violate one of its declared constraints.
    Constraint(Constraint),
    /// The instruction itself rejected the request.
    Program(ErrorCode),
}

} // verus!

use vstd::prelude::*;

verus! {

/// Every way in which an instruction of this program can be refused. The
/// last two concern the accounts' lifecycle: an account to be created that
/// already exists, and an account to be closed into itself.
#[derive(Clone, Copy, Debug, PartialEq, Eq, Structural)]
pub enum ProjectCommentsError {
    Unauthorized,
    ProgramPaused,
    ThreadLocked,
    InvalidSourceMetadata,
    NotEligibleToComment,
    ParentThreadMismatch,
    CommentDeleted,
    BodyEmpty,
    BodyTooLong,
    InvalidReactionKind,
    AlreadyReacted,
    ReactionNotFound,
    MathOverflow,
    MathUnderflow,
    InvalidEligibilityMode,
    InvalidMaxCommentLen,
    InvalidCpiProgram,
    InvalidPda,
    InvalidAccountOwner,
    MissingRequiredSigner,
    InvalidSysvarAccount,
    InvalidInstructionIntrospection,
    AccountAlreadyInUse,
    InvalidCloseDestination,
}

/// The position of an error in the declaration, counted from zero.
pub open spec fn error_index(e: ProjectCommentsError) -> nat {
    match e {
        ProjectCommentsError::Unauthorized => 0,
        ProjectCommentsError::ProgramPaused => 1,
        ProjectCommentsError::ThreadLocked => 2,
        ProjectCommentsError::InvalidSourceMetadata => 3,
        ProjectCommentsError::NotEligibleToComment => 4,
        ProjectCommentsError::ParentThreadMismatch => 5,
        ProjectCommentsError::CommentDeleted => 6,
        ProjectCommentsError::BodyEmpty => 7,
        ProjectCommentsError::BodyTooLong => 8,
        ProjectCommentsError::InvalidReactionKind => 9,
        ProjectCommentsError::AlreadyReacted => 10,
        ProjectCommentsError::ReactionNotFound => 11,
        ProjectCommentsError::MathOverflow => 12,
        ProjectCommentsError::MathUnderflow => 13,
        ProjectCommentsError::InvalidEligibilityMode => 14,
        ProjectCommentsError::InvalidMaxCommentLen => 15,
        ProjectCommentsError::InvalidCpiProgram => 16,
        ProjectCommentsError::InvalidPda => 17,
        ProjectCommentsError::InvalidAccountOwner => 18,
        ProjectCommentsError::MissingRequiredSigner => 19,
        ProjectCommentsError::InvalidSysvarAccount => 20,
        ProjectCommentsError::InvalidInstructionIntrospection => 21,
        ProjectCommentsError::AccountAlreadyInUse => 22,
        ProjectCommentsError::InvalidCloseDestination => 23,
    }
}

/// Custom error codes of a program start at this number.
pub const ERROR_CODE_OFFSET: u32 = 6000;

impl ProjectCommentsError {
    /// The numeric code under which the error is reported: the offset plus
    /// the error's position in the declaration.
    pub fn code(&self) -> (c: u32)
        ensures
            c == ERROR_CODE_OFFSET + error_index(*self),
    {
        let i: u32 = match self {
            ProjectCommentsError::Unauthorized => 0,
            ProjectCommentsError::ProgramPaused => 1,
            ProjectCommentsError::ThreadLocked => 2,
            ProjectCommentsError::InvalidSourceMetadata => 3,
            ProjectCommentsError::NotEligibleToComment => 4,
            ProjectCommentsError::ParentThreadMismatch => 5,
            ProjectCommentsError::CommentDeleted => 6,
            ProjectCommentsError::BodyEmpty => 7,
            ProjectCommentsError::BodyTooLong => 8,
            ProjectCommentsError::InvalidReactionKind => 9,
            ProjectCommentsError::AlreadyReacted => 10,
            ProjectCommentsError::ReactionNotFound => 11,
            ProjectCommentsError::MathOverflow => 12,
            ProjectCommentsError::MathUnderflow => 13,
            ProjectCommentsError::InvalidEligibilityMode => 14,
            ProjectCommentsError::InvalidMaxCommentLen => 15,
            ProjectCommentsError::InvalidCpiProgram => 16,
            ProjectCommentsError::InvalidPda => 17,
            ProjectCommentsError::InvalidAccountOwner => 18,
            ProjectCommentsError::MissingRequiredSigner => 19,
            ProjectCommentsError::InvalidSysvarAccount => 20,
            ProjectCommentsError::InvalidInstructionIntrospection => 21,
            ProjectCommentsError::AccountAlreadyInUse => 22,
            ProjectCommentsError::InvalidCloseDestination => 23,
        };
        ERROR_CODE_OFFSET + i
    }

    /// The human-readable message of the error.
    pub fn message(&self) -> (m: &'static str)
        ensures
            m@ == error_message(*self)@,
    {
        match self {
            ProjectCommentsError::Unauthorized => "Unauthorized operation",
            ProjectCommentsError::ProgramPaused => "Program is paused for non-admin writes",
            ProjectCommentsError::ThreadLocked => "Thread is locked",
            ProjectCommentsError::InvalidSourceMetadata => "Invalid source metadata",
            ProjectCommentsError::NotEligibleToComment => "User not eligible to comment",
            ProjectCommentsError::ParentThreadMismatch => "Parent comment does not belong to target thread",
            ProjectCommentsError::CommentDeleted => "Comment was deleted",
            ProjectCommentsError::BodyEmpty => "Comment body cannot be empty",
            ProjectCommentsError::BodyTooLong => "Comment body is too long",
            ProjectCommentsError::InvalidReactionKind => "Invalid reaction kind length",
            ProjectCommentsError::AlreadyReacted => "Reaction already exists",
            ProjectCommentsError::ReactionNotFound => "Reaction not found",
            ProjectCommentsError::MathOverflow => "Math overflow",
            ProjectCommentsError::MathUnderflow => "Math underflow",
            ProjectCommentsError::InvalidEligibilityMode => "Invalid eligibility mode",
            ProjectCommentsError::InvalidMaxCommentLen => "Invalid max comment length",
            ProjectCommentsError::InvalidCpiProgram => "Invalid CPI program",
            ProjectCommentsError::InvalidPda => "Invalid PDA",
            ProjectCommentsError::InvalidAccountOwner => "Invalid account owner",
            ProjectCommentsError::MissingRequiredSigner => "Missing required signer",
            ProjectCommentsError::InvalidSysvarAccount => "Invalid sysvar account",
            ProjectCommentsError::InvalidInstructionIntrospection => "Invalid instruction introspection",
            ProjectCommentsError::AccountAlreadyInUse => "Account already in use",
            ProjectCommentsError::InvalidCloseDestination => "Account cannot be closed into itself",
        }
    }
}

/// The message text of each error.
pub open spec fn error_message(e: ProjectCommentsError) -> &'static str {
    match e {
        ProjectCommentsError::Unauthorized => "Unauthorized operation",
        ProjectCommentsError::ProgramPaused => "Program is paused for non-admin writes",
        ProjectCommentsError::ThreadLocked => "Thread is locked",
        ProjectCommentsError::InvalidSourceMetadata => "Invalid source metadata",
        ProjectCommentsError::NotEligibleToComment => "User not eligible to comment",
        ProjectCommentsError::ParentThreadMismatch => "Parent comment does not belong to target thread",
        ProjectCommentsError::CommentDeleted => "Comment was deleted",
        ProjectCommentsError::BodyEmpty => "Comment body cannot be empty",
        ProjectCommentsError::BodyTooLong => "Comment body is too long",
        ProjectCommentsError::InvalidReactionKind => "Invalid reaction kind length",
        ProjectCommentsError::AlreadyReacted => "Reaction already exists",
        ProjectCommentsError::ReactionNotFound => "Reaction not found",
        ProjectCommentsError::MathOverflow => "Math overflow",
        ProjectCommentsError::MathUnderflow => "Math underflow",
        ProjectCommentsError::InvalidEligibilityMode => "Invalid eligibility mode",
        ProjectCommentsError::InvalidMaxCommentLen => "Invalid max comment length",
        ProjectCommentsError::InvalidCpiProgram => "Invalid CPI program",
        ProjectCommentsError::InvalidPda => "Invalid PDA",
        ProjectCommentsError::InvalidAccountOwner => "Invalid account owner",
        ProjectCommentsError::MissingRequiredSigner => "Missing required signer",
        ProjectCommentsError::InvalidSysvarAccount => "Invalid sysvar account",
        ProjectCommentsError::InvalidInstructionIntrospection => "Invalid instruction introspection",
        ProjectCommentsError::AccountAlreadyInUse => "Account already in use",
        ProjectCommentsError::InvalidCloseDestination => "Account cannot be closed into itself",
    }
}

/// A check that passes when no error is found.
pub open spec fn outcome(e: Option<ProjectCommentsError>) -> Result<(), ProjectCommentsError> {
    match e {
        Some(err) => Err(err),
        None => Ok(()),
    }
}

/// The first error found by two checks made one after the other.
pub open spec fn first_error(
    a: Option<ProjectCommentsError>,
    b: Option<ProjectCommentsError>,
) -> Option<ProjectCommentsError> {
    if a is Some {
        a
    } else {
        b
    }
}

} // verus!

use vstd::prelude::*;

use vstd::utf8::encode_utf8;

use crate::accounts::RawAccount;
use crate::error::{outcome, ProjectCommentsError};
use crate::key::Pubkey;
use crate::metadata::{PostMetaStandard, PostMetaView, UserMetaStandard, UserMetaView};
use crate::state::{Config, Thread, ABS_MAX_COMMENT_LEN, MAX_REACTION_KIND_LEN};

verus! {

/// The size of a text in bytes, once encoded as UTF-8.
pub open spec fn byte_len(text: Seq<char>) -> int {
    encode_utf8(text).len() as int
}

/// Eligibility modes are 0 (registered and eligible), 1 (registered) and
/// 2 (anyone).
pub open spec fn eligibility_mode_error(mode: u8) -> Option<ProjectCommentsError> {
    if mode <= 2 {
        None
    } else {
        Some(ProjectCommentsError::InvalidEligibilityMode)
    }
}

/// A comment length limit lies between 1 and the absolute maximum.
pub open spec fn max_comment_len_error(max_comment_len: u16) -> Option<ProjectCommentsError> {
    if 0 < max_comment_len && max_comment_len <= ABS_MAX_COMMENT_LEN {
        None
    } else {
        Some(ProjectCommentsError::InvalidMaxCommentLen)
    }
}

/// A body is not empty and takes at most `max_comment_len` bytes.
pub open spec fn body_error(body: Seq<char>, max_comment_len: int) -> Option<ProjectCommentsError> {
    if body.len() == 0 {
        Some(ProjectCommentsError::BodyEmpty)
    } else if byte_len(body) > max_comment_len {
        Some(ProjectCommentsError::BodyTooLong)
    } else {
        None
    }
}

/// A reaction kind takes between 1 and `MAX_REACTION_KIND_LEN` bytes.
pub open spec fn reaction_kind_error(kind: Seq<char>) -> Option<ProjectCommentsError> {
    if 1 <= byte_len(kind) <= MAX_REACTION_KIND_LEN {
        None
    } else {
        Some(ProjectCommentsError::InvalidReactionKind)
    }
}

/// Only an unlocked thread takes new comments and reactions.
pub open spec fn thread_writable_error(thread: Thread) -> Option<ProjectCommentsError> {
    if thread.is_locked {
        Some(ProjectCommentsError::ThreadLocked)
    } else {
        None
    }
}

/// While the program is paused, only the super admin may write.
pub open spec fn paused_error(config: Config, actor: Seq<u8>) -> Option<ProjectCommentsError> {
    if config.paused && actor != config.super_admin@ {
        Some(ProjectCommentsError::ProgramPaused)
    } else {
        None
    }
}

/// The account has signed the transaction.
pub open spec fn signer_error(account: RawAccount) -> Option<ProjectCommentsError> {
    if account.is_signer {
        None
    } else {
        Some(ProjectCommentsError::MissingRequiredSigner)
    }
}

/// The account is owned by the expected program.
pub open spec fn owner_error(account: RawAccount, expected_owner: Seq<u8>) -> Option<ProjectCommentsError> {
    if account.owner@ == expected_owner {
        None
    } else {
        Some(ProjectCommentsError::InvalidAccountOwner)
    }
}

/// The post metadata names the given source program, post account and post
/// id, and the post is public and not archived.
pub open spec fn post_meta_error(
    meta: PostMetaView,
    source_program_id: Seq<u8>,
    post_account: Seq<u8>,
    post_id: u64,
) -> Option<ProjectCommentsError> {
    if meta.source_program_id == source_program_id && meta.post_account == post_account
        && meta.post_id == post_id && meta.is_public && !meta.is_archived {
        None
    } else {
        Some(ProjectCommentsError::InvalidSourceMetadata)
    }
}

/// Whether a user with this metadata may comment under the given mode.
pub open spec fn eligible_under(meta: UserMetaView, eligibility_mode: u8) -> bool {
    match eligibility_mode {
        0 => meta.is_registered && meta.is_eligible_to_comment,
        1 => meta.is_registered,
        _ => true,
    }
}

/// The user metadata names the given source program and user, the mode is
/// known, and the user is eligible under it.
pub open spec fn user_eligibility_error(
    meta: UserMetaView,
    source_program_id: Seq<u8>,
    user: Seq<u8>,
    eligibility_mode: u8,
) -> Option<ProjectCommentsError> {
    if meta.source_program_id != source_program_id || meta.user != user {
        Some(ProjectCommentsError::InvalidSourceMetadata)
    } else if eligibility_mode > 2 {
        Some(ProjectCommentsError::InvalidEligibilityMode)
    } else if !eligible_under(meta, eligibility_mode) {
        Some(ProjectCommentsError::NotEligibleToComment)
    } else {
        None
    }
}

/// The account is the expected program and is executable.
pub open spec fn pinned_program_error(account: RawAccount, expected_program_id: Seq<u8>) -> Option<
    ProjectCommentsError,
> {
    if account.key@ != expected_program_id || !account.executable {
        Some(ProjectCommentsError::InvalidCpiProgram)
    } else {
        None
    }
}

/// Accepts the known eligibility modes.
pub fn validate_eligibility_mode(mode: u8) -> (r: Result<(), ProjectCommentsError>)
    ensures
        r == outcome(eligibility_mode_error(mode)),
{
    if mode <= 2 {
        Ok(())
    } else {
        Err(ProjectCommentsError::InvalidEligibilityMode)
    }
}

/// Accepts a comment length limit between 1 and the absolute maximum.
pub fn validate_max_comment_len(max_comment_len: u16) -> (r: Result<(), ProjectCommentsError>)
    ensures
        r == outcome(max_comment_len_error(max_comment_len)),
{
    if max_comment_len == 0 {
        return Err(ProjectCommentsError::InvalidMaxCommentLen);
    }
    if max_comment_len as usize > ABS_MAX_COMMENT_LEN {
        return Err(ProjectCommentsError::InvalidMaxCommentLen);
    }
    Ok(())
}

/// Accepts a body that is not empty and fits the length limit in bytes.
pub fn validate_body(body: &str, max_comment_len: usize) -> (r: Result<(), ProjectCommentsError>)
    ensures
        r == outcome(body_error(body@, max_comment_len as int)),
{
    if body.is_empty() {
        return Err(ProjectCommentsError::BodyEmpty);
    }
    if body.as_bytes().len() > max_comment_len {
        return Err(ProjectCommentsError::BodyTooLong);
    }
    Ok(())
}

/// Accepts a reaction kind of 1 to `MAX_REACTION_KIND_LEN` bytes.
pub fn validate_reaction_kind(kind: &str) -> (r: Result<(), ProjectCommentsError>)
    ensures
        r == outcome(reaction_kind_error(kind@)),
{
    let len = kind.as_bytes().len();
    if 1 <= len && len <= MAX_REACTION_KIND_LEN {
        Ok(())
    } else {
        Err(ProjectCommentsError::InvalidReactionKind)
    }
}

/// Refuses a locked thread.
pub fn ensure_thread_writable(thread: &Thread) -> (r: Result<(), ProjectCommentsError>)
    ensures
        r == outcome(thread_writable_error(*thread)),
{
    if thread.is_locked {
        Err(ProjectCommentsError::ThreadLocked)
    } else {
        Ok(())
    }
}

/// Refuses anyone but the super admin while the program is paused.
pub fn ensure_not_paused_or_admin(config: &Config, actor: &Pubkey) -> (r: Result<
    (),
    ProjectCommentsError,
>)
    ensures
        r == outcome(paused_error(*config, actor@)),
{
    if config.paused && *actor != config.super_admin {
        return Err(ProjectCommentsError::ProgramPaused);
    }
    Ok(())
}

/// Refuses an account that has not signed.
pub fn ensure_signer(account: &RawAccount) -> (r: Result<(), ProjectCommentsError>)
    ensures
        r == outcome(signer_error(*account)),
{
    if !account.is_signer {
        return Err(ProjectCommentsError::MissingRequiredSigner);
    }
    Ok(())
}

/// Refuses an account that the expected program does not own.
pub fn verify_account_owner(account: &RawAccount, expected_owner: &Pubkey) -> (r: Result<
    (),
    ProjectCommentsError,
>)
    ensures
        r == outcome(owner_error(*account, expected_owner@)),
{
    if account.owner != *expected_owner {
        return Err(ProjectCommentsError::InvalidAccountOwner);
    }
    Ok(())
}

/// Checks that post metadata describes the given post and that the post is
/// public and not archived.
pub fn validate_post_meta(
    post_meta: &PostMetaStandard,
    source_program_id: Pubkey,
    post_account: Pubkey,
    post_id: u64,
) -> (r: Result<(), ProjectCommentsError>)
    ensures
        r == outcome(post_meta_error(post_meta@, source_program_id@, post_account@, post_id)),
{
    if post_meta.source_program_id != source_program_id {
        return Err(ProjectCommentsError::InvalidSourceMetadata);
    }
    if post_meta.post_account != post_account {
        return Err(ProjectCommentsError::InvalidSourceMetadata);
    }
    if post_meta.post_id != post_id {
        return Err(ProjectCommentsError::InvalidSourceMetadata);
    }
    if !post_meta.is_public {
        return Err(ProjectCommentsError::InvalidSourceMetadata);
    }
    if post_meta.is_archived {
        return Err(ProjectCommentsError::InvalidSourceMetadata);
    }
    Ok(())
}

/// Checks that user metadata describes the given user and that the user may
/// comment under the eligibility mode.
pub fn validate_user_eligibility(
    user_meta: &UserMetaStandard,
    source_program_id: Pubkey,
    user: Pubkey,
    eligibility_mode: u8,
) -> (r: Result<(), ProjectCommentsError>)
    ensures
        r == outcome(user_eligibility_error(user_meta@, source_program_id@, user@, eligibility_mode)),
{
    if user_meta.source_program_id != source_program_id {
        return Err(ProjectCommentsError::InvalidSourceMetadata);
    }
    if user_meta.user != user {
        return Err(ProjectCommentsError::InvalidSourceMetadata);
    }
    let allowed = match eligibility_mode {
        0 => user_meta.is_registered && user_meta.is_eligible_to_comment,
        1 => user_meta.is_registered,
        2 => true,
        _ => return Err(ProjectCommentsError::InvalidEligibilityMode),
    };
    if !allowed {
        return Err(ProjectCommentsError::NotEligibleToComment);
    }
    Ok(())
}

/// Checks that an account is the expected program and is executable.
pub fn verify_pinned_program_id(account: &RawAccount, expected_program_id: &Pubkey) -> (r: Result<
    (),
    ProjectCommentsError,
>)
    ensures
        r == outcome(pinned_program_error(*account, expected_program_id@)),
{
    if account.key != *expected_program_id {
        return Err(ProjectCommentsError::InvalidCpiProgram);
    }
    if !account.executable {
        return Err(ProjectCommentsError::InvalidCpiProgram);
    }
    Ok(())
}

} // verus!

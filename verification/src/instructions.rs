use vstd::prelude::*;

use crate::accounts::{
    AddReaction, RawAccount, AdminRemoveReaction, CreateComment, CreateThreadForPost, DeleteComment, EditComment,
    InitializeConfig, RemoveReaction, ReplyComment, SetThreadLock, UpdateConfig,
};
use crate::checks::{
    body_error, eligibility_mode_error, ensure_not_paused_or_admin, ensure_signer,
    ensure_thread_writable, max_comment_len_error, owner_error, paused_error, pinned_program_error,
    post_meta_error, reaction_kind_error, signer_error, thread_writable_error,
    user_eligibility_error, validate_body, validate_eligibility_mode, validate_max_comment_len,
    validate_post_meta, validate_reaction_kind, validate_user_eligibility, verify_account_owner,
    verify_pinned_program_id,
};
use crate::error::{first_error, outcome, ProjectCommentsError};
use crate::events::{
    CommentCreated, CommentDeleted, CommentEdited, ConfigInitialized, ConfigUpdated, ReactionAdded,
    ReactionRemoved, ThreadCreated, ThreadLockChanged,
};
use crate::key::Pubkey;
use crate::metadata::{
    external_metadata, read_post_meta_standard, read_user_meta_standard, PostMetaStandard,
    UserMetaStandard,
};
use crate::pda::{
    assert_canonical_pda, canonical_pda_error, comment_seeds, make_comment_seeds,
    make_reaction_seeds, make_thread_seeds, reaction_seeds, thread_seeds,
};
use crate::state::{Comment, Config, Reaction, Thread, DELETE_TOMBSTONE};
use crate::sysvar::{instructions_sysvar_error, sysvar_data_readable, verify_instructions_sysvar};

verus! {

// ===== account lifecycle =====

/// An account that an instruction creates does not exist yet.
pub open spec fn fresh_account_error<T>(account: Option<T>) -> Option<ProjectCommentsError> {
    if account is Some {
        Some(ProjectCommentsError::AccountAlreadyInUse)
    } else {
        None
    }
}

/// Refuses to create an account that already exists.
pub fn ensure_fresh_account<T>(account: &Option<T>) -> (r: Result<(), ProjectCommentsError>)
    ensures
        r == outcome(fresh_account_error(*account)),
{
    match account {
        Some(_) => Err(ProjectCommentsError::AccountAlreadyInUse),
        None => Ok(()),
    }
}

/// An account is not closed into itself.
pub open spec fn close_destination_error(account: Seq<u8>, destination: Seq<u8>) -> Option<
    ProjectCommentsError,
> {
    if account == destination {
        Some(ProjectCommentsError::InvalidCloseDestination)
    } else {
        None
    }
}

/// Refuses to close an account into itself.
pub fn ensure_close_destination(account: &Pubkey, destination: &Pubkey) -> (r: Result<
    (),
    ProjectCommentsError,
>)
    ensures
        r == outcome(close_destination_error(account@, destination@)),
{
    if *account == *destination {
        return Err(ProjectCommentsError::InvalidCloseDestination);
    }
    Ok(())
}

/// The lamports of a closed account fit in its destination's balance.
pub open spec fn lamport_transfer_error(balance: u64, amount: u64) -> Option<ProjectCommentsError> {
    if balance + amount > u64::MAX {
        Some(ProjectCommentsError::MathOverflow)
    } else {
        None
    }
}

// ===== initialize_config =====

/// Why `initialize_config` refuses its arguments, if it does.
pub open spec fn initialize_config_error(eligibility_mode: u8, max_comment_len: u16) -> Option<
    ProjectCommentsError,
> {
    first_error(eligibility_mode_error(eligibility_mode), max_comment_len_error(max_comment_len))
}

/// Why `initialize_config` refuses its accounts and arguments, if it does:
/// the configuration exists already, or the arguments are refused.
pub open spec fn initialize_config_accounts_error(
    ctx: InitializeConfig,
    eligibility_mode: u8,
    max_comment_len: u16,
) -> Option<ProjectCommentsError> {
    first_error(
        fresh_account_error(ctx.config),
        initialize_config_error(eligibility_mode, max_comment_len),
    )
}

/// Creates the configuration: unpaused, with the given super admin, mode and
/// limits, created and updated now.
pub fn initialize_config(
    ctx: &mut InitializeConfig,
    super_admin: Pubkey,
    eligibility_mode: u8,
    max_comment_len: u16,
    max_reactions_per_user: u16,
    now: i64,
) -> (r: Result<ConfigInitialized, ProjectCommentsError>)
    ensures
        match r {
            Ok(event) => {
                &&& initialize_config_accounts_error(*old(ctx), eligibility_mode, max_comment_len)
                    is None
                &&& final(ctx).config_bump == old(ctx).config_bump
                &&& final(ctx).config == Some(Config {
                    super_admin,
                    paused: false,
                    eligibility_mode,
                    max_comment_len,
                    max_reactions_per_user,
                    created_at: now,
                    updated_at: now,
                    bump: old(ctx).config_bump,
                })
                &&& event == (ConfigInitialized {
                    super_admin,
                    paused: false,
                    eligibility_mode,
                    max_comment_len,
                    max_reactions_per_user,
                })
            },
            Err(e) => {
                &&& initialize_config_accounts_error(*old(ctx), eligibility_mode, max_comment_len)
                    == Some(e)
                &&& *final(ctx) == *old(ctx)
            },
        },
{
    ensure_fresh_account(&ctx.config)?;
    validate_eligibility_mode(eligibility_mode)?;
    validate_max_comment_len(max_comment_len)?;
    ctx.config = Some(Config {
        super_admin,
        paused: false,
        eligibility_mode,
        max_comment_len,
        max_reactions_per_user,
        created_at: now,
        updated_at: now,
        bump: ctx.config_bump,
    });
    Ok(
        ConfigInitialized {
            super_admin,
            paused: false,
            eligibility_mode,
            max_comment_len,
            max_reactions_per_user,
        },
    )
}

// ===== update_config =====

/// Why `update_config` refuses its arguments, if it does.
pub open spec fn update_config_error(
    ctx: UpdateConfig,
    eligibility_mode: u8,
    max_comment_len: u16,
) -> Option<ProjectCommentsError> {
    first_error(
        eligibility_mode_error(eligibility_mode),
        first_error(
            max_comment_len_error(max_comment_len),
            if ctx.admin.key@ != ctx.config.super_admin@ {
                Some(ProjectCommentsError::Unauthorized)
            } else {
                None
            },
        ),
    )
}

/// Lets the super admin set the pause flag, the eligibility mode and the
/// limits.
pub fn update_config(
    ctx: &mut UpdateConfig,
    paused: bool,
    eligibility_mode: u8,
    max_comment_len: u16,
    max_reactions_per_user: u16,
    now: i64,
) -> (r: Result<ConfigUpdated, ProjectCommentsError>)
    ensures
        match r {
            Ok(event) => {
                &&& update_config_error(*old(ctx), eligibility_mode, max_comment_len) is None
                &&& final(ctx).admin == old(ctx).admin
                &&& final(ctx).config == (Config {
                    paused,
                    eligibility_mode,
                    max_comment_len,
                    max_reactions_per_user,
                    updated_at: now,
                    ..old(ctx).config
                })
                &&& event == (ConfigUpdated {
                    super_admin: old(ctx).config.super_admin,
                    paused,
                    eligibility_mode,
                    max_comment_len,
                    max_reactions_per_user,
                })
            },
            Err(e) => {
                &&& update_config_error(*old(ctx), eligibility_mode, max_comment_len) == Some(e)
                &&& *final(ctx) == *old(ctx)
            },
        },
{
    validate_eligibility_mode(eligibility_mode)?;
    validate_max_comment_len(max_comment_len)?;
    if ctx.admin.key != ctx.config.super_admin {
        return Err(ProjectCommentsError::Unauthorized);
    }
    ctx.config.paused = paused;
    ctx.config.eligibility_mode = eligibility_mode;
    ctx.config.max_comment_len = max_comment_len;
    ctx.config.max_reactions_per_user = max_reactions_per_user;
    ctx.config.updated_at = now;
    Ok(
        ConfigUpdated {
            super_admin: ctx.config.super_admin,
            paused,
            eligibility_mode,
            max_comment_len,
            max_reactions_per_user,
        },
    )
}

// ===== create_thread_for_post =====

/// Why `create_thread_for_post` refuses its accounts and arguments, if it does.
pub open spec fn create_thread_error(
    ctx: CreateThreadForPost,
    source_program_id: Seq<u8>,
    post_id: u64,
) -> Option<ProjectCommentsError> {
    first_error(
        fresh_account_error(ctx.thread),
        create_thread_request_error(ctx, source_program_id, post_id),
    )
}

/// Why `create_thread_for_post` refuses to open a thread whose account does
/// not exist yet, if it does.
pub open spec fn create_thread_request_error(
    ctx: CreateThreadForPost,
    source_program_id: Seq<u8>,
    post_id: u64,
) -> Option<ProjectCommentsError> {
    first_error(
        signer_error(ctx.authority),
        first_error(
            paused_error(ctx.config, ctx.authority.key@),
            first_error(
                instructions_sysvar_error(ctx.instructions_sysvar),
                first_error(
                    owner_error(ctx.post_meta, source_program_id),
                    match external_metadata::<PostMetaStandard>(ctx.post_meta.data@) {
                        None => Some(ProjectCommentsError::InvalidSourceMetadata),
                        Some(meta) => first_error(
                            post_meta_error(
                                meta,
                                source_program_id,
                                ctx.post_account.key@,
                                post_id,
                            ),
                            canonical_pda_error(
                                ctx.thread_key@,
                                thread_seeds(source_program_id, ctx.post_account.key@),
                                ctx.thread_bump,
                            ),
                        ),
                    },
                ),
            ),
        ),
    )
}

/// The author of the post, as its metadata account states it.
pub open spec fn stated_post_author(ctx: CreateThreadForPost) -> Seq<u8> {
    external_metadata::<PostMetaStandard>(ctx.post_meta.data@)->0.post_author
}

/// A thread just opened for a post: no comments, unlocked, created and
/// updated now.
pub open spec fn is_new_thread(
    thread: Thread,
    source_program_id: Pubkey,
    post_account: Pubkey,
    post_author: Seq<u8>,
    post_id: u64,
    now: i64,
    bump: u8,
) -> bool {
    &&& thread.source_program_id == source_program_id
    &&& thread.post_account == post_account
    &&& thread.post_author@ == post_author
    &&& thread.post_id == post_id
    &&& thread.comments_count == 0
    &&& !thread.is_locked
    &&& thread.created_at == now
    &&& thread.updated_at == now
    &&& thread.bump == bump
}

/// Opens the thread of an external post, whose account must not exist yet,
/// once the post's metadata, owned by the source program, confirms the post
/// and shows it public and not archived.
pub fn create_thread_for_post(
    ctx: &mut CreateThreadForPost,
    source_program_id: Pubkey,
    post_id: u64,
    now: i64,
) -> (r: Result<ThreadCreated, ProjectCommentsError>)
    requires
        sysvar_data_readable(old(ctx).instructions_sysvar),
    ensures
        match r {
            Ok(event) => {
                &&& create_thread_error(*old(ctx), source_program_id@, post_id) is None
                &&& final(ctx).thread is Some
                &&& is_new_thread(
                    final(ctx).thread->0,
                    source_program_id,
                    old(ctx).post_account.key,
                    stated_post_author(*old(ctx)),
                    post_id,
                    now,
                    old(ctx).thread_bump,
                )
                &&& *final(ctx) == (CreateThreadForPost { thread: final(ctx).thread, ..*old(ctx) })
                &&& event == (ThreadCreated {
                    thread: old(ctx).thread_key,
                    source_program_id,
                    post_account: old(ctx).post_account.key,
                    post_author: final(ctx).thread->0.post_author,
                    post_id,
                })
            },
            Err(e) => {
                &&& create_thread_error(*old(ctx), source_program_id@, post_id) == Some(e)
                &&& *final(ctx) == *old(ctx)
            },
        },
{
    ensure_fresh_account(&ctx.thread)?;
    ensure_signer(&ctx.authority)?;
    ensure_not_paused_or_admin(&ctx.config, &ctx.authority.key)?;
    verify_instructions_sysvar(&ctx.instructions_sysvar)?;
    verify_account_owner(&ctx.post_meta, &source_program_id)?;
    let post_meta = read_post_meta_standard(ctx.post_meta.data.as_slice())?;
    let post_account = ctx.post_account.key;
    validate_post_meta(&post_meta, source_program_id, post_account, post_id)?;
    let seeds = make_thread_seeds(&source_program_id, &post_account);
    assert_canonical_pda(&ctx.thread_key, &seeds, ctx.thread_bump)?;
    ctx.thread = Some(Thread {
        source_program_id,
        post_account,
        post_author: post_meta.post_author,
        post_id,
        comments_count: 0,
        is_locked: false,
        created_at: now,
        updated_at: now,
        bump: ctx.thread_bump,
    });
    Ok(
        ThreadCreated {
            thread: ctx.thread_key,
            source_program_id,
            post_account,
            post_author: post_meta.post_author,
            post_id,
        },
    )
}

// ===== create_comment =====

/// A thread as a new comment or reply leaves it: one comment more, updated
/// now.
pub open spec fn thread_after_comment(thread: Thread, now: i64) -> Thread {
    Thread { comments_count: (thread.comments_count + 1) as u64, updated_at: now, ..thread }
}

/// Why `create_comment` refuses its accounts and arguments, if it does.
pub open spec fn create_comment_error(
    ctx: CreateComment,
    source_program_id: Seq<u8>,
    body: Seq<char>,
) -> Option<ProjectCommentsError> {
    first_error(
        fresh_account_error(ctx.comment),
        create_comment_request_error(ctx, source_program_id, body),
    )
}

/// Why `create_comment` refuses to write a comment whose account does not exist
/// yet, if it does.
pub open spec fn create_comment_request_error(
    ctx: CreateComment,
    source_program_id: Seq<u8>,
    body: Seq<char>,
) -> Option<ProjectCommentsError> {
    first_error(
        signer_error(ctx.author),
        first_error(
            paused_error(ctx.config, ctx.author.key@),
            first_error(
                thread_writable_error(ctx.thread),
                first_error(
                    instructions_sysvar_error(ctx.instructions_sysvar),
                    first_error(
                        body_error(body, ctx.config.max_comment_len as int),
                        first_error(
                            owner_error(ctx.user_meta, source_program_id),
                            match external_metadata::<UserMetaStandard>(ctx.user_meta.data@) {
                                None => Some(ProjectCommentsError::InvalidSourceMetadata),
                                Some(meta) => first_error(
                                    user_eligibility_error(
                                        meta,
                                        source_program_id,
                                        ctx.author.key@,
                                        ctx.config.eligibility_mode,
                                    ),
                                    if ctx.thread.comments_count == u64::MAX {
                                        Some(ProjectCommentsError::MathOverflow)
                                    } else {
                                        canonical_pda_error(
                                            ctx.comment_key@,
                                            comment_seeds(ctx.thread_key@, ctx.thread.comments_count),
                                            ctx.comment_bump,
                                        )
                                    },
                                ),
                            },
                        ),
                    ),
                ),
            ),
        ),
    )
}

/// Writes a top-level comment with the thread's next comment id, after the
/// author's eligibility is confirmed by metadata that the source program owns.
pub fn create_comment(
    ctx: &mut CreateComment,
    source_program_id: Pubkey,
    body: String,
    now: i64,
) -> (r: Result<CommentCreated, ProjectCommentsError>)
    requires
        sysvar_data_readable(old(ctx).instructions_sysvar),
    ensures
        match r {
            Ok(event) => {
                &&& create_comment_error(*old(ctx), source_program_id@, body@) is None
                &&& *final(ctx) == (CreateComment {
                    thread: thread_after_comment(old(ctx).thread, now),
                    comment: Some(Comment {
                        thread: old(ctx).thread_key,
                        comment_id: old(ctx).thread.comments_count,
                        author: old(ctx).author.key,
                        parent_comment: None,
                        root_comment: old(ctx).comment_key,
                        body,
                        depth: 0,
                        replies_count: 0,
                        reactions_total: 0,
                        edited_at: None,
                        deleted: false,
                        created_at: now,
                        updated_at: now,
                        bump: old(ctx).comment_bump,
                    }),
                    ..*old(ctx)
                })
                &&& event == (CommentCreated {
                    thread: old(ctx).thread_key,
                    comment: old(ctx).comment_key,
                    comment_id: old(ctx).thread.comments_count,
                    author: old(ctx).author.key,
                    parent_comment: None,
                    root_comment: old(ctx).comment_key,
                    depth: 0,
                })
            },
            Err(e) => {
                &&& create_comment_error(*old(ctx), source_program_id@, body@) == Some(e)
                &&& *final(ctx) == *old(ctx)
            },
        },
{
    ensure_fresh_account(&ctx.comment)?;
    ensure_signer(&ctx.author)?;
    ensure_not_paused_or_admin(&ctx.config, &ctx.author.key)?;
    ensure_thread_writable(&ctx.thread)?;
    verify_instructions_sysvar(&ctx.instructions_sysvar)?;
    validate_body(body.as_str(), ctx.config.max_comment_len as usize)?;
    verify_account_owner(&ctx.user_meta, &source_program_id)?;
    let user_meta = read_user_meta_standard(ctx.user_meta.data.as_slice())?;
    validate_user_eligibility(
        &user_meta,
        source_program_id,
        ctx.author.key,
        ctx.config.eligibility_mode,
    )?;
    let thread_key = ctx.thread_key;
    let next_comment_id = ctx.thread.comments_count;
    let comments_count = match next_comment_id.checked_add(1) {
        Some(count) => count,
        None => return Err(ProjectCommentsError::MathOverflow),
    };
    let seeds = make_comment_seeds(&thread_key, next_comment_id);
    assert_canonical_pda(&ctx.comment_key, &seeds, ctx.comment_bump)?;
    ctx.thread.comments_count = comments_count;
    ctx.thread.updated_at = now;
    let comment_key = ctx.comment_key;
    let author = ctx.author.key;
    ctx.comment = Some(Comment {
        thread: thread_key,
        comment_id: next_comment_id,
        author,
        parent_comment: None,
        root_comment: comment_key,
        body,
        depth: 0,
        replies_count: 0,
        reactions_total: 0,
        edited_at: None,
        deleted: false,
        created_at: now,
        updated_at: now,
        bump: ctx.comment_bump,
    });
    Ok(
        CommentCreated {
            thread: thread_key,
            comment: comment_key,
            comment_id: next_comment_id,
            author,
            parent_comment: None,
            root_comment: comment_key,
            depth: 0,
        },
    )
}

// ===== reply_comment =====

/// Why `reply_comment` refuses its accounts and arguments, if it does.
pub open spec fn reply_comment_error(
    ctx: ReplyComment,
    source_program_id: Seq<u8>,
    body: Seq<char>,
) -> Option<ProjectCommentsError> {
    first_error(
        fresh_account_error(ctx.comment),
        reply_comment_request_error(ctx, source_program_id, body),
    )
}

/// Why `reply_comment` refuses to write a comment whose account does not exist
/// yet, if it does.
pub open spec fn reply_comment_request_error(
    ctx: ReplyComment,
    source_program_id: Seq<u8>,
    body: Seq<char>,
) -> Option<ProjectCommentsError> {
    first_error(
        signer_error(ctx.author),
        first_error(
            paused_error(ctx.config, ctx.author.key@),
            first_error(
                thread_writable_error(ctx.thread),
                first_error(
                    instructions_sysvar_error(ctx.instructions_sysvar),
                    first_error(
                        body_error(body, ctx.config.max_comment_len as int),
                        first_error(
                            owner_error(ctx.user_meta, source_program_id),
                            match external_metadata::<UserMetaStandard>(ctx.user_meta.data@) {
                                None => Some(ProjectCommentsError::InvalidSourceMetadata),
                                Some(meta) => first_error(
                                    user_eligibility_error(
                                        meta,
                                        source_program_id,
                                        ctx.author.key@,
                                        ctx.config.eligibility_mode,
                                    ),
                                    reply_placement_error(ctx),
                                ),
                            },
                        ),
                    ),
                ),
            ),
        ),
    )
}

/// Why a reply cannot be placed under its parent, if it cannot: the parent
/// belongs to another thread, a counter would overflow, or the new comment's
/// address is not the canonical one for the thread's next comment id.
pub open spec fn reply_placement_error(ctx: ReplyComment) -> Option<ProjectCommentsError> {
    if ctx.parent_comment.thread@ != ctx.thread_key@ {
        Some(ProjectCommentsError::ParentThreadMismatch)
    } else if ctx.parent_comment.depth == u32::MAX || ctx.parent_comment.replies_count == u64::MAX
        || ctx.thread.comments_count == u64::MAX {
        Some(ProjectCommentsError::MathOverflow)
    } else {
        canonical_pda_error(
            ctx.comment_key@,
            comment_seeds(ctx.thread_key@, ctx.thread.comments_count),
            ctx.comment_bump,
        )
    }
}

/// Writes a reply one level below its parent, in the parent's tree, with the
/// thread's next comment id, and counts it on the parent and the thread.
pub fn reply_comment(
    ctx: &mut ReplyComment,
    source_program_id: Pubkey,
    body: String,
    now: i64,
) -> (r: Result<CommentCreated, ProjectCommentsError>)
    requires
        sysvar_data_readable(old(ctx).instructions_sysvar),
    ensures
        match r {
            Ok(event) => {
                &&& reply_comment_error(*old(ctx), source_program_id@, body@) is None
                &&& *final(ctx) == (ReplyComment {
                    thread: thread_after_comment(old(ctx).thread, now),
                    parent_comment: Comment {
                        replies_count: (old(ctx).parent_comment.replies_count + 1) as u64,
                        updated_at: now,
                        ..old(ctx).parent_comment
                    },
                    comment: Some(Comment {
                        thread: old(ctx).thread_key,
                        comment_id: old(ctx).thread.comments_count,
                        author: old(ctx).author.key,
                        parent_comment: Some(old(ctx).parent_comment_key),
                        root_comment: old(ctx).parent_comment.root_comment,
                        body,
                        depth: (old(ctx).parent_comment.depth + 1) as u32,
                        replies_count: 0,
                        reactions_total: 0,
                        edited_at: None,
                        deleted: false,
                        created_at: now,
                        updated_at: now,
                        bump: old(ctx).comment_bump,
                    }),
                    ..*old(ctx)
                })
                &&& event == (CommentCreated {
                    thread: old(ctx).thread_key,
                    comment: old(ctx).comment_key,
                    comment_id: old(ctx).thread.comments_count,
                    author: old(ctx).author.key,
                    parent_comment: Some(old(ctx).parent_comment_key),
                    root_comment: old(ctx).parent_comment.root_comment,
                    depth: (old(ctx).parent_comment.depth + 1) as u32,
                })
            },
            Err(e) => {
                &&& reply_comment_error(*old(ctx), source_program_id@, body@) == Some(e)
                &&& *final(ctx) == *old(ctx)
            },
        },
{
    ensure_fresh_account(&ctx.comment)?;
    ensure_signer(&ctx.author)?;
    ensure_not_paused_or_admin(&ctx.config, &ctx.author.key)?;
    ensure_thread_writable(&ctx.thread)?;
    verify_instructions_sysvar(&ctx.instructions_sysvar)?;
    validate_body(body.as_str(), ctx.config.max_comment_len as usize)?;
    verify_account_owner(&ctx.user_meta, &source_program_id)?;
    let user_meta = read_user_meta_standard(ctx.user_meta.data.as_slice())?;
    validate_user_eligibility(
        &user_meta,
        source_program_id,
        ctx.author.key,
        ctx.config.eligibility_mode,
    )?;
    let thread_key = ctx.thread_key;
    if ctx.parent_comment.thread != thread_key {
        return Err(ProjectCommentsError::ParentThreadMismatch);
    }
    let next_comment_id = ctx.thread.comments_count;
    let next_depth = match ctx.parent_comment.depth.checked_add(1) {
        Some(depth) => depth,
        None => return Err(ProjectCommentsError::MathOverflow),
    };
    let replies_count = match ctx.parent_comment.replies_count.checked_add(1) {
        Some(count) => count,
        None => return Err(ProjectCommentsError::MathOverflow),
    };
    let comments_count = match next_comment_id.checked_add(1) {
        Some(count) => count,
        None => return Err(ProjectCommentsError::MathOverflow),
    };
    let seeds = make_comment_seeds(&thread_key, next_comment_id);
    assert_canonical_pda(&ctx.comment_key, &seeds, ctx.comment_bump)?;
    ctx.parent_comment.replies_count = replies_count;
    ctx.parent_comment.updated_at = now;
    ctx.thread.comments_count = comments_count;
    ctx.thread.updated_at = now;
    let comment_key = ctx.comment_key;
    let parent_key = ctx.parent_comment_key;
    let root_comment = ctx.parent_comment.root_comment;
    let author = ctx.author.key;
    ctx.comment = Some(Comment {
        thread: thread_key,
        comment_id: next_comment_id,
        author,
        parent_comment: Some(parent_key),
        root_comment,
        body,
        depth: next_depth,
        replies_count: 0,
        reactions_total: 0,
        edited_at: None,
        deleted: false,
        created_at: now,
        updated_at: now,
        bump: ctx.comment_bump,
    });
    Ok(
        CommentCreated {
            thread: thread_key,
            comment: comment_key,
            comment_id: next_comment_id,
            author,
            parent_comment: Some(parent_key),
            root_comment,
            depth: next_depth,
        },
    )
}

// ===== edit_comment =====

/// Why `edit_comment` refuses its accounts and arguments, if it does.
pub open spec fn edit_comment_error(ctx: EditComment, body: Seq<char>) -> Option<ProjectCommentsError> {
    first_error(
        signer_error(ctx.author),
        first_error(
            paused_error(ctx.config, ctx.author.key@),
            first_error(
                instructions_sysvar_error(ctx.instructions_sysvar),
                first_error(
                    body_error(body, ctx.config.max_comment_len as int),
                    if ctx.comment.deleted {
                        Some(ProjectCommentsError::CommentDeleted)
                    } else if ctx.comment.author@ != ctx.author.key@ {
                        Some(ProjectCommentsError::Unauthorized)
                    } else {
                        None
                    },
                ),
            ),
        ),
    )
}

/// Lets the author of a comment that is not deleted replace its body.
pub fn edit_comment(ctx: &mut EditComment, body: String, now: i64) -> (r: Result<
    CommentEdited,
    ProjectCommentsError,
>)
    requires
        sysvar_data_readable(old(ctx).instructions_sysvar),
    ensures
        match r {
            Ok(event) => {
                &&& edit_comment_error(*old(ctx), body@) is None
                &&& *final(ctx) == (EditComment {
                    comment: Comment {
                        body,
                        edited_at: Some(now),
                        updated_at: now,
                        ..old(ctx).comment
                    },
                    ..*old(ctx)
                })
                &&& event == (CommentEdited {
                    thread: old(ctx).comment.thread,
                    comment: old(ctx).comment_key,
                    editor: old(ctx).author.key,
                })
            },
            Err(e) => {
                &&& edit_comment_error(*old(ctx), body@) == Some(e)
                &&& *final(ctx) == *old(ctx)
            },
        },
{
    ensure_signer(&ctx.author)?;
    ensure_not_paused_or_admin(&ctx.config, &ctx.author.key)?;
    verify_instructions_sysvar(&ctx.instructions_sysvar)?;
    validate_body(body.as_str(), ctx.config.max_comment_len as usize)?;
    if ctx.comment.deleted {
        return Err(ProjectCommentsError::CommentDeleted);
    }
    if ctx.comment.author != ctx.author.key {
        return Err(ProjectCommentsError::Unauthorized);
    }
    ctx.comment.body = body;
    ctx.comment.edited_at = Some(now);
    ctx.comment.updated_at = now;
    Ok(
        CommentEdited {
            thread: ctx.comment.thread,
            comment: ctx.comment_key,
            editor: ctx.author.key,
        },
    )
}

// ===== delete_comment =====

/// Who may delete a comment: its author, the super admin, or the author of
/// the post of the thread it is named with, where the comment belongs to that
/// thread.
pub open spec fn may_delete(ctx: DeleteComment) -> bool {
    ||| ctx.comment.author@ == ctx.actor.key@
    ||| ctx.config.super_admin@ == ctx.actor.key@
    ||| ctx.thread.post_author@ == ctx.actor.key@ && ctx.comment.thread@ == ctx.thread_key@
}

/// Why the actor may not delete the comment, if they may not: a post author
/// who is neither the comment's author nor the super admin acts only on
/// comments of their own thread.
pub open spec fn delete_authority_error(ctx: DeleteComment) -> Option<ProjectCommentsError> {
    if may_delete(ctx) {
        None
    } else if ctx.thread.post_author@ == ctx.actor.key@ {
        Some(ProjectCommentsError::ParentThreadMismatch)
    } else {
        Some(ProjectCommentsError::Unauthorized)
    }
}

/// Why `delete_comment` refuses its accounts, if it does.
pub open spec fn delete_comment_error(ctx: DeleteComment) -> Option<ProjectCommentsError> {
    first_error(
        signer_error(ctx.actor),
        first_error(
            paused_error(ctx.config, ctx.actor.key@),
            first_error(
                instructions_sysvar_error(ctx.instructions_sysvar),
                delete_authority_error(ctx),
            ),
        ),
    )
}

/// Marks a comment deleted and replaces its body with the tombstone; the
/// comment itself stays in its thread.
pub fn delete_comment(ctx: &mut DeleteComment, now: i64) -> (r: Result<
    CommentDeleted,
    ProjectCommentsError,
>)
    requires
        sysvar_data_readable(old(ctx).instructions_sysvar),
    ensures
        match r {
            Ok(event) => {
                &&& delete_comment_error(*old(ctx)) is None
                &&& final(ctx).comment.body@ == DELETE_TOMBSTONE@
                &&& *final(ctx) == (DeleteComment {
                    comment: Comment {
                        deleted: true,
                        body: final(ctx).comment.body,
                        updated_at: now,
                        ..old(ctx).comment
                    },
                    ..*old(ctx)
                })
                &&& event == (CommentDeleted {
                    thread: old(ctx).comment.thread,
                    comment: old(ctx).comment_key,
                    actor: old(ctx).actor.key,
                })
            },
            Err(e) => {
                &&& delete_comment_error(*old(ctx)) == Some(e)
                &&& *final(ctx) == *old(ctx)
            },
        },
{
    ensure_signer(&ctx.actor)?;
    ensure_not_paused_or_admin(&ctx.config, &ctx.actor.key)?;
    verify_instructions_sysvar(&ctx.instructions_sysvar)?;
    let is_author = ctx.comment.author == ctx.actor.key;
    let is_post_author = ctx.thread.post_author == ctx.actor.key;
    let is_admin = ctx.config.super_admin == ctx.actor.key;
    if !(is_author || is_admin) {
        if !is_post_author {
            return Err(ProjectCommentsError::Unauthorized);
        }
        ensure_comment_in_thread(&ctx.comment, &ctx.thread_key)?;
    }
    ctx.comment.deleted = true;
    ctx.comment.body = DELETE_TOMBSTONE.to_owned();
    ctx.comment.updated_at = now;
    Ok(
        CommentDeleted {
            thread: ctx.comment.thread,
            comment: ctx.comment_key,
            actor: ctx.actor.key,
        },
    )
}

// ===== set_thread_lock =====

/// Who may lock or unlock a thread: the post's author or the super admin.
pub open spec fn may_moderate(thread: Thread, config: Config, actor: Seq<u8>) -> bool {
    thread.post_author@ == actor || config.super_admin@ == actor
}

/// Why `set_thread_lock` refuses its accounts, if it does.
pub open spec fn set_thread_lock_error(ctx: SetThreadLock) -> Option<ProjectCommentsError> {
    first_error(
        signer_error(ctx.actor),
        first_error(
            paused_error(ctx.config, ctx.actor.key@),
            first_error(
                instructions_sysvar_error(ctx.instructions_sysvar),
                if may_moderate(ctx.thread, ctx.config, ctx.actor.key@) {
                    None
                } else {
                    Some(ProjectCommentsError::Unauthorized)
                },
            ),
        ),
    )
}

/// Lets the post's author or the super admin lock or unlock a thread.
pub fn set_thread_lock(ctx: &mut SetThreadLock, is_locked: bool, now: i64) -> (r: Result<
    ThreadLockChanged,
    ProjectCommentsError,
>)
    requires
        sysvar_data_readable(old(ctx).instructions_sysvar),
    ensures
        match r {
            Ok(event) => {
                &&& set_thread_lock_error(*old(ctx)) is None
                &&& *final(ctx) == (SetThreadLock {
                    thread: Thread { is_locked, updated_at: now, ..old(ctx).thread },
                    ..*old(ctx)
                })
                &&& event == (ThreadLockChanged {
                    thread: old(ctx).thread_key,
                    actor: old(ctx).actor.key,
                    is_locked,
                })
            },
            Err(e) => {
                &&& set_thread_lock_error(*old(ctx)) == Some(e)
                &&& *final(ctx) == *old(ctx)
            },
        },
{
    ensure_signer(&ctx.actor)?;
    ensure_not_paused_or_admin(&ctx.config, &ctx.actor.key)?;
    verify_instructions_sysvar(&ctx.instructions_sysvar)?;
    let is_post_author = ctx.thread.post_author == ctx.actor.key;
    let is_admin = ctx.config.super_admin == ctx.actor.key;
    if !(is_post_author || is_admin) {
        return Err(ProjectCommentsError::Unauthorized);
    }
    ctx.thread.is_locked = is_locked;
    ctx.thread.updated_at = now;
    Ok(ThreadLockChanged { thread: ctx.thread_key, actor: ctx.actor.key, is_locked })
}

// ===== add_reaction =====

/// A comment named together with a thread belongs to that thread.
pub open spec fn comment_in_thread_error(comment: Comment, thread_key: Seq<u8>) -> Option<
    ProjectCommentsError,
> {
    if comment.thread@ == thread_key {
        None
    } else {
        Some(ProjectCommentsError::ParentThreadMismatch)
    }
}

/// A reaction named together with a comment exists and was made on that
/// comment.
pub open spec fn reaction_on_comment_error(reaction: Option<Reaction>, comment_key: Seq<u8>) -> Option<
    ProjectCommentsError,
> {
    match reaction {
        Some(r) => if r.comment@ == comment_key {
            None
        } else {
            Some(ProjectCommentsError::ReactionNotFound)
        },
        None => Some(ProjectCommentsError::ReactionNotFound),
    }
}

/// Refuses a comment that does not belong to the thread it is named with.
pub fn ensure_comment_in_thread(comment: &Comment, thread_key: &Pubkey) -> (r: Result<
    (),
    ProjectCommentsError,
>)
    ensures
        r == outcome(comment_in_thread_error(*comment, thread_key@)),
{
    if comment.thread != *thread_key {
        return Err(ProjectCommentsError::ParentThreadMismatch);
    }
    Ok(())
}

/// Refuses a reaction that does not exist or was not made on the comment it
/// is named with.
pub fn ensure_reaction_on_comment(reaction: &Option<Reaction>, comment_key: &Pubkey) -> (r: Result<
    (),
    ProjectCommentsError,
>)
    ensures
        r == outcome(reaction_on_comment_error(*reaction, comment_key@)),
{
    match reaction {
        Some(existing) => {
            if existing.comment != *comment_key {
                return Err(ProjectCommentsError::ReactionNotFound);
            }
            Ok(())
        },
        None => Err(ProjectCommentsError::ReactionNotFound),
    }
}

/// A user reacts to a comment with a kind at most once while that reaction
/// lives: the reaction account must not exist yet.
pub open spec fn reaction_absent_error(reaction: Option<Reaction>) -> Option<ProjectCommentsError> {
    if reaction is Some {
        Some(ProjectCommentsError::AlreadyReacted)
    } else {
        None
    }
}

/// Why `add_reaction` refuses its accounts and arguments, if it does.
pub open spec fn add_reaction_error(ctx: AddReaction, reaction_kind: Seq<char>) -> Option<
    ProjectCommentsError,
> {
    first_error(
        comment_in_thread_error(ctx.comment, ctx.thread_key@),
        first_error(
            reaction_absent_error(ctx.reaction),
            add_reaction_request_error(ctx, reaction_kind),
        ),
    )
}

/// Why `add_reaction` refuses a new reaction on a comment of its thread, if
/// it does.
pub open spec fn add_reaction_request_error(ctx: AddReaction, reaction_kind: Seq<char>) -> Option<
    ProjectCommentsError,
> {
    first_error(
        signer_error(ctx.user),
        first_error(
            paused_error(ctx.config, ctx.user.key@),
            first_error(
                thread_writable_error(ctx.thread),
                first_error(
                    instructions_sysvar_error(ctx.instructions_sysvar),
                    first_error(
                        reaction_kind_error(reaction_kind),
                        first_error(
                            pinned_program_error(ctx.pinned_cpi_program, ctx.pinned_cpi_program.key@),
                            first_error(
                                canonical_pda_error(
                                    ctx.reaction_key@,
                                    reaction_seeds(ctx.comment_key@, ctx.user.key@, reaction_kind),
                                    ctx.reaction_bump,
                                ),
                                if ctx.comment.reactions_total == u64::MAX {
                                    Some(ProjectCommentsError::MathOverflow)
                                } else {
                                    None
                                },
                            ),
                        ),
                    ),
                ),
            ),
        ),
    )
}

/// The accounts as `add_reaction` leaves them: the reaction created, and
/// counted on the comment.
pub open spec fn reaction_added(ctx: AddReaction, reaction_kind: String, now: i64) -> AddReaction {
    AddReaction {
        comment: Comment {
            reactions_total: (ctx.comment.reactions_total + 1) as u64,
            updated_at: now,
            ..ctx.comment
        },
        reaction: Some(
            Reaction {
                comment: ctx.comment_key,
                user: ctx.user.key,
                reaction_kind,
                created_at: now,
                bump: ctx.reaction_bump,
            },
        ),
        ..ctx
    }
}

/// Creates one user's reaction of one kind to a comment and counts it on the
/// comment.
pub fn add_reaction(
    ctx: &mut AddReaction,
    reaction_kind: String,
    _expected_cpi_program: Pubkey,
    now: i64,
) -> (r: Result<ReactionAdded, ProjectCommentsError>)
    requires
        sysvar_data_readable(old(ctx).instructions_sysvar),
    ensures
        match r {
            Ok(event) => {
                &&& add_reaction_error(*old(ctx), reaction_kind@) is None
                &&& *final(ctx) == reaction_added(*old(ctx), reaction_kind, now)
                &&& event == (ReactionAdded {
                    thread: old(ctx).thread_key,
                    comment: old(ctx).comment_key,
                    reaction: old(ctx).reaction_key,
                    user: old(ctx).user.key,
                    reaction_kind,
                })
            },
            Err(e) => {
                &&& add_reaction_error(*old(ctx), reaction_kind@) == Some(e)
                &&& *final(ctx) == *old(ctx)
            },
        },
{
    ensure_comment_in_thread(&ctx.comment, &ctx.thread_key)?;
    if ctx.reaction.is_some() {
        return Err(ProjectCommentsError::AlreadyReacted);
    }
    ensure_signer(&ctx.user)?;
    ensure_not_paused_or_admin(&ctx.config, &ctx.user.key)?;
    ensure_thread_writable(&ctx.thread)?;
    verify_instructions_sysvar(&ctx.instructions_sysvar)?;
    validate_reaction_kind(reaction_kind.as_str())?;
    let pinned_program = ctx.pinned_cpi_program.key;
    verify_pinned_program_id(&ctx.pinned_cpi_program, &pinned_program)?;
    let comment_key = ctx.comment_key;
    let user = ctx.user.key;
    let seeds = make_reaction_seeds(&comment_key, &user, reaction_kind.as_str());
    assert_canonical_pda(&ctx.reaction_key, &seeds, ctx.reaction_bump)?;
    let reactions_total = match ctx.comment.reactions_total.checked_add(1) {
        Some(total) => total,
        None => return Err(ProjectCommentsError::MathOverflow),
    };
    ctx.reaction = Some(
        Reaction {
            comment: comment_key,
            user,
            reaction_kind: reaction_kind.clone(),
            created_at: now,
            bump: ctx.reaction_bump,
        },
    );
    ctx.comment.reactions_total = reactions_total;
    ctx.comment.updated_at = now;
    Ok(
        ReactionAdded {
            thread: ctx.thread_key,
            comment: comment_key,
            reaction: ctx.reaction_key,
            user,
            reaction_kind,
        },
    )
}

// ===== remove_reaction =====

/// The reaction's owner: the user who made it.
pub open spec fn reaction_user(reaction: Option<Reaction>) -> Seq<u8> {
    match reaction {
        Some(r) => r.user@,
        None => Seq::empty(),
    }
}

/// The kind of a reaction.
pub open spec fn reaction_kind_of(reaction: Option<Reaction>) -> String {
    match reaction {
        Some(r) => r.reaction_kind,
        None => arbitrary(),
    }
}

/// Why `remove_reaction` refuses its accounts, if it does.
pub open spec fn remove_reaction_error(ctx: RemoveReaction) -> Option<ProjectCommentsError> {
    first_error(
        comment_in_thread_error(ctx.comment, ctx.thread_key@),
        first_error(
            reaction_on_comment_error(ctx.reaction, ctx.comment_key@),
            first_error(
                close_destination_error(ctx.reaction_key@, ctx.user.key@),
                remove_reaction_request_error(ctx),
            ),
        ),
    )
}

/// Why `remove_reaction` refuses a live reaction on a comment of its thread,
/// if it does.
pub open spec fn remove_reaction_request_error(ctx: RemoveReaction) -> Option<ProjectCommentsError> {
    first_error(
        signer_error(ctx.user),
        first_error(
            paused_error(ctx.config, ctx.user.key@),
            first_error(
                instructions_sysvar_error(ctx.instructions_sysvar),
                if reaction_user(ctx.reaction) != ctx.user.key@ {
                    Some(ProjectCommentsError::Unauthorized)
                } else if ctx.comment.reactions_total == 0 {
                    Some(ProjectCommentsError::MathUnderflow)
                } else {
                    lamport_transfer_error(ctx.user.lamports, ctx.reaction_lamports)
                },
            ),
        ),
    )
}

/// The accounts as `remove_reaction` leaves them: the reaction closed, its
/// lamports credited to the user, and one reaction less on the comment.
pub open spec fn reaction_removed(ctx: RemoveReaction, now: i64) -> RemoveReaction {
    RemoveReaction {
        comment: Comment {
            reactions_total: (ctx.comment.reactions_total - 1) as u64,
            updated_at: now,
            ..ctx.comment
        },
        reaction: None,
        reaction_lamports: 0,
        user: RawAccount {
            lamports: (ctx.user.lamports + ctx.reaction_lamports) as u64,
            ..ctx.user
        },
        ..ctx
    }
}

/// Lets a user take back their own reaction: the reaction account is closed,
/// its lamports go to the user, and the comment counts one reaction less.
pub fn remove_reaction(ctx: &mut RemoveReaction, now: i64) -> (r: Result<
    ReactionRemoved,
    ProjectCommentsError,
>)
    requires
        sysvar_data_readable(old(ctx).instructions_sysvar),
    ensures
        match r {
            Ok(event) => {
                &&& remove_reaction_error(*old(ctx)) is None
                &&& *final(ctx) == reaction_removed(*old(ctx), now)
                &&& event == (ReactionRemoved {
                    thread: old(ctx).thread_key,
                    comment: old(ctx).comment_key,
                    reaction: old(ctx).reaction_key,
                    actor: old(ctx).user.key,
                    reaction_kind: reaction_kind_of(old(ctx).reaction),
                })
            },
            Err(e) => {
                &&& remove_reaction_error(*old(ctx)) == Some(e)
                &&& *final(ctx) == *old(ctx)
            },
        },
{
    ensure_comment_in_thread(&ctx.comment, &ctx.thread_key)?;
    ensure_reaction_on_comment(&ctx.reaction, &ctx.comment_key)?;
    ensure_close_destination(&ctx.reaction_key, &ctx.user.key)?;
    ensure_signer(&ctx.user)?;
    ensure_not_paused_or_admin(&ctx.config, &ctx.user.key)?;
    verify_instructions_sysvar(&ctx.instructions_sysvar)?;
    let (owner, reaction_kind) = match &ctx.reaction {
        Some(existing) => (existing.user, existing.reaction_kind.clone()),
        None => return Err(ProjectCommentsError::ReactionNotFound),
    };
    if owner != ctx.user.key {
        return Err(ProjectCommentsError::Unauthorized);
    }
    let reactions_total = match ctx.comment.reactions_total.checked_sub(1) {
        Some(total) => total,
        None => return Err(ProjectCommentsError::MathUnderflow),
    };
    let user_lamports = match ctx.user.lamports.checked_add(ctx.reaction_lamports) {
        Some(total) => total,
        None => return Err(ProjectCommentsError::MathOverflow),
    };
    ctx.comment.reactions_total = reactions_total;
    ctx.comment.updated_at = now;
    ctx.reaction = None;
    ctx.reaction_lamports = 0;
    ctx.user.lamports = user_lamports;
    Ok(
        ReactionRemoved {
            thread: ctx.thread_key,
            comment: ctx.comment_key,
            reaction: ctx.reaction_key,
            actor: ctx.user.key,
            reaction_kind,
        },
    )
}

// ===== admin_remove_reaction =====

/// Why `admin_remove_reaction` refuses its accounts, if it does.
pub open spec fn admin_remove_reaction_error(ctx: AdminRemoveReaction) -> Option<ProjectCommentsError> {
    first_error(
        comment_in_thread_error(ctx.comment, ctx.thread_key@),
        first_error(
            reaction_on_comment_error(ctx.reaction, ctx.comment_key@),
            first_error(
                close_destination_error(ctx.reaction_key@, ctx.recipient.key@),
                admin_remove_reaction_request_error(ctx),
            ),
        ),
    )
}

/// Why `admin_remove_reaction` refuses a live reaction on a comment of its
/// thread, if it does.
pub open spec fn admin_remove_reaction_request_error(ctx: AdminRemoveReaction) -> Option<
    ProjectCommentsError,
> {
    first_error(
        signer_error(ctx.actor),
        first_error(
            paused_error(ctx.config, ctx.actor.key@),
            first_error(
                instructions_sysvar_error(ctx.instructions_sysvar),
                if !may_moderate(ctx.thread, ctx.config, ctx.actor.key@) {
                    Some(ProjectCommentsError::Unauthorized)
                } else if ctx.comment.reactions_total == 0 {
                    Some(ProjectCommentsError::MathUnderflow)
                } else {
                    lamport_transfer_error(ctx.recipient.lamports, ctx.reaction_lamports)
                },
            ),
        ),
    )
}

/// The accounts as `admin_remove_reaction` leaves them: the reaction closed,
/// its lamports credited to the recipient, and one reaction less on the
/// comment.
pub open spec fn reaction_removed_by_moderator(ctx: AdminRemoveReaction, now: i64) -> AdminRemoveReaction {
    AdminRemoveReaction {
        comment: Comment {
            reactions_total: (ctx.comment.reactions_total - 1) as u64,
            updated_at: now,
            ..ctx.comment
        },
        reaction: None,
        reaction_lamports: 0,
        recipient: RawAccount {
            lamports: (ctx.recipient.lamports + ctx.reaction_lamports) as u64,
            ..ctx.recipient
        },
        ..ctx
    }
}

/// Lets the post's author or the super admin remove any reaction: the
/// reaction account is closed, its lamports go to the recipient, and the
/// comment counts one reaction less.
pub fn admin_remove_reaction(ctx: &mut AdminRemoveReaction, now: i64) -> (r: Result<
    ReactionRemoved,
    ProjectCommentsError,
>)
    requires
        sysvar_data_readable(old(ctx).instructions_sysvar),
    ensures
        match r {
            Ok(event) => {
                &&& admin_remove_reaction_error(*old(ctx)) is None
                &&& *final(ctx) == reaction_removed_by_moderator(*old(ctx), now)
                &&& event == (ReactionRemoved {
                    thread: old(ctx).thread_key,
                    comment: old(ctx).comment_key,
                    reaction: old(ctx).reaction_key,
                    actor: old(ctx).actor.key,
                    reaction_kind: reaction_kind_of(old(ctx).reaction),
                })
            },
            Err(e) => {
                &&& admin_remove_reaction_error(*old(ctx)) == Some(e)
                &&& *final(ctx) == *old(ctx)
            },
        },
{
    ensure_comment_in_thread(&ctx.comment, &ctx.thread_key)?;
    ensure_reaction_on_comment(&ctx.reaction, &ctx.comment_key)?;
    ensure_close_destination(&ctx.reaction_key, &ctx.recipient.key)?;
    ensure_signer(&ctx.actor)?;
    ensure_not_paused_or_admin(&ctx.config, &ctx.actor.key)?;
    verify_instructions_sysvar(&ctx.instructions_sysvar)?;
    let reaction_kind = match &ctx.reaction {
        Some(existing) => existing.reaction_kind.clone(),
        None => return Err(ProjectCommentsError::ReactionNotFound),
    };
    let actor = ctx.actor.key;
    let is_admin = actor == ctx.config.super_admin;
    let is_post_author = actor == ctx.thread.post_author;
    if !(is_admin || is_post_author) {
        return Err(ProjectCommentsError::Unauthorized);
    }
    let reactions_total = match ctx.comment.reactions_total.checked_sub(1) {
        Some(total) => total,
        None => return Err(ProjectCommentsError::MathUnderflow),
    };
    let recipient_lamports = match ctx.recipient.lamports.checked_add(ctx.reaction_lamports) {
        Some(total) => total,
        None => return Err(ProjectCommentsError::MathOverflow),
    };
    ctx.comment.reactions_total = reactions_total;
    ctx.comment.updated_at = now;
    ctx.reaction = None;
    ctx.reaction_lamports = 0;
    ctx.recipient.lamports = recipient_lamports;
    Ok(
        ReactionRemoved {
            thread: ctx.thread_key,
            comment: ctx.comment_key,
            reaction: ctx.reaction_key,
            actor,
            reaction_kind,
        },
    )
}

} // verus!

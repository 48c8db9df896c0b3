use anchor_lang::prelude::Pubkey as AnchorPubkey;
use project_comments::accounts::{
    AddReaction, AdminRemoveReaction, CreateComment, CreateThreadForPost, DeleteComment,
    EditComment, InitializeConfig, RawAccount, RemoveReaction, ReplyComment, SetThreadLock,
    UpdateConfig,
};
use project_comments::error::ProjectCommentsError;
use project_comments::events::{CommentCreated, ConfigInitialized, ThreadCreated};
use project_comments::instructions::{
    add_reaction, admin_remove_reaction, create_comment, create_thread_for_post, delete_comment,
    edit_comment, initialize_config, remove_reaction, reply_comment, set_thread_lock,
    update_config,
};
use project_comments::key::{program_id, Pubkey};
use project_comments::sysvar::verify_instructions_sysvar;
use project_comments::state::{Comment, Config, Reaction, Thread};

const SOURCE: u8 = 11;
const ADMIN: u8 = 12;
const POST_AUTHOR: u8 = 13;
const USER: u8 = 14;
const POST_ACCOUNT: u8 = 15;
const NOW: i64 = 1_700_000_000;

fn key(n: u8) -> Pubkey {
    Pubkey::new_from_array([n; 32])
}

fn anchor_key(k: &Pubkey) -> AnchorPubkey {
    AnchorPubkey::new_from_array(k.to_bytes())
}

fn pda(seeds: &[&[u8]]) -> (Pubkey, u8) {
    let (address, bump) =
        AnchorPubkey::find_program_address(seeds, &anchor_key(&program_id()));
    (Pubkey::new_from_array(address.to_bytes()), bump)
}

fn instructions_sysvar_key() -> Pubkey {
    Pubkey::new_from_array(anchor_lang::compat::solana_instructions_sysvar::ID.to_bytes())
}

/// Instructions sysvar data holding one instruction with no accounts and no
/// data, followed by the current index 0.
fn sysvar_data() -> Vec<u8> {
    let mut data = vec![1, 0, 4, 0, 0, 0];
    data.extend_from_slice(&program_id().to_bytes());
    data.extend_from_slice(&[0, 0, 0, 0]);
    data
}

fn sysvar() -> RawAccount {
    RawAccount {
        key: instructions_sysvar_key(),
        owner: key(0),
        lamports: 1,
        is_signer: false,
        executable: false,
        data: sysvar_data(),
    }
}

fn signer(n: u8) -> RawAccount {
    RawAccount {
        key: key(n),
        owner: key(0),
        lamports: 1_000,
        is_signer: true,
        executable: false,
        data: Vec::new(),
    }
}

fn wallet(n: u8, lamports: u64) -> RawAccount {
    RawAccount { key: key(n), owner: key(0), lamports, is_signer: false, executable: false, data: Vec::new() }
}

fn config(paused: bool) -> Config {
    Config {
        super_admin: key(ADMIN),
        paused,
        eligibility_mode: 0,
        max_comment_len: 280,
        max_reactions_per_user: 10,
        created_at: 1,
        updated_at: 1,
        bump: 250,
    }
}

fn thread_key() -> (Pubkey, u8) {
    pda(&[b"thread", &[SOURCE; 32], &[POST_ACCOUNT; 32]])
}

fn thread(comments_count: u64, is_locked: bool) -> Thread {
    Thread {
        source_program_id: key(SOURCE),
        post_account: key(POST_ACCOUNT),
        post_author: key(POST_AUTHOR),
        post_id: 77,
        comments_count,
        is_locked,
        created_at: 5,
        updated_at: 5,
        bump: thread_key().1,
    }
}

fn comment_key(id: u64) -> (Pubkey, u8) {
    let t = thread_key().0;
    pda(&[b"comment", &t.to_bytes(), &id.to_le_bytes()])
}

fn user_meta(registered: bool, eligible: bool) -> RawAccount {
    let mut data = vec![0u8; 8];
    data.extend_from_slice(&[SOURCE; 32]);
    data.extend_from_slice(&[USER; 32]);
    data.push(registered as u8);
    data.push(eligible as u8);
    RawAccount { key: key(30), owner: key(SOURCE), lamports: 1, is_signer: false, executable: false, data }
}

fn post_meta() -> RawAccount {
    let mut data = Vec::new();
    data.extend_from_slice(&[SOURCE; 32]);
    data.extend_from_slice(&[POST_ACCOUNT; 32]);
    data.extend_from_slice(&[POST_AUTHOR; 32]);
    data.extend_from_slice(&77u64.to_le_bytes());
    data.push(1);
    data.push(0);
    RawAccount { key: key(31), owner: key(SOURCE), lamports: 1, is_signer: false, executable: false, data }
}

fn create_ctx(comments_count: u64, is_locked: bool, paused: bool) -> CreateComment {
    let (ck, cb) = comment_key(comments_count);
    CreateComment {
        config: config(paused),
        thread: thread(comments_count, is_locked),
        thread_key: thread_key().0,
        comment: None,
        comment_key: ck,
        comment_bump: cb,
        user_meta: user_meta(true, true),
        author: signer(USER),
        instructions_sysvar: sysvar(),
    }
}

fn existing_comment(id: u64, author: u8) -> Comment {
    Comment {
        thread: thread_key().0,
        comment_id: id,
        author: key(author),
        parent_comment: None,
        root_comment: comment_key(id).0,
        body: "hello".to_string(),
        depth: 0,
        replies_count: 0,
        reactions_total: 0,
        edited_at: None,
        deleted: false,
        created_at: 9,
        updated_at: 9,
        bump: comment_key(id).1,
    }
}

#[test]
fn sysvar_check_accepts_real_layout() {
    assert_eq!(verify_instructions_sysvar(&sysvar()), Ok(()));
    let mut wrong_key = sysvar();
    wrong_key.key = key(3);
    assert_eq!(
        verify_instructions_sysvar(&wrong_key),
        Err(ProjectCommentsError::InvalidSysvarAccount)
    );
    let mut out_of_range = sysvar();
    let n = out_of_range.data.len();
    out_of_range.data[n - 2] = 1;
    assert_eq!(
        verify_instructions_sysvar(&out_of_range),
        Err(ProjectCommentsError::InvalidInstructionIntrospection)
    );
}

#[test]
fn initialize_config_writes_settings() {
    let mut ctx = InitializeConfig { config: None, config_bump: 201 };
    let event = initialize_config(&mut ctx, key(ADMIN), 1, 500, 3, NOW).unwrap();
    let written = Config {
        super_admin: key(ADMIN),
        paused: false,
        eligibility_mode: 1,
        max_comment_len: 500,
        max_reactions_per_user: 3,
        created_at: NOW,
        updated_at: NOW,
        bump: 201,
    };
    assert_eq!(ctx.config, Some(written.clone()));
    assert_eq!(
        event,
        ConfigInitialized {
            super_admin: key(ADMIN),
            paused: false,
            eligibility_mode: 1,
            max_comment_len: 500,
            max_reactions_per_user: 3,
        }
    );
    // The configuration is created once.
    assert_eq!(
        initialize_config(&mut ctx, key(USER), 0, 100, 1, NOW + 1),
        Err(ProjectCommentsError::AccountAlreadyInUse)
    );
    assert_eq!(ctx.config, Some(written));
    let mut bad = InitializeConfig { config: None, config_bump: 1 };
    assert_eq!(
        initialize_config(&mut bad, key(ADMIN), 3, 500, 3, NOW),
        Err(ProjectCommentsError::InvalidEligibilityMode)
    );
    assert_eq!(
        initialize_config(&mut bad, key(ADMIN), 0, 2001, 3, NOW),
        Err(ProjectCommentsError::InvalidMaxCommentLen)
    );
    assert_eq!(bad.config, None);
}

#[test]
fn update_config_only_by_super_admin() {
    let mut ctx = UpdateConfig { config: config(false), admin: signer(USER) };
    assert_eq!(
        update_config(&mut ctx, true, 2, 100, 1, NOW),
        Err(ProjectCommentsError::Unauthorized)
    );
    assert_eq!(ctx.config, config(false));
    ctx.admin = signer(ADMIN);
    let event = update_config(&mut ctx, true, 2, 100, 1, NOW).unwrap();
    assert!(ctx.config.paused);
    assert_eq!(ctx.config.eligibility_mode, 2);
    assert_eq!(ctx.config.max_comment_len, 100);
    assert_eq!(ctx.config.updated_at, NOW);
    assert_eq!(ctx.config.created_at, 1);
    assert_eq!(event.super_admin, key(ADMIN));
    // Validation of the arguments comes before the authority check.
    ctx.admin = signer(USER);
    assert_eq!(
        update_config(&mut ctx, true, 5, 100, 1, NOW),
        Err(ProjectCommentsError::InvalidEligibilityMode)
    );
}

#[test]
fn create_thread_for_post_opens_the_thread() {
    let (tk, tb) = thread_key();
    let mut ctx = CreateThreadForPost {
        config: config(false),
        thread: None,
        thread_key: tk,
        thread_bump: tb,
        post_meta: post_meta(),
        post_account: RawAccount {
            key: key(POST_ACCOUNT),
            owner: key(0),
            lamports: 1,
            is_signer: false,
            executable: false,
            data: Vec::new(),
        },
        authority: signer(USER),
        instructions_sysvar: sysvar(),
    };
    let event = create_thread_for_post(&mut ctx, key(SOURCE), 77, NOW).unwrap();
    let opened = Thread {
        source_program_id: key(SOURCE),
        post_account: key(POST_ACCOUNT),
        post_author: key(POST_AUTHOR),
        post_id: 77,
        comments_count: 0,
        is_locked: false,
        created_at: NOW,
        updated_at: NOW,
        bump: tb,
    };
    assert_eq!(ctx.thread, Some(opened.clone()));
    assert_eq!(
        event,
        ThreadCreated {
            thread: tk,
            source_program_id: key(SOURCE),
            post_account: key(POST_ACCOUNT),
            post_author: key(POST_AUTHOR),
            post_id: 77,
        }
    );
    // A post has one thread: opening it again is refused and changes nothing.
    ctx.authority = signer(POST_AUTHOR);
    assert_eq!(
        create_thread_for_post(&mut ctx, key(SOURCE), 77, NOW + 5),
        Err(ProjectCommentsError::AccountAlreadyInUse)
    );
    assert_eq!(ctx.thread, Some(opened));
    ctx.thread = None;
    assert_eq!(
        create_thread_for_post(&mut ctx, key(SOURCE), 78, NOW),
        Err(ProjectCommentsError::InvalidSourceMetadata)
    );
    assert_eq!(
        create_thread_for_post(&mut ctx, key(40), 77, NOW),
        Err(ProjectCommentsError::InvalidAccountOwner)
    );
    ctx.thread_bump = tb.wrapping_sub(1);
    assert_eq!(
        create_thread_for_post(&mut ctx, key(SOURCE), 77, NOW),
        Err(ProjectCommentsError::InvalidPda)
    );
}

#[test]
fn create_comment_takes_next_id() {
    let mut ctx = create_ctx(3, false, false);
    let (ck, cb) = comment_key(3);
    let event = create_comment(&mut ctx, key(SOURCE), "first!".to_string(), NOW).unwrap();
    assert_eq!(ctx.thread.comments_count, 4);
    assert_eq!(ctx.thread.updated_at, NOW);
    assert_eq!(
        ctx.comment,
        Some(Comment {
            thread: thread_key().0,
            comment_id: 3,
            author: key(USER),
            parent_comment: None,
            root_comment: ck,
            body: "first!".to_string(),
            depth: 0,
            replies_count: 0,
            reactions_total: 0,
            edited_at: None,
            deleted: false,
            created_at: NOW,
            updated_at: NOW,
            bump: cb,
        })
    );
    assert_eq!(
        event,
        CommentCreated {
            thread: thread_key().0,
            comment: ck,
            comment_id: 3,
            author: key(USER),
            parent_comment: None,
            root_comment: ck,
            depth: 0,
        }
    );
}

#[test]
fn create_comment_refusals() {
    let mut locked = create_ctx(0, true, false);
    assert_eq!(
        create_comment(&mut locked, key(SOURCE), "x".to_string(), NOW),
        Err(ProjectCommentsError::ThreadLocked)
    );
    assert_eq!(locked.thread.comments_count, 0);

    let mut paused = create_ctx(0, false, true);
    assert_eq!(
        create_comment(&mut paused, key(SOURCE), "x".to_string(), NOW),
        Err(ProjectCommentsError::ProgramPaused)
    );

    let mut unsigned = create_ctx(0, false, false);
    unsigned.author.is_signer = false;
    assert_eq!(
        create_comment(&mut unsigned, key(SOURCE), "x".to_string(), NOW),
        Err(ProjectCommentsError::MissingRequiredSigner)
    );

    let mut empty = create_ctx(0, false, false);
    assert_eq!(
        create_comment(&mut empty, key(SOURCE), String::new(), NOW),
        Err(ProjectCommentsError::BodyEmpty)
    );

    let mut ineligible = create_ctx(0, false, false);
    ineligible.user_meta = user_meta(true, false);
    assert_eq!(
        create_comment(&mut ineligible, key(SOURCE), "x".to_string(), NOW),
        Err(ProjectCommentsError::NotEligibleToComment)
    );
    ineligible.config.eligibility_mode = 1;
    assert!(create_comment(&mut ineligible, key(SOURCE), "x".to_string(), NOW).is_ok());

    let mut wrong_slot = create_ctx(0, false, false);
    wrong_slot.comment_key = comment_key(1).0;
    assert_eq!(
        create_comment(&mut wrong_slot, key(SOURCE), "x".to_string(), NOW),
        Err(ProjectCommentsError::InvalidPda)
    );

    let mut full = create_ctx(u64::MAX, false, false);
    assert_eq!(
        create_comment(&mut full, key(SOURCE), "x".to_string(), NOW),
        Err(ProjectCommentsError::MathOverflow)
    );
}

#[test]
fn paused_program_still_admits_the_super_admin() {
    let mut ctx = create_ctx(0, false, true);
    ctx.author = signer(ADMIN);
    // The metadata names USER, so the admin passes the pause and stops at the
    // metadata check.
    assert_eq!(
        create_comment(&mut ctx, key(SOURCE), "x".to_string(), NOW),
        Err(ProjectCommentsError::InvalidSourceMetadata)
    );
}

#[test]
fn reply_goes_one_level_deeper() {
    let mut parent = existing_comment(0, POST_AUTHOR);
    parent.depth = 2;
    parent.root_comment = key(77);
    let (ck, cb) = comment_key(5);
    let mut ctx = ReplyComment {
        config: config(false),
        thread: thread(5, false),
        thread_key: thread_key().0,
        parent_comment: parent,
        parent_comment_key: comment_key(0).0,
        comment: None,
        comment_key: ck,
        comment_bump: cb,
        user_meta: user_meta(true, true),
        author: signer(USER),
        instructions_sysvar: sysvar(),
    };
    let event = reply_comment(&mut ctx, key(SOURCE), "reply".to_string(), NOW).unwrap();
    assert_eq!(ctx.thread.comments_count, 6);
    assert_eq!(ctx.parent_comment.replies_count, 1);
    assert_eq!(ctx.parent_comment.updated_at, NOW);
    let written = ctx.comment.clone().unwrap();
    assert_eq!(written.depth, 3);
    assert_eq!(written.comment_id, 5);
    assert_eq!(written.root_comment, key(77));
    assert_eq!(written.parent_comment, Some(comment_key(0).0));
    // The reply's account now exists and is not written twice.
    assert_eq!(
        reply_comment(&mut ctx, key(SOURCE), "again".to_string(), NOW),
        Err(ProjectCommentsError::AccountAlreadyInUse)
    );
    assert_eq!(ctx.comment, Some(written));
    assert_eq!(event.depth, 3);
    assert_eq!(event.root_comment, key(77));

    let mut other = ReplyComment {
        parent_comment: Comment { thread: key(99), ..existing_comment(0, POST_AUTHOR) },
        comment: None,
        thread: thread(6, false),
        comment_key: comment_key(6).0,
        comment_bump: comment_key(6).1,
        ..ctx
    };
    assert_eq!(
        reply_comment(&mut other, key(SOURCE), "reply".to_string(), NOW),
        Err(ProjectCommentsError::ParentThreadMismatch)
    );
    other.parent_comment = existing_comment(0, POST_AUTHOR);
    other.parent_comment.depth = u32::MAX;
    assert_eq!(
        reply_comment(&mut other, key(SOURCE), "reply".to_string(), NOW),
        Err(ProjectCommentsError::MathOverflow)
    );
}

#[test]
fn edit_and_delete() {
    let mut edit = EditComment {
        config: config(false),
        comment: existing_comment(2, USER),
        comment_key: comment_key(2).0,
        author: signer(POST_AUTHOR),
        instructions_sysvar: sysvar(),
    };
    assert_eq!(
        edit_comment(&mut edit, "changed".to_string(), NOW),
        Err(ProjectCommentsError::Unauthorized)
    );
    edit.author = signer(USER);
    let event = edit_comment(&mut edit, "changed".to_string(), NOW).unwrap();
    assert_eq!(edit.comment.body, "changed");
    assert_eq!(edit.comment.edited_at, Some(NOW));
    assert_eq!(event.editor, key(USER));

    let mut delete = DeleteComment {
        config: config(false),
        thread: thread(3, false),
        thread_key: thread_key().0,
        comment: existing_comment(2, USER),
        comment_key: comment_key(2).0,
        actor: signer(40),
        instructions_sysvar: sysvar(),
    };
    assert_eq!(delete_comment(&mut delete, NOW), Err(ProjectCommentsError::Unauthorized));
    // The author of another thread's post may not delete this comment.
    delete.actor = signer(POST_AUTHOR);
    delete.thread_key = key(95);
    assert_eq!(delete_comment(&mut delete, NOW), Err(ProjectCommentsError::ParentThreadMismatch));
    assert!(!delete.comment.deleted);
    // The comment's author and the super admin may delete it whatever thread is named.
    for actor in [USER, ADMIN] {
        let mut elsewhere = DeleteComment {
            config: config(false),
            thread: thread(3, false),
            thread_key: key(95),
            comment: existing_comment(2, USER),
            comment_key: comment_key(2).0,
            actor: signer(actor),
            instructions_sysvar: sysvar(),
        };
        let event = delete_comment(&mut elsewhere, NOW).unwrap();
        assert!(elsewhere.comment.deleted);
        assert_eq!(event.actor, key(actor));
    }
    delete.thread_key = thread_key().0;
    let event = delete_comment(&mut delete, NOW).unwrap();
    assert!(delete.comment.deleted);
    assert_eq!(delete.comment.body, "[deleted]");
    assert_eq!(event.actor, key(POST_AUTHOR));

    // A deleted comment cannot be edited again.
    let mut again = EditComment { comment: delete.comment.clone(), ..edit };
    assert_eq!(
        edit_comment(&mut again, "back".to_string(), NOW),
        Err(ProjectCommentsError::CommentDeleted)
    );
}

#[test]
fn lock_and_unlock() {
    let mut ctx = SetThreadLock {
        config: config(false),
        thread: thread(0, false),
        thread_key: thread_key().0,
        actor: signer(USER),
        instructions_sysvar: sysvar(),
    };
    assert_eq!(set_thread_lock(&mut ctx, true, NOW), Err(ProjectCommentsError::Unauthorized));
    ctx.actor = signer(ADMIN);
    let event = set_thread_lock(&mut ctx, true, NOW).unwrap();
    assert!(ctx.thread.is_locked);
    assert!(event.is_locked);
    ctx.actor = signer(POST_AUTHOR);
    set_thread_lock(&mut ctx, false, NOW + 1).unwrap();
    assert!(!ctx.thread.is_locked);
    assert_eq!(ctx.thread.updated_at, NOW + 1);
}

#[test]
fn add_then_remove_reaction_restores_total() {
    let ck = comment_key(1).0;
    let (rk, rb) = pda(&[b"reaction", &ck.to_bytes(), &[USER; 32], b"like"]);
    let mut comment = existing_comment(1, POST_AUTHOR);
    comment.reactions_total = 4;
    let mut add = AddReaction {
        config: config(false),
        thread: thread(2, false),
        thread_key: thread_key().0,
        comment,
        comment_key: ck,
        reaction: None,
        reaction_key: rk,
        reaction_bump: rb,
        user: signer(USER),
        pinned_cpi_program: RawAccount {
            key: key(50),
            owner: key(0),
            lamports: 1,
            is_signer: false,
            executable: true,
            data: Vec::new(),
        },
        instructions_sysvar: sysvar(),
    };
    let event = add_reaction(&mut add, "like".to_string(), key(50), NOW).unwrap();
    assert_eq!(add.comment.reactions_total, 5);
    let live = Reaction {
        comment: ck,
        user: key(USER),
        reaction_kind: "like".to_string(),
        created_at: NOW,
        bump: rb,
    };
    assert_eq!(add.reaction, Some(live.clone()));
    assert_eq!(event.reaction_kind, "like");
    // The same user reacts with the same kind only once while it lives.
    assert_eq!(
        add_reaction(&mut add, "like".to_string(), key(50), NOW + 1),
        Err(ProjectCommentsError::AlreadyReacted)
    );
    assert_eq!(add.comment.reactions_total, 5);
    assert_eq!(add.reaction, Some(live));

    let mut remove = RemoveReaction {
        config: config(false),
        thread_key: thread_key().0,
        comment: add.comment.clone(),
        comment_key: ck,
        reaction: add.reaction.clone(),
        reaction_key: rk,
        reaction_lamports: 2_000,
        user: signer(POST_AUTHOR),
        instructions_sysvar: sysvar(),
    };
    assert_eq!(remove_reaction(&mut remove, NOW), Err(ProjectCommentsError::Unauthorized));
    remove.user = signer(USER);
    let event = remove_reaction(&mut remove, NOW).unwrap();
    assert_eq!(remove.comment.reactions_total, 4);
    assert_eq!(event.actor, key(USER));
    assert_eq!(event.reaction_kind, "like");
    // The reaction account is closed and its lamports go to the user.
    assert_eq!(remove.reaction, None);
    assert_eq!(remove.reaction_lamports, 0);
    assert_eq!(remove.user.lamports, 3_000);
    // A removed reaction cannot be removed again, and can be added again.
    assert_eq!(remove_reaction(&mut remove, NOW), Err(ProjectCommentsError::ReactionNotFound));
    let mut again = AddReaction { comment: remove.comment.clone(), reaction: None, ..add };
    add_reaction(&mut again, "like".to_string(), key(50), NOW + 2).unwrap();
    assert_eq!(again.comment.reactions_total, 5);
}

#[test]
fn add_reaction_refusals() {
    let ck = comment_key(1).0;
    let (rk, rb) = pda(&[b"reaction", &ck.to_bytes(), &[USER; 32], b"like"]);
    let mut add = AddReaction {
        config: config(false),
        thread: thread(2, false),
        thread_key: key(97),
        comment: existing_comment(1, POST_AUTHOR),
        comment_key: ck,
        reaction: None,
        reaction_key: rk,
        reaction_bump: rb,
        user: signer(USER),
        pinned_cpi_program: RawAccount {
            key: key(50),
            owner: key(0),
            lamports: 1,
            is_signer: false,
            executable: false,
            data: Vec::new(),
        },
        instructions_sysvar: sysvar(),
    };
    assert_eq!(
        add_reaction(&mut add, "like".to_string(), key(50), NOW),
        Err(ProjectCommentsError::ParentThreadMismatch)
    );
    add.thread_key = thread_key().0;
    assert_eq!(
        add_reaction(&mut add, "like".to_string(), key(50), NOW),
        Err(ProjectCommentsError::InvalidCpiProgram)
    );
    add.pinned_cpi_program.executable = true;
    assert_eq!(
        add_reaction(&mut add, "x".repeat(33), key(50), NOW),
        Err(ProjectCommentsError::InvalidReactionKind)
    );
    assert_eq!(
        add_reaction(&mut add, "love".to_string(), key(50), NOW),
        Err(ProjectCommentsError::InvalidPda)
    );
    add.comment.reactions_total = u64::MAX;
    assert_eq!(
        add_reaction(&mut add, "like".to_string(), key(50), NOW),
        Err(ProjectCommentsError::MathOverflow)
    );
    assert_eq!(add.comment.reactions_total, u64::MAX);
}

#[test]
fn moderators_remove_reactions_unless_paused() {
    let ck = comment_key(1).0;
    let mut comment = existing_comment(1, POST_AUTHOR);
    comment.reactions_total = 1;
    let reaction = Reaction {
        comment: ck,
        user: key(USER),
        reaction_kind: "like".to_string(),
        created_at: 3,
        bump: 1,
    };
    let mut ctx = AdminRemoveReaction {
        config: config(true),
        thread: thread(2, false),
        thread_key: thread_key().0,
        comment,
        comment_key: ck,
        reaction: Some(reaction.clone()),
        reaction_key: key(60),
        reaction_lamports: 500,
        actor: signer(USER),
        recipient: wallet(70, 10),
        instructions_sysvar: sysvar(),
    };
    assert_eq!(admin_remove_reaction(&mut ctx, NOW), Err(ProjectCommentsError::ProgramPaused));
    ctx.actor = signer(POST_AUTHOR);
    assert_eq!(admin_remove_reaction(&mut ctx, NOW), Err(ProjectCommentsError::ProgramPaused));
    assert_eq!(ctx.comment.reactions_total, 1);
    ctx.config.paused = false;
    ctx.actor = signer(USER);
    assert_eq!(admin_remove_reaction(&mut ctx, NOW), Err(ProjectCommentsError::Unauthorized));
    ctx.actor = signer(POST_AUTHOR);
    let event = admin_remove_reaction(&mut ctx, NOW).unwrap();
    assert_eq!(ctx.comment.reactions_total, 0);
    assert_eq!(event.actor, key(POST_AUTHOR));
    // The reaction account is closed into the recipient.
    assert_eq!(ctx.reaction, None);
    assert_eq!(ctx.reaction_lamports, 0);
    assert_eq!(ctx.recipient.lamports, 510);
    assert_eq!(admin_remove_reaction(&mut ctx, NOW), Err(ProjectCommentsError::ReactionNotFound));
    // A comment that counts no reaction cannot lose one.
    ctx.reaction = Some(reaction);
    ctx.reaction_lamports = 500;
    assert_eq!(admin_remove_reaction(&mut ctx, NOW), Err(ProjectCommentsError::MathUnderflow));
}

#[test]
fn reactions_must_match_their_comment_and_thread() {
    let ck = comment_key(1).0;
    let mut stray = existing_comment(1, POST_AUTHOR);
    stray.thread = key(99);
    stray.reactions_total = 2;
    let reaction = Reaction {
        comment: ck,
        user: key(USER),
        reaction_kind: "like".to_string(),
        created_at: 3,
        bump: 1,
    };
    let mut remove = RemoveReaction {
        config: config(false),
        thread_key: thread_key().0,
        comment: stray,
        comment_key: ck,
        reaction: Some(reaction),
        reaction_key: key(60),
        reaction_lamports: 500,
        user: signer(USER),
        instructions_sysvar: sysvar(),
    };
    assert_eq!(remove_reaction(&mut remove, NOW), Err(ProjectCommentsError::ParentThreadMismatch));
    remove.comment.thread = thread_key().0;
    remove.reaction.as_mut().unwrap().comment = key(98);
    assert_eq!(remove_reaction(&mut remove, NOW), Err(ProjectCommentsError::ReactionNotFound));
    assert_eq!(remove.comment.reactions_total, 2);

    let mut admin = AdminRemoveReaction {
        config: config(false),
        thread: thread(2, false),
        thread_key: thread_key().0,
        comment: existing_comment(1, POST_AUTHOR),
        comment_key: ck,
        reaction: remove.reaction.clone(),
        reaction_key: key(60),
        reaction_lamports: 500,
        actor: signer(ADMIN),
        recipient: wallet(70, 10),
        instructions_sysvar: sysvar(),
    };
    assert_eq!(
        admin_remove_reaction(&mut admin, NOW),
        Err(ProjectCommentsError::ReactionNotFound)
    );
}

#[test]
fn successive_comments_get_consecutive_ids() {
    let mut first = create_ctx(0, false, false);
    let event = create_comment(&mut first, key(SOURCE), "one".to_string(), NOW).unwrap();
    assert_eq!(event.comment_id, 0);
    let (ck, cb) = comment_key(1);
    let mut second = CreateComment {
        thread: first.thread,
        comment: None,
        comment_key: ck,
        comment_bump: cb,
        ..first
    };
    let event = create_comment(&mut second, key(SOURCE), "two".to_string(), NOW + 1).unwrap();
    assert_eq!(event.comment_id, 1);
    assert_eq!(second.thread.comments_count, 2);
}

#[test]
fn only_the_canonical_thread_account_is_accepted() {
    let (tk, tb) = thread_key();
    let mut ctx = CreateThreadForPost {
        config: config(false),
        thread: None,
        thread_key: key(96),
        thread_bump: tb,
        post_meta: post_meta(),
        post_account: RawAccount {
            key: key(POST_ACCOUNT),
            owner: key(0),
            lamports: 1,
            is_signer: false,
            executable: false,
            data: Vec::new(),
        },
        authority: signer(USER),
        instructions_sysvar: sysvar(),
    };
    assert_eq!(
        create_thread_for_post(&mut ctx, key(SOURCE), 77, NOW),
        Err(ProjectCommentsError::InvalidPda)
    );
    ctx.thread_key = tk;
    assert!(create_thread_for_post(&mut ctx, key(SOURCE), 77, NOW).is_ok());
}

#[test]
fn unsigned_actors_are_refused() {
    let mut ctx = SetThreadLock {
        config: config(false),
        thread: thread(0, false),
        thread_key: thread_key().0,
        actor: signer(ADMIN),
        instructions_sysvar: sysvar(),
    };
    ctx.actor.is_signer = false;
    assert_eq!(
        set_thread_lock(&mut ctx, true, NOW),
        Err(ProjectCommentsError::MissingRequiredSigner)
    );
    assert!(!ctx.thread.is_locked);
}

#[test]
fn super_admin_removes_reactions_while_paused() {
    let ck = comment_key(1).0;
    let mut comment = existing_comment(1, POST_AUTHOR);
    comment.reactions_total = 3;
    let mut ctx = AdminRemoveReaction {
        config: config(true),
        thread: thread(2, false),
        thread_key: thread_key().0,
        comment,
        comment_key: ck,
        reaction: Some(Reaction {
            comment: ck,
            user: key(USER),
            reaction_kind: "like".to_string(),
            created_at: 3,
            bump: 1,
        }),
        reaction_key: key(60),
        reaction_lamports: 500,
        actor: signer(ADMIN),
        recipient: wallet(70, 10),
        instructions_sysvar: sysvar(),
    };
    admin_remove_reaction(&mut ctx, NOW).unwrap();
    assert_eq!(ctx.comment.reactions_total, 2);
    assert_eq!(ctx.reaction, None);
    assert_eq!(ctx.recipient.lamports, 510);
}

#[test]
fn reaction_accounts_close_into_another_account() {
    let ck = comment_key(1).0;
    let mut comment = existing_comment(1, POST_AUTHOR);
    comment.reactions_total = 1;
    let reaction = Reaction {
        comment: ck,
        user: key(USER),
        reaction_kind: "like".to_string(),
        created_at: 3,
        bump: 1,
    };
    let mut remove = RemoveReaction {
        config: config(false),
        thread_key: thread_key().0,
        comment,
        comment_key: ck,
        reaction: Some(reaction.clone()),
        reaction_key: key(USER),
        reaction_lamports: 500,
        user: signer(USER),
        instructions_sysvar: sysvar(),
    };
    assert_eq!(
        remove_reaction(&mut remove, NOW),
        Err(ProjectCommentsError::InvalidCloseDestination)
    );
    remove.reaction_key = key(60);
    remove.user.lamports = u64::MAX;
    assert_eq!(remove_reaction(&mut remove, NOW), Err(ProjectCommentsError::MathOverflow));
    assert_eq!(remove.reaction, Some(reaction.clone()));
    assert_eq!(remove.comment.reactions_total, 1);

    let mut admin = AdminRemoveReaction {
        config: config(false),
        thread: thread(2, false),
        thread_key: thread_key().0,
        comment: remove.comment.clone(),
        comment_key: ck,
        reaction: Some(reaction),
        reaction_key: key(70),
        reaction_lamports: 500,
        actor: signer(ADMIN),
        recipient: wallet(70, 10),
        instructions_sysvar: sysvar(),
    };
    assert_eq!(
        admin_remove_reaction(&mut admin, NOW),
        Err(ProjectCommentsError::InvalidCloseDestination)
    );
    admin.reaction_key = key(60);
    admin.recipient.lamports = u64::MAX - 499;
    assert_eq!(admin_remove_reaction(&mut admin, NOW), Err(ProjectCommentsError::MathOverflow));
    admin.recipient.lamports = u64::MAX - 500;
    admin_remove_reaction(&mut admin, NOW).unwrap();
    assert_eq!(admin.recipient.lamports, u64::MAX);
}

#[test]
fn existing_comment_accounts_are_not_written_again() {
    let mut ctx = create_ctx(0, false, false);
    ctx.comment = Some(existing_comment(0, POST_AUTHOR));
    assert_eq!(
        create_comment(&mut ctx, key(SOURCE), "x".to_string(), NOW),
        Err(ProjectCommentsError::AccountAlreadyInUse)
    );
    assert_eq!(ctx.comment, Some(existing_comment(0, POST_AUTHOR)));
    assert_eq!(ctx.thread.comments_count, 0);
}

#[test]
fn comment_ids_follow_call_order_across_replies() {
    // A fresh thread takes a comment, a reply to it and another comment.
    let mut first = create_ctx(0, false, false);
    let first_event = create_comment(&mut first, key(SOURCE), "one".to_string(), NOW).unwrap();
    let parent = first.comment.clone().unwrap();
    let (rk, rb) = comment_key(1);
    let mut reply = ReplyComment {
        config: config(false),
        thread: first.thread.clone(),
        thread_key: thread_key().0,
        parent_comment: parent,
        parent_comment_key: comment_key(0).0,
        comment: None,
        comment_key: rk,
        comment_bump: rb,
        user_meta: user_meta(true, true),
        author: signer(USER),
        instructions_sysvar: sysvar(),
    };
    let reply_event = reply_comment(&mut reply, key(SOURCE), "two".to_string(), NOW + 1).unwrap();
    let (ck, cb) = comment_key(2);
    let mut third = CreateComment {
        thread: reply.thread.clone(),
        comment: None,
        comment_key: ck,
        comment_bump: cb,
        ..create_ctx(0, false, false)
    };
    let third_event = create_comment(&mut third, key(SOURCE), "three".to_string(), NOW + 2).unwrap();
    assert_eq!(
        [first_event.comment_id, reply_event.comment_id, third_event.comment_id],
        [0, 1, 2]
    );
    assert_eq!(
        [first_event.comment, reply_event.comment, third_event.comment],
        [comment_key(0).0, comment_key(1).0, comment_key(2).0]
    );
    assert_eq!(third.thread.comments_count, 3);
}

#[test]
fn reaction_total_follows_live_reactions() {
    let ck = comment_key(1).0;
    let reaction_of = |user: u8| pda(&[b"reaction", &ck.to_bytes(), &[user; 32], b"like"]);
    let pinned = RawAccount {
        key: key(50),
        owner: key(0),
        lamports: 1,
        is_signer: false,
        executable: true,
        data: Vec::new(),
    };
    let mut comment = existing_comment(1, POST_AUTHOR);
    let mut live = Vec::new();
    for user in [USER, POST_AUTHOR] {
        let (rk, rb) = reaction_of(user);
        let mut add = AddReaction {
            config: config(false),
            thread: thread(2, false),
            thread_key: thread_key().0,
            comment,
            comment_key: ck,
            reaction: None,
            reaction_key: rk,
            reaction_bump: rb,
            user: signer(user),
            pinned_cpi_program: pinned.clone(),
            instructions_sysvar: sysvar(),
        };
        add_reaction(&mut add, "like".to_string(), key(50), NOW).unwrap();
        live.push((rk, add.reaction.clone().unwrap()));
        comment = add.comment;
        assert_eq!(comment.reactions_total, live.len() as u64);
    }
    let (rk, reaction) = live.remove(0);
    let mut remove = RemoveReaction {
        config: config(false),
        thread_key: thread_key().0,
        comment,
        comment_key: ck,
        reaction: Some(reaction),
        reaction_key: rk,
        reaction_lamports: 100,
        user: signer(USER),
        instructions_sysvar: sysvar(),
    };
    remove_reaction(&mut remove, NOW).unwrap();
    assert_eq!(remove.comment.reactions_total, live.len() as u64);
    let (rk, reaction) = live.remove(0);
    let mut admin = AdminRemoveReaction {
        config: config(false),
        thread: thread(2, false),
        thread_key: thread_key().0,
        comment: remove.comment,
        comment_key: ck,
        reaction: Some(reaction),
        reaction_key: rk,
        reaction_lamports: 100,
        actor: signer(ADMIN),
        recipient: wallet(70, 0),
        instructions_sysvar: sysvar(),
    };
    admin_remove_reaction(&mut admin, NOW).unwrap();
    assert_eq!(admin.comment.reactions_total, 0);
    assert_eq!(admin.recipient.lamports, 100);
}

use anchor_lang::prelude::Pubkey as AnchorPubkey;
use project_comments::accounts::RawAccount;
use project_comments::checks::{
    ensure_not_paused_or_admin, ensure_signer, ensure_thread_writable, validate_body,
    validate_eligibility_mode, validate_max_comment_len, validate_post_meta,
    validate_reaction_kind, validate_user_eligibility, verify_account_owner,
    verify_pinned_program_id,
};
use project_comments::error::ProjectCommentsError;
use project_comments::key::Pubkey;
use project_comments::metadata::{PostMetaStandard, UserMetaStandard};
use project_comments::state::{Config, Thread, MAX_REACTION_KIND_LEN};

fn unique_key() -> Pubkey {
    Pubkey::new_from_array(AnchorPubkey::new_unique().to_bytes())
}

fn key(n: u8) -> Pubkey {
    Pubkey::new_from_array([n; 32])
}

fn account(k: Pubkey, owner: Pubkey, is_signer: bool, executable: bool) -> RawAccount {
    RawAccount { key: k, owner, lamports: 0, is_signer, executable, data: Vec::new() }
}

fn config(paused: bool, admin: Pubkey) -> Config {
    Config {
        super_admin: admin,
        paused,
        eligibility_mode: 0,
        max_comment_len: 10,
        max_reactions_per_user: 5,
        created_at: 1,
        updated_at: 1,
        bump: 255,
    }
}

#[test]
fn eligibility_mode_validator_accepts_expected_values() {
    assert!(validate_eligibility_mode(0).is_ok());
    assert!(validate_eligibility_mode(1).is_ok());
    assert!(validate_eligibility_mode(2).is_ok());
    assert!(validate_eligibility_mode(3).is_err());
}

#[test]
fn body_validation_respects_boundaries() {
    assert!(validate_body("a", 1).is_ok());
    assert!(validate_body("", 1).is_err());
    assert!(validate_body("ab", 1).is_err());
}

#[test]
fn reaction_kind_validation_respects_boundaries() {
    assert!(validate_reaction_kind("a").is_ok());
    assert!(validate_reaction_kind("").is_err());
    assert!(validate_reaction_kind(&"x".repeat(MAX_REACTION_KIND_LEN)).is_ok());
    assert!(validate_reaction_kind(&"x".repeat(MAX_REACTION_KIND_LEN + 1)).is_err());
}

#[test]
fn user_eligibility_matrix_works() {
    let source_program_id = unique_key();
    let user = unique_key();

    let strict_ok = UserMetaStandard {
        source_program_id,
        user,
        is_registered: true,
        is_eligible_to_comment: true,
    };
    let registered_only = UserMetaStandard {
        source_program_id,
        user,
        is_registered: true,
        is_eligible_to_comment: false,
    };

    assert!(validate_user_eligibility(&strict_ok, source_program_id, user, 0).is_ok());
    assert!(validate_user_eligibility(&registered_only, source_program_id, user, 0).is_err());
    assert!(validate_user_eligibility(&registered_only, source_program_id, user, 1).is_ok());
    assert!(validate_user_eligibility(&registered_only, source_program_id, user, 2).is_ok());
}

#[test]
fn user_eligibility_errors_name_the_failure() {
    let source = key(1);
    let user = key(2);
    let unregistered = UserMetaStandard {
        source_program_id: source,
        user,
        is_registered: false,
        is_eligible_to_comment: false,
    };
    assert_eq!(
        validate_user_eligibility(&unregistered, source, user, 1),
        Err(ProjectCommentsError::NotEligibleToComment)
    );
    assert_eq!(validate_user_eligibility(&unregistered, source, user, 2), Ok(()));
    assert_eq!(
        validate_user_eligibility(&unregistered, source, user, 3),
        Err(ProjectCommentsError::InvalidEligibilityMode)
    );
    assert_eq!(
        validate_user_eligibility(&unregistered, key(9), user, 2),
        Err(ProjectCommentsError::InvalidSourceMetadata)
    );
    assert_eq!(
        validate_user_eligibility(&unregistered, source, key(9), 2),
        Err(ProjectCommentsError::InvalidSourceMetadata)
    );
}

#[test]
fn max_comment_len_bounds() {
    assert_eq!(validate_max_comment_len(0), Err(ProjectCommentsError::InvalidMaxCommentLen));
    assert_eq!(validate_max_comment_len(1), Ok(()));
    assert_eq!(validate_max_comment_len(2000), Ok(()));
    assert_eq!(validate_max_comment_len(2001), Err(ProjectCommentsError::InvalidMaxCommentLen));
}

#[test]
fn body_length_counts_bytes() {
    assert_eq!(validate_body("", 5), Err(ProjectCommentsError::BodyEmpty));
    // "é" takes two bytes, "€" three.
    assert_eq!(validate_body("é", 2), Ok(()));
    assert_eq!(validate_body("é", 1), Err(ProjectCommentsError::BodyTooLong));
    assert_eq!(validate_body("€", 2), Err(ProjectCommentsError::BodyTooLong));
    assert_eq!(validate_reaction_kind(&"é".repeat(16)), Ok(()));
    assert_eq!(
        validate_reaction_kind(&"é".repeat(17)),
        Err(ProjectCommentsError::InvalidReactionKind)
    );
}

#[test]
fn pause_lets_only_the_super_admin_through() {
    let admin = key(1);
    assert_eq!(ensure_not_paused_or_admin(&config(false, admin), &key(2)), Ok(()));
    assert_eq!(
        ensure_not_paused_or_admin(&config(true, admin), &key(2)),
        Err(ProjectCommentsError::ProgramPaused)
    );
    assert_eq!(ensure_not_paused_or_admin(&config(true, admin), &admin), Ok(()));
}

#[test]
fn signer_owner_and_pinned_program_checks() {
    let a = account(key(3), key(4), true, true);
    assert_eq!(ensure_signer(&a), Ok(()));
    assert_eq!(
        ensure_signer(&account(key(3), key(4), false, true)),
        Err(ProjectCommentsError::MissingRequiredSigner)
    );
    assert_eq!(verify_account_owner(&a, &key(4)), Ok(()));
    assert_eq!(verify_account_owner(&a, &key(5)), Err(ProjectCommentsError::InvalidAccountOwner));
    assert_eq!(verify_pinned_program_id(&a, &key(3)), Ok(()));
    assert_eq!(verify_pinned_program_id(&a, &key(6)), Err(ProjectCommentsError::InvalidCpiProgram));
    assert_eq!(
        verify_pinned_program_id(&account(key(3), key(4), true, false), &key(3)),
        Err(ProjectCommentsError::InvalidCpiProgram)
    );
}

#[test]
fn locked_thread_is_not_writable() {
    let mut thread = Thread {
        source_program_id: key(1),
        post_account: key(2),
        post_author: key(3),
        post_id: 7,
        comments_count: 0,
        is_locked: false,
        created_at: 0,
        updated_at: 0,
        bump: 254,
    };
    assert_eq!(ensure_thread_writable(&thread), Ok(()));
    thread.is_locked = true;
    assert_eq!(ensure_thread_writable(&thread), Err(ProjectCommentsError::ThreadLocked));
}

#[test]
fn post_metadata_must_match_and_be_visible() {
    let meta = PostMetaStandard {
        source_program_id: key(1),
        post_account: key(2),
        post_author: key(3),
        post_id: 42,
        is_public: true,
        is_archived: false,
    };
    assert_eq!(validate_post_meta(&meta, key(1), key(2), 42), Ok(()));
    let bad = Err(ProjectCommentsError::InvalidSourceMetadata);
    assert_eq!(validate_post_meta(&meta, key(9), key(2), 42), bad);
    assert_eq!(validate_post_meta(&meta, key(1), key(9), 42), bad);
    assert_eq!(validate_post_meta(&meta, key(1), key(2), 43), bad);
    assert_eq!(validate_post_meta(&PostMetaStandard { is_public: false, ..meta }, key(1), key(2), 42), bad);
    assert_eq!(validate_post_meta(&PostMetaStandard { is_archived: true, ..meta }, key(1), key(2), 42), bad);
}

#[test]
fn error_codes_and_messages() {
    assert_eq!(ProjectCommentsError::Unauthorized.code(), 6000);
    assert_eq!(ProjectCommentsError::InvalidInstructionIntrospection.code(), 6021);
    assert_eq!(ProjectCommentsError::MathOverflow.code(), 6012);
    assert_eq!(ProjectCommentsError::ThreadLocked.message(), "Thread is locked");
    assert_eq!(ProjectCommentsError::InvalidPda.message(), "Invalid PDA");
}

#[test]
fn addresses_compare_by_bytes() {
    let a = key(7);
    let b = Pubkey::new_from_array([7; 32]);
    assert!(a == b);
    assert!(a != key(8));
    assert_eq!(a.to_bytes(), [7u8; 32]);
    assert_eq!(Pubkey::from_slice_at(&[7u8; 40], 5), a);
    assert_eq!(a.to_vec(), vec![7u8; 32]);
}

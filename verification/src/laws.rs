use vstd::prelude::*;

use vstd::bytes::{lemma_auto_spec_u64_to_from_le_bytes, spec_u64_to_le_bytes};
use vstd::utf8::encode_utf8;

use crate::accounts::{
    AddReaction, AdminRemoveReaction, CreateComment, CreateThreadForPost, DeleteComment, EditComment,
    InitializeConfig, RemoveReaction, ReplyComment, SetThreadLock, UpdateConfig,
};
use crate::checks::{body_error, byte_len, paused_error, signer_error, user_eligibility_error};
use crate::sysvar::instructions_sysvar_error;
use crate::error::ProjectCommentsError;
use crate::instructions::{
    add_reaction_error, admin_remove_reaction_error, close_destination_error, create_comment_error,
    create_thread_error, delete_comment_error, edit_comment_error, initialize_config_accounts_error,
    initialize_config_error, lamport_transfer_error, may_delete, may_moderate, reaction_added,
    reaction_on_comment_error, reaction_removed, reaction_removed_by_moderator,
    remove_reaction_error, reply_comment_error, set_thread_lock_error, thread_after_comment,
    update_config_error,
};
use crate::metadata::{
    external_metadata, post_meta_bytes, user_meta_bytes, PostMetaStandard, PostMetaView,
    UserMetaStandard, UserMetaView,
};
use crate::pda::{canonical_pda_error, comment_seeds, reaction_seeds, thread_seeds};
use crate::state::{Comment, Config, Thread, ABS_MAX_COMMENT_LEN};

verus! {

/// A text's UTF-8 encoding is empty exactly when the text is.
proof fn lemma_encode_utf8_empty(text: Seq<char>)
    ensures
        (encode_utf8(text).len() == 0) <==> (text.len() == 0),
{
    if text.len() > 0 {
        assert(encode_utf8(text) == vstd::utf8::encode_scalar(text[0] as u32) + encode_utf8(
            text.drop_first(),
        ));
    }
}

/// A body is accepted exactly when it takes between one byte and the limit.
pub proof fn body_accepted_iff_within_limit(body: Seq<char>, max_comment_len: int)
    ensures
        body_error(body, max_comment_len) is None <==> 1 <= byte_len(body) <= max_comment_len,
{
    lemma_encode_utf8_empty(body);
}

/// The eligibility modes are nested: whoever may comment under mode 0 may
/// under mode 1, whoever may under mode 1 may under mode 2, and under mode 2
/// every user that the metadata names may comment.
pub proof fn eligibility_modes_are_nested(meta: UserMetaView, source_program_id: Seq<u8>, user: Seq<u8>)
    ensures
        user_eligibility_error(meta, source_program_id, user, 0) is None ==> user_eligibility_error(
            meta,
            source_program_id,
            user,
            1,
        ) is None,
        user_eligibility_error(meta, source_program_id, user, 1) is None ==> user_eligibility_error(
            meta,
            source_program_id,
            user,
            2,
        ) is None,
        (meta.source_program_id == source_program_id && meta.user == user) ==> user_eligibility_error(
            meta,
            source_program_id,
            user,
            2,
        ) is None,
{
}

/// Whether an error is one of those that the signer check and the pause
/// check give.
pub open spec fn is_signer_or_pause_error(e: Option<ProjectCommentsError>) -> bool {
    e == Some(ProjectCommentsError::MissingRequiredSigner) || e == Some(
        ProjectCommentsError::ProgramPaused,
    )
}

/// While the program is paused, no one but the super admin can write: every
/// instruction that a user or a moderator signs is refused, for want of a
/// signature or because of the pause (once the accounts to be created do not
/// exist yet, and the comment, thread and reaction named exist and belong
/// together).
pub proof fn pause_stops_everyone_but_the_super_admin(
    thread: CreateThreadForPost,
    comment: CreateComment,
    reply: ReplyComment,
    edit: EditComment,
    delete: DeleteComment,
    lock: SetThreadLock,
    add: AddReaction,
    remove: RemoveReaction,
    admin_remove: AdminRemoveReaction,
    source_program_id: Seq<u8>,
    post_id: u64,
    body: Seq<char>,
    kind: Seq<char>,
)
    ensures
        thread.thread is None && thread.config.paused && thread.authority.key@
            != thread.config.super_admin@ ==> is_signer_or_pause_error(
            create_thread_error(thread, source_program_id, post_id),
        ),
        comment.comment is None && comment.config.paused && comment.author.key@
            != comment.config.super_admin@ ==> is_signer_or_pause_error(
            create_comment_error(comment, source_program_id, body),
        ),
        reply.comment is None && reply.config.paused && reply.author.key@
            != reply.config.super_admin@ ==> is_signer_or_pause_error(
            reply_comment_error(reply, source_program_id, body),
        ),
        edit.config.paused && edit.author.key@ != edit.config.super_admin@
            ==> is_signer_or_pause_error(edit_comment_error(edit, body)),
        delete.config.paused && delete.actor.key@ != delete.config.super_admin@
            ==> is_signer_or_pause_error(delete_comment_error(delete)),
        lock.config.paused && lock.actor.key@ != lock.config.super_admin@
            ==> is_signer_or_pause_error(set_thread_lock_error(lock)),
        add.comment.thread@ == add.thread_key@ && add.reaction is None && add.config.paused
            && add.user.key@ != add.config.super_admin@ ==> is_signer_or_pause_error(
            add_reaction_error(add, kind),
        ),
        remove.comment.thread@ == remove.thread_key@ && reaction_on_comment_error(
            remove.reaction,
            remove.comment_key@,
        ) is None && remove.reaction_key@ != remove.user.key@ && remove.config.paused
            && remove.user.key@ != remove.config.super_admin@ ==> is_signer_or_pause_error(
            remove_reaction_error(remove),
        ),
        admin_remove.comment.thread@ == admin_remove.thread_key@ && reaction_on_comment_error(
            admin_remove.reaction,
            admin_remove.comment_key@,
        ) is None && admin_remove.reaction_key@ != admin_remove.recipient.key@
            && admin_remove.config.paused && admin_remove.actor.key@
            != admin_remove.config.super_admin@ ==> is_signer_or_pause_error(
            admin_remove_reaction_error(admin_remove),
        ),
{
}

/// The pause never holds the super admin back.
pub proof fn super_admin_is_never_paused(config: Config)
    ensures
        paused_error(config, config.super_admin@) is None,
{
}

/// A locked thread takes no new comment, reply or reaction.
pub proof fn locked_thread_takes_nothing_new(
    comment: CreateComment,
    reply: ReplyComment,
    add: AddReaction,
    source_program_id: Seq<u8>,
    body: Seq<char>,
    kind: Seq<char>,
)
    ensures
        comment.thread.is_locked ==> create_comment_error(comment, source_program_id, body) is Some,
        reply.thread.is_locked ==> reply_comment_error(reply, source_program_id, body) is Some,
        add.thread.is_locked ==> add_reaction_error(add, kind) is Some,
{
}

/// Each privileged instruction succeeds only for the actors it allows: the
/// configuration changes only by its super admin, a comment's body only by
/// its author, a comment is deleted only by its author, the super admin or
/// the author of the post of its own thread, a thread is locked or unlocked and any reaction removed
/// only by the post's author or the super admin, and a reaction is taken back
/// only by its own user.
pub proof fn only_allowed_actors_succeed(
    update: UpdateConfig,
    edit: EditComment,
    delete: DeleteComment,
    lock: SetThreadLock,
    remove: RemoveReaction,
    admin_remove: AdminRemoveReaction,
    eligibility_mode: u8,
    max_comment_len: u16,
    body: Seq<char>,
)
    ensures
        update_config_error(update, eligibility_mode, max_comment_len) is None
            ==> update.admin.key@ == update.config.super_admin@,
        edit_comment_error(edit, body) is None ==> edit.comment.author@ == edit.author.key@
            && !edit.comment.deleted,
        delete_comment_error(delete) is None ==> may_delete(delete),
        set_thread_lock_error(lock) is None ==> may_moderate(lock.thread, lock.config, lock.actor.key@),
        remove_reaction_error(remove) is None ==> (remove.reaction matches Some(r) && r.user@
            == remove.user.key@),
        admin_remove_reaction_error(admin_remove) is None ==> may_moderate(
            admin_remove.thread,
            admin_remove.config,
            admin_remove.actor.key@,
        ),
{
}

/// The super admin may delete any comment, lock any thread and remove any
/// reaction, and a comment's author may delete it whatever thread is named;
/// a post's author who is neither deletes only comments of that post's
/// thread, and is told so when the comment belongs to another.
pub proof fn super_admin_may_moderate(delete: DeleteComment, thread: Thread, config: Config)
    ensures
        delete.actor.key@ == delete.config.super_admin@ ==> may_delete(delete),
        delete.actor.key@ == delete.comment.author@ ==> may_delete(delete),
        delete_comment_error(delete) is None && delete.actor.key@ != delete.comment.author@
            && delete.actor.key@ != delete.config.super_admin@ ==> delete.comment.thread@
            == delete.thread_key@,
        delete.thread.post_author@ == delete.actor.key@ && delete.actor.key@
            != delete.comment.author@ && delete.actor.key@ != delete.config.super_admin@
            && delete.comment.thread@ != delete.thread_key@ && signer_error(delete.actor) is None
            && paused_error(delete.config, delete.actor.key@) is None && instructions_sysvar_error(
            delete.instructions_sysvar,
        ) is None ==> delete_comment_error(delete) == Some(
            ProjectCommentsError::ParentThreadMismatch,
        ),
        may_moderate(thread, config, config.super_admin@),
{
}

/// A deleted comment can never be edited again.
pub proof fn deleted_comment_cannot_be_edited(edit: EditComment, body: Seq<char>)
    ensures
        edit.comment.deleted ==> edit_comment_error(edit, body) is Some,
{
}

/// Every configuration that is written satisfies the limits: a known
/// eligibility mode and a comment length limit between 1 and the absolute
/// maximum.
pub proof fn written_configurations_are_valid(
    update: UpdateConfig,
    eligibility_mode: u8,
    max_comment_len: u16,
)
    ensures
        initialize_config_error(eligibility_mode, max_comment_len) is None ==> eligibility_mode <= 2 && 0
            < max_comment_len <= ABS_MAX_COMMENT_LEN,
        update_config_error(update, eligibility_mode, max_comment_len) is None ==> eligibility_mode
            <= 2 && 0 < max_comment_len <= ABS_MAX_COMMENT_LEN,
{
}

/// One post has at most one thread: once a thread has been created for a
/// post, every further creation for the same post is refused, whatever post
/// id or authority it names, since the only address it could use holds the
/// thread already.
pub proof fn one_thread_per_post(
    first: CreateThreadForPost,
    second: CreateThreadForPost,
    source_program_id: Seq<u8>,
    first_post_id: u64,
    second_post_id: u64,
)
    requires
        create_thread_error(first, source_program_id, first_post_id) is None,
        second.post_account.key@ == first.post_account.key@,
        second.thread_key@ == first.thread_key@ ==> second.thread is Some,
    ensures
        create_thread_error(second, source_program_id, second_post_id) is Some,
{
    if create_thread_error(second, source_program_id, second_post_id) is None {
        let seeds = thread_seeds(source_program_id, first.post_account.key@);
        assert(canonical_pda_error(first.thread_key@, seeds, first.thread_bump) is None);
        assert(canonical_pda_error(second.thread_key@, seeds, second.thread_bump) is None);
    }
}

/// One user has at most one live reaction of each kind on a comment: once it
/// has been added, adding it again is refused, with `AlreadyReacted` when the
/// comment belongs to the thread named, until the reaction is removed.
pub proof fn one_reaction_per_user_and_kind(first: AddReaction, second: AddReaction, kind: Seq<char>)
    requires
        add_reaction_error(first, kind) is None,
        second.comment_key@ == first.comment_key@,
        second.user.key@ == first.user.key@,
        second.reaction_key@ == first.reaction_key@ ==> second.reaction is Some,
    ensures
        add_reaction_error(second, kind) is Some,
        second.reaction_key@ == first.reaction_key@ && second.comment.thread@ == second.thread_key@
            ==> add_reaction_error(second, kind) == Some(ProjectCommentsError::AlreadyReacted),
{
    if add_reaction_error(second, kind) is None {
        let seeds = reaction_seeds(first.comment_key@, first.user.key@, kind);
        assert(canonical_pda_error(first.reaction_key@, seeds, first.reaction_bump) is None);
        assert(canonical_pda_error(second.reaction_key@, seeds, second.reaction_bump) is None);
    }
}

/// An account that an instruction creates is never created twice: the
/// configuration, a thread, a comment or reply, and a reaction that exist
/// already are refused.
pub proof fn existing_accounts_are_not_created_again(
    config: InitializeConfig,
    thread: CreateThreadForPost,
    comment: CreateComment,
    reply: ReplyComment,
    add: AddReaction,
    eligibility_mode: u8,
    max_comment_len: u16,
    source_program_id: Seq<u8>,
    post_id: u64,
    body: Seq<char>,
    kind: Seq<char>,
)
    ensures
        config.config is Some ==> initialize_config_accounts_error(
            config,
            eligibility_mode,
            max_comment_len,
        ) == Some(ProjectCommentsError::AccountAlreadyInUse),
        thread.thread is Some ==> create_thread_error(thread, source_program_id, post_id) == Some(
            ProjectCommentsError::AccountAlreadyInUse,
        ),
        comment.comment is Some ==> create_comment_error(comment, source_program_id, body) == Some(
            ProjectCommentsError::AccountAlreadyInUse,
        ),
        reply.comment is Some ==> reply_comment_error(reply, source_program_id, body) == Some(
            ProjectCommentsError::AccountAlreadyInUse,
        ),
        add.reaction is Some ==> add_reaction_error(add, kind) is Some,
        add.reaction is Some && add.comment.thread@ == add.thread_key@ ==> add_reaction_error(
            add,
            kind,
        ) == Some(ProjectCommentsError::AlreadyReacted),
{
}

/// Post metadata reads back as written, whether it stands alone or behind an
/// account discriminator.
pub proof fn post_metadata_round_trip(meta: PostMetaView, discriminator: Seq<u8>)
    requires
        meta.source_program_id.len() == 32,
        meta.post_account.len() == 32,
        meta.post_author.len() == 32,
        discriminator.len() == 8,
    ensures
        external_metadata::<PostMetaStandard>(post_meta_bytes(meta)) == Some(meta),
        external_metadata::<PostMetaStandard>(discriminator + post_meta_bytes(meta)) == Some(meta),
{
    lemma_auto_spec_u64_to_from_le_bytes();
    let bytes = post_meta_bytes(meta);
    let id_bytes = spec_u64_to_le_bytes(meta.post_id);
    assert(id_bytes.len() == 8);
    assert(bytes.subrange(0, 32) =~= meta.source_program_id);
    assert(bytes.subrange(32, 64) =~= meta.post_account);
    assert(bytes.subrange(64, 96) =~= meta.post_author);
    assert(bytes.subrange(96, 104) =~= id_bytes);
    let prefixed = discriminator + bytes;
    assert(prefixed.skip(8) =~= bytes);
}

/// User metadata reads back as written, whether it stands alone or behind an
/// account discriminator.
pub proof fn user_metadata_round_trip(meta: UserMetaView, discriminator: Seq<u8>)
    requires
        meta.source_program_id.len() == 32,
        meta.user.len() == 32,
        discriminator.len() == 8,
    ensures
        external_metadata::<UserMetaStandard>(user_meta_bytes(meta)) == Some(meta),
        external_metadata::<UserMetaStandard>(discriminator + user_meta_bytes(meta)) == Some(meta),
{
    let bytes = user_meta_bytes(meta);
    assert(bytes.subrange(0, 32) =~= meta.source_program_id);
    assert(bytes.subrange(32, 64) =~= meta.user);
    let prefixed = discriminator + bytes;
    assert(prefixed.skip(8) =~= bytes);
}

/// Every write path demands a signature: an instruction whose acting
/// account has not signed is refused with `MissingRequiredSigner` (once the
/// accounts to be created do not exist yet, and the comment, thread and
/// reaction named exist and belong together).
pub proof fn unsigned_requests_are_refused(
    thread: CreateThreadForPost,
    comment: CreateComment,
    reply: ReplyComment,
    edit: EditComment,
    delete: DeleteComment,
    lock: SetThreadLock,
    add: AddReaction,
    remove: RemoveReaction,
    admin_remove: AdminRemoveReaction,
    source_program_id: Seq<u8>,
    post_id: u64,
    body: Seq<char>,
    kind: Seq<char>,
)
    ensures
        thread.thread is None && !thread.authority.is_signer ==> create_thread_error(thread, source_program_id, post_id)
            == Some(ProjectCommentsError::MissingRequiredSigner),
        comment.comment is None && !comment.author.is_signer ==> create_comment_error(comment, source_program_id, body)
            == Some(ProjectCommentsError::MissingRequiredSigner),
        reply.comment is None && !reply.author.is_signer ==> reply_comment_error(reply, source_program_id, body) == Some(
            ProjectCommentsError::MissingRequiredSigner,
        ),
        !edit.author.is_signer ==> edit_comment_error(edit, body) == Some(
            ProjectCommentsError::MissingRequiredSigner,
        ),
        !delete.actor.is_signer ==> delete_comment_error(delete) == Some(
            ProjectCommentsError::MissingRequiredSigner,
        ),
        !lock.actor.is_signer ==> set_thread_lock_error(lock) == Some(
            ProjectCommentsError::MissingRequiredSigner,
        ),
        add.comment.thread@ == add.thread_key@ && add.reaction is None && !add.user.is_signer
            ==> add_reaction_error(add, kind) == Some(ProjectCommentsError::MissingRequiredSigner),
        remove.comment.thread@ == remove.thread_key@ && reaction_on_comment_error(
            remove.reaction,
            remove.comment_key@,
        ) is None && remove.reaction_key@ != remove.user.key@ && !remove.user.is_signer
            ==> remove_reaction_error(remove) == Some(ProjectCommentsError::MissingRequiredSigner),
        admin_remove.comment.thread@ == admin_remove.thread_key@ && reaction_on_comment_error(
            admin_remove.reaction,
            admin_remove.comment_key@,
        ) is None && admin_remove.reaction_key@ != admin_remove.recipient.key@
            && !admin_remove.actor.is_signer ==> admin_remove_reaction_error(admin_remove) == Some(
            ProjectCommentsError::MissingRequiredSigner,
        ),
{
}

/// Comments written one after the other in a thread get consecutive, hence
/// distinct, ids: once `create_comment` or `reply_comment` has succeeded
/// with id `n`, the thread it leaves behind numbers the next comment `n + 1`.
pub proof fn successive_comments_get_consecutive_ids(
    first: CreateComment,
    reply: ReplyComment,
    source_program_id: Seq<u8>,
    body: Seq<char>,
)
    ensures
        create_comment_error(first, source_program_id, body) is None
            ==> first.thread.comments_count < u64::MAX && ((first.thread.comments_count + 1) as u64)
            == first.thread.comments_count + 1,
        reply_comment_error(reply, source_program_id, body) is None
            ==> reply.thread.comments_count < u64::MAX && ((reply.thread.comments_count + 1) as u64)
            == reply.thread.comments_count + 1,
{
}

/// Taking back a reaction undoes adding it: after `add_reaction` has
/// succeeded, the same user's `remove_reaction` on the comment and reaction
/// that it left is refused only for a missing signature, the pause, the
/// sysvar or the lamports' destination; when it succeeds the reaction account
/// is closed, its lamports go to the user, the comment's total is back where
/// it was, and the same reaction can be added again.
pub proof fn removing_a_reaction_undoes_adding_it(
    add: AddReaction,
    kind: String,
    added_at: i64,
    remove: RemoveReaction,
    removed_at: i64,
)
    requires
        add_reaction_error(add, kind@) is None,
        remove.thread_key == add.thread_key,
        remove.comment_key == add.comment_key,
        remove.reaction_key == add.reaction_key,
        remove.comment == reaction_added(add, kind, added_at).comment,
        remove.reaction == reaction_added(add, kind, added_at).reaction,
        remove.user.key == add.user.key,
    ensures
        remove_reaction_error(remove) is None <==> {
            &&& close_destination_error(remove.reaction_key@, remove.user.key@) is None
            &&& signer_error(remove.user) is None
            &&& paused_error(remove.config, remove.user.key@) is None
            &&& instructions_sysvar_error(remove.instructions_sysvar) is None
            &&& lamport_transfer_error(remove.user.lamports, remove.reaction_lamports) is None
        },
        remove_reaction_error(remove) is None ==> {
            let after = reaction_removed(remove, removed_at);
            &&& after.reaction is None
            &&& after.user.lamports == remove.user.lamports + remove.reaction_lamports
            &&& after.comment.reactions_total == add.comment.reactions_total
            &&& add_reaction_error(
                AddReaction { comment: after.comment, reaction: after.reaction, ..add },
                kind@,
            ) is None
        },
{
}

/// A comment's reaction total counts its live reactions: where the total
/// equals the number of live reactions on the comment before an accepted
/// `add_reaction`, `remove_reaction` or `admin_remove_reaction`, it equals
/// their number after it; hence a removal is never refused for underflow
/// while the count holds.
pub proof fn reactions_total_counts_live_reactions(
    add: AddReaction,
    kind: String,
    remove: RemoveReaction,
    admin_remove: AdminRemoveReaction,
    live: Set<Seq<u8>>,
    now: i64,
)
    ensures
        live.finite() && add.comment.reactions_total == live.len() && (live.contains(
            add.reaction_key@,
        ) <==> add.reaction is Some) && add_reaction_error(add, kind@) is None
            ==> reaction_added(add, kind, now).comment.reactions_total == live.insert(
            add.reaction_key@,
        ).len(),
        live.finite() && remove.comment.reactions_total == live.len() && (reaction_on_comment_error(
            remove.reaction,
            remove.comment_key@,
        ) is None ==> live.contains(remove.reaction_key@)) ==> {
            &&& remove_reaction_error(remove) != Some(ProjectCommentsError::MathUnderflow)
            &&& remove_reaction_error(remove) is None ==> reaction_removed(
                remove,
                now,
            ).comment.reactions_total == live.remove(remove.reaction_key@).len()
        },
        live.finite() && admin_remove.comment.reactions_total == live.len() && (
        reaction_on_comment_error(admin_remove.reaction, admin_remove.comment_key@) is None
            ==> live.contains(admin_remove.reaction_key@)) ==> {
            &&& admin_remove_reaction_error(admin_remove) != Some(
                ProjectCommentsError::MathUnderflow,
            )
            &&& admin_remove_reaction_error(admin_remove) is None ==> reaction_removed_by_moderator(
                admin_remove,
                now,
            ).comment.reactions_total == live.remove(admin_remove.reaction_key@).len()
        },
{
    if live.finite() && live.contains(add.reaction_key@) {
        assert(live.insert(add.reaction_key@) =~= live);
    }
    if live.finite() && live.contains(remove.reaction_key@) {
        assert(live.remove(remove.reaction_key@).len() == live.len() - 1);
    }
    if live.finite() && live.contains(admin_remove.reaction_key@) {
        assert(live.remove(admin_remove.reaction_key@).len() == live.len() - 1);
    }
}

/// The shape of a comment in its tree: it is top-level exactly when its depth
/// is 0, and a top-level comment is its own root.
pub open spec fn comment_shape(c: Comment, key: Seq<u8>) -> bool {
    &&& (c.parent_comment is None <==> c.depth == 0)
    &&& (c.depth == 0 ==> c.root_comment@ == key)
}

/// Writing comments keeps the comment tree in shape: a new top-level comment
/// is top-level, at depth 0 and its own root; a reply hangs one level below
/// its parent, in the parent's thread and under the parent's root, so that by
/// induction every root names a depth-0 comment of the same thread; and the
/// parent keeps its shape, its place and its root.
pub proof fn writing_comments_keeps_the_tree_in_shape(
    comment: CreateComment,
    reply: ReplyComment,
    source_program_id: Seq<u8>,
    body: String,
    now: i64,
)
    requires
        comment_shape(reply.parent_comment, reply.parent_comment_key@),
    ensures
        create_comment_error(comment, source_program_id, body@) is None ==> comment_shape(
            Comment {
                thread: comment.thread_key,
                comment_id: comment.thread.comments_count,
                author: comment.author.key,
                parent_comment: None,
                root_comment: comment.comment_key,
                body,
                depth: 0,
                replies_count: 0,
                reactions_total: 0,
                edited_at: None,
                deleted: false,
                created_at: now,
                updated_at: now,
                bump: comment.comment_bump,
            },
            comment.comment_key@,
        ),
        reply_comment_error(reply, source_program_id, body@) is None ==> {
            let new_reply = Comment {
                thread: reply.thread_key,
                comment_id: reply.thread.comments_count,
                author: reply.author.key,
                parent_comment: Some(reply.parent_comment_key),
                root_comment: reply.parent_comment.root_comment,
                body,
                depth: (reply.parent_comment.depth + 1) as u32,
                replies_count: 0,
                reactions_total: 0,
                edited_at: None,
                deleted: false,
                created_at: now,
                updated_at: now,
                bump: reply.comment_bump,
            };
            let parent_after = Comment {
                replies_count: (reply.parent_comment.replies_count + 1) as u64,
                updated_at: now,
                ..reply.parent_comment
            };
            &&& comment_shape(new_reply, reply.comment_key@)
            &&& new_reply.thread@ == reply.parent_comment.thread@
            &&& new_reply.depth == reply.parent_comment.depth + 1
            &&& new_reply.root_comment == reply.parent_comment.root_comment
            &&& comment_shape(parent_after, reply.parent_comment_key@)
        },
{
}

/// The thread that the `i`-th of a run of comment writes sees: that of the
/// reply `replies[i]` where `is_reply[i]`, else that of the top-level comment
/// `tops[i]`.
pub open spec fn written_thread(
    tops: Seq<CreateComment>,
    replies: Seq<ReplyComment>,
    is_reply: Seq<bool>,
    i: int,
) -> Thread {
    if is_reply[i] {
        replies[i].thread
    } else {
        tops[i].thread
    }
}

/// The address of the thread that the `i`-th write names.
pub open spec fn written_thread_key(
    tops: Seq<CreateComment>,
    replies: Seq<ReplyComment>,
    is_reply: Seq<bool>,
    i: int,
) -> Seq<u8> {
    if is_reply[i] {
        replies[i].thread_key@
    } else {
        tops[i].thread_key@
    }
}

/// The address at which the `i`-th write stores its comment, and its bump.
pub open spec fn written_comment_key(
    tops: Seq<CreateComment>,
    replies: Seq<ReplyComment>,
    is_reply: Seq<bool>,
    i: int,
) -> (Seq<u8>, u8) {
    if is_reply[i] {
        (replies[i].comment_key@, replies[i].comment_bump)
    } else {
        (tops[i].comment_key@, tops[i].comment_bump)
    }
}

/// Whether the `i`-th write, with its body, is accepted.
pub open spec fn write_accepted(
    tops: Seq<CreateComment>,
    replies: Seq<ReplyComment>,
    is_reply: Seq<bool>,
    source_program_id: Seq<u8>,
    bodies: Seq<Seq<char>>,
    i: int,
) -> bool {
    if is_reply[i] {
        reply_comment_error(replies[i], source_program_id, bodies[i]) is None
    } else {
        create_comment_error(tops[i], source_program_id, bodies[i]) is None
    }
}

/// A run of `k` accepted calls of `create_comment` or `reply_comment` on one
/// thread, each seeing the thread that the one before left (the fresh thread
/// first): the `i`-th write numbers its comment `i` and stores it at the
/// canonical address of comment `i` of the thread, so that the ids are
/// `0, 1, ..., k - 1` in call order and no two are equal, and the thread
/// counts `k` comments at the end.
pub proof fn comment_writes_are_numbered_in_call_order(
    tops: Seq<CreateComment>,
    replies: Seq<ReplyComment>,
    is_reply: Seq<bool>,
    source_program_id: Seq<u8>,
    bodies: Seq<Seq<char>>,
    times: Seq<i64>,
    thread_key: Seq<u8>,
)
    requires
        is_reply.len() > 0,
        tops.len() == is_reply.len(),
        replies.len() == is_reply.len(),
        bodies.len() == is_reply.len(),
        times.len() == is_reply.len(),
        written_thread(tops, replies, is_reply, 0).comments_count == 0,
        forall|i: int|
            #![trigger is_reply[i]]
            0 <= i < is_reply.len() ==> write_accepted(
                tops,
                replies,
                is_reply,
                source_program_id,
                bodies,
                i,
            ) && written_thread_key(tops, replies, is_reply, i) == thread_key,
        forall|i: int|
            #![trigger written_thread(tops, replies, is_reply, i + 1)]
            0 <= i < is_reply.len() - 1 ==> written_thread(tops, replies, is_reply, i + 1)
                == thread_after_comment(written_thread(tops, replies, is_reply, i), times[i]),
    ensures
        forall|i: int|
            #![trigger written_thread(tops, replies, is_reply, i)]
            0 <= i < is_reply.len() ==> written_thread(tops, replies, is_reply, i).comments_count
                == i,
        forall|i: int|
            #![trigger written_comment_key(tops, replies, is_reply, i)]
            0 <= i < is_reply.len() ==> canonical_pda_error(
                written_comment_key(tops, replies, is_reply, i).0,
                comment_seeds(thread_key, i as u64),
                written_comment_key(tops, replies, is_reply, i).1,
            ) is None,
        forall|i: int, j: int|
            #![trigger written_thread(tops, replies, is_reply, i), written_thread(tops, replies, is_reply, j)]
            0 <= i < j < is_reply.len() ==> written_thread(tops, replies, is_reply, i).comments_count
                != written_thread(tops, replies, is_reply, j).comments_count,
        thread_after_comment(
            written_thread(tops, replies, is_reply, is_reply.len() - 1),
            times[is_reply.len() - 1],
        ).comments_count == is_reply.len(),
    decreases is_reply.len(),
{
    let k = is_reply.len();
    if k > 1 {
        let last = k - 1;
        let shorter_tops = tops.drop_last();
        let shorter_replies = replies.drop_last();
        let shorter_is_reply = is_reply.drop_last();
        assert forall|i: int| 0 <= i < k - 1 implies written_thread(
            shorter_tops,
            shorter_replies,
            shorter_is_reply,
            i,
        ) == written_thread(tops, replies, is_reply, i) by {}
        assert forall|i: int| 0 <= i < k - 1 implies written_comment_key(
            shorter_tops,
            shorter_replies,
            shorter_is_reply,
            i,
        ) == written_comment_key(tops, replies, is_reply, i) by {}
        assert forall|i: int| #![trigger shorter_is_reply[i]] 0 <= i < k - 1 implies write_accepted(
            shorter_tops,
            shorter_replies,
            shorter_is_reply,
            source_program_id,
            bodies.drop_last(),
            i,
        ) && written_thread_key(shorter_tops, shorter_replies, shorter_is_reply, i) == thread_key by {
            assert(is_reply[i] == shorter_is_reply[i]);
        }
        assert forall|i: int|
            #![trigger written_thread(shorter_tops, shorter_replies, shorter_is_reply, i + 1)]
            0 <= i < k - 2 implies written_thread(shorter_tops, shorter_replies, shorter_is_reply, i + 1)
            == thread_after_comment(
            written_thread(shorter_tops, shorter_replies, shorter_is_reply, i),
            times.drop_last()[i],
        ) by {
            assert(written_thread(tops, replies, is_reply, i + 1) == thread_after_comment(
                written_thread(tops, replies, is_reply, i),
                times[i],
            ));
        }
        comment_writes_are_numbered_in_call_order(
            shorter_tops,
            shorter_replies,
            shorter_is_reply,
            source_program_id,
            bodies.drop_last(),
            times.drop_last(),
            thread_key,
        );
        assert(written_thread(tops, replies, is_reply, last - 1).comments_count == last - 1);
        assert(written_thread(tops, replies, is_reply, last) == thread_after_comment(
            written_thread(tops, replies, is_reply, last - 1),
            times[last - 1],
        ));
        assert(is_reply[last - 1] == is_reply[last - 1]);
        assert(written_thread(tops, replies, is_reply, last).comments_count == last);
        assert(is_reply[last] == is_reply[last]);
        assert forall|i: int| 0 <= i < k implies written_thread(tops, replies, is_reply, i).comments_count
            == i by {
            if i < last {
                assert(written_thread(shorter_tops, shorter_replies, shorter_is_reply, i).comments_count
                    == i);
            }
        }
        assert forall|i: int| 0 <= i < k implies canonical_pda_error(
            written_comment_key(tops, replies, is_reply, i).0,
            comment_seeds(thread_key, i as u64),
            written_comment_key(tops, replies, is_reply, i).1,
        ) is None by {
            if i < last {
                assert(canonical_pda_error(
                    written_comment_key(shorter_tops, shorter_replies, shorter_is_reply, i).0,
                    comment_seeds(thread_key, i as u64),
                    written_comment_key(shorter_tops, shorter_replies, shorter_is_reply, i).1,
                ) is None);
            } else {
                assert(is_reply[i] == is_reply[i]);
            }
        }
    } else {
        assert(is_reply[0] == is_reply[0]);
    }
}

/// A comment or reply is written only with a body of at least one byte and
/// at most the configuration's `max_comment_len` bytes; a body over that
/// limit is refused with `BodyTooLong` once the account is fresh, the author
/// has signed, the pause lets them through, the thread is open and the sysvar
/// is the real one.
pub proof fn bodies_respect_the_configured_limit(
    comment: CreateComment,
    reply: ReplyComment,
    source_program_id: Seq<u8>,
    body: Seq<char>,
)
    ensures
        create_comment_error(comment, source_program_id, body) is None ==> 1 <= byte_len(body)
            <= comment.config.max_comment_len,
        reply_comment_error(reply, source_program_id, body) is None ==> 1 <= byte_len(body)
            <= reply.config.max_comment_len,
        comment.comment is None && comment.author.is_signer && !(comment.config.paused
            && comment.author.key@ != comment.config.super_admin@) && !comment.thread.is_locked
            && instructions_sysvar_error(comment.instructions_sysvar) is None && byte_len(body)
            > comment.config.max_comment_len ==> create_comment_error(comment, source_program_id, body)
            == Some(ProjectCommentsError::BodyTooLong),
        reply.comment is None && reply.author.is_signer && !(reply.config.paused && reply.author.key@
            != reply.config.super_admin@) && !reply.thread.is_locked && instructions_sysvar_error(
            reply.instructions_sysvar,
        ) is None && byte_len(body) > reply.config.max_comment_len ==> reply_comment_error(
            reply,
            source_program_id,
            body,
        ) == Some(ProjectCommentsError::BodyTooLong),
{
    lemma_encode_utf8_empty(body);
}

/// A comment's author may edit it as often as they like while it is not
/// deleted: an edit is accepted exactly when the author has signed, the pause
/// lets them through, the sysvar is the real one, the new body takes between
/// one byte and the configured limit, the comment is not deleted and the
/// signer wrote it; whether and when it was edited before plays no part.
pub proof fn authors_edit_their_comments_freely(edit: EditComment, body: Seq<char>, edited_at: Option<i64>)
    ensures
        edit_comment_error(edit, body) is None <==> {
            &&& edit.author.is_signer
            &&& !(edit.config.paused && edit.author.key@ != edit.config.super_admin@)
            &&& instructions_sysvar_error(edit.instructions_sysvar) is None
            &&& 1 <= byte_len(body) <= edit.config.max_comment_len
            &&& !edit.comment.deleted
            &&& edit.comment.author@ == edit.author.key@
        },
        edit_comment_error(edit, body) == edit_comment_error(
            EditComment { comment: Comment { edited_at, ..edit.comment }, ..edit },
            body,
        ),
{
    lemma_encode_utf8_empty(body);
}

/// A comment is deleted exactly when the actor has signed, the pause lets
/// them through, the sysvar is the real one and the actor is the comment's
/// author, the super admin, or the author of the post of the thread named
/// where the comment belongs to that thread; how many replies, reactions or
/// edits the comment has plays no part.
pub proof fn deletion_depends_only_on_who_asks(delete: DeleteComment)
    ensures
        delete_comment_error(delete) is None <==> {
            &&& delete.actor.is_signer
            &&& !(delete.config.paused && delete.actor.key@ != delete.config.super_admin@)
            &&& instructions_sysvar_error(delete.instructions_sysvar) is None
            &&& {
                ||| delete.comment.author@ == delete.actor.key@
                ||| delete.config.super_admin@ == delete.actor.key@
                ||| delete.thread.post_author@ == delete.actor.key@ && delete.comment.thread@
                    == delete.thread_key@
            }
        },
{
}

/// How many reactions a comment already has never decides whether a new one
/// is accepted, short of the counter's own overflow, and neither does the
/// configuration's `max_reactions_per_user`: the same request meets the same
/// answer on any other total below `u64::MAX` and any other such setting.
pub proof fn reaction_acceptance_ignores_the_total(
    add: AddReaction,
    kind: Seq<char>,
    reactions_total: u64,
    max_reactions_per_user: u16,
)
    requires
        add.comment.reactions_total < u64::MAX,
        reactions_total < u64::MAX,
    ensures
        add_reaction_error(add, kind) == add_reaction_error(
            AddReaction {
                comment: Comment { reactions_total, ..add.comment },
                config: Config { max_reactions_per_user, ..add.config },
                ..add
            },
            kind,
        ),
{
}

} // verus!

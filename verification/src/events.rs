use vstd::prelude::*;

use crate::key::Pubkey;

verus! {

/// Reported when the configuration is first written.
#[derive(Clone, Debug, PartialEq, Eq)]
pub struct ConfigInitialized {
    pub super_admin: Pubkey,
    pub paused: bool,
    pub eligibility_mode: u8,
    pub max_comment_len: u16,
    pub max_reactions_per_user: u16,
}

/// Reported when the configuration changes.
#[derive(Clone, Debug, PartialEq, Eq)]
pub struct ConfigUpdated {
    pub super_admin: Pubkey,
    pub paused: bool,
    pub eligibility_mode: u8,
    pub max_comment_len: u16,
    pub max_reactions_per_user: u16,
}

/// Reported when a thread is opened for a post.
#[derive(Clone, Debug, PartialEq, Eq)]
pub struct ThreadCreated {
    pub thread: Pubkey,
    pub source_program_id: Pubkey,
    pub post_account: Pubkey,
    pub post_author: Pubkey,
    pub post_id: u64,
}

/// Reported when a thread is locked or unlocked.
#[derive(Clone, Debug, PartialEq, Eq)]
pub struct ThreadLockChanged {
    pub thread: Pubkey,
    pub actor: Pubkey,
    pub is_locked: bool,
}

/// Reported when a comment or a reply is written.
#[derive(Clone, Debug, PartialEq, Eq)]
pub struct CommentCreated {
    pub thread: Pubkey,
    pub comment: Pubkey,
    pub comment_id: u64,
    pub author: Pubkey,
    pub parent_comment: Option<Pubkey>,
    pub root_comment: Pubkey,
    pub depth: u32,
}

/// Reported when a comment's body is replaced by its author.
#[derive(Clone, Debug, PartialEq, Eq)]
pub struct CommentEdited {
    pub thread: Pubkey,
    pub comment: Pubkey,
    pub editor: Pubkey,
}

/// Reported when a comment is deleted.
#[derive(Clone, Debug, PartialEq, Eq)]
pub struct CommentDeleted {
    pub thread: Pubkey,
    pub comment: Pubkey,
    pub actor: Pubkey,
}

/// Reported when a reaction is added.
#[derive(Clone, Debug, PartialEq, Eq)]
pub struct ReactionAdded {
    pub thread: Pubkey,
    pub comment: Pubkey,
    pub reaction: Pubkey,
    pub user: Pubkey,
    pub reaction_kind: String,
}

/// Reported when a reaction is removed, by its user or by a moderator.
#[derive(Clone, Debug, PartialEq, Eq)]
pub struct ReactionRemoved {
    pub thread: Pubkey,
    pub comment: Pubkey,
    pub reaction: Pubkey,
    pub actor: Pubkey,
    pub reaction_kind: String,
}

} // verus!

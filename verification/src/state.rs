use vstd::prelude::*;

use crate::key::Pubkey;

verus! {

/// Longest reaction kind, in bytes.
pub const MAX_REACTION_KIND_LEN: usize = 32;

/// Longest comment body that any configuration may allow, in bytes.
pub const ABS_MAX_COMMENT_LEN: usize = 2000;

/// Longest reaction kind as it appears among the seeds of a reaction address.
pub const MAX_REACTION_KIND_SEED_LEN: usize = MAX_REACTION_KIND_LEN;

/// The body that a deleted comment keeps.
pub const DELETE_TOMBSTONE: &'static str = "[deleted]";

/// Global settings of the program.
#[derive(Clone, Copy, Debug, PartialEq, Eq)]
pub struct Config {
    pub super_admin: Pubkey,
    pub paused: bool,
    pub eligibility_mode: u8,
    pub max_comment_len: u16,
    pub max_reactions_per_user: u16,
    pub created_at: i64,
    pub updated_at: i64,
    pub bump: u8,
}

impl Config {
    /// Serialized size of the account: an 8-byte discriminator and the fields.
    pub const LEN: usize = 8 + 32 + 1 + 1 + 2 + 2 + 8 + 8 + 1;
}

/// A discussion thread attached to one external post.
#[derive(Clone, Copy, Debug, PartialEq, Eq)]
pub struct Thread {
    pub source_program_id: Pubkey,
    pub post_account: Pubkey,
    pub post_author: Pubkey,
    pub post_id: u64,
    pub comments_count: u64,
    pub is_locked: bool,
    pub created_at: i64,
    pub updated_at: i64,
    pub bump: u8,
}

impl Thread {
    /// Serialized size of the account.
    pub const LEN: usize = 8 + 32 + 32 + 32 + 8 + 8 + 1 + 8 + 8 + 1;
}

/// A comment of a thread: top-level when it has no parent, else a reply.
#[derive(Clone, Debug, PartialEq, Eq)]
pub struct Comment {
    pub thread: Pubkey,
    pub comment_id: u64,
    pub author: Pubkey,
    pub parent_comment: Option<Pubkey>,
    pub root_comment: Pubkey,
    pub body: String,
    pub depth: u32,
    pub replies_count: u64,
    pub reactions_total: u64,
    pub edited_at: Option<i64>,
    pub deleted: bool,
    pub created_at: i64,
    pub updated_at: i64,
    pub bump: u8,
}

impl Comment {
    /// Largest serialized size of the account, with the longest body allowed.
    pub const LEN: usize = 8 + 32 + 8 + 32 + (1 + 32) + 32 + (4 + ABS_MAX_COMMENT_LEN) + 4 + 8 + 8
        + (1 + 8) + 1 + 8 + 8 + 1;
}

/// One user's reaction of one kind to one comment.
#[derive(Clone, Debug, PartialEq, Eq)]
pub struct Reaction {
    pub comment: Pubkey,
    pub user: Pubkey,
    pub reaction_kind: String,
    pub created_at: i64,
    pub bump: u8,
}

impl Reaction {
    /// Largest serialized size of the account, with the longest kind allowed.
    pub const LEN: usize = 8 + 32 + 32 + (4 + MAX_REACTION_KIND_SEED_LEN) + 8 + 1;
}

} // verus!

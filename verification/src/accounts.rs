use vstd::prelude::*;

use crate::key::Pubkey;
use crate::state::{Comment, Config, Reaction, Thread};

verus! {

/// What an instruction sees of an account that it takes as is: its address,
/// owner, balance in lamports, signer and executable flags, and data.
#[derive(Clone, Debug, PartialEq, Eq)]
pub struct RawAccount {
    pub key: Pubkey,
    pub owner: Pubkey,
    pub lamports: u64,
    pub is_signer: bool,
    pub executable: bool,
    pub data: Vec<u8>,
}

/// Accounts of `initialize_config`: the configuration account, `None` until
/// it is created, and the bump of its derived address.
pub struct InitializeConfig {
    pub config: Option<Config>,
    pub config_bump: u8,
}

/// Accounts of `update_config`.
pub struct UpdateConfig {
    pub config: Config,
    pub admin: RawAccount,
}

/// Accounts of `create_thread_for_post`; the thread account is `None` until
/// it is created.
pub struct CreateThreadForPost {
    pub config: Config,
    pub thread: Option<Thread>,
    pub thread_key: Pubkey,
    pub thread_bump: u8,
    pub post_meta: RawAccount,
    pub post_account: RawAccount,
    pub authority: RawAccount,
    pub instructions_sysvar: RawAccount,
}

/// Accounts of `create_comment`; the comment account is `None` until it is
/// created.
pub struct CreateComment {
    pub config: Config,
    pub thread: Thread,
    pub thread_key: Pubkey,
    pub comment: Option<Comment>,
    pub comment_key: Pubkey,
    pub comment_bump: u8,
    pub user_meta: RawAccount,
    pub author: RawAccount,
    pub instructions_sysvar: RawAccount,
}

/// Accounts of `reply_comment`; the reply's account is `None` until it is
/// created.
pub struct ReplyComment {
    pub config: Config,
    pub thread: Thread,
    pub thread_key: Pubkey,
    pub parent_comment: Comment,
    pub parent_comment_key: Pubkey,
    pub comment: Option<Comment>,
    pub comment_key: Pubkey,
    pub comment_bump: u8,
    pub user_meta: RawAccount,
    pub author: RawAccount,
    pub instructions_sysvar: RawAccount,
}

/// Accounts of `edit_comment`.
pub struct EditComment {
    pub config: Config,
    pub comment: Comment,
    pub comment_key: Pubkey,
    pub author: RawAccount,
    pub instructions_sysvar: RawAccount,
}

/// Accounts of `delete_comment`.
pub struct DeleteComment {
    pub config: Config,
    pub thread: Thread,
    pub thread_key: Pubkey,
    pub comment: Comment,
    pub comment_key: Pubkey,
    pub actor: RawAccount,
    pub instructions_sysvar: RawAccount,
}

/// Accounts of `set_thread_lock`.
pub struct SetThreadLock {
    pub config: Config,
    pub thread: Thread,
    pub thread_key: Pubkey,
    pub actor: RawAccount,
    pub instructions_sysvar: RawAccount,
}

/// Accounts of `add_reaction`; the reaction account is `None` until it is
/// created.
pub struct AddReaction {
    pub config: Config,
    pub thread: Thread,
    pub thread_key: Pubkey,
    pub comment: Comment,
    pub comment_key: Pubkey,
    pub reaction: Option<Reaction>,
    pub reaction_key: Pubkey,
    pub reaction_bump: u8,
    pub user: RawAccount,
    pub pinned_cpi_program: RawAccount,
    pub instructions_sysvar: RawAccount,
}

/// Accounts of `remove_reaction`: the reaction account is `None` once it is
/// closed, and its lamports then go to the user.
pub struct RemoveReaction {
    pub config: Config,
    pub thread_key: Pubkey,
    pub comment: Comment,
    pub comment_key: Pubkey,
    pub reaction: Option<Reaction>,
    pub reaction_key: Pubkey,
    pub reaction_lamports: u64,
    pub user: RawAccount,
    pub instructions_sysvar: RawAccount,
}

/// Accounts of `admin_remove_reaction`: the reaction account is `None` once
/// it is closed, and its lamports then go to the recipient.
pub struct AdminRemoveReaction {
    pub config: Config,
    pub thread: Thread,
    pub thread_key: Pubkey,
    pub comment: Comment,
    pub comment_key: Pubkey,
    pub reaction: Option<Reaction>,
    pub reaction_key: Pubkey,
    pub reaction_lamports: u64,
    pub actor: RawAccount,
    pub recipient: RawAccount,
    pub instructions_sysvar: RawAccount,
}

} // verus!

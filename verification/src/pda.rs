use vstd::prelude::*;

use anchor_lang::prelude::Pubkey as Address;
use vstd::bytes::{spec_u64_to_le_bytes, u64_to_le_bytes};
use vstd::utf8::encode_utf8;

use crate::error::{outcome, ProjectCommentsError};
use crate::key::{program_id, program_id_bytes, Pubkey};

verus! {

/// The canonical derived address for `seeds` under `program_id` and its bump:
/// the first bump from 255 down whose derived address lies off the curve,
/// if there is one and the seeds are within the size limits.
pub uninterp spec fn program_address(seeds: Seq<Seq<u8>>, program_id: Seq<u8>) -> Option<(Seq<u8>, u8)>;

/// The byte contents of a list of seeds.
pub open spec fn seed_views(seeds: Seq<Vec<u8>>) -> Seq<Seq<u8>> {
    seeds.map_values(|s: Vec<u8>| s@)
}

/// Calls `Pubkey::try_find_program_address`, which searches for the
/// canonical derived address of the seeds under the program and returns
/// `None` when there is none. The contract names its result as a function of
/// the seeds' bytes and the program's address.
#[verifier::external_body]
fn try_find_program_address(seeds: &Vec<Vec<u8>>, program_id: &Pubkey) -> (r: Option<(Pubkey, u8)>)
    ensures
        match r {
            Some((k, b)) => program_address(seed_views(seeds@), program_id@) == Some((k@, b)),
            None => program_address(seed_views(seeds@), program_id@) is None,
        },
{
    let slices: Vec<&[u8]> = seeds.iter().map(|s| s.as_slice()).collect();
    let id = Address::new_from_array(program_id.bytes);
    match Address::try_find_program_address(&slices, &id) {
        Some((address, bump)) => Some((Pubkey { bytes: address.to_bytes() }, bump)),
        None => None,
    }
}

/// An account address and bump are canonical for what the search found.
pub open spec fn canonical_match_error(
    account_key: Seq<u8>,
    bump: u8,
    found: Option<(Seq<u8>, u8)>,
) -> Option<ProjectCommentsError> {
    match found {
        Some((k, b)) => if k == account_key && b == bump {
            None
        } else {
            Some(ProjectCommentsError::InvalidPda)
        },
        None => Some(ProjectCommentsError::InvalidPda),
    }
}

/// An account address and bump are the canonical derived address and bump
/// of the seeds under this program.
pub open spec fn canonical_pda_error(account_key: Seq<u8>, seeds: Seq<Seq<u8>>, bump: u8) -> Option<
    ProjectCommentsError,
> {
    canonical_match_error(account_key, bump, program_address(seeds, program_id_bytes()))
}

/// Compares an account address and bump with what the search for the
/// canonical derived address found.
pub fn check_canonical_pda(account_key: &Pubkey, bump: u8, found: Option<(Pubkey, u8)>) -> (r: Result<
    (),
    ProjectCommentsError,
>)
    ensures
        r == outcome(
            canonical_match_error(
                account_key@,
                bump,
                match found {
                    Some((k, b)) => Some((k@, b)),
                    None => None,
                },
            ),
        ),
{
    match found {
        Some((canonical_pda, canonical_bump)) => {
            if *account_key != canonical_pda || bump != canonical_bump {
                return Err(ProjectCommentsError::InvalidPda);
            }
            Ok(())
        },
        None => Err(ProjectCommentsError::InvalidPda),
    }
}

/// Checks that an account address and bump are the canonical derived address
/// and bump of the seeds under this program.
pub fn assert_canonical_pda(account_key: &Pubkey, seeds: &Vec<Vec<u8>>, bump: u8) -> (r: Result<
    (),
    ProjectCommentsError,
>)
    ensures
        r == outcome(canonical_pda_error(account_key@, seed_views(seeds@), bump)),
{
    let found = try_find_program_address(seeds, &program_id());
    check_canonical_pda(account_key, bump, found)
}

/// Seeds of a thread's address: the tag, the source program and the post.
pub open spec fn thread_seeds(source_program_id: Seq<u8>, post_account: Seq<u8>) -> Seq<Seq<u8>> {
    seq![encode_utf8("thread"@), source_program_id, post_account]
}

/// Seeds of a comment's address: the tag, the thread and the comment's id in
/// little-endian bytes.
pub open spec fn comment_seeds(thread: Seq<u8>, comment_id: u64) -> Seq<Seq<u8>> {
    seq![encode_utf8("comment"@), thread, spec_u64_to_le_bytes(comment_id)]
}

/// Seeds of a reaction's address: the tag, the comment, the user and the
/// reaction kind's bytes.
pub open spec fn reaction_seeds(comment: Seq<u8>, user: Seq<u8>, kind: Seq<char>) -> Seq<Seq<u8>> {
    seq![encode_utf8("reaction"@), comment, user, encode_utf8(kind)]
}

/// Builds the seeds of a thread's address.
pub fn make_thread_seeds(source_program_id: &Pubkey, post_account: &Pubkey) -> (s: Vec<Vec<u8>>)
    ensures
        seed_views(s@) == thread_seeds(source_program_id@, post_account@),
{
    let mut s: Vec<Vec<u8>> = Vec::new();
    s.push(vstd::slice::slice_to_vec("thread".as_bytes()));
    s.push(source_program_id.to_vec());
    s.push(post_account.to_vec());
    assert(seed_views(s@) =~= thread_seeds(source_program_id@, post_account@));
    s
}

/// Builds the seeds of a comment's address.
pub fn make_comment_seeds(thread: &Pubkey, comment_id: u64) -> (s: Vec<Vec<u8>>)
    ensures
        seed_views(s@) == comment_seeds(thread@, comment_id),
{
    let mut s: Vec<Vec<u8>> = Vec::new();
    s.push(vstd::slice::slice_to_vec("comment".as_bytes()));
    s.push(thread.to_vec());
    s.push(u64_to_le_bytes(comment_id));
    assert(seed_views(s@) =~= comment_seeds(thread@, comment_id));
    s
}

/// Builds the seeds of a reaction's address.
pub fn make_reaction_seeds(comment: &Pubkey, user: &Pubkey, kind: &str) -> (s: Vec<Vec<u8>>)
    ensures
        seed_views(s@) == reaction_seeds(comment@, user@, kind@),
{
    let mut s: Vec<Vec<u8>> = Vec::new();
    s.push(vstd::slice::slice_to_vec("reaction".as_bytes()));
    s.push(comment.to_vec());
    s.push(user.to_vec());
    s.push(vstd::slice::slice_to_vec(kind.as_bytes()));
    assert(seed_views(s@) =~= reaction_seeds(comment@, user@, kind@));
    s
}

} // verus!

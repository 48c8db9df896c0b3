use vstd::prelude::*;

use vstd::bytes::{spec_u64_from_le_bytes, spec_u64_to_le_bytes, u64_from_le_bytes};
use vstd::slice::slice_subrange;

use crate::error::ProjectCommentsError;
use crate::key::Pubkey;

verus! {

/// What a source program publishes about one of its posts.
#[derive(Clone, Copy, Debug, PartialEq, Eq)]
pub struct PostMetaStandard {
    pub source_program_id: Pubkey,
    pub post_account: Pubkey,
    pub post_author: Pubkey,
    pub post_id: u64,
    pub is_public: bool,
    pub is_archived: bool,
}

/// What a source program publishes about one of its users.
#[derive(Clone, Copy, Debug, PartialEq, Eq)]
pub struct UserMetaStandard {
    pub source_program_id: Pubkey,
    pub user: Pubkey,
    pub is_registered: bool,
    pub is_eligible_to_comment: bool,
}

/// Post metadata with its addresses taken as byte sequences.
pub struct PostMetaView {
    pub source_program_id: Seq<u8>,
    pub post_account: Seq<u8>,
    pub post_author: Seq<u8>,
    pub post_id: u64,
    pub is_public: bool,
    pub is_archived: bool,
}

/// User metadata with its addresses taken as byte sequences.
pub struct UserMetaView {
    pub source_program_id: Seq<u8>,
    pub user: Seq<u8>,
    pub is_registered: bool,
    pub is_eligible_to_comment: bool,
}

impl View for PostMetaStandard {
    type V = PostMetaView;

    open spec fn view(&self) -> PostMetaView {
        PostMetaView {
            source_program_id: self.source_program_id@,
            post_account: self.post_account@,
            post_author: self.post_author@,
            post_id: self.post_id,
            is_public: self.is_public,
            is_archived: self.is_archived,
        }
    }
}

impl View for UserMetaStandard {
    type V = UserMetaView;

    open spec fn view(&self) -> UserMetaView {
        UserMetaView {
            source_program_id: self.source_program_id@,
            user: self.user@,
            is_registered: self.is_registered,
            is_eligible_to_comment: self.is_eligible_to_comment,
        }
    }
}

/// A byte that encodes a boolean: 0 for false, 1 for true.
pub open spec fn is_bool_byte(b: u8) -> bool {
    b == 0 || b == 1
}

/// The byte that encodes a boolean.
pub open spec fn bool_byte(b: bool) -> u8 {
    if b {
        1
    } else {
        0
    }
}

/// Size of the serialized post metadata: three addresses, a little-endian
/// `u64` and two booleans.
pub const POST_META_SIZE: usize = 106;

/// Size of the serialized user metadata: two addresses and two booleans.
pub const USER_META_SIZE: usize = 66;

/// Size of the discriminator that precedes the fields of a program account.
pub const DISCRIMINATOR_SIZE: usize = 8;

/// A metadata record with a fixed serialized layout, decoded from exactly the
/// bytes of one record (no byte missing and none left over).
pub trait ExternalMetadata: Sized + View {
    /// Whether `bytes` are exactly one serialized record.
    spec fn layout_fits(bytes: Seq<u8>) -> bool;

    /// The record that `bytes` hold, where they fit the layout.
    spec fn layout_value(bytes: Seq<u8>) -> Self::V;

    /// Decodes one record that takes up all of `bytes`.
    fn try_from_slice(bytes: &[u8]) -> (r: Option<Self>)
        ensures
            r is Some <==> Self::layout_fits(bytes@),
            r matches Some(v) ==> v@ == Self::layout_value(bytes@),
    ;
}

/// The serialized form of post metadata.
pub open spec fn post_meta_bytes(m: PostMetaView) -> Seq<u8> {
    m.source_program_id + m.post_account + m.post_author + spec_u64_to_le_bytes(m.post_id) + seq![
        bool_byte(m.is_public),
        bool_byte(m.is_archived),
    ]
}

/// The serialized form of user metadata.
pub open spec fn user_meta_bytes(m: UserMetaView) -> Seq<u8> {
    m.source_program_id + m.user + seq![bool_byte(m.is_registered), bool_byte(m.is_eligible_to_comment)]
}

impl ExternalMetadata for PostMetaStandard {
    open spec fn layout_fits(bytes: Seq<u8>) -> bool {
        &&& bytes.len() == POST_META_SIZE
        &&& is_bool_byte(bytes[104])
        &&& is_bool_byte(bytes[105])
    }

    open spec fn layout_value(bytes: Seq<u8>) -> PostMetaView {
        PostMetaView {
            source_program_id: bytes.subrange(0, 32),
            post_account: bytes.subrange(32, 64),
            post_author: bytes.subrange(64, 96),
            post_id: spec_u64_from_le_bytes(bytes.subrange(96, 104)),
            is_public: bytes[104] == 1,
            is_archived: bytes[105] == 1,
        }
    }

    fn try_from_slice(bytes: &[u8]) -> (r: Option<PostMetaStandard>) {
        if bytes.len() != POST_META_SIZE {
            return None;
        }
        let public_byte = bytes[104];
        let archived_byte = bytes[105];
        if public_byte > 1 || archived_byte > 1 {
            return None;
        }
        Some(
            PostMetaStandard {
                source_program_id: Pubkey::from_slice_at(bytes, 0),
                post_account: Pubkey::from_slice_at(bytes, 32),
                post_author: Pubkey::from_slice_at(bytes, 64),
                post_id: u64_from_le_bytes(slice_subrange(bytes, 96, 104)),
                is_public: public_byte == 1,
                is_archived: archived_byte == 1,
            },
        )
    }
}

impl ExternalMetadata for UserMetaStandard {
    open spec fn layout_fits(bytes: Seq<u8>) -> bool {
        &&& bytes.len() == USER_META_SIZE
        &&& is_bool_byte(bytes[64])
        &&& is_bool_byte(bytes[65])
    }

    open spec fn layout_value(bytes: Seq<u8>) -> UserMetaView {
        UserMetaView {
            source_program_id: bytes.subrange(0, 32),
            user: bytes.subrange(32, 64),
            is_registered: bytes[64] == 1,
            is_eligible_to_comment: bytes[65] == 1,
        }
    }

    fn try_from_slice(bytes: &[u8]) -> (r: Option<UserMetaStandard>) {
        if bytes.len() != USER_META_SIZE {
            return None;
        }
        let registered_byte = bytes[64];
        let eligible_byte = bytes[65];
        if registered_byte > 1 || eligible_byte > 1 {
            return None;
        }
        Some(
            UserMetaStandard {
                source_program_id: Pubkey::from_slice_at(bytes, 0),
                user: Pubkey::from_slice_at(bytes, 32),
                is_registered: registered_byte == 1,
                is_eligible_to_comment: eligible_byte == 1,
            },
        )
    }
}

/// The record that an external account's data holds: either the bare record,
/// or, failing that, the record behind an account discriminator.
pub open spec fn external_metadata<T: ExternalMetadata>(data: Seq<u8>) -> Option<T::V> {
    if T::layout_fits(data) {
        Some(T::layout_value(data))
    } else if data.len() > DISCRIMINATOR_SIZE && T::layout_fits(data.skip(DISCRIMINATOR_SIZE as int)) {
        Some(T::layout_value(data.skip(DISCRIMINATOR_SIZE as int)))
    } else {
        None
    }
}

/// Decodes the metadata record that an external account's data holds, with
/// or without an account discriminator before it.
pub fn decode_external_metadata<T: ExternalMetadata>(data: &[u8]) -> (r: Result<
    T,
    ProjectCommentsError,
>)
    ensures
        match r {
            Ok(v) => external_metadata::<T>(data@) == Some(v@),
            Err(e) => external_metadata::<T>(data@) is None && e
                == ProjectCommentsError::InvalidSourceMetadata,
        },
{
    match T::try_from_slice(data) {
        Some(v) => Ok(v),
        None => {
            if data.len() <= DISCRIMINATOR_SIZE {
                return Err(ProjectCommentsError::InvalidSourceMetadata);
            }
            match T::try_from_slice(slice_subrange(data, DISCRIMINATOR_SIZE, data.len())) {
                Some(v) => {
                    assert(data@.subrange(DISCRIMINATOR_SIZE as int, data@.len() as int)
                        =~= data@.skip(DISCRIMINATOR_SIZE as int));
                    Ok(v)
                },
                None => {
                    assert(data@.subrange(DISCRIMINATOR_SIZE as int, data@.len() as int)
                        =~= data@.skip(DISCRIMINATOR_SIZE as int));
                    Err(ProjectCommentsError::InvalidSourceMetadata)
                },
            }
        },
    }
}

/// Decodes the post metadata that an external account's data holds.
pub fn read_post_meta_standard(data: &[u8]) -> (r: Result<PostMetaStandard, ProjectCommentsError>)
    ensures
        match r {
            Ok(v) => external_metadata::<PostMetaStandard>(data@) == Some(v@),
            Err(e) => external_metadata::<PostMetaStandard>(data@) is None && e
                == ProjectCommentsError::InvalidSourceMetadata,
        },
{
    decode_external_metadata::<PostMetaStandard>(data)
}

/// Decodes the user metadata that an external account's data holds.
pub fn read_user_meta_standard(data: &[u8]) -> (r: Result<UserMetaStandard, ProjectCommentsError>)
    ensures
        match r {
            Ok(v) => external_metadata::<UserMetaStandard>(data@) == Some(v@),
            Err(e) => external_metadata::<UserMetaStandard>(data@) is None && e
                == ProjectCommentsError::InvalidSourceMetadata,
        },
{
    decode_external_metadata::<UserMetaStandard>(data)
}

} // verus!

use project_comments::error::ProjectCommentsError;
use project_comments::key::Pubkey;
use project_comments::metadata::{
    decode_external_metadata, read_post_meta_standard, read_user_meta_standard, PostMetaStandard,
    UserMetaStandard,
};

fn post_bytes(is_public: u8, is_archived: u8) -> Vec<u8> {
    let mut v = Vec::new();
    v.extend_from_slice(&[1u8; 32]);
    v.extend_from_slice(&[2u8; 32]);
    v.extend_from_slice(&[3u8; 32]);
    v.extend_from_slice(&0x0102030405060708u64.to_le_bytes());
    v.push(is_public);
    v.push(is_archived);
    v
}

fn user_bytes(registered: u8, eligible: u8) -> Vec<u8> {
    let mut v = Vec::new();
    v.extend_from_slice(&[5u8; 32]);
    v.extend_from_slice(&[6u8; 32]);
    v.push(registered);
    v.push(eligible);
    v
}

fn expected_post() -> PostMetaStandard {
    PostMetaStandard {
        source_program_id: Pubkey::new_from_array([1; 32]),
        post_account: Pubkey::new_from_array([2; 32]),
        post_author: Pubkey::new_from_array([3; 32]),
        post_id: 0x0102030405060708,
        is_public: true,
        is_archived: false,
    }
}

#[test]
fn decodes_bare_post_metadata() {
    assert_eq!(read_post_meta_standard(&post_bytes(1, 0)), Ok(expected_post()));
}

#[test]
fn decodes_post_metadata_behind_a_discriminator() {
    let mut data = vec![9u8; 8];
    data.extend_from_slice(&post_bytes(1, 0));
    assert_eq!(read_post_meta_standard(&data), Ok(expected_post()));
}

#[test]
fn refuses_malformed_post_metadata() {
    let bad = Err(ProjectCommentsError::InvalidSourceMetadata);
    assert_eq!(read_post_meta_standard(&post_bytes(2, 0)), bad);
    assert_eq!(read_post_meta_standard(&post_bytes(1, 7)), bad);
    let mut short = post_bytes(1, 0);
    short.pop();
    assert_eq!(read_post_meta_standard(&short), bad);
    let mut long = post_bytes(1, 0);
    long.push(0);
    assert_eq!(read_post_meta_standard(&long), bad);
    assert_eq!(read_post_meta_standard(&[0u8; 8]), bad);
    assert_eq!(read_post_meta_standard(&[]), bad);
}

#[test]
fn decodes_user_metadata() {
    let expected = UserMetaStandard {
        source_program_id: Pubkey::new_from_array([5; 32]),
        user: Pubkey::new_from_array([6; 32]),
        is_registered: true,
        is_eligible_to_comment: false,
    };
    assert_eq!(read_user_meta_standard(&user_bytes(1, 0)), Ok(expected));
    let mut prefixed = vec![0u8; 8];
    prefixed.extend_from_slice(&user_bytes(1, 0));
    assert_eq!(decode_external_metadata::<UserMetaStandard>(&prefixed), Ok(expected));
    assert_eq!(
        read_user_meta_standard(&user_bytes(1, 3)),
        Err(ProjectCommentsError::InvalidSourceMetadata)
    );
}

use anchor_lang::prelude::Pubkey as AnchorPubkey;
use project_comments::error::ProjectCommentsError;
use project_comments::key::{program_id, Pubkey};
use project_comments::pda::{
    assert_canonical_pda, check_canonical_pda, make_comment_seeds, make_reaction_seeds,
    make_thread_seeds,
};

fn anchor_program_id() -> AnchorPubkey {
    AnchorPubkey::new_from_array(program_id().to_bytes())
}

#[test]
fn canonical_pda_helper_rejects_wrong_bump() {
    let seed_a = b"thread";
    let seed_b = AnchorPubkey::new_unique();
    let seeds: [&[u8]; 2] = [seed_a, seed_b.as_ref()];
    let (pda, bump) = AnchorPubkey::find_program_address(&seeds, &anchor_program_id());
    let pda = Pubkey::new_from_array(pda.to_bytes());
    let seed_vecs: Vec<Vec<u8>> = seeds.iter().map(|s| s.to_vec()).collect();
    assert!(assert_canonical_pda(&pda, &seed_vecs, bump).is_ok());
    assert!(assert_canonical_pda(&pda, &seed_vecs, bump.wrapping_add(1)).is_err());
}

#[test]
fn program_id_is_the_declared_address() {
    assert_eq!(
        anchor_program_id().to_string(),
        "3C9uAwPX6Bbx2CybpPa1pWA7kFh5xsQLCPA4hbvkHDWE"
    );
}

#[test]
fn canonical_pda_rejects_other_addresses() {
    let seeds: Vec<Vec<u8>> = vec![b"config".to_vec()];
    let (pda, bump) = AnchorPubkey::find_program_address(&[b"config"], &anchor_program_id());
    let pda = Pubkey::new_from_array(pda.to_bytes());
    assert_eq!(assert_canonical_pda(&pda, &seeds, bump), Ok(()));
    let other = Pubkey::new_from_array([1; 32]);
    assert_eq!(assert_canonical_pda(&other, &seeds, bump), Err(ProjectCommentsError::InvalidPda));
}

#[test]
fn canonical_pda_comparison() {
    let k = Pubkey::new_from_array([4; 32]);
    assert_eq!(check_canonical_pda(&k, 9, Some((k, 9))), Ok(()));
    assert_eq!(check_canonical_pda(&k, 8, Some((k, 9))), Err(ProjectCommentsError::InvalidPda));
    assert_eq!(
        check_canonical_pda(&k, 9, Some((Pubkey::new_from_array([5; 32]), 9))),
        Err(ProjectCommentsError::InvalidPda)
    );
    assert_eq!(check_canonical_pda(&k, 9, None), Err(ProjectCommentsError::InvalidPda));
}

#[test]
fn seeds_have_the_documented_shape() {
    let a = Pubkey::new_from_array([1; 32]);
    let b = Pubkey::new_from_array([2; 32]);
    assert_eq!(make_thread_seeds(&a, &b), vec![b"thread".to_vec(), vec![1; 32], vec![2; 32]]);
    assert_eq!(
        make_comment_seeds(&a, 258),
        vec![b"comment".to_vec(), vec![1; 32], vec![2, 1, 0, 0, 0, 0, 0, 0]]
    );
    assert_eq!(
        make_reaction_seeds(&a, &b, "like"),
        vec![b"reaction".to_vec(), vec![1; 32], vec![2; 32], b"like".to_vec()]
    );
}

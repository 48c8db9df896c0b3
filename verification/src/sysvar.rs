use vstd::prelude::*;

use anchor_lang::compat::solana_instructions_sysvar;
use anchor_lang::solana_program::account_info::AccountInfo;
use anchor_lang::prelude::Pubkey as Address;
use vstd::bytes::spec_u16_from_le_bytes;

use crate::accounts::RawAccount;
use crate::error::{outcome, ProjectCommentsError};
use crate::key::Pubkey;

verus! {

/// The address of the instructions sysvar,
/// `Sysvar1nstructions1111111111111111111111111`.
pub open spec fn instructions_sysvar_id_bytes() -> Seq<u8> {
    seq![
        6u8, 167, 213, 23, 24, 123, 209, 102, 53, 218, 212, 4, 85, 253, 194, 192,
        193, 36, 198, 143, 33, 86, 117, 165, 219, 186, 203, 95, 8, 0, 0, 0,
    ]
}

/// Whether loading the instruction at `index` out of instructions sysvar data
/// succeeds: the data's instruction count exceeds `index`, and the offset
/// table, account metas, program id and instruction data that it points to
/// all lie within the data.
pub uninterp spec fn instruction_at_loads(index: usize, data: Seq<u8>) -> bool;

/// The index of the executing instruction: the little-endian `u16` in the
/// last two bytes of instructions sysvar data.
pub open spec fn current_instruction_index(data: Seq<u8>) -> u16 {
    spec_u16_from_le_bytes(data.subrange(data.len() - 2, data.len() as int))
}

/// The address constant `ID` of the instructions sysvar module, whose
/// declaration reads `Sysvar1nstructions1111111111111111111111111`; the
/// contract gives the bytes that this base58 text stands for.
#[verifier::external_body]
fn instructions_sysvar_id() -> (k: Pubkey)
    ensures
        k@ == instructions_sysvar_id_bytes(),
{
    Pubkey { bytes: solana_instructions_sysvar::ID.to_bytes() }
}

/// Calls `load_current_index_checked` on an account with the given address
/// and data. Its source returns an error when the address is not the
/// instructions sysvar, and otherwise the little-endian `u16` held in the
/// last two bytes of the data; it panics on data shorter than two bytes,
/// which `requires` leaves out.
#[verifier::external_body]
fn load_current_index_checked(key: &Pubkey, data: &[u8]) -> (r: Option<u16>)
    requires
        key@ == instructions_sysvar_id_bytes() ==> data@.len() >= 2,
    ensures
        r is Some <==> key@ == instructions_sysvar_id_bytes(),
        r matches Some(i) ==> i == current_instruction_index(data@),
{
    let address = Address::new_from_array(key.bytes);
    let owner = Address::default();
    let mut lamports = 0u64;
    let mut buffer = data.to_vec();
    let info = AccountInfo::new(&address, false, false, &mut lamports, &mut buffer, &owner, false);
    solana_instructions_sysvar::load_current_index_checked(&info).ok()
}

/// Calls `load_instruction_at_checked` on an account with the given address
/// and data, and tells whether it returned an instruction. Its source
/// returns an error when the address is not the instructions sysvar, and
/// otherwise deserializes the instruction at `index`; the contract names
/// whether that deserialization succeeds, which depends on the index and the
/// data alone.
#[verifier::external_body]
fn load_instruction_at_checked(index: usize, key: &Pubkey, data: &[u8]) -> (r: bool)
    ensures
        r == (key@ == instructions_sysvar_id_bytes() && instruction_at_loads(index, data@)),
{
    let address = Address::new_from_array(key.bytes);
    let owner = Address::default();
    let mut lamports = 0u64;
    let mut buffer = data.to_vec();
    let info = AccountInfo::new(&address, false, false, &mut lamports, &mut buffer, &owner, false);
    solana_instructions_sysvar::load_instruction_at_checked(index, &info).is_ok()
}

/// Instructions sysvar data can be read for the current index: an account at
/// the sysvar's address holds at least the two bytes of that index.
pub open spec fn sysvar_data_readable(account: RawAccount) -> bool {
    account.key@ == instructions_sysvar_id_bytes() ==> account.data@.len() >= 2
}

/// The account is the instructions sysvar, and the executing instruction can
/// be loaded from it.
pub open spec fn instructions_sysvar_error(account: RawAccount) -> Option<ProjectCommentsError> {
    if account.key@ != instructions_sysvar_id_bytes() {
        Some(ProjectCommentsError::InvalidSysvarAccount)
    } else if !instruction_at_loads(
        current_instruction_index(account.data@) as usize,
        account.data@,
    ) {
        Some(ProjectCommentsError::InvalidInstructionIntrospection)
    } else {
        None
    }
}

/// What follows the attempt to load the executing instruction: refused
/// unless it was loaded.
pub fn introspection_outcome(loaded: bool) -> (r: Result<(), ProjectCommentsError>)
    ensures
        r == (if loaded {
            Ok(())
        } else {
            Err(ProjectCommentsError::InvalidInstructionIntrospection)
        }),
{
    if loaded {
        Ok(())
    } else {
        Err(ProjectCommentsError::InvalidInstructionIntrospection)
    }
}

/// Checks that the account is the instructions sysvar and that the executing
/// instruction can be read from it.
pub fn verify_instructions_sysvar(account: &RawAccount) -> (r: Result<(), ProjectCommentsError>)
    requires
        sysvar_data_readable(*account),
    ensures
        r == outcome(instructions_sysvar_error(*account)),
{
    let instructions_id = instructions_sysvar_id();
    if account.key != instructions_id {
        return Err(ProjectCommentsError::InvalidSysvarAccount);
    }
    let current_index = match load_current_index_checked(&account.key, account.data.as_slice()) {
        Some(index) => index,
        None => return Err(ProjectCommentsError::InvalidInstructionIntrospection),
    };
    let loaded = load_instruction_at_checked(
        current_index as usize,
        &account.key,
        account.data.as_slice(),
    );
    introspection_outcome(loaded)
}

} // verus!

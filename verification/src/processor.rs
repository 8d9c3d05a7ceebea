use vstd::prelude::*;

use crate::account::{key_eq, AccountInfo};
use crate::error::ProgramError;
use crate::instructions::create_record::create_record_readable;
use crate::instructions::delete_record::delete_record_readable;
use crate::instructions::freeze_record::freeze_record_readable;
use crate::instructions::freeze_tokenized_record::freeze_tokenized_record_readable;
use crate::instructions::mint_tokenized_record::mint_tokenized_record_readable;
use crate::instructions::transfer_record::transfer_record_readable;
use crate::instructions::transfer_tokenized_record::tokenized_readable;
use crate::instructions::update_record::update_record_readable;
use crate::state::class::{class_readable, Class};
use crate::state::record::{delegate_class_readable, record_readable, Record};
use crate::state::IS_PERMISSIONED_OFFSET;
use crate::token2022::constants::TOKEN_2022_PROGRAM_ID;
use crate::token2022::state::{token_account_readable, TOKEN_2022_ACCOUNT_DISCRIMINATOR_OFFSET};
use crate::ID;

verus! {

/// The instructions of the program, by the first byte of their data.
#[derive(Clone, Copy, PartialEq, Eq, Structural)]
pub enum RecordInstruction {
    CreateClass,
    UpdateClassMetadata,
    UpdateClassAuthority,
    FreezeClass,
    CreateRecord,
    UpdateRecordData,
    UpdateRecordExpiry,
    TransferRecord,
    DeleteRecord,
    FreezeRecord,
    MintTokenizedRecord,
    FreezeTokenizedRecord,
    TransferTokenizedRecord,
    BurnTokenizedRecord,
}

/// The instruction a first byte of instruction data selects.
pub open spec fn spec_instruction(discriminator: u8) -> Option<RecordInstruction> {
    if discriminator == 0 {
        Some(RecordInstruction::CreateClass)
    } else if discriminator == 1 {
        Some(RecordInstruction::UpdateClassMetadata)
    } else if discriminator == 2 {
        Some(RecordInstruction::UpdateClassAuthority)
    } else if discriminator == 3 {
        Some(RecordInstruction::FreezeClass)
    } else if discriminator == 4 {
        Some(RecordInstruction::CreateRecord)
    } else if discriminator == 5 {
        Some(RecordInstruction::UpdateRecordData)
    } else if discriminator == 6 {
        Some(RecordInstruction::UpdateRecordExpiry)
    } else if discriminator == 7 {
        Some(RecordInstruction::TransferRecord)
    } else if discriminator == 8 {
        Some(RecordInstruction::DeleteRecord)
    } else if discriminator == 9 {
        Some(RecordInstruction::FreezeRecord)
    } else if discriminator == 10 {
        Some(RecordInstruction::MintTokenizedRecord)
    } else if discriminator == 11 {
        Some(RecordInstruction::FreezeTokenizedRecord)
    } else if discriminator == 12 {
        Some(RecordInstruction::TransferTokenizedRecord)
    } else if discriminator == 13 {
        Some(RecordInstruction::BurnTokenizedRecord)
    } else {
        None
    }
}

/// Splits instruction data into the instruction its first byte selects and
/// the rest, which the instruction reads. Empty data, or a byte that selects
/// none, is refused.
pub fn decode_instruction(instruction_data: &[u8]) -> (r: Result<
    (RecordInstruction, &[u8]),
    ProgramError,
>)
    ensures
        instruction_data@.len() == 0 ==> r == Err::<(RecordInstruction, &[u8]), ProgramError>(
            ProgramError::InvalidInstructionData,
        ),
        instruction_data@.len() > 0 ==> match spec_instruction(instruction_data@[0]) {
            None => r == Err::<(RecordInstruction, &[u8]), ProgramError>(
                ProgramError::InvalidInstructionData,
            ),
            Some(k) => r matches Ok((i, rest)) && i == k && rest@ == instruction_data@.subrange(
                1,
                instruction_data@.len() as int,
            ),
        },
{
    if instruction_data.len() == 0 {
        return Err(ProgramError::InvalidInstructionData);
    }
    let discriminator = instruction_data[0];
    let data = &instruction_data[1..instruction_data.len()];
    let instruction = match discriminator {
        0 => RecordInstruction::CreateClass,
        1 => RecordInstruction::UpdateClassMetadata,
        2 => RecordInstruction::UpdateClassAuthority,
        3 => RecordInstruction::FreezeClass,
        4 => RecordInstruction::CreateRecord,
        5 => RecordInstruction::UpdateRecordData,
        6 => RecordInstruction::UpdateRecordExpiry,
        7 => RecordInstruction::TransferRecord,
        8 => RecordInstruction::DeleteRecord,
        9 => RecordInstruction::FreezeRecord,
        10 => RecordInstruction::MintTokenizedRecord,
        11 => RecordInstruction::FreezeTokenizedRecord,
        12 => RecordInstruction::TransferTokenizedRecord,
        13 => RecordInstruction::BurnTokenizedRecord,
        _ => {
            return Err(ProgramError::InvalidInstructionData);
        },
    };
    Ok((instruction, data))
}

/// Whether the fields an instruction reads of its accounts lie within them,
/// so that its checks read no byte past the end of an account.
pub open spec fn spec_accounts_readable(
    instruction: RecordInstruction,
    accounts: Seq<AccountInfo>,
) -> bool {
    match instruction {
        RecordInstruction::CreateClass => true,
        RecordInstruction::UpdateClassMetadata => accounts.len() == 4 ==> class_readable(
            accounts[2],
        ),
        RecordInstruction::UpdateClassAuthority => accounts.len() == 4 ==> class_readable(
            accounts[2],
        ),
        RecordInstruction::FreezeClass => accounts.len() == 2 ==> class_readable(accounts[1]),
        RecordInstruction::CreateRecord => create_record_readable(accounts),
        RecordInstruction::UpdateRecordData => update_record_readable(accounts),
        RecordInstruction::UpdateRecordExpiry => update_record_readable(accounts),
        RecordInstruction::TransferRecord => transfer_record_readable(accounts),
        RecordInstruction::DeleteRecord => delete_record_readable(accounts),
        RecordInstruction::FreezeRecord => freeze_record_readable(accounts),
        RecordInstruction::MintTokenizedRecord => mint_tokenized_record_readable(accounts),
        RecordInstruction::FreezeTokenizedRecord => freeze_tokenized_record_readable(accounts),
        RecordInstruction::TransferTokenizedRecord => tokenized_readable(accounts, 1, 2, 3, 6),
        RecordInstruction::BurnTokenizedRecord => tokenized_readable(accounts, 2, 3, 4, 6),
    }
}

fn is_class_readable(account: &AccountInfo) -> (b: bool)
    ensures
        b == class_readable(*account),
{
    if !key_eq(&account.owner, &ID) {
        return true;
    }
    let n = account.data.len();
    n >= 1 && (account.data[0] != Class::DISCRIMINATOR || n >= Class::MINIMUM_CLASS_SIZE)
}

fn is_record_readable(account: &AccountInfo) -> (b: bool)
    ensures
        b == record_readable(*account),
{
    if !key_eq(&account.owner, &ID) {
        return true;
    }
    let n = account.data.len();
    n >= 1 && (account.data[0] != Record::DISCRIMINATOR || n >= Record::MINIMUM_RECORD_SIZE)
}

fn is_delegate_class_readable(account: &AccountInfo) -> (b: bool)
    ensures
        b == delegate_class_readable(*account),
{
    !key_eq(&account.owner, &ID) || account.data.len() > IS_PERMISSIONED_OFFSET
}

fn is_token_account_readable(account: &AccountInfo) -> (b: bool)
    ensures
        b == token_account_readable(*account),
{
    !key_eq(&account.owner, &TOKEN_2022_PROGRAM_ID) || account.data.len()
        > TOKEN_2022_ACCOUNT_DISCRIMINATOR_OFFSET
}

fn is_tokenized_readable(
    accounts: &[AccountInfo],
    record: usize,
    mint: usize,
    token_account: usize,
    class: usize,
) -> (b: bool)
    requires
        record < token_account,
        mint < token_account,
    ensures
        b == tokenized_readable(accounts@, record as int, mint as int, token_account as int, class as int),
{
    (accounts.len() <= token_account || (is_record_readable(&accounts[record])
        && is_token_account_readable(&accounts[mint]) && is_token_account_readable(
        &accounts[token_account],
    ))) && (accounts.len() <= class || is_delegate_class_readable(&accounts[class]))
}

/// Whether an instruction may read its accounts, as
/// `spec_accounts_readable` says; where it may not, the program fails
/// before deciding anything.
pub fn accounts_readable(instruction: RecordInstruction, accounts: &[AccountInfo]) -> (b: bool)
    ensures
        b == spec_accounts_readable(instruction, accounts@),
{
    let n = accounts.len();
    match instruction {
        RecordInstruction::CreateClass => true,
        RecordInstruction::UpdateClassMetadata => n != 4 || is_class_readable(&accounts[2]),
        RecordInstruction::UpdateClassAuthority => n != 4 || is_class_readable(&accounts[2]),
        RecordInstruction::FreezeClass => n != 2 || is_class_readable(&accounts[1]),
        RecordInstruction::CreateRecord => n < 5 || is_class_readable(&accounts[2]),
        RecordInstruction::UpdateRecordData => n != 5 || (is_record_readable(&accounts[2])
            && is_class_readable(&accounts[3])),
        RecordInstruction::UpdateRecordExpiry => n != 5 || (is_record_readable(&accounts[2])
            && is_class_readable(&accounts[3])),
        RecordInstruction::TransferRecord => (n < 2 || is_record_readable(&accounts[1])) && (n < 3
            || is_delegate_class_readable(&accounts[2])),
        RecordInstruction::DeleteRecord => (n < 3 || is_record_readable(&accounts[2])) && (n < 4
            || (is_delegate_class_readable(&accounts[3]) && is_class_readable(&accounts[3]))),
        RecordInstruction::FreezeRecord => n != 3 || (is_record_readable(&accounts[1])
            && is_class_readable(&accounts[2])),
        RecordInstruction::MintTokenizedRecord => n != 11 || (is_record_readable(&accounts[3])
            && is_delegate_class_readable(&accounts[5]) && is_token_account_readable(
            &accounts[6],
        )),
        RecordInstruction::FreezeTokenizedRecord => n < 6 || (is_record_readable(&accounts[1])
            && is_token_account_readable(&accounts[2]) && is_token_account_readable(&accounts[3])
            && is_class_readable(&accounts[4])),
        RecordInstruction::TransferTokenizedRecord => is_tokenized_readable(accounts, 1, 2, 3, 6),
        RecordInstruction::BurnTokenizedRecord => is_tokenized_readable(accounts, 2, 3, 4, 6),
    }
}

} // verus!

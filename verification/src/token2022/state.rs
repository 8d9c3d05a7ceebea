use vstd::prelude::*;

use crate::account::{key_eq, AccountInfo, Pubkey};
use crate::error::ProgramError;
use crate::token2022::constants::{TOKEN_2022_PROGRAM_ID, TOKEN_IS_FROZEN_FLAG};
use crate::utils::{read_key, Pod};

verus! {

/// Where a Token-2022 account tells a mint (1) from a token account (2).
pub const TOKEN_2022_ACCOUNT_DISCRIMINATOR_OFFSET: usize = 165;

pub const MINT_DISCRIMINATOR: u8 = 0x01;

pub const TOKEN_ACCOUNT_DISCRIMINATOR: u8 = 0x02;

/// Where a mint keeps its supply.
pub const MINT_SUPPLY_OFFSET: usize = 36;

/// The length of a mint without extensions.
pub const MINT_BASE_LEN: usize = 82;

pub const TOKEN_MINT_OFFSET: usize = 0;

pub const TOKEN_OWNER_OFFSET: usize = 32;

pub const TOKEN_IS_FROZEN_OFFSET: usize = 108;

/// The length of a multisig account of the token program, which holds no
/// account type.
pub const MULTISIG_LEN: usize = 355;

/// Whether token program data is that of a mint: not a multisig, and typed
/// as a mint.
pub open spec fn is_mint_data(d: Seq<u8>) -> bool {
    d.len() != MULTISIG_LEN && d[TOKEN_2022_ACCOUNT_DISCRIMINATOR_OFFSET as int] == MINT_DISCRIMINATOR
}

/// Whether token program data is that of a token account: not a multisig,
/// and typed as a token account.
pub open spec fn is_token_account_data(d: Seq<u8>) -> bool {
    d.len() != MULTISIG_LEN && d[TOKEN_2022_ACCOUNT_DISCRIMINATOR_OFFSET as int]
        == TOKEN_ACCOUNT_DISCRIMINATOR
}

/// Whether an account of the token program is long enough to hold its
/// account type.
pub open spec fn token_account_readable(account: AccountInfo) -> bool {
    account.owner == TOKEN_2022_PROGRAM_ID ==> account.data@.len()
        > TOKEN_2022_ACCOUNT_DISCRIMINATOR_OFFSET
}

/// A Token-2022 mint account.
pub struct Mint<'info> {
    pub raw_data: &'info [u8],
}

impl<'info> Mint<'info> {
    pub fn check_program_id(account_info: &AccountInfo) -> (r: Result<(), ProgramError>)
        ensures
            r == if account_info.owner == TOKEN_2022_PROGRAM_ID {
                Ok::<(), ProgramError>(())
            } else {
                Err(ProgramError::IncorrectProgramId)
            },
    {
        if !key_eq(account_info.owner(), &TOKEN_2022_PROGRAM_ID) {
            return Err(ProgramError::IncorrectProgramId);
        }
        Ok(())
    }

    pub fn check_discriminator_unchecked(data: &[u8]) -> (r: Result<(), ProgramError>)
        requires
            data@.len() > TOKEN_2022_ACCOUNT_DISCRIMINATOR_OFFSET,
        ensures
            r == if is_mint_data(data@) {
                Ok::<(), ProgramError>(())
            } else {
                Err(ProgramError::InvalidAccountData)
            },
    {
        if data.len() == MULTISIG_LEN || data[TOKEN_2022_ACCOUNT_DISCRIMINATOR_OFFSET]
            != MINT_DISCRIMINATOR {
            return Err(ProgramError::InvalidAccountData);
        }
        Ok(())
    }

    /// Whether the account is an initialized mint of the token program.
    pub fn check_initialized(account_info: &AccountInfo) -> (r: Result<bool, ProgramError>)
        requires
            token_account_readable(*account_info),
        ensures
            r == Ok::<bool, ProgramError>(
                account_info.owner == TOKEN_2022_PROGRAM_ID && is_mint_data(account_info.data@),
            ),
    {
        if !key_eq(account_info.owner(), &TOKEN_2022_PROGRAM_ID) {
            return Ok(false);
        }
        let data = account_info.try_borrow_data();
        if data.len() == MULTISIG_LEN || data[TOKEN_2022_ACCOUNT_DISCRIMINATOR_OFFSET]
            != MINT_DISCRIMINATOR {
            return Ok(false);
        }
        Ok(true)
    }

    /// The supply of a mint of the token program.
    pub fn get_supply(account_info: &AccountInfo) -> (r: Result<u64, ProgramError>)
        ensures
            r == if account_info.owner != TOKEN_2022_PROGRAM_ID {
                Err(ProgramError::IncorrectProgramId)
            } else if account_info.data@.len() < MINT_BASE_LEN {
                Err(ProgramError::InvalidAccountData)
            } else {
                Ok(
                    u64::spec_decode(
                        account_info.data@.subrange(
                            MINT_SUPPLY_OFFSET as int,
                            MINT_SUPPLY_OFFSET + 8,
                        ),
                    )->0,
                )
            },
    {
        Self::check_program_id(account_info)?;
        let data = account_info.try_borrow_data();
        if data.len() < MINT_BASE_LEN {
            return Err(ProgramError::InvalidAccountData);
        }
        match u64::decode(&data[MINT_SUPPLY_OFFSET..MINT_SUPPLY_OFFSET + 8]) {
            Some(supply) => Ok(supply),
            None => Err(ProgramError::InvalidAccountData),
        }
    }
}

/// A Token-2022 token account.
pub struct Token<'info> {
    pub raw_data: &'info [u8],
}

impl<'info> Token<'info> {
    pub fn check_program_id(account_info: &AccountInfo) -> (r: Result<(), ProgramError>)
        ensures
            r == if account_info.owner == TOKEN_2022_PROGRAM_ID {
                Ok::<(), ProgramError>(())
            } else {
                Err(ProgramError::IncorrectProgramId)
            },
    {
        if !key_eq(account_info.owner(), &TOKEN_2022_PROGRAM_ID) {
            return Err(ProgramError::IncorrectProgramId);
        }
        Ok(())
    }

    pub fn check_discriminator_unchecked(data: &[u8]) -> (r: Result<(), ProgramError>)
        requires
            data@.len() > TOKEN_2022_ACCOUNT_DISCRIMINATOR_OFFSET,
        ensures
            r == if is_token_account_data(data@) {
                Ok::<(), ProgramError>(())
            } else {
                Err(ProgramError::InvalidAccountData)
            },
    {
        if data.len() == MULTISIG_LEN || data[TOKEN_2022_ACCOUNT_DISCRIMINATOR_OFFSET]
            != TOKEN_ACCOUNT_DISCRIMINATOR {
            return Err(ProgramError::InvalidAccountData);
        }
        Ok(())
    }

    pub fn get_mint_address_unchecked(data: &[u8]) -> (r: Result<Pubkey, ProgramError>)
        requires
            data@.len() >= TOKEN_MINT_OFFSET + 32,
        ensures
            r matches Ok(k) && k@ == data@.subrange(
                TOKEN_MINT_OFFSET as int,
                TOKEN_MINT_OFFSET + 32,
            ),
    {
        Ok(read_key(&data[TOKEN_MINT_OFFSET..TOKEN_MINT_OFFSET + 32]))
    }

    pub fn get_owner_unchecked(data: &[u8]) -> (r: Result<Pubkey, ProgramError>)
        requires
            data@.len() >= TOKEN_OWNER_OFFSET + 32,
        ensures
            r matches Ok(k) && k@ == data@.subrange(
                TOKEN_OWNER_OFFSET as int,
                TOKEN_OWNER_OFFSET + 32,
            ),
    {
        Ok(read_key(&data[TOKEN_OWNER_OFFSET..TOKEN_OWNER_OFFSET + 32]))
    }

    pub fn get_is_frozen_unchecked(data: &[u8]) -> (r: Result<bool, ProgramError>)
        requires
            data@.len() > TOKEN_IS_FROZEN_OFFSET,
        ensures
            r == Ok::<bool, ProgramError>(
                data@[TOKEN_IS_FROZEN_OFFSET as int] == TOKEN_IS_FROZEN_FLAG,
            ),
    {
        Ok(data[TOKEN_IS_FROZEN_OFFSET] == TOKEN_IS_FROZEN_FLAG)
    }
}

} // verus!

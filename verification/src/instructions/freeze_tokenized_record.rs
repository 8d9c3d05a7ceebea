use vstd::prelude::*;

use crate::account::{bytes_eq, AccountInfo, Pubkey};
use crate::cpi::{is_token_cpi, token_cpi, Cpi, SignerSeeds};
use crate::error::ProgramError;
use crate::state::class::{class_readable, spec_check_authority, Class};
use crate::state::record::{
    record_class, record_owner, record_readable, spec_check_program_id_and_discriminator, Record,
    CLASS_OFFSET, OWNER_OFFSET,
};
use crate::token2022::constants::{TOKEN_2022_PROGRAM_ID, TOKEN_IS_FROZEN_FLAG};
use crate::token2022::state::{
    is_mint_data, is_token_account_data, token_account_readable, TOKEN_IS_FROZEN_OFFSET,
};
use crate::token2022::{FreezeAccount, Mint, ThawAccount, Token};
use crate::utils::{spec_read, ByteReader, Context};

verus! {

/// The accounts of `FreezeTokenizedRecord`: the class authority, which
/// signs, the record, its mint, the token account that holds its token, the
/// class and the token program.
pub struct FreezeTokenizedRecordAccounts {
    pub authority: Pubkey,
    pub record: Pubkey,
    pub mint: Pubkey,
    pub token_account: Pubkey,
}

/// What can be read of the accounts handed to `FreezeTokenizedRecord`.
pub open spec fn freeze_tokenized_record_readable(accounts: Seq<AccountInfo>) -> bool {
    accounts.len() >= 6 ==> {
        &&& record_readable(accounts[1])
        &&& token_account_readable(accounts[2])
        &&& token_account_readable(accounts[3])
        &&& class_readable(accounts[4])
    }
}

impl FreezeTokenizedRecordAccounts {
    pub open spec fn spec_try_from(accounts: Seq<AccountInfo>) -> Result<Self, ProgramError> {
        let authority = accounts[0];
        let record = accounts[1];
        let mint = accounts[2];
        let token_account = accounts[3];
        let class = accounts[4];
        if accounts.len() < 6 {
            Err(ProgramError::NotEnoughAccountKeys)
        } else if spec_check_authority(class, authority) is Err {
            Err(spec_check_authority(class, authority)->Err_0)
        } else if spec_check_program_id_and_discriminator(record) is Err {
            Err(spec_check_program_id_and_discriminator(record)->Err_0)
        } else if class.key@ != record_class(record.data@) {
            Err(ProgramError::InvalidAccountData)
        } else if mint.owner != TOKEN_2022_PROGRAM_ID {
            Err(ProgramError::IncorrectProgramId)
        } else if !is_mint_data(mint.data@) {
            Err(ProgramError::InvalidAccountData)
        } else if mint.key@ != record_owner(record.data@) {
            Err(ProgramError::InvalidAccountData)
        } else if token_account.owner != TOKEN_2022_PROGRAM_ID {
            Err(ProgramError::IncorrectProgramId)
        } else if !is_token_account_data(token_account.data@) {
            Err(ProgramError::InvalidAccountData)
        } else {
            Ok(
                FreezeTokenizedRecordAccounts {
                    authority: authority.key,
                    record: record.key,
                    mint: mint.key,
                    token_account: token_account.key,
                },
            )
        }
    }

    pub fn try_from(accounts: &[AccountInfo]) -> (r: Result<Self, ProgramError>)
        requires
            freeze_tokenized_record_readable(accounts@),
        ensures
            r == Self::spec_try_from(accounts@),
    {
        if accounts.len() < 6 {
            return Err(ProgramError::NotEnoughAccountKeys);
        }
        let authority = &accounts[0];
        let record = &accounts[1];
        let mint = &accounts[2];
        let token_account = &accounts[3];
        let class = &accounts[4];
        Class::check_authority(class, authority)?;
        Record::check_program_id_and_discriminator(record)?;
        let record_data = record.try_borrow_data();
        if !bytes_eq(class.key().as_slice(), &record_data[CLASS_OFFSET..CLASS_OFFSET + 32]) {
            return Err(ProgramError::InvalidAccountData);
        }
        Mint::check_program_id(mint)?;
        Mint::check_discriminator_unchecked(mint.try_borrow_data())?;
        if !bytes_eq(mint.key().as_slice(), &record_data[OWNER_OFFSET..OWNER_OFFSET + 32]) {
            return Err(ProgramError::InvalidAccountData);
        }
        Token::check_program_id(token_account)?;
        Token::check_discriminator_unchecked(token_account.try_borrow_data())?;
        Ok(
            FreezeTokenizedRecordAccounts {
                authority: authority.key,
                record: record.key,
                mint: mint.key,
                token_account: token_account.key,
            },
        )
    }
}

/// Freezes or thaws the token account that holds the token of a record; the
/// mint, freeze authority of its token, signs.
///
/// Data: one byte, 1 to freeze or 0 to thaw.
pub struct FreezeTokenizedRecord {
    pub accounts: FreezeTokenizedRecordAccounts,
    pub is_frozen: bool,
}

/// Minimum length of instruction data required for FreezeTokenizedRecord
pub const FREEZE_TOKENIZED_RECORD_MIN_IX_LENGTH: usize = 1;

impl FreezeTokenizedRecord {
    pub open spec fn spec_try_from(accounts: Seq<AccountInfo>, data: Seq<u8>) -> Result<
        Self,
        ProgramError,
    > {
        match FreezeTokenizedRecordAccounts::spec_try_from(accounts) {
            Err(e) => Err(e),
            Ok(a) => if data.len() < FREEZE_TOKENIZED_RECORD_MIN_IX_LENGTH {
                Err(ProgramError::InvalidArgument)
            } else {
                match spec_read::<bool>(data, 0) {
                    Some(b) => Ok(FreezeTokenizedRecord { accounts: a, is_frozen: b }),
                    None => Err(ProgramError::InvalidInstructionData),
                }
            },
        }
    }

    pub fn try_from(ctx: &Context) -> (r: Result<Self, ProgramError>)
        requires
            freeze_tokenized_record_readable(ctx.accounts@),
        ensures
            r == Self::spec_try_from(ctx.accounts@, ctx.data@),
    {
        let accounts = FreezeTokenizedRecordAccounts::try_from(ctx.accounts)?;
        if ctx.data.len() < FREEZE_TOKENIZED_RECORD_MIN_IX_LENGTH {
            return Err(ProgramError::InvalidArgument);
        }
        let is_frozen: bool = ByteReader::read_with_offset(ctx.data, 0)?;
        Ok(FreezeTokenizedRecord { accounts, is_frozen })
    }

    /// `mint_address` is the program address found for `["mint", record]`,
    /// whose bump signs for the mint. Asking for the state the token account
    /// is already in is refused.
    pub fn execute(&self, accounts: &[AccountInfo], mint_address: Option<(Pubkey, u8)>) -> (r:
        Result<Vec<Cpi>, ProgramError>)
        requires
            FreezeTokenizedRecordAccounts::spec_try_from(accounts@) == Ok::<
                FreezeTokenizedRecordAccounts,
                ProgramError,
            >(self.accounts),
            freeze_tokenized_record_readable(accounts@),
        ensures
            ({
                let frozen = accounts@[3].data@[TOKEN_IS_FROZEN_OFFSET as int]
                    == TOKEN_IS_FROZEN_FLAG;
                let signers = seq![
                    SignerSeeds::Mint { record: self.accounts.record, bump: (mint_address->0).1 },
                ];
                if frozen == self.is_frozen {
                    r == Err::<Vec<Cpi>, ProgramError>(ProgramError::InvalidArgument)
                } else if mint_address is None {
                    r == Err::<Vec<Cpi>, ProgramError>(ProgramError::InvalidArgument)
                } else if self.is_frozen {
                    r matches Ok(plan) && plan@.len() == 1 && is_token_cpi(
                        plan@[0],
                        FreezeAccount {
                            account: self.accounts.token_account,
                            mint: self.accounts.mint,
                            freeze_authority: self.accounts.mint,
                        },
                        signers,
                    )
                } else {
                    r matches Ok(plan) && plan@.len() == 1 && is_token_cpi(
                        plan@[0],
                        ThawAccount {
                            account: self.accounts.token_account,
                            mint: self.accounts.mint,
                            freeze_authority: self.accounts.mint,
                        },
                        signers,
                    )
                }
            }),
    {
        let is_frozen = Token::get_is_frozen_unchecked(accounts[3].try_borrow_data())?;
        if is_frozen == self.is_frozen {
            return Err(ProgramError::InvalidArgument);
        }
        let bump = match mint_address {
            Some((_, bump)) => bump,
            None => {
                return Err(ProgramError::InvalidArgument);
            },
        };
        let mut signers = Vec::new();
        signers.push(SignerSeeds::Mint { record: self.accounts.record, bump });
        let mut plan = Vec::new();
        if self.is_frozen {
            plan.push(
                token_cpi(
                    &FreezeAccount {
                        account: self.accounts.token_account,
                        mint: self.accounts.mint,
                        freeze_authority: self.accounts.mint,
                    },
                    signers,
                ),
            );
        } else {
            plan.push(
                token_cpi(
                    &ThawAccount {
                        account: self.accounts.token_account,
                        mint: self.accounts.mint,
                        freeze_authority: self.accounts.mint,
                    },
                    signers,
                ),
            );
        }
        Ok(plan)
    }
}

} // verus!

use vstd::prelude::*;

use crate::account::{bytes_eq, take_account, with_data, AccountInfo, Pubkey};
use crate::error::ProgramError;
use crate::state::class::{class_readable, spec_check_authority, Class};
use crate::state::record::{
    record_class, record_readable, spec_check_program_id_and_discriminator,
    spec_update_is_frozen, Record, CLASS_OFFSET,
};
use crate::utils::{ByteReader, Context};

verus! {

/// The accounts of `FreezeRecord`: the class authority, which signs, the
/// record and its class.
pub struct FreezeRecordAccounts {
    pub authority: Pubkey,
    pub record: Pubkey,
    pub class: Pubkey,
}

/// What can be read of the accounts handed to `FreezeRecord`.
pub open spec fn freeze_record_readable(accounts: Seq<AccountInfo>) -> bool {
    accounts.len() == 3 ==> record_readable(accounts[1]) && class_readable(accounts[2])
}

impl FreezeRecordAccounts {
    pub open spec fn spec_try_from(accounts: Seq<AccountInfo>) -> Result<Self, ProgramError> {
        if accounts.len() != 3 {
            Err(ProgramError::NotEnoughAccountKeys)
        } else if spec_check_authority(accounts[2], accounts[0]) is Err {
            Err(spec_check_authority(accounts[2], accounts[0])->Err_0)
        } else if spec_check_program_id_and_discriminator(accounts[1]) is Err {
            Err(spec_check_program_id_and_discriminator(accounts[1])->Err_0)
        } else if accounts[2].key@ != record_class(accounts[1].data@) {
            Err(ProgramError::InvalidAccountData)
        } else {
            Ok(
                FreezeRecordAccounts {
                    authority: accounts[0].key,
                    record: accounts[1].key,
                    class: accounts[2].key,
                },
            )
        }
    }

    pub fn try_from(accounts: &[AccountInfo]) -> (r: Result<Self, ProgramError>)
        requires
            freeze_record_readable(accounts@),
        ensures
            r == Self::spec_try_from(accounts@),
    {
        if accounts.len() != 3 {
            return Err(ProgramError::NotEnoughAccountKeys);
        }
        let authority = &accounts[0];
        let record = &accounts[1];
        let class = &accounts[2];
        Class::check_authority(class, authority)?;
        Record::check_program_id_and_discriminator(record)?;
        let record_data = record.try_borrow_data();
        if !bytes_eq(class.key().as_slice(), &record_data[CLASS_OFFSET..CLASS_OFFSET + 32]) {
            return Err(ProgramError::InvalidAccountData);
        }
        Ok(FreezeRecordAccounts { authority: authority.key, record: record.key, class: class.key })
    }
}

/// Freezes or unfreezes a record; only the class authority may.
///
/// Data: one byte, 1 to freeze or 0 to unfreeze.
pub struct FreezeRecord {
    pub accounts: FreezeRecordAccounts,
    pub is_frozen: bool,
}

/// Minimum length of instruction data required for FreezeRecord
pub const FREEZE_RECORD_MIN_IX_LENGTH: usize = 1;

impl FreezeRecord {
    pub open spec fn spec_try_from(accounts: Seq<AccountInfo>, data: Seq<u8>) -> Result<
        Self,
        ProgramError,
    > {
        match FreezeRecordAccounts::spec_try_from(accounts) {
            Err(e) => Err(e),
            Ok(a) => if data.len() < FREEZE_RECORD_MIN_IX_LENGTH {
                Err(ProgramError::InvalidArgument)
            } else if data[0] == 0 {
                Ok(FreezeRecord { accounts: a, is_frozen: false })
            } else if data[0] == 1 {
                Ok(FreezeRecord { accounts: a, is_frozen: true })
            } else {
                Err(ProgramError::InvalidInstructionData)
            },
        }
    }

    pub fn try_from(ctx: &Context) -> (r: Result<Self, ProgramError>)
        requires
            freeze_record_readable(ctx.accounts@),
        ensures
            r == Self::spec_try_from(ctx.accounts@, ctx.data@),
    {
        let accounts = FreezeRecordAccounts::try_from(ctx.accounts)?;
        if ctx.data.len() < FREEZE_RECORD_MIN_IX_LENGTH {
            return Err(ProgramError::InvalidArgument);
        }
        let raw_is_frozen: u8 = ByteReader::read_with_offset(ctx.data, 0)?;
        let is_frozen = match raw_is_frozen {
            0 => false,
            1 => true,
            _ => {
                return Err(ProgramError::InvalidInstructionData);
            },
        };
        Ok(FreezeRecord { accounts, is_frozen })
    }

    pub fn execute(&self, accounts: &mut Vec<AccountInfo>)
        requires
            FreezeRecordAccounts::spec_try_from(old(accounts)@) == Ok::<
                FreezeRecordAccounts,
                ProgramError,
            >(self.accounts),
            freeze_record_readable(old(accounts)@),
        ensures
            with_data(
                old(accounts)@,
                final(accounts)@,
                1,
                spec_update_is_frozen(old(accounts)@[1].data@, self.is_frozen),
            ),
    {
        let ghost before = accounts@;
        let mut record = take_account(accounts, 1);
        let _ = Record::update_is_frozen_unchecked(record.data.as_mut_slice(), self.is_frozen);
        accounts.set(1, record);
        proof {
            assert(accounts@ =~= before.update(1, accounts@[1]));
        }
    }

    pub fn process(accounts: &mut Vec<AccountInfo>, data: &[u8]) -> (r: Result<(), ProgramError>)
        requires
            freeze_record_readable(old(accounts)@),
        ensures
            match Self::spec_try_from(old(accounts)@, data@) {
                Err(e) => r == Err::<(), ProgramError>(e) && final(accounts)@ == old(accounts)@,
                Ok(ix) => r is Ok && with_data(
                    old(accounts)@,
                    final(accounts)@,
                    1,
                    spec_update_is_frozen(old(accounts)@[1].data@, ix.is_frozen),
                ),
            },
    {
        let ix = Self::try_from(&Context { accounts: accounts.as_slice(), data })?;
        ix.execute(accounts);
        Ok(())
    }
}

} // verus!

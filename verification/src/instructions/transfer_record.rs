use vstd::prelude::*;

use crate::account::{account_at, get_account, take_account, with_data, AccountInfo, Pubkey};
use crate::error::ProgramError;
use crate::state::record::{
    delegate_class_readable, record_readable, spec_check_owner_or_delegate, spec_update_owner,
    Record,
};
use crate::utils::{spec_read, ByteReader, Context};

verus! {

/// The accounts of `TransferRecord`: the record owner or a delegate, which
/// signs, the record, and the class when a delegate signs.
pub struct TransferRecordAccounts {
    pub authority: Pubkey,
    pub record: Pubkey,
}

/// What can be read of the accounts handed to `TransferRecord`.
pub open spec fn transfer_record_readable(accounts: Seq<AccountInfo>) -> bool {
    &&& accounts.len() >= 2 ==> record_readable(accounts[1])
    &&& accounts.len() >= 3 ==> delegate_class_readable(accounts[2])
}

impl TransferRecordAccounts {
    pub open spec fn spec_try_from(accounts: Seq<AccountInfo>) -> Result<Self, ProgramError> {
        if accounts.len() < 2 {
            Err(ProgramError::NotEnoughAccountKeys)
        } else {
            match spec_check_owner_or_delegate(accounts[1], account_at(accounts, 2), accounts[0]) {
                Err(e) => Err(e),
                Ok(_) => Ok(TransferRecordAccounts { authority: accounts[0].key, record: accounts[1].key }),
            }
        }
    }

    pub fn try_from(accounts: &[AccountInfo]) -> (r: Result<Self, ProgramError>)
        requires
            transfer_record_readable(accounts@),
        ensures
            r == Self::spec_try_from(accounts@),
    {
        if accounts.len() < 2 {
            return Err(ProgramError::NotEnoughAccountKeys);
        }
        Record::check_owner_or_delegate(&accounts[1], get_account(accounts, 2), &accounts[0])?;
        Ok(TransferRecordAccounts { authority: accounts[0].key, record: accounts[1].key })
    }
}

/// Hands a record to a new owner; a frozen record is refused.
///
/// Data: the new owner.
pub struct TransferRecord {
    pub accounts: TransferRecordAccounts,
    pub new_owner: Pubkey,
}

/// Minimum length of instruction data required for TransferRecord
pub const TRANSFER_RECORD_MIN_IX_LENGTH: usize = 32;

impl TransferRecord {
    pub open spec fn spec_try_from(accounts: Seq<AccountInfo>, data: Seq<u8>) -> Result<
        Self,
        ProgramError,
    > {
        match TransferRecordAccounts::spec_try_from(accounts) {
            Err(e) => Err(e),
            Ok(a) => if data.len() < TRANSFER_RECORD_MIN_IX_LENGTH {
                Err(ProgramError::InvalidArgument)
            } else {
                Ok(TransferRecord { accounts: a, new_owner: spec_read::<Pubkey>(data, 0)->0 })
            },
        }
    }

    pub fn try_from(ctx: &Context) -> (r: Result<Self, ProgramError>)
        requires
            transfer_record_readable(ctx.accounts@),
        ensures
            r == Self::spec_try_from(ctx.accounts@, ctx.data@),
    {
        let accounts = TransferRecordAccounts::try_from(ctx.accounts)?;
        if ctx.data.len() < TRANSFER_RECORD_MIN_IX_LENGTH {
            return Err(ProgramError::InvalidArgument);
        }
        let new_owner: Pubkey = ByteReader::read_with_offset(ctx.data, 0)?;
        Ok(TransferRecord { accounts, new_owner })
    }

    pub fn execute(&self, accounts: &mut Vec<AccountInfo>) -> (r: Result<(), ProgramError>)
        requires
            TransferRecordAccounts::spec_try_from(old(accounts)@) == Ok::<
                TransferRecordAccounts,
                ProgramError,
            >(self.accounts),
            transfer_record_readable(old(accounts)@),
        ensures
            r == spec_update_owner(old(accounts)@[1].data@, self.new_owner).0,
            with_data(
                old(accounts)@,
                final(accounts)@,
                1,
                spec_update_owner(old(accounts)@[1].data@, self.new_owner).1,
            ),
    {
        let ghost before = accounts@;
        let mut record = take_account(accounts, 1);
        let r = Record::update_owner_unchecked(record.data.as_mut_slice(), &self.new_owner);
        accounts.set(1, record);
        proof {
            assert(accounts@ =~= before.update(1, accounts@[1]));
        }
        r
    }

    pub fn process(accounts: &mut Vec<AccountInfo>, data: &[u8]) -> (r: Result<(), ProgramError>)
        requires
            transfer_record_readable(old(accounts)@),
        ensures
            match Self::spec_try_from(old(accounts)@, data@) {
                Err(e) => r == Err::<(), ProgramError>(e) && final(accounts)@ == old(accounts)@,
                Ok(ix) => {
                    &&& r == spec_update_owner(old(accounts)@[1].data@, ix.new_owner).0
                    &&& with_data(
                        old(accounts)@,
                        final(accounts)@,
                        1,
                        spec_update_owner(old(accounts)@[1].data@, ix.new_owner).1,
                    )
                },
            },
    {
        let ix = Self::try_from(&Context { accounts: accounts.as_slice(), data })?;
        ix.execute(accounts)
    }
}

} // verus!

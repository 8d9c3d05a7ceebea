use vstd::prelude::*;

use crate::account::{take_account, with_data, AccountInfo, Pubkey};
use crate::error::ProgramError;
use crate::state::class::{class_readable, spec_check_authority, Class, IS_FROZEN_OFFSET};
use crate::utils::{spec_read, ByteReader, Context};

verus! {

/// The accounts of `FreezeClass`: the class authority, which signs, and the
/// class.
pub struct FreezeClassAccounts {
    pub authority: Pubkey,
    pub class: Pubkey,
}

impl FreezeClassAccounts {
    pub open spec fn spec_try_from(accounts: Seq<AccountInfo>) -> Result<Self, ProgramError> {
        if accounts.len() != 2 {
            Err(ProgramError::NotEnoughAccountKeys)
        } else if !accounts[0].is_signer {
            Err(ProgramError::MissingRequiredSignature)
        } else {
            Ok(FreezeClassAccounts { authority: accounts[0].key, class: accounts[1].key })
        }
    }

    pub fn try_from(accounts: &[AccountInfo]) -> (r: Result<Self, ProgramError>)
        ensures
            r == Self::spec_try_from(accounts@),
    {
        if accounts.len() != 2 {
            return Err(ProgramError::NotEnoughAccountKeys);
        }
        if !accounts[0].is_signer() {
            return Err(ProgramError::MissingRequiredSignature);
        }
        Ok(FreezeClassAccounts { authority: accounts[0].key, class: accounts[1].key })
    }
}

/// Freezes or unfreezes a class; a frozen class takes no new records.
///
/// Data: one byte, 1 to freeze or 0 to unfreeze.
pub struct FreezeClass {
    pub accounts: FreezeClassAccounts,
    pub is_frozen: bool,
}

/// Minimum length of instruction data required for FreezeClass
pub const FREEZE_CLASS_MIN_IX_LENGTH: usize = 1;

impl FreezeClass {
    pub open spec fn spec_try_from(accounts: Seq<AccountInfo>, data: Seq<u8>) -> Result<
        Self,
        ProgramError,
    > {
        match FreezeClassAccounts::spec_try_from(accounts) {
            Err(e) => Err(e),
            Ok(a) => if data.len() < FREEZE_CLASS_MIN_IX_LENGTH {
                Err(ProgramError::InvalidArgument)
            } else {
                match spec_read::<bool>(data, 0) {
                    Some(b) => Ok(FreezeClass { accounts: a, is_frozen: b }),
                    None => Err(ProgramError::InvalidInstructionData),
                }
            },
        }
    }

    pub fn try_from(ctx: &Context) -> (r: Result<Self, ProgramError>)
        ensures
            r == Self::spec_try_from(ctx.accounts@, ctx.data@),
    {
        let accounts = FreezeClassAccounts::try_from(ctx.accounts)?;
        if ctx.data.len() < FREEZE_CLASS_MIN_IX_LENGTH {
            return Err(ProgramError::InvalidArgument);
        }
        let mut data = ByteReader::new(ctx.data);
        let is_frozen: bool = match data.read() {
            Ok(b) => b,
            Err(e) => {
                return Err(e);
            },
        };
        Ok(FreezeClass { accounts, is_frozen })
    }

    /// The class as it is after a successful freeze: its frozen byte set.
    pub open spec fn frozen_data(&self, class_data: Seq<u8>) -> Seq<u8> {
        class_data.update(IS_FROZEN_OFFSET as int, if self.is_frozen { 1u8 } else { 0u8 })
    }

    /// The class must be a class of the program, held by the authority.
    pub fn execute(&self, accounts: &mut Vec<AccountInfo>) -> (r: Result<(), ProgramError>)
        requires
            FreezeClassAccounts::spec_try_from(old(accounts)@) == Ok::<
                FreezeClassAccounts,
                ProgramError,
            >(self.accounts),
            class_readable(old(accounts)@[1]),
        ensures
            r == spec_check_authority(old(accounts)@[1], old(accounts)@[0]),
            r is Ok ==> with_data(
                old(accounts)@,
                final(accounts)@,
                1,
                self.frozen_data(old(accounts)@[1].data@),
            ),
            r is Err ==> final(accounts)@ == old(accounts)@,
    {
        Class::check_program_id(&accounts[1])?;
        Class::check_discriminator_unchecked(accounts[1].data.as_slice())?;
        Class::check_authority_unchecked(accounts[1].data.as_slice(), &accounts[0])?;
        let ghost before = accounts@;
        let mut class = take_account(accounts, 1);
        let r = Class::update_is_frozen_unchecked(&mut class, &accounts[0], self.is_frozen);
        accounts.set(1, class);
        proof {
            assert(accounts@ =~= before.update(1, accounts@[1]));
        }
        r
    }

    pub fn process(accounts: &mut Vec<AccountInfo>, data: &[u8]) -> (r: Result<(), ProgramError>)
        requires
            old(accounts)@.len() == 2 ==> class_readable(old(accounts)@[1]),
        ensures
            match Self::spec_try_from(old(accounts)@, data@) {
                Err(e) => r == Err::<(), ProgramError>(e) && final(accounts)@ == old(accounts)@,
                Ok(ix) => {
                    &&& r == spec_check_authority(old(accounts)@[1], old(accounts)@[0])
                    &&& r is Ok ==> with_data(
                        old(accounts)@,
                        final(accounts)@,
                        1,
                        ix.frozen_data(old(accounts)@[1].data@),
                    )
                    &&& r is Err ==> final(accounts)@ == old(accounts)@
                },
            },
    {
        let ix = Self::try_from(&Context { accounts: accounts.as_slice(), data })?;
        ix.execute(accounts)
    }
}

} // verus!

use vstd::prelude::*;
use vstd::string::StringSliceAdditionalSpecFns;

use crate::account::{take_account, with_data, with_two_accounts, AccountInfo, Pubkey};
use crate::constants::MAX_METADATA_LEN;
use crate::cpi::Cpi;
use crate::error::ProgramError;
use crate::state::class::{
    class_readable, spec_check_authority, Class, AUTHORITY_OFFSET, NAME_LEN_OFFSET,
};
use crate::utils::{
    copy_bytes, resize_balances, resized, spec_read, spec_read_str, splice, ByteReader, Context,
};

verus! {

/// The accounts of the class updates: the class authority, which signs, the
/// payer of any rent, the class and the system program.
pub struct UpdateClassAccounts {
    pub authority: Pubkey,
    pub payer: Pubkey,
    pub class: Pubkey,
}

impl UpdateClassAccounts {
    pub open spec fn spec_try_from(accounts: Seq<AccountInfo>) -> Result<Self, ProgramError> {
        if accounts.len() != 4 {
            Err(ProgramError::NotEnoughAccountKeys)
        } else if spec_check_authority(accounts[2], accounts[0]) is Err {
            Err(spec_check_authority(accounts[2], accounts[0])->Err_0)
        } else {
            Ok(
                UpdateClassAccounts {
                    authority: accounts[0].key,
                    payer: accounts[1].key,
                    class: accounts[2].key,
                },
            )
        }
    }

    pub fn try_from(accounts: &[AccountInfo]) -> (r: Result<Self, ProgramError>)
        requires
            accounts@.len() == 4 ==> class_readable(accounts@[2]),
        ensures
            r == Self::spec_try_from(accounts@),
    {
        if accounts.len() != 4 {
            return Err(ProgramError::NotEnoughAccountKeys);
        }
        Class::check_authority(&accounts[2], &accounts[0])?;
        Ok(
            UpdateClassAccounts {
                authority: accounts[0].key,
                payer: accounts[1].key,
                class: accounts[2].key,
            },
        )
    }
}

/// Replaces the metadata of a class, resizing the account to fit it.
///
/// Data: the new metadata, UTF-8, up to `MAX_METADATA_LEN` bytes.
pub struct UpdateClassMetadata<'info> {
    pub accounts: UpdateClassAccounts,
    pub metadata: &'info str,
}

/// What the instruction data of `UpdateClassMetadata` holds: the metadata.
pub open spec fn spec_class_metadata(data: Seq<u8>) -> Result<Seq<u8>, ProgramError> {
    match spec_read_str(data, 0, data.len() as int).0 {
        Err(e) => Err(e),
        Ok(m) => if m.len() > MAX_METADATA_LEN {
            Err(ProgramError::InvalidInstructionData)
        } else {
            Ok(m)
        },
    }
}

impl<'info> UpdateClassMetadata<'info> {
    pub fn try_from(ctx: &Context<'_, 'info>) -> (r: Result<Self, ProgramError>)
        requires
            ctx.accounts@.len() == 4 ==> class_readable(ctx.accounts@[2]),
        ensures
            match UpdateClassAccounts::spec_try_from(ctx.accounts@) {
                Err(e) => r == Err::<Self, ProgramError>(e),
                Ok(a) => match spec_class_metadata(ctx.data@) {
                    Err(e) => r == Err::<Self, ProgramError>(e),
                    Ok(m) => r matches Ok(ix) && ix.accounts == a && ix.metadata.spec_bytes() == m,
                },
            },
    {
        let accounts = UpdateClassAccounts::try_from(ctx.accounts)?;
        let mut data = ByteReader::new(ctx.data);
        let metadata = data.read_str(ctx.data.len())?;
        if metadata.as_bytes().len() > MAX_METADATA_LEN {
            return Err(ProgramError::InvalidInstructionData);
        }
        Ok(UpdateClassMetadata { accounts, metadata })
    }

    /// Where the metadata of the class starts.
    pub open spec fn metadata_start(class_data: Seq<u8>) -> int {
        Class::MINIMUM_CLASS_SIZE + class_data[NAME_LEN_OFFSET as int]
    }

    /// The class data once its metadata is replaced: everything before the
    /// metadata kept, the new metadata after it.
    pub open spec fn updated_data(&self, class_data: Seq<u8>) -> Seq<u8> {
        resized(class_data, Self::metadata_start(class_data)) + self.metadata.spec_bytes()
    }

    /// The size of the class once its metadata is replaced, whose rent
    /// `execute` is handed.
    pub fn space(&self, accounts: &[AccountInfo]) -> (n: usize)
        requires
            accounts@.len() == 4,
            accounts@[2].data@.len() >= Class::MINIMUM_CLASS_SIZE,
            self.metadata.spec_bytes().len() <= MAX_METADATA_LEN,
        ensures
            n == Self::metadata_start(accounts@[2].data@) + self.metadata.spec_bytes().len(),
    {
        Class::MINIMUM_CLASS_SIZE + accounts[2].data[NAME_LEN_OFFSET] as usize
            + self.metadata.as_bytes().len()
    }

    /// `new_minimum_balance` is the rent-exempt minimum of `space()` bytes.
    /// The result is the top-up of the class by the payer, if it falls short.
    pub fn execute(&self, accounts: &mut Vec<AccountInfo>, new_minimum_balance: u64) -> (plan: Vec<
        Cpi,
    >)
        requires
            UpdateClassAccounts::spec_try_from(old(accounts)@) == Ok::<
                UpdateClassAccounts,
                ProgramError,
            >(self.accounts),
            class_readable(old(accounts)@[2]),
            self.metadata.spec_bytes().len() <= MAX_METADATA_LEN,
        ensures
            ({
                let class = old(accounts)@[2];
                let payer = old(accounts)@[1];
                let start = Self::metadata_start(class.data@);
                let (top_up, class_lamports, payer_lamports) = resize_balances(
                    class.lamports,
                    payer.lamports,
                    class.data@.len() as int,
                    start + self.metadata.spec_bytes().len(),
                    new_minimum_balance,
                );
                &&& with_two_accounts(
                    old(accounts)@,
                    final(accounts)@,
                    2,
                    self.updated_data(class.data@),
                    class_lamports,
                    1,
                    payer.data@,
                    payer_lamports,
                )
                &&& plan@ == match top_up {
                    Some(l) => seq![Cpi::Transfer { from: payer.key, to: class.key, lamports: l }],
                    None => Seq::<Cpi>::empty(),
                }
            }),
    {
        let ghost before = accounts@;
        let mut class = take_account(accounts, 2);
        let mut payer = take_account(accounts, 1);
        let top_up = Class::update_metadata_unchecked(
            &mut class,
            &mut payer,
            self.metadata,
            new_minimum_balance,
        );
        let mut plan = Vec::new();
        match top_up {
            Some(l) => plan.push(Cpi::Transfer { from: payer.key, to: class.key, lamports: l }),
            None => {},
        }
        accounts.set(1, payer);
        accounts.set(2, class);
        proof {
            assert(plan@ =~= match top_up {
                Some(l) => seq![Cpi::Transfer { from: before[1].key, to: before[2].key, lamports: l }],
                None => Seq::<Cpi>::empty(),
            });
        }
        plan
    }
}

/// Hands a class to a new authority.
///
/// Data: the new authority.
pub struct UpdateClassAuthority {
    pub accounts: UpdateClassAccounts,
    pub new_authority: Pubkey,
}

/// Minimum length of instruction data required for UpdateClassAuthority
pub const UPDATE_CLASS_AUTHORITY_MIN_IX_LENGTH: usize = 32;

impl UpdateClassAuthority {
    pub open spec fn spec_try_from(accounts: Seq<AccountInfo>, data: Seq<u8>) -> Result<
        Self,
        ProgramError,
    > {
        match UpdateClassAccounts::spec_try_from(accounts) {
            Err(e) => Err(e),
            Ok(a) => if data.len() < UPDATE_CLASS_AUTHORITY_MIN_IX_LENGTH {
                Err(ProgramError::InvalidArgument)
            } else {
                Ok(
                    UpdateClassAuthority {
                        accounts: a,
                        new_authority: spec_read::<Pubkey>(data, 0)->0,
                    },
                )
            },
        }
    }

    pub fn try_from(ctx: &Context) -> (r: Result<Self, ProgramError>)
        requires
            ctx.accounts@.len() == 4 ==> class_readable(ctx.accounts@[2]),
        ensures
            r == Self::spec_try_from(ctx.accounts@, ctx.data@),
    {
        let accounts = UpdateClassAccounts::try_from(ctx.accounts)?;
        if ctx.data.len() < UPDATE_CLASS_AUTHORITY_MIN_IX_LENGTH {
            return Err(ProgramError::InvalidArgument);
        }
        let new_authority: Pubkey = ByteReader::read_with_offset(ctx.data, 0)?;
        Ok(UpdateClassAuthority { accounts, new_authority })
    }

    /// The new authority is written over the old one.
    pub fn execute(&self, accounts: &mut Vec<AccountInfo>)
        requires
            UpdateClassAccounts::spec_try_from(old(accounts)@) == Ok::<
                UpdateClassAccounts,
                ProgramError,
            >(self.accounts),
            class_readable(old(accounts)@[2]),
        ensures
            with_data(
                old(accounts)@,
                final(accounts)@,
                2,
                splice(old(accounts)@[2].data@, AUTHORITY_OFFSET as int, self.new_authority@),
            ),
    {
        let ghost before = accounts@;
        let mut class = take_account(accounts, 2);
        copy_bytes(class.data.as_mut_slice(), AUTHORITY_OFFSET, self.new_authority.as_slice());
        accounts.set(2, class);
        proof {
            assert(accounts@ =~= before.update(2, accounts@[2]));
        }
    }

    pub fn process(accounts: &mut Vec<AccountInfo>, data: &[u8]) -> (r: Result<(), ProgramError>)
        requires
            old(accounts)@.len() == 4 ==> class_readable(old(accounts)@[2]),
        ensures
            match Self::spec_try_from(old(accounts)@, data@) {
                Err(e) => r == Err::<(), ProgramError>(e) && final(accounts)@ == old(accounts)@,
                Ok(ix) => r is Ok && with_data(
                    old(accounts)@,
                    final(accounts)@,
                    2,
                    splice(old(accounts)@[2].data@, AUTHORITY_OFFSET as int, ix.new_authority@),
                ),
            },
    {
        let ix = Self::try_from(&Context { accounts: accounts.as_slice(), data })?;
        ix.execute(accounts);
        Ok(())
    }
}

} // verus!

use vstd::prelude::*;
use vstd::string::StringSliceAdditionalSpecFns;

use crate::account::{AccountInfo, Pubkey};
use crate::constants::{MAX_METADATA_LEN, MAX_NAME_LEN};
use crate::cpi::{class_seeds, create_account_plan, is_create_plan, Cpi, SignerSeeds};
use crate::error::ProgramError;
use crate::state::class::{Class};
use crate::utils::{
    push_bytes, spec_read, spec_read_str, spec_read_str_with_length, splice, ByteReader, Context,
};
use crate::ID;

verus! {

/// The accounts of `CreateClass`: the authority of the new class, which
/// signs, the payer of its rent, the class account and the system program.
pub struct CreateClassAccounts {
    pub authority: Pubkey,
    pub payer: Pubkey,
    pub class: Pubkey,
}

impl CreateClassAccounts {
    pub open spec fn spec_try_from(accounts: Seq<AccountInfo>) -> Result<Self, ProgramError> {
        if accounts.len() != 4 {
            Err(ProgramError::NotEnoughAccountKeys)
        } else if !accounts[0].is_signer {
            Err(ProgramError::MissingRequiredSignature)
        } else {
            Ok(
                CreateClassAccounts {
                    authority: accounts[0].key,
                    payer: accounts[1].key,
                    class: accounts[2].key,
                },
            )
        }
    }

    pub fn try_from(accounts: &[AccountInfo]) -> (r: Result<Self, ProgramError>)
        ensures
            r == Self::spec_try_from(accounts@),
    {
        if accounts.len() != 4 {
            return Err(ProgramError::NotEnoughAccountKeys);
        }
        if !accounts[0].is_signer() {
            return Err(ProgramError::MissingRequiredSignature);
        }
        Ok(
            CreateClassAccounts {
                authority: accounts[0].key,
                payer: accounts[1].key,
                class: accounts[2].key,
            },
        )
    }
}

pub const IS_PERMISSIONED_OFFSET: usize = 0;

pub const IS_FROZEN_OFFSET: usize = 1;

pub const NAME_LEN_OFFSET: usize = 2;

/// Minimum length of instruction data required for CreateClass
pub const CREATE_CLASS_MIN_IX_LENGTH: usize = 3;

/// What the instruction data of `CreateClass` holds: whether the class is
/// permissioned, whether it is frozen, its name (preceded by its length) and
/// its metadata (the rest), both UTF-8 and within their limits.
pub open spec fn spec_create_class_args(data: Seq<u8>) -> Result<
    (bool, bool, Seq<u8>, Seq<u8>),
    ProgramError,
> {
    if data.len() < CREATE_CLASS_MIN_IX_LENGTH {
        Err(ProgramError::InvalidArgument)
    } else if spec_read::<bool>(data, IS_PERMISSIONED_OFFSET as int) is None {
        Err(ProgramError::InvalidInstructionData)
    } else if spec_read::<bool>(data, IS_FROZEN_OFFSET as int) is None {
        Err(ProgramError::InvalidInstructionData)
    } else {
        let (name, pos) = spec_read_str_with_length(data, NAME_LEN_OFFSET as int);
        match name {
            Err(e) => Err(e),
            Ok(n) => if n.len() > MAX_NAME_LEN {
                Err(ProgramError::InvalidArgument)
            } else {
                match spec_read_str(data, pos, data.len() - pos).0 {
                    Err(e) => Err(e),
                    Ok(m) => if m.len() > MAX_METADATA_LEN {
                        Err(ProgramError::InvalidArgument)
                    } else {
                        Ok(
                            (
                                spec_read::<bool>(data, IS_PERMISSIONED_OFFSET as int)->0,
                                spec_read::<bool>(data, IS_FROZEN_OFFSET as int)->0,
                                n,
                                m,
                            ),
                        )
                    },
                }
            },
        }
    }
}

/// Creates a class: a namespace for records, held by its authority, at the
/// program address `["class", authority, name]`.
pub struct CreateClass<'info> {
    pub accounts: CreateClassAccounts,
    pub is_permissioned: bool,
    pub is_frozen: bool,
    pub name: &'info str,
    pub metadata: &'info str,
}

impl<'info> CreateClass<'info> {
    pub fn try_from(ctx: &Context<'_, 'info>) -> (r: Result<Self, ProgramError>)
        ensures
            match CreateClassAccounts::spec_try_from(ctx.accounts@) {
                Err(e) => r == Err::<Self, ProgramError>(e),
                Ok(a) => match spec_create_class_args(ctx.data@) {
                    Err(e) => r == Err::<Self, ProgramError>(e),
                    Ok((p, f, n, m)) => r matches Ok(ix) && ix.accounts == a && ix.is_permissioned
                        == p && ix.is_frozen == f && ix.name.spec_bytes() == n
                        && ix.metadata.spec_bytes() == m,
                },
            },
    {
        let accounts = CreateClassAccounts::try_from(ctx.accounts)?;
        if ctx.data.len() < CREATE_CLASS_MIN_IX_LENGTH {
            return Err(ProgramError::InvalidArgument);
        }
        let is_permissioned: bool = ByteReader::read_with_offset(ctx.data, IS_PERMISSIONED_OFFSET)?;
        let is_frozen: bool = ByteReader::read_with_offset(ctx.data, IS_FROZEN_OFFSET)?;
        let mut variable_data = ByteReader::new_with_offset(ctx.data, NAME_LEN_OFFSET);
        let name = variable_data.read_str_with_length()?;
        if name.as_bytes().len() > MAX_NAME_LEN {
            return Err(ProgramError::InvalidArgument);
        }
        let remaining = variable_data.remaining_bytes();
        let metadata = variable_data.read_str(remaining)?;
        if metadata.as_bytes().len() > MAX_METADATA_LEN {
            return Err(ProgramError::InvalidArgument);
        }
        Ok(CreateClass { accounts, is_permissioned, is_frozen, name, metadata })
    }

    /// The class this instruction writes.
    pub open spec fn class(&self) -> Class<'info> {
        Class {
            authority: self.accounts.authority,
            is_permissioned: self.is_permissioned,
            is_frozen: self.is_frozen,
            name: self.name,
            metadata: self.metadata,
        }
    }

    /// The size of the class account, whose rent `execute` is handed.
    pub fn space(&self) -> (n: usize)
        requires
            self.name.spec_bytes().len() <= MAX_NAME_LEN,
            self.metadata.spec_bytes().len() <= MAX_METADATA_LEN,
        ensures
            n == Class::MINIMUM_CLASS_SIZE + self.name.spec_bytes().len()
                + self.metadata.spec_bytes().len(),
    {
        Class::MINIMUM_CLASS_SIZE + self.name.as_bytes().len() + self.metadata.as_bytes().len()
    }

    /// `rent` is the rent-exempt minimum of `space()` bytes; `class_address`
    /// is the program address found for `["class", authority, name]`, if any.
    /// The class account must be that address; the plan creates it, owned by
    /// the program, and `initialize` then writes the class into it.
    pub fn execute(
        &self,
        accounts: &[AccountInfo],
        rent: u64,
        class_address: Option<(Pubkey, u8)>,
    ) -> (r: Result<Vec<Cpi>, ProgramError>)
        requires
            CreateClassAccounts::spec_try_from(accounts@) == Ok::<
                CreateClassAccounts,
                ProgramError,
            >(self.accounts),
            self.name.spec_bytes().len() <= MAX_NAME_LEN,
            self.metadata.spec_bytes().len() <= MAX_METADATA_LEN,
        ensures
            match class_address {
                None => r == Err::<Vec<Cpi>, ProgramError>(ProgramError::InvalidArgument),
                Some((address, bump)) => if address != accounts@[2].key {
                    r == Err::<Vec<Cpi>, ProgramError>(ProgramError::InvalidSeeds)
                } else {
                    r matches Ok(plan) && is_create_plan(
                        plan@,
                        accounts@[1].key,
                        accounts@[2].key,
                        accounts@[2].lamports,
                        rent,
                        (Class::MINIMUM_CLASS_SIZE + self.name.spec_bytes().len()
                            + self.metadata.spec_bytes().len()) as u64,
                        ID,
                        class_seeds(accounts@[0].key, self.name.spec_bytes(), bump),
                    )
                },
            },
    {
        let (address, bump) = match class_address {
            Some(found) => found,
            None => {
                return Err(ProgramError::InvalidArgument);
            },
        };
        if !crate::account::key_eq(&address, &accounts[2].key) {
            return Err(ProgramError::InvalidSeeds);
        }
        let space = self.space() as u64;
        let mut name = Vec::new();
        push_bytes(&mut name, self.name.as_bytes());
        let mut name_again = Vec::new();
        push_bytes(&mut name_again, self.name.as_bytes());
        let authority = accounts[0].key;
        Ok(
            create_account_plan(
                accounts[1].key,
                &accounts[2],
                rent,
                space,
                ID,
                SignerSeeds::Class { authority, name, bump },
                SignerSeeds::Class { authority, name: name_again, bump },
                Ghost(class_seeds(accounts@[0].key, self.name.spec_bytes(), bump)),
            ),
        )
    }

    /// Writes the class into its account once the plan has created it.
    pub fn initialize(&self, class: &mut AccountInfo) -> (r: Result<(), ProgramError>)
        ensures
            final(class).key == old(class).key,
            final(class).owner == old(class).owner,
            final(class).is_signer == old(class).is_signer,
            final(class).lamports == old(class).lamports,
            r == if Class::MINIMUM_CLASS_SIZE + self.name.spec_bytes().len()
                + self.metadata.spec_bytes().len() > old(class).data@.len() {
                Err(ProgramError::InvalidAccountData)
            } else if old(class).data@[0] != 0 {
                Err(ProgramError::AccountAlreadyInitialized)
            } else if self.name.spec_bytes().len() > 255 {
                Err(ProgramError::ArithmeticOverflow)
            } else {
                Ok(())
            },
            r is Ok ==> final(class).data@ == splice(old(class).data@, 0, self.class().layout()),
    {
        let state = Class {
            authority: self.accounts.authority,
            is_permissioned: self.is_permissioned,
            is_frozen: self.is_frozen,
            name: self.name,
            metadata: self.metadata,
        };
        state.initialize_unchecked(class)
    }
}

} // verus!

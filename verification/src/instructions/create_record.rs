use vstd::prelude::*;

use crate::account::{account_at, get_account, AccountInfo, Pubkey};
use crate::constants::MAX_NAME_LEN;
use crate::cpi::{create_account_plan, is_create_plan, record_seeds, Cpi, SignerSeeds};
use crate::error::ProgramError;
use crate::state::class::{class_readable, spec_check_permission, Class};
use crate::state::record::{OwnerType, Record};
use crate::utils::{
    push_bytes, spec_read, spec_read_str, spec_read_str_with_length, splice, ByteReader,
    Context,
};
use crate::ID;

verus! {

/// The accounts of `CreateRecord`: the owner of the new record, the payer of
/// its rent, its class, the record account, the system program, and the
/// class authority when the class is permissioned.
pub struct CreateRecordAccounts {
    pub owner: Pubkey,
    pub payer: Pubkey,
    pub class: Pubkey,
    pub record: Pubkey,
}

/// What can be read of the accounts handed to `CreateRecord`.
pub open spec fn create_record_readable(accounts: Seq<AccountInfo>) -> bool {
    accounts.len() >= 5 ==> class_readable(accounts[2])
}

impl CreateRecordAccounts {
    pub open spec fn spec_try_from(accounts: Seq<AccountInfo>) -> Result<Self, ProgramError> {
        if accounts.len() < 5 {
            Err(ProgramError::NotEnoughAccountKeys)
        } else {
            match spec_check_permission(accounts[2], account_at(accounts, 5)) {
                Err(e) => Err(e),
                Ok(_) => Ok(
                    CreateRecordAccounts {
                        owner: accounts[0].key,
                        payer: accounts[1].key,
                        class: accounts[2].key,
                        record: accounts[3].key,
                    },
                ),
            }
        }
    }

    pub fn try_from(accounts: &[AccountInfo]) -> (r: Result<Self, ProgramError>)
        requires
            create_record_readable(accounts@),
        ensures
            r == Self::spec_try_from(accounts@),
    {
        if accounts.len() < 5 {
            return Err(ProgramError::NotEnoughAccountKeys);
        }
        Class::check_permission(&accounts[2], get_account(accounts, 5))?;
        Ok(
            CreateRecordAccounts {
                owner: accounts[0].key,
                payer: accounts[1].key,
                class: accounts[2].key,
                record: accounts[3].key,
            },
        )
    }
}

pub const EXPIRY_OFFSET: usize = 0;

pub const NAME_LEN_OFFSET: usize = 8;

/// Minimum length of instruction data required for CreateRecord
pub const CREATE_RECORD_MIN_IX_LENGTH: usize = 2;

/// What the instruction data of `CreateRecord` holds: the expiry, the seed
/// (preceded by its length, within its limit) and the data (the rest), both
/// UTF-8 text.
pub open spec fn spec_create_record_args(data: Seq<u8>) -> Result<
    (i64, Seq<u8>, Seq<u8>),
    ProgramError,
> {
    if data.len() < CREATE_RECORD_MIN_IX_LENGTH {
        Err(ProgramError::InvalidArgument)
    } else if spec_read::<i64>(data, EXPIRY_OFFSET as int) is None {
        Err(ProgramError::InvalidInstructionData)
    } else {
        let (seed, pos) = spec_read_str_with_length(data, NAME_LEN_OFFSET as int);
        match seed {
            Err(e) => Err(e),
            Ok(s) => if s.len() > MAX_NAME_LEN {
                Err(ProgramError::InvalidArgument)
            } else {
                match spec_read_str(data, pos, data.len() - pos).0 {
                    Err(e) => Err(e),
                    Ok(d) => Ok((spec_read::<i64>(data, EXPIRY_OFFSET as int)->0, s, d)),
                }
            },
        }
    }
}

/// Creates a record in a class, owned by a key, at the program address
/// `["record", class, seed]`.
pub struct CreateRecord<'info> {
    pub accounts: CreateRecordAccounts,
    pub expiry: i64,
    pub seed: &'info [u8],
    pub data: &'info [u8],
}

impl<'info> CreateRecord<'info> {
    pub fn try_from(ctx: &Context<'_, 'info>) -> (r: Result<Self, ProgramError>)
        requires
            create_record_readable(ctx.accounts@),
        ensures
            match CreateRecordAccounts::spec_try_from(ctx.accounts@) {
                Err(e) => r == Err::<Self, ProgramError>(e),
                Ok(a) => match spec_create_record_args(ctx.data@) {
                    Err(e) => r == Err::<Self, ProgramError>(e),
                    Ok((expiry, seed, data)) => r matches Ok(ix) && ix.accounts == a && ix.expiry
                        == expiry && ix.seed@ == seed && ix.data@ == data,
                },
            },
    {
        let accounts = CreateRecordAccounts::try_from(ctx.accounts)?;
        if ctx.data.len() < CREATE_RECORD_MIN_IX_LENGTH {
            return Err(ProgramError::InvalidArgument);
        }
        let expiry: i64 = ByteReader::read_with_offset(ctx.data, EXPIRY_OFFSET)?;
        let mut variable_data = ByteReader::new_with_offset(ctx.data, NAME_LEN_OFFSET);
        let seed = variable_data.read_str_with_length()?.as_bytes();
        if seed.len() > MAX_NAME_LEN {
            return Err(ProgramError::InvalidArgument);
        }
        let remaining = variable_data.remaining_bytes();
        let data = variable_data.read_str(remaining)?.as_bytes();
        Ok(CreateRecord { accounts, expiry, seed, data })
    }

    /// The record this instruction writes: owned by the owner's key, not
    /// frozen.
    pub open spec fn record(&self) -> Record<'info> {
        Record {
            class: self.accounts.class,
            owner_type: OwnerType::Pubkey,
            owner: self.accounts.owner,
            is_frozen: false,
            expiry: self.expiry,
            seed: self.seed,
            data: self.data,
        }
    }

    /// The size of the record account, whose rent `execute` is handed.
    pub fn space(&self) -> (n: usize)
        requires
            self.seed@.len() <= MAX_NAME_LEN,
            Record::MINIMUM_RECORD_SIZE + MAX_NAME_LEN + self.data@.len() <= usize::MAX,
        ensures
            n == Record::MINIMUM_RECORD_SIZE + self.seed@.len() + self.data@.len(),
    {
        Record::MINIMUM_RECORD_SIZE + self.seed.len() + self.data.len()
    }

    /// `rent` is the rent-exempt minimum of `space()` bytes;
    /// `record_address` is the program address found for
    /// `["record", class, seed]`, if any. The record account must be that
    /// address; the plan creates it, owned by the program, and `initialize`
    /// then writes the record into it.
    pub fn execute(
        &self,
        accounts: &[AccountInfo],
        rent: u64,
        record_address: Option<(Pubkey, u8)>,
    ) -> (r: Result<Vec<Cpi>, ProgramError>)
        requires
            CreateRecordAccounts::spec_try_from(accounts@) == Ok::<
                CreateRecordAccounts,
                ProgramError,
            >(self.accounts),
            self.seed@.len() <= MAX_NAME_LEN,
            Record::MINIMUM_RECORD_SIZE + MAX_NAME_LEN + self.data@.len() <= u64::MAX,
            Record::MINIMUM_RECORD_SIZE + MAX_NAME_LEN + self.data@.len() <= usize::MAX,
        ensures
            match record_address {
                None => r == Err::<Vec<Cpi>, ProgramError>(ProgramError::InvalidArgument),
                Some((address, bump)) => if address != accounts@[3].key {
                    r == Err::<Vec<Cpi>, ProgramError>(ProgramError::InvalidSeeds)
                } else {
                    r matches Ok(plan) && is_create_plan(
                        plan@,
                        accounts@[1].key,
                        accounts@[3].key,
                        accounts@[3].lamports,
                        rent,
                        (Record::MINIMUM_RECORD_SIZE + self.seed@.len() + self.data@.len()) as u64,
                        ID,
                        record_seeds(accounts@[2].key, self.seed@, bump),
                    )
                },
            },
    {
        let (address, bump) = match record_address {
            Some(found) => found,
            None => {
                return Err(ProgramError::InvalidArgument);
            },
        };
        if !crate::account::key_eq(&address, &accounts[3].key) {
            return Err(ProgramError::InvalidSeeds);
        }
        let space = self.space() as u64;
        let mut seed = Vec::new();
        push_bytes(&mut seed, self.seed);
        let mut seed_again = Vec::new();
        push_bytes(&mut seed_again, self.seed);
        let class = accounts[2].key;
        Ok(
            create_account_plan(
                accounts[1].key,
                &accounts[3],
                rent,
                space,
                ID,
                SignerSeeds::Record { class, seed, bump },
                SignerSeeds::Record { class, seed: seed_again, bump },
                Ghost(record_seeds(accounts@[2].key, self.seed@, bump)),
            ),
        )
    }

    /// Writes the record into its account once the plan has created it.
    pub fn initialize(&self, record: &mut AccountInfo) -> (r: Result<(), ProgramError>)
        ensures
            final(record).key == old(record).key,
            final(record).owner == old(record).owner,
            final(record).is_signer == old(record).is_signer,
            final(record).lamports == old(record).lamports,
            r == if old(record).data@.len() < Record::MINIMUM_RECORD_SIZE + self.seed@.len()
                + self.data@.len() {
                Err(ProgramError::InvalidAccountData)
            } else if old(record).data@[0] != 0 {
                Err(ProgramError::AccountAlreadyInitialized)
            } else if self.seed@.len() > 255 {
                Err(ProgramError::ArithmeticOverflow)
            } else {
                Ok(())
            },
            r is Ok ==> final(record).data@ == splice(old(record).data@, 0, self.record().layout()),
    {
        let state = Record {
            class: self.accounts.class,
            owner_type: OwnerType::Pubkey,
            owner: self.accounts.owner,
            is_frozen: false,
            expiry: self.expiry,
            seed: self.seed,
            data: self.data,
        };
        state.initialize_unchecked(record)
    }
}

} // verus!

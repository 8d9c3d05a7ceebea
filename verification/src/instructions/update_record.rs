use vstd::prelude::*;

use crate::account::{
    bytes_eq, take_account, with_data, with_two_accounts, AccountInfo, Pubkey,
};
use crate::cpi::Cpi;
use crate::error::ProgramError;
use crate::state::class::{
    class_readable, spec_check_authority_unchecked, Class, IS_PERMISSIONED_OFFSET,
};
use crate::state::record::{
    record_class, record_data_offset, record_is_frozen, record_readable,
    spec_check_owner_or_delegate, spec_check_program_id_and_discriminator, spec_update_data,
    spec_update_expiry, Record, CLASS_OFFSET, SEED_LEN_OFFSET,
};
use crate::utils::{resize_balances, spec_read, spec_read_str, ByteReader, Context};
use crate::ID;

verus! {

/// The accounts of the record updates: the authority, which signs, the payer
/// of any rent, the record, its class and the system program.
///
/// In a permissioned class only the class authority updates records; in an
/// open one the record owner, or a delegate, may too.
pub struct UpdateRecordAccounts {
    pub authority: Pubkey,
    pub payer: Pubkey,
    pub record: Pubkey,
    pub class: Pubkey,
}

/// What can be read of the accounts handed to a record update.
pub open spec fn update_record_readable(accounts: Seq<AccountInfo>) -> bool {
    accounts.len() == 5 ==> record_readable(accounts[2]) && class_readable(accounts[3])
}

impl UpdateRecordAccounts {
    pub open spec fn spec_try_from(accounts: Seq<AccountInfo>) -> Result<Self, ProgramError> {
        let authority = accounts[0];
        let record = accounts[2];
        let class = accounts[3];
        if accounts.len() != 5 {
            Err(ProgramError::NotEnoughAccountKeys)
        } else if !authority.is_signer {
            Err(ProgramError::MissingRequiredSignature)
        } else if class.owner != ID {
            Err(ProgramError::IncorrectProgramId)
        } else if spec_check_program_id_and_discriminator(record) is Err {
            Err(spec_check_program_id_and_discriminator(record)->Err_0)
        } else if class.key@ != record_class(record.data@) {
            Err(ProgramError::InvalidAccountData)
        } else if class.data@[0] != Class::DISCRIMINATOR {
            Err(ProgramError::InvalidAccountData)
        } else if class.data@[IS_PERMISSIONED_OFFSET as int] == 1 && spec_check_authority_unchecked(
            class.data@,
            authority,
        ) is Err {
            Err(spec_check_authority_unchecked(class.data@, authority)->Err_0)
        } else if class.data@[IS_PERMISSIONED_OFFSET as int] != 1
            && spec_check_authority_unchecked(class.data@, authority) is Err
            && spec_check_owner_or_delegate(record, Some(class), authority) is Err {
            Err(spec_check_owner_or_delegate(record, Some(class), authority)->Err_0)
        } else {
            Ok(
                UpdateRecordAccounts {
                    authority: authority.key,
                    payer: accounts[1].key,
                    record: record.key,
                    class: class.key,
                },
            )
        }
    }

    pub fn try_from(accounts: &[AccountInfo]) -> (r: Result<Self, ProgramError>)
        requires
            update_record_readable(accounts@),
        ensures
            r == Self::spec_try_from(accounts@),
    {
        if accounts.len() != 5 {
            return Err(ProgramError::NotEnoughAccountKeys);
        }
        let authority = &accounts[0];
        let record = &accounts[2];
        let class = &accounts[3];
        if !authority.is_signer() {
            return Err(ProgramError::MissingRequiredSignature);
        }
        Class::check_program_id(class)?;
        Record::check_program_id_and_discriminator(record)?;
        let record_data = record.try_borrow_data();
        if !bytes_eq(class.key().as_slice(), &record_data[CLASS_OFFSET..CLASS_OFFSET + 32]) {
            return Err(ProgramError::InvalidAccountData);
        }
        let class_data = class.try_borrow_data();
        Class::check_discriminator_unchecked(class_data)?;
        if class_data[IS_PERMISSIONED_OFFSET] == 1 {
            Class::check_authority_unchecked(class_data, authority)?;
        } else if Class::check_authority_unchecked(class_data, authority).is_err() {
            Record::check_owner_or_delegate(record, Some(class), authority)?;
        }
        Ok(
            UpdateRecordAccounts {
                authority: authority.key,
                payer: accounts[1].key,
                record: record.key,
                class: class.key,
            },
        )
    }
}

/// Replaces the data of a record, resizing the account to fit it.
///
/// Data: the new data, UTF-8 text.
pub struct UpdateRecordData<'info> {
    pub accounts: UpdateRecordAccounts,
    pub data: &'info [u8],
}

impl<'info> UpdateRecordData<'info> {
    pub fn try_from(ctx: &Context<'_, 'info>) -> (r: Result<Self, ProgramError>)
        requires
            update_record_readable(ctx.accounts@),
        ensures
            match UpdateRecordAccounts::spec_try_from(ctx.accounts@) {
                Err(e) => r == Err::<Self, ProgramError>(e),
                Ok(a) => match spec_read_str(ctx.data@, 0, ctx.data@.len() as int).0 {
                    Err(e) => r == Err::<Self, ProgramError>(e),
                    Ok(d) => r matches Ok(ix) && ix.accounts == a && ix.data@ == d,
                },
            },
    {
        let accounts = UpdateRecordAccounts::try_from(ctx.accounts)?;
        let mut instruction_data = ByteReader::new(ctx.data);
        let data = instruction_data.read_str(ctx.data.len())?.as_bytes();
        Ok(UpdateRecordData { accounts, data })
    }

    /// The size of the record once its data is replaced, whose rent
    /// `execute` is handed.
    pub fn space(&self, accounts: &[AccountInfo]) -> (n: usize)
        requires
            accounts@.len() == 5,
            accounts@[2].data@.len() >= Record::MINIMUM_RECORD_SIZE,
            Record::MINIMUM_RECORD_SIZE + 255 + self.data@.len() <= usize::MAX,
        ensures
            n == record_data_offset(accounts@[2].data@) + self.data@.len(),
    {
        Record::MINIMUM_RECORD_SIZE + accounts[2].data[SEED_LEN_OFFSET] as usize
            + self.data.len()
    }

    /// `new_minimum_balance` is the rent-exempt minimum of `space()` bytes.
    /// A frozen record is refused; otherwise the result is the top-up of the
    /// record by the payer, if it falls short.
    pub fn execute(&self, accounts: &mut Vec<AccountInfo>, new_minimum_balance: u64) -> (r: Result<
        Vec<Cpi>,
        ProgramError,
    >)
        requires
            UpdateRecordAccounts::spec_try_from(old(accounts)@) == Ok::<
                UpdateRecordAccounts,
                ProgramError,
            >(self.accounts),
            update_record_readable(old(accounts)@),
            Record::MINIMUM_RECORD_SIZE + 255 + self.data@.len() <= usize::MAX,
        ensures
            ({
                let record = old(accounts)@[2];
                let payer = old(accounts)@[1];
                let (top_up, record_lamports, payer_lamports) = resize_balances(
                    record.lamports,
                    payer.lamports,
                    record.data@.len() as int,
                    record_data_offset(record.data@) + self.data@.len(),
                    new_minimum_balance,
                );
                if record_is_frozen(record.data@) {
                    &&& r == Err::<Vec<Cpi>, ProgramError>(ProgramError::InvalidAccountData)
                    &&& with_two_accounts(
                        old(accounts)@,
                        final(accounts)@,
                        2,
                        record.data@,
                        record.lamports,
                        1,
                        payer.data@,
                        payer.lamports,
                    )
                } else {
                    &&& r matches Ok(plan) && plan@ == match top_up {
                        Some(l) => seq![
                            Cpi::Transfer { from: payer.key, to: record.key, lamports: l },
                        ],
                        None => Seq::<Cpi>::empty(),
                    }
                    &&& with_two_accounts(
                        old(accounts)@,
                        final(accounts)@,
                        2,
                        spec_update_data(record.data@, self.data@).1,
                        record_lamports,
                        1,
                        payer.data@,
                        payer_lamports,
                    )
                }
            }),
    {
        let ghost before = accounts@;
        let mut record = take_account(accounts, 2);
        let mut payer = take_account(accounts, 1);
        let (r, top_up) = Record::update_data_unchecked(
            &mut record,
            &mut payer,
            self.data,
            new_minimum_balance,
        );
        let mut plan = Vec::new();
        match top_up {
            Some(l) => plan.push(Cpi::Transfer { from: payer.key, to: record.key, lamports: l }),
            None => {},
        }
        accounts.set(1, payer);
        accounts.set(2, record);
        match r {
            Ok(()) => Ok(plan),
            Err(e) => Err(e),
        }
    }
}

/// Sets the expiry of a record.
///
/// Data: the expiry, a little-endian `i64`.
pub struct UpdateRecordExpiry {
    pub accounts: UpdateRecordAccounts,
    pub expiry: i64,
}

impl UpdateRecordExpiry {
    pub open spec fn spec_try_from(accounts: Seq<AccountInfo>, data: Seq<u8>) -> Result<
        Self,
        ProgramError,
    > {
        match UpdateRecordAccounts::spec_try_from(accounts) {
            Err(e) => Err(e),
            Ok(a) => if data.len() < 8 {
                Err(ProgramError::InvalidArgument)
            } else {
                Ok(UpdateRecordExpiry { accounts: a, expiry: spec_read::<i64>(data, 0)->0 })
            },
        }
    }

    pub fn try_from(ctx: &Context) -> (r: Result<Self, ProgramError>)
        requires
            update_record_readable(ctx.accounts@),
        ensures
            r == Self::spec_try_from(ctx.accounts@, ctx.data@),
    {
        let accounts = UpdateRecordAccounts::try_from(ctx.accounts)?;
        if ctx.data.len() < 8 {
            return Err(ProgramError::InvalidArgument);
        }
        let expiry: i64 = ByteReader::read_with_offset(ctx.data, 0)?;
        Ok(UpdateRecordExpiry { accounts, expiry })
    }

    /// A frozen record is refused.
    pub fn execute(&self, accounts: &mut Vec<AccountInfo>) -> (r: Result<(), ProgramError>)
        requires
            UpdateRecordAccounts::spec_try_from(old(accounts)@) == Ok::<
                UpdateRecordAccounts,
                ProgramError,
            >(self.accounts),
            update_record_readable(old(accounts)@),
        ensures
            r == spec_update_expiry(old(accounts)@[2].data@, self.expiry).0,
            with_data(
                old(accounts)@,
                final(accounts)@,
                2,
                spec_update_expiry(old(accounts)@[2].data@, self.expiry).1,
            ),
    {
        let ghost before = accounts@;
        let mut record = take_account(accounts, 2);
        let r = Record::update_expiry_unchecked(record.data.as_mut_slice(), self.expiry);
        accounts.set(2, record);
        proof {
            assert(accounts@ =~= before.update(2, accounts@[2]));
        }
        r
    }

    pub fn process(accounts: &mut Vec<AccountInfo>, data: &[u8]) -> (r: Result<(), ProgramError>)
        requires
            update_record_readable(old(accounts)@),
        ensures
            match Self::spec_try_from(old(accounts)@, data@) {
                Err(e) => r == Err::<(), ProgramError>(e) && final(accounts)@ == old(accounts)@,
                Ok(ix) => {
                    &&& r == spec_update_expiry(old(accounts)@[2].data@, ix.expiry).0
                    &&& with_data(
                        old(accounts)@,
                        final(accounts)@,
                        2,
                        spec_update_expiry(old(accounts)@[2].data@, ix.expiry).1,
                    )
                },
            },
    {
        let ix = Self::try_from(&Context { accounts: accounts.as_slice(), data })?;
        ix.execute(accounts)
    }
}

} // verus!

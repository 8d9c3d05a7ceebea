use vstd::prelude::*;

use crate::account::{key_eq, take_account, with_data, with_two_accounts, AccountInfo, Pubkey};
use crate::constants::CLOSE_ACCOUNT_DISCRIMINATOR;
use crate::cpi::{create_account_plan, exactly, is_create_plan, Cpi, SignerSeeds};
use crate::error::ProgramError;
use crate::state::record::{record_readable, spec_check_owner_or_delegate, Record};
use crate::state::record_delegate::{
    delegate_readable, spec_check_authority_at_offset, spec_validate_account_and_discriminator,
    RecordAuthorityDelegate, UPDATE_AUTHORITY_OFFSET,
};
use crate::utils::{resize_balances, spec_read, splice, ByteReader, Context};
use crate::ID;

verus! {

pub const UPDATE_AUTHORITY_ARG_OFFSET: usize = 0;

pub const FREEZE_AUTHORITY_ARG_OFFSET: usize = 32;

pub const TRANSFER_AUTHORITY_ARG_OFFSET: usize = 64;

pub const BURN_AUTHORITY_ARG_OFFSET: usize = 96;

pub const AUTHORITY_PROGRAM_ARG_OFFSET: usize = 128;

/// Minimum length of instruction data naming the five authorities of a
/// record delegate.
pub const RECORD_AUTHORITY_DELEGATE_MIN_IX_LENGTH: usize = 160;

/// The five authorities of a record delegate, in the order the instruction
/// data gives them: update, freeze, transfer, burn, authority program.
pub open spec fn spec_delegate_authorities(data: Seq<u8>) -> Result<
    (Pubkey, Pubkey, Pubkey, Pubkey, Pubkey),
    ProgramError,
> {
    if data.len() < RECORD_AUTHORITY_DELEGATE_MIN_IX_LENGTH {
        Err(ProgramError::InvalidArgument)
    } else {
        Ok(
            (
                spec_read::<Pubkey>(data, UPDATE_AUTHORITY_ARG_OFFSET as int)->0,
                spec_read::<Pubkey>(data, FREEZE_AUTHORITY_ARG_OFFSET as int)->0,
                spec_read::<Pubkey>(data, TRANSFER_AUTHORITY_ARG_OFFSET as int)->0,
                spec_read::<Pubkey>(data, BURN_AUTHORITY_ARG_OFFSET as int)->0,
                spec_read::<Pubkey>(data, AUTHORITY_PROGRAM_ARG_OFFSET as int)->0,
            ),
        )
    }
}

fn read_delegate_authorities(data: &[u8]) -> (r: Result<
    (Pubkey, Pubkey, Pubkey, Pubkey, Pubkey),
    ProgramError,
>)
    ensures
        r == spec_delegate_authorities(data@),
{
    if data.len() < RECORD_AUTHORITY_DELEGATE_MIN_IX_LENGTH {
        return Err(ProgramError::InvalidArgument);
    }
    let update_authority: Pubkey = ByteReader::read_with_offset(data, UPDATE_AUTHORITY_ARG_OFFSET)?;
    let freeze_authority: Pubkey = ByteReader::read_with_offset(data, FREEZE_AUTHORITY_ARG_OFFSET)?;
    let transfer_authority: Pubkey = ByteReader::read_with_offset(
        data,
        TRANSFER_AUTHORITY_ARG_OFFSET,
    )?;
    let burn_authority: Pubkey = ByteReader::read_with_offset(data, BURN_AUTHORITY_ARG_OFFSET)?;
    let authority_program: Pubkey = ByteReader::read_with_offset(
        data,
        AUTHORITY_PROGRAM_ARG_OFFSET,
    )?;
    Ok((update_authority, freeze_authority, transfer_authority, burn_authority, authority_program))
}

/// The check shared by the delegate instructions: the record owner signs.
pub open spec fn spec_delegate_accounts(accounts: Seq<AccountInfo>, count: int) -> Result<
    (),
    ProgramError,
> {
    if accounts.len() != count {
        Err(ProgramError::NotEnoughAccountKeys)
    } else if !accounts[0].is_signer {
        Err(ProgramError::MissingRequiredSignature)
    } else {
        spec_check_owner_or_delegate(accounts[1], None, accounts[0])
    }
}

fn check_delegate_accounts(accounts: &[AccountInfo], count: usize) -> (r: Result<(), ProgramError>)
    requires
        accounts@.len() == count ==> record_readable(accounts@[1]),
        count >= 3,
    ensures
        r == spec_delegate_accounts(accounts@, count as int),
{
    if accounts.len() != count {
        return Err(ProgramError::NotEnoughAccountKeys);
    }
    if !accounts[0].is_signer() {
        return Err(ProgramError::MissingRequiredSignature);
    }
    Record::check_owner_or_delegate(&accounts[1], None, &accounts[0])
}

/// The accounts of `CreateRecordAuthorityDelegate`: the record owner, which
/// signs and pays, the record, the delegate account and the system program.
pub struct CreateRecordAuthorityDelegateAccounts {
    pub owner: Pubkey,
    pub record: Pubkey,
    pub delegate: Pubkey,
}

impl CreateRecordAuthorityDelegateAccounts {
    pub fn try_from(accounts: &[AccountInfo]) -> (r: Result<Self, ProgramError>)
        requires
            accounts@.len() == 4 ==> record_readable(accounts@[1]),
        ensures
            r == match spec_delegate_accounts(accounts@, 4) {
                Err(e) => Err::<Self, ProgramError>(e),
                Ok(_) => Ok(
                    CreateRecordAuthorityDelegateAccounts {
                        owner: accounts@[0].key,
                        record: accounts@[1].key,
                        delegate: accounts@[2].key,
                    },
                ),
            },
    {
        check_delegate_accounts(accounts, 4)?;
        Ok(
            CreateRecordAuthorityDelegateAccounts {
                owner: accounts[0].key,
                record: accounts[1].key,
                delegate: accounts[2].key,
            },
        )
    }
}

/// Creates the delegate of a record, at the program address
/// `["authority", record]`, naming who may update, freeze, transfer and burn
/// it.
pub struct CreateRecordAuthorityDelegate {
    pub accounts: CreateRecordAuthorityDelegateAccounts,
    pub update_authority: Pubkey,
    pub freeze_authority: Pubkey,
    pub transfer_authority: Pubkey,
    pub burn_authority: Pubkey,
    pub authority_program: Pubkey,
}

impl CreateRecordAuthorityDelegate {
    pub open spec fn spec_try_from(accounts: Seq<AccountInfo>, data: Seq<u8>) -> Result<
        Self,
        ProgramError,
    > {
        match spec_delegate_accounts(accounts, 4) {
            Err(e) => Err(e),
            Ok(_) => match spec_delegate_authorities(data) {
                Err(e) => Err(e),
                Ok((u, f, t, b, p)) => Ok(
                    CreateRecordAuthorityDelegate {
                        accounts: CreateRecordAuthorityDelegateAccounts {
                            owner: accounts[0].key,
                            record: accounts[1].key,
                            delegate: accounts[2].key,
                        },
                        update_authority: u,
                        freeze_authority: f,
                        transfer_authority: t,
                        burn_authority: b,
                        authority_program: p,
                    },
                ),
            },
        }
    }

    pub fn try_from(ctx: &Context) -> (r: Result<Self, ProgramError>)
        requires
            ctx.accounts@.len() == 4 ==> record_readable(ctx.accounts@[1]),
        ensures
            r == Self::spec_try_from(ctx.accounts@, ctx.data@),
    {
        let accounts = CreateRecordAuthorityDelegateAccounts::try_from(ctx.accounts)?;
        let (
            update_authority,
            freeze_authority,
            transfer_authority,
            burn_authority,
            authority_program,
        ) = read_delegate_authorities(ctx.data)?;
        Ok(
            CreateRecordAuthorityDelegate {
                accounts,
                update_authority,
                freeze_authority,
                transfer_authority,
                burn_authority,
                authority_program,
            },
        )
    }

    /// The delegate this instruction writes.
    pub open spec fn delegate(&self) -> RecordAuthorityDelegate {
        RecordAuthorityDelegate {
            record: self.accounts.record,
            update_authority: self.update_authority,
            freeze_authority: self.freeze_authority,
            transfer_authority: self.transfer_authority,
            burn_authority: self.burn_authority,
            authority_program: self.authority_program,
        }
    }

    /// `rent` is the rent-exempt minimum of a delegate account;
    /// `delegate_address` is the program address found for
    /// `["authority", record]`, if any. The delegate account must be that
    /// address; the plan creates it, paid by the owner, and `initialize` then
    /// writes the delegate into it.
    pub fn execute(
        &self,
        accounts: &[AccountInfo],
        rent: u64,
        delegate_address: Option<(Pubkey, u8)>,
    ) -> (r: Result<Vec<Cpi>, ProgramError>)
        requires
            accounts@.len() == 4,
            accounts@[2].key == self.accounts.delegate,
        ensures
            match delegate_address {
                None => r == Err::<Vec<Cpi>, ProgramError>(ProgramError::InvalidArgument),
                Some((address, bump)) => if address != self.accounts.delegate {
                    r == Err::<Vec<Cpi>, ProgramError>(ProgramError::InvalidSeeds)
                } else {
                    r matches Ok(plan) && is_create_plan(
                        plan@,
                        self.accounts.owner,
                        self.accounts.delegate,
                        accounts@[2].lamports,
                        rent,
                        RecordAuthorityDelegate::MINIMUM_RECORD_SIZE as u64,
                        ID,
                        exactly(SignerSeeds::Authority { record: self.accounts.record, bump }),
                    )
                },
            },
    {
        let (address, bump) = match delegate_address {
            Some(found) => found,
            None => {
                return Err(ProgramError::InvalidArgument);
            },
        };
        if !key_eq(&address, &self.accounts.delegate) {
            return Err(ProgramError::InvalidSeeds);
        }
        let record = self.accounts.record;
        Ok(
            create_account_plan(
                self.accounts.owner,
                &accounts[2],
                rent,
                RecordAuthorityDelegate::MINIMUM_RECORD_SIZE as u64,
                ID,
                SignerSeeds::Authority { record, bump },
                SignerSeeds::Authority { record, bump },
                Ghost(exactly(SignerSeeds::Authority { record, bump })),
            ),
        )
    }

    /// Writes the delegate into its account once the plan has created it.
    pub fn initialize(&self, delegate: &mut AccountInfo) -> (r: Result<(), ProgramError>)
        ensures
            r == if old(delegate).owner != ID {
                Err(ProgramError::IncorrectProgramId)
            } else if old(delegate).data@.len() < RecordAuthorityDelegate::MINIMUM_RECORD_SIZE {
                Err(ProgramError::InvalidAccountData)
            } else if old(delegate).data@[0] != 0 {
                Err(ProgramError::AccountAlreadyInitialized)
            } else {
                Ok::<(), ProgramError>(())
            },
            r is Ok ==> final(delegate).data@ == splice(old(delegate).data@, 0, self.delegate().layout()),
            r is Err ==> final(delegate).data@ == old(delegate).data@,
            final(delegate).key == old(delegate).key,
            final(delegate).owner == old(delegate).owner,
            final(delegate).lamports == old(delegate).lamports,
    {
        let state = RecordAuthorityDelegate {
            record: self.accounts.record,
            update_authority: self.update_authority,
            freeze_authority: self.freeze_authority,
            transfer_authority: self.transfer_authority,
            burn_authority: self.burn_authority,
            authority_program: self.authority_program,
        };
        state.initialize_checked(delegate)
    }
}

/// The accounts of `UpdateRecordAuthorityDelegate`: the record owner or the
/// delegate's update authority, which signs, the record and the delegate
/// account.
pub struct UpdateRecordAuthorityDelegateAccounts {
    pub delegate: Pubkey,
}

impl UpdateRecordAuthorityDelegateAccounts {
    pub fn try_from(accounts: &[AccountInfo]) -> (r: Result<Self, ProgramError>)
        requires
            delegate_accounts_readable(accounts@),
        ensures
            r == match spec_update_delegate_accounts(accounts@) {
                Err(e) => Err::<Self, ProgramError>(e),
                Ok(_) => Ok(UpdateRecordAuthorityDelegateAccounts { delegate: accounts@[2].key }),
            },
    {
        if accounts.len() != 3 {
            return Err(ProgramError::NotEnoughAccountKeys);
        }
        if !accounts[0].is_signer() {
            return Err(ProgramError::MissingRequiredSignature);
        }
        if Record::check_owner_or_delegate(&accounts[1], None, &accounts[0]).is_err() {
            RecordAuthorityDelegate::check_update_authority(&accounts[2], &accounts[0].key)?;
        }
        Ok(UpdateRecordAuthorityDelegateAccounts { delegate: accounts[2].key })
    }
}

/// Names new authorities in the delegate of a record; the record owner, or
/// the delegate's update authority, signs.
pub struct UpdateRecordAuthorityDelegate {
    pub accounts: UpdateRecordAuthorityDelegateAccounts,
    pub update_authority: Pubkey,
    pub freeze_authority: Pubkey,
    pub transfer_authority: Pubkey,
    pub burn_authority: Pubkey,
    pub authority_program: Pubkey,
}

/// What can be read of the accounts handed to the delegate updates.
pub open spec fn delegate_accounts_readable(accounts: Seq<AccountInfo>) -> bool {
    accounts.len() == 3 ==> record_readable(accounts[1]) && delegate_readable(accounts[2])
}

/// The check of `UpdateRecordAuthorityDelegate` on its accounts: the signer
/// is the record owner or the delegate's update authority.
pub open spec fn spec_update_delegate_accounts(accounts: Seq<AccountInfo>) -> Result<
    (),
    ProgramError,
> {
    if accounts.len() != 3 {
        Err(ProgramError::NotEnoughAccountKeys)
    } else if !accounts[0].is_signer {
        Err(ProgramError::MissingRequiredSignature)
    } else if spec_check_owner_or_delegate(accounts[1], None, accounts[0]) is Ok {
        Ok(())
    } else {
        spec_check_authority_at_offset(accounts[2], accounts[0].key, UPDATE_AUTHORITY_OFFSET as int)
    }
}

impl UpdateRecordAuthorityDelegate {
    pub open spec fn spec_try_from(accounts: Seq<AccountInfo>, data: Seq<u8>) -> Result<
        Self,
        ProgramError,
    > {
        match spec_update_delegate_accounts(accounts) {
            Err(e) => Err(e),
            Ok(_) => match spec_delegate_authorities(data) {
                Err(e) => Err(e),
                Ok((u, f, t, b, p)) => Ok(
                    UpdateRecordAuthorityDelegate {
                        accounts: UpdateRecordAuthorityDelegateAccounts { delegate: accounts[2].key },
                        update_authority: u,
                        freeze_authority: f,
                        transfer_authority: t,
                        burn_authority: b,
                        authority_program: p,
                    },
                ),
            },
        }
    }

    pub fn try_from(ctx: &Context) -> (r: Result<Self, ProgramError>)
        requires
            delegate_accounts_readable(ctx.accounts@),
        ensures
            r == Self::spec_try_from(ctx.accounts@, ctx.data@),
    {
        let accounts = UpdateRecordAuthorityDelegateAccounts::try_from(ctx.accounts)?;
        let (
            update_authority,
            freeze_authority,
            transfer_authority,
            burn_authority,
            authority_program,
        ) = read_delegate_authorities(ctx.data)?;
        Ok(
            UpdateRecordAuthorityDelegate {
                accounts,
                update_authority,
                freeze_authority,
                transfer_authority,
                burn_authority,
                authority_program,
            },
        )
    }

    /// The delegate account must be a delegate of the program.
    pub fn execute(&self, accounts: &mut Vec<AccountInfo>) -> (r: Result<(), ProgramError>)
        requires
            old(accounts)@.len() == 3,
            delegate_readable(old(accounts)@[2]),
        ensures
            r == spec_validate_account_and_discriminator(old(accounts)@[2]),
            with_data(
                old(accounts)@,
                final(accounts)@,
                2,
                if r is Ok {
                    splice(
                        old(accounts)@[2].data@,
                        UPDATE_AUTHORITY_OFFSET as int,
                        self.update_authority@ + self.freeze_authority@
                            + self.transfer_authority@ + self.burn_authority@
                            + self.authority_program@,
                    )
                } else {
                    old(accounts)@[2].data@
                },
            ),
    {
        let ghost before = accounts@;
        let mut delegate = take_account(accounts, 2);
        let r = RecordAuthorityDelegate::update(
            &mut delegate,
            self.update_authority,
            self.freeze_authority,
            self.transfer_authority,
            self.burn_authority,
            self.authority_program,
        );
        accounts.set(2, delegate);
        proof {
            assert(accounts@ =~= before.update(2, accounts@[2]));
        }
        r
    }

    pub fn process(accounts: &mut Vec<AccountInfo>, data: &[u8]) -> (r: Result<(), ProgramError>)
        requires
            delegate_accounts_readable(old(accounts)@),
        ensures
            match Self::spec_try_from(old(accounts)@, data@) {
                Err(e) => r == Err::<(), ProgramError>(e) && final(accounts)@ == old(accounts)@,
                Ok(ix) => {
                    &&& r == spec_validate_account_and_discriminator(old(accounts)@[2])
                    &&& with_data(
                        old(accounts)@,
                        final(accounts)@,
                        2,
                        if r is Ok {
                            splice(
                                old(accounts)@[2].data@,
                                UPDATE_AUTHORITY_OFFSET as int,
                                ix.update_authority@ + ix.freeze_authority@
                                    + ix.transfer_authority@ + ix.burn_authority@
                                    + ix.authority_program@,
                            )
                        } else {
                            old(accounts)@[2].data@
                        },
                    )
                },
            },
    {
        let ix = Self::try_from(&Context { accounts: accounts.as_slice(), data })?;
        ix.execute(accounts)
    }
}

/// The accounts of `DeleteRecordAuthorityDelegate`: the record owner, which
/// signs and takes back the rent, the record and the delegate account.
pub struct DeleteRecordAuthorityDelegateAccounts {
    pub owner: Pubkey,
    pub delegate: Pubkey,
}

impl DeleteRecordAuthorityDelegateAccounts {
    pub fn try_from(accounts: &[AccountInfo]) -> (r: Result<Self, ProgramError>)
        requires
            delegate_accounts_readable(accounts@),
        ensures
            r == match spec_delegate_accounts(accounts@, 3) {
                Err(e) => Err::<Self, ProgramError>(e),
                Ok(_) => Ok(
                    DeleteRecordAuthorityDelegateAccounts {
                        owner: accounts@[0].key,
                        delegate: accounts@[2].key,
                    },
                ),
            },
    {
        check_delegate_accounts(accounts, 3)?;
        Ok(DeleteRecordAuthorityDelegateAccounts { owner: accounts[0].key, delegate: accounts[2].key })
    }
}

/// Deletes the delegate of a record; the record owner signs and takes back
/// its rent.
pub struct DeleteRecordAuthorityDelegate {
    pub accounts: DeleteRecordAuthorityDelegateAccounts,
}

impl DeleteRecordAuthorityDelegate {
    pub fn try_from(ctx: &Context) -> (r: Result<Self, ProgramError>)
        requires
            delegate_accounts_readable(ctx.accounts@),
        ensures
            r == match spec_delegate_accounts(ctx.accounts@, 3) {
                Err(e) => Err::<Self, ProgramError>(e),
                Ok(_) => Ok(
                    DeleteRecordAuthorityDelegate {
                        accounts: DeleteRecordAuthorityDelegateAccounts {
                            owner: ctx.accounts@[0].key,
                            delegate: ctx.accounts@[2].key,
                        },
                    },
                ),
            },
    {
        let accounts = DeleteRecordAuthorityDelegateAccounts::try_from(ctx.accounts)?;
        Ok(DeleteRecordAuthorityDelegate { accounts })
    }

    /// `minimum_balance` is the rent-exempt minimum of one byte. The delegate
    /// account must be a delegate of the program; it shrinks to the single
    /// byte that marks it closed, what it holds beyond that minimum going back
    /// to the owner, and the result is the top-up owed as in `resize_account`.
    pub fn execute(&self, accounts: &mut Vec<AccountInfo>, minimum_balance: u64) -> (r: Result<
        Vec<Cpi>,
        ProgramError,
    >)
        requires
            old(accounts)@.len() == 3,
            delegate_readable(old(accounts)@[2]),
        ensures
            ({
                let delegate = old(accounts)@[2];
                let owner = old(accounts)@[0];
                let (top_up, delegate_lamports, owner_lamports) = resize_balances(
                    delegate.lamports,
                    owner.lamports,
                    delegate.data@.len() as int,
                    1,
                    minimum_balance,
                );
                match spec_validate_account_and_discriminator(delegate) {
                    Err(e) => r == Err::<Vec<Cpi>, ProgramError>(e) && final(accounts)@
                        == old(accounts)@,
                    Ok(_) => {
                        &&& with_two_accounts(
                            old(accounts)@,
                            final(accounts)@,
                            2,
                            seq![CLOSE_ACCOUNT_DISCRIMINATOR],
                            delegate_lamports,
                            0,
                            owner.data@,
                            owner_lamports,
                        )
                        &&& r matches Ok(plan) && plan@ == match top_up {
                            Some(l) => seq![
                                Cpi::Transfer { from: owner.key, to: delegate.key, lamports: l },
                            ],
                            None => Seq::<Cpi>::empty(),
                        }
                    },
                }
            }),
    {
        let ghost before = accounts@;
        let mut delegate = take_account(accounts, 2);
        let mut owner = take_account(accounts, 0);
        let (r, top_up) = RecordAuthorityDelegate::delete_record_delegate(
            &mut delegate,
            &mut owner,
            minimum_balance,
        );
        let mut plan = Vec::new();
        match top_up {
            Some(l) => plan.push(Cpi::Transfer { from: owner.key, to: delegate.key, lamports: l }),
            None => {},
        }
        accounts.set(0, owner);
        accounts.set(2, delegate);
        match r {
            Ok(()) => {
                proof {
                    assert(accounts@[2].data@ =~= seq![CLOSE_ACCOUNT_DISCRIMINATOR]);
                    assert(plan@ =~= match top_up {
                        Some(l) => seq![
                            Cpi::Transfer { from: before[0].key, to: before[2].key, lamports: l },
                        ],
                        None => Seq::<Cpi>::empty(),
                    });
                }
                Ok(plan)
            },
            Err(e) => {
                proof {
                    assert(accounts@ =~= before);
                }
                Err(e)
            },
        }
    }
}

} // verus!

use vstd::prelude::*;

use crate::account::{account_at, get_account, take_account, with_two_accounts, AccountInfo, Pubkey};
use crate::constants::CLOSE_ACCOUNT_DISCRIMINATOR;
use crate::cpi::{is_token_cpi, token_cpi, Cpi, SignerSeeds};
use crate::error::ProgramError;
use crate::state::class::class_readable;
use crate::state::record::{
    delegate_class_readable, record_readable, spec_check_owner_or_delegate_or_deleted, Record,
};
use crate::token2022::CloseAccount;
use crate::utils::{resize_balances, Context};

verus! {

/// The accounts of `DeleteRecord`: the record owner or a delegate, which
/// signs and takes back the rent, the payer, the record, then optionally the
/// class, the token program and the mint of a tokenized record.
pub struct DeleteRecordAccounts {
    pub authority: Pubkey,
    pub payer: Pubkey,
    pub record: Pubkey,
    /// The mint of a tokenized record whose supply is gone, to be closed.
    pub mint_to_close: Option<Pubkey>,
}

/// What can be read of the accounts handed to `DeleteRecord`.
pub open spec fn delete_record_readable(accounts: Seq<AccountInfo>) -> bool {
    &&& accounts.len() >= 3 ==> record_readable(accounts[2])
    &&& accounts.len() >= 4 ==> delegate_class_readable(accounts[3]) && class_readable(accounts[3])
}

impl DeleteRecordAccounts {
    pub open spec fn spec_try_from(accounts: Seq<AccountInfo>) -> Result<Self, ProgramError> {
        if accounts.len() < 3 {
            Err(ProgramError::NotEnoughAccountKeys)
        } else {
            match spec_check_owner_or_delegate_or_deleted(
                accounts[2],
                account_at(accounts, 3),
                accounts[0],
                account_at(accounts, 5),
            ) {
                Err(e) => Err(e),
                Ok(close_mint) => Ok(
                    DeleteRecordAccounts {
                        authority: accounts[0].key,
                        payer: accounts[1].key,
                        record: accounts[2].key,
                        mint_to_close: if close_mint {
                            Some(accounts[5].key)
                        } else {
                            None
                        },
                    },
                ),
            }
        }
    }

    pub fn try_from(accounts: &[AccountInfo]) -> (r: Result<Self, ProgramError>)
        requires
            delete_record_readable(accounts@),
        ensures
            r == Self::spec_try_from(accounts@),
    {
        if accounts.len() < 3 {
            return Err(ProgramError::NotEnoughAccountKeys);
        }
        let close_mint = Record::check_owner_or_delegate_or_deleted(
            &accounts[2],
            get_account(accounts, 3),
            &accounts[0],
            get_account(accounts, 5),
        )?;
        Ok(
            DeleteRecordAccounts {
                authority: accounts[0].key,
                payer: accounts[1].key,
                record: accounts[2].key,
                mint_to_close: if close_mint {
                    Some(accounts[5].key)
                } else {
                    None
                },
            },
        )
    }
}

/// Deletes a record: its account shrinks to one byte marking it closed and
/// what it holds beyond that byte's rent goes back to the authority. A
/// tokenized record whose token was burnt elsewhere may be deleted by its
/// class authority, and its mint is closed to that authority.
pub struct DeleteRecord {
    pub accounts: DeleteRecordAccounts,
}

/// The balances the authority and the record end with once the record
/// shrinks to one byte whose rent-exempt minimum is `minimum_balance`, or
/// `None` when the two balances together do not fit in a balance.
pub open spec fn delete_record_balances(
    record_lamports: u64,
    authority_lamports: u64,
    record_len: int,
    minimum_balance: u64,
) -> Option<(u64, u64)> {
    if record_lamports + authority_lamports > u64::MAX {
        None
    } else {
        let (_, r, a) = resize_balances(
            record_lamports,
            authority_lamports,
            record_len,
            1,
            minimum_balance,
        );
        Some((a, r))
    }
}

impl DeleteRecord {
    pub fn try_from(ctx: &Context) -> (r: Result<Self, ProgramError>)
        requires
            delete_record_readable(ctx.accounts@),
        ensures
            r == match DeleteRecordAccounts::spec_try_from(ctx.accounts@) {
                Err(e) => Err::<DeleteRecord, ProgramError>(e),
                Ok(a) => Ok(DeleteRecord { accounts: a }),
            },
    {
        let accounts = DeleteRecordAccounts::try_from(ctx.accounts)?;
        Ok(DeleteRecord { accounts })
    }

    /// `minimum_balance` is the rent-exempt minimum of one byte;
    /// `mint_address` is the program address found for `["mint", record]`,
    /// whose bump signs the closing of the mint.
    ///
    /// The plan closes the mint to the authority when there is one to close,
    /// then has the authority top the record up if its balance falls short of
    /// one byte's rent.
    pub fn execute(
        &self,
        accounts: &mut Vec<AccountInfo>,
        minimum_balance: u64,
        mint_address: Option<(Pubkey, u8)>,
    ) -> (r: Result<Vec<Cpi>, ProgramError>)
        requires
            DeleteRecordAccounts::spec_try_from(old(accounts)@) == Ok::<
                DeleteRecordAccounts,
                ProgramError,
            >(self.accounts),
            delete_record_readable(old(accounts)@),
        ensures
            ({
                let record = old(accounts)@[2];
                let authority = old(accounts)@[0];
                let (top_up, _, _) = resize_balances(
                    record.lamports,
                    authority.lamports,
                    record.data@.len() as int,
                    1,
                    minimum_balance,
                );
                if self.accounts.mint_to_close is Some && mint_address is None {
                    r == Err::<Vec<Cpi>, ProgramError>(ProgramError::InvalidArgument)
                        && final(accounts)@ == old(accounts)@
                } else {
                    match delete_record_balances(
                        record.lamports,
                        authority.lamports,
                        record.data@.len() as int,
                        minimum_balance,
                    ) {
                        None => r == Err::<Vec<Cpi>, ProgramError>(
                            ProgramError::InvalidAccountData,
                        ) && final(accounts)@ == old(accounts)@,
                        Some((authority_lamports, record_lamports)) => {
                            &&& with_two_accounts(
                                old(accounts)@,
                                final(accounts)@,
                                2,
                                seq![CLOSE_ACCOUNT_DISCRIMINATOR],
                                record_lamports,
                                0,
                                authority.data@,
                                authority_lamports,
                            )
                            &&& r matches Ok(plan) && {
                                let closes = match self.accounts.mint_to_close {
                                    Some(mint) => seq![plan@[0]],
                                    None => Seq::<Cpi>::empty(),
                                };
                                &&& plan@.len() == closes.len() + if top_up is Some {
                                    1int
                                } else {
                                    0int
                                }
                                &&& self.accounts.mint_to_close matches Some(mint) ==> is_token_cpi(
                                    plan@[0],
                                    CloseAccount {
                                        account: mint,
                                        destination: authority.key,
                                        authority: mint,
                                    },
                                    seq![
                                        SignerSeeds::Mint {
                                            record: record.key,
                                            bump: (mint_address->0).1,
                                        },
                                    ],
                                )
                                &&& top_up matches Some(l) ==> plan@[closes.len() as int]
                                    == Cpi::Transfer {
                                    from: authority.key,
                                    to: record.key,
                                    lamports: l,
                                }
                            }
                        },
                    }
                }
            }),
    {
        let mut plan: Vec<Cpi> = Vec::new();
        match self.accounts.mint_to_close {
            Some(mint) => {
                let bump = match mint_address {
                    Some((_, bump)) => bump,
                    None => {
                        return Err(ProgramError::InvalidArgument);
                    },
                };
                let mut signers = Vec::new();
                signers.push(SignerSeeds::Mint { record: self.accounts.record, bump });
                plan.push(
                    token_cpi(
                        &CloseAccount {
                            account: mint,
                            destination: self.accounts.authority,
                            authority: mint,
                        },
                        signers,
                    ),
                );
            },
            None => {},
        }
        if accounts[0].lamports.checked_add(accounts[2].lamports).is_none() {
            return Err(ProgramError::InvalidAccountData);
        }
        let mut record = take_account(accounts, 2);
        let mut authority = take_account(accounts, 0);
        let top_up = Record::delete_record_unchecked(&mut record, &mut authority, minimum_balance);
        match top_up {
            Some(l) => plan.push(Cpi::Transfer { from: authority.key, to: record.key, lamports: l }),
            None => {},
        }
        accounts.set(0, authority);
        accounts.set(2, record);
        Ok(plan)
    }
}

} // verus!

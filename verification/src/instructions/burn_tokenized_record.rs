use vstd::prelude::*;

use crate::account::{account_at, get_account, take_account, with_data, AccountInfo, Pubkey};
use crate::cpi::{is_token_cpi, token_cpi, Cpi, SignerSeeds};
use crate::error::ProgramError;
use crate::instructions::transfer_tokenized_record::tokenized_readable;
use crate::state::record::{
    spec_check_owner_or_delegate_tokenized, spec_update_is_frozen, spec_update_owner_type,
    OwnerType, Record, OWNER_OFFSET,
};
use crate::token2022::constants::TOKEN_IS_FROZEN_FLAG;
use crate::token2022::state::{TOKEN_IS_FROZEN_OFFSET, TOKEN_OWNER_OFFSET};
use crate::token2022::{BurnChecked, CloseAccount, ThawAccount, Token};
use crate::utils::{splice, Context};

verus! {

/// The accounts of `BurnTokenizedRecord`: the holder of the record token or
/// a delegate, which signs, the payer that takes back the mint's rent, the
/// record, its mint, the token account that holds its token, the token
/// program, and the class when a delegate signs.
pub struct BurnTokenizedRecordAccounts {
    pub authority: Pubkey,
    pub payer: Pubkey,
    pub record: Pubkey,
    pub mint: Pubkey,
    pub token_account: Pubkey,
}

impl BurnTokenizedRecordAccounts {
    pub open spec fn spec_try_from(accounts: Seq<AccountInfo>) -> Result<Self, ProgramError> {
        if accounts.len() < 6 {
            Err(ProgramError::NotEnoughAccountKeys)
        } else {
            match spec_check_owner_or_delegate_tokenized(
                accounts[2],
                account_at(accounts, 6),
                accounts[0],
                accounts[3],
                accounts[4],
            ) {
                Err(e) => Err(e),
                Ok(_) => Ok(
                    BurnTokenizedRecordAccounts {
                        authority: accounts[0].key,
                        payer: accounts[1].key,
                        record: accounts[2].key,
                        mint: accounts[3].key,
                        token_account: accounts[4].key,
                    },
                ),
            }
        }
    }

    pub fn try_from(accounts: &[AccountInfo]) -> (r: Result<Self, ProgramError>)
        requires
            tokenized_readable(accounts@, 2, 3, 4, 6),
        ensures
            r == Self::spec_try_from(accounts@),
    {
        if accounts.len() < 6 {
            return Err(ProgramError::NotEnoughAccountKeys);
        }
        Record::check_owner_or_delegate_tokenized(
            &accounts[2],
            get_account(accounts, 6),
            &accounts[0],
            &accounts[3],
            &accounts[4],
        )?;
        Ok(
            BurnTokenizedRecordAccounts {
                authority: accounts[0].key,
                payer: accounts[1].key,
                record: accounts[2].key,
                mint: accounts[3].key,
                token_account: accounts[4].key,
            },
        )
    }
}

/// Turns a tokenized record back into one owned by a key: the token is
/// burnt, the mint closed to the payer, and the record handed, unfrozen, to
/// the holder of the token.
pub struct BurnTokenizedRecord {
    pub accounts: BurnTokenizedRecordAccounts,
}

impl BurnTokenizedRecord {
    pub fn try_from(ctx: &Context) -> (r: Result<Self, ProgramError>)
        requires
            tokenized_readable(ctx.accounts@, 2, 3, 4, 6),
        ensures
            r == match BurnTokenizedRecordAccounts::spec_try_from(ctx.accounts@) {
                Err(e) => Err::<Self, ProgramError>(e),
                Ok(a) => Ok(BurnTokenizedRecord { accounts: a }),
            },
    {
        let accounts = BurnTokenizedRecordAccounts::try_from(ctx.accounts)?;
        Ok(BurnTokenizedRecord { accounts })
    }

    /// The record once its token is burnt: unfrozen, owned by the key that
    /// held the token.
    pub open spec fn burnt(record_data: Seq<u8>, token_data: Seq<u8>) -> Seq<u8> {
        spec_update_owner_type(
            splice(
                spec_update_is_frozen(record_data, false),
                OWNER_OFFSET as int,
                token_data.subrange(TOKEN_OWNER_OFFSET as int, TOKEN_OWNER_OFFSET + 32),
            ),
            OwnerType::Pubkey,
        )
    }

    /// `mint_address` is the program address found for `["mint", record]`,
    /// whose bump signs for the mint. The plan thaws the token account if it
    /// is frozen, burns the token and closes the mint.
    pub fn execute(&self, accounts: &mut Vec<AccountInfo>, mint_address: Option<(Pubkey, u8)>) -> (r:
        Result<Vec<Cpi>, ProgramError>)
        requires
            BurnTokenizedRecordAccounts::spec_try_from(old(accounts)@) == Ok::<
                BurnTokenizedRecordAccounts,
                ProgramError,
            >(self.accounts),
            tokenized_readable(old(accounts)@, 2, 3, 4, 6),
        ensures
            match mint_address {
                None => r == Err::<Vec<Cpi>, ProgramError>(ProgramError::InvalidArgument)
                    && final(accounts)@ == old(accounts)@,
                Some((_, bump)) => {
                    let signers = seq![SignerSeeds::Mint { record: self.accounts.record, bump }];
                    let thaws = old(accounts)@[4].data@[TOKEN_IS_FROZEN_OFFSET as int]
                        == TOKEN_IS_FROZEN_FLAG;
                    let t = if thaws {
                        1int
                    } else {
                        0int
                    };
                    &&& r matches Ok(plan) && plan@.len() == t + 2 && (thaws ==> is_token_cpi(
                        plan@[0],
                        ThawAccount {
                            account: self.accounts.token_account,
                            mint: self.accounts.mint,
                            freeze_authority: self.accounts.mint,
                        },
                        signers,
                    )) && is_token_cpi(
                        plan@[t],
                        BurnChecked {
                            account: self.accounts.token_account,
                            mint: self.accounts.mint,
                            authority: self.accounts.mint,
                            amount: 1,
                            decimals: 0,
                        },
                        signers,
                    ) && is_token_cpi(
                        plan@[t + 1],
                        CloseAccount {
                            account: self.accounts.mint,
                            destination: self.accounts.payer,
                            authority: self.accounts.mint,
                        },
                        signers,
                    )
                    &&& with_data(
                        old(accounts)@,
                        final(accounts)@,
                        2,
                        Self::burnt(old(accounts)@[2].data@, old(accounts)@[4].data@),
                    )
                },
            },
    {
        let bump = match mint_address {
            Some((_, bump)) => bump,
            None => {
                return Err(ProgramError::InvalidArgument);
            },
        };
        let record = self.accounts.record;
        let mint = self.accounts.mint;
        let token_account = self.accounts.token_account;
        let mut plan = Vec::new();
        let frozen = Token::get_is_frozen_unchecked(accounts[4].try_borrow_data())?;
        if frozen {
            let mut signers = Vec::new();
            signers.push(SignerSeeds::Mint { record, bump });
            plan.push(
                token_cpi(&ThawAccount { account: token_account, mint, freeze_authority: mint }, signers),
            );
        }
        let mut signers = Vec::new();
        signers.push(SignerSeeds::Mint { record, bump });
        plan.push(
            token_cpi(
                &BurnChecked { account: token_account, mint, authority: mint, amount: 1, decimals: 0 },
                signers,
            ),
        );
        let mut signers = Vec::new();
        signers.push(SignerSeeds::Mint { record, bump });
        plan.push(
            token_cpi(
                &CloseAccount { account: mint, destination: self.accounts.payer, authority: mint },
                signers,
            ),
        );
        let holder = Token::get_owner_unchecked(accounts[4].try_borrow_data())?;
        let ghost before = accounts@;
        let mut record_account = take_account(accounts, 2);
        let data = record_account.data.as_mut_slice();
        let _ = Record::update_is_frozen_unchecked(data, false);
        let _ = Record::update_owner_unchecked(data, &holder);
        let _ = Record::update_owner_type_unchecked(data, OwnerType::Pubkey);
        accounts.set(2, record_account);
        proof {
            assert(accounts@ =~= before.update(2, accounts@[2]));
        }
        Ok(plan)
    }
}

} // verus!

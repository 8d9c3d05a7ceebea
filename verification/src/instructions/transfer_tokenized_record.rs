use vstd::prelude::*;

use crate::account::{account_at, bytes_eq, get_account, AccountInfo, Pubkey};
use crate::cpi::{is_token_cpi, token_cpi, Cpi, SignerSeeds};
use crate::error::ProgramError;
use crate::state::record::{
    delegate_class_readable, record_readable, spec_check_owner_or_delegate_tokenized, Record,
};
use crate::token2022::state::{token_account_readable, TOKEN_OWNER_OFFSET};
use crate::token2022::TransferChecked;
use crate::utils::Context;

verus! {

/// The accounts of `TransferTokenizedRecord`: the holder of the record token
/// or a delegate, which signs, the record, its mint, the token account that
/// holds the token, the one it goes to, the token program, and the class
/// when a delegate signs.
pub struct TransferTokenizedRecordAccounts {
    pub authority: Pubkey,
    pub record: Pubkey,
    pub mint: Pubkey,
    pub token_account: Pubkey,
    pub new_token_account: Pubkey,
}

/// What can be read of the accounts handed to a tokenized record
/// instruction that names the record, mint and token account at these
/// places, and the class, if any, at `class`.
pub open spec fn tokenized_readable(
    accounts: Seq<AccountInfo>,
    record: int,
    mint: int,
    token_account: int,
    class: int,
) -> bool {
    &&& accounts.len() > token_account ==> {
        &&& record_readable(accounts[record])
        &&& token_account_readable(accounts[mint])
        &&& token_account_readable(accounts[token_account])
    }
    &&& accounts.len() > class ==> delegate_class_readable(accounts[class])
}

impl TransferTokenizedRecordAccounts {
    pub open spec fn spec_try_from(accounts: Seq<AccountInfo>) -> Result<Self, ProgramError> {
        if accounts.len() < 6 {
            Err(ProgramError::NotEnoughAccountKeys)
        } else if !accounts[0].is_signer {
            Err(ProgramError::MissingRequiredSignature)
        } else {
            match spec_check_owner_or_delegate_tokenized(
                accounts[1],
                account_at(accounts, 6),
                accounts[0],
                accounts[2],
                accounts[3],
            ) {
                Err(e) => Err(e),
                Ok(_) => Ok(
                    TransferTokenizedRecordAccounts {
                        authority: accounts[0].key,
                        record: accounts[1].key,
                        mint: accounts[2].key,
                        token_account: accounts[3].key,
                        new_token_account: accounts[4].key,
                    },
                ),
            }
        }
    }

    pub fn try_from(accounts: &[AccountInfo]) -> (r: Result<Self, ProgramError>)
        requires
            tokenized_readable(accounts@, 1, 2, 3, 6),
        ensures
            r == Self::spec_try_from(accounts@),
    {
        if accounts.len() < 6 {
            return Err(ProgramError::NotEnoughAccountKeys);
        }
        if !accounts[0].is_signer() {
            return Err(ProgramError::MissingRequiredSignature);
        }
        Record::check_owner_or_delegate_tokenized(
            &accounts[1],
            get_account(accounts, 6),
            &accounts[0],
            &accounts[2],
            &accounts[3],
        )?;
        Ok(
            TransferTokenizedRecordAccounts {
                authority: accounts[0].key,
                record: accounts[1].key,
                mint: accounts[2].key,
                token_account: accounts[3].key,
                new_token_account: accounts[4].key,
            },
        )
    }
}

/// Moves the token of a tokenized record to another token account: signed by
/// its holder, or by the mint, its permanent delegate, for a delegate.
pub struct TransferTokenizedRecord {
    pub accounts: TransferTokenizedRecordAccounts,
}

impl TransferTokenizedRecord {
    pub fn try_from(ctx: &Context) -> (r: Result<Self, ProgramError>)
        requires
            tokenized_readable(ctx.accounts@, 1, 2, 3, 6),
        ensures
            r == match TransferTokenizedRecordAccounts::spec_try_from(ctx.accounts@) {
                Err(e) => Err::<Self, ProgramError>(e),
                Ok(a) => Ok(TransferTokenizedRecord { accounts: a }),
            },
    {
        let accounts = TransferTokenizedRecordAccounts::try_from(ctx.accounts)?;
        Ok(TransferTokenizedRecord { accounts })
    }

    /// The transfer of the one token, from the holder's account to the new
    /// one, signed by the given authority.
    pub open spec fn transfer(&self, authority: Pubkey) -> TransferChecked {
        TransferChecked {
            source: self.accounts.token_account,
            mint: self.accounts.mint,
            destination: self.accounts.new_token_account,
            authority,
            amount: 1,
            decimals: 0,
        }
    }

    /// `mint_address` is the program address found for `["mint", record]`,
    /// whose bump signs for the mint when a delegate transfers.
    pub fn execute(&self, accounts: &[AccountInfo], mint_address: Option<(Pubkey, u8)>) -> (r:
        Result<Vec<Cpi>, ProgramError>)
        requires
            TransferTokenizedRecordAccounts::spec_try_from(accounts@) == Ok::<
                TransferTokenizedRecordAccounts,
                ProgramError,
            >(self.accounts),
            tokenized_readable(accounts@, 1, 2, 3, 6),
        ensures
            ({
                let holder = accounts@[3].data@.subrange(
                    TOKEN_OWNER_OFFSET as int,
                    TOKEN_OWNER_OFFSET + 32,
                );
                if accounts@[0].key@ == holder {
                    r matches Ok(plan) && plan@.len() == 1 && is_token_cpi(
                        plan@[0],
                        self.transfer(accounts@[0].key),
                        Seq::<SignerSeeds>::empty(),
                    )
                } else {
                    match mint_address {
                        None => r == Err::<Vec<Cpi>, ProgramError>(ProgramError::InvalidArgument),
                        Some((_, bump)) => r matches Ok(plan) && plan@.len() == 1 && is_token_cpi(
                            plan@[0],
                            self.transfer(accounts@[2].key),
                            seq![SignerSeeds::Mint { record: accounts@[1].key, bump }],
                        ),
                    }
                }
            }),
    {
        let token_data = accounts[3].try_borrow_data();
        let mut plan = Vec::new();
        if bytes_eq(
            &token_data[TOKEN_OWNER_OFFSET..TOKEN_OWNER_OFFSET + 32],
            accounts[0].key.as_slice(),
        ) {
            let transfer = TransferChecked {
                source: accounts[3].key,
                mint: accounts[2].key,
                destination: accounts[4].key,
                authority: accounts[0].key,
                amount: 1,
                decimals: 0,
            };
            plan.push(token_cpi(&transfer, Vec::new()));
        } else {
            let bump = match mint_address {
                Some((_, bump)) => bump,
                None => {
                    return Err(ProgramError::InvalidArgument);
                },
            };
            let transfer = TransferChecked {
                source: accounts[3].key,
                mint: accounts[2].key,
                destination: accounts[4].key,
                authority: accounts[2].key,
                amount: 1,
                decimals: 0,
            };
            let mut signers = Vec::new();
            signers.push(SignerSeeds::Mint { record: accounts[1].key, bump });
            plan.push(token_cpi(&transfer, signers));
        }
        proof {
            assert(accounts@[0].key@ == accounts@[3].data@.subrange(
                TOKEN_OWNER_OFFSET as int,
                TOKEN_OWNER_OFFSET + 32,
            ) ==> accounts@[0].key@ =~= token_data@.subrange(
                TOKEN_OWNER_OFFSET as int,
                TOKEN_OWNER_OFFSET + 32,
            ));
        }
        Ok(plan)
    }
}

} // verus!

use vstd::prelude::*;

use crate::account::{bytes_eq, key_eq, AccountInfo, Pubkey};
use crate::constants::CLOSE_ACCOUNT_DISCRIMINATOR;
use crate::error::ProgramError;
use crate::utils::{resize_account, resize_balances, splice, ByteReader, ByteWriter};
use crate::ID;

verus! {

pub const DISCRIMINATOR_OFFSET: usize = 0;

pub const RECORD_OFFSET: usize = 1;

pub const UPDATE_AUTHORITY_OFFSET: usize = 33;

pub const FREEZE_AUTHORITY_OFFSET: usize = 65;

pub const TRANSFER_AUTHORITY_OFFSET: usize = 97;

pub const BURN_AUTHORITY_OFFSET: usize = 129;

pub const AUTHORITY_PROGRAM_OFFSET: usize = 161;

/// The authorities a record owner hands out over the record.
pub struct RecordAuthorityDelegate {
    pub record: Pubkey,
    pub update_authority: Pubkey,
    pub freeze_authority: Pubkey,
    pub transfer_authority: Pubkey,
    pub burn_authority: Pubkey,
    /// Optional, if not set, the authority program is all zeros
    pub authority_program: Pubkey,
}

/// Whether a delegate account of the program can be read without reading
/// past its end.
pub open spec fn delegate_readable(account: AccountInfo) -> bool {
    account.owner == ID ==> {
        &&& account.data@.len() >= 1
        &&& account.data@[0] == RecordAuthorityDelegate::DISCRIMINATOR ==> account.data@.len()
            >= RecordAuthorityDelegate::MINIMUM_RECORD_SIZE
    }
}

pub open spec fn spec_validate_account_and_discriminator(account: AccountInfo) -> Result<
    (),
    ProgramError,
> {
    if account.owner != ID {
        Err(ProgramError::IncorrectProgramId)
    } else if account.data@[0] != RecordAuthorityDelegate::DISCRIMINATOR {
        Err(ProgramError::InvalidAccountData)
    } else {
        Ok(())
    }
}

/// Whether `authority` is the delegate recorded at `offset`.
pub open spec fn spec_check_authority_at_offset(
    account: AccountInfo,
    authority: Pubkey,
    offset: int,
) -> Result<(), ProgramError> {
    if spec_validate_account_and_discriminator(account) is Err {
        spec_validate_account_and_discriminator(account)
    } else if authority@ != account.data@.subrange(offset, offset + 32) {
        Err(ProgramError::MissingRequiredSignature)
    } else {
        Ok(())
    }
}

impl RecordAuthorityDelegate {
    pub const DISCRIMINATOR: u8 = 3;

    pub const MINIMUM_RECORD_SIZE: usize = 193;

    /// The bytes this delegate is laid out as.
    pub open spec fn layout(&self) -> Seq<u8> {
        seq![Self::DISCRIMINATOR] + self.record@ + self.update_authority@
            + self.freeze_authority@ + self.transfer_authority@ + self.burn_authority@
            + self.authority_program@
    }

    fn validate_account(account_info: &AccountInfo) -> (r: Result<(), ProgramError>)
        ensures
            r == if account_info.owner == ID {
                Ok::<(), ProgramError>(())
            } else {
                Err(ProgramError::IncorrectProgramId)
            },
    {
        if !key_eq(account_info.owner(), &ID) {
            return Err(ProgramError::IncorrectProgramId);
        }
        Ok(())
    }

    fn validate_account_and_discriminator(account_info: &AccountInfo) -> (r: Result<
        (),
        ProgramError,
    >)
        requires
            delegate_readable(*account_info),
        ensures
            r == spec_validate_account_and_discriminator(*account_info),
    {
        Self::validate_account(account_info)?;
        let data = account_info.try_borrow_data();
        if data[DISCRIMINATOR_OFFSET] != Self::DISCRIMINATOR {
            return Err(ProgramError::InvalidAccountData);
        }
        Ok(())
    }

    fn check_authority_at_offset(
        account_info: &AccountInfo,
        authority: &Pubkey,
        offset: usize,
    ) -> (r: Result<(), ProgramError>)
        requires
            delegate_readable(*account_info),
            offset + 32 <= Self::MINIMUM_RECORD_SIZE,
        ensures
            r == spec_check_authority_at_offset(*account_info, *authority, offset as int),
    {
        Self::validate_account_and_discriminator(account_info)?;
        let data = account_info.try_borrow_data();
        if !bytes_eq(authority.as_slice(), &data[offset..offset + 32]) {
            return Err(ProgramError::MissingRequiredSignature);
        }
        Ok(())
    }

    pub fn check_update_authority(account_info: &AccountInfo, authority: &Pubkey) -> (r: Result<
        (),
        ProgramError,
    >)
        requires
            delegate_readable(*account_info),
        ensures
            r == spec_check_authority_at_offset(
                *account_info,
                *authority,
                UPDATE_AUTHORITY_OFFSET as int,
            ),
    {
        Self::check_authority_at_offset(account_info, authority, UPDATE_AUTHORITY_OFFSET)
    }

    pub fn check_freeze_authority(account_info: &AccountInfo, authority: &Pubkey) -> (r: Result<
        (),
        ProgramError,
    >)
        requires
            delegate_readable(*account_info),
        ensures
            r == spec_check_authority_at_offset(
                *account_info,
                *authority,
                FREEZE_AUTHORITY_OFFSET as int,
            ),
    {
        Self::check_authority_at_offset(account_info, authority, FREEZE_AUTHORITY_OFFSET)
    }

    pub fn check_transfer_authority(account_info: &AccountInfo, authority: &Pubkey) -> (r: Result<
        (),
        ProgramError,
    >)
        requires
            delegate_readable(*account_info),
        ensures
            r == spec_check_authority_at_offset(
                *account_info,
                *authority,
                TRANSFER_AUTHORITY_OFFSET as int,
            ),
    {
        Self::check_authority_at_offset(account_info, authority, TRANSFER_AUTHORITY_OFFSET)
    }

    /// Checks the burn authority, then closes the delegate to it.
    ///
    /// `new_minimum_balance` is the rent-exempt minimum of one byte;
    /// the second part of the result is the top-up owed as in
    /// `resize_account`.
    pub fn check_burn_authority_and_close_delegate(
        account_info: &mut AccountInfo,
        authority: &mut AccountInfo,
        new_minimum_balance: u64,
    ) -> (r: (Result<(), ProgramError>, Option<u64>))
        requires
            delegate_readable(*old(account_info)),
        ensures
            r.0 == spec_check_authority_at_offset(
                *old(account_info),
                old(authority).key,
                BURN_AUTHORITY_OFFSET as int,
            ),
            r.0 is Err ==> *final(account_info) == *old(account_info) && *final(authority) == *old(
                authority,
            ) && r.1 is None,
            r.0 is Ok ==> final(account_info).data@ == seq![CLOSE_ACCOUNT_DISCRIMINATOR] && (
                r.1,
                final(account_info).lamports,
                final(authority).lamports,
            ) == resize_balances(
                old(account_info).lamports,
                old(authority).lamports,
                old(account_info).data@.len() as int,
                1,
                new_minimum_balance,
            ),
            final(account_info).key == old(account_info).key,
            final(account_info).owner == old(account_info).owner,
            final(account_info).is_signer == old(account_info).is_signer,
            final(authority).key == old(authority).key,
            final(authority).owner == old(authority).owner,
            final(authority).is_signer == old(authority).is_signer,
            final(authority).data@ == old(authority).data@,
    {
        let res = Self::check_authority_at_offset(
            account_info,
            authority.key(),
            BURN_AUTHORITY_OFFSET,
        );
        if res.is_err() {
            return (res, None);
        }
        let top_up = Self::delete_record_delegate_unchecked(
            account_info,
            authority,
            new_minimum_balance,
        );
        (Ok(()), top_up)
    }

    /// Shrinks the delegate to the single byte that marks it closed, so that
    /// it cannot be initialized again; `new_minimum_balance` is the rent-exempt
    /// minimum of one byte, and what the delegate holds beyond it goes back to
    /// `authority`.
    pub fn delete_record_delegate_unchecked(
        record_delegate: &mut AccountInfo,
        authority: &mut AccountInfo,
        new_minimum_balance: u64,
    ) -> (top_up: Option<u64>)
        ensures
            final(record_delegate).data@ == seq![CLOSE_ACCOUNT_DISCRIMINATOR],
            final(record_delegate).key == old(record_delegate).key,
            final(record_delegate).owner == old(record_delegate).owner,
            final(record_delegate).is_signer == old(record_delegate).is_signer,
            (top_up, final(record_delegate).lamports, final(authority).lamports) == resize_balances(
                old(record_delegate).lamports,
                old(authority).lamports,
                old(record_delegate).data@.len() as int,
                1,
                new_minimum_balance,
            ),
            final(authority).key == old(authority).key,
            final(authority).owner == old(authority).owner,
            final(authority).is_signer == old(authority).is_signer,
            final(authority).data@ == old(authority).data@,
    {
        let top_up = resize_account(record_delegate, authority, 1, true, new_minimum_balance);
        record_delegate.data.set(DISCRIMINATOR_OFFSET, CLOSE_ACCOUNT_DISCRIMINATOR);
        assert(record_delegate.data@ =~= seq![CLOSE_ACCOUNT_DISCRIMINATOR]);
        top_up
    }

    pub fn delete_record_delegate(
        record_delegate: &mut AccountInfo,
        authority: &mut AccountInfo,
        new_minimum_balance: u64,
    ) -> (r: (Result<(), ProgramError>, Option<u64>))
        requires
            delegate_readable(*old(record_delegate)),
        ensures
            r.0 == spec_validate_account_and_discriminator(*old(record_delegate)),
            r.0 is Err ==> *final(record_delegate) == *old(record_delegate) && *final(authority)
                == *old(authority) && r.1 is None,
            r.0 is Ok ==> final(record_delegate).data@ == seq![CLOSE_ACCOUNT_DISCRIMINATOR] && (
                r.1,
                final(record_delegate).lamports,
                final(authority).lamports,
            ) == resize_balances(
                old(record_delegate).lamports,
                old(authority).lamports,
                old(record_delegate).data@.len() as int,
                1,
                new_minimum_balance,
            ),
            final(record_delegate).key == old(record_delegate).key,
            final(record_delegate).owner == old(record_delegate).owner,
            final(record_delegate).is_signer == old(record_delegate).is_signer,
            final(authority).key == old(authority).key,
            final(authority).owner == old(authority).owner,
            final(authority).is_signer == old(authority).is_signer,
            final(authority).data@ == old(authority).data@,
    {
        let res = Self::validate_account_and_discriminator(record_delegate);
        if res.is_err() {
            return (res, None);
        }
        let top_up = Self::delete_record_delegate_unchecked(
            record_delegate,
            authority,
            new_minimum_balance,
        );
        (Ok(()), top_up)
    }

    pub fn update(
        record_delegate: &mut AccountInfo,
        update_authority: Pubkey,
        freeze_authority: Pubkey,
        transfer_authority: Pubkey,
        burn_authority: Pubkey,
        authority_program: Pubkey,
    ) -> (r: Result<(), ProgramError>)
        requires
            delegate_readable(*old(record_delegate)),
        ensures
            r == spec_validate_account_and_discriminator(*old(record_delegate)),
            r is Err ==> final(record_delegate).data@ == old(record_delegate).data@,
            r is Ok ==> final(record_delegate).data@ == splice(
                old(record_delegate).data@,
                UPDATE_AUTHORITY_OFFSET as int,
                update_authority@ + freeze_authority@ + transfer_authority@ + burn_authority@
                    + authority_program@,
            ),
            final(record_delegate).key == old(record_delegate).key,
            final(record_delegate).owner == old(record_delegate).owner,
            final(record_delegate).is_signer == old(record_delegate).is_signer,
            final(record_delegate).lamports == old(record_delegate).lamports,
    {
        Self::validate_account_and_discriminator(record_delegate)?;
        let ghost d0 = record_delegate.data@;
        let data = record_delegate.data.as_mut_slice();
        let _ = ByteWriter::write_with_offset(data, UPDATE_AUTHORITY_OFFSET, update_authority);
        let _ = ByteWriter::write_with_offset(data, FREEZE_AUTHORITY_OFFSET, freeze_authority);
        let _ = ByteWriter::write_with_offset(data, TRANSFER_AUTHORITY_OFFSET, transfer_authority);
        let _ = ByteWriter::write_with_offset(data, BURN_AUTHORITY_OFFSET, burn_authority);
        let _ = ByteWriter::write_with_offset(data, AUTHORITY_PROGRAM_OFFSET, authority_program);
        proof {
            let o = UPDATE_AUTHORITY_OFFSET as int;
            crate::utils::lemma_splice_concat(d0, o, update_authority@, freeze_authority@);
            crate::utils::lemma_splice_concat(
                d0,
                o,
                update_authority@ + freeze_authority@,
                transfer_authority@,
            );
            crate::utils::lemma_splice_concat(
                d0,
                o,
                update_authority@ + freeze_authority@ + transfer_authority@,
                burn_authority@,
            );
            crate::utils::lemma_splice_concat(
                d0,
                o,
                update_authority@ + freeze_authority@ + transfer_authority@ + burn_authority@,
                authority_program@,
            );
        }
        Ok(())
    }

    /// Reads a delegate from its bytes.
    pub fn from_bytes(data: &[u8]) -> (r: Result<Self, ProgramError>)
        ensures
            data@.len() == 0 ==> r == Err::<Self, ProgramError>(
                ProgramError::InvalidInstructionData,
            ),
            data@.len() >= 1 && data@[0] != Self::DISCRIMINATOR ==> r == Err::<Self, ProgramError>(
                ProgramError::InvalidAccountData,
            ),
            data@.len() >= 1 && data@[0] == Self::DISCRIMINATOR && data@.len()
                < Self::MINIMUM_RECORD_SIZE ==> r == Err::<Self, ProgramError>(
                ProgramError::InvalidInstructionData,
            ),
            data@.len() >= Self::MINIMUM_RECORD_SIZE && data@[0] == Self::DISCRIMINATOR ==> (r matches Ok(
                d,
            ) && d.layout() == data@.subrange(0, Self::MINIMUM_RECORD_SIZE as int)),
    {
        let discriminator: u8 = ByteReader::read_with_offset(data, DISCRIMINATOR_OFFSET)?;
        if discriminator != Self::DISCRIMINATOR {
            return Err(ProgramError::InvalidAccountData);
        }
        let record: Pubkey = ByteReader::read_with_offset(data, RECORD_OFFSET)?;
        let update_authority: Pubkey = ByteReader::read_with_offset(data, UPDATE_AUTHORITY_OFFSET)?;
        let freeze_authority: Pubkey = ByteReader::read_with_offset(data, FREEZE_AUTHORITY_OFFSET)?;
        let transfer_authority: Pubkey = ByteReader::read_with_offset(
            data,
            TRANSFER_AUTHORITY_OFFSET,
        )?;
        let burn_authority: Pubkey = ByteReader::read_with_offset(data, BURN_AUTHORITY_OFFSET)?;
        let authority_program: Pubkey = ByteReader::read_with_offset(
            data,
            AUTHORITY_PROGRAM_OFFSET,
        )?;
        let d = Self {
            record,
            update_authority,
            freeze_authority,
            transfer_authority,
            burn_authority,
            authority_program,
        };
        proof {
            let s = data@;
            crate::utils::lemma_key_exists(s.subrange(1, 33));
            crate::utils::lemma_key_exists(s.subrange(33, 65));
            crate::utils::lemma_key_exists(s.subrange(65, 97));
            crate::utils::lemma_key_exists(s.subrange(97, 129));
            crate::utils::lemma_key_exists(s.subrange(129, 161));
            crate::utils::lemma_key_exists(s.subrange(161, 193));
            assert(record@ == s.subrange(1, 33));
            assert(update_authority@ == s.subrange(33, 65));
            assert(authority_program@ == s.subrange(161, 193));
            assert(s[0] == Self::DISCRIMINATOR);
            assert(s.subrange(0, 193) =~= seq![s[0]] + s.subrange(1, 33) + s.subrange(33, 65)
                + s.subrange(65, 97) + s.subrange(97, 129) + s.subrange(129, 161) + s.subrange(
                161,
                193,
            ));
            assert(d.layout() == s.subrange(0, Self::MINIMUM_RECORD_SIZE as int));
        }
        Ok(d)
    }

    pub fn from_bytes_checked(account_info: &AccountInfo) -> (r: Result<Self, ProgramError>)
        ensures
            account_info.owner != ID ==> r == Err::<Self, ProgramError>(
                ProgramError::IncorrectProgramId,
            ),
            account_info.owner == ID && account_info.data@.len() < Self::MINIMUM_RECORD_SIZE ==> r
                == Err::<Self, ProgramError>(ProgramError::InvalidAccountData),
            account_info.owner == ID && account_info.data@.len() >= Self::MINIMUM_RECORD_SIZE
                && account_info.data@[0] != Self::DISCRIMINATOR ==> r == Err::<Self, ProgramError>(
                ProgramError::InvalidAccountData,
            ),
            account_info.owner == ID && account_info.data@.len() >= Self::MINIMUM_RECORD_SIZE
                && account_info.data@[0] == Self::DISCRIMINATOR ==> (r matches Ok(d) && d.layout()
                == account_info.data@.subrange(0, Self::MINIMUM_RECORD_SIZE as int)),
    {
        Self::validate_account(account_info)?;
        if account_info.data_len() < Self::MINIMUM_RECORD_SIZE {
            return Err(ProgramError::InvalidAccountData);
        }
        Self::from_bytes(account_info.try_borrow_data())
    }

    /// Writes this delegate into a fresh account.
    pub fn initialize(&self, account_info: &mut AccountInfo) -> (r: Result<(), ProgramError>)
        requires
            old(account_info).data@.len() >= Self::MINIMUM_RECORD_SIZE,
        ensures
            r == if old(account_info).data@[0] != 0 {
                Err(ProgramError::AccountAlreadyInitialized)
            } else {
                Ok::<(), ProgramError>(())
            },
            r is Ok ==> final(account_info).data@ == splice(
                old(account_info).data@,
                0,
                self.layout(),
            ),
            r is Err ==> final(account_info).data@ == old(account_info).data@,
            final(account_info).key == old(account_info).key,
            final(account_info).owner == old(account_info).owner,
            final(account_info).lamports == old(account_info).lamports,
    {
        if account_info.data[0] != 0 {
            return Err(ProgramError::AccountAlreadyInitialized);
        }
        let ghost d0 = account_info.data@;
        let data = account_info.data.as_mut_slice();
        let _ = ByteWriter::write_with_offset(data, DISCRIMINATOR_OFFSET, Self::DISCRIMINATOR);
        let _ = ByteWriter::write_with_offset(data, RECORD_OFFSET, self.record);
        let _ = ByteWriter::write_with_offset(data, UPDATE_AUTHORITY_OFFSET, self.update_authority);
        let _ = ByteWriter::write_with_offset(data, FREEZE_AUTHORITY_OFFSET, self.freeze_authority);
        let _ = ByteWriter::write_with_offset(
            data,
            TRANSFER_AUTHORITY_OFFSET,
            self.transfer_authority,
        );
        let _ = ByteWriter::write_with_offset(data, BURN_AUTHORITY_OFFSET, self.burn_authority);
        let _ = ByteWriter::write_with_offset(
            data,
            AUTHORITY_PROGRAM_OFFSET,
            self.authority_program,
        );
        proof {
            let s1 = seq![Self::DISCRIMINATOR];
            let s2 = self.record@;
            let s3 = self.update_authority@;
            let s4 = self.freeze_authority@;
            let s5 = self.transfer_authority@;
            let s6 = self.burn_authority@;
            let s7 = self.authority_program@;
            crate::utils::lemma_splice_concat(d0, 0, s1, s2);
            crate::utils::lemma_splice_concat(d0, 0, s1 + s2, s3);
            crate::utils::lemma_splice_concat(d0, 0, s1 + s2 + s3, s4);
            crate::utils::lemma_splice_concat(d0, 0, s1 + s2 + s3 + s4, s5);
            crate::utils::lemma_splice_concat(d0, 0, s1 + s2 + s3 + s4 + s5, s6);
            crate::utils::lemma_splice_concat(d0, 0, s1 + s2 + s3 + s4 + s5 + s6, s7);
        }
        Ok(())
    }

    pub fn initialize_checked(&self, account_info: &mut AccountInfo) -> (r: Result<
        (),
        ProgramError,
    >)
        ensures
            r == if old(account_info).owner != ID {
                Err(ProgramError::IncorrectProgramId)
            } else if old(account_info).data@.len() < Self::MINIMUM_RECORD_SIZE {
                Err(ProgramError::InvalidAccountData)
            } else if old(account_info).data@[0] != 0 {
                Err(ProgramError::AccountAlreadyInitialized)
            } else {
                Ok::<(), ProgramError>(())
            },
            r is Ok ==> final(account_info).data@ == splice(
                old(account_info).data@,
                0,
                self.layout(),
            ),
            r is Err ==> final(account_info).data@ == old(account_info).data@,
            final(account_info).key == old(account_info).key,
            final(account_info).owner == old(account_info).owner,
            final(account_info).lamports == old(account_info).lamports,
    {
        Self::validate_account(account_info)?;
        if account_info.data_len() < Self::MINIMUM_RECORD_SIZE {
            return Err(ProgramError::InvalidAccountData);
        }
        self.initialize(account_info)
    }
}

} // verus!

use vstd::prelude::*;
use vstd::string::StringSliceAdditionalSpecFns;

use crate::account::{key_eq, AccountInfo, Pubkey};
use crate::error::ProgramError;
use crate::utils::{
    resize_account, resize_balances, resized, splice, ByteWriter,
    Pod,
};
use crate::ID;

verus! {

pub const DISCRIMINATOR_OFFSET: usize = 0;

pub const AUTHORITY_OFFSET: usize = 1;

pub const IS_PERMISSIONED_OFFSET: usize = 33;

pub const IS_FROZEN_OFFSET: usize = 34;

pub const NAME_LEN_OFFSET: usize = 35;

/// A class: a namespace for records, held by an authority.
///
/// Laid out as the discriminator, the authority, `is_permissioned`,
/// `is_frozen`, the name preceded by its length in one byte, and the
/// metadata up to the end of the account.
pub struct Class<'info> {
    /// The authority that controls this class
    pub authority: Pubkey,
    /// Whether creating records is permissioned or not
    pub is_permissioned: bool,
    /// Whether the class is frozen or not
    pub is_frozen: bool,
    /// Human-readable name for the class
    pub name: &'info str,
    /// Optional metadata about the class
    pub metadata: &'info str,
}

/// The fixed-size part of a class account.
pub open spec fn class_header(authority: Pubkey, is_permissioned: bool, is_frozen: bool) -> Seq<u8> {
    seq![Class::DISCRIMINATOR] + authority@ + bool::spec_encode(is_permissioned)
        + bool::spec_encode(is_frozen)
}

/// The bytes of a class account holding these fields.
pub open spec fn class_layout(
    authority: Pubkey,
    is_permissioned: bool,
    is_frozen: bool,
    name: Seq<u8>,
    metadata: Seq<u8>,
) -> Seq<u8> {
    class_header(authority, is_permissioned, is_frozen) + seq![name.len() as u8] + name + metadata
}

/// Whether the class fields can be read from an account of the program
/// without reading past its end.
pub open spec fn class_readable(class: AccountInfo) -> bool {
    class.owner == ID ==> {
        &&& class.data@.len() >= 1
        &&& class.data@[0] == Class::DISCRIMINATOR ==> class.data@.len()
            >= Class::MINIMUM_CLASS_SIZE
    }
}

/// The authority check on class data: the authority signed and is the one
/// recorded in the class.
pub open spec fn spec_check_authority_unchecked(data: Seq<u8>, authority: AccountInfo) -> Result<
    (),
    ProgramError,
> {
    if !authority.is_signer {
        Err(ProgramError::MissingRequiredSignature)
    } else if authority.key@ != data.subrange(
        AUTHORITY_OFFSET as int,
        AUTHORITY_OFFSET + 32,
    ) {
        Err(ProgramError::InvalidAccountData)
    } else {
        Ok(())
    }
}

/// The full authority check on a class account.
pub open spec fn spec_check_authority(class: AccountInfo, authority: AccountInfo) -> Result<
    (),
    ProgramError,
> {
    if class.owner != ID {
        Err(ProgramError::IncorrectProgramId)
    } else if class.data@[0] != Class::DISCRIMINATOR {
        Err(ProgramError::InvalidAccountData)
    } else {
        spec_check_authority_unchecked(class.data@, authority)
    }
}

/// Whether a record may be created in this class: a permissioned class wants
/// its authority, and a frozen class takes no records.
pub open spec fn spec_check_permission(class: AccountInfo, authority: Option<AccountInfo>) -> Result<
    (),
    ProgramError,
> {
    if class.owner != ID {
        Err(ProgramError::IncorrectProgramId)
    } else if class.data@[0] != Class::DISCRIMINATOR {
        Err(ProgramError::InvalidAccountData)
    } else if class.data@[IS_PERMISSIONED_OFFSET as int] == 1 && authority is None {
        Err(ProgramError::InvalidAccountData)
    } else if class.data@[IS_PERMISSIONED_OFFSET as int] == 1
        && spec_check_authority_unchecked(class.data@, authority->0) is Err {
        spec_check_authority_unchecked(class.data@, authority->0)
    } else if class.data@[IS_FROZEN_OFFSET as int] == 1 {
        Err(ProgramError::InvalidAccountData)
    } else {
        Ok(())
    }
}

impl<'info> Class<'info> {
    pub const DISCRIMINATOR: u8 = 1;

    pub const MINIMUM_CLASS_SIZE: usize = 36;

    /// The bytes this class is laid out as.
    pub open spec fn layout(&self) -> Seq<u8> {
        class_layout(
            self.authority,
            self.is_permissioned,
            self.is_frozen,
            self.name.spec_bytes(),
            self.metadata.spec_bytes(),
        )
    }

    /// Check if the program id is valid
    pub fn check_program_id(class: &AccountInfo) -> (r: Result<(), ProgramError>)
        ensures
            r == if class.owner == ID {
                Ok::<(), ProgramError>(())
            } else {
                Err(ProgramError::IncorrectProgramId)
            },
    {
        if !key_eq(class.owner(), &ID) {
            return Err(ProgramError::IncorrectProgramId);
        }
        Ok(())
    }

    pub fn check_discriminator_unchecked(data: &[u8]) -> (r: Result<(), ProgramError>)
        requires
            data@.len() >= 1,
        ensures
            r == if data@[0] == Self::DISCRIMINATOR {
                Ok::<(), ProgramError>(())
            } else {
                Err(ProgramError::InvalidAccountData)
            },
    {
        if data[0] != Self::DISCRIMINATOR {
            return Err(ProgramError::InvalidAccountData);
        }
        Ok(())
    }

    pub fn check_authority_unchecked(data: &[u8], authority: &AccountInfo) -> (r: Result<
        (),
        ProgramError,
    >)
        requires
            data@.len() >= AUTHORITY_OFFSET + 32,
        ensures
            r == spec_check_authority_unchecked(data@, *authority),
    {
        if !authority.is_signer() {
            return Err(ProgramError::MissingRequiredSignature);
        }
        let recorded = &data[AUTHORITY_OFFSET..AUTHORITY_OFFSET + 32];
        if !crate::account::bytes_eq(authority.key().as_slice(), recorded) {
            return Err(ProgramError::InvalidAccountData);
        }
        Ok(())
    }

    pub fn check_authority(class: &AccountInfo, authority: &AccountInfo) -> (r: Result<
        (),
        ProgramError,
    >)
        requires
            class_readable(*class),
        ensures
            r == spec_check_authority(*class, *authority),
    {
        Self::check_program_id(class)?;
        let data = class.try_borrow_data();
        Self::check_discriminator_unchecked(data)?;
        Self::check_authority_unchecked(data, authority)
    }

    pub fn check_permission(class: &AccountInfo, authority: Option<&AccountInfo>) -> (r: Result<
        (),
        ProgramError,
    >)
        requires
            class_readable(*class),
        ensures
            r == spec_check_permission(
                *class,
                match authority {
                    Some(a) => Some(*a),
                    None => None,
                },
            ),
    {
        Self::check_program_id(class)?;
        let data = class.try_borrow_data();
        Self::check_discriminator_unchecked(data)?;
        if data[IS_PERMISSIONED_OFFSET] == 1 {
            match authority {
                None => {
                    return Err(ProgramError::InvalidAccountData);
                },
                Some(authority) => {
                    Self::check_authority_unchecked(data, authority)?;
                },
            }
        }
        if data[IS_FROZEN_OFFSET] == 1 {
            return Err(ProgramError::InvalidAccountData);
        }
        Ok(())
    }

    /// Sets `is_permissioned` once the authority is checked.
    pub fn update_is_permissioned_unchecked(
        data: &mut [u8],
        authority: &AccountInfo,
        is_permissioned: bool,
    ) -> (r: Result<(), ProgramError>)
        requires
            old(data)@.len() >= Self::MINIMUM_CLASS_SIZE,
        ensures
            r == spec_check_authority_unchecked(old(data)@, *authority),
            r is Ok ==> final(data)@ == old(data)@.update(
                IS_PERMISSIONED_OFFSET as int,
                if is_permissioned {
                    1u8
                } else {
                    0u8
                },
            ),
            r is Err ==> final(data)@ == old(data)@,
    {
        Self::check_authority_unchecked(data, authority)?;
        let v: u8 = if is_permissioned {
            1
        } else {
            0
        };
        if data[IS_PERMISSIONED_OFFSET] == v {
            return Ok(());
        }
        data[IS_PERMISSIONED_OFFSET] = v;
        Ok(())
    }

    /// Sets `is_frozen` once the authority is checked.
    pub fn update_is_frozen_unchecked(
        class: &mut AccountInfo,
        authority: &AccountInfo,
        is_frozen: bool,
    ) -> (r: Result<(), ProgramError>)
        requires
            old(class).data@.len() >= Self::MINIMUM_CLASS_SIZE,
        ensures
            r == spec_check_authority_unchecked(old(class).data@, *authority),
            final(class).key == old(class).key,
            final(class).owner == old(class).owner,
            final(class).is_signer == old(class).is_signer,
            final(class).lamports == old(class).lamports,
            r is Ok ==> final(class).data@ == old(class).data@.update(
                IS_FROZEN_OFFSET as int,
                if is_frozen {
                    1u8
                } else {
                    0u8
                },
            ),
            r is Err ==> final(class).data@ == old(class).data@,
    {
        Self::check_authority_unchecked(class.data.as_slice(), authority)?;
        let v: u8 = if is_frozen {
            1
        } else {
            0
        };
        if class.data[IS_FROZEN_OFFSET] == v {
            return Ok(());
        }
        class.data.set(IS_FROZEN_OFFSET, v);
        Ok(())
    }

    /// Replaces the metadata, resizing the class account to fit it.
    ///
    /// `new_minimum_balance` is the rent-exempt minimum of the new size; the
    /// result is the top-up that `payer` owes the class, as in
    /// `resize_account`.
    pub fn update_metadata_unchecked(
        class: &mut AccountInfo,
        payer: &mut AccountInfo,
        metadata: &str,
        new_minimum_balance: u64,
    ) -> (top_up: Option<u64>)
        requires
            old(class).data@.len() >= Self::MINIMUM_CLASS_SIZE,
            Self::MINIMUM_CLASS_SIZE + old(class).data@[NAME_LEN_OFFSET as int]
                + metadata.spec_bytes().len() <= usize::MAX,
        ensures
            ({
                let start = Self::MINIMUM_CLASS_SIZE + old(class).data@[NAME_LEN_OFFSET as int];
                &&& final(class).data@ == resized(old(class).data@, start) + metadata.spec_bytes()
                &&& (top_up, final(class).lamports, final(payer).lamports) == resize_balances(
                    old(class).lamports,
                    old(payer).lamports,
                    old(class).data@.len() as int,
                    start + metadata.spec_bytes().len(),
                    new_minimum_balance,
                )
            }),
            final(class).key == old(class).key,
            final(class).owner == old(class).owner,
            final(class).is_signer == old(class).is_signer,
            final(payer).key == old(payer).key,
            final(payer).owner == old(payer).owner,
            final(payer).is_signer == old(payer).is_signer,
            final(payer).data@ == old(payer).data@,
    {
        let name_len = class.data[NAME_LEN_OFFSET] as usize;
        let offset = name_len + NAME_LEN_OFFSET + 1;
        let current_len = class.data_len();
        let bytes = metadata.as_bytes();
        let new_len = offset + bytes.len();
        let ghost d0 = class.data@;
        let mut top_up = None;
        if new_len != current_len {
            top_up = resize_account(class, payer, new_len, new_len < current_len, new_minimum_balance);
        }
        let buffer = class.data.as_mut_slice();
        crate::utils::copy_bytes(buffer, offset, bytes);
        assert(class.data@ =~= resized(d0, offset as int) + bytes@);
        top_up
    }

    /// Writes this class into a fresh account.
    pub fn initialize_unchecked(&self, account_info: &mut AccountInfo) -> (r: Result<
        (),
        ProgramError,
    >)
        ensures
            final(account_info).key == old(account_info).key,
            final(account_info).owner == old(account_info).owner,
            final(account_info).is_signer == old(account_info).is_signer,
            final(account_info).lamports == old(account_info).lamports,
            r == if Self::MINIMUM_CLASS_SIZE + self.name.spec_bytes().len()
                + self.metadata.spec_bytes().len() > old(account_info).data@.len() {
                Err(ProgramError::InvalidAccountData)
            } else if old(account_info).data@[0] != 0 {
                Err(ProgramError::AccountAlreadyInitialized)
            } else if self.name.spec_bytes().len() > 255 {
                Err(ProgramError::ArithmeticOverflow)
            } else {
                Ok(())
            },
            r is Ok ==> final(account_info).data@ == splice(
                old(account_info).data@,
                0,
                self.layout(),
            ),
            r == Err::<(), ProgramError>(ProgramError::ArithmeticOverflow) ==> final(account_info).data@ == splice(
                old(account_info).data@,
                0,
                class_header(self.authority, self.is_permissioned, self.is_frozen),
            ),
            r is Err && r != Err::<(), ProgramError>(ProgramError::ArithmeticOverflow) ==> final(account_info).data@ == old(account_info).data@,
    {
        let name = self.name.as_bytes();
        let metadata = self.metadata.as_bytes();
        let len = account_info.data_len();
        if metadata.len() > len || name.len() > len - metadata.len() || Self::MINIMUM_CLASS_SIZE
            > len - metadata.len() - name.len() {
            return Err(ProgramError::InvalidAccountData);
        }
        if account_info.data[0] != 0 {
            return Err(ProgramError::AccountAlreadyInitialized);
        }
        let ghost d0 = account_info.data@;
        let ghost name_s = name@;
        let ghost meta_s = metadata@;
        let data = account_info.data.as_mut_slice();
        let _ = ByteWriter::write_with_offset(data, DISCRIMINATOR_OFFSET, Self::DISCRIMINATOR);
        let _ = ByteWriter::write_with_offset(data, AUTHORITY_OFFSET, self.authority);
        let _ = ByteWriter::write_with_offset(data, IS_PERMISSIONED_OFFSET, self.is_permissioned);
        let _ = ByteWriter::write_with_offset(data, IS_FROZEN_OFFSET, self.is_frozen);
        let ghost fixed = class_header(self.authority, self.is_permissioned, self.is_frozen);
        proof {
            let s1 = seq![Self::DISCRIMINATOR];
            let s2 = self.authority@;
            let s3 = bool::spec_encode(self.is_permissioned);
            let s4 = bool::spec_encode(self.is_frozen);
            crate::utils::lemma_splice_concat(d0, 0, s1, s2);
            crate::utils::lemma_splice_concat(d0, 0, s1 + s2, s3);
            crate::utils::lemma_splice_concat(d0, 0, s1 + s2 + s3, s4);
            assert(data@ == splice(d0, 0, fixed));
        }
        let mut variable_data = ByteWriter::new_with_offset(data, NAME_LEN_OFFSET);
        variable_data.write_str_with_length(self.name)?;
        proof {
            let l = seq![name_s.len() as u8];
            crate::utils::lemma_splice_concat(d0, 0, fixed, l);
            crate::utils::lemma_splice_concat(d0, 0, fixed + l, name_s);
            assert(variable_data.bytes() == splice(d0, 0, fixed + l + name_s));
            assert(variable_data.pos() == NAME_LEN_OFFSET + 1 + name_s.len());
        }
        if metadata.len() != 0 {
            let _ = variable_data.write_str(self.metadata);
            proof {
                let l = seq![name_s.len() as u8];
                crate::utils::lemma_splice_concat(d0, 0, fixed + l + name_s, meta_s);
            }
        }
        proof {
            let l = seq![name_s.len() as u8];
            assert(fixed + l + name_s + meta_s =~= self.layout());
            if meta_s.len() == 0 {
                assert(fixed + l + name_s =~= self.layout());
            }
        }
        Ok(())
    }
}

} // verus!

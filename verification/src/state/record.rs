use vstd::prelude::*;

use crate::account::{bytes_eq, key_eq, AccountInfo, Pubkey};
use crate::constants::{CLOSE_ACCOUNT_DISCRIMINATOR, MAX_METADATA_LEN};
use crate::error::ProgramError;
use crate::state::class::{
    class_readable, spec_check_authority, spec_check_authority_unchecked, Class,
    IS_PERMISSIONED_OFFSET,
};
use crate::token2022::constants::TOKEN_2022_PROGRAM_ID;
use crate::token2022::state::{
    is_mint_data, is_token_account_data, token_account_readable, Mint, Token, MINT_BASE_LEN, MINT_SUPPLY_OFFSET,
    TOKEN_OWNER_OFFSET,
};
use crate::utils::{
    copy_bytes, resize_account, resize_balances, resized, splice,
    ByteWriter, Pod,
};
use crate::ID;

verus! {

pub const DISCRIMINATOR_OFFSET: usize = 0;

pub const CLASS_OFFSET: usize = 1;

pub const OWNER_TYPE_OFFSET: usize = 33;

pub const OWNER_OFFSET: usize = 34;

pub const IS_FROZEN_OFFSET: usize = 66;

pub const EXPIRY_OFFSET: usize = 67;

pub const SEED_LEN_OFFSET: usize = 75;

pub const SEED_OFFSET: usize = 76;

/// Who owns a record.
#[derive(Debug, Clone, Copy, PartialEq, Eq, Structural)]
pub enum OwnerType {
    /// The owner is a pubkey
    Pubkey,
    /// The owner is a token
    Token,
}

impl Pod for OwnerType {
    open spec fn spec_size() -> nat {
        1
    }

    open spec fn spec_decode(bytes: Seq<u8>) -> Option<OwnerType> {
        if bytes[0] == 0 {
            Some(OwnerType::Pubkey)
        } else if bytes[0] == 1 {
            Some(OwnerType::Token)
        } else {
            None
        }
    }

    open spec fn spec_encode(v: OwnerType) -> Seq<u8> {
        seq![owner_type_byte(v)]
    }

    proof fn lemma_encode_decode(v: OwnerType) {
    }

    proof fn lemma_decode_encode(bytes: Seq<u8>) {
        assert(Self::spec_encode(Self::spec_decode(bytes)->0) =~= bytes);
    }

    fn size() -> (n: usize) {
        1
    }

    fn decode(bytes: &[u8]) -> (r: Option<OwnerType>) {
        if bytes[0] == 0 {
            Some(OwnerType::Pubkey)
        } else if bytes[0] == 1 {
            Some(OwnerType::Token)
        } else {
            None
        }
    }

    fn encode(&self) -> (b: Vec<u8>) {
        let mut b = Vec::new();
        b.push(owner_type_to_byte(*self));
        assert(b@ =~= Self::spec_encode(*self));
        b
    }
}

/// The byte an owner type is stored as.
pub open spec fn owner_type_byte(t: OwnerType) -> u8 {
    match t {
        OwnerType::Pubkey => 0u8,
        OwnerType::Token => 1u8,
    }
}

pub fn owner_type_to_byte(t: OwnerType) -> (b: u8)
    ensures
        b == owner_type_byte(t),
{
    match t {
        OwnerType::Pubkey => 0,
        OwnerType::Token => 1,
    }
}

/// A record: a named entry of a class, held by an owner.
///
/// Laid out as the discriminator, the class, the owner type, the owner,
/// `is_frozen`, the expiry, the seed preceded by its length in one byte, and
/// the data up to the end of the account.
pub struct Record<'info> {
    /// The class this record belongs to
    pub class: Pubkey,
    /// The owner_type enum
    pub owner_type: OwnerType,
    /// The owner of this record
    pub owner: Pubkey,
    /// Whether the record is frozen
    pub is_frozen: bool,
    /// Optional expiration timestamp, if not set, the expiry is 0
    pub expiry: i64,
    /// The record name/key
    pub seed: &'info [u8],
    /// The record's data content
    pub data: &'info [u8],
}

/// The fixed-size part of a record account.
pub open spec fn record_header(
    class: Pubkey,
    owner_type: OwnerType,
    owner: Pubkey,
    is_frozen: bool,
    expiry: i64,
) -> Seq<u8> {
    seq![Record::DISCRIMINATOR] + class@ + OwnerType::spec_encode(owner_type) + owner@
        + bool::spec_encode(is_frozen) + i64::spec_encode(expiry)
}

/// The bytes of a record account holding these fields.
pub open spec fn record_layout(
    class: Pubkey,
    owner_type: OwnerType,
    owner: Pubkey,
    is_frozen: bool,
    expiry: i64,
    seed: Seq<u8>,
    data: Seq<u8>,
) -> Seq<u8> {
    record_header(class, owner_type, owner, is_frozen, expiry) + seq![seed.len() as u8] + seed
        + data
}

/// The record fields, read back from account data.
pub open spec fn record_class(d: Seq<u8>) -> Seq<u8> {
    d.subrange(CLASS_OFFSET as int, CLASS_OFFSET + 32)
}

pub open spec fn record_owner(d: Seq<u8>) -> Seq<u8> {
    d.subrange(OWNER_OFFSET as int, OWNER_OFFSET + 32)
}

pub open spec fn record_owner_type(d: Seq<u8>) -> u8 {
    d[OWNER_TYPE_OFFSET as int]
}

pub open spec fn record_is_frozen(d: Seq<u8>) -> bool {
    d[IS_FROZEN_OFFSET as int] == 1
}

pub open spec fn record_expiry(d: Seq<u8>) -> i64 {
    i64::spec_decode(d.subrange(EXPIRY_OFFSET as int, EXPIRY_OFFSET + 8))->0
}

pub open spec fn record_seed(d: Seq<u8>) -> Seq<u8> {
    d.subrange(SEED_OFFSET as int, SEED_OFFSET + d[SEED_LEN_OFFSET as int])
}

/// Where the record data starts.
pub open spec fn record_data_offset(d: Seq<u8>) -> int {
    SEED_OFFSET + d[SEED_LEN_OFFSET as int]
}

pub open spec fn record_data(d: Seq<u8>) -> Seq<u8> {
    d.subrange(record_data_offset(d), d.len() as int)
}

/// Whether the record fields can be read from an account of the program
/// without reading past its end.
pub open spec fn record_readable(record: AccountInfo) -> bool {
    record.owner == ID ==> {
        &&& record.data@.len() >= 1
        &&& record.data@[0] == Record::DISCRIMINATOR ==> record.data@.len()
            >= Record::MINIMUM_RECORD_SIZE
    }
}

/// Whether a class account handed in to vouch for a delegate can be read:
/// its permission flag is read before its discriminator.
pub open spec fn delegate_class_readable(class: AccountInfo) -> bool {
    class.owner == ID ==> class.data@.len() > IS_PERMISSIONED_OFFSET
}

pub open spec fn spec_check_program_id_and_discriminator(record: AccountInfo) -> Result<
    (),
    ProgramError,
> {
    if record.owner != ID {
        Err(ProgramError::IncorrectProgramId)
    } else if record.data@[0] != Record::DISCRIMINATOR {
        Err(ProgramError::InvalidAccountData)
    } else {
        Ok(())
    }
}

/// A delegate is the authority of a permissioned class.
pub open spec fn spec_validate_delegate(class: AccountInfo, authority: AccountInfo) -> Result<
    (),
    ProgramError,
> {
    if class.owner != ID {
        Err(ProgramError::IncorrectProgramId)
    } else if class.data@[IS_PERMISSIONED_OFFSET as int] != 1 {
        Err(ProgramError::InvalidAccountData)
    } else if class.data@[0] != Class::DISCRIMINATOR {
        Err(ProgramError::InvalidAccountData)
    } else {
        spec_check_authority_unchecked(class.data@, authority)
    }
}

/// The delegate branch shared by the owner checks: the class handed in must
/// be the record's class, and the authority must be its delegate.
pub open spec fn spec_delegate_of_record(
    record_data: Seq<u8>,
    class: Option<AccountInfo>,
    missing: ProgramError,
    authority: AccountInfo,
) -> Result<(), ProgramError> {
    match class {
        None => Err(missing),
        Some(c) => if c.key@ != record_class(record_data) {
            Err(ProgramError::InvalidAccountData)
        } else {
            spec_validate_delegate(c, authority)
        },
    }
}

pub open spec fn spec_check_owner_or_delegate(
    record: AccountInfo,
    class: Option<AccountInfo>,
    authority: AccountInfo,
) -> Result<(), ProgramError> {
    if spec_check_program_id_and_discriminator(record) is Err {
        spec_check_program_id_and_discriminator(record)
    } else if !authority.is_signer {
        Err(ProgramError::MissingRequiredSignature)
    } else if record_owner_type(record.data@) != owner_type_byte(OwnerType::Pubkey) {
        Err(ProgramError::InvalidAccountData)
    } else if authority.key@ == record_owner(record.data@) {
        Ok(())
    } else {
        spec_delegate_of_record(
            record.data@,
            class,
            ProgramError::MissingRequiredSignature,
            authority,
        )
    }
}

/// What `check_owner_or_delegate_or_deleted` decides: `Ok(true)` when the
/// record is held by a mint whose supply is gone and the class authority
/// asks for it, so that the mint is to be closed to the authority.
pub open spec fn spec_check_owner_or_delegate_or_deleted(
    record: AccountInfo,
    class: Option<AccountInfo>,
    authority: AccountInfo,
    mint: Option<AccountInfo>,
) -> Result<bool, ProgramError> {
    let d = record.data@;
    if spec_check_program_id_and_discriminator(record) is Err {
        Err(spec_check_program_id_and_discriminator(record)->Err_0)
    } else if record_owner_type(d) == owner_type_byte(OwnerType::Token) {
        if mint is None {
            Err(ProgramError::InvalidAccountData)
        } else if mint->0.key@ != record_owner(d) {
            Err(ProgramError::InvalidAccountData)
        } else if mint->0.owner != TOKEN_2022_PROGRAM_ID {
            Err(ProgramError::IncorrectProgramId)
        } else if mint->0.data@.len() < MINT_BASE_LEN {
            Err(ProgramError::InvalidAccountData)
        } else if u64::spec_decode(
            mint->0.data@.subrange(MINT_SUPPLY_OFFSET as int, MINT_SUPPLY_OFFSET + 8),
        )->0 != 0 {
            Err(ProgramError::InvalidAccountData)
        } else if class is None {
            Err(ProgramError::InvalidAccountData)
        } else if class->0.key@ != record_class(d) {
            Err(ProgramError::InvalidAccountData)
        } else if spec_check_authority(class->0, authority) is Err {
            Err(spec_check_authority(class->0, authority)->Err_0)
        } else {
            Ok(true)
        }
    } else if !authority.is_signer {
        Err(ProgramError::MissingRequiredSignature)
    } else if authority.key@ == record_owner(d) {
        Ok(false)
    } else {
        match spec_delegate_of_record(d, class, ProgramError::InvalidAccountData, authority) {
            Ok(_) => Ok(false),
            Err(e) => Err(e),
        }
    }
}

pub open spec fn spec_check_owner_or_delegate_tokenized(
    record: AccountInfo,
    class: Option<AccountInfo>,
    authority: AccountInfo,
    mint: AccountInfo,
    token_account: AccountInfo,
) -> Result<(), ProgramError> {
    let d = record.data@;
    let t = token_account.data@;
    if spec_check_program_id_and_discriminator(record) is Err {
        spec_check_program_id_and_discriminator(record)
    } else if !authority.is_signer {
        Err(ProgramError::MissingRequiredSignature)
    } else if mint.owner != TOKEN_2022_PROGRAM_ID {
        Err(ProgramError::IncorrectProgramId)
    } else if !is_mint_data(mint.data@) {
        Err(ProgramError::InvalidAccountData)
    } else if mint.key@ != record_owner(d) {
        Err(ProgramError::InvalidAccountData)
    } else if token_account.owner != TOKEN_2022_PROGRAM_ID {
        Err(ProgramError::IncorrectProgramId)
    } else if !is_token_account_data(t) {
        Err(ProgramError::InvalidAccountData)
    } else if authority.key@ == t.subrange(TOKEN_OWNER_OFFSET as int, TOKEN_OWNER_OFFSET + 32) {
        Ok(())
    } else {
        spec_delegate_of_record(d, class, ProgramError::InvalidAccountData, authority)
    }
}

/// What the updates of record data leave behind.
pub open spec fn spec_update_owner_type(d: Seq<u8>, owner_type: OwnerType) -> Seq<u8> {
    d.update(OWNER_TYPE_OFFSET as int, owner_type_byte(owner_type))
}

pub open spec fn spec_update_is_frozen(d: Seq<u8>, is_frozen: bool) -> Seq<u8> {
    d.update(
        IS_FROZEN_OFFSET as int,
        if is_frozen {
            1u8
        } else {
            0u8
        },
    )
}

pub open spec fn spec_update_owner(d: Seq<u8>, new_owner: Pubkey) -> (Result<(), ProgramError>, Seq<u8>) {
    if record_is_frozen(d) {
        (Err(ProgramError::InvalidAccountData), d)
    } else {
        (Ok(()), splice(d, OWNER_OFFSET as int, new_owner@))
    }
}

pub open spec fn spec_update_expiry(d: Seq<u8>, new_expiry: i64) -> (Result<(), ProgramError>, Seq<u8>) {
    if record_is_frozen(d) {
        (Err(ProgramError::InvalidAccountData), d)
    } else {
        (Ok(()), splice(d, EXPIRY_OFFSET as int, i64::spec_encode(new_expiry)))
    }
}

/// Record data with its data part replaced, before the discriminator check.
pub open spec fn spec_update_data(d: Seq<u8>, new_data: Seq<u8>) -> (Result<(), ProgramError>, Seq<u8>) {
    if record_is_frozen(d) {
        (Err(ProgramError::InvalidAccountData), d)
    } else if d[0] != Record::DISCRIMINATOR {
        (
            Err(ProgramError::InvalidAccountData),
            resized(d, record_data_offset(d) + new_data.len()),
        )
    } else {
        (Ok(()), resized(d, record_data_offset(d)) + new_data)
    }
}

/// The little-endian `u32` at `off`.
pub open spec fn u32_at(d: Seq<u8>, off: int) -> int {
    u32::spec_decode(d.subrange(off, off + 4))->0 as int
}

/// Where a field preceded by its `u32` length ends, if its length can be
/// read; the field itself is not required to fit.
pub open spec fn skip_field(d: Seq<u8>, off: int) -> Option<int> {
    if 0 <= off && off + 4 <= d.len() {
        Some(off + 4 + u32_at(d, off))
    } else {
        None
    }
}

/// Where `n` key-value pairs of such fields end.
pub open spec fn skip_pairs(d: Seq<u8>, off: int, n: nat) -> Option<int>
    decreases n,
{
    if n == 0 {
        Some(off)
    } else {
        match skip_field(d, off) {
            Some(o1) => match skip_field(d, o1) {
                Some(o2) => skip_pairs(d, o2, (n - 1) as nat),
                None => None,
            },
            None => None,
        }
    }
}

/// Where the name, symbol and uri of the token metadata held in the record
/// data end.
pub open spec fn metadata_fields_end(d: Seq<u8>) -> Option<int> {
    match skip_field(d, record_data_offset(d)) {
        Some(o1) => match skip_field(d, o1) {
            Some(o2) => skip_field(d, o2),
            None => None,
        },
        None => None,
    }
}

/// Where the token metadata held in the record data ends, additional
/// metadata included.
pub open spec fn metadata_end(d: Seq<u8>) -> Option<int> {
    match metadata_fields_end(d) {
        Some(o3) => if o3 + 4 <= d.len() {
            skip_pairs(d, o3 + 4, u32_at(d, o3) as nat)
        } else {
            None
        },
        None => None,
    }
}

proof fn lemma_skip_pairs_grows(d: Seq<u8>, off: int, n: nat)
    requires
        skip_pairs(d, off, n) is Some,
    ensures
        skip_pairs(d, off, n)->0 >= off,
    decreases n,
{
    if n > 0 {
        let o1 = skip_field(d, off)->0;
        let o2 = skip_field(d, o1)->0;
        lemma_skip_pairs_grows(d, o2, (n - 1) as nat);
    }
}

/// Whether the token metadata held in the record data can be walked: its
/// fields and additional metadata are laid out within the data, and the
/// name, symbol and uri, and each pair of additional metadata, fit in the
/// instructions that write a mint's metadata.
pub open spec fn metadata_readable(d: Seq<u8>) -> bool {
    &&& d.len() >= Record::MINIMUM_RECORD_SIZE
    &&& metadata_end(d) is Some
    &&& metadata_end(d)->0 <= d.len()
    &&& metadata_fields_end(d)->0 - record_data_offset(d) <= MAX_METADATA_LEN
    &&& forall|i: int|
        0 <= i < metadata_pairs_count(d) ==> #[trigger] metadata_pair(d, i).len()
            <= MAX_METADATA_PAIR_LEN
}

/// The longest key-value pair of additional metadata that one update of a
/// mint's metadata carries.
pub const MAX_METADATA_PAIR_LEN: usize = 1991;

/// Where the key-value pairs of additional metadata start: after the name,
/// symbol and uri, and their count.
pub open spec fn metadata_pairs_start(d: Seq<u8>) -> int {
    metadata_fields_end(d)->0 + 4
}

/// How many key-value pairs of additional metadata there are.
pub open spec fn metadata_pairs_count(d: Seq<u8>) -> nat {
    u32_at(d, metadata_fields_end(d)->0) as nat
}

/// The bytes of the `i`th key-value pair of additional metadata, each
/// preceded by its length.
pub open spec fn metadata_pair(d: Seq<u8>, i: int) -> Seq<u8> {
    d.subrange(
        skip_pairs(d, metadata_pairs_start(d), i as nat)->0,
        skip_pairs(d, metadata_pairs_start(d), (i + 1) as nat)->0,
    )
}

/// Skipping `a + b` pairs is skipping `a`, then `b`.
pub proof fn lemma_skip_pairs_split(d: Seq<u8>, off: int, a: nat, b: nat)
    ensures
        skip_pairs(d, off, a + b) == match skip_pairs(d, off, a) {
            Some(m) => skip_pairs(d, m, b),
            None => None::<int>,
        },
    decreases a,
{
    if a > 0 {
        match skip_field(d, off) {
            Some(o1) => match skip_field(d, o1) {
                Some(o2) => {
                    lemma_skip_pairs_split(d, o2, (a - 1) as nat, b);
                    assert((a + b - 1) as nat == ((a - 1) as nat + b) as nat);
                },
                None => {},
            },
            None => {},
        }
    }
}

/// The token metadata ends after its three fields and the count of its
/// additional metadata.
pub proof fn lemma_metadata_end_bounds(d: Seq<u8>)
    requires
        metadata_end(d) is Some,
    ensures
        metadata_fields_end(d) is Some,
        metadata_fields_end(d)->0 >= record_data_offset(d) + 12,
        metadata_end(d)->0 >= metadata_fields_end(d)->0 + 4,
{
    let o3 = metadata_fields_end(d)->0;
    lemma_skip_pairs_grows(d, o3 + 4, u32_at(d, o3) as nat);
}

pub proof fn lemma_skip_pairs_passes_first(d: Seq<u8>, off: int, n: nat)
    requires
        n > 0,
        skip_pairs(d, off, n) is Some,
    ensures
        skip_field(d, off) is Some,
        skip_field(d, skip_field(d, off)->0) is Some,
        skip_pairs(d, off, n)->0 >= skip_field(d, skip_field(d, off)->0)->0,
        skip_field(d, skip_field(d, off)->0)->0 >= skip_field(d, off)->0,
{
    let o1 = skip_field(d, off)->0;
    let o2 = skip_field(d, o1)->0;
    lemma_skip_pairs_grows(d, o2, (n - 1) as nat);
}

/// Reads the `u32` length at `off` and skips the field it precedes, when the
/// length lies within the data and the end fits in `usize`.
fn skip_field_checked(data: &[u8], off: usize) -> (r: Option<usize>)
    ensures
        match r {
            Some(o) => skip_field(data@, off as int) == Some(o as int),
            None => skip_field(data@, off as int) is None || skip_field(data@, off as int)->0
                > usize::MAX,
        },
{
    if off > data.len() || data.len() - off < 4 {
        return None;
    }
    let n = match u32::decode(&data[off..off + 4]) {
        Some(n) => n as usize,
        None => {
            return None;
        },
    };
    match off.checked_add(4) {
        Some(x) => x.checked_add(n),
        None => None,
    }
}

/// Reads the `u32` length at `off` and skips the field it precedes.
pub fn skip_field_exec(data: &[u8], off: usize) -> (r: usize)
    requires
        skip_field(data@, off as int) is Some,
        skip_field(data@, off as int)->0 <= usize::MAX,
    ensures
        r == skip_field(data@, off as int)->0,
{
    let n = u32::decode(&data[off..off + 4]);
    match n {
        Some(n) => off + 4 + n as usize,
        None => off,
    }
}

impl<'info> Record<'info> {
    /// The discriminator byte used to identify this account type
    pub const DISCRIMINATOR: u8 = 2;

    /// Minimum size required for a valid record account
    pub const MINIMUM_RECORD_SIZE: usize = 76;

    /// The bytes this record is laid out as.
    pub open spec fn layout(&self) -> Seq<u8> {
        record_layout(
            self.class,
            self.owner_type,
            self.owner,
            self.is_frozen,
            self.expiry,
            self.seed@,
            self.data@,
        )
    }

    /// Check if the program id and discriminator are valid
    pub fn check_program_id_and_discriminator(account_info: &AccountInfo) -> (r: Result<
        (),
        ProgramError,
    >)
        requires
            record_readable(*account_info),
        ensures
            r == spec_check_program_id_and_discriminator(*account_info),
    {
        if !key_eq(account_info.owner(), &ID) {
            return Err(ProgramError::IncorrectProgramId);
        }
        let data = account_info.try_borrow_data();
        if data[DISCRIMINATOR_OFFSET] != Self::DISCRIMINATOR {
            return Err(ProgramError::InvalidAccountData);
        }
        Ok(())
    }

    pub fn validate_delegate(class: &AccountInfo, authority: &AccountInfo) -> (r: Result<
        (),
        ProgramError,
    >)
        requires
            delegate_class_readable(*class),
        ensures
            r == spec_validate_delegate(*class, *authority),
    {
        Class::check_program_id(class)?;
        let class_data = class.try_borrow_data();
        if class_data[IS_PERMISSIONED_OFFSET] != 1 {
            return Err(ProgramError::InvalidAccountData);
        }
        Class::check_discriminator_unchecked(class_data)?;
        Class::check_authority_unchecked(class_data, authority)
    }

    /// The class handed in must be the record's class, and the authority
    /// its delegate.
    fn delegate_of_record(
        record_data: &[u8],
        class: Option<&AccountInfo>,
        missing: ProgramError,
        authority: &AccountInfo,
    ) -> (r: Result<(), ProgramError>)
        requires
            record_data@.len() >= Self::MINIMUM_RECORD_SIZE,
            class matches Some(c) ==> delegate_class_readable(*c),
        ensures
            r == spec_delegate_of_record(
                record_data@,
                match class {
                    Some(c) => Some(*c),
                    None => None,
                },
                missing,
                *authority,
            ),
    {
        let class = match class {
            Some(c) => c,
            None => {
                return Err(missing);
            },
        };
        if !bytes_eq(class.key().as_slice(), &record_data[CLASS_OFFSET..CLASS_OFFSET + 32]) {
            return Err(ProgramError::InvalidAccountData);
        }
        Self::validate_delegate(class, authority)
    }

    pub fn check_owner_or_delegate_or_deleted(
        record: &AccountInfo,
        class: Option<&AccountInfo>,
        authority: &AccountInfo,
        mint: Option<&AccountInfo>,
    ) -> (r: Result<bool, ProgramError>)
        requires
            record_readable(*record),
            class matches Some(c) ==> delegate_class_readable(*c) && class_readable(*c),
        ensures
            r == spec_check_owner_or_delegate_or_deleted(
                *record,
                match class {
                    Some(c) => Some(*c),
                    None => None,
                },
                *authority,
                match mint {
                    Some(m) => Some(*m),
                    None => None,
                },
            ),
    {
        Self::check_program_id_and_discriminator(record)?;
        let data = record.try_borrow_data();
        if data[OWNER_TYPE_OFFSET] == owner_type_to_byte(OwnerType::Token) {
            let mint = match mint {
                Some(m) => m,
                None => {
                    return Err(ProgramError::InvalidAccountData);
                },
            };
            if !bytes_eq(mint.key().as_slice(), &data[OWNER_OFFSET..OWNER_OFFSET + 32]) {
                return Err(ProgramError::InvalidAccountData);
            }
            if Mint::get_supply(mint)? != 0 {
                return Err(ProgramError::InvalidAccountData);
            }
            let class = match class {
                Some(c) => c,
                None => {
                    return Err(ProgramError::InvalidAccountData);
                },
            };
            if !bytes_eq(class.key().as_slice(), &data[CLASS_OFFSET..CLASS_OFFSET + 32]) {
                return Err(ProgramError::InvalidAccountData);
            }
            Class::check_authority(class, authority)?;
            return Ok(true);
        }
        if !authority.is_signer() {
            return Err(ProgramError::MissingRequiredSignature);
        }
        if bytes_eq(authority.key().as_slice(), &data[OWNER_OFFSET..OWNER_OFFSET + 32]) {
            return Ok(false);
        }
        Self::delegate_of_record(data, class, ProgramError::InvalidAccountData, authority)?;
        Ok(false)
    }

    pub fn check_owner_or_delegate(
        record: &AccountInfo,
        class: Option<&AccountInfo>,
        authority: &AccountInfo,
    ) -> (r: Result<(), ProgramError>)
        requires
            record_readable(*record),
            class matches Some(c) ==> delegate_class_readable(*c),
        ensures
            r == spec_check_owner_or_delegate(
                *record,
                match class {
                    Some(c) => Some(*c),
                    None => None,
                },
                *authority,
            ),
    {
        Self::check_program_id_and_discriminator(record)?;
        if !authority.is_signer() {
            return Err(ProgramError::MissingRequiredSignature);
        }
        let data = record.try_borrow_data();
        if data[OWNER_TYPE_OFFSET] != owner_type_to_byte(OwnerType::Pubkey) {
            return Err(ProgramError::InvalidAccountData);
        }
        if bytes_eq(authority.key().as_slice(), &data[OWNER_OFFSET..OWNER_OFFSET + 32]) {
            return Ok(());
        }
        Self::delegate_of_record(data, class, ProgramError::MissingRequiredSignature, authority)
    }

    pub fn check_owner_or_delegate_tokenized(
        record: &AccountInfo,
        class: Option<&AccountInfo>,
        authority: &AccountInfo,
        mint: &AccountInfo,
        token_account: &AccountInfo,
    ) -> (r: Result<(), ProgramError>)
        requires
            record_readable(*record),
            token_account_readable(*mint),
            token_account_readable(*token_account),
            class matches Some(c) ==> delegate_class_readable(*c),
        ensures
            r == spec_check_owner_or_delegate_tokenized(
                *record,
                match class {
                    Some(c) => Some(*c),
                    None => None,
                },
                *authority,
                *mint,
                *token_account,
            ),
    {
        Self::check_program_id_and_discriminator(record)?;
        if !authority.is_signer() {
            return Err(ProgramError::MissingRequiredSignature);
        }
        Mint::check_program_id(mint)?;
        let mint_data = mint.try_borrow_data();
        Mint::check_discriminator_unchecked(mint_data)?;
        let record_data = record.try_borrow_data();
        if !bytes_eq(mint.key().as_slice(), &record_data[OWNER_OFFSET..OWNER_OFFSET + 32]) {
            return Err(ProgramError::InvalidAccountData);
        }
        Token::check_program_id(token_account)?;
        let token_data = token_account.try_borrow_data();
        Token::check_discriminator_unchecked(token_data)?;
        let token_owner = Token::get_owner_unchecked(token_data)?;
        if bytes_eq(authority.key().as_slice(), token_owner.as_slice()) {
            return Ok(());
        }
        Self::delegate_of_record(
            record_data,
            class,
            ProgramError::InvalidAccountData,
            authority,
        )
    }

    pub fn update_owner_type_unchecked(data: &mut [u8], owner_type: OwnerType) -> (r: Result<
        (),
        ProgramError,
    >)
        requires
            old(data)@.len() > OWNER_TYPE_OFFSET,
        ensures
            r is Ok,
            final(data)@ == spec_update_owner_type(old(data)@, owner_type),
    {
        let b = owner_type_to_byte(owner_type);
        if data[OWNER_TYPE_OFFSET] == b {
            assert(data@ =~= spec_update_owner_type(data@, owner_type));
            return Ok(());
        }
        data[OWNER_TYPE_OFFSET] = b;
        Ok(())
    }

    pub fn update_is_frozen_unchecked(data: &mut [u8], is_frozen: bool) -> (r: Result<
        (),
        ProgramError,
    >)
        requires
            old(data)@.len() > IS_FROZEN_OFFSET,
        ensures
            r is Ok,
            final(data)@ == spec_update_is_frozen(old(data)@, is_frozen),
    {
        let b: u8 = if is_frozen {
            1
        } else {
            0
        };
        if data[IS_FROZEN_OFFSET] == b {
            assert(data@ =~= spec_update_is_frozen(data@, is_frozen));
            return Ok(());
        }
        data[IS_FROZEN_OFFSET] = b;
        Ok(())
    }

    pub fn update_owner_unchecked(data: &mut [u8], new_owner: &Pubkey) -> (r: Result<
        (),
        ProgramError,
    >)
        requires
            old(data)@.len() > IS_FROZEN_OFFSET,
        ensures
            (r, final(data)@) == spec_update_owner(old(data)@, *new_owner),
    {
        if data[IS_FROZEN_OFFSET] == 1 {
            return Err(ProgramError::InvalidAccountData);
        }
        if bytes_eq(new_owner.as_slice(), &data[OWNER_OFFSET..OWNER_OFFSET + 32]) {
            assert(data@ =~= splice(data@, OWNER_OFFSET as int, new_owner@));
            return Ok(());
        }
        copy_bytes(data, OWNER_OFFSET, new_owner.as_slice());
        Ok(())
    }

    pub fn update_expiry_unchecked(data: &mut [u8], new_expiry: i64) -> (r: Result<
        (),
        ProgramError,
    >)
        requires
            old(data)@.len() >= EXPIRY_OFFSET + 8,
        ensures
            (r, final(data)@) == spec_update_expiry(old(data)@, new_expiry),
    {
        if data[IS_FROZEN_OFFSET] == 1 {
            return Err(ProgramError::InvalidAccountData);
        }
        let bytes = new_expiry.encode();
        copy_bytes(data, EXPIRY_OFFSET, bytes.as_slice());
        Ok(())
    }

    /// Replaces the record data, resizing the account to fit it.
    ///
    /// `new_minimum_balance` is the rent-exempt minimum of the new size; the
    /// second part of the result is the top-up that `payer` owes the record,
    /// as in `resize_account`.
    pub fn update_data_unchecked(
        record: &mut AccountInfo,
        payer: &mut AccountInfo,
        data: &[u8],
        new_minimum_balance: u64,
    ) -> (r: (Result<(), ProgramError>, Option<u64>))
        requires
            old(record).data@.len() >= Self::MINIMUM_RECORD_SIZE,
            Self::MINIMUM_RECORD_SIZE + old(record).data@[SEED_LEN_OFFSET as int]
                + data@.len() <= usize::MAX,
        ensures
            (r.0, final(record).data@) == spec_update_data(old(record).data@, data@),
            final(record).key == old(record).key,
            final(record).owner == old(record).owner,
            final(record).is_signer == old(record).is_signer,
            final(payer).key == old(payer).key,
            final(payer).owner == old(payer).owner,
            final(payer).is_signer == old(payer).is_signer,
            final(payer).data@ == old(payer).data@,
            (r.1, final(record).lamports, final(payer).lamports) == if record_is_frozen(
                old(record).data@,
            ) {
                (None, old(record).lamports, old(payer).lamports)
            } else {
                resize_balances(
                    old(record).lamports,
                    old(payer).lamports,
                    old(record).data@.len() as int,
                    record_data_offset(old(record).data@) + data@.len(),
                    new_minimum_balance,
                )
            },
    {
        if record.data[IS_FROZEN_OFFSET] == 1 {
            return (Err(ProgramError::InvalidAccountData), None);
        }
        let seed_len = record.data[SEED_LEN_OFFSET] as usize;
        let offset = seed_len + SEED_LEN_OFFSET + 1;
        let current_len = record.data_len();
        let bytes = data;
        let new_len = offset + bytes.len();
        let ghost d0 = record.data@;
        let mut top_up = None;
        if new_len != current_len {
            top_up = resize_account(record, payer, new_len, new_len < current_len, new_minimum_balance);
        }
        if record.data[DISCRIMINATOR_OFFSET] != Self::DISCRIMINATOR {
            assert(record.data@ =~= resized(d0, new_len as int));
            return (Err(ProgramError::InvalidAccountData), top_up);
        }
        let buffer = record.data.as_mut_slice();
        copy_bytes(buffer, offset, bytes);
        assert(record.data@ =~= resized(d0, offset as int) + bytes@);
        (Ok(()), top_up)
    }

    /// Deletes a record: the account shrinks to one byte that marks it closed.
    ///
    /// `new_minimum_balance` is the rent-exempt minimum of one byte.
    pub fn delete_record_unchecked(
        record: &mut AccountInfo,
        payer: &mut AccountInfo,
        new_minimum_balance: u64,
    ) -> (top_up: Option<u64>)
        ensures
            final(record).data@ == seq![CLOSE_ACCOUNT_DISCRIMINATOR],
            final(record).key == old(record).key,
            final(record).owner == old(record).owner,
            final(record).is_signer == old(record).is_signer,
            final(payer).key == old(payer).key,
            final(payer).owner == old(payer).owner,
            final(payer).is_signer == old(payer).is_signer,
            final(payer).data@ == old(payer).data@,
            (top_up, final(record).lamports, final(payer).lamports) == resize_balances(
                old(record).lamports,
                old(payer).lamports,
                old(record).data@.len() as int,
                1,
                new_minimum_balance,
            ),
    {
        let top_up = resize_account(record, payer, 1, true, new_minimum_balance);
        record.data.set(DISCRIMINATOR_OFFSET, CLOSE_ACCOUNT_DISCRIMINATOR);
        assert(record.data@ =~= seq![CLOSE_ACCOUNT_DISCRIMINATOR]);
        top_up
    }

    /// Writes this record into a fresh account.
    pub fn initialize_unchecked(&self, account_info: &mut AccountInfo) -> (r: Result<
        (),
        ProgramError,
    >)
        ensures
            final(account_info).key == old(account_info).key,
            final(account_info).owner == old(account_info).owner,
            final(account_info).is_signer == old(account_info).is_signer,
            final(account_info).lamports == old(account_info).lamports,
            r == if old(account_info).data@.len() < Self::MINIMUM_RECORD_SIZE + self.seed@.len()
                + self.data@.len() {
                Err(ProgramError::InvalidAccountData)
            } else if old(account_info).data@[0] != 0 {
                Err(ProgramError::AccountAlreadyInitialized)
            } else if self.seed@.len() > 255 {
                Err(ProgramError::ArithmeticOverflow)
            } else {
                Ok(())
            },
            r is Ok ==> final(account_info).data@ == splice(
                old(account_info).data@,
                0,
                self.layout(),
            ),
            r == Err::<(), ProgramError>(ProgramError::ArithmeticOverflow) ==> final(account_info).data@
                == splice(
                old(account_info).data@,
                0,
                record_header(self.class, self.owner_type, self.owner, self.is_frozen, self.expiry),
            ),
            r is Err && r != Err::<(), ProgramError>(ProgramError::ArithmeticOverflow)
                ==> final(account_info).data@ == old(account_info).data@,
    {
        let seed = self.seed;
        let bytes = self.data;
        let len = account_info.data_len();
        if bytes.len() > len || seed.len() > len - bytes.len() || Self::MINIMUM_RECORD_SIZE > len
            - bytes.len() - seed.len() {
            return Err(ProgramError::InvalidAccountData);
        }
        if account_info.data[0] != 0 {
            return Err(ProgramError::AccountAlreadyInitialized);
        }
        let ghost d0 = account_info.data@;
        let ghost seed_s = seed@;
        let ghost data_s = bytes@;
        let data = account_info.data.as_mut_slice();
        let _ = ByteWriter::write_with_offset(data, DISCRIMINATOR_OFFSET, Self::DISCRIMINATOR);
        let _ = ByteWriter::write_with_offset(data, CLASS_OFFSET, self.class);
        let _ = ByteWriter::write_with_offset(data, OWNER_TYPE_OFFSET, self.owner_type);
        let _ = ByteWriter::write_with_offset(data, OWNER_OFFSET, self.owner);
        let _ = ByteWriter::write_with_offset(data, IS_FROZEN_OFFSET, self.is_frozen);
        let _ = ByteWriter::write_with_offset(data, EXPIRY_OFFSET, self.expiry);
        let ghost fixed = record_header(
            self.class,
            self.owner_type,
            self.owner,
            self.is_frozen,
            self.expiry,
        );
        proof {
            let s1 = seq![Self::DISCRIMINATOR];
            let s2 = self.class@;
            let s3 = OwnerType::spec_encode(self.owner_type);
            let s4 = self.owner@;
            let s5 = bool::spec_encode(self.is_frozen);
            let s6 = i64::spec_encode(self.expiry);
            i64::lemma_encode_decode(self.expiry);
            crate::utils::lemma_splice_concat(d0, 0, s1, s2);
            crate::utils::lemma_splice_concat(d0, 0, s1 + s2, s3);
            crate::utils::lemma_splice_concat(d0, 0, s1 + s2 + s3, s4);
            crate::utils::lemma_splice_concat(d0, 0, s1 + s2 + s3 + s4, s5);
            crate::utils::lemma_splice_concat(d0, 0, s1 + s2 + s3 + s4 + s5, s6);
            assert(data@ == splice(d0, 0, fixed));
        }
        let mut variable_data = ByteWriter::new_with_offset(data, SEED_LEN_OFFSET);
        variable_data.write_bytes_with_length(seed)?;
        proof {
            let l = seq![seed_s.len() as u8];
            crate::utils::lemma_splice_concat(d0, 0, fixed, l);
            crate::utils::lemma_splice_concat(d0, 0, fixed + l, seed_s);
            assert(variable_data.bytes() == splice(d0, 0, fixed + l + seed_s));
        }
        let _ = variable_data.write_bytes(self.data);
        proof {
            let l = seq![seed_s.len() as u8];
            crate::utils::lemma_splice_concat(d0, 0, fixed + l + seed_s, data_s);
            assert(fixed + l + seed_s + data_s =~= self.layout());
        }
        Ok(())
    }

    /// Whether the token metadata held in the record data can be walked, as
    /// `metadata_readable` says.
    pub fn check_metadata(data: &[u8]) -> (r: bool)
        ensures
            r == metadata_readable(data@),
    {
        if data.len() < Self::MINIMUM_RECORD_SIZE {
            return false;
        }
        let ghost d = data@;
        let seed_len = data[SEED_LEN_OFFSET] as usize;
        let start = SEED_OFFSET + seed_len;
        let o1 = match skip_field_checked(data, start) {
            Some(o) => o,
            None => {
                return false;
            },
        };
        let o2 = match skip_field_checked(data, o1) {
            Some(o) => o,
            None => {
                return false;
            },
        };
        let o3 = match skip_field_checked(data, o2) {
            Some(o) => o,
            None => {
                return false;
            },
        };
        assert(metadata_fields_end(d) == Some(o3 as int));
        if o3 > data.len() || data.len() - o3 < 4 {
            return false;
        }
        let n = match u32::decode(&data[o3..o3 + 4]) {
            Some(n) => n,
            None => 0,
        };
        assert(n == u32_at(d, o3 as int));
        let mut off = o3 + 4;
        let mut i: u32 = 0;
        let len = data.len();
        while i < n
            invariant
                d == data@,
                d.len() == len,
                i <= n,
                n == u32_at(d, o3 as int),
                n == metadata_pairs_count(d),
                metadata_fields_end(d) == Some(o3 as int),
                metadata_end(d) == skip_pairs(d, off as int, (n - i) as nat),
                skip_pairs(d, metadata_pairs_start(d), i as nat) == Some(off as int),
                forall|j: int| 0 <= j < i ==> #[trigger] metadata_pair(d, j).len() <= MAX_METADATA_PAIR_LEN,
                off >= o3,
                o3 >= start,
            decreases n - i,
        {
            let ghost rest = (n - i) as nat;
            let p1 = match skip_field_checked(data, off) {
                Some(o) => o,
                None => {
                    proof {
                        if skip_pairs(d, off as int, rest) is Some {
                            lemma_skip_pairs_passes_first(d, off as int, rest);
                        }
                    }
                    return false;
                },
            };
            let p2 = match skip_field_checked(data, p1) {
                Some(o) => o,
                None => {
                    proof {
                        if skip_pairs(d, off as int, rest) is Some {
                            lemma_skip_pairs_passes_first(d, off as int, rest);
                        }
                    }
                    return false;
                },
            };
            proof {
                lemma_skip_pairs_split(d, metadata_pairs_start(d), i as nat, 1);
                assert(skip_pairs(d, p2 as int, 0) == Some(p2 as int));
                assert(skip_pairs(d, off as int, 1) == Some(p2 as int));
                assert((i + 1) as nat == (i as nat + 1) as nat);
                if skip_pairs(d, off as int, rest) is Some {
                    lemma_skip_pairs_passes_first(d, off as int, rest);
                }
            }
            if p2 > data.len() {
                return false;
            }
            if p2 - off > MAX_METADATA_PAIR_LEN {
                proof {
                    assert(metadata_pair(d, i as int).len() > MAX_METADATA_PAIR_LEN);
                }
                return false;
            }
            off = p2;
            i = i + 1;
        }
        assert(metadata_end(d) == Some(off as int));
        !(o3 - start > MAX_METADATA_LEN || off > data.len())
    }

    /// The length in bytes of the token metadata that follows the seed in the
    /// record data: name, symbol, uri and additional metadata, each with its
    /// length or count in front.
    pub fn get_metadata_len_unchecked(data: &[u8]) -> (r: Result<usize, ProgramError>)
        requires
            data@.len() >= Self::MINIMUM_RECORD_SIZE,
            metadata_end(data@) is Some,
            metadata_end(data@)->0 <= data@.len(),
        ensures
            r == Ok::<usize, ProgramError>(
                (metadata_end(data@)->0 - record_data_offset(data@)) as usize,
            ),
    {
        let ghost d = data@;
        let seed_len = data[SEED_LEN_OFFSET] as usize;
        let ghost end = metadata_end(d)->0;
        let ghost o3 = metadata_fields_end(d)->0;
        proof {
            lemma_skip_pairs_grows(d, o3 + 4, u32_at(d, o3) as nat);
        }
        let start = SEED_LEN_OFFSET + 1 + seed_len;
        let mut offset = start;
        offset = skip_field_exec(data, offset);
        offset = skip_field_exec(data, offset);
        offset = skip_field_exec(data, offset);
        assert(offset == o3);
        let additional_metadata_len = match u32::decode(&data[offset..offset + 4]) {
            Some(n) => n,
            None => 0,
        };
        offset = offset + 4;
        let mut i: u32 = 0;
        let len = data.len();
        while i < additional_metadata_len
            invariant
                d == data@,
                d.len() == len,
                end <= d.len(),
                i <= additional_metadata_len,
                additional_metadata_len == u32_at(d, o3),
                skip_pairs(d, offset as int, (additional_metadata_len - i) as nat) == Some(end),
            decreases additional_metadata_len - i,
        {
            let ghost rest = (additional_metadata_len - i) as nat;
            let ghost o1 = skip_field(d, offset as int)->0;
            let ghost o2 = skip_field(d, o1)->0;
            proof {
                lemma_skip_pairs_grows(d, o2, (rest - 1) as nat);
            }
            offset = skip_field_exec(data, offset);
            offset = skip_field_exec(data, offset);
            i = i + 1;
        }
        proof {
            lemma_metadata_end_bounds(d);
        }
        Ok(offset - start)
    }

    /// The name, symbol and uri of the token metadata held in the record
    /// data, and the additional metadata after them when there is any.
    pub fn get_metadata_data_unchecked(data: &'info [u8]) -> (r: Result<
        (&'info [u8], Option<&'info [u8]>),
        ProgramError,
    >)
        requires
            data@.len() >= Self::MINIMUM_RECORD_SIZE,
            metadata_fields_end(data@) is Some,
            metadata_fields_end(data@)->0 + 4 <= data@.len(),
        ensures
            r matches Ok((m, a)) && m@ == data@.subrange(
                record_data_offset(data@),
                metadata_fields_end(data@)->0,
            ) && (a is Some <==> u32_at(data@, metadata_fields_end(data@)->0) != 0) && (a matches Some(
                x,
            ) ==> x@ == data@.subrange(metadata_fields_end(data@)->0, data@.len() as int)),
    {
        let ghost d = data@;
        let seed_len = data[SEED_LEN_OFFSET] as usize;
        let start = SEED_LEN_OFFSET + 1 + seed_len;
        let mut offset = start;
        offset = skip_field_exec(data, offset);
        offset = skip_field_exec(data, offset);
        offset = skip_field_exec(data, offset);
        let metadata_data = &data[start..offset];
        let count = match u32::decode(&data[offset..offset + 4]) {
            Some(n) => n,
            None => 0,
        };
        let additional_metadata_data = if count != 0 {
            Some(&data[offset..data.len()])
        } else {
            None
        };
        Ok((metadata_data, additional_metadata_data))
    }
}

} // verus!

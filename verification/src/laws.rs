use vstd::prelude::*;
use vstd::string::StringSliceAdditionalSpecFns;

use crate::account::{AccountInfo, Pubkey};
use crate::constants::CLOSE_ACCOUNT_DISCRIMINATOR;
use crate::error::ProgramError;
use crate::instructions::delete_record::delete_record_balances;
use crate::cpi::{is_token_cpi, AccountMeta, Cpi, SignerSeeds};
use crate::instructions::create_class::spec_create_class_args;
use crate::instructions::create_record::spec_create_record_args;
use crate::instructions::mint_tokenized_record::is_mint_plan;
use crate::instructions::{
    BurnTokenizedRecord, CreateClass, CreateRecord, FreezeClass, FreezeRecord,
    MintTokenizedRecord, MintTokenizedRecordAccounts, TransferRecord, TransferTokenizedRecord,
    TransferTokenizedRecordAccounts, UpdateClassAuthority, UpdateClassMetadata,
    UpdateRecordData, UpdateRecordExpiry,
};
use crate::token2022::constants::TOKEN_2022_PROGRAM_ID;
use crate::state::class::{
    class_layout, spec_check_authority, spec_check_authority_unchecked, spec_check_permission,
    Class, AUTHORITY_OFFSET, IS_FROZEN_OFFSET, IS_PERMISSIONED_OFFSET,
};
use crate::state::record::{
    record_class, record_data, record_data_offset, record_expiry, record_is_frozen,
    record_layout, record_owner, record_owner_type, record_seed, spec_check_owner_or_delegate,
    spec_check_owner_or_delegate_or_deleted, spec_check_owner_or_delegate_tokenized,
    spec_check_program_id_and_discriminator, spec_update_data, spec_update_expiry,
    spec_update_is_frozen, spec_update_owner, owner_type_byte, OwnerType, Record,
    IS_FROZEN_OFFSET as IS_FROZEN_RECORD_OFFSET,
};
use crate::token2022::state::{MINT_SUPPLY_OFFSET, MULTISIG_LEN, TOKEN_OWNER_OFFSET};
use crate::utils::{
    resize_balances, spec_read_bytes_with_length, spec_read_str, spec_write_bytes_with_length,
    splice, Pod,
};
use crate::ID;

verus! {

/// What is written with its length in front is read back with it.
pub proof fn lemma_length_prefixed_roundtrip(data: Seq<u8>, pos: int, bytes: Seq<u8>)
    requires
        0 <= pos,
        pos + 1 + bytes.len() <= data.len(),
        bytes.len() <= 255,
    ensures
        spec_write_bytes_with_length(data, pos, bytes).0 is Ok,
        spec_read_bytes_with_length(spec_write_bytes_with_length(data, pos, bytes).1, pos) == (
            Ok::<Seq<u8>, ProgramError>(bytes),
            pos + 1 + bytes.len(),
        ),
{
    let d1 = splice(data, pos, seq![bytes.len() as u8]);
    let d2 = splice(d1, pos + 1, bytes);
    assert(d2[pos] == bytes.len() as u8);
    assert(d2.subrange(pos, pos + 1) =~= seq![bytes.len() as u8]);
    assert(d2.subrange(pos + 1, pos + 1 + bytes.len()) =~= bytes);
}

/// A class account reads back the fields it was written with.
pub proof fn lemma_class_layout_fields(
    authority: Pubkey,
    is_permissioned: bool,
    is_frozen: bool,
    name: Seq<u8>,
    metadata: Seq<u8>,
)
    requires
        name.len() <= 255,
    ensures
        ({
            let d = class_layout(authority, is_permissioned, is_frozen, name, metadata);
            &&& d.len() == Class::MINIMUM_CLASS_SIZE + name.len() + metadata.len()
            &&& d[0] == Class::DISCRIMINATOR
            &&& d.subrange(1, 33) == authority@
            &&& (d[IS_PERMISSIONED_OFFSET as int] == 1) == is_permissioned
            &&& (d[IS_FROZEN_OFFSET as int] == 1) == is_frozen
            &&& d[35] == name.len()
            &&& d.subrange(36, 36 + name.len() as int) == name
            &&& d.subrange(36 + name.len() as int, d.len() as int) == metadata
        }),
{
    let d = class_layout(authority, is_permissioned, is_frozen, name, metadata);
    assert(d.subrange(1, 33) =~= authority@);
    assert(d.subrange(36, 36 + name.len() as int) =~= name);
    assert(d.subrange(36 + name.len() as int, d.len() as int) =~= metadata);
}

/// A record account reads back the fields it was written with.
pub proof fn lemma_record_layout_fields(
    class: Pubkey,
    owner_type: OwnerType,
    owner: Pubkey,
    is_frozen: bool,
    expiry: i64,
    seed: Seq<u8>,
    data: Seq<u8>,
)
    requires
        seed.len() <= 255,
    ensures
        ({
            let d = record_layout(class, owner_type, owner, is_frozen, expiry, seed, data);
            &&& d.len() == Record::MINIMUM_RECORD_SIZE + seed.len() + data.len()
            &&& d[0] == Record::DISCRIMINATOR
            &&& record_class(d) == class@
            &&& OwnerType::spec_decode(seq![record_owner_type(d)]) == Some(owner_type)
            &&& record_owner(d) == owner@
            &&& record_is_frozen(d) == is_frozen
            &&& record_expiry(d) == expiry
            &&& record_seed(d) == seed
            &&& record_data(d) == data
        }),
{
    let d = record_layout(class, owner_type, owner, is_frozen, expiry, seed, data);
    i64::lemma_encode_decode(expiry);
    assert(record_class(d) =~= class@);
    assert(record_owner(d) =~= owner@);
    assert(d.subrange(67, 75) =~= i64::spec_encode(expiry));
    assert(record_seed(d) =~= seed);
    assert(record_data(d) =~= data);
}

/// Transferring an unfrozen record changes its owner and nothing else.
pub proof fn lemma_transfer_sets_owner_only(d: Seq<u8>, new_owner: Pubkey)
    requires
        d.len() >= Record::MINIMUM_RECORD_SIZE,
        d.len() >= record_data_offset(d),
        !record_is_frozen(d),
    ensures
        spec_update_owner(d, new_owner).0 is Ok,
        ({
            let d2 = spec_update_owner(d, new_owner).1;
            &&& d2.len() == d.len()
            &&& record_owner(d2) == new_owner@
            &&& d2[0] == d[0]
            &&& record_class(d2) == record_class(d)
            &&& record_owner_type(d2) == record_owner_type(d)
            &&& record_is_frozen(d2) == record_is_frozen(d)
            &&& record_expiry(d2) == record_expiry(d)
            &&& record_seed(d2) == record_seed(d)
            &&& record_data(d2) == record_data(d)
        }),
{
    let d2 = spec_update_owner(d, new_owner).1;
    assert(record_owner(d2) =~= new_owner@);
    assert(record_class(d2) =~= record_class(d));
    assert(d2.subrange(67, 75) =~= d.subrange(67, 75));
    assert(d2[75] == d[75]);
    assert(record_seed(d2) =~= record_seed(d));
    assert(record_data(d2) =~= record_data(d));
}

/// A frozen record refuses a new owner, a new expiry and new data, and is
/// left as it was.
pub proof fn lemma_frozen_record_refuses_updates(
    d: Seq<u8>,
    new_owner: Pubkey,
    new_expiry: i64,
    new_data: Seq<u8>,
)
    requires
        record_is_frozen(d),
    ensures
        spec_update_owner(d, new_owner) == (Err::<(), ProgramError>(
            ProgramError::InvalidAccountData,
        ), d),
        spec_update_expiry(d, new_expiry) == (Err::<(), ProgramError>(
            ProgramError::InvalidAccountData,
        ), d),
        spec_update_data(d, new_data) == (Err::<(), ProgramError>(
            ProgramError::InvalidAccountData,
        ), d),
{
}

/// Freezing then unfreezing an unfrozen record gives it back unchanged, and
/// while frozen it is frozen.
pub proof fn lemma_freeze_unfreeze(d: Seq<u8>)
    requires
        d.len() >= Record::MINIMUM_RECORD_SIZE,
        d[66] == 0,
    ensures
        record_is_frozen(spec_update_is_frozen(d, true)),
        !record_is_frozen(spec_update_is_frozen(spec_update_is_frozen(d, true), false)),
        spec_update_is_frozen(spec_update_is_frozen(d, true), false) == d,
{
    assert(spec_update_is_frozen(spec_update_is_frozen(d, true), false) =~= d);
}

/// A new expiry on an unfrozen record is read back.
pub proof fn lemma_expiry_reads_back(d: Seq<u8>, new_expiry: i64)
    requires
        d.len() >= Record::MINIMUM_RECORD_SIZE,
        !record_is_frozen(d),
    ensures
        spec_update_expiry(d, new_expiry).0 is Ok,
        record_expiry(spec_update_expiry(d, new_expiry).1) == new_expiry,
        record_owner(spec_update_expiry(d, new_expiry).1) == record_owner(d),
{
    let d2 = spec_update_expiry(d, new_expiry).1;
    i64::lemma_encode_decode(new_expiry);
    assert(d2.subrange(67, 75) =~= i64::spec_encode(new_expiry));
    assert(record_owner(d2) =~= record_owner(d));
}

/// New data on an unfrozen record is read back, after the same fields and
/// the same seed.
pub proof fn lemma_data_reads_back(d: Seq<u8>, new_data: Seq<u8>)
    requires
        d.len() >= record_data_offset(d),
        d.len() >= Record::MINIMUM_RECORD_SIZE,
        d[0] == Record::DISCRIMINATOR,
        !record_is_frozen(d),
    ensures
        spec_update_data(d, new_data).0 is Ok,
        ({
            let d2 = spec_update_data(d, new_data).1;
            &&& record_data(d2) == new_data
            &&& record_seed(d2) == record_seed(d)
            &&& d2.subrange(0, Record::MINIMUM_RECORD_SIZE as int) == d.subrange(
                0,
                Record::MINIMUM_RECORD_SIZE as int,
            )
        }),
{
    let d2 = spec_update_data(d, new_data).1;
    assert(record_data(d2) =~= new_data);
    assert(record_seed(d2) =~= record_seed(d));
    assert(d2.subrange(0, 76) =~= d.subrange(0, 76));
}

/// A deleted record is no record any more.
pub proof fn lemma_deleted_record_is_closed(record: AccountInfo)
    requires
        record.data@ == seq![CLOSE_ACCOUNT_DISCRIMINATOR],
    ensures
        spec_check_program_id_and_discriminator(record) is Err,
{
}

/// A frozen class takes no records, whoever asks.
pub proof fn lemma_frozen_class_takes_no_records(class: AccountInfo, authority: Option<AccountInfo>)
    requires
        class.data@.len() >= Class::MINIMUM_CLASS_SIZE,
        class.data@[IS_FROZEN_OFFSET as int] == 1,
    ensures
        spec_check_permission(class, authority) is Err,
{
}

/// A record is created in a permissioned class only with its authority's
/// signature.
pub proof fn lemma_permissioned_class_needs_authority(
    class: AccountInfo,
    authority: Option<AccountInfo>,
)
    requires
        class.data@.len() >= Class::MINIMUM_CLASS_SIZE,
        class.data@[IS_PERMISSIONED_OFFSET as int] == 1,
        spec_check_permission(class, authority) is Ok,
    ensures
        authority is Some,
        authority->0.is_signer,
        authority->0.key@ == class.data@.subrange(1, 33),
{
}

/// Only a signer acts on a record, and only its owner or the authority of
/// its permissioned class.
pub proof fn lemma_owner_or_delegate_is_authorized(
    record: AccountInfo,
    class: Option<AccountInfo>,
    authority: AccountInfo,
)
    requires
        record.data@.len() >= Record::MINIMUM_RECORD_SIZE,
        spec_check_owner_or_delegate(record, class, authority) is Ok,
    ensures
        record.owner == ID,
        record.data@[0] == Record::DISCRIMINATOR,
        authority.is_signer,
        record_owner_type(record.data@) == 0,
        authority.key@ == record_owner(record.data@) || ({
            &&& class is Some
            &&& class->0.owner == ID
            &&& class->0.key@ == record_class(record.data@)
            &&& class->0.data@[0] == Class::DISCRIMINATOR
            &&& class->0.data@[IS_PERMISSIONED_OFFSET as int] == 1
            &&& authority.key@ == class->0.data@.subrange(1, 33)
        }),
{
}

/// Minting a record's token and burning it again, while its holder is still
/// the record's owner, gives back the record as it was, if it was owned by a
/// key and not frozen.
pub proof fn lemma_mint_then_burn_restores_record(d: Seq<u8>, mint: Pubkey, token_data: Seq<u8>)
    requires
        d.len() >= Record::MINIMUM_RECORD_SIZE,
        record_owner_type(d) == owner_type_byte(OwnerType::Pubkey),
        d[IS_FROZEN_RECORD_OFFSET as int] == 0,
        token_data.len() >= TOKEN_OWNER_OFFSET + 32,
        token_data.subrange(TOKEN_OWNER_OFFSET as int, TOKEN_OWNER_OFFSET + 32) == record_owner(d),
    ensures
        BurnTokenizedRecord::burnt(MintTokenizedRecord::minted(d, mint), token_data) == d,
{
    let m = MintTokenizedRecord::minted(d, mint);
    let b = BurnTokenizedRecord::burnt(m, token_data);
    assert(b =~= d);
}

/// Once a class is handed to a new authority, the class answers to the new
/// authority's signature and no longer to the old one's.
pub proof fn lemma_authority_handover(
    class_data: Seq<u8>,
    new_authority: Pubkey,
    old_signer: AccountInfo,
    new_signer: AccountInfo,
)
    requires
        class_data.len() >= Class::MINIMUM_CLASS_SIZE,
        old_signer.key@ == class_data.subrange(1, 33),
        old_signer.key != new_authority,
        new_signer.key == new_authority,
        new_signer.is_signer,
    ensures
        ({
            let handed = splice(class_data, AUTHORITY_OFFSET as int, new_authority@);
            &&& spec_check_authority_unchecked(handed, new_signer) is Ok
            &&& spec_check_authority_unchecked(handed, old_signer) is Err
        }),
{
    let handed = splice(class_data, AUTHORITY_OFFSET as int, new_authority@);
    assert(handed.subrange(1, 33) =~= new_authority@);
    if old_signer.key@ == new_authority@ {
        assert(old_signer.key =~= new_authority);
    }
}

/// Resizing an account moves lamports between it and the payer without
/// making or losing any: when the account holds more than its new rent, the
/// excess goes to the payer (short of overflowing it); otherwise nothing
/// moves here, and the payer owes the top-up.
pub proof fn lemma_resize_conserves_lamports(
    target: u64,
    payer: u64,
    old_len: int,
    new_size: int,
    new_minimum_balance: u64,
)
    requires
        target + payer <= u64::MAX,
    ensures
        ({
            let (top_up, t, p) = resize_balances(target, payer, old_len, new_size, new_minimum_balance);
            &&& t + p == target + payer
            &&& top_up matches Some(l) ==> t + l == new_minimum_balance
            &&& new_size != old_len && top_up is None ==> t == new_minimum_balance
        }),
{
}

/// Deleting a record makes and loses no lamports, whatever the rent of one
/// byte: it is refused only when the authority's and the record's balances
/// together overflow, and otherwise the record keeps that rent, once topped
/// up, and the authority takes back the rest.
pub proof fn lemma_delete_conserves_lamports(
    record: u64,
    authority: u64,
    record_len: int,
    minimum_balance: u64,
)
    ensures
        delete_record_balances(record, authority, record_len, minimum_balance) is None
            <==> record + authority > u64::MAX,
        ({
            let (top_up, _, _) = resize_balances(
                record,
                authority,
                record_len,
                1,
                minimum_balance,
            );
            let owed: int = match top_up {
                Some(l) => l as int,
                None => 0,
            };
            delete_record_balances(record, authority, record_len, minimum_balance) matches Some(
                (a, r),
            ) ==> {
                &&& a + r == authority + record
                &&& record_len != 1 ==> r + owed == minimum_balance
                &&& record >= minimum_balance && record_len != 1 ==> a == authority + record
                    - minimum_balance
            }
        }),
{
}

/// A record held by a mint is deleted only by the authority of its class,
/// and only once the mint's supply is gone; its mint is then closed.
pub proof fn lemma_tokenized_record_deleted_by_class_authority(
    record: AccountInfo,
    class: Option<AccountInfo>,
    authority: AccountInfo,
    mint: Option<AccountInfo>,
)
    requires
        record.owner == ID,
        record.data@.len() >= Record::MINIMUM_RECORD_SIZE,
        record.data@[0] == Record::DISCRIMINATOR,
        record_owner_type(record.data@) == owner_type_byte(OwnerType::Token),
        spec_check_owner_or_delegate_or_deleted(record, class, authority, mint) is Ok,
    ensures
        class is Some,
        spec_check_authority(class->0, authority) is Ok,
        mint is Some,
        mint->0.key@ == record_owner(record.data@),
        u64::spec_decode(
            mint->0.data@.subrange(MINT_SUPPLY_OFFSET as int, MINT_SUPPLY_OFFSET + 8),
        )->0 == 0,
        spec_check_owner_or_delegate_or_deleted(record, class, authority, mint) == Ok::<
            bool,
            ProgramError,
        >(true),
{
}

/// A multisig account of the token program passes neither for the mint nor
/// for the token account of a tokenized record.
pub proof fn lemma_multisig_is_no_mint_or_token_account(
    record: AccountInfo,
    class: Option<AccountInfo>,
    authority: AccountInfo,
    mint: AccountInfo,
    token_account: AccountInfo,
)
    requires
        spec_check_owner_or_delegate_tokenized(record, class, authority, mint, token_account) is Ok,
    ensures
        mint.data@.len() != MULTISIG_LEN,
        token_account.data@.len() != MULTISIG_LEN,
{
}

/// A class is created with what its instruction carries: byte 0 says
/// whether it is permissioned and byte 1 whether it is frozen (each 0 or 1),
/// byte 2 the length of the name that follows it, and the rest is the
/// metadata. The class account holds the flags at bytes 33 and 34, then the
/// name's length, the name and the metadata.
pub proof fn lemma_create_class_keeps_its_arguments(ix: CreateClass, data: Seq<u8>)
    requires
        spec_create_class_args(data) matches Ok((p, f, n, m)) && ix.is_permissioned == p
            && ix.is_frozen == f && ix.name.spec_bytes() == n && ix.metadata.spec_bytes() == m,
    ensures
        ({
            let d = ix.class().layout();
            let len = data[2] as int;
            &&& data[0] <= 1 && data[1] <= 1
            &&& d[33] == data[0]
            &&& d[34] == data[1]
            &&& d[35] == data[2]
            &&& d.subrange(36, 36 + len) == data.subrange(3, 3 + len)
            &&& d.subrange(36 + len, d.len() as int) == data.subrange(3 + len, data.len() as int)
        }),
{
    let n = ix.name.spec_bytes();
    let m = ix.metadata.spec_bytes();
    assert(data.subrange(0, 1)[0] == data[0]);
    assert(data.subrange(1, 2)[0] == data[1]);
    assert(data.subrange(2, 3)[0] == data[2]);
    lemma_class_layout_fields(ix.accounts.authority, ix.is_permissioned, ix.is_frozen, n, m);
}

/// A record is created with what its instruction carries: its expiry is the
/// little-endian number in bytes 0 to 8, byte 8 is the length of the seed
/// that follows, and the rest is its data. The record account holds those
/// eight bytes at 67, then the seed's length, the seed and the data; it is
/// owned by the owner's key and not frozen.
pub proof fn lemma_create_record_keeps_its_arguments(ix: CreateRecord, data: Seq<u8>)
    requires
        spec_create_record_args(data) matches Ok((e, s, d)) && ix.expiry == e && ix.seed@ == s
            && ix.data@ == d,
    ensures
        ({
            let r = ix.record().layout();
            let len = data[8] as int;
            &&& r[33] == 0
            &&& r.subrange(34, 66) == ix.accounts.owner@
            &&& r[66] == 0
            &&& r.subrange(67, 75) == data.subrange(0, 8)
            &&& r[75] == data[8]
            &&& r.subrange(76, 76 + len) == data.subrange(9, 9 + len)
            &&& r.subrange(76 + len, r.len() as int) == data.subrange(9 + len, data.len() as int)
        }),
{
    let s = ix.seed@;
    let d = ix.data@;
    assert(data.subrange(8, 9)[0] == data[8]);
    i64::lemma_decode_encode(data.subrange(0, 8));
    let r = ix.record().layout();
    lemma_record_layout_fields(
        ix.accounts.class,
        OwnerType::Pubkey,
        ix.accounts.owner,
        false,
        ix.expiry,
        s,
        d,
    );
    assert(r.subrange(67, 75) =~= i64::spec_encode(ix.expiry));
    assert(r.subrange(76, 76 + s.len() as int) =~= s);
    assert(r.subrange(76 + s.len() as int, r.len() as int) =~= d);
}

/// A successful `FreezeClass` sets the class's frozen byte to the byte its
/// instruction carries, 1 to freeze and 0 to unfreeze, and leaves every other
/// byte of the class as it was.
pub proof fn lemma_freeze_class_sets_the_requested_state(
    accounts: Seq<AccountInfo>,
    data: Seq<u8>,
    class_data: Seq<u8>,
)
    requires
        class_data.len() > 34,
    ensures
        FreezeClass::spec_try_from(accounts, data) matches Ok(ix) ==> {
            let after = ix.frozen_data(class_data);
            &&& accounts.len() == 2 && accounts[0].is_signer
            &&& data.len() >= 1 && data[0] <= 1
            &&& after.len() == class_data.len()
            &&& after[34] == data[0]
            &&& forall|i: int| 0 <= i < class_data.len() && i != 34 ==> after[i] == class_data[i]
        },
{
    if data.len() >= 1 {
        assert(data.subrange(0, 1)[0] == data[0]);
    }
}

/// The mint of a tokenized record points to its group membership with the
/// class's group mint as authority (bytes 2 to 34 of the instruction) and
/// the record's mint as member (bytes 34 to 66).
pub proof fn lemma_member_pointer_names_group_then_mint(
    plan: Seq<Cpi>,
    a: MintTokenizedRecordAccounts,
    creates_group: bool,
    group_bump: u8,
    mint_bump: u8,
    group_rent: u64,
    mint_rent: u64,
    metadata: Seq<u8>,
    pairs: Seq<Seq<u8>>,
)
    requires
        is_mint_plan(
            plan,
            a,
            creates_group,
            group_bump,
            mint_bump,
            group_rent,
            mint_rent,
            metadata,
            pairs,
        ),
    ensures
        ({
            let c = plan[if creates_group { 4int } else { 0int } + 4];
            &&& c is Token
            &&& c->instruction.program_id == TOKEN_2022_PROGRAM_ID
            &&& c->instruction.accounts@ == seq![
                AccountMeta { pubkey: a.mint, is_writable: true, is_signer: false },
            ]
            &&& c->instruction.data@.len() == 66
            &&& c->instruction.data@[0] == 0x29
            &&& c->instruction.data@[1] == 0
            &&& c->instruction.data@.subrange(2, 34) == a.group@
            &&& c->instruction.data@.subrange(34, 66) == a.mint@
        }),
{
    let c = plan[if creates_group { 4int } else { 0int } + 4];
    assert(c->instruction.data@.subrange(2, 34) =~= a.group@);
    assert(c->instruction.data@.subrange(34, 66) =~= a.mint@);
}

/// A tokenized record's token moves from the holder's token account (the
/// fourth account) to the new token account (the fifth): the transfer takes
/// one token, without decimals, out of the first and into the second, under
/// the authority that signs for it.
pub proof fn lemma_tokenized_transfer_moves_the_token_forward(
    ix: TransferTokenizedRecord,
    accounts: Seq<AccountInfo>,
    authority: Pubkey,
    c: Cpi,
    signers: Seq<SignerSeeds>,
)
    requires
        TransferTokenizedRecordAccounts::spec_try_from(accounts) == Ok::<
            TransferTokenizedRecordAccounts,
            ProgramError,
        >(ix.accounts),
        is_token_cpi(c, ix.transfer(authority), signers),
    ensures
        ({
            let metas = c->instruction.accounts@;
            let d = c->instruction.data@;
            &&& c is Token
            &&& metas.len() == 4
            &&& metas[0] == AccountMeta { pubkey: accounts[3].key, is_writable: true, is_signer: false }
            &&& metas[1].pubkey == accounts[2].key
            &&& metas[2] == AccountMeta { pubkey: accounts[4].key, is_writable: true, is_signer: false }
            &&& metas[3] == AccountMeta { pubkey: authority, is_writable: false, is_signer: true }
            &&& d.len() == 10
            &&& d[0] == 0x0c
            &&& u64::spec_decode(d.subrange(1, 9)) == Some(1u64)
            &&& d[9] == 0
        }),
{
    let d = c->instruction.data@;
    u64::lemma_encode_decode(1u64);
    assert(d.subrange(1, 9) =~= u64::spec_encode(1u64));
}

/// A successful `FreezeRecord` sets the record's frozen byte (66) to the
/// byte its instruction carries, 1 to freeze and 0 to unfreeze, and leaves
/// every other byte of the record as it was.
pub proof fn lemma_freeze_record_sets_the_requested_state(
    accounts: Seq<AccountInfo>,
    data: Seq<u8>,
    record: Seq<u8>,
)
    requires
        record.len() > 66,
    ensures
        FreezeRecord::spec_try_from(accounts, data) matches Ok(ix) ==> {
            let after = spec_update_is_frozen(record, ix.is_frozen);
            &&& data.len() >= 1 && data[0] <= 1
            &&& after.len() == record.len()
            &&& after[66] == data[0]
            &&& forall|i: int| 0 <= i < record.len() && i != 66 ==> after[i] == record[i]
        },
{
}

/// `TransferRecord` hands an unfrozen record to the key in bytes 0 to 32 of
/// its instruction, written at bytes 34 to 66 of the record, every other
/// byte kept; a frozen record is refused and left as it was.
pub proof fn lemma_transfer_record_hands_to_the_given_key(
    accounts: Seq<AccountInfo>,
    data: Seq<u8>,
    record: Seq<u8>,
)
    requires
        record.len() >= Record::MINIMUM_RECORD_SIZE,
    ensures
        TransferRecord::spec_try_from(accounts, data) matches Ok(ix) ==> {
            let (r, after) = spec_update_owner(record, ix.new_owner);
            &&& data.len() >= 32
            &&& record[66] == 1 ==> r == Err::<(), ProgramError>(ProgramError::InvalidAccountData)
                && after == record
            &&& record[66] != 1 ==> {
                &&& r is Ok
                &&& after.len() == record.len()
                &&& after.subrange(34, 66) == data.subrange(0, 32)
                &&& forall|i: int|
                    0 <= i < record.len() && !(34 <= i < 66) ==> after[i] == record[i]
            }
        },
{
    if TransferRecord::spec_try_from(accounts, data) is Ok {
        let ix = TransferRecord::spec_try_from(accounts, data)->Ok_0;
        Pubkey::lemma_decode_encode(data.subrange(0, 32));
        let after = splice(record, 34, ix.new_owner@);
        assert(after.subrange(34, 66) =~= data.subrange(0, 32));
    }
}

/// `UpdateRecordExpiry` writes the eight bytes its instruction starts with
/// at bytes 67 to 75 of an unfrozen record, every other byte kept; a frozen
/// record is refused and left as it was.
pub proof fn lemma_update_expiry_writes_the_given_bytes(
    accounts: Seq<AccountInfo>,
    data: Seq<u8>,
    record: Seq<u8>,
)
    requires
        record.len() >= Record::MINIMUM_RECORD_SIZE,
    ensures
        UpdateRecordExpiry::spec_try_from(accounts, data) matches Ok(ix) ==> {
            let (r, after) = spec_update_expiry(record, ix.expiry);
            &&& data.len() >= 8
            &&& record[66] == 1 ==> r == Err::<(), ProgramError>(ProgramError::InvalidAccountData)
                && after == record
            &&& record[66] != 1 ==> {
                &&& r is Ok
                &&& after.len() == record.len()
                &&& after.subrange(67, 75) == data.subrange(0, 8)
                &&& forall|i: int|
                    0 <= i < record.len() && !(67 <= i < 75) ==> after[i] == record[i]
            }
        },
{
    if UpdateRecordExpiry::spec_try_from(accounts, data) is Ok {
        let ix = UpdateRecordExpiry::spec_try_from(accounts, data)->Ok_0;
        i64::lemma_decode_encode(data.subrange(0, 8));
        let after = splice(record, 67, i64::spec_encode(ix.expiry));
        assert(after.subrange(67, 75) =~= data.subrange(0, 8));
    }
}

/// `UpdateClassAuthority` writes the key in bytes 0 to 32 of its instruction
/// as the class's authority, at bytes 1 to 33, every other byte kept.
pub proof fn lemma_update_class_authority_writes_the_given_key(
    accounts: Seq<AccountInfo>,
    data: Seq<u8>,
    class: Seq<u8>,
)
    requires
        class.len() >= Class::MINIMUM_CLASS_SIZE,
    ensures
        UpdateClassAuthority::spec_try_from(accounts, data) matches Ok(ix) ==> {
            let after = splice(class, AUTHORITY_OFFSET as int, ix.new_authority@);
            &&& data.len() >= 32
            &&& after.len() == class.len()
            &&& after.subrange(1, 33) == data.subrange(0, 32)
            &&& forall|i: int| 0 <= i < class.len() && !(1 <= i < 33) ==> after[i] == class[i]
        },
{
    if UpdateClassAuthority::spec_try_from(accounts, data) is Ok {
        let ix = UpdateClassAuthority::spec_try_from(accounts, data)->Ok_0;
        Pubkey::lemma_decode_encode(data.subrange(0, 32));
        let after = splice(class, 1, ix.new_authority@);
        assert(after.subrange(1, 33) =~= data.subrange(0, 32));
    }
}

/// `UpdateRecordData` replaces the data of an unfrozen record with the whole
/// of its instruction, which must be UTF-8 text, and keeps everything before
/// the data.
pub proof fn lemma_update_record_data_writes_the_given_bytes(
    ix: UpdateRecordData,
    data: Seq<u8>,
    record: Seq<u8>,
)
    requires
        spec_read_str(data, 0, data.len() as int).0 matches Ok(d) && ix.data@ == d,
        record.len() >= Record::MINIMUM_RECORD_SIZE,
        record.len() >= record_data_offset(record),
        record[0] == Record::DISCRIMINATOR,
        !record_is_frozen(record),
    ensures
        ({
            let (r, after) = spec_update_data(record, ix.data@);
            let start = record_data_offset(record);
            &&& r is Ok
            &&& after.len() == start + data.len()
            &&& after.subrange(0, start) == record.subrange(0, start)
            &&& after.subrange(start, after.len() as int) == data
        }),
{
    let start = record_data_offset(record);
    let after = spec_update_data(record, ix.data@).1;
    assert(data.subrange(0, data.len() as int) =~= data);
    assert(after.subrange(0, start) =~= record.subrange(0, start));
    assert(after.subrange(start, after.len() as int) =~= data);
}

/// `UpdateClassMetadata` replaces the metadata of a class with the whole of
/// its instruction, which must be UTF-8 text of at most 255 bytes, and keeps
/// everything before the metadata.
pub proof fn lemma_update_class_metadata_writes_the_given_bytes(
    ix: UpdateClassMetadata,
    data: Seq<u8>,
    class: Seq<u8>,
)
    requires
        crate::instructions::update_class::spec_class_metadata(data) matches Ok(m)
            && ix.metadata.spec_bytes() == m,
        class.len() >= UpdateClassMetadata::metadata_start(class),
    ensures
        ({
            let after = ix.updated_data(class);
            let start = UpdateClassMetadata::metadata_start(class);
            &&& data.len() <= 255
            &&& start == Class::MINIMUM_CLASS_SIZE + class[35]
            &&& after.len() == start + data.len()
            &&& after.subrange(0, start) == class.subrange(0, start)
            &&& after.subrange(start, after.len() as int) == data
        }),
{
    let start = UpdateClassMetadata::metadata_start(class);
    let after = ix.updated_data(class);
    assert(data.subrange(0, data.len() as int) =~= data);
    assert(after.subrange(0, start) =~= class.subrange(0, start));
    assert(after.subrange(start, after.len() as int) =~= data);
}

/// A tokenized record's plan ends by making the owner (the first account)
/// the holder of its one token: the group membership of the record's mint
/// (the fifth account) in the class's group mint (the seventh) is recorded,
/// the owner's associated token account for the mint (the eighth account) is
/// created at the payer's (the second) expense, and exactly one token, with
/// no decimals, is minted into it.
pub proof fn lemma_mint_plan_gives_the_owner_one_token(
    plan: Seq<Cpi>,
    accounts: Seq<AccountInfo>,
    token_account_address: Pubkey,
    a: MintTokenizedRecordAccounts,
    creates_group: bool,
    group_bump: u8,
    mint_bump: u8,
    group_rent: u64,
    mint_rent: u64,
    metadata: Seq<u8>,
    pairs: Seq<Seq<u8>>,
)
    requires
        MintTokenizedRecordAccounts::spec_try_from(accounts, token_account_address) == Ok::<
            MintTokenizedRecordAccounts,
            ProgramError,
        >(a),
        is_mint_plan(
            plan,
            a,
            creates_group,
            group_bump,
            mint_bump,
            group_rent,
            mint_rent,
            metadata,
            pairs,
        ),
    ensures
        ({
            let n = plan.len() as int;
            let owner = accounts[0].key;
            let mint = accounts[4].key;
            let group = accounts[6].key;
            let member = plan[n - 3];
            let mint_to = plan[n - 1];
            let pointer = plan[if creates_group { 4int } else { 0int } + 4];
            &&& n >= 10
            &&& token_account_address == accounts[7].key
            &&& pointer is Token
            &&& pointer->instruction.data@.subrange(2, 34) == group@
            &&& pointer->instruction.data@.subrange(34, 66) == mint@
            &&& member is Token
            &&& member->instruction.accounts@[0].pubkey == mint
            &&& member->instruction.accounts@[1].pubkey == mint
            &&& member->instruction.accounts@[3].pubkey == group
            &&& plan[n - 2] == Cpi::CreateAssociatedTokenAccount {
                funding_account: accounts[1].key,
                account: token_account_address,
                wallet: owner,
                mint,
            }
            &&& mint_to is Token
            &&& mint_to->instruction.program_id == TOKEN_2022_PROGRAM_ID
            &&& mint_to->instruction.accounts@ == seq![
                AccountMeta { pubkey: mint, is_writable: true, is_signer: false },
                AccountMeta { pubkey: token_account_address, is_writable: true, is_signer: false },
                AccountMeta { pubkey: mint, is_writable: false, is_signer: true },
            ]
            &&& mint_to->instruction.data@.len() == 10
            &&& u64::spec_decode(mint_to->instruction.data@.subrange(1, 9)) == Some(1u64)
            &&& mint_to->instruction.data@[9] == 0
        }),
{
    lemma_member_pointer_names_group_then_mint(
        plan,
        a,
        creates_group,
        group_bump,
        mint_bump,
        group_rent,
        mint_rent,
        metadata,
        pairs,
    );
    let n = plan.len() as int;
    let mint_to = plan[n - 1];
    u64::lemma_encode_decode(1u64);
    assert(mint_to->instruction.data@.subrange(1, 9) =~= u64::spec_encode(1u64));
}

/// Burning a record's token hands the record back to whoever held the
/// token: the owner key at bytes 32 to 64 of the token account is written at
/// bytes 34 to 66 of the record, which becomes owned by a key (byte 33 set
/// to 0) and unfrozen (byte 66 set to 0); every other byte is kept.
pub proof fn lemma_burn_hands_the_record_to_the_holder(record: Seq<u8>, token: Seq<u8>)
    requires
        record.len() >= Record::MINIMUM_RECORD_SIZE,
        token.len() >= 64,
    ensures
        ({
            let after = BurnTokenizedRecord::burnt(record, token);
            &&& after.len() == record.len()
            &&& after[33] == 0
            &&& after.subrange(34, 66) == token.subrange(32, 64)
            &&& after[66] == 0
            &&& forall|i: int|
                0 <= i < record.len() && !(33 <= i <= 66) ==> after[i] == record[i]
        }),
{
    let after = BurnTokenizedRecord::burnt(record, token);
    assert(after.subrange(34, 66) =~= token.subrange(32, 64));
}

} // verus!

use record_service::account::AccountInfo;
use record_service::error::ProgramError;
use record_service::state::{Class, OwnerType, Record, RecordAuthorityDelegate};
use record_service::token2022::constants::TOKEN_2022_PROGRAM_ID;
use record_service::token2022::{
    BurnChecked, InitializeGroup, InitializeMint2, Mint, Token, TransferChecked,
};
use record_service::cpi::TokenInstruction;
use record_service::ID;

type Pubkey = [u8; 32];

const AUTHORITY: Pubkey = [0xaa; 32];
const OWNER: Pubkey = [0xbb; 32];
const CLASS: Pubkey = [0x01; 32];
const RECORD: Pubkey = [0x02; 32];

fn account(key: Pubkey, owner: Pubkey, is_signer: bool, lamports: u64, data: Vec<u8>) -> AccountInfo {
    AccountInfo { key, owner, is_signer, lamports, data }
}

fn class_bytes(authority: Pubkey, is_permissioned: bool, is_frozen: bool, name: &str, metadata: &str) -> Vec<u8> {
    let mut d = vec![1u8];
    d.extend_from_slice(&authority);
    d.push(is_permissioned as u8);
    d.push(is_frozen as u8);
    d.push(name.len() as u8);
    d.extend_from_slice(name.as_bytes());
    d.extend_from_slice(metadata.as_bytes());
    d
}

fn record_bytes(owner_type: u8, owner: Pubkey, is_frozen: bool, expiry: i64, seed: &[u8], data: &[u8]) -> Vec<u8> {
    let mut d = vec![2u8];
    d.extend_from_slice(&CLASS);
    d.push(owner_type);
    d.extend_from_slice(&owner);
    d.push(is_frozen as u8);
    d.extend_from_slice(&expiry.to_le_bytes());
    d.push(seed.len() as u8);
    d.extend_from_slice(seed);
    d.extend_from_slice(data);
    d
}

const METADATA: &[u8; 27] = &[
    4, 0, 0, 0, 116, 101, 115, 116, 3, 0, 0, 0, 83, 82, 83, 4, 0, 0, 0, 116, 101, 115, 116, 0, 0,
    0, 0,
];

#[test]
fn class_checks_its_owner_and_discriminator() {
    let foreign = account(CLASS, OWNER, false, 1, class_bytes(AUTHORITY, false, false, "a", ""));
    assert_eq!(Class::check_program_id(&foreign), Err(ProgramError::IncorrectProgramId));
    assert_eq!(Class::check_discriminator_unchecked(&[2]), Err(ProgramError::InvalidAccountData));
    assert_eq!(Class::check_discriminator_unchecked(&[1]), Ok(()));
}

#[test]
fn class_authority_must_sign_and_match() {
    let class = account(CLASS, ID, false, 1, class_bytes(AUTHORITY, false, false, "a", ""));
    let signer = account(AUTHORITY, [0; 32], true, 1, vec![]);
    let unsigned = account(AUTHORITY, [0; 32], false, 1, vec![]);
    let stranger = account(OWNER, [0; 32], true, 1, vec![]);
    assert_eq!(Class::check_authority(&class, &signer), Ok(()));
    assert_eq!(Class::check_authority(&class, &unsigned), Err(ProgramError::MissingRequiredSignature));
    assert_eq!(Class::check_authority(&class, &stranger), Err(ProgramError::InvalidAccountData));
}

#[test]
fn permissioned_or_frozen_class_refuses_records() {
    let permissioned = account(CLASS, ID, false, 1, class_bytes(AUTHORITY, true, false, "a", ""));
    let frozen = account(CLASS, ID, false, 1, class_bytes(AUTHORITY, false, true, "a", ""));
    let signer = account(AUTHORITY, [0; 32], true, 1, vec![]);
    assert_eq!(Class::check_permission(&permissioned, None), Err(ProgramError::InvalidAccountData));
    assert_eq!(Class::check_permission(&permissioned, Some(&signer)), Ok(()));
    assert_eq!(Class::check_permission(&frozen, Some(&signer)), Err(ProgramError::InvalidAccountData));
}

#[test]
fn class_initialize_refuses_small_used_and_long_named_accounts() {
    let class = Class { authority: AUTHORITY, is_permissioned: false, is_frozen: false, name: "ab", metadata: "m" };
    let mut small = account(CLASS, ID, false, 1, vec![0u8; 38]);
    assert_eq!(class.initialize_unchecked(&mut small), Err(ProgramError::InvalidAccountData));
    let mut used = account(CLASS, ID, false, 1, vec![1u8; 39]);
    assert_eq!(class.initialize_unchecked(&mut used), Err(ProgramError::AccountAlreadyInitialized));
    let mut fresh = account(CLASS, ID, false, 1, vec![0u8; 39]);
    assert_eq!(class.initialize_unchecked(&mut fresh), Ok(()));
    assert_eq!(fresh.data, class_bytes(AUTHORITY, false, false, "ab", "m"));
    let long_name = "n".repeat(256);
    let long = Class { authority: AUTHORITY, is_permissioned: false, is_frozen: false, name: &long_name, metadata: "" };
    let mut big = account(CLASS, ID, false, 1, vec![0u8; 300]);
    assert_eq!(long.initialize_unchecked(&mut big), Err(ProgramError::ArithmeticOverflow));
}

#[test]
fn class_metadata_shrinks_and_refunds_the_payer() {
    let mut class = account(CLASS, ID, false, 1_000_000, class_bytes(AUTHORITY, false, false, "a", "longer"));
    let mut payer = account(OWNER, [0; 32], true, 10, vec![]);
    let top_up = Class::update_metadata_unchecked(&mut class, &mut payer, "s", 600_000);
    assert_eq!(top_up, None);
    assert_eq!(class.data, class_bytes(AUTHORITY, false, false, "a", "s"));
    assert_eq!(class.lamports, 600_000);
    assert_eq!(payer.lamports, 400_010);
}

#[test]
fn class_metadata_grows_and_asks_a_top_up() {
    let mut class = account(CLASS, ID, false, 100, class_bytes(AUTHORITY, false, false, "a", ""));
    let mut payer = account(OWNER, [0; 32], true, 10, vec![]);
    let top_up = Class::update_metadata_unchecked(&mut class, &mut payer, "grown", 600);
    assert_eq!(top_up, Some(500));
    assert_eq!(class.data, class_bytes(AUTHORITY, false, false, "a", "grown"));
    assert_eq!(class.lamports, 100);
    assert_eq!(payer.lamports, 10);
}

#[test]
fn record_checks_owner_and_delegate() {
    let record = account(RECORD, ID, false, 1, record_bytes(0, OWNER, false, 0, b"s", b"d"));
    let owner = account(OWNER, [0; 32], true, 1, vec![]);
    let unsigned = account(OWNER, [0; 32], false, 1, vec![]);
    let authority = account(AUTHORITY, [0; 32], true, 1, vec![]);
    let open_class = account(CLASS, ID, false, 1, class_bytes(AUTHORITY, false, false, "a", ""));
    let permissioned = account(CLASS, ID, false, 1, class_bytes(AUTHORITY, true, false, "a", ""));
    assert_eq!(Record::check_owner_or_delegate(&record, None, &owner), Ok(()));
    assert_eq!(Record::check_owner_or_delegate(&record, None, &unsigned), Err(ProgramError::MissingRequiredSignature));
    assert_eq!(Record::check_owner_or_delegate(&record, None, &authority), Err(ProgramError::MissingRequiredSignature));
    assert_eq!(Record::check_owner_or_delegate(&record, Some(&open_class), &authority), Err(ProgramError::InvalidAccountData));
    assert_eq!(Record::check_owner_or_delegate(&record, Some(&permissioned), &authority), Ok(()));
    let foreign = account(RECORD, OWNER, false, 1, record_bytes(0, OWNER, false, 0, b"s", b"d"));
    assert_eq!(Record::check_program_id_and_discriminator(&foreign), Err(ProgramError::IncorrectProgramId));
}

#[test]
fn record_updates_write_their_field() {
    let mut d = record_bytes(0, OWNER, false, 0, b"s", b"d");
    assert_eq!(Record::update_expiry_unchecked(&mut d, -3), Ok(()));
    assert_eq!(Record::update_owner_unchecked(&mut d, &AUTHORITY), Ok(()));
    assert_eq!(Record::update_owner_type_unchecked(&mut d, OwnerType::Token), Ok(()));
    assert_eq!(d, record_bytes(1, AUTHORITY, false, -3, b"s", b"d"));
    assert_eq!(Record::update_is_frozen_unchecked(&mut d, true), Ok(()));
    assert_eq!(Record::update_owner_unchecked(&mut d, &OWNER), Err(ProgramError::InvalidAccountData));
    assert_eq!(Record::update_expiry_unchecked(&mut d, 9), Err(ProgramError::InvalidAccountData));
    assert_eq!(d, record_bytes(1, AUTHORITY, true, -3, b"s", b"d"));
}

#[test]
fn record_initialize_and_delete() {
    let record = Record { class: CLASS, owner_type: OwnerType::Pubkey, owner: OWNER, is_frozen: false, expiry: 5, seed: b"s", data: b"data" };
    let mut fresh = account(RECORD, ID, false, 1_000_000, vec![0u8; 81]);
    assert_eq!(record.initialize_unchecked(&mut fresh), Ok(()));
    assert_eq!(fresh.data, record_bytes(0, OWNER, false, 5, b"s", b"data"));
    assert_eq!(record.initialize_unchecked(&mut fresh), Err(ProgramError::AccountAlreadyInitialized));
    let mut payer = account(OWNER, [0; 32], true, 7, vec![]);
    let top_up = Record::delete_record_unchecked(&mut fresh, &mut payer, 897_840);
    assert_eq!(top_up, None);
    assert_eq!(fresh.data, vec![0xff]);
    assert_eq!(fresh.lamports, 897_840);
    assert_eq!(payer.lamports, 1_000_000 - 897_840 + 7);
}

#[test]
fn record_metadata_length_and_fields() {
    let d = record_bytes(0, OWNER, false, 0, b"test", METADATA);
    assert!(Record::check_metadata(&d));
    assert_eq!(Record::get_metadata_len_unchecked(&d), Ok(27));
    let (fields, additional) = Record::get_metadata_data_unchecked(&d).unwrap();
    assert_eq!(fields, &METADATA[0..23]);
    assert!(additional.is_none());
    let short = record_bytes(0, OWNER, false, 0, b"test", &METADATA[0..10]);
    assert!(!Record::check_metadata(&short));
}

fn delegate_bytes() -> Vec<u8> {
    let mut d = vec![3u8];
    d.extend_from_slice(&RECORD);
    for k in [[0x11u8; 32], [0x12; 32], [0x13; 32], [0x14; 32], [0u8; 32]] {
        d.extend_from_slice(&k);
    }
    d
}

#[test]
fn record_delegate_reads_back_and_checks_authorities() {
    let delegate = RecordAuthorityDelegate::from_bytes(&delegate_bytes()).unwrap();
    assert_eq!(delegate.record, RECORD);
    assert_eq!(delegate.transfer_authority, [0x13; 32]);
    assert_eq!(RecordAuthorityDelegate::from_bytes(&[]).err(), Some(ProgramError::InvalidInstructionData));
    assert_eq!(RecordAuthorityDelegate::from_bytes(&[2]).err(), Some(ProgramError::InvalidAccountData));
    let info = account([0x09; 32], ID, false, 1, delegate_bytes());
    assert_eq!(RecordAuthorityDelegate::check_update_authority(&info, &[0x11; 32]), Ok(()));
    assert_eq!(RecordAuthorityDelegate::check_freeze_authority(&info, &[0x11; 32]), Err(ProgramError::MissingRequiredSignature));
    let mut fresh = account([0x09; 32], ID, false, 1, vec![0u8; 193]);
    assert_eq!(delegate.initialize_checked(&mut fresh), Ok(()));
    assert_eq!(fresh.data, delegate_bytes());
    let mut foreign = account([0x09; 32], OWNER, false, 1, vec![0u8; 193]);
    assert_eq!(delegate.initialize_checked(&mut foreign), Err(ProgramError::IncorrectProgramId));
}

fn token_data(kind: u8, len: usize) -> Vec<u8> {
    let mut d = vec![0u8; len];
    d[0..32].copy_from_slice(&[0x03; 32]);
    d[32..64].copy_from_slice(&OWNER);
    if kind == 1 {
        d[36..44].copy_from_slice(&9u64.to_le_bytes());
    }
    d[108] = 2;
    d[165] = kind;
    d
}

#[test]
fn mint_and_token_accounts_are_told_apart() {
    let mint = account([0x03; 32], TOKEN_2022_PROGRAM_ID, false, 1, token_data(1, 200));
    let foreign = account([0x03; 32], OWNER, false, 1, token_data(1, 200));
    assert_eq!(Mint::check_initialized(&mint), Ok(true));
    assert_eq!(Mint::check_initialized(&foreign), Ok(false));
    assert_eq!(Mint::get_supply(&mint), Ok(9));
    assert_eq!(Mint::get_supply(&foreign), Err(ProgramError::IncorrectProgramId));
    let tiny = account([0x03; 32], TOKEN_2022_PROGRAM_ID, false, 1, vec![0u8; 10]);
    assert_eq!(Mint::get_supply(&tiny), Err(ProgramError::InvalidAccountData));
    assert_eq!(Mint::check_discriminator_unchecked(&token_data(1, 355)), Err(ProgramError::InvalidAccountData));
    let token = token_data(2, 200);
    assert_eq!(Token::check_discriminator_unchecked(&token), Ok(()));
    assert_eq!(Token::check_discriminator_unchecked(&token_data(2, 355)), Err(ProgramError::InvalidAccountData));
    assert_eq!(Token::get_owner_unchecked(&token), Ok(OWNER));
    assert_eq!(Token::get_mint_address_unchecked(&token), Ok([0x03; 32]));
    assert_eq!(Token::get_is_frozen_unchecked(&token), Ok(true));
}

#[test]
fn token_instructions_encode_their_fields() {
    let mint2 = InitializeMint2 { mint: [1; 32], decimals: 0, mint_authority: [2; 32], freeze_authority: None };
    let ix = mint2.instruction();
    assert_eq!(ix.program_id, TOKEN_2022_PROGRAM_ID);
    assert_eq!(ix.data.len(), 67);
    assert_eq!(&ix.data[0..2], &[0x14, 0]);
    assert_eq!(&ix.data[2..34], &[2u8; 32]);
    assert_eq!(ix.data[34], 0);
    let burn = BurnChecked { account: [1; 32], mint: [2; 32], authority: [3; 32], amount: 1, decimals: 0 };
    let ix = burn.instruction();
    assert_eq!(ix.data, vec![0x0f, 1, 0, 0, 0, 0, 0, 0, 0, 0]);
    assert_eq!(ix.accounts.len(), 3);
    assert!(ix.accounts[1].is_writable && ix.accounts[2].is_signer);
    let transfer = TransferChecked { source: [1; 32], mint: [2; 32], destination: [3; 32], authority: [4; 32], amount: 2, decimals: 9 };
    assert_eq!(transfer.instruction().data, vec![0x0c, 2, 0, 0, 0, 0, 0, 0, 0, 9]);
}

#[test]
fn group_instruction_puts_the_discriminator_first() {
    let group = InitializeGroup { mint: [1; 32], mint_authority: [2; 32], update_authority: [3; 32], max_size: 0x0102 };
    let ix = group.instruction();
    assert_eq!(ix.data.len(), 48);
    assert_eq!(&ix.data[0..8], &InitializeGroup::DISCRIMINATOR);
    assert_eq!(&ix.data[8..40], &[3u8; 32]);
    assert_eq!(&ix.data[40..48], &[2, 1, 0, 0, 0, 0, 0, 0]);
}

#[test]
fn metadata_length_counts_additional_metadata() {
    let mut metadata = METADATA.to_vec();
    metadata[23] = 1;
    metadata.extend_from_slice(&[1, 0, 0, 0, b'k', 2, 0, 0, 0, b'v', b'w']);
    let d = record_bytes(0, OWNER, false, 0, b"seed", &metadata);
    assert!(Record::check_metadata(&d));
    assert_eq!(Record::get_metadata_len_unchecked(&d), Ok(27 + 11));
}

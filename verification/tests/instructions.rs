use record_service::account::AccountInfo;
use record_service::cpi::{Cpi, SignerSeeds};
use record_service::error::ProgramError;
use record_service::instructions::{
    BurnTokenizedRecord, CreateClass, CreateRecord, DeleteRecord, FreezeClass, FreezeRecord,
    FreezeTokenizedRecord, MintTokenizedRecord, TransferRecord, TransferTokenizedRecord,
    UpdateClassAuthority, UpdateClassMetadata, UpdateRecordData, UpdateRecordExpiry,
};
use record_service::processor::{accounts_readable, decode_instruction, RecordInstruction};
use record_service::state::Record;
use record_service::token2022::constants::TOKEN_2022_PROGRAM_ID;
use record_service::utils::Context;
use record_service::ID;

type Pubkey = [u8; 32];

const AUTHORITY: Pubkey = [0xaa; 32];
const OWNER: Pubkey = [0xbb; 32];
const NEW_OWNER: Pubkey = [0xcc; 32];
const RANDOM_PUBKEY: Pubkey = [0xdd; 32];
const SYSTEM_PROGRAM: Pubkey = [0u8; 32];

const CLASS: Pubkey = [0x01; 32];
const RECORD: Pubkey = [0x02; 32];
const MINT: Pubkey = [0x03; 32];
const GROUP: Pubkey = [0x04; 32];
const TOKEN_ACCOUNT: Pubkey = [0x05; 32];
const NEW_TOKEN_ACCOUNT: Pubkey = [0x06; 32];
const ATA_PROGRAM: Pubkey = [0x07; 32];

const BUMP: u8 = 254;

/// name "test", symbol "SRS", uri "test", no additional metadata
const METADATA: &[u8; 27] = &[
    4, 0, 0, 0, 116, 101, 115, 116, 3, 0, 0, 0, 83, 82, 83, 4, 0, 0, 0, 116, 101, 115, 116, 0, 0,
    0, 0,
];

/// The same, with the additional metadata ("test", "test")
const METADATA_WITH_ADDITIONAL_METADATA: &[u8] = &[
    4, 0, 0, 0, 116, 101, 115, 116, 3, 0, 0, 0, 83, 82, 83, 4, 0, 0, 0, 116, 101, 115, 116, 1, 0,
    0, 0, 4, 0, 0, 0, 116, 101, 115, 116, 4, 0, 0, 0, 116, 101, 115, 116,
];

const METADATA_WITH_MULTIPLE_ADDITIONAL_METADATA: &[u8] = &[
    4, 0, 0, 0, 116, 101, 115, 116, 3, 0, 0, 0, 83, 82, 83, 4, 0, 0, 0, 116, 101, 115, 116, 3, 0,
    0, 0, 4, 0, 0, 0, 116, 101, 115, 116, 4, 0, 0, 0, 116, 101, 115, 116, 4, 0, 0, 0, 115, 101,
    115, 116, 4, 0, 0, 0, 116, 101, 115, 116, 4, 0, 0, 0, 114, 101, 115, 116, 4, 0, 0, 0, 116, 101,
    115, 116,
];

fn account(key: Pubkey, owner: Pubkey, is_signer: bool, lamports: u64, data: Vec<u8>) -> AccountInfo {
    AccountInfo { key, owner, is_signer, lamports, data }
}

fn wallet(key: Pubkey, is_signer: bool) -> AccountInfo {
    account(key, SYSTEM_PROGRAM, is_signer, 100_000_000_000, Vec::new())
}

fn program(key: Pubkey) -> AccountInfo {
    account(key, [0xff; 32], false, 1, Vec::new())
}

fn class_bytes(authority: Pubkey, is_permissioned: bool, is_frozen: bool, name: &str, metadata: &str) -> Vec<u8> {
    let mut d = vec![1u8];
    d.extend_from_slice(&authority);
    d.push(is_permissioned as u8);
    d.push(is_frozen as u8);
    d.push(name.len() as u8);
    d.extend_from_slice(name.as_bytes());
    d.extend_from_slice(metadata.as_bytes());
    d
}

fn class_account(authority: Pubkey, is_permissioned: bool, is_frozen: bool, name: &str, metadata: &str) -> AccountInfo {
    account(CLASS, ID, false, 100_000_000, class_bytes(authority, is_permissioned, is_frozen, name, metadata))
}

fn class_default() -> AccountInfo {
    class_account(AUTHORITY, false, false, "test", "test")
}

fn record_bytes(class: Pubkey, owner_type: u8, owner: Pubkey, is_frozen: bool, expiry: i64, seed: &[u8], data: &[u8]) -> Vec<u8> {
    let mut d = vec![2u8];
    d.extend_from_slice(&class);
    d.push(owner_type);
    d.extend_from_slice(&owner);
    d.push(is_frozen as u8);
    d.extend_from_slice(&expiry.to_le_bytes());
    d.push(seed.len() as u8);
    d.extend_from_slice(seed);
    d.extend_from_slice(data);
    d
}

fn record_account(owner_type: u8, owner: Pubkey, is_frozen: bool, expiry: i64, seed: &[u8], data: &[u8]) -> AccountInfo {
    account(RECORD, ID, false, 100_000_000, record_bytes(CLASS, owner_type, owner, is_frozen, expiry, seed, data))
}

fn mint_account(supply: u64) -> AccountInfo {
    let mut d = vec![0u8; 300];
    d[36..44].copy_from_slice(&supply.to_le_bytes());
    d[45] = 1;
    d[165] = 1;
    account(MINT, TOKEN_2022_PROGRAM_ID, false, 5_000_000, d)
}

fn token_account(key: Pubkey, holder: Pubkey, is_frozen: bool) -> AccountInfo {
    let mut d = vec![0u8; 175];
    d[0..32].copy_from_slice(&MINT);
    d[32..64].copy_from_slice(&holder);
    d[64..72].copy_from_slice(&1u64.to_le_bytes());
    d[108] = if is_frozen { 2 } else { 1 };
    d[165] = 2;
    account(key, TOKEN_2022_PROGRAM_ID, false, 2_000_000, d)
}

fn rent(len: usize) -> u64 {
    (128 + len as u64) * 3480 * 2
}

/// The program addresses a test expects to be found.
struct Found {
    class: Option<(Pubkey, u8)>,
    record: Option<(Pubkey, u8)>,
    mint: Option<(Pubkey, u8)>,
    group: Option<(Pubkey, u8)>,
    ata: Pubkey,
}

fn found() -> Found {
    Found {
        class: Some((CLASS, BUMP)),
        record: Some((RECORD, BUMP)),
        mint: Some((MINT, BUMP)),
        group: Some((GROUP, BUMP)),
        ata: TOKEN_ACCOUNT,
    }
}

fn index_of(accounts: &[AccountInfo], key: &Pubkey) -> usize {
    accounts.iter().position(|a| &a.key == key).expect("account of the invocation")
}

/// Carries out the system program's part of a plan: creation, transfers.
fn run_system(accounts: &mut Vec<AccountInfo>, plan: &[Cpi]) {
    for cpi in plan {
        match cpi {
            Cpi::CreateAccount { from, to, lamports, space, owner, .. } => {
                let f = index_of(accounts, from);
                accounts[f].lamports -= lamports;
                let t = index_of(accounts, to);
                accounts[t].lamports += lamports;
                accounts[t].data = vec![0u8; *space as usize];
                accounts[t].owner = *owner;
            }
            Cpi::Transfer { from, to, lamports } => {
                let f = index_of(accounts, from);
                accounts[f].lamports -= lamports;
                let t = index_of(accounts, to);
                accounts[t].lamports += lamports;
            }
            Cpi::Allocate { account, space, .. } => {
                let t = index_of(accounts, account);
                accounts[t].data = vec![0u8; *space as usize];
            }
            Cpi::Assign { account, owner, .. } => {
                let t = index_of(accounts, account);
                accounts[t].owner = *owner;
            }
            _ => {}
        }
    }
}

/// Runs an instruction on the accounts as the entrypoint does, with the
/// system program's invocations carried out; the plan is returned.
fn run(accounts: &mut Vec<AccountInfo>, instruction_data: &[u8], found: &Found) -> Result<Vec<Cpi>, ProgramError> {
    let (instruction, data) = decode_instruction(instruction_data)?;
    assert!(accounts_readable(instruction, accounts));
    let plan = match instruction {
        RecordInstruction::CreateClass => {
            let ix = CreateClass::try_from(&Context { accounts: accounts.as_slice(), data })?;
            let plan = ix.execute(accounts.as_slice(), rent(ix.space()), found.class)?;
            run_system(accounts, &plan);
            ix.initialize(&mut accounts[2])?;
            return Ok(plan);
        }
        RecordInstruction::UpdateClassMetadata => {
            let ix = UpdateClassMetadata::try_from(&Context { accounts: accounts.as_slice(), data })?;
            let space = ix.space(accounts.as_slice());
            ix.execute(accounts, rent(space))
        }
        RecordInstruction::UpdateClassAuthority => {
            UpdateClassAuthority::process(accounts, data)?;
            Vec::new()
        }
        RecordInstruction::FreezeClass => {
            FreezeClass::process(accounts, data)?;
            Vec::new()
        }
        RecordInstruction::CreateRecord => {
            let ix = CreateRecord::try_from(&Context { accounts: accounts.as_slice(), data })?;
            let plan = ix.execute(accounts.as_slice(), rent(ix.space()), found.record)?;
            run_system(accounts, &plan);
            ix.initialize(&mut accounts[3])?;
            return Ok(plan);
        }
        RecordInstruction::UpdateRecordData => {
            let ix = UpdateRecordData::try_from(&Context { accounts: accounts.as_slice(), data })?;
            let space = ix.space(accounts.as_slice());
            ix.execute(accounts, rent(space))?
        }
        RecordInstruction::UpdateRecordExpiry => {
            UpdateRecordExpiry::process(accounts, data)?;
            Vec::new()
        }
        RecordInstruction::TransferRecord => {
            TransferRecord::process(accounts, data)?;
            Vec::new()
        }
        RecordInstruction::DeleteRecord => {
            let ix = DeleteRecord::try_from(&Context { accounts: accounts.as_slice(), data })?;
            ix.execute(accounts, rent(1), found.mint)?
        }
        RecordInstruction::FreezeRecord => {
            FreezeRecord::process(accounts, data)?;
            Vec::new()
        }
        RecordInstruction::MintTokenizedRecord => {
            let ix = MintTokenizedRecord::try_from(&Context { accounts: accounts.as_slice(), data }, &found.ata)?;
            assert!(Record::check_metadata(&accounts[3].data));
            let mint_size = MintTokenizedRecord::mint_rent_size(accounts.as_slice()).expect("size");
            ix.execute(accounts, found.mint, found.group, rent(MintTokenizedRecord::group_rent_size()), rent(mint_size))?
        }
        RecordInstruction::FreezeTokenizedRecord => {
            let ix = FreezeTokenizedRecord::try_from(&Context { accounts: accounts.as_slice(), data })?;
            ix.execute(accounts.as_slice(), found.mint)?
        }
        RecordInstruction::TransferTokenizedRecord => {
            let ix = TransferTokenizedRecord::try_from(&Context { accounts: accounts.as_slice(), data })?;
            ix.execute(accounts.as_slice(), found.mint)?
        }
        RecordInstruction::BurnTokenizedRecord => {
            let ix = BurnTokenizedRecord::try_from(&Context { accounts: accounts.as_slice(), data })?;
            ix.execute(accounts, found.mint)?
        }
    };
    run_system(accounts, &plan);
    Ok(plan)
}

fn ix(discriminator: u8, args: &[u8]) -> Vec<u8> {
    let mut d = vec![discriminator];
    d.extend_from_slice(args);
    d
}

fn create_class_args(is_permissioned: bool, is_frozen: bool, name: &str, metadata: &str) -> Vec<u8> {
    let mut d = vec![is_permissioned as u8, is_frozen as u8, name.len() as u8];
    d.extend_from_slice(name.as_bytes());
    d.extend_from_slice(metadata.as_bytes());
    ix(0, &d)
}

fn create_record_args(expiry: i64, seed: &[u8], data: &[u8]) -> Vec<u8> {
    let mut d = expiry.to_le_bytes().to_vec();
    d.push(seed.len() as u8);
    d.extend_from_slice(seed);
    d.extend_from_slice(data);
    ix(4, &d)
}

fn token_cpi_data(cpi: &Cpi) -> Vec<u8> {
    match cpi {
        Cpi::Token { instruction, .. } => instruction.data.clone(),
        _ => panic!("not an invocation of the token program"),
    }
}

fn mint_signed(cpi: &Cpi) -> bool {
    match cpi {
        Cpi::Token { signers, .. } => signers.iter().any(|s| matches!(s, SignerSeeds::Mint { record, bump } if *record == RECORD && *bump == BUMP)),
        _ => false,
    }
}

#[test]
fn create_class() {
    let mut accounts = vec![wallet(AUTHORITY, true), wallet(AUTHORITY, true), account(CLASS, SYSTEM_PROGRAM, false, 0, Vec::new()), program(SYSTEM_PROGRAM)];
    let plan = run(&mut accounts, &create_class_args(false, false, "test", "test"), &found()).unwrap();
    assert_eq!(plan.len(), 1);
    assert_eq!(accounts[2].data, class_bytes(AUTHORITY, false, false, "test", "test"));
    assert_eq!(accounts[2].owner, ID);
    assert_eq!(accounts[2].lamports, rent(44));
}

#[test]
fn update_class_metadata() {
    let mut accounts = vec![wallet(AUTHORITY, true), wallet(RANDOM_PUBKEY, true), class_default(), program(SYSTEM_PROGRAM)];
    run(&mut accounts, &ix(1, b"test2"), &found()).unwrap();
    assert_eq!(accounts[2].data, class_bytes(AUTHORITY, false, false, "test", "test2"));
}

#[test]
fn update_class_metadata_incorrect_authority() {
    let mut accounts = vec![wallet(RANDOM_PUBKEY, true), wallet(RANDOM_PUBKEY, true), class_default(), program(SYSTEM_PROGRAM)];
    assert_eq!(run(&mut accounts, &ix(1, b"test2"), &found()).err(), Some(ProgramError::InvalidAccountData));
}

#[test]
fn update_class_authority() {
    let mut accounts = vec![wallet(AUTHORITY, true), wallet(AUTHORITY, true), class_default(), program(SYSTEM_PROGRAM)];
    run(&mut accounts, &ix(2, &RANDOM_PUBKEY), &found()).unwrap();
    assert_eq!(accounts[2].data, class_bytes(RANDOM_PUBKEY, false, false, "test", "test"));
}

#[test]
fn update_class_frozen() {
    let mut accounts = vec![wallet(AUTHORITY, true), class_default()];
    run(&mut accounts, &ix(3, &[1]), &found()).unwrap();
    assert_eq!(accounts[1].data, class_bytes(AUTHORITY, false, true, "test", "test"));
}

#[test]
fn update_class_frozen_already_frozen() {
    let mut accounts = vec![wallet(AUTHORITY, true), class_account(AUTHORITY, false, true, "test", "test")];
    run(&mut accounts, &ix(3, &[1]), &found()).unwrap();
    assert_eq!(accounts[1].data, class_bytes(AUTHORITY, false, true, "test", "test"));
}

fn create_record_accounts(authority: Option<AccountInfo>, class: AccountInfo) -> Vec<AccountInfo> {
    let mut accounts = vec![wallet(OWNER, true), wallet(OWNER, true), class, account(RECORD, SYSTEM_PROGRAM, false, 0, Vec::new()), program(SYSTEM_PROGRAM)];
    if let Some(a) = authority {
        accounts.push(a);
    }
    accounts
}

#[test]
fn create_record() {
    let mut accounts = create_record_accounts(None, class_default());
    run(&mut accounts, &create_record_args(0, b"test", b"test"), &found()).unwrap();
    assert_eq!(accounts[3].data, record_bytes(CLASS, 0, OWNER, false, 0, b"test", b"test"));
    assert_eq!(accounts[3].owner, ID);
}

#[test]
fn create_record_with_metadata() {
    let mut accounts = create_record_accounts(None, class_default());
    run(&mut accounts, &create_record_args(0, b"test", METADATA), &found()).unwrap();
    assert_eq!(accounts[3].data, record_bytes(CLASS, 0, OWNER, false, 0, b"test", METADATA));
}

#[test]
fn create_record_with_metadata_and_additional_metadata() {
    let mut accounts = create_record_accounts(None, class_default());
    run(&mut accounts, &create_record_args(0, b"test", METADATA_WITH_ADDITIONAL_METADATA), &found()).unwrap();
    assert_eq!(accounts[3].data, record_bytes(CLASS, 0, OWNER, false, 0, b"test", METADATA_WITH_ADDITIONAL_METADATA));
}

#[test]
fn create_permissioned_record() {
    let class = class_account(AUTHORITY, true, false, "test", "test");
    let mut accounts = create_record_accounts(Some(wallet(AUTHORITY, true)), class);
    accounts[1] = wallet(AUTHORITY, true);
    run(&mut accounts, &create_record_args(0, b"test", b"test"), &found()).unwrap();
    assert_eq!(accounts[3].data, record_bytes(CLASS, 0, OWNER, false, 0, b"test", b"test"));
}

fn update_record_accounts(authority: Pubkey, class: AccountInfo, record: AccountInfo) -> Vec<AccountInfo> {
    vec![wallet(authority, true), wallet(RANDOM_PUBKEY, true), record, class, program(SYSTEM_PROGRAM)]
}

#[test]
fn update_record() {
    let mut accounts = update_record_accounts(AUTHORITY, class_default(), record_account(0, OWNER, false, 0, b"test", b"test"));
    run(&mut accounts, &ix(5, b"test2"), &found()).unwrap();
    assert_eq!(accounts[2].data, record_bytes(CLASS, 0, OWNER, false, 0, b"test", b"test2"));
}

#[test]
fn update_record_with_metadata() {
    let mut accounts = update_record_accounts(AUTHORITY, class_default(), record_account(0, OWNER, false, 0, b"test", b"test"));
    let new_metadata: &[u8] = &[
        5, 0, 0, 0, 116, 101, 115, 116, 50, 3, 0, 0, 0, 83, 82, 83, 4, 0, 0, 0, 116, 101, 115, 116, 0, 0, 0, 0,
    ];
    run(&mut accounts, &ix(5, new_metadata), &found()).unwrap();
    assert_eq!(accounts[2].data, record_bytes(CLASS, 0, OWNER, false, 0, b"test", new_metadata));
}

#[test]
fn update_record_with_delegate_incorrect_authority() {
    let class = class_account(AUTHORITY, true, false, "test", "test");
    let mut accounts = update_record_accounts(RANDOM_PUBKEY, class, record_account(0, OWNER, false, 0, b"test", b"test"));
    assert_eq!(run(&mut accounts, &ix(5, b"test2"), &found()).err(), Some(ProgramError::InvalidAccountData));
}

#[test]
fn update_class_expiry() {
    let class = class_account(AUTHORITY, true, false, "test", "test");
    let mut accounts = update_record_accounts(AUTHORITY, class, record_account(0, OWNER, false, 0, b"test", b"test"));
    run(&mut accounts, &ix(6, &1000i64.to_le_bytes()), &found()).unwrap();
    assert_eq!(accounts[2].data, record_bytes(CLASS, 0, OWNER, false, 1000, b"test", b"test"));
}

#[test]
fn transfer_record() {
    let mut accounts = vec![wallet(OWNER, true), record_account(0, OWNER, false, 0, b"test", b"test")];
    run(&mut accounts, &ix(7, &NEW_OWNER), &found()).unwrap();
    assert_eq!(accounts[1].data, record_bytes(CLASS, 0, NEW_OWNER, false, 0, b"test", b"test"));
}

#[test]
fn transfer_record_with_delegate() {
    let class = class_account(AUTHORITY, true, false, "test", "test");
    let mut accounts = vec![wallet(AUTHORITY, true), record_account(0, OWNER, false, 0, b"test", b"test"), class];
    run(&mut accounts, &ix(7, &NEW_OWNER), &found()).unwrap();
    assert_eq!(accounts[1].data, record_bytes(CLASS, 0, NEW_OWNER, false, 0, b"test", b"test"));
}

#[test]
fn fail_transfer_record_frozen() {
    let mut accounts = vec![wallet(OWNER, true), record_account(0, OWNER, true, 0, b"test", b"test")];
    assert_eq!(run(&mut accounts, &ix(7, &NEW_OWNER), &found()).err(), Some(ProgramError::InvalidAccountData));
}

#[test]
fn delete_record() {
    let mut accounts = vec![wallet(OWNER, true), wallet(RANDOM_PUBKEY, false), record_account(0, OWNER, false, 0, b"test", b"test")];
    let before = accounts[0].lamports + accounts[2].lamports;
    let payer = accounts[1].lamports;
    run(&mut accounts, &ix(8, &[]), &found()).unwrap();
    assert_eq!(accounts[2].data, vec![0xff]);
    assert_eq!(accounts[2].lamports, rent(1));
    assert_eq!(accounts[0].lamports + accounts[2].lamports, before);
    assert_eq!(accounts[1].lamports, payer);
}

#[test]
fn delete_record_with_delegate() {
    let class = class_account(AUTHORITY, true, false, "test", "test");
    let mut accounts = vec![wallet(AUTHORITY, true), wallet(RANDOM_PUBKEY, false), record_account(0, OWNER, false, 0, b"test", b"test"), class];
    run(&mut accounts, &ix(8, &[]), &found()).unwrap();
    assert_eq!(accounts[2].data, vec![0xff]);
}

fn delete_tokenized_accounts(authority: Pubkey) -> Vec<AccountInfo> {
    vec![
        wallet(authority, true),
        wallet(authority, true),
        record_account(1, MINT, false, 0, b"test", b"test"),
        class_default(),
        program(TOKEN_2022_PROGRAM_ID),
        mint_account(0),
    ]
}

#[test]
fn delete_tokenized_record_with_no_supply() {
    let mut accounts = delete_tokenized_accounts(AUTHORITY);
    let plan = run(&mut accounts, &ix(8, &[]), &found()).unwrap();
    assert_eq!(accounts[2].data, vec![0xff]);
    assert_eq!(plan.len(), 1);
    assert_eq!(token_cpi_data(&plan[0]), vec![9]);
    assert!(mint_signed(&plan[0]));
}

#[test]
fn freeze_record() {
    let mut accounts = vec![wallet(AUTHORITY, true), record_account(0, OWNER, false, 0, b"test", b"test"), class_default()];
    run(&mut accounts, &ix(9, &[1]), &found()).unwrap();
    assert_eq!(accounts[1].data, record_bytes(CLASS, 0, OWNER, true, 0, b"test", b"test"));
}

#[test]
fn freeze_record_already_frozen() {
    let class = class_account(AUTHORITY, true, false, "test", "test");
    let mut accounts = vec![wallet(AUTHORITY, true), record_account(0, OWNER, true, 0, b"test", b"test"), class];
    run(&mut accounts, &ix(9, &[1]), &found()).unwrap();
    assert_eq!(accounts[1].data, record_bytes(CLASS, 0, OWNER, true, 0, b"test", b"test"));
}

fn mint_accounts(authority: Pubkey, class: AccountInfo, metadata: &[u8]) -> Vec<AccountInfo> {
    vec![
        wallet(OWNER, authority == OWNER),
        wallet(authority, true),
        wallet(authority, true),
        record_account(0, OWNER, false, 0, b"test", metadata),
        account(MINT, SYSTEM_PROGRAM, false, 0, Vec::new()),
        class,
        account(GROUP, SYSTEM_PROGRAM, false, 0, Vec::new()),
        account(TOKEN_ACCOUNT, SYSTEM_PROGRAM, false, 0, Vec::new()),
        program(ATA_PROGRAM),
        program(TOKEN_2022_PROGRAM_ID),
        program(SYSTEM_PROGRAM),
    ]
}

fn check_minted(accounts: &[AccountInfo], plan: &[Cpi], metadata: &[u8], pairs: &[&[u8]]) {
    let k = pairs.len();
    assert_eq!(plan.len(), 14 + k);
    let mut expected = vec![0xd2, 0xe1, 0x1e, 0xa2, 0x58, 0xb8, 0x4d, 0x8d];
    expected.extend_from_slice(&metadata[0..23]);
    assert_eq!(token_cpi_data(&plan[10]), expected);
    for (i, pair) in pairs.iter().enumerate() {
        let mut update = vec![0xdd, 0xe9, 0x31, 0x2d, 0xb5, 0xca, 0xdc, 0xc8, 3];
        update.extend_from_slice(pair);
        assert_eq!(token_cpi_data(&plan[11 + i]), update);
        assert!(mint_signed(&plan[11 + i]));
    }
    assert!(mint_signed(&plan[13 + k]));
    assert_eq!(token_cpi_data(&plan[13 + k]), vec![14, 1, 0, 0, 0, 0, 0, 0, 0, 0]);
    assert_eq!(accounts[3].data, record_bytes(CLASS, 1, MINT, true, 0, b"test", metadata));
    assert_eq!(accounts[4].owner, TOKEN_2022_PROGRAM_ID);
    assert_eq!(accounts[6].owner, TOKEN_2022_PROGRAM_ID);
}

#[test]
fn mint_record_token() {
    let mut accounts = mint_accounts(OWNER, class_default(), METADATA);
    let plan = run(&mut accounts, &ix(10, &[]), &found()).unwrap();
    check_minted(&accounts, &plan, METADATA, &[]);
    assert_eq!(accounts[6].lamports, rent(MintTokenizedRecord::group_rent_size()));
}

#[test]
fn mint_record_token_with_additional_metadata() {
    let mut accounts = mint_accounts(OWNER, class_default(), METADATA_WITH_ADDITIONAL_METADATA);
    let plan = run(&mut accounts, &ix(10, &[]), &found()).unwrap();
    check_minted(&accounts, &plan, METADATA_WITH_ADDITIONAL_METADATA, &[&METADATA_WITH_ADDITIONAL_METADATA[27..43]]);
    assert_eq!(accounts[4].lamports, rent(MintTokenizedRecord::mint_rent_size(&mint_accounts(OWNER, class_default(), METADATA_WITH_ADDITIONAL_METADATA)).unwrap()));
}

#[test]
fn mint_record_token_with_multiple_additional_metadata() {
    let mut accounts = mint_accounts(OWNER, class_default(), METADATA_WITH_MULTIPLE_ADDITIONAL_METADATA);
    let plan = run(&mut accounts, &ix(10, &[]), &found()).unwrap();
    let m = METADATA_WITH_MULTIPLE_ADDITIONAL_METADATA;
    check_minted(&accounts, &plan, m, &[&m[27..43], &m[43..59], &m[59..75]]);
}

#[test]
fn mint_record_token_with_delegate() {
    let class = class_account(AUTHORITY, true, false, "test", "test");
    let mut accounts = mint_accounts(AUTHORITY, class, METADATA);
    let plan = run(&mut accounts, &ix(10, &[]), &found()).unwrap();
    check_minted(&accounts, &plan, METADATA, &[]);
}

fn freeze_tokenized_accounts(class: AccountInfo) -> Vec<AccountInfo> {
    vec![
        wallet(AUTHORITY, true),
        record_account(1, MINT, false, 0, b"test", b"test"),
        mint_account(1),
        token_account(TOKEN_ACCOUNT, OWNER, false),
        class,
        program(TOKEN_2022_PROGRAM_ID),
    ]
}

#[test]
fn freeze_tokenized_record() {
    let mut accounts = freeze_tokenized_accounts(class_default());
    let plan = run(&mut accounts, &ix(11, &[1]), &found()).unwrap();
    assert_eq!(plan.len(), 1);
    assert_eq!(token_cpi_data(&plan[0]), vec![10]);
    assert!(mint_signed(&plan[0]));
}

#[test]
fn freeze_tokenized_record_delegate() {
    let mut accounts = freeze_tokenized_accounts(class_account(AUTHORITY, true, false, "test", "test"));
    let plan = run(&mut accounts, &ix(11, &[1]), &found()).unwrap();
    assert_eq!(token_cpi_data(&plan[0]), vec![10]);
}

fn transfer_tokenized_accounts(authority: Pubkey, class: Option<AccountInfo>) -> Vec<AccountInfo> {
    let mut accounts = vec![
        wallet(authority, true),
        record_account(1, MINT, false, 0, b"test", b"test"),
        mint_account(1),
        token_account(TOKEN_ACCOUNT, OWNER, false),
        token_account(NEW_TOKEN_ACCOUNT, RANDOM_PUBKEY, false),
        program(TOKEN_2022_PROGRAM_ID),
    ];
    if let Some(c) = class {
        accounts.push(c);
    }
    accounts
}

#[test]
fn transfer_tokenized_record() {
    let mut accounts = transfer_tokenized_accounts(OWNER, None);
    let plan = run(&mut accounts, &ix(12, &[]), &found()).unwrap();
    assert_eq!(plan.len(), 1);
    assert_eq!(token_cpi_data(&plan[0]), vec![12, 1, 0, 0, 0, 0, 0, 0, 0, 0]);
    assert!(!mint_signed(&plan[0]));
}

#[test]
fn transfer_tokenized_record_delegate() {
    let class = class_account(AUTHORITY, true, false, "test", "test");
    let mut accounts = transfer_tokenized_accounts(AUTHORITY, Some(class));
    let plan = run(&mut accounts, &ix(12, &[]), &found()).unwrap();
    assert_eq!(token_cpi_data(&plan[0]), vec![12, 1, 0, 0, 0, 0, 0, 0, 0, 0]);
    assert!(mint_signed(&plan[0]));
}

fn burn_accounts(authority: Pubkey, record_frozen: bool, token_frozen: bool, class: Option<AccountInfo>) -> Vec<AccountInfo> {
    let mut accounts = vec![
        wallet(authority, true),
        wallet(RANDOM_PUBKEY, false),
        record_account(1, MINT, record_frozen, 0, b"test", b"test"),
        mint_account(1),
        token_account(TOKEN_ACCOUNT, OWNER, token_frozen),
        program(TOKEN_2022_PROGRAM_ID),
    ];
    if let Some(c) = class {
        accounts.push(c);
    }
    accounts
}

#[test]
fn burn_tokenized_record() {
    let mut accounts = burn_accounts(OWNER, true, false, None);
    let plan = run(&mut accounts, &ix(13, &[]), &found()).unwrap();
    assert_eq!(plan.len(), 2);
    assert_eq!(token_cpi_data(&plan[0]), vec![15, 1, 0, 0, 0, 0, 0, 0, 0, 0]);
    assert_eq!(token_cpi_data(&plan[1]), vec![9]);
    assert_eq!(accounts[2].data, record_bytes(CLASS, 0, OWNER, false, 0, b"test", b"test"));
}

#[test]
fn burn_tokenized_record_delegate() {
    let class = class_account(AUTHORITY, true, false, "test", "test");
    let mut accounts = burn_accounts(AUTHORITY, true, false, Some(class));
    run(&mut accounts, &ix(13, &[]), &found()).unwrap();
    assert_eq!(accounts[2].data, record_bytes(CLASS, 0, OWNER, false, 0, b"test", b"test"));
}

/// The token program's part of a mint: the mint and the holder's token
/// account.
fn after_mint(accounts: &mut Vec<AccountInfo>) {
    accounts[4] = mint_account(1);
    accounts[7] = token_account(TOKEN_ACCOUNT, OWNER, false);
}

fn burn_after_mint(accounts: &[AccountInfo], authority: Pubkey, with_class: bool) -> Vec<AccountInfo> {
    let mut burn = vec![
        wallet(authority, true),
        wallet(authority, true),
        accounts[3].clone_account(),
        accounts[4].clone_account(),
        accounts[7].clone_account(),
        program(TOKEN_2022_PROGRAM_ID),
    ];
    if with_class {
        burn.push(accounts[5].clone_account());
    }
    burn
}

trait CloneAccount {
    fn clone_account(&self) -> AccountInfo;
}

impl CloneAccount for AccountInfo {
    fn clone_account(&self) -> AccountInfo {
        AccountInfo { key: self.key, owner: self.owner, is_signer: self.is_signer, lamports: self.lamports, data: self.data.clone() }
    }
}

#[test]
fn mint_and_burn_tokenized_record() {
    let mut accounts = mint_accounts(OWNER, class_default(), METADATA);
    run(&mut accounts, &ix(10, &[]), &found()).unwrap();
    after_mint(&mut accounts);
    let mut burn = burn_after_mint(&accounts, OWNER, false);
    run(&mut burn, &ix(13, &[]), &found()).unwrap();
    assert_eq!(burn[2].data, record_bytes(CLASS, 0, OWNER, false, 0, b"test", METADATA));
}

#[test]
fn mint_and_burn_tokenized_record_delegate() {
    let class = class_account(AUTHORITY, true, false, "test", "test");
    let mut accounts = mint_accounts(AUTHORITY, class, METADATA);
    run(&mut accounts, &ix(10, &[]), &found()).unwrap();
    after_mint(&mut accounts);
    let mut burn = burn_after_mint(&accounts, AUTHORITY, true);
    run(&mut burn, &ix(13, &[]), &found()).unwrap();
    assert_eq!(burn[2].data, record_bytes(CLASS, 0, OWNER, false, 0, b"test", METADATA));
}

#[test]
fn test_create_record_rejects_non_canonical_pda() {
    let mut accounts = create_record_accounts(None, class_default());
    accounts[3] = account([0xef; 32], SYSTEM_PROGRAM, true, 0, Vec::new());
    assert_eq!(run(&mut accounts, &create_record_args(0, b"test", b"test"), &found()).err(), Some(ProgramError::InvalidSeeds));
}

#[test]
fn test_create_record_rejects_wrong_pda_different_seed() {
    let mut accounts = create_record_accounts(None, class_default());
    let wrong = Found { record: Some(([0x22; 32], BUMP)), ..found() };
    assert_eq!(run(&mut accounts, &create_record_args(0, b"test", b"test"), &wrong).err(), Some(ProgramError::InvalidSeeds));
}

#[test]
fn test_create_class_rejects_non_canonical_pda() {
    let mut accounts = vec![wallet(AUTHORITY, true), wallet(AUTHORITY, true), account([0xef; 32], SYSTEM_PROGRAM, true, 0, Vec::new()), program(SYSTEM_PROGRAM)];
    assert_eq!(run(&mut accounts, &create_class_args(false, false, "test", "test"), &found()).err(), Some(ProgramError::InvalidSeeds));
}

#[test]
fn test_mint_tokenized_record_rejects_non_canonical_mint_pda() {
    let mut accounts = mint_accounts(OWNER, class_default(), METADATA);
    accounts[4] = account([0xef; 32], SYSTEM_PROGRAM, true, 0, Vec::new());
    assert_eq!(run(&mut accounts, &ix(10, &[]), &found()).err(), Some(ProgramError::InvalidSeeds));
}

#[test]
fn test_create_record_with_prefunded_account_calculates_lamports_correctly() {
    let mut accounts = create_record_accounts(None, class_default());
    accounts[3].lamports = 50_000;
    let plan = run(&mut accounts, &create_record_args(0, b"prefunded-test", b"test data"), &found()).unwrap();
    assert_eq!(plan.len(), 3);
    assert!(accounts[3].lamports > 50_000);
    assert_eq!(accounts[3].lamports, rent(76 + 14 + 9));
}

#[test]
fn test_create_class_with_prefunded_account_calculates_lamports_correctly() {
    let mut accounts = vec![wallet(AUTHORITY, true), wallet(AUTHORITY, true), account(CLASS, SYSTEM_PROGRAM, false, 100_000, Vec::new()), program(SYSTEM_PROGRAM)];
    run(&mut accounts, &create_class_args(false, false, "prefunded-class-test", "test metadata"), &found()).unwrap();
    assert!(accounts[2].lamports > 100_000);
    assert_eq!(accounts[2].data, class_bytes(AUTHORITY, false, false, "prefunded-class-test", "test metadata"));
}

#[test]
fn test_delete_tokenized_record_requires_class_authority_after_external_burn() {
    let mut accounts = delete_tokenized_accounts([0xee; 32]);
    assert_eq!(run(&mut accounts, &ix(8, &[]), &found()).err(), Some(ProgramError::InvalidAccountData));
}

#[test]
fn test_delete_tokenized_record_succeeds_for_class_authority_after_external_burn() {
    let mut accounts = delete_tokenized_accounts(AUTHORITY);
    run(&mut accounts, &ix(8, &[]), &found()).unwrap();
    assert_eq!(accounts[2].data, vec![0xff]);
}

#[test]
fn test_burn_frozen_tokenized_record_succeeds() {
    let mut accounts = burn_accounts(OWNER, true, true, None);
    let plan = run(&mut accounts, &ix(13, &[]), &found()).unwrap();
    assert_eq!(plan.len(), 3);
    assert_eq!(token_cpi_data(&plan[0]), vec![11]);
}

#[test]
fn test_multisig_account_rejected_as_mint() {
    let mut accounts = burn_accounts(OWNER, false, false, None);
    accounts[2] = record_account(1, RANDOM_PUBKEY, false, 0, b"test", b"test");
    let mut multisig = vec![0u8; 355];
    multisig[165] = 1;
    accounts[3] = account(MINT, TOKEN_2022_PROGRAM_ID, false, 1, multisig);
    assert_eq!(run(&mut accounts, &ix(13, &[]), &found()).err(), Some(ProgramError::InvalidAccountData));
}

#[test]
fn test_multisig_account_rejected_as_token_account() {
    let mut accounts = burn_accounts(OWNER, false, false, None);
    let mut multisig = vec![0u8; 355];
    multisig[165] = 2;
    multisig[0..32].copy_from_slice(&MINT);
    multisig[32..64].copy_from_slice(&OWNER);
    multisig[64..72].copy_from_slice(&[1, 0, 0, 0, 0, 0, 0, 0]);
    accounts[4] = account(TOKEN_ACCOUNT, TOKEN_2022_PROGRAM_ID, false, 1, multisig);
    assert_eq!(run(&mut accounts, &ix(13, &[]), &found()).err(), Some(ProgramError::InvalidAccountData));
}

#[test]
fn test_update_record_data_fails_when_frozen() {
    let mut accounts = update_record_accounts(AUTHORITY, class_default(), record_account(0, OWNER, true, 0, b"test", b"test"));
    assert_eq!(run(&mut accounts, &ix(5, b"modified"), &found()).err(), Some(ProgramError::InvalidAccountData));
}

fn group_account() -> AccountInfo {
    let mut d = vec![0u8; 300];
    d[45] = 1;
    d[165] = 1;
    account(GROUP, TOKEN_2022_PROGRAM_ID, false, 3_000_000, d)
}

#[test]
fn update_tokenized_record() {
    let class = class_account(AUTHORITY, true, false, "test", "test");
    let mut burn = vec![
        wallet(AUTHORITY, true),
        wallet(RANDOM_PUBKEY, true),
        record_account(1, MINT, false, 0, b"test", b"test"),
        mint_account(1),
        token_account(TOKEN_ACCOUNT, OWNER, false),
        program(TOKEN_2022_PROGRAM_ID),
        class.clone_account(),
    ];
    run(&mut burn, &ix(13, &[]), &found()).unwrap();
    assert_eq!(burn[2].data, record_bytes(CLASS, 0, OWNER, false, 0, b"test", b"test"));

    let new_metadata: &[u8] = &[
        5, 0, 0, 0, 116, 101, 115, 116, 50, 3, 0, 0, 0, 83, 82, 83, 4, 0, 0, 0, 116, 101, 115, 116, 0, 0, 0, 0,
    ];
    let mut update = vec![wallet(AUTHORITY, true), wallet(RANDOM_PUBKEY, true), burn[2].clone_account(), class.clone_account(), program(SYSTEM_PROGRAM)];
    run(&mut update, &ix(5, new_metadata), &found()).unwrap();
    assert_eq!(update[2].data, record_bytes(CLASS, 0, OWNER, false, 0, b"test", new_metadata));

    let mut mint = vec![
        wallet(OWNER, false),
        wallet(AUTHORITY, true),
        wallet(AUTHORITY, true),
        update[2].clone_account(),
        account(MINT, SYSTEM_PROGRAM, false, 0, Vec::new()),
        class.clone_account(),
        group_account(),
        account(TOKEN_ACCOUNT, SYSTEM_PROGRAM, false, 0, Vec::new()),
        program(ATA_PROGRAM),
        program(TOKEN_2022_PROGRAM_ID),
        program(SYSTEM_PROGRAM),
    ];
    let plan = run(&mut mint, &ix(10, &[]), &found()).unwrap();
    assert_eq!(plan.len(), 10);
    let mut expected = vec![0xd2, 0xe1, 0x1e, 0xa2, 0x58, 0xb8, 0x4d, 0x8d];
    expected.extend_from_slice(&new_metadata[0..24]);
    assert_eq!(token_cpi_data(&plan[6]), expected);
    assert_eq!(mint[3].data, record_bytes(CLASS, 1, MINT, true, 0, b"test", new_metadata));
}

#[test]
fn too_few_or_too_many_accounts_are_refused() {
    let mut one = vec![wallet(AUTHORITY, true)];
    assert_eq!(run(&mut one, &ix(3, &[1]), &found()).err(), Some(ProgramError::NotEnoughAccountKeys));
    let mut three = vec![wallet(AUTHORITY, true), class_default(), program(SYSTEM_PROGRAM)];
    assert_eq!(run(&mut three, &ix(3, &[1]), &found()).err(), Some(ProgramError::NotEnoughAccountKeys));
    let mut short = vec![wallet(OWNER, true), wallet(OWNER, true), class_default(), program(SYSTEM_PROGRAM)];
    assert_eq!(run(&mut short, &create_record_args(0, b"test", b"test"), &found()).err(), Some(ProgramError::NotEnoughAccountKeys));
}

#[test]
fn freezing_then_unfreezing_a_record_gives_it_back() {
    let original = record_bytes(CLASS, 0, OWNER, false, 7, b"test", b"data");
    let mut accounts = vec![wallet(AUTHORITY, true), account(RECORD, ID, false, 1, original.clone()), class_default()];
    run(&mut accounts, &ix(9, &[1]), &found()).unwrap();
    assert_eq!(accounts[1].data, record_bytes(CLASS, 0, OWNER, true, 7, b"test", b"data"));
    run(&mut accounts, &ix(9, &[0]), &found()).unwrap();
    assert_eq!(accounts[1].data, original);
    assert_eq!(run(&mut accounts, &ix(9, &[2]), &found()).err(), Some(ProgramError::InvalidInstructionData));
}

#[test]
fn a_class_handed_over_answers_to_its_new_authority_only() {
    let mut accounts = vec![wallet(AUTHORITY, true), wallet(AUTHORITY, true), class_default(), program(SYSTEM_PROGRAM)];
    run(&mut accounts, &ix(2, &RANDOM_PUBKEY), &found()).unwrap();
    let class = accounts[2].clone_account();
    let mut old_authority = vec![wallet(AUTHORITY, true), class.clone_account()];
    assert_eq!(run(&mut old_authority, &ix(3, &[1]), &found()).err(), Some(ProgramError::InvalidAccountData));
    let mut new_authority = vec![wallet(RANDOM_PUBKEY, true), class];
    run(&mut new_authority, &ix(3, &[1]), &found()).unwrap();
    assert_eq!(new_authority[1].data, class_bytes(RANDOM_PUBKEY, false, true, "test", "test"));
}

#[test]
fn a_frozen_class_takes_no_records() {
    let mut accounts = create_record_accounts(None, class_account(AUTHORITY, false, true, "test", "test"));
    assert_eq!(run(&mut accounts, &create_record_args(0, b"test", b"test"), &found()).err(), Some(ProgramError::InvalidAccountData));
}

#[test]
fn a_permissioned_class_wants_its_authority() {
    let class = class_account(AUTHORITY, true, false, "test", "test");
    let mut without = create_record_accounts(None, class.clone_account());
    assert_eq!(run(&mut without, &create_record_args(0, b"test", b"test"), &found()).err(), Some(ProgramError::InvalidAccountData));
    let mut unsigned = create_record_accounts(Some(wallet(AUTHORITY, false)), class);
    assert_eq!(run(&mut unsigned, &create_record_args(0, b"test", b"test"), &found()).err(), Some(ProgramError::MissingRequiredSignature));
}

#[test]
fn instruction_data_shorter_than_its_arguments_is_refused() {
    let mut accounts = vec![wallet(OWNER, true), record_account(0, OWNER, false, 0, b"test", b"test")];
    assert_eq!(run(&mut accounts, &ix(7, &[1, 2, 3]), &found()).err(), Some(ProgramError::InvalidArgument));
    let mut class = vec![wallet(AUTHORITY, true), wallet(AUTHORITY, true), account(CLASS, SYSTEM_PROGRAM, false, 0, Vec::new()), program(SYSTEM_PROGRAM)];
    assert_eq!(run(&mut class, &ix(0, &[0, 0]), &found()).err(), Some(ProgramError::InvalidArgument));
    let long_name = "n".repeat(33);
    assert_eq!(run(&mut class, &create_class_args(false, false, &long_name, ""), &found()).err(), Some(ProgramError::InvalidArgument));
}

#[test]
fn a_record_shrinks_and_its_payer_gets_the_excess_back() {
    let mut accounts = update_record_accounts(AUTHORITY, class_default(), record_account(0, OWNER, false, 0, b"test", b"a longer piece of data"));
    let before = accounts[1].lamports + accounts[2].lamports;
    let plan = run(&mut accounts, &ix(5, b"short"), &found()).unwrap();
    assert!(plan.is_empty());
    assert_eq!(accounts[2].data, record_bytes(CLASS, 0, OWNER, false, 0, b"test", b"short"));
    assert_eq!(accounts[2].lamports, rent(76 + 4 + 5));
    assert_eq!(accounts[1].lamports + accounts[2].lamports, before);
}

#[test]
fn deleted_record_leaves_the_rent_it_is_handed_and_refunds_the_authority() {
    let mut accounts = vec![wallet(OWNER, true), wallet(RANDOM_PUBKEY, false), record_account(0, OWNER, false, 0, b"test", b"test")];
    let total = accounts[0].lamports + accounts[2].lamports;
    let ix = DeleteRecord::try_from(&Context { accounts: accounts.as_slice(), data: &[] }).unwrap();
    let plan = ix.execute(&mut accounts, 1_000, None).unwrap();
    assert!(plan.is_empty());
    assert_eq!(accounts[2].data, vec![0xff]);
    assert_eq!(accounts[2].lamports, 1_000);
    assert_eq!(accounts[0].lamports, total - 1_000);
    assert_eq!(accounts[1].lamports, 100_000_000_000);
}

#[test]
fn deleted_tokenized_record_closes_its_mint_to_the_authority() {
    let mut accounts = delete_tokenized_accounts(AUTHORITY);
    accounts[1] = wallet(RANDOM_PUBKEY, true);
    let plan = run(&mut accounts, &ix(8, &[]), &found()).unwrap();
    match &plan[0] {
        Cpi::Token { instruction, .. } => {
            assert_eq!(instruction.data, vec![9]);
            assert_eq!(instruction.accounts[0].pubkey, MINT);
            assert_eq!(instruction.accounts[1].pubkey, AUTHORITY);
        }
        _ => panic!("expected the mint to be closed"),
    }
}

#[test]
fn record_seed_and_data_must_be_utf8() {
    let mut accounts = create_record_accounts(None, class_default());
    assert_eq!(run(&mut accounts, &create_record_args(0, &[0xff], b"test"), &found()).err(), Some(ProgramError::InvalidInstructionData));
    let mut accounts = create_record_accounts(None, class_default());
    assert_eq!(run(&mut accounts, &create_record_args(0, b"test", &[0xfe]), &found()).err(), Some(ProgramError::InvalidInstructionData));
    let mut accounts = update_record_accounts(AUTHORITY, class_default(), record_account(0, OWNER, false, 0, b"test", b"test"));
    assert_eq!(run(&mut accounts, &ix(5, &[0xff]), &found()).err(), Some(ProgramError::InvalidInstructionData));
    assert_eq!(accounts[2].data, record_bytes(CLASS, 0, OWNER, false, 0, b"test", b"test"));
}

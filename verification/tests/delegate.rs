use record_service::account::AccountInfo;
use record_service::cpi::Cpi;
use record_service::error::ProgramError;
use record_service::instructions::{
    CreateRecordAuthorityDelegate, DeleteRecordAuthorityDelegate, UpdateRecordAuthorityDelegate,
};
use record_service::utils::Context;
use record_service::ID;

type Pubkey = [u8; 32];

const OWNER: Pubkey = [0xbb; 32];
const CLASS: Pubkey = [0x01; 32];
const RECORD: Pubkey = [0x02; 32];
const DELEGATE: Pubkey = [0x08; 32];

fn account(key: Pubkey, owner: Pubkey, is_signer: bool, lamports: u64, data: Vec<u8>) -> AccountInfo {
    AccountInfo { key, owner, is_signer, lamports, data }
}

fn record_bytes(owner: Pubkey) -> Vec<u8> {
    let mut d = vec![2u8];
    d.extend_from_slice(&CLASS);
    d.push(0);
    d.extend_from_slice(&owner);
    d.push(0);
    d.extend_from_slice(&0i64.to_le_bytes());
    d.push(4);
    d.extend_from_slice(b"test");
    d
}

fn authorities(first: u8) -> Vec<u8> {
    let mut d = Vec::new();
    for k in 0..5u8 {
        d.extend_from_slice(&[first + k; 32]);
    }
    d
}

fn delegate_bytes(first: u8) -> Vec<u8> {
    let mut d = vec![3u8];
    d.extend_from_slice(&RECORD);
    d.extend_from_slice(&authorities(first));
    d
}

#[test]
fn owner_creates_a_record_delegate() {
    let accounts = vec![
        account(OWNER, [0; 32], true, 10_000_000, vec![]),
        account(RECORD, ID, false, 1_000_000, record_bytes(OWNER)),
        account(DELEGATE, [0; 32], false, 0, vec![]),
        account([0; 32], [0xff; 32], false, 1, vec![]),
    ];
    let data = authorities(0x40);
    let ix = CreateRecordAuthorityDelegate::try_from(&Context { accounts: &accounts, data: &data }).unwrap();
    assert_eq!(ix.update_authority, [0x40; 32]);
    assert_eq!(ix.authority_program, [0x44; 32]);
    assert_eq!(ix.execute(&accounts, 5_000, None).err(), Some(ProgramError::InvalidArgument));
    assert_eq!(ix.execute(&accounts, 5_000, Some(([0x99; 32], 255))).err(), Some(ProgramError::InvalidSeeds));
    let plan = ix.execute(&accounts, 5_000, Some((DELEGATE, 255))).unwrap();
    assert_eq!(plan.len(), 1);
    match &plan[0] {
        Cpi::CreateAccount { from, to, lamports, space, owner, .. } => {
            assert_eq!((*from, *to, *lamports, *space, *owner), (OWNER, DELEGATE, 5_000, 193, ID));
        }
        _ => panic!("a creation is planned"),
    }
    let mut created = account(DELEGATE, ID, false, 5_000, vec![0u8; 193]);
    assert_eq!(ix.initialize(&mut created), Ok(()));
    assert_eq!(created.data, delegate_bytes(0x40));
}

#[test]
fn only_the_owner_creates_a_record_delegate() {
    let accounts = vec![
        account([0x77; 32], [0; 32], true, 10_000_000, vec![]),
        account(RECORD, ID, false, 1_000_000, record_bytes(OWNER)),
        account(DELEGATE, [0; 32], false, 0, vec![]),
        account([0; 32], [0xff; 32], false, 1, vec![]),
    ];
    let data = authorities(0x40);
    assert_eq!(
        CreateRecordAuthorityDelegate::try_from(&Context { accounts: &accounts, data: &data }).err(),
        Some(ProgramError::MissingRequiredSignature)
    );
    let short = [0u8; 100];
    let owned = vec![
        account(OWNER, [0; 32], true, 10_000_000, vec![]),
        account(RECORD, ID, false, 1_000_000, record_bytes(OWNER)),
        account(DELEGATE, [0; 32], false, 0, vec![]),
        account([0; 32], [0xff; 32], false, 1, vec![]),
    ];
    assert_eq!(
        CreateRecordAuthorityDelegate::try_from(&Context { accounts: &owned, data: &short }).err(),
        Some(ProgramError::InvalidArgument)
    );
}

#[test]
fn update_authority_renames_the_delegates() {
    let mut accounts = vec![
        account([0x40; 32], [0; 32], true, 1, vec![]),
        account(RECORD, ID, false, 1_000_000, record_bytes(OWNER)),
        account(DELEGATE, ID, false, 2_000_000, delegate_bytes(0x40)),
    ];
    let data = authorities(0x50);
    assert_eq!(UpdateRecordAuthorityDelegate::process(&mut accounts, &data), Ok(()));
    assert_eq!(accounts[2].data, delegate_bytes(0x50));
    let mut stranger = vec![
        account([0x41; 32], [0; 32], true, 1, vec![]),
        account(RECORD, ID, false, 1_000_000, record_bytes(OWNER)),
        account(DELEGATE, ID, false, 2_000_000, delegate_bytes(0x40)),
    ];
    assert_eq!(
        UpdateRecordAuthorityDelegate::process(&mut stranger, &data),
        Err(ProgramError::MissingRequiredSignature)
    );
    assert_eq!(stranger[2].data, delegate_bytes(0x40));
}

#[test]
fn owner_deletes_the_delegate_and_takes_its_rent() {
    let mut accounts = vec![
        account(OWNER, [0; 32], true, 100, vec![]),
        account(RECORD, ID, false, 1_000_000, record_bytes(OWNER)),
        account(DELEGATE, ID, false, 2_000_000, delegate_bytes(0x40)),
    ];
    let ix = DeleteRecordAuthorityDelegate::try_from(&Context { accounts: &accounts, data: &[] }).unwrap();
    let plan = ix.execute(&mut accounts, 890_880).unwrap();
    assert!(plan.is_empty());
    assert_eq!(accounts[2].data, vec![0xff]);
    assert_eq!(accounts[2].lamports, 890_880);
    assert_eq!(accounts[0].lamports, 100 + 2_000_000 - 890_880);
}

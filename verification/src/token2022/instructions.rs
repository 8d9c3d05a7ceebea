use vstd::prelude::*;

use crate::account::Pubkey;
use crate::cpi::{AccountMeta, Instruction, TokenInstruction};
use crate::token2022::constants::TOKEN_2022_PROGRAM_ID;
use crate::utils::{push_bytes, push_zeros, zeros, Pod};

verus! {

/// The token program instruction with these accounts and data.
fn token_instruction(accounts: Vec<AccountMeta>, data: Vec<u8>) -> (ix: Instruction)
    ensures
        ix.program_id == TOKEN_2022_PROGRAM_ID,
        ix.accounts@ == accounts@,
        ix.data@ == data@,
{
    Instruction { program_id: TOKEN_2022_PROGRAM_ID, accounts, data }
}

/// Initialize a new Token Account.
///
/// ### Accounts:
///   0. `[WRITE]`  The account to initialize.
///   1. `[]` The mint this account will be associated with.
pub struct InitializeAccount3 {
    /// New Account.
    pub account: Pubkey,
    /// Mint Account.
    pub mint: Pubkey,
    /// Owner of the new Account.
    pub owner: Pubkey,
}

impl InitializeAccount3 {
    pub const DISCRIMINATOR: u8 = 0x12;
}

impl TokenInstruction for InitializeAccount3 {
    open spec fn spec_accounts(&self) -> Seq<AccountMeta> {
        seq![
            AccountMeta { pubkey: self.account, is_writable: true, is_signer: false },
            AccountMeta { pubkey: self.mint, is_writable: false, is_signer: false },
        ]
    }

    /// Data: the discriminator, then the owner.
    open spec fn spec_data(&self) -> Seq<u8> {
        seq![Self::DISCRIMINATOR] + self.owner@
    }

    open spec fn spec_buildable(&self) -> bool {
        true
    }

    fn instruction(&self) -> (ix: Instruction) {
        let mut accounts = Vec::new();
        accounts.push(AccountMeta::writable(&self.account));
        accounts.push(AccountMeta::readonly(&self.mint));
        let mut data = Vec::new();
        data.push(Self::DISCRIMINATOR);
        push_bytes(&mut data, self.owner.as_slice());
        proof {
            assert(accounts@ =~= seq![
                AccountMeta { pubkey: self.account, is_writable: true, is_signer: false },
                AccountMeta { pubkey: self.mint, is_writable: false, is_signer: false },
            ]);
            assert(data@ =~= seq![Self::DISCRIMINATOR] + self.owner@);
        }
        token_instruction(accounts, data)
    }
}

/// Initializes a token group on a mint.
///
/// ### Accounts:
///   0. `[WRITE]`  The group mint.
///   1. `[]` The group mint again.
///   2. `[SIGNER]` The mint authority.
pub struct InitializeGroup {
    /// Mint Account.
    pub mint: Pubkey,
    /// Mint Authority Account.
    pub mint_authority: Pubkey,
    /// Update Authority.
    pub update_authority: Pubkey,
    /// Max Size
    pub max_size: u64,
}

impl InitializeGroup {
    pub const DISCRIMINATOR: [u8; 8] = [0x79, 0x71, 0x6c, 0x27, 0x36, 0x33, 0x00, 0x04];
}

impl TokenInstruction for InitializeGroup {
    open spec fn spec_accounts(&self) -> Seq<AccountMeta> {
        seq![
            AccountMeta { pubkey: self.mint, is_writable: true, is_signer: false },
            AccountMeta { pubkey: self.mint, is_writable: false, is_signer: false },
            AccountMeta { pubkey: self.mint_authority, is_writable: false, is_signer: true },
        ]
    }

    /// Data, 48 bytes: the discriminator, the update authority at 8 and the
    /// maximum size at 40, little-endian.
    open spec fn spec_data(&self) -> Seq<u8> {
        Self::DISCRIMINATOR@ + self.update_authority@ + u64::spec_encode(self.max_size)
    }

    open spec fn spec_buildable(&self) -> bool {
        true
    }

    fn instruction(&self) -> (ix: Instruction) {
        let mut accounts = Vec::new();
        accounts.push(AccountMeta::writable(&self.mint));
        accounts.push(AccountMeta::readonly(&self.mint));
        accounts.push(AccountMeta::readonly_signer(&self.mint_authority));
        let mut data = Vec::new();
        let discriminator = Self::DISCRIMINATOR;
        push_bytes(&mut data, discriminator.as_slice());
        push_bytes(&mut data, self.update_authority.as_slice());
        let size = self.max_size.encode();
        push_bytes(&mut data, size.as_slice());
        proof {
            assert(accounts@ =~= seq![
                AccountMeta { pubkey: self.mint, is_writable: true, is_signer: false },
                AccountMeta { pubkey: self.mint, is_writable: false, is_signer: false },
                AccountMeta { pubkey: self.mint_authority, is_writable: false, is_signer: true },
            ]);
            assert(data@ =~= Self::DISCRIMINATOR@ + self.update_authority@ + u64::spec_encode(self.max_size));
        }
        token_instruction(accounts, data)
    }
}

/// Initializes the group pointer extension of a mint.
pub struct InitializeGroupPointer {
    pub mint: Pubkey,
    pub authority: Pubkey,
    pub group_address: Pubkey,
}

impl InitializeGroupPointer {
    pub const GROUP_POINTER_DISCRIMINATOR: u8 = 0x28;

    pub const GROUP_POINTER_INITIALIZE_DISCRIMINATOR: u8 = 0x00;
}

impl TokenInstruction for InitializeGroupPointer {
    open spec fn spec_accounts(&self) -> Seq<AccountMeta> {
        seq![
            AccountMeta { pubkey: self.mint, is_writable: true, is_signer: false },
        ]
    }

    /// Data: the two discriminators, the authority, the group address.
    open spec fn spec_data(&self) -> Seq<u8> {
        seq![
            Self::GROUP_POINTER_DISCRIMINATOR,
            Self::GROUP_POINTER_INITIALIZE_DISCRIMINATOR,
            ] + self.authority@ + self.group_address@
    }

    open spec fn spec_buildable(&self) -> bool {
        true
    }

    fn instruction(&self) -> (ix: Instruction) {
        let mut accounts = Vec::new();
        accounts.push(AccountMeta::writable(&self.mint));
        let mut data = Vec::new();
        data.push(Self::GROUP_POINTER_DISCRIMINATOR);
        data.push(Self::GROUP_POINTER_INITIALIZE_DISCRIMINATOR);
        push_bytes(&mut data, self.authority.as_slice());
        push_bytes(&mut data, self.group_address.as_slice());
        proof {
            assert(accounts@ =~= seq![
                AccountMeta { pubkey: self.mint, is_writable: true, is_signer: false },
            ]);
            assert(data@ =~= seq![
                Self::GROUP_POINTER_DISCRIMINATOR,
                Self::GROUP_POINTER_INITIALIZE_DISCRIMINATOR,
            ] + self.authority@ + self.group_address@);
        }
        token_instruction(accounts, data)
    }
}

/// Initializes the group member pointer extension of a mint.
pub struct InitializeGroupMemberPointer {
    pub mint: Pubkey,
    pub authority: Pubkey,
    pub member_address: Pubkey,
}

impl InitializeGroupMemberPointer {
    pub const GROUP_MEMBER_POINTER_DISCRIMINATOR: u8 = 0x29;

    pub const GROUP_MEMBER_POINTER_INITIALIZE_DISCRIMINATOR: u8 = 0x00;
}

impl TokenInstruction for InitializeGroupMemberPointer {
    open spec fn spec_accounts(&self) -> Seq<AccountMeta> {
        seq![
            AccountMeta { pubkey: self.mint, is_writable: true, is_signer: false },
        ]
    }

    /// Data: the two discriminators, the authority, the member address.
    open spec fn spec_data(&self) -> Seq<u8> {
        seq![
            Self::GROUP_MEMBER_POINTER_DISCRIMINATOR,
            Self::GROUP_MEMBER_POINTER_INITIALIZE_DISCRIMINATOR,
            ] + self.authority@ + self.member_address@
    }

    open spec fn spec_buildable(&self) -> bool {
        true
    }

    fn instruction(&self) -> (ix: Instruction) {
        let mut accounts = Vec::new();
        accounts.push(AccountMeta::writable(&self.mint));
        let mut data = Vec::new();
        data.push(Self::GROUP_MEMBER_POINTER_DISCRIMINATOR);
        data.push(Self::GROUP_MEMBER_POINTER_INITIALIZE_DISCRIMINATOR);
        push_bytes(&mut data, self.authority.as_slice());
        push_bytes(&mut data, self.member_address.as_slice());
        proof {
            assert(accounts@ =~= seq![
                AccountMeta { pubkey: self.mint, is_writable: true, is_signer: false },
            ]);
            assert(data@ =~= seq![
                Self::GROUP_MEMBER_POINTER_DISCRIMINATOR,
                Self::GROUP_MEMBER_POINTER_INITIALIZE_DISCRIMINATOR,
            ] + self.authority@ + self.member_address@);
        }
        token_instruction(accounts, data)
    }
}

/// Initializes a Member.
///
/// ### Accounts:
///   0. `[WRITE]`  The mint account to initialize a member for.
///   1. `[]` The member account.
///   2. `[SIGNER]` The mint authority account.
///   3. `[WRITE]` The group account.
///   4. `[SIGNER]` The group update authority account.
pub struct InitializeMember {
    pub mint: Pubkey,
    pub member: Pubkey,
    pub mint_authority: Pubkey,
    pub group: Pubkey,
    pub group_update_authority: Pubkey,
}

impl InitializeMember {
    pub const DISCRIMINATOR: [u8; 8] = [0x98, 0x20, 0xde, 0xb0, 0xdf, 0xed, 0x74, 0x86];
}

impl TokenInstruction for InitializeMember {
    open spec fn spec_accounts(&self) -> Seq<AccountMeta> {
        seq![
            AccountMeta { pubkey: self.mint, is_writable: true, is_signer: false },
            AccountMeta { pubkey: self.member, is_writable: false, is_signer: false },
            AccountMeta { pubkey: self.mint_authority, is_writable: false, is_signer: true },
            AccountMeta { pubkey: self.group, is_writable: true, is_signer: false },
            AccountMeta {
                pubkey: self.group_update_authority,
                is_writable: false,
                is_signer: true,
            },
        ]
    }

    /// Data: the discriminator alone.
    open spec fn spec_data(&self) -> Seq<u8> {
        Self::DISCRIMINATOR@
    }

    open spec fn spec_buildable(&self) -> bool {
        true
    }

    fn instruction(&self) -> (ix: Instruction) {
        let mut accounts = Vec::new();
        accounts.push(AccountMeta::writable(&self.mint));
        accounts.push(AccountMeta::readonly(&self.member));
        accounts.push(AccountMeta::readonly_signer(&self.mint_authority));
        accounts.push(AccountMeta::writable(&self.group));
        accounts.push(AccountMeta::readonly_signer(&self.group_update_authority));
        let disc = Self::DISCRIMINATOR;
        let mut data = Vec::new();
        push_bytes(&mut data, disc.as_slice());
        proof {
            assert(accounts@ =~= seq![
                AccountMeta { pubkey: self.mint, is_writable: true, is_signer: false },
                AccountMeta { pubkey: self.member, is_writable: false, is_signer: false },
                AccountMeta { pubkey: self.mint_authority, is_writable: false, is_signer: true },
                AccountMeta { pubkey: self.group, is_writable: true, is_signer: false },
                AccountMeta {
                    pubkey: self.group_update_authority,
                    is_writable: false,
                    is_signer: true,
                },
            ]);
            assert(data@ =~= Self::DISCRIMINATOR@);
        }
        token_instruction(accounts, data)
    }
}

/// Initializes metadata for a Token-2022 mint.
///
/// ### Accounts:
///   0. `[WRITE]`  The mint account to initialize metadata for.
///   1. `[]` The update authority account.
///   2. `[]` The mint account (same as account 0).
///   3. `[SIGNER]` The mint authority account.
pub struct InitializeMetadata<'a> {
    pub mint: Pubkey,
    pub update_authority: Pubkey,
    pub mint_authority: Pubkey,
    /// The name, symbol, uri and additional metadata, as the record holds them
    pub metadata_data: &'a [u8],
}

impl<'a> InitializeMetadata<'a> {
    pub const DISCRIMINATOR: [u8; 8] = [0xd2, 0xe1, 0x1e, 0xa2, 0x58, 0xb8, 0x4d, 0x8d];
}

impl<'a> TokenInstruction for InitializeMetadata<'a> {
    open spec fn spec_accounts(&self) -> Seq<AccountMeta> {
        seq![
            AccountMeta { pubkey: self.mint, is_writable: true, is_signer: false },
            AccountMeta { pubkey: self.update_authority, is_writable: false, is_signer: false },
            AccountMeta { pubkey: self.mint, is_writable: false, is_signer: false },
            AccountMeta { pubkey: self.mint_authority, is_writable: false, is_signer: true },
        ]
    }

    /// Data: the discriminator, then the metadata as given, which fits in
    /// the instruction's buffer.
    open spec fn spec_data(&self) -> Seq<u8> {
        Self::DISCRIMINATOR@ + self.metadata_data@
    }

    open spec fn spec_buildable(&self) -> bool {
        self.metadata_data@.len() <= crate::constants::MAX_METADATA_LEN
    }

    fn instruction(&self) -> (ix: Instruction) {
        let mut accounts = Vec::new();
        accounts.push(AccountMeta::writable(&self.mint));
        accounts.push(AccountMeta::readonly(&self.update_authority));
        accounts.push(AccountMeta::readonly(&self.mint));
        accounts.push(AccountMeta::readonly_signer(&self.mint_authority));
        let disc = Self::DISCRIMINATOR;
        let mut data = Vec::new();
        push_bytes(&mut data, disc.as_slice());
        push_bytes(&mut data, self.metadata_data);
        proof {
            assert(accounts@ =~= seq![
                AccountMeta { pubkey: self.mint, is_writable: true, is_signer: false },
                AccountMeta { pubkey: self.update_authority, is_writable: false, is_signer: false },
                AccountMeta { pubkey: self.mint, is_writable: false, is_signer: false },
                AccountMeta { pubkey: self.mint_authority, is_writable: false, is_signer: true },
            ]);
        }
        token_instruction(accounts, data)
    }
}

/// Initializes the metadata pointer extension of a mint.
pub struct InitializeMetadataPointer {
    pub mint: Pubkey,
    pub authority: Pubkey,
    pub metadata_address: Pubkey,
}

impl InitializeMetadataPointer {
    pub const METADATA_POINTER_DISCRIMINATOR: u8 = 0x27;

    pub const METADATA_POINTER_INITIALIZE_DISCRIMINATOR: u8 = 0x00;
}

impl TokenInstruction for InitializeMetadataPointer {
    open spec fn spec_accounts(&self) -> Seq<AccountMeta> {
        seq![
            AccountMeta { pubkey: self.mint, is_writable: true, is_signer: false },
        ]
    }

    /// Data: the two discriminators, the authority, the metadata address.
    open spec fn spec_data(&self) -> Seq<u8> {
        seq![
            Self::METADATA_POINTER_DISCRIMINATOR,
            Self::METADATA_POINTER_INITIALIZE_DISCRIMINATOR,
            ] + self.authority@ + self.metadata_address@
    }

    open spec fn spec_buildable(&self) -> bool {
        true
    }

    fn instruction(&self) -> (ix: Instruction) {
        let mut accounts = Vec::new();
        accounts.push(AccountMeta::writable(&self.mint));
        let mut data = Vec::new();
        data.push(Self::METADATA_POINTER_DISCRIMINATOR);
        data.push(Self::METADATA_POINTER_INITIALIZE_DISCRIMINATOR);
        push_bytes(&mut data, self.authority.as_slice());
        push_bytes(&mut data, self.metadata_address.as_slice());
        proof {
            assert(accounts@ =~= seq![
                AccountMeta { pubkey: self.mint, is_writable: true, is_signer: false },
            ]);
            assert(data@ =~= seq![
                Self::METADATA_POINTER_DISCRIMINATOR,
                Self::METADATA_POINTER_INITIALIZE_DISCRIMINATOR,
            ] + self.authority@ + self.metadata_address@);
        }
        token_instruction(accounts, data)
    }
}

/// Initialize a new mint.
///
/// ### Accounts:
///   0. `[WRITABLE]` Mint account
pub struct InitializeMint2 {
    pub mint: Pubkey,
    pub decimals: u8,
    pub mint_authority: Pubkey,
    pub freeze_authority: Option<Pubkey>,
}

impl InitializeMint2 {
    pub const DISCRIMINATOR: u8 = 0x14;
}

impl TokenInstruction for InitializeMint2 {
    open spec fn spec_accounts(&self) -> Seq<AccountMeta> {
        seq![
            AccountMeta { pubkey: self.mint, is_writable: true, is_signer: false },
        ]
    }

    /// Data, 67 bytes: the discriminator, the decimals, the mint authority,
    /// then 1 and the freeze authority, or 0 and 32 zero bytes.
    open spec fn spec_data(&self) -> Seq<u8> {
        seq![Self::DISCRIMINATOR, self.decimals] + self.mint_authority@ + match self.freeze_authority {
            Some(k) => seq![1u8] + k@,
            None => seq![0u8] + zeros(32),
            }
    }

    open spec fn spec_buildable(&self) -> bool {
        true
    }

    fn instruction(&self) -> (ix: Instruction) {
        let mut accounts = Vec::new();
        accounts.push(AccountMeta::writable(&self.mint));
        let mut data = Vec::new();
        data.push(Self::DISCRIMINATOR);
        data.push(self.decimals);
        push_bytes(&mut data, self.mint_authority.as_slice());
        let ghost d0 = data@;
        match &self.freeze_authority {
            Some(k) => {
                data.push(1u8);
                push_bytes(&mut data, k.as_slice());
                assert(data@ =~= d0 + (seq![1u8] + k@));
            },
            None => {
                data.push(0u8);
                push_zeros(&mut data, 32);
                assert(data@ =~= d0 + (seq![0u8] + zeros(32)));
            },
        }
        proof {
            assert(accounts@ =~= seq![
                AccountMeta { pubkey: self.mint, is_writable: true, is_signer: false },
            ]);
            assert(d0 =~= seq![Self::DISCRIMINATOR, self.decimals] + self.mint_authority@);
        }
        token_instruction(accounts, data)
    }
}

/// Initializes the close authority extension of a mint.
pub struct InitializeMintCloseAuthority {
    pub mint: Pubkey,
    pub close_authority: Pubkey,
}

impl InitializeMintCloseAuthority {
    pub const DISCRIMINATOR: u8 = 0x19;
}

impl TokenInstruction for InitializeMintCloseAuthority {
    open spec fn spec_accounts(&self) -> Seq<AccountMeta> {
        seq![
            AccountMeta { pubkey: self.mint, is_writable: true, is_signer: false },
        ]
    }

    /// Data: the discriminator, 1 for a present authority, the authority.
    open spec fn spec_data(&self) -> Seq<u8> {
        seq![Self::DISCRIMINATOR, 1u8] + self.close_authority@
    }

    open spec fn spec_buildable(&self) -> bool {
        true
    }

    fn instruction(&self) -> (ix: Instruction) {
        let mut accounts = Vec::new();
        accounts.push(AccountMeta::writable(&self.mint));
        let mut data = Vec::new();
        data.push(Self::DISCRIMINATOR);
        data.push(1u8);
        push_bytes(&mut data, self.close_authority.as_slice());
        proof {
            assert(accounts@ =~= seq![
                AccountMeta { pubkey: self.mint, is_writable: true, is_signer: false },
            ]);
            assert(data@ =~= seq![Self::DISCRIMINATOR, 1u8] + self.close_authority@);
        }
        token_instruction(accounts, data)
    }
}

/// Initializes the permanent delegate extension of a mint.
pub struct InitializePermanentDelegate {
    pub mint: Pubkey,
    pub delegate: Pubkey,
}

impl InitializePermanentDelegate {
    pub const DISCRIMINATOR: u8 = 0x23;
}

impl TokenInstruction for InitializePermanentDelegate {
    open spec fn spec_accounts(&self) -> Seq<AccountMeta> {
        seq![
            AccountMeta { pubkey: self.mint, is_writable: true, is_signer: false },
        ]
    }

    /// Data: the discriminator, the delegate.
    open spec fn spec_data(&self) -> Seq<u8> {
        seq![Self::DISCRIMINATOR] + self.delegate@
    }

    open spec fn spec_buildable(&self) -> bool {
        true
    }

    fn instruction(&self) -> (ix: Instruction) {
        let mut accounts = Vec::new();
        accounts.push(AccountMeta::writable(&self.mint));
        let mut data = Vec::new();
        data.push(Self::DISCRIMINATOR);
        push_bytes(&mut data, self.delegate.as_slice());
        proof {
            assert(accounts@ =~= seq![
                AccountMeta { pubkey: self.mint, is_writable: true, is_signer: false },
            ]);
            assert(data@ =~= seq![Self::DISCRIMINATOR] + self.delegate@);
        }
        token_instruction(accounts, data)
    }
}

/// Moves tokens, checking the mint and its decimals.
///
/// ### Accounts:
///  0. `[writable]` The source account.
///  1. `[]` The token mint.
///  2. `[writable]` The destination account.
///  3. `[signer]` The source account's owner/delegate.
pub struct TransferChecked {
    pub source: Pubkey,
    pub mint: Pubkey,
    pub destination: Pubkey,
    pub authority: Pubkey,
    pub amount: u64,
    pub decimals: u8,
}

impl TransferChecked {
    pub const DISCRIMINATOR: u8 = 0x0c;
}

impl TokenInstruction for TransferChecked {
    open spec fn spec_accounts(&self) -> Seq<AccountMeta> {
        seq![
            AccountMeta { pubkey: self.source, is_writable: true, is_signer: false },
            AccountMeta { pubkey: self.mint, is_writable: false, is_signer: false },
            AccountMeta { pubkey: self.destination, is_writable: true, is_signer: false },
            AccountMeta { pubkey: self.authority, is_writable: false, is_signer: true },
        ]
    }

    /// Data: the discriminator, the amount, the decimals.
    open spec fn spec_data(&self) -> Seq<u8> {
        seq![Self::DISCRIMINATOR] + u64::spec_encode(self.amount) + seq![
            self.decimals,
        ]
    }

    open spec fn spec_buildable(&self) -> bool {
        true
    }

    fn instruction(&self) -> (ix: Instruction) {
        let mut accounts = Vec::new();
        accounts.push(AccountMeta::writable(&self.source));
        accounts.push(AccountMeta::readonly(&self.mint));
        accounts.push(AccountMeta::writable(&self.destination));
        accounts.push(AccountMeta::readonly_signer(&self.authority));
        let mut data = Vec::new();
        data.push(Self::DISCRIMINATOR);
        let amount = self.amount.encode();
        push_bytes(&mut data, amount.as_slice());
        data.push(self.decimals);
        proof {
            assert(accounts@ =~= seq![
                AccountMeta { pubkey: self.source, is_writable: true, is_signer: false },
                AccountMeta { pubkey: self.mint, is_writable: false, is_signer: false },
                AccountMeta { pubkey: self.destination, is_writable: true, is_signer: false },
                AccountMeta { pubkey: self.authority, is_writable: false, is_signer: true },
            ]);
            assert(data@ =~= seq![Self::DISCRIMINATOR] + u64::spec_encode(self.amount) + seq![
                self.decimals,
            ]);
        }
        token_instruction(accounts, data)
    }
}

/// Updates a field of the metadata of a Token-2022 mint.
///
/// ### Accounts:
/// 0. `[WRITE]` Metadata account
/// 1. `[SIGNER]` Update authority
pub struct UpdateMetadata<'a> {
    pub metadata: Pubkey,
    pub update_authority: Pubkey,
    /// The key and value of an additional metadata field, as encoded
    pub additional_metadata: &'a [u8],
}

impl<'a> UpdateMetadata<'a> {
    pub const DISCRIMINATOR: [u8; 8] = [0xdd, 0xe9, 0x31, 0x2d, 0xb5, 0xca, 0xdc, 0xc8];

    /// The field kind of an additional metadata key.
    pub const FIELD_KEY: u8 = 3;
}

impl<'a> TokenInstruction for UpdateMetadata<'a> {
    open spec fn spec_accounts(&self) -> Seq<AccountMeta> {
        seq![
            AccountMeta { pubkey: self.metadata, is_writable: true, is_signer: false },
            AccountMeta { pubkey: self.update_authority, is_writable: false, is_signer: true },
        ]
    }

    /// Data: the discriminator, the field kind of a key, then the key and
    /// value as given, which fit in the instruction's buffer.
    open spec fn spec_data(&self) -> Seq<u8> {
        Self::DISCRIMINATOR@ + seq![Self::FIELD_KEY] + self.additional_metadata@
    }

    open spec fn spec_buildable(&self) -> bool {
        9 + self.additional_metadata@.len() <= 2000
    }

    fn instruction(&self) -> (ix: Instruction) {
        let mut accounts = Vec::new();
        accounts.push(AccountMeta::writable(&self.metadata));
        accounts.push(AccountMeta::readonly_signer(&self.update_authority));
        let disc = Self::DISCRIMINATOR;
        let mut data = Vec::new();
        push_bytes(&mut data, disc.as_slice());
        data.push(Self::FIELD_KEY);
        push_bytes(&mut data, self.additional_metadata);
        proof {
            assert(accounts@ =~= seq![
                AccountMeta { pubkey: self.metadata, is_writable: true, is_signer: false },
                AccountMeta { pubkey: self.update_authority, is_writable: false, is_signer: true },
            ]);
            assert(data@ =~= Self::DISCRIMINATOR@ + seq![Self::FIELD_KEY] + self.additional_metadata@);
        }
        token_instruction(accounts, data)
    }
}

/// Burns tokens, checking the mint and its decimals.
///
/// ### Accounts:
///  0. `[writable]` The account to burn from.
///  1. `[writable]` The token mint.
///  2. `[signer]` The account's owner/delegate.
pub struct BurnChecked {
    pub account: Pubkey,
    pub mint: Pubkey,
    pub authority: Pubkey,
    pub amount: u64,
    pub decimals: u8,
}

impl BurnChecked {
    pub const DISCRIMINATOR: u8 = 0x0f;
}

impl TokenInstruction for BurnChecked {
    open spec fn spec_accounts(&self) -> Seq<AccountMeta> {
        seq![
            AccountMeta { pubkey: self.account, is_writable: true, is_signer: false },
            AccountMeta { pubkey: self.mint, is_writable: true, is_signer: false },
            AccountMeta { pubkey: self.authority, is_writable: false, is_signer: true },
        ]
    }

    /// Data: the discriminator, the amount, the decimals.
    open spec fn spec_data(&self) -> Seq<u8> {
        seq![Self::DISCRIMINATOR] + u64::spec_encode(self.amount) + seq![self.decimals]
    }

    open spec fn spec_buildable(&self) -> bool {
        true
    }

    fn instruction(&self) -> (ix: Instruction) {
        let mut accounts = Vec::new();
        accounts.push(AccountMeta::writable(&self.account));
        accounts.push(AccountMeta::writable(&self.mint));
        accounts.push(AccountMeta::readonly_signer(&self.authority));
        let mut data = Vec::new();
        data.push(Self::DISCRIMINATOR);
        let amount = self.amount.encode();
        push_bytes(&mut data, amount.as_slice());
        data.push(self.decimals);
        proof {
            assert(accounts@ =~= self.spec_accounts());
            assert(data@ =~= self.spec_data());
        }
        token_instruction(accounts, data)
    }
}

/// Mints new tokens to an account, checking the decimals.
///
/// ### Accounts:
///  0. `[writable]` The mint.
///  1. `[writable]` The account to mint tokens to.
///  2. `[signer]` The mint's minting authority.
pub struct MintToChecked {
    pub mint: Pubkey,
    pub account: Pubkey,
    pub mint_authority: Pubkey,
    pub amount: u64,
    pub decimals: u8,
}

impl MintToChecked {
    pub const DISCRIMINATOR: u8 = 0x0e;
}

impl TokenInstruction for MintToChecked {
    open spec fn spec_accounts(&self) -> Seq<AccountMeta> {
        seq![
            AccountMeta { pubkey: self.mint, is_writable: true, is_signer: false },
            AccountMeta { pubkey: self.account, is_writable: true, is_signer: false },
            AccountMeta { pubkey: self.mint_authority, is_writable: false, is_signer: true },
        ]
    }

    /// Data: the discriminator, the amount, the decimals.
    open spec fn spec_data(&self) -> Seq<u8> {
        seq![Self::DISCRIMINATOR] + u64::spec_encode(self.amount) + seq![self.decimals]
    }

    open spec fn spec_buildable(&self) -> bool {
        true
    }

    fn instruction(&self) -> (ix: Instruction) {
        let mut accounts = Vec::new();
        accounts.push(AccountMeta::writable(&self.mint));
        accounts.push(AccountMeta::writable(&self.account));
        accounts.push(AccountMeta::readonly_signer(&self.mint_authority));
        let mut data = Vec::new();
        data.push(Self::DISCRIMINATOR);
        let amount = self.amount.encode();
        push_bytes(&mut data, amount.as_slice());
        data.push(self.decimals);
        proof {
            assert(accounts@ =~= self.spec_accounts());
            assert(data@ =~= self.spec_data());
        }
        token_instruction(accounts, data)
    }
}

/// Closes an account, moving its lamports to the destination.
///
/// ### Accounts:
///  0. `[writable]` The account to close.
///  1. `[writable]` The destination account.
///  2. `[signer]` The account's close authority.
pub struct CloseAccount {
    pub account: Pubkey,
    pub destination: Pubkey,
    pub authority: Pubkey,
}

impl CloseAccount {
    pub const DISCRIMINATOR: u8 = 0x09;
}

impl TokenInstruction for CloseAccount {
    open spec fn spec_accounts(&self) -> Seq<AccountMeta> {
        seq![
            AccountMeta { pubkey: self.account, is_writable: true, is_signer: false },
            AccountMeta { pubkey: self.destination, is_writable: true, is_signer: false },
            AccountMeta { pubkey: self.authority, is_writable: false, is_signer: true },
        ]
    }

    /// Data: the discriminator alone.
    open spec fn spec_data(&self) -> Seq<u8> {
        seq![Self::DISCRIMINATOR]
    }

    open spec fn spec_buildable(&self) -> bool {
        true
    }

    fn instruction(&self) -> (ix: Instruction) {
        let mut accounts = Vec::new();
        accounts.push(AccountMeta::writable(&self.account));
        accounts.push(AccountMeta::writable(&self.destination));
        accounts.push(AccountMeta::readonly_signer(&self.authority));
        let mut data = Vec::new();
        data.push(Self::DISCRIMINATOR);
        proof {
            assert(accounts@ =~= self.spec_accounts());
            assert(data@ =~= self.spec_data());
        }
        token_instruction(accounts, data)
    }
}

/// Freezes a token account with the mint's freeze authority.
///
/// ### Accounts:
///  0. `[writable]` The account to freeze.
///  1. `[]` The token mint.
///  2. `[signer]` The mint freeze authority.
pub struct FreezeAccount {
    pub account: Pubkey,
    pub mint: Pubkey,
    pub freeze_authority: Pubkey,
}

impl FreezeAccount {
    pub const DISCRIMINATOR: u8 = 0x0a;
}

impl TokenInstruction for FreezeAccount {
    open spec fn spec_accounts(&self) -> Seq<AccountMeta> {
        seq![
            AccountMeta { pubkey: self.account, is_writable: true, is_signer: false },
            AccountMeta { pubkey: self.mint, is_writable: false, is_signer: false },
            AccountMeta { pubkey: self.freeze_authority, is_writable: false, is_signer: true },
        ]
    }

    /// Data: the discriminator alone.
    open spec fn spec_data(&self) -> Seq<u8> {
        seq![Self::DISCRIMINATOR]
    }

    open spec fn spec_buildable(&self) -> bool {
        true
    }

    fn instruction(&self) -> (ix: Instruction) {
        let mut accounts = Vec::new();
        accounts.push(AccountMeta::writable(&self.account));
        accounts.push(AccountMeta::readonly(&self.mint));
        accounts.push(AccountMeta::readonly_signer(&self.freeze_authority));
        let mut data = Vec::new();
        data.push(Self::DISCRIMINATOR);
        proof {
            assert(accounts@ =~= self.spec_accounts());
            assert(data@ =~= self.spec_data());
        }
        token_instruction(accounts, data)
    }
}

/// Thaws a frozen token account with the mint's freeze authority.
///
/// ### Accounts:
///  0. `[writable]` The account to thaw.
///  1. `[]` The token mint.
///  2. `[signer]` The mint freeze authority.
pub struct ThawAccount {
    pub account: Pubkey,
    pub mint: Pubkey,
    pub freeze_authority: Pubkey,
}

impl ThawAccount {
    pub const DISCRIMINATOR: u8 = 0x0b;
}

impl TokenInstruction for ThawAccount {
    open spec fn spec_accounts(&self) -> Seq<AccountMeta> {
        seq![
            AccountMeta { pubkey: self.account, is_writable: true, is_signer: false },
            AccountMeta { pubkey: self.mint, is_writable: false, is_signer: false },
            AccountMeta { pubkey: self.freeze_authority, is_writable: false, is_signer: true },
        ]
    }

    /// Data: the discriminator alone.
    open spec fn spec_data(&self) -> Seq<u8> {
        seq![Self::DISCRIMINATOR]
    }

    open spec fn spec_buildable(&self) -> bool {
        true
    }

    fn instruction(&self) -> (ix: Instruction) {
        let mut accounts = Vec::new();
        accounts.push(AccountMeta::writable(&self.account));
        accounts.push(AccountMeta::readonly(&self.mint));
        accounts.push(AccountMeta::readonly_signer(&self.freeze_authority));
        let mut data = Vec::new();
        data.push(Self::DISCRIMINATOR);
        proof {
            assert(accounts@ =~= self.spec_accounts());
            assert(data@ =~= self.spec_data());
        }
        token_instruction(accounts, data)
    }
}

} // verus!

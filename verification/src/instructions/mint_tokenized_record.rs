use vstd::prelude::*;

use crate::account::{bytes_eq, key_eq, take_account, with_data, AccountInfo, Pubkey};
use crate::cpi::{is_token_cpi, is_token_cpi_with, token_cpi, AccountMeta, Cpi, SignerSeeds};
use crate::error::ProgramError;
use crate::state::record::{
    delegate_class_readable, lemma_metadata_end_bounds, metadata_end, metadata_fields_end, metadata_readable,
    record_data_offset, record_owner, record_readable, spec_check_owner_or_delegate,
    spec_update_is_frozen, spec_update_owner_type, OwnerType, Record, OWNER_OFFSET,
    SEED_LEN_OFFSET, SEED_OFFSET, metadata_pair, metadata_pairs_count, metadata_pairs_start,
    skip_field, skip_field_exec, skip_pairs, lemma_skip_pairs_passes_first, lemma_skip_pairs_split,
};
use crate::token2022::constants::{
    TOKEN_2022_CLOSE_MINT_AUTHORITY_LEN, TOKEN_2022_GROUP_LEN, TOKEN_2022_GROUP_POINTER_LEN,
    TOKEN_2022_MEMBER_LEN, TOKEN_2022_MEMBER_POINTER_LEN, TOKEN_2022_METADATA_POINTER_LEN,
    TOKEN_2022_MINT_BASE_LEN, TOKEN_2022_MINT_LEN, TOKEN_2022_PERMANENT_DELEGATE_LEN,
    TOKEN_2022_PROGRAM_ID,
};
use crate::token2022::state::{is_mint_data, token_account_readable};
use crate::token2022::{
    InitializeGroup, InitializeGroupMemberPointer, InitializeGroupPointer, InitializeMember,
    InitializeMetadata, InitializeMetadataPointer, InitializeMint2, InitializeMintCloseAuthority,
    InitializePermanentDelegate, Mint, MintToChecked, UpdateMetadata,
};
use crate::utils::{copy_bytes, splice, Context, Pod};

verus! {

/// The size of a group mint account.
pub const GROUP_MINT_SPACE: usize = TOKEN_2022_MINT_LEN + TOKEN_2022_MINT_BASE_LEN
    + TOKEN_2022_GROUP_POINTER_LEN;

/// The size of a record mint account, before its metadata and member
/// extensions.
pub const RECORD_MINT_SPACE: usize = TOKEN_2022_MINT_LEN + TOKEN_2022_MINT_BASE_LEN
    + TOKEN_2022_PERMANENT_DELEGATE_LEN + TOKEN_2022_CLOSE_MINT_AUTHORITY_LEN
    + TOKEN_2022_METADATA_POINTER_LEN + TOKEN_2022_MEMBER_POINTER_LEN;

/// The accounts of `MintTokenizedRecord`: the owner of the record, the payer
/// of the new accounts, the owner or a delegate, which signs, the record, its
/// mint, its class, the class's group mint, the owner's associated token
/// account for the mint, and the associated token, token and system programs.
pub struct MintTokenizedRecordAccounts {
    pub owner: Pubkey,
    pub payer: Pubkey,
    pub record: Pubkey,
    pub mint: Pubkey,
    pub class: Pubkey,
    pub group: Pubkey,
    pub token_account: Pubkey,
}

/// What can be read of the accounts handed to `MintTokenizedRecord`.
pub open spec fn mint_tokenized_record_readable(accounts: Seq<AccountInfo>) -> bool {
    accounts.len() == 11 ==> {
        &&& record_readable(accounts[3])
        &&& delegate_class_readable(accounts[5])
        &&& token_account_readable(accounts[6])
    }
}

impl MintTokenizedRecordAccounts {
    /// `token_account_address` is the associated token account of the owner
    /// for the mint.
    pub open spec fn spec_try_from(accounts: Seq<AccountInfo>, token_account_address: Pubkey) -> Result<
        Self,
        ProgramError,
    > {
        if accounts.len() != 11 {
            Err(ProgramError::NotEnoughAccountKeys)
        } else if spec_check_owner_or_delegate(accounts[3], Some(accounts[5]), accounts[2]) is Err {
            Err(spec_check_owner_or_delegate(accounts[3], Some(accounts[5]), accounts[2])->Err_0)
        } else if record_owner(accounts[3].data@) != accounts[0].key@ {
            Err(ProgramError::InvalidAccountData)
        } else if token_account_address != accounts[7].key {
            Err(ProgramError::InvalidAccountData)
        } else {
            Ok(
                MintTokenizedRecordAccounts {
                    owner: accounts[0].key,
                    payer: accounts[1].key,
                    record: accounts[3].key,
                    mint: accounts[4].key,
                    class: accounts[5].key,
                    group: accounts[6].key,
                    token_account: accounts[7].key,
                },
            )
        }
    }

    pub fn try_from(accounts: &[AccountInfo], token_account_address: &Pubkey) -> (r: Result<
        Self,
        ProgramError,
    >)
        requires
            mint_tokenized_record_readable(accounts@),
        ensures
            r == Self::spec_try_from(accounts@, *token_account_address),
    {
        if accounts.len() != 11 {
            return Err(ProgramError::NotEnoughAccountKeys);
        }
        Record::check_owner_or_delegate(&accounts[3], Some(&accounts[5]), &accounts[2])?;
        let record_data = accounts[3].try_borrow_data();
        if !bytes_eq(&record_data[OWNER_OFFSET..OWNER_OFFSET + 32], accounts[0].key.as_slice()) {
            return Err(ProgramError::InvalidAccountData);
        }
        if !key_eq(token_account_address, &accounts[7].key) {
            return Err(ProgramError::InvalidAccountData);
        }
        Ok(
            MintTokenizedRecordAccounts {
                owner: accounts[0].key,
                payer: accounts[1].key,
                record: accounts[3].key,
                mint: accounts[4].key,
                class: accounts[5].key,
                group: accounts[6].key,
                token_account: accounts[7].key,
            },
        )
    }
}

/// Turns a record into a token: a Token-2022 mint at `["mint", record]`,
/// member of its class's group mint at `["group", class]` (created on the
/// class's first token), carrying the record's metadata, with its one token
/// minted to the owner's associated token account. The record is then frozen
/// and owned by the mint.
pub struct MintTokenizedRecord {
    pub accounts: MintTokenizedRecordAccounts,
}

/// The plan of `MintTokenizedRecord`, as `execute` makes it.
pub open spec fn is_mint_plan(
    plan: Seq<Cpi>,
    a: MintTokenizedRecordAccounts,
    creates_group: bool,
    group_bump: u8,
    mint_bump: u8,
    group_rent: u64,
    mint_rent: u64,
    metadata: Seq<u8>,
    pairs: Seq<Seq<u8>>,
) -> bool {
    let group_signer = SignerSeeds::Group { class: a.class, bump: group_bump };
    let mint_signer = SignerSeeds::Mint { record: a.record, bump: mint_bump };
    let g = if creates_group {
        4int
    } else {
        0int
    };
    let k = pairs.len() as int;
    &&& plan.len() == g + 10 + k
    &&& creates_group ==> {
        &&& plan[0] == Cpi::CreateAccount {
            from: a.payer,
            to: a.group,
            lamports: group_rent,
            space: GROUP_MINT_SPACE as u64,
            owner: TOKEN_2022_PROGRAM_ID,
            signer: group_signer,
        }
        &&& is_token_cpi(
            plan[1],
            InitializeGroupPointer { mint: a.group, authority: a.group, group_address: a.group },
            Seq::empty(),
        )
        &&& is_token_cpi(
            plan[2],
            InitializeMint2 {
                mint: a.group,
                decimals: 0,
                mint_authority: a.group,
                freeze_authority: Some(a.group),
            },
            Seq::empty(),
        )
        &&& is_token_cpi(
            plan[3],
            InitializeGroup {
                mint: a.group,
                mint_authority: a.group,
                update_authority: a.group,
                max_size: 100,
            },
            seq![group_signer],
        )
    }
    &&& plan[g] == Cpi::CreateAccount {
        from: a.payer,
        to: a.mint,
        lamports: mint_rent,
        space: RECORD_MINT_SPACE as u64,
        owner: TOKEN_2022_PROGRAM_ID,
        signer: mint_signer,
    }
    &&& is_token_cpi(
        plan[g + 1],
        InitializeMintCloseAuthority { mint: a.mint, close_authority: a.mint },
        Seq::empty(),
    )
    &&& is_token_cpi(
        plan[g + 2],
        InitializePermanentDelegate { mint: a.mint, delegate: a.mint },
        Seq::empty(),
    )
    &&& is_token_cpi(
        plan[g + 3],
        InitializeMetadataPointer { mint: a.mint, authority: a.mint, metadata_address: a.mint },
        Seq::empty(),
    )
    &&& is_token_cpi(
        plan[g + 4],
        InitializeGroupMemberPointer { mint: a.mint, authority: a.group, member_address: a.mint },
        Seq::empty(),
    )
    &&& is_token_cpi(
        plan[g + 5],
        InitializeMint2 {
            mint: a.mint,
            decimals: 0,
            mint_authority: a.mint,
            freeze_authority: Some(a.mint),
        },
        Seq::empty(),
    )
    &&& is_token_cpi_with(
        plan[g + 6],
        seq![
            AccountMeta { pubkey: a.mint, is_writable: true, is_signer: false },
            AccountMeta { pubkey: a.mint, is_writable: false, is_signer: false },
            AccountMeta { pubkey: a.mint, is_writable: false, is_signer: false },
            AccountMeta { pubkey: a.mint, is_writable: false, is_signer: true },
        ],
        InitializeMetadata::DISCRIMINATOR@ + metadata,
        seq![mint_signer],
    )
    &&& forall|i: int|
        0 <= i < k ==> #[trigger] is_token_cpi_with(
            plan[g + 7 + i],
            metadata_update_accounts(a.mint),
            UpdateMetadata::DISCRIMINATOR@ + seq![UpdateMetadata::FIELD_KEY] + pairs[i],
            seq![mint_signer],
        )
    &&& is_token_cpi(
        plan[g + 7 + k],
        InitializeMember {
            mint: a.mint,
            member: a.mint,
            mint_authority: a.mint,
            group: a.group,
            group_update_authority: a.group,
        },
        seq![mint_signer, group_signer],
    )
    &&& plan[g + 8 + k] == Cpi::CreateAssociatedTokenAccount {
        funding_account: a.payer,
        account: a.token_account,
        wallet: a.owner,
        mint: a.mint,
    }
    &&& is_token_cpi(
        plan[g + 9 + k],
        MintToChecked {
            mint: a.mint,
            account: a.token_account,
            mint_authority: a.mint,
            amount: 1,
            decimals: 0,
        },
        seq![mint_signer],
    )
}

/// The accounts of an update of a mint's own metadata, signed by the mint.
pub open spec fn metadata_update_accounts(mint: Pubkey) -> Seq<AccountMeta> {
    seq![
        AccountMeta { pubkey: mint, is_writable: true, is_signer: false },
        AccountMeta { pubkey: mint, is_writable: false, is_signer: true },
    ]
}

/// The key-value pairs of additional metadata held in the record data.
pub open spec fn metadata_pairs(d: Seq<u8>) -> Seq<Seq<u8>> {
    Seq::new(metadata_pairs_count(d), |i: int| metadata_pair(d, i))
}

/// Appends one update of the mint's metadata for each key-value pair of
/// additional metadata in the record data, signed by the mint.
fn push_metadata_updates(
    plan: &mut Vec<Cpi>,
    data: &[u8],
    fields_end: usize,
    mint: Pubkey,
    record: Pubkey,
    bump: u8,
)
    requires
        metadata_readable(data@),
        metadata_fields_end(data@) == Some(fields_end as int),
    ensures
        final(plan)@.len() == old(plan)@.len() + metadata_pairs_count(data@),
        forall|j: int| 0 <= j < old(plan)@.len() ==> final(plan)@[j] == old(plan)@[j],
        forall|i: int|
            0 <= i < metadata_pairs_count(data@) ==> #[trigger] is_token_cpi_with(
                final(plan)@[old(plan)@.len() + i],
                metadata_update_accounts(mint),
                UpdateMetadata::DISCRIMINATOR@ + seq![UpdateMetadata::FIELD_KEY] + metadata_pair(
                    data@,
                    i,
                ),
                seq![SignerSeeds::Mint { record, bump }],
            ),
{
    let ghost d = data@;
    let ghost base = plan@.len();
    let ghost start = metadata_pairs_start(d);
    let ghost end = metadata_end(d)->0;
    proof {
        lemma_metadata_end_bounds(d);
    }
    let n = match u32::decode(&data[fields_end..fields_end + 4]) {
        Some(n) => n,
        None => 0,
    };
    assert(n == metadata_pairs_count(d));
    let mut off = fields_end + 4;
    let mut i: u32 = 0;
    let len = data.len();
    while i < n
        invariant
            d == data@,
            d.len() == len,
            metadata_readable(d),
            n == metadata_pairs_count(d),
            start == metadata_pairs_start(d),
            end == metadata_end(d)->0,
            i <= n,
            skip_pairs(d, start, i as nat) == Some(off as int),
            metadata_end(d) == skip_pairs(d, off as int, (n - i) as nat),
            plan@.len() == base + i,
            forall|j: int| 0 <= j < base ==> plan@[j] == old(plan)@[j],
            forall|j: int|
                0 <= j < i ==> #[trigger] is_token_cpi_with(
                    plan@[base + j],
                    metadata_update_accounts(mint),
                    UpdateMetadata::DISCRIMINATOR@ + seq![UpdateMetadata::FIELD_KEY]
                        + metadata_pair(d, j),
                    seq![SignerSeeds::Mint { record, bump }],
                ),
        decreases n - i,
    {
        let ghost rest = (n - i) as nat;
        proof {
            lemma_skip_pairs_passes_first(d, off as int, rest);
            let o2 = skip_field(d, skip_field(d, off as int)->0)->0;
            lemma_skip_pairs_split(d, start, i as nat, 1);
            assert(skip_pairs(d, o2, 0) == Some(o2));
            assert((i + 1) as nat == (i as nat + 1) as nat);
        }
        let p1 = skip_field_exec(data, off);
        let p2 = skip_field_exec(data, p1);
        let pair = &data[off..p2];
        assert(pair@ == metadata_pair(d, i as int));
        let mut signers = Vec::new();
        signers.push(SignerSeeds::Mint { record, bump });
        let update = UpdateMetadata { metadata: mint, update_authority: mint, additional_metadata: pair };
        plan.push(token_cpi(&update, signers));
        off = p2;
        i = i + 1;
    }
}

impl MintTokenizedRecord {
    pub fn try_from(ctx: &Context, token_account_address: &Pubkey) -> (r: Result<Self, ProgramError>)
        requires
            mint_tokenized_record_readable(ctx.accounts@),
        ensures
            r == match MintTokenizedRecordAccounts::spec_try_from(
                ctx.accounts@,
                *token_account_address,
            ) {
                Err(e) => Err::<Self, ProgramError>(e),
                Ok(a) => Ok(MintTokenizedRecord { accounts: a }),
            },
    {
        let accounts = MintTokenizedRecordAccounts::try_from(ctx.accounts, token_account_address)?;
        Ok(MintTokenizedRecord { accounts })
    }

    /// The record once its token is minted: frozen, owned by the mint.
    pub open spec fn minted(record_data: Seq<u8>, mint: Pubkey) -> Seq<u8> {
        spec_update_owner_type(
            splice(spec_update_is_frozen(record_data, true), OWNER_OFFSET as int, mint@),
            OwnerType::Token,
        )
    }

    /// The size the group mint's rent is reckoned on: the account and the
    /// group extension it grows by.
    pub fn group_rent_size() -> (n: usize)
        ensures
            n == GROUP_MINT_SPACE + TOKEN_2022_GROUP_LEN,
    {
        GROUP_MINT_SPACE + TOKEN_2022_GROUP_LEN
    }

    /// The size the record mint's rent is reckoned on: the account, the full
    /// length of the record's token metadata and the member extension it grows
    /// by; `None` when it does not fit in `usize`.
    pub fn mint_rent_size(accounts: &[AccountInfo]) -> (n: Option<usize>)
        requires
            accounts@.len() == 11,
            metadata_readable(accounts@[3].data@),
        ensures
            ({
                let size = RECORD_MINT_SPACE + (metadata_end(accounts@[3].data@)->0
                    - record_data_offset(accounts@[3].data@)) + TOKEN_2022_MEMBER_LEN;
                n == if size <= usize::MAX {
                    Some(size as usize)
                } else {
                    None::<usize>
                }
            }),
    {
        proof {
            lemma_metadata_end_bounds(accounts@[3].data@);
        }
        let record_data = accounts[3].try_borrow_data();
        let record_len = record_data.len();
        assert(metadata_end(record_data@)->0 <= record_len);
        let metadata_len = match Record::get_metadata_len_unchecked(record_data) {
            Ok(n) => n,
            Err(_) => 0,
        };
        match metadata_len.checked_add(RECORD_MINT_SPACE + TOKEN_2022_MEMBER_LEN) {
            Some(n) => Some(n),
            None => None,
        }
    }

    /// `mint_address` and `group_address` are the program addresses found for
    /// `["mint", record]` and `["group", class]`; the mint account must be
    /// the first. `group_rent` and `mint_rent` are the rent-exempt minimums
    /// of `group_rent_size()` and `mint_rent_size()` bytes.
    pub fn execute(
        &self,
        accounts: &mut Vec<AccountInfo>,
        mint_address: Option<(Pubkey, u8)>,
        group_address: Option<(Pubkey, u8)>,
        group_rent: u64,
        mint_rent: u64,
    ) -> (r: Result<Vec<Cpi>, ProgramError>)
        requires
            MintTokenizedRecordAccounts::spec_try_from(old(accounts)@, self.accounts.token_account)
                == Ok::<MintTokenizedRecordAccounts, ProgramError>(self.accounts),
            mint_tokenized_record_readable(old(accounts)@),
            metadata_readable(old(accounts)@[3].data@),
        ensures
            ({
                let record = old(accounts)@[3];
                let group = old(accounts)@[6];
                if mint_address is None || group_address is None {
                    r == Err::<Vec<Cpi>, ProgramError>(ProgramError::InvalidArgument)
                        && final(accounts)@ == old(accounts)@
                } else if (mint_address->0).0 != self.accounts.mint {
                    r == Err::<Vec<Cpi>, ProgramError>(ProgramError::InvalidSeeds)
                        && final(accounts)@ == old(accounts)@
                } else {
                    let creates_group = !(group.owner == TOKEN_2022_PROGRAM_ID && is_mint_data(
                        group.data@,
                    ));
                    &&& r matches Ok(plan) && is_mint_plan(
                        plan@,
                        self.accounts,
                        creates_group,
                        (group_address->0).1,
                        (mint_address->0).1,
                        group_rent,
                        mint_rent,
                        record.data@.subrange(
                            record_data_offset(record.data@),
                            metadata_fields_end(record.data@)->0,
                        ),
                        metadata_pairs(record.data@),
                    )
                    &&& with_data(
                        old(accounts)@,
                        final(accounts)@,
                        3,
                        Self::minted(record.data@, self.accounts.mint),
                    )
                }
            }),
    {
        let (mint_key, mint_bump) = match mint_address {
            Some(found) => found,
            None => {
                return Err(ProgramError::InvalidArgument);
            },
        };
        let group_bump = match group_address {
            Some((_, bump)) => bump,
            None => {
                return Err(ProgramError::InvalidArgument);
            },
        };
        if !key_eq(&mint_key, &self.accounts.mint) {
            return Err(ProgramError::InvalidSeeds);
        }
        let a = &self.accounts;
        let mut plan: Vec<Cpi> = Vec::new();
        let group_initialized = Mint::check_initialized(&accounts[6])?;
        if !group_initialized {
            plan.push(
                Cpi::CreateAccount {
                    from: a.payer,
                    to: a.group,
                    lamports: group_rent,
                    space: GROUP_MINT_SPACE as u64,
                    owner: TOKEN_2022_PROGRAM_ID,
                    signer: SignerSeeds::Group { class: a.class, bump: group_bump },
                },
            );
            plan.push(
                token_cpi(
                    &InitializeGroupPointer { mint: a.group, authority: a.group, group_address: a.group },
                    Vec::new(),
                ),
            );
            plan.push(
                token_cpi(
                    &InitializeMint2 {
                        mint: a.group,
                        decimals: 0,
                        mint_authority: a.group,
                        freeze_authority: Some(a.group),
                    },
                    Vec::new(),
                ),
            );
            let mut signers = Vec::new();
            signers.push(SignerSeeds::Group { class: a.class, bump: group_bump });
            plan.push(
                token_cpi(
                    &InitializeGroup {
                        mint: a.group,
                        mint_authority: a.group,
                        update_authority: a.group,
                        max_size: 100,
                    },
                    signers,
                ),
            );
        }
        plan.push(
            Cpi::CreateAccount {
                from: a.payer,
                to: a.mint,
                lamports: mint_rent,
                space: RECORD_MINT_SPACE as u64,
                owner: TOKEN_2022_PROGRAM_ID,
                signer: SignerSeeds::Mint { record: a.record, bump: mint_bump },
            },
        );
        plan.push(
            token_cpi(&InitializeMintCloseAuthority { mint: a.mint, close_authority: a.mint }, Vec::new()),
        );
        plan.push(
            token_cpi(&InitializePermanentDelegate { mint: a.mint, delegate: a.mint }, Vec::new()),
        );
        plan.push(
            token_cpi(
                &InitializeMetadataPointer { mint: a.mint, authority: a.mint, metadata_address: a.mint },
                Vec::new(),
            ),
        );
        plan.push(
            token_cpi(
                &InitializeGroupMemberPointer { mint: a.mint, authority: a.group, member_address: a.mint },
                Vec::new(),
            ),
        );
        plan.push(
            token_cpi(
                &InitializeMint2 {
                    mint: a.mint,
                    decimals: 0,
                    mint_authority: a.mint,
                    freeze_authority: Some(a.mint),
                },
                Vec::new(),
            ),
        );
        let (metadata, _) = match Record::get_metadata_data_unchecked(accounts[3].try_borrow_data()) {
            Ok(found) => found,
            Err(e) => {
                return Err(e);
            },
        };
        let mut signers = Vec::new();
        signers.push(SignerSeeds::Mint { record: a.record, bump: mint_bump });
        plan.push(
            token_cpi(
                &InitializeMetadata {
                    mint: a.mint,
                    update_authority: a.mint,
                    mint_authority: a.mint,
                    metadata_data: metadata,
                },
                signers,
            ),
        );
        let fields_end = SEED_OFFSET + accounts[3].data[SEED_LEN_OFFSET] as usize + metadata.len();
        push_metadata_updates(
            &mut plan,
            accounts[3].try_borrow_data(),
            fields_end,
            a.mint,
            a.record,
            mint_bump,
        );
        let mut signers = Vec::new();
        signers.push(SignerSeeds::Mint { record: a.record, bump: mint_bump });
        signers.push(SignerSeeds::Group { class: a.class, bump: group_bump });
        assert(signers@ =~= seq![
            SignerSeeds::Mint { record: a.record, bump: mint_bump },
            SignerSeeds::Group { class: a.class, bump: group_bump },
        ]);
        plan.push(
            token_cpi(
                &InitializeMember {
                    mint: a.mint,
                    member: a.mint,
                    mint_authority: a.mint,
                    group: a.group,
                    group_update_authority: a.group,
                },
                signers,
            ),
        );
        plan.push(
            Cpi::CreateAssociatedTokenAccount {
                funding_account: a.payer,
                account: a.token_account,
                wallet: a.owner,
                mint: a.mint,
            },
        );
        let mut signers = Vec::new();
        signers.push(SignerSeeds::Mint { record: a.record, bump: mint_bump });
        plan.push(
            token_cpi(
                &MintToChecked {
                    mint: a.mint,
                    account: a.token_account,
                    mint_authority: a.mint,
                    amount: 1,
                    decimals: 0,
                },
                signers,
            ),
        );
        let ghost before = accounts@;
        let mut record = take_account(accounts, 3);
        let data = record.data.as_mut_slice();
        let _ = Record::update_is_frozen_unchecked(data, true);
        copy_bytes(data, OWNER_OFFSET, a.mint.as_slice());
        let _ = Record::update_owner_type_unchecked(data, OwnerType::Token);
        accounts.set(3, record);
        proof {
            assert(accounts@ =~= before.update(3, accounts@[3]));
        }
        Ok(plan)
    }
}

} // verus!

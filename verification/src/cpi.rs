use vstd::prelude::*;

use crate::account::{AccountInfo, Pubkey};
use crate::token2022::constants::TOKEN_2022_PROGRAM_ID;
use crate::utils::push_bytes;

verus! {

/// An account handed to a cross-program invocation.
#[derive(Clone, Copy)]
pub struct AccountMeta {
    pub pubkey: Pubkey,
    pub is_writable: bool,
    pub is_signer: bool,
}

impl AccountMeta {
    pub fn writable(pubkey: &Pubkey) -> (m: Self)
        ensures
            m == (AccountMeta { pubkey: *pubkey, is_writable: true, is_signer: false }),
    {
        AccountMeta { pubkey: *pubkey, is_writable: true, is_signer: false }
    }

    pub fn readonly(pubkey: &Pubkey) -> (m: Self)
        ensures
            m == (AccountMeta { pubkey: *pubkey, is_writable: false, is_signer: false }),
    {
        AccountMeta { pubkey: *pubkey, is_writable: false, is_signer: false }
    }

    pub fn readonly_signer(pubkey: &Pubkey) -> (m: Self)
        ensures
            m == (AccountMeta { pubkey: *pubkey, is_writable: false, is_signer: true }),
    {
        AccountMeta { pubkey: *pubkey, is_writable: false, is_signer: true }
    }

    pub fn writable_signer(pubkey: &Pubkey) -> (m: Self)
        ensures
            m == (AccountMeta { pubkey: *pubkey, is_writable: true, is_signer: true }),
    {
        AccountMeta { pubkey: *pubkey, is_writable: true, is_signer: true }
    }
}

/// An instruction for another program: its program, accounts and data.
pub struct Instruction {
    pub program_id: Pubkey,
    pub accounts: Vec<AccountMeta>,
    pub data: Vec<u8>,
}

/// The seeds of a program address that signs an invocation, with the bump
/// found for them.
pub enum SignerSeeds {
    /// `["class", authority, name, bump]`
    Class { authority: Pubkey, name: Vec<u8>, bump: u8 },
    /// `["record", class, seed, bump]`
    Record { class: Pubkey, seed: Vec<u8>, bump: u8 },
    /// `["authority", record, bump]`
    Authority { record: Pubkey, bump: u8 },
    /// `["mint", record, bump]`
    Mint { record: Pubkey, bump: u8 },
    /// `["group", class, bump]`
    Group { class: Pubkey, bump: u8 },
}

/// The first seed of a class address.
pub const CLASS_SEED: [u8; 5] = [0x63, 0x6c, 0x61, 0x73, 0x73];

/// The first seed of a record address.
pub const RECORD_SEED: [u8; 6] = [0x72, 0x65, 0x63, 0x6f, 0x72, 0x64];

/// The first seed of the address of a record's authority delegate.
pub const AUTHORITY_SEED: [u8; 9] = [0x61, 0x75, 0x74, 0x68, 0x6f, 0x72, 0x69, 0x74, 0x79];

/// The first seed of a record mint's address.
pub const MINT_SEED: [u8; 4] = [0x6d, 0x69, 0x6e, 0x74];

/// The first seed of a class group mint's address.
pub const GROUP_SEED: [u8; 5] = [0x67, 0x72, 0x6f, 0x75, 0x70];

/// A list of seeds as byte strings.
pub open spec fn seeds_view(v: Vec<Vec<u8>>) -> Seq<Seq<u8>> {
    v@.map_values(|x: Vec<u8>| x@)
}

/// The seeds a program address is derived from, bump left out: the first
/// seed of its kind, then the keys and seed that name it.
pub open spec fn address_seed_bytes(s: SignerSeeds) -> Seq<Seq<u8>> {
    match s {
        SignerSeeds::Class { authority, name, .. } => seq![CLASS_SEED@, authority@, name@],
        SignerSeeds::Record { class, seed, .. } => seq![RECORD_SEED@, class@, seed@],
        SignerSeeds::Authority { record, .. } => seq![AUTHORITY_SEED@, record@],
        SignerSeeds::Mint { record, .. } => seq![MINT_SEED@, record@],
        SignerSeeds::Group { class, .. } => seq![GROUP_SEED@, class@],
    }
}

/// The bump a program address was found with.
pub open spec fn seeds_bump(s: SignerSeeds) -> u8 {
    match s {
        SignerSeeds::Class { bump, .. } => bump,
        SignerSeeds::Record { bump, .. } => bump,
        SignerSeeds::Authority { bump, .. } => bump,
        SignerSeeds::Mint { bump, .. } => bump,
        SignerSeeds::Group { bump, .. } => bump,
    }
}

/// The seeds a program address signs with: its address seeds, then its bump
/// as a seed of one byte.
pub open spec fn signer_seed_bytes(s: SignerSeeds) -> Seq<Seq<u8>> {
    address_seed_bytes(s).push(seq![seeds_bump(s)])
}

fn bytes_vec(bytes: &[u8]) -> (v: Vec<u8>)
    ensures
        v@ == bytes@,
{
    let mut v = Vec::new();
    push_bytes(&mut v, bytes);
    assert(v@ =~= bytes@);
    v
}

fn seeds_of(first: &[u8], second: &[u8]) -> (v: Vec<Vec<u8>>)
    ensures
        seeds_view(v) == seq![first@, second@],
{
    let mut v = Vec::new();
    v.push(bytes_vec(first));
    v.push(bytes_vec(second));
    assert(seeds_view(v) =~= seq![first@, second@]);
    v
}

/// The seeds of the address of the class `name` of `authority`.
pub fn class_address_seeds(authority: &Pubkey, name: &[u8]) -> (v: Vec<Vec<u8>>)
    ensures
        seeds_view(v) == seq![CLASS_SEED@, authority@, name@],
{
    let prefix = CLASS_SEED;
    let mut v = seeds_of(prefix.as_slice(), authority.as_slice());
    let ghost v0 = seeds_view(v);
    v.push(bytes_vec(name));
    assert(seeds_view(v) =~= v0.push(name@));
    v
}

/// The seeds of the address of the record `seed` in `class`.
pub fn record_address_seeds(class: &Pubkey, seed: &[u8]) -> (v: Vec<Vec<u8>>)
    ensures
        seeds_view(v) == seq![RECORD_SEED@, class@, seed@],
{
    let prefix = RECORD_SEED;
    let mut v = seeds_of(prefix.as_slice(), class.as_slice());
    let ghost v0 = seeds_view(v);
    v.push(bytes_vec(seed));
    assert(seeds_view(v) =~= v0.push(seed@));
    v
}

/// The seeds of the address of the authority delegate of `record`.
pub fn authority_address_seeds(record: &Pubkey) -> (v: Vec<Vec<u8>>)
    ensures
        seeds_view(v) == seq![AUTHORITY_SEED@, record@],
{
    let prefix = AUTHORITY_SEED;
    seeds_of(prefix.as_slice(), record.as_slice())
}

/// The seeds of the address of the mint of `record`.
pub fn mint_address_seeds(record: &Pubkey) -> (v: Vec<Vec<u8>>)
    ensures
        seeds_view(v) == seq![MINT_SEED@, record@],
{
    let prefix = MINT_SEED;
    seeds_of(prefix.as_slice(), record.as_slice())
}

/// The seeds of the address of the group mint of `class`.
pub fn group_address_seeds(class: &Pubkey) -> (v: Vec<Vec<u8>>)
    ensures
        seeds_view(v) == seq![GROUP_SEED@, class@],
{
    let prefix = GROUP_SEED;
    seeds_of(prefix.as_slice(), class.as_slice())
}

/// The seeds of the associated token account of `wallet` for a Token-2022
/// `mint`, under the associated token program.
pub fn associated_token_address_seeds(wallet: &Pubkey, mint: &Pubkey) -> (v: Vec<Vec<u8>>)
    ensures
        seeds_view(v) == seq![wallet@, TOKEN_2022_PROGRAM_ID@, mint@],
{
    let program = TOKEN_2022_PROGRAM_ID;
    let mut v = seeds_of(wallet.as_slice(), program.as_slice());
    let ghost v0 = seeds_view(v);
    v.push(bytes_vec(mint.as_slice()));
    assert(seeds_view(v) =~= v0.push(mint@));
    v
}

impl SignerSeeds {
    /// The seeds this program address is derived from, bump left out.
    pub fn address_seeds(&self) -> (v: Vec<Vec<u8>>)
        ensures
            seeds_view(v) == address_seed_bytes(*self),
    {
        match self {
            SignerSeeds::Class { authority, name, .. } => class_address_seeds(authority, name.as_slice()),
            SignerSeeds::Record { class, seed, .. } => record_address_seeds(class, seed.as_slice()),
            SignerSeeds::Authority { record, .. } => authority_address_seeds(record),
            SignerSeeds::Mint { record, .. } => mint_address_seeds(record),
            SignerSeeds::Group { class, .. } => group_address_seeds(class),
        }
    }

    /// The seeds this program address signs with, bump last.
    pub fn signer_seeds(&self) -> (v: Vec<Vec<u8>>)
        ensures
            seeds_view(v) == signer_seed_bytes(*self),
    {
        let mut v = self.address_seeds();
        let bump = match self {
            SignerSeeds::Class { bump, .. } => *bump,
            SignerSeeds::Record { bump, .. } => *bump,
            SignerSeeds::Authority { bump, .. } => *bump,
            SignerSeeds::Mint { bump, .. } => *bump,
            SignerSeeds::Group { bump, .. } => *bump,
        };
        let ghost v0 = seeds_view(v);
        let mut last = Vec::new();
        last.push(bump);
        v.push(last);
        assert(seeds_view(v) =~= v0.push(seq![bump]));
        v
    }
}

/// A cross-program invocation the program makes, in the order made.
pub enum Cpi {
    /// The system program creates `to` with `space` bytes, owned by `owner`,
    /// funded with `lamports` from `from`.
    CreateAccount {
        from: Pubkey,
        to: Pubkey,
        lamports: u64,
        space: u64,
        owner: Pubkey,
        signer: SignerSeeds,
    },
    /// The system program moves `lamports` from `from` to `to`.
    Transfer { from: Pubkey, to: Pubkey, lamports: u64 },
    /// The system program gives `account` `space` bytes.
    Allocate { account: Pubkey, space: u64, signer: SignerSeeds },
    /// The system program hands `account` over to `owner`.
    Assign { account: Pubkey, owner: Pubkey, signer: SignerSeeds },
    /// The associated token program creates the token account of `wallet`
    /// for `mint`.
    CreateAssociatedTokenAccount { funding_account: Pubkey, account: Pubkey, wallet: Pubkey, mint: Pubkey },
    /// An instruction of the token program, signed by the program addresses
    /// given.
    Token { instruction: Instruction, signers: Vec<SignerSeeds> },
}

/// An instruction of the token program built from its fields.
pub trait TokenInstruction {
    /// The accounts the instruction names, in order.
    spec fn spec_accounts(&self) -> Seq<AccountMeta>;

    /// The instruction data.
    spec fn spec_data(&self) -> Seq<u8>;

    /// Whether the fields fit the instruction's encoding.
    spec fn spec_buildable(&self) -> bool;

    fn instruction(&self) -> (ix: Instruction)
        requires
            self.spec_buildable(),
        ensures
            ix.program_id == TOKEN_2022_PROGRAM_ID,
            ix.accounts@ == self.spec_accounts(),
            ix.data@ == self.spec_data(),
    ;
}

/// `c` invokes the token program with these accounts and data, signed by
/// `signers`.
pub open spec fn is_token_cpi_with(
    c: Cpi,
    accounts: Seq<AccountMeta>,
    data: Seq<u8>,
    signers: Seq<SignerSeeds>,
) -> bool {
    &&& c matches Cpi::Token { instruction, signers: s }
    &&& c->instruction.program_id == TOKEN_2022_PROGRAM_ID
    &&& c->instruction.accounts@ == accounts
    &&& c->instruction.data@ == data
    &&& c->Token_signers@ == signers
}

/// `c` invokes the token program with the instruction `b`, signed by
/// `signers`.
pub open spec fn is_token_cpi<B: TokenInstruction>(c: Cpi, b: B, signers: Seq<SignerSeeds>) -> bool {
    is_token_cpi_with(c, b.spec_accounts(), b.spec_data(), signers)
}

/// The invocation of the token program with `b`, signed by `signers`.
pub fn token_cpi<B: TokenInstruction>(b: &B, signers: Vec<SignerSeeds>) -> (c: Cpi)
    requires
        b.spec_buildable(),
    ensures
        is_token_cpi(c, *b, signers@),
{
    Cpi::Token { instruction: b.instruction(), signers }
}

/// Seeds `["class", authority, name, bump]`.
pub open spec fn class_seeds(authority: Pubkey, name: Seq<u8>, bump: u8) -> spec_fn(SignerSeeds) -> bool {
    |s: SignerSeeds|
        s matches SignerSeeds::Class { authority: a, name: n, bump: b } && a == authority && n@
            == name && b == bump
}

/// Seeds `["record", class, seed, bump]`.
pub open spec fn record_seeds(class: Pubkey, seed: Seq<u8>, bump: u8) -> spec_fn(SignerSeeds) -> bool {
    |s: SignerSeeds|
        s matches SignerSeeds::Record { class: c, seed: n, bump: b } && c == class && n@ == seed && b
            == bump
}

/// Seeds that are exactly `seeds`, for seeds that hold no byte string.
pub open spec fn exactly(seeds: SignerSeeds) -> spec_fn(SignerSeeds) -> bool {
    |s: SignerSeeds| s == seeds
}

/// The invocations that create `target` with `space` bytes owned by `owner`
/// and funded up to `rent` by `payer`, signed by seeds that `signs` accepts:
/// one `CreateAccount` when the account holds no lamports; when it was funded
/// beforehand, the lamports it lacks if any, an `Allocate` and an `Assign`.
pub open spec fn is_create_plan(
    plan: Seq<Cpi>,
    payer: Pubkey,
    target: Pubkey,
    target_lamports: u64,
    rent: u64,
    space: u64,
    owner: Pubkey,
    signs: spec_fn(SignerSeeds) -> bool,
) -> bool {
    let lamports = if rent > target_lamports {
        (rent - target_lamports) as u64
    } else {
        0u64
    };
    if target_lamports == 0 {
        &&& plan.len() == 1
        &&& plan[0] matches Cpi::CreateAccount { from, to, lamports: l, space: s, owner: o, signer }
        &&& plan[0]->CreateAccount_from == payer
        &&& plan[0]->CreateAccount_to == target
        &&& plan[0]->CreateAccount_lamports == lamports
        &&& plan[0]->CreateAccount_space == space
        &&& plan[0]->CreateAccount_owner == owner
        &&& signs(plan[0]->CreateAccount_signer)
    } else {
        let t = if lamports > 0 {
            1int
        } else {
            0int
        };
        &&& plan.len() == t + 2
        &&& lamports > 0 ==> plan[0] == Cpi::Transfer { from: payer, to: target, lamports }
        &&& plan[t] matches Cpi::Allocate { account, space: s, signer }
        &&& plan[t]->Allocate_account == target
        &&& plan[t]->Allocate_space == space
        &&& signs(plan[t]->Allocate_signer)
        &&& plan[t + 1] matches Cpi::Assign { account, owner: o, signer }
        &&& plan[t + 1]->Assign_account == target
        &&& plan[t + 1]->Assign_owner == owner
        &&& signs(plan[t + 1]->Assign_signer)
    }
}

/// The invocations that create `target`; `signer` and `signer_again` are two
/// copies of its seeds, one for each invocation that may need them.
pub fn create_account_plan(
    payer: Pubkey,
    target: &AccountInfo,
    rent: u64,
    space: u64,
    owner: Pubkey,
    signer: SignerSeeds,
    signer_again: SignerSeeds,
    Ghost(signs): Ghost<spec_fn(SignerSeeds) -> bool>,
) -> (plan: Vec<Cpi>)
    requires
        signs(signer),
        signs(signer_again),
    ensures
        is_create_plan(plan@, payer, target.key, target.lamports, rent, space, owner, signs),
{
    let lamports = rent.saturating_sub(target.lamports);
    let mut plan = Vec::new();
    if target.lamports == 0 {
        plan.push(Cpi::CreateAccount { from: payer, to: target.key, lamports, space, owner, signer });
    } else {
        if lamports > 0 {
            plan.push(Cpi::Transfer { from: payer, to: target.key, lamports });
        }
        plan.push(Cpi::Allocate { account: target.key, space, signer });
        plan.push(Cpi::Assign { account: target.key, owner, signer: signer_again });
    }
    plan
}

} // verus!

use vstd::prelude::*;

verus! {

/// The address of an account.
pub type Pubkey = [u8; 32];

/// What an instruction sees of one account: its address, the program that
/// owns it, whether it signed the transaction, its balance and its data.
pub struct AccountInfo {
    pub key: Pubkey,
    pub owner: Pubkey,
    pub is_signer: bool,
    pub lamports: u64,
    pub data: Vec<u8>,
}

impl AccountInfo {
    pub fn key(&self) -> (k: &Pubkey)
        ensures
            *k == self.key,
    {
        &self.key
    }

    pub fn owner(&self) -> (o: &Pubkey)
        ensures
            *o == self.owner,
    {
        &self.owner
    }

    pub fn is_signer(&self) -> (b: bool)
        ensures
            b == self.is_signer,
    {
        self.is_signer
    }

    pub fn lamports(&self) -> (l: u64)
        ensures
            l == self.lamports,
    {
        self.lamports
    }

    pub fn data_len(&self) -> (n: usize)
        ensures
            n == self.data@.len(),
    {
        self.data.len()
    }

    pub fn try_borrow_data(&self) -> (d: &[u8])
        ensures
            d@ == self.data@,
    {
        self.data.as_slice()
    }
}

/// Compares two byte strings.
pub fn bytes_eq(a: &[u8], b: &[u8]) -> (r: bool)
    ensures
        r == (a@ == b@),
{
    if a.len() != b.len() {
        return false;
    }
    let n = a.len();
    let mut i: usize = 0;
    while i < n
        invariant
            n == a@.len(),
            n == b@.len(),
            i <= n,
            forall|j: int| 0 <= j < i ==> a@[j] == b@[j],
        decreases n - i,
    {
        if a[i] != b[i] {
            return false;
        }
        i += 1;
    }
    assert(a@ =~= b@);
    true
}

/// Compares two addresses.
pub fn key_eq(a: &Pubkey, b: &Pubkey) -> (r: bool)
    ensures
        r == (*a == *b),
{
    let r = bytes_eq(a.as_slice(), b.as_slice());
    proof {
        if r {
            assert(*a =~= *b);
        }
    }
    r
}

impl AccountInfo {
    /// An account with nothing in it, held in place of one taken out.
    pub fn empty() -> (a: Self)
        ensures
            a.key@ == Seq::new(32, |i: int| 0u8),
            a.owner@ == Seq::new(32, |i: int| 0u8),
            !a.is_signer,
            a.lamports == 0,
            a.data@.len() == 0,
    {
        let a = AccountInfo { key: [0u8; 32], owner: [0u8; 32], is_signer: false, lamports: 0, data: Vec::new() };
        assert(a.key@ =~= Seq::new(32, |i: int| 0u8));
        a
    }
}

/// Takes account `i` out of the list, leaving an empty one in its place.
pub fn take_account(accounts: &mut Vec<AccountInfo>, i: usize) -> (a: AccountInfo)
    requires
        i < old(accounts)@.len(),
    ensures
        a == old(accounts)@[i as int],
        final(accounts)@.len() == old(accounts)@.len(),
        forall|j: int| 0 <= j < old(accounts)@.len() && j != i ==> final(accounts)@[j] == old(accounts)@[j],
{
    let mut a = AccountInfo::empty();
    std::mem::swap(&mut a, &mut accounts[i]);
    a
}

/// `new` is `old` but for account `i`, whose data is now `data` and whose
/// balance is now `lamports`.
pub open spec fn with_account(
    old: Seq<AccountInfo>,
    new: Seq<AccountInfo>,
    i: int,
    data: Seq<u8>,
    lamports: u64,
) -> bool {
    &&& new.len() == old.len()
    &&& forall|j: int| 0 <= j < old.len() && j != i ==> new[j] == old[j]
    &&& new[i].key == old[i].key
    &&& new[i].owner == old[i].owner
    &&& new[i].is_signer == old[i].is_signer
    &&& new[i].lamports == lamports
    &&& new[i].data@ == data
}

/// `new` is `old` with the data of account `i` replaced by `data`.
pub open spec fn with_data(old: Seq<AccountInfo>, new: Seq<AccountInfo>, i: int, data: Seq<u8>) -> bool {
    with_account(old, new, i, data, old[i].lamports)
}

/// `new` is `old` but for accounts `i` and `j`, whose data and balances are
/// now `di`, `li` and `dj`, `lj`.
pub open spec fn with_two_accounts(
    old: Seq<AccountInfo>,
    new: Seq<AccountInfo>,
    i: int,
    di: Seq<u8>,
    li: u64,
    j: int,
    dj: Seq<u8>,
    lj: u64,
) -> bool {
    &&& new.len() == old.len()
    &&& forall|k: int| 0 <= k < old.len() && k != i && k != j ==> new[k] == old[k]
    &&& new[i].key == old[i].key
    &&& new[i].owner == old[i].owner
    &&& new[i].is_signer == old[i].is_signer
    &&& new[i].lamports == li
    &&& new[i].data@ == di
    &&& new[j].key == old[j].key
    &&& new[j].owner == old[j].owner
    &&& new[j].is_signer == old[j].is_signer
    &&& new[j].lamports == lj
    &&& new[j].data@ == dj
}

/// Account `i`, if the list is long enough to hold it.
pub open spec fn account_at(accounts: Seq<AccountInfo>, i: int) -> Option<AccountInfo> {
    if 0 <= i < accounts.len() {
        Some(accounts[i])
    } else {
        None
    }
}

/// Account `i`, if the list is long enough to hold it.
pub fn get_account(accounts: &[AccountInfo], i: usize) -> (r: Option<&AccountInfo>)
    ensures
        match r {
            Some(a) => account_at(accounts@, i as int) == Some(*a),
            None => account_at(accounts@, i as int) is None,
        },
{
    if i < accounts.len() {
        Some(&accounts[i])
    } else {
        None
    }
}

} // verus!

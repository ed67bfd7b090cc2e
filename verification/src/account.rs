//! Accounts as an instruction sees them: plain values, one per account that
//! the instruction names.

use crate::identity::Identity;
use vstd::prelude::*;

verus! {

/// A balance that the token ledger keeps.
#[derive(Debug, Clone, Copy, PartialEq, Eq)]
pub struct TokenAccount {
    /// The kind of token that the balance counts.
    pub mint: Identity,
    /// The authority that may move the balance.
    pub owner: Identity,
    /// The balance.
    pub amount: u64,
}

/// What the rent sysvar tells this program: the least balance that keeps an
/// account of the size of an escrow record alive for good.
#[derive(Debug, Clone, Copy, PartialEq, Eq)]
pub struct Rent {
    pub minimum_balance: u64,
}

/// What an account holds.
#[derive(Debug, Clone, Copy, PartialEq, Eq)]
pub enum AccountData {
    /// Nothing: a wallet, a program, or a token account that was closed.
    Empty,
    /// The bytes of an escrow record.
    Record([u8; 105]),
    /// A balance of the token ledger.
    Token(TokenAccount),
    /// The rent sysvar.
    Rent(Rent),
}

/// One account that an instruction names.
#[derive(Debug, Clone, Copy, PartialEq, Eq)]
pub struct Account {
    /// The account's identity.
    pub key: Identity,
    /// Whether the host found the account's signature on the transaction.
    pub is_signer: bool,
    /// The native balance that pays the account's rent.
    pub lamports: u64,
    /// What the account holds.
    pub data: AccountData,
}

impl Rent {
    /// Whether `balance` exempts an account of the size of an escrow record
    /// from rent.
    pub open spec fn spec_is_exempt(&self, balance: u64) -> bool {
        balance >= self.minimum_balance
    }

    /// Whether `balance` exempts an account of the size of an escrow record
    /// from rent.
    #[verifier::when_used_as_spec(spec_is_exempt)]
    pub fn is_exempt(&self, balance: u64) -> (b: bool)
        ensures
            b == self.spec_is_exempt(balance),
    {
        balance >= self.minimum_balance
    }
}

/// The record data whose bytes are `bytes`; meant for sequences of 105 bytes.
pub open spec fn record_data(bytes: Seq<u8>) -> AccountData {
    AccountData::Record(choose|array: [u8; 105]| array@ == bytes)
}

/// An array whose first `n` bytes are those of `bytes`.
spec fn array_upto(bytes: Seq<u8>, n: nat) -> [u8; 105]
    decreases n,
{
    if n == 0 {
        vstd::array::spec_array_fill_for_copy_type::<u8, 105>(0u8)
    } else {
        vstd::array::spec_array_update(array_upto(bytes, (n - 1) as nat), n - 1, bytes[n - 1])
    }
}

proof fn lemma_array_upto(bytes: Seq<u8>, n: nat)
    requires
        n <= 105 == bytes.len(),
    ensures
        forall|i: int| 0 <= i < n ==> array_upto(bytes, n)@[i] == bytes[i],
    decreases n,
{
    if n > 0 {
        lemma_array_upto(bytes, (n - 1) as nat);
    }
}

/// Record data is determined by its bytes: an array makes the record data of
/// its own bytes.
pub proof fn lemma_record_data(array: [u8; 105])
    ensures
        record_data(array@) == AccountData::Record(array),
{
    let chosen = choose|other: [u8; 105]| other@ == array@;
    assert(chosen@ == array@);
    assert(chosen =~= array);
}

/// Every sequence of 105 bytes is the bytes of its record data.
pub proof fn lemma_record_data_bytes(bytes: Seq<u8>)
    requires
        bytes.len() == 105,
    ensures
        record_data(bytes) matches AccountData::Record(array) && array@ == bytes,
{
    lemma_array_upto(bytes, 105);
    assert(array_upto(bytes, 105)@ =~= bytes);
}

impl Account {
    /// The account with `data` in place of what it holds.
    pub open spec fn with_data(self, data: AccountData) -> Account {
        Account { data, ..self }
    }

    /// The account with the token balance `token` in place of what it holds.
    pub open spec fn with_token(self, token: TokenAccount) -> Account {
        Account { data: AccountData::Token(token), ..self }
    }

    /// The account with `lamports` as its native balance.
    pub open spec fn with_lamports(self, lamports: u64) -> Account {
        Account { lamports, ..self }
    }

    /// The account after it was closed: no balance and nothing held.
    pub open spec fn closed(self) -> Account {
        Account { lamports: 0, data: AccountData::Empty, ..self }
    }

    /// The token balance that the account holds, if it is a token account.
    pub open spec fn spec_token(&self) -> Option<TokenAccount> {
        match self.data {
            AccountData::Token(token) => Some(token),
            _ => None,
        }
    }

    /// The token balance that the account holds, if it is a token account.
    #[verifier::when_used_as_spec(spec_token)]
    pub fn token(&self) -> (r: Option<TokenAccount>)
        ensures
            r == self.spec_token(),
    {
        match self.data {
            AccountData::Token(token) => Some(token),
            _ => None,
        }
    }
}

/// Whether no two accounts of the list have the same identity.
pub open spec fn distinct_keys(accounts: Seq<Account>) -> bool {
    forall|i: int, j: int| 0 <= i < j < accounts.len() ==> accounts[i].key != accounts[j].key
}

/// Whether two lists name the same accounts in the same order.
pub open spec fn same_keys(a: Seq<Account>, b: Seq<Account>) -> bool {
    &&& a.len() == b.len()
    &&& forall|i: int| 0 <= i < a.len() ==> a[i].key == b[i].key
}

/// The first position in the list of the account named `key`.
pub open spec fn spec_find(accounts: Seq<Account>, key: Identity) -> Option<int>
    decreases accounts.len(),
{
    if accounts.len() == 0 {
        None
    } else {
        match spec_find(accounts.drop_last(), key) {
            Some(i) => Some(i),
            None => if accounts.last().key == key {
                Some(accounts.len() - 1)
            } else {
                None
            },
        }
    }
}

/// What [`spec_find`] finds is the first account with the key, and it finds
/// one whenever there is one.
pub proof fn lemma_find(accounts: Seq<Account>, key: Identity)
    ensures
        match spec_find(accounts, key) {
            Some(i) => {
                &&& 0 <= i < accounts.len()
                &&& accounts[i].key == key
                &&& forall|j: int| 0 <= j < i ==> accounts[j].key != key
            },
            None => forall|j: int| 0 <= j < accounts.len() ==> accounts[j].key != key,
        },
    decreases accounts.len(),
{
    if accounts.len() > 0 {
        let prefix = accounts.drop_last();
        lemma_find(prefix, key);
        assert forall|j: int| 0 <= j < prefix.len() implies accounts[j].key != key
            <==> prefix[j].key != key by {}
    }
}

/// In a list without repeated identities, each account is found at its own
/// position.
pub proof fn lemma_find_distinct(accounts: Seq<Account>, i: int)
    requires
        distinct_keys(accounts),
        0 <= i < accounts.len(),
    ensures
        spec_find(accounts, accounts[i].key) == Some(i),
{
    lemma_find(accounts, accounts[i].key);
}

/// Finding depends on the identities alone.
pub proof fn lemma_find_same_keys(a: Seq<Account>, b: Seq<Account>, key: Identity)
    requires
        same_keys(a, b),
    ensures
        spec_find(a, key) == spec_find(b, key),
    decreases a.len(),
{
    if a.len() > 0 {
        assert forall|i: int| 0 <= i < a.len() - 1 implies a.drop_last()[i].key == b.drop_last()[i].key by {
            assert(a[i].key == b[i].key);
        }
        lemma_find_same_keys(a.drop_last(), b.drop_last(), key);
    }
}

/// The first position in the list of the account named `key`.
pub fn find(accounts: &Vec<Account>, key: &Identity) -> (r: Option<usize>)
    ensures
        match r {
            Some(i) => i < accounts@.len() && spec_find(accounts@, *key) == Some(i as int),
            None => spec_find(accounts@, *key) is None,
        },
{
    let mut found: Option<usize> = None;
    let mut i: usize = 0;
    while i < accounts.len()
        invariant
            0 <= i <= accounts@.len(),
            match found {
                Some(k) => k < i && spec_find(accounts@.take(i as int), *key) == Some(k as int),
                None => spec_find(accounts@.take(i as int), *key) is None,
            },
        decreases accounts@.len() - i,
    {
        proof {
            assert(accounts@.take(i + 1).drop_last() =~= accounts@.take(i as int));
        }
        if found.is_none() && accounts[i].key == *key {
            found = Some(i);
        }
        i += 1;
    }
    proof {
        assert(accounts@.take(i as int) =~= accounts@);
    }
    found
}

/// Whether no two accounts of the list have the same identity.
pub fn has_distinct_keys(accounts: &Vec<Account>) -> (b: bool)
    ensures
        b == distinct_keys(accounts@),
{
    let mut j: usize = 0;
    while j < accounts.len()
        invariant
            0 <= j <= accounts@.len(),
            distinct_keys(accounts@.take(j as int)),
        decreases accounts@.len() - j,
    {
        let mut i: usize = 0;
        while i < j
            invariant
                0 <= i <= j < accounts@.len(),
                forall|k: int| 0 <= k < i ==> accounts@[k].key != accounts@[j as int].key,
            decreases j - i,
        {
            if accounts[i].key == accounts[j].key {
                return false;
            }
            i += 1;
        }
        j += 1;
    }
    proof {
        assert(accounts@.take(j as int) =~= accounts@);
    }
    true
}

} // verus!

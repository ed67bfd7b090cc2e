//! The token ledger as the escrow program meets it: three calls, and what
//! each does to the accounts that an instruction names.
//!
//! The ledger itself is a service of the host. This module states its
//! interface and keeps an executable model of it, so that what an
//! instruction's calls do to balances can be stated and run.

use crate::account::{find, lemma_find, same_keys, spec_find, Account, AccountData, TokenAccount};
use crate::identity::Identity;
use vstd::prelude::*;

verus! {

/// Why the token ledger refused a call.
#[derive(Debug, Clone, Copy, PartialEq, Eq, Structural)]
pub enum LedgerError {
    /// An account that the call names is not in the list, or an account
    /// that must hold a token balance holds none.
    InvalidAccount,
    /// The source holds less than the amount to move.
    InsufficientFunds,
    /// Source and destination count different tokens.
    MintMismatch,
    /// The authority given is not the one that the account is under.
    OwnerMismatch,
    /// The authority did not sign.
    MissingSignature,
    /// The account to close still holds tokens.
    NonZeroBalance,
    /// The destination's balance would leave the range of `u64`.
    Overflow,
}

/// A call to the token ledger.
#[derive(Debug, Clone, Copy, PartialEq, Eq)]
pub enum TokenCall {
    /// Moves `amount` tokens from `source` to `destination`.
    Transfer { source: Identity, destination: Identity, authority: Identity, amount: u64 },
    /// Puts `account` under `new_authority`.
    SetAuthority { account: Identity, new_authority: Identity, current_authority: Identity },
    /// Closes `account` and hands its native balance to `destination`.
    CloseAccount { account: Identity, destination: Identity, authority: Identity },
}

/// Whether `authority` has signed: the program signs for `program_signer`,
/// every other authority must be a signer in the list.
pub open spec fn spec_signed(
    accounts: Seq<Account>,
    authority: Identity,
    program_signer: Option<Identity>,
) -> bool {
    program_signer == Some(authority) || match spec_find(accounts, authority) {
        Some(i) => accounts[i].is_signer,
        None => false,
    }
}

/// The position and the balance of the token account named `key`.
pub open spec fn spec_token_at(accounts: Seq<Account>, key: Identity) -> Option<(int, TokenAccount)> {
    match spec_find(accounts, key) {
        Some(i) => match accounts[i].data {
            AccountData::Token(token) => Some((i, token)),
            _ => None,
        },
        None => None,
    }
}

/// What a transfer does. It is refused, in this order, where an account is
/// missing or holds no token balance, the source holds too little, the
/// tokens differ, the authority is not the source's or has not signed, or
/// the destination would overflow. A transfer from an account to itself
/// changes nothing.
pub open spec fn spec_transfer(
    accounts: Seq<Account>,
    source: Identity,
    destination: Identity,
    authority: Identity,
    amount: u64,
    program_signer: Option<Identity>,
) -> Result<Seq<Account>, LedgerError> {
    match (spec_token_at(accounts, source), spec_token_at(accounts, destination)) {
        (Some((s, from)), Some((d, to))) => {
            if from.amount < amount {
                Err(LedgerError::InsufficientFunds)
            } else if from.mint != to.mint {
                Err(LedgerError::MintMismatch)
            } else if from.owner != authority {
                Err(LedgerError::OwnerMismatch)
            } else if !spec_signed(accounts, authority, program_signer) {
                Err(LedgerError::MissingSignature)
            } else if s == d {
                Ok(accounts)
            } else if to.amount + amount > u64::MAX {
                Err(LedgerError::Overflow)
            } else {
                Ok(
                    accounts.update(
                        s,
                        accounts[s].with_token(
                            TokenAccount { amount: (from.amount - amount) as u64, ..from },
                        ),
                    ).update(
                        d,
                        accounts[d].with_token(
                            TokenAccount { amount: (to.amount + amount) as u64, ..to },
                        ),
                    ),
                )
            }
        },
        _ => Err(LedgerError::InvalidAccount),
    }
}

/// What a change of authority does. It is refused where the account is
/// missing or holds no token balance, or the authority is not the account's
/// or has not signed.
pub open spec fn spec_set_authority(
    accounts: Seq<Account>,
    account: Identity,
    new_authority: Identity,
    current_authority: Identity,
    program_signer: Option<Identity>,
) -> Result<Seq<Account>, LedgerError> {
    match spec_token_at(accounts, account) {
        Some((i, token)) => {
            if token.owner != current_authority {
                Err(LedgerError::OwnerMismatch)
            } else if !spec_signed(accounts, current_authority, program_signer) {
                Err(LedgerError::MissingSignature)
            } else {
                Ok(
                    accounts.update(
                        i,
                        accounts[i].with_token(TokenAccount { owner: new_authority, ..token }),
                    ),
                )
            }
        },
        None => Err(LedgerError::InvalidAccount),
    }
}

/// What closing an account does. It is refused, in this order, where the
/// account is its own destination, an account is missing or the one to
/// close holds no token balance, tokens are left in it, the authority is
/// not the account's or has not signed, or the destination's native balance
/// would overflow.
pub open spec fn spec_close_account(
    accounts: Seq<Account>,
    account: Identity,
    destination: Identity,
    authority: Identity,
    program_signer: Option<Identity>,
) -> Result<Seq<Account>, LedgerError> {
    match (spec_token_at(accounts, account), spec_find(accounts, destination)) {
        (Some((i, token)), Some(d)) => {
            if account == destination {
                Err(LedgerError::InvalidAccount)
            } else if token.amount != 0 {
                Err(LedgerError::NonZeroBalance)
            } else if token.owner != authority {
                Err(LedgerError::OwnerMismatch)
            } else if !spec_signed(accounts, authority, program_signer) {
                Err(LedgerError::MissingSignature)
            } else if accounts[d].lamports + accounts[i].lamports > u64::MAX {
                Err(LedgerError::Overflow)
            } else {
                Ok(
                    accounts.update(
                        d,
                        accounts[d].with_lamports(
                            (accounts[d].lamports + accounts[i].lamports) as u64,
                        ),
                    ).update(i, accounts[i].closed()),
                )
            }
        },
        _ => Err(LedgerError::InvalidAccount),
    }
}

/// What a call does to the accounts, or why the ledger refuses it.
pub open spec fn spec_execute(
    accounts: Seq<Account>,
    call: TokenCall,
    program_signer: Option<Identity>,
) -> Result<Seq<Account>, LedgerError> {
    match call {
        TokenCall::Transfer { source, destination, authority, amount } => spec_transfer(
            accounts,
            source,
            destination,
            authority,
            amount,
            program_signer,
        ),
        TokenCall::SetAuthority { account, new_authority, current_authority } => spec_set_authority(
            accounts,
            account,
            new_authority,
            current_authority,
            program_signer,
        ),
        TokenCall::CloseAccount { account, destination, authority } => spec_close_account(
            accounts,
            account,
            destination,
            authority,
            program_signer,
        ),
    }
}

/// How the outcome of a call on `pre` shows in the accounts afterwards and
/// in the result: a refused call changes nothing.
pub open spec fn outcome_is(
    expected: Result<Seq<Account>, LedgerError>,
    pre: Seq<Account>,
    post: Seq<Account>,
    r: Result<(), LedgerError>,
) -> bool {
    match expected {
        Ok(accounts) => r is Ok && post == accounts,
        Err(e) => r == Err::<(), LedgerError>(e) && post == pre,
    }
}

/// A call changes what accounts hold, never which accounts are listed, who
/// signed, or an account that it does not name.
pub proof fn lemma_execute_keeps_keys(
    accounts: Seq<Account>,
    call: TokenCall,
    program_signer: Option<Identity>,
)
    requires
        spec_execute(accounts, call, program_signer) is Ok,
    ensures
        same_keys(accounts, spec_execute(accounts, call, program_signer)->Ok_0),
        forall|i: int|
            0 <= i < accounts.len() ==> accounts[i].is_signer == (#[trigger] spec_execute(
                accounts,
                call,
                program_signer,
            )->Ok_0[i]).is_signer,
{
    match call {
        TokenCall::Transfer { source, destination, .. } => {
            lemma_find(accounts, source);
            lemma_find(accounts, destination);
        },
        TokenCall::SetAuthority { account, .. } => {
            lemma_find(accounts, account);
        },
        TokenCall::CloseAccount { account, destination, .. } => {
            lemma_find(accounts, account);
            lemma_find(accounts, destination);
        },
    }
}

fn signed(accounts: &Vec<Account>, authority: &Identity, program_signer: &Option<Identity>) -> (b: bool)
    ensures
        b == spec_signed(accounts@, *authority, *program_signer),
{
    let by_program = match program_signer {
        Some(signer) => *signer == *authority,
        None => false,
    };
    if by_program {
        return true;
    }
    match find(accounts, authority) {
        Some(i) => accounts[i].is_signer,
        None => false,
    }
}

fn token_at(accounts: &Vec<Account>, key: &Identity) -> (r: Option<(usize, TokenAccount)>)
    ensures
        match r {
            Some((i, token)) => spec_token_at(accounts@, *key) == Some((i as int, token)),
            None => spec_token_at(accounts@, *key) is None,
        },
        r matches Some((i, _)) ==> i < accounts@.len(),
{
    proof {
        crate::account::lemma_find(accounts@, *key);
    }
    match find(accounts, key) {
        Some(i) => match accounts[i].data {
            AccountData::Token(token) => Some((i, token)),
            _ => None,
        },
        None => None,
    }
}

/// Moves `amount` tokens from `source` to `destination` on the authority's
/// signature.
pub fn transfer(
    accounts: &mut Vec<Account>,
    source: &Identity,
    destination: &Identity,
    authority: &Identity,
    amount: u64,
    program_signer: &Option<Identity>,
) -> (r: Result<(), LedgerError>)
    ensures
        outcome_is(
            spec_transfer(
                old(accounts)@,
                *source,
                *destination,
                *authority,
                amount,
                *program_signer,
            ),
            old(accounts)@,
            final(accounts)@,
            r,
        ),
{
    let (s, from) = match token_at(accounts, source) {
        Some(found) => found,
        None => { return Err(LedgerError::InvalidAccount); },
    };
    let (d, to) = match token_at(accounts, destination) {
        Some(found) => found,
        None => { return Err(LedgerError::InvalidAccount); },
    };
    if from.amount < amount {
        return Err(LedgerError::InsufficientFunds);
    }
    if from.mint != to.mint {
        return Err(LedgerError::MintMismatch);
    }
    if from.owner != *authority {
        return Err(LedgerError::OwnerMismatch);
    }
    if !signed(accounts, authority, program_signer) {
        return Err(LedgerError::MissingSignature);
    }
    if s == d {
        return Ok(());
    }
    if amount > u64::MAX - to.amount {
        return Err(LedgerError::Overflow);
    }
    let debited = Account {
        data: AccountData::Token(TokenAccount { amount: from.amount - amount, ..from }),
        ..accounts[s]
    };
    let credited = Account {
        data: AccountData::Token(TokenAccount { amount: to.amount + amount, ..to }),
        ..accounts[d]
    };
    accounts[s] = debited;
    accounts[d] = credited;
    Ok(())
}

/// Puts the token account `account` under `new_authority` on the current
/// authority's signature.
pub fn set_authority(
    accounts: &mut Vec<Account>,
    account: &Identity,
    new_authority: &Identity,
    current_authority: &Identity,
    program_signer: &Option<Identity>,
) -> (r: Result<(), LedgerError>)
    ensures
        outcome_is(
            spec_set_authority(
                old(accounts)@,
                *account,
                *new_authority,
                *current_authority,
                *program_signer,
            ),
            old(accounts)@,
            final(accounts)@,
            r,
        ),
{
    let (i, token) = match token_at(accounts, account) {
        Some(found) => found,
        None => { return Err(LedgerError::InvalidAccount); },
    };
    if token.owner != *current_authority {
        return Err(LedgerError::OwnerMismatch);
    }
    if !signed(accounts, current_authority, program_signer) {
        return Err(LedgerError::MissingSignature);
    }
    let changed = Account {
        data: AccountData::Token(TokenAccount { owner: *new_authority, ..token }),
        ..accounts[i]
    };
    accounts[i] = changed;
    Ok(())
}

/// Closes the empty token account `account` on its authority's signature
/// and hands its native balance to `destination`.
pub fn close_account(
    accounts: &mut Vec<Account>,
    account: &Identity,
    destination: &Identity,
    authority: &Identity,
    program_signer: &Option<Identity>,
) -> (r: Result<(), LedgerError>)
    ensures
        outcome_is(
            spec_close_account(
                old(accounts)@,
                *account,
                *destination,
                *authority,
                *program_signer,
            ),
            old(accounts)@,
            final(accounts)@,
            r,
        ),
{
    let (i, token) = match token_at(accounts, account) {
        Some(found) => found,
        None => { return Err(LedgerError::InvalidAccount); },
    };
    proof {
        crate::account::lemma_find(accounts@, *destination);
    }
    let d = match find(accounts, destination) {
        Some(found) => found,
        None => { return Err(LedgerError::InvalidAccount); },
    };
    if *account == *destination {
        return Err(LedgerError::InvalidAccount);
    }
    if token.amount != 0 {
        return Err(LedgerError::NonZeroBalance);
    }
    if token.owner != *authority {
        return Err(LedgerError::OwnerMismatch);
    }
    if !signed(accounts, authority, program_signer) {
        return Err(LedgerError::MissingSignature);
    }
    if accounts[i].lamports > u64::MAX - accounts[d].lamports {
        return Err(LedgerError::Overflow);
    }
    let credited = Account { lamports: accounts[d].lamports + accounts[i].lamports, ..accounts[d] };
    let closed = Account { lamports: 0, data: AccountData::Empty, ..accounts[i] };
    accounts[d] = credited;
    accounts[i] = closed;
    Ok(())
}

/// Performs a call on the accounts. `program_signer` is the authority that
/// the calling program signs for, if it signs for one.
pub fn execute(accounts: &mut Vec<Account>, call: &TokenCall, program_signer: &Option<Identity>) -> (r:
    Result<(), LedgerError>)
    ensures
        outcome_is(
            spec_execute(old(accounts)@, *call, *program_signer),
            old(accounts)@,
            final(accounts)@,
            r,
        ),
{
    match call {
        TokenCall::Transfer { source, destination, authority, amount } => transfer(
            accounts,
            source,
            destination,
            authority,
            *amount,
            program_signer,
        ),
        TokenCall::SetAuthority { account, new_authority, current_authority } => set_authority(
            accounts,
            account,
            new_authority,
            current_authority,
            program_signer,
        ),
        TokenCall::CloseAccount { account, destination, authority } => close_account(
            accounts,
            account,
            destination,
            authority,
            program_signer,
        ),
    }
}

} // verus!

//! What the two operations come to, account by account.
//!
//! The processor says what an operation does as a chain of checks and ledger
//! calls. Here the chain is worked out: for an instruction that the program
//! accepts, why the token ledger would still refuse it, and otherwise what
//! every account holds afterwards.

use crate::account::{
    distinct_keys, lemma_find_distinct, record_data, same_keys, Account, TokenAccount,
};
use crate::identity::Identity;
use crate::ledger::{lemma_execute_keeps_keys, spec_execute, LedgerError};
use crate::processor::{
    spec_exchange_calls, spec_process_exchange, spec_process_init_escrow, spec_record_of,
    ExchangeRequest, InitRequest, ProcessError,
};
use vstd::prelude::*;

verus! {

/// Why the token ledger refuses an Init that the program accepts, if it
/// does: the temporary token account holds no token balance, or it is not
/// the initializer's.
pub open spec fn spec_init_refusal(accounts: Seq<Account>) -> Option<LedgerError> {
    match accounts[1].spec_token() {
        Some(deposit) => if deposit.owner != accounts[0].key {
            Some(LedgerError::OwnerMismatch)
        } else {
            None
        },
        None => Some(LedgerError::InvalidAccount),
    }
}

/// The accounts after an Init that went through: the temporary token
/// account is under `authority`, the record account persists the new
/// record, and nothing else has changed.
pub open spec fn spec_initialized(authority: Identity, accounts: Seq<Account>, amount: u64) -> Seq<
    Account,
> {
    let deposit = accounts[1].spec_token()->Some_0;
    let request = InitRequest::spec_from_accounts(accounts)->Ok_0;
    accounts.update(1, accounts[1].with_token(TokenAccount { owner: authority, ..deposit })).update(
        3,
        accounts[3].with_data(record_data(request.spec_record(amount).spec_pack())),
    )
}

/// Why the token ledger refuses an Exchange that the program accepts, if it
/// does: the taker's paying account holds no token balance or too little,
/// counts another token than the initializer's receiving account, or is not
/// the taker's; or the deposit is of another token than the taker's
/// receiving account.
pub open spec fn spec_exchange_refusal(accounts: Seq<Account>) -> Option<LedgerError> {
    match (
        accounts[1].spec_token(),
        accounts[2].spec_token(),
        accounts[3].spec_token(),
        accounts[4].spec_token(),
        spec_record_of(accounts[5]),
    ) {
        (Some(paying), Some(deposit), Some(receiving), Some(taking), Some(escrow)) => {
            if paying.amount < escrow.expected_amount {
                Some(LedgerError::InsufficientFunds)
            } else if paying.mint != receiving.mint {
                Some(LedgerError::MintMismatch)
            } else if paying.owner != accounts[0].key {
                Some(LedgerError::OwnerMismatch)
            } else if deposit.mint != taking.mint {
                Some(LedgerError::MintMismatch)
            } else {
                None
            }
        },
        _ => Some(LedgerError::InvalidAccount),
    }
}

/// The accounts after an Exchange that went through: the payment has moved
/// from the taker's paying account to the initializer's receiving account,
/// the whole deposit to the taker's receiving account; the temporary token
/// account is closed and the record zeroed, and the native balances of both
/// are with the initializer. The taker, the token program and the authority
/// are as before.
pub open spec fn spec_exchanged(accounts: Seq<Account>) -> Seq<Account> {
    let paying = accounts[1].spec_token()->Some_0;
    let deposit = accounts[2].spec_token()->Some_0;
    let receiving = accounts[3].spec_token()->Some_0;
    let taking = accounts[4].spec_token()->Some_0;
    let expected = spec_record_of(accounts[5])->Some_0.expected_amount;
    seq![
        accounts[0],
        accounts[1].with_token(TokenAccount { amount: (paying.amount - expected) as u64, ..paying }),
        accounts[2].with_token(TokenAccount { amount: 0, ..deposit }).closed(),
        accounts[3].with_token(
            TokenAccount { amount: (receiving.amount + expected) as u64, ..receiving },
        ),
        accounts[4].with_token(
            TokenAccount { amount: (taking.amount + deposit.amount) as u64, ..taking },
        ),
        accounts[5].with_lamports(0).with_data(record_data(Seq::new(105, |i: int| 0u8))),
        accounts[6].with_lamports(
            (accounts[6].lamports + accounts[2].lamports + accounts[5].lamports) as u64,
        ),
        accounts[7],
        accounts[8],
    ]
}

/// An Init that the program accepts goes through unless the token ledger
/// refuses the change of authority, and then it comes to
/// [`spec_initialized`].
pub proof fn lemma_init_effects(authority: Identity, accounts: Seq<Account>, amount: u64)
    requires
        InitRequest::spec_from_accounts(accounts) is Ok,
        InitRequest::spec_from_accounts(accounts)->Ok_0.spec_init_escrow(authority, amount) is Ok,
    ensures
        spec_process_init_escrow(authority, accounts, amount) == match spec_init_refusal(accounts) {
            Some(e) => Err::<Seq<Account>, ProcessError>(ProcessError::Ledger(e)),
            None => Ok(spec_initialized(authority, accounts, amount)),
        },
{
    lemma_find_distinct(accounts, 0);
    lemma_find_distinct(accounts, 1);
}

/// An Exchange that the program accepts goes through unless the token
/// ledger refuses a call, and then it comes to [`spec_exchanged`]. Before
/// the record is closed, the initializer already holds the native balance
/// of the temporary token account, and the record's own still fits on top.
pub proof fn lemma_exchange_effects(authority: Identity, accounts: Seq<Account>, amount: u64)
    requires
        ExchangeRequest::spec_from_accounts(accounts) is Ok,
        ExchangeRequest::spec_from_accounts(accounts)->Ok_0.spec_exchange(authority, amount) is Ok,
    ensures
        spec_process_exchange(authority, accounts, amount) == match spec_exchange_refusal(accounts) {
            Some(e) => Err::<Seq<Account>, ProcessError>(ProcessError::Ledger(e)),
            None => Ok(spec_exchanged(accounts)),
        },
        spec_exchange_calls(
            authority,
            accounts,
            ExchangeRequest::spec_from_accounts(accounts)->Ok_0.spec_outcome(authority),
        ) matches Ok(closed) ==> closed.len() == 9 && closed[6].lamports
            + accounts[5].lamports <= u64::MAX,
{
    let request = ExchangeRequest::spec_from_accounts(accounts)->Ok_0;
    let outcome = request.spec_exchange(authority, amount)->Ok_0;
    lemma_find_distinct(accounts, 0);
    lemma_find_distinct(accounts, 1);
    lemma_find_distinct(accounts, 3);
    let payment = spec_execute(accounts, outcome.payment, None);
    if let Ok(paid) = payment {
        lemma_execute_keeps_keys(accounts, outcome.payment, None);
        lemma_keeps_distinct(accounts, paid);
        lemma_find_distinct(paid, 2);
        lemma_find_distinct(paid, 4);
        let release = spec_execute(paid, outcome.release, Some(authority));
        if let Ok(released) = release {
            lemma_execute_keeps_keys(paid, outcome.release, Some(authority));
            lemma_keeps_distinct(paid, released);
            lemma_find_distinct(released, 2);
            lemma_find_distinct(released, 6);
            let close = spec_execute(released, outcome.close, Some(authority));
            if let Ok(closed) = close {
                lemma_execute_keeps_keys(released, outcome.close, Some(authority));
                assert(spec_process_exchange(authority, accounts, amount).unwrap() =~= spec_exchanged(
                    accounts,
                ));
            }
        }
    }
}

/// Lists that name the same accounts are both free of repeated identities
/// or both not.
pub proof fn lemma_keeps_distinct(a: Seq<Account>, b: Seq<Account>)
    requires
        same_keys(a, b),
    ensures
        distinct_keys(a) == distinct_keys(b),
{
    if distinct_keys(a) {
        assert forall|i: int, j: int| 0 <= i < j < b.len() implies b[i].key != b[j].key by {
            assert(a[i].key == b[i].key && a[j].key == b[j].key);
        }
    }
    if distinct_keys(b) {
        assert forall|i: int, j: int| 0 <= i < j < a.len() implies a[i].key != a[j].key by {
            assert(a[i].key == b[i].key && a[j].key == b[j].key);
        }
    }
}

} // verus!

//! The instruction processor: what each operation checks, what it asks of
//! the token ledger, and what it does to the accounts.
//!
//! Each operation comes in three steps. A request gathers, from the accounts
//! in their required order, the plain values that the operation reads. A
//! decision checks the request and says what is to be done. A transition
//! does it to the accounts, through the model of the token ledger. A host
//! adapter uses the first two steps and performs the calls itself.

use crate::account::{
    distinct_keys, has_distinct_keys, lemma_record_data, record_data, Account, AccountData, Rent,
    TokenAccount,
};
use crate::effects::lemma_exchange_effects;
use crate::error::EscrowError;
use crate::identity::{derive_authority, escrow_authority, Identity};
use crate::instruction::EscrowInstruction;
use crate::ledger::{execute, lemma_execute_keeps_keys, spec_execute, LedgerError, TokenCall};
use crate::state::Escrow;
use vstd::prelude::*;

verus! {

/// Why an instruction failed: the program rejected it, or the token ledger
/// refused a call and the refusal is handed on as it came.
#[derive(Debug, Clone, Copy, PartialEq, Eq, Structural)]
pub enum ProcessError {
    Escrow(EscrowError),
    Ledger(LedgerError),
}

/// The number of accounts of an Init instruction. In order: the initializer
/// (signer), the temporary token account that holds the deposit, the
/// initializer's token account for the payment, the escrow record account,
/// the token program, the rent sysvar.
pub const INIT_ACCOUNTS: usize = 6;

/// The number of accounts of an Exchange instruction. In order: the taker
/// (signer), the taker's token account that pays, the temporary token
/// account, the initializer's token account for the payment, the taker's
/// token account for the deposit, the escrow record account, the
/// initializer's main account, the token program, the program's authority.
pub const EXCHANGE_ACCOUNTS: usize = 9;

/// What an Init instruction reads from its accounts.
#[derive(Debug, Clone, Copy, PartialEq, Eq)]
pub struct InitRequest {
    pub initializer: Identity,
    /// Whether the host found the initializer's signature.
    pub initializer_signed: bool,
    pub temp_token_account: Identity,
    pub token_to_receive_account: Identity,
    pub escrow_account: Identity,
    pub escrow_lamports: u64,
    /// What the record account persists before the instruction.
    pub escrow: Escrow,
    pub token_program: Identity,
    pub rent: Rent,
}

/// What an Init instruction does.
#[derive(Debug, Clone, Copy, PartialEq, Eq)]
pub struct InitOutcome {
    /// The record to persist in the record account.
    pub escrow: Escrow,
    /// The call that hands the temporary token account to the program's
    /// authority.
    pub call: TokenCall,
}

/// What an Exchange instruction reads from its accounts.
#[derive(Debug, Clone, Copy, PartialEq, Eq)]
pub struct ExchangeRequest {
    pub taker: Identity,
    /// Whether the host found the taker's signature.
    pub taker_signed: bool,
    pub taker_sending_account: Identity,
    pub temp_token_account: Identity,
    /// The deposit, as the token ledger holds it now.
    pub temp_token: TokenAccount,
    pub temp_lamports: u64,
    pub initializer_token_to_receive_account: Identity,
    pub initializer_receive_balance: u64,
    pub taker_token_to_receive_account: Identity,
    pub taker_receive_balance: u64,
    pub escrow_account: Identity,
    pub escrow_lamports: u64,
    /// What the record account persists before the instruction.
    pub escrow: Escrow,
    pub initializer_main_account: Identity,
    pub initializer_lamports: u64,
    pub token_program: Identity,
    pub authority_account: Identity,
}

/// What an Exchange instruction does, in this order.
#[derive(Debug, Clone, Copy, PartialEq, Eq)]
pub struct ExchangeOutcome {
    /// The taker pays the initializer.
    pub payment: TokenCall,
    /// The program releases the deposit to the taker.
    pub release: TokenCall,
    /// The program closes the temporary token account; its native balance
    /// goes to the initializer.
    pub close: TokenCall,
    /// The native balance of the record account, which goes to the
    /// initializer when the record is zeroed.
    pub refund: u64,
}

/// The failure for an instruction or an account list that is malformed.
pub open spec fn invalid<T>() -> Result<T, ProcessError> {
    Err(ProcessError::Escrow(EscrowError::InvalidInstruction))
}

/// The record that an account persists, live or not, if it is a record
/// account with well-formed bytes.
pub open spec fn spec_record_of(account: Account) -> Option<Escrow> {
    match account.data {
        AccountData::Record(bytes) => Escrow::spec_unpack_unchecked(bytes@),
        _ => None,
    }
}

fn record_of(account: &Account) -> (r: Option<Escrow>)
    ensures
        r == spec_record_of(*account),
{
    match &account.data {
        AccountData::Record(bytes) => Escrow::unpack_unchecked(bytes.as_slice()),
        _ => None,
    }
}

impl InitRequest {
    /// The request that the accounts of an Init instruction make. The list
    /// is malformed unless it has six accounts with six different
    /// identities, the fourth holds the bytes of a record and the sixth is
    /// the rent sysvar.
    pub open spec fn spec_from_accounts(accounts: Seq<Account>) -> Result<InitRequest, ProcessError> {
        if accounts.len() != INIT_ACCOUNTS || !distinct_keys(accounts) {
            invalid()
        } else {
            match (spec_record_of(accounts[3]), accounts[5].data) {
                (Some(escrow), AccountData::Rent(rent)) => Ok(
                    InitRequest {
                        initializer: accounts[0].key,
                        initializer_signed: accounts[0].is_signer,
                        temp_token_account: accounts[1].key,
                        token_to_receive_account: accounts[2].key,
                        escrow_account: accounts[3].key,
                        escrow_lamports: accounts[3].lamports,
                        escrow,
                        token_program: accounts[4].key,
                        rent,
                    },
                ),
                _ => invalid(),
            }
        }
    }

    /// Gathers the request from the accounts of an Init instruction.
    pub fn from_accounts(accounts: &Vec<Account>) -> (r: Result<InitRequest, ProcessError>)
        ensures
            r == InitRequest::spec_from_accounts(accounts@),
    {
        if accounts.len() != INIT_ACCOUNTS || !has_distinct_keys(accounts) {
            return Err(ProcessError::Escrow(EscrowError::InvalidInstruction));
        }
        let escrow = match record_of(&accounts[3]) {
            Some(escrow) => escrow,
            None => { return Err(ProcessError::Escrow(EscrowError::InvalidInstruction)); },
        };
        let rent = match accounts[5].data {
            AccountData::Rent(rent) => rent,
            _ => { return Err(ProcessError::Escrow(EscrowError::InvalidInstruction)); },
        };
        Ok(
            InitRequest {
                initializer: accounts[0].key,
                initializer_signed: accounts[0].is_signer,
                temp_token_account: accounts[1].key,
                token_to_receive_account: accounts[2].key,
                escrow_account: accounts[3].key,
                escrow_lamports: accounts[3].lamports,
                escrow,
                token_program: accounts[4].key,
                rent,
            },
        )
    }
}

impl ExchangeRequest {
    /// The request that the accounts of an Exchange instruction make. The
    /// list is malformed unless it has nine accounts with nine different
    /// identities, the third, fourth and fifth hold token balances and the
    /// sixth holds the bytes of a record.
    pub open spec fn spec_from_accounts(accounts: Seq<Account>) -> Result<
        ExchangeRequest,
        ProcessError,
    > {
        if accounts.len() != EXCHANGE_ACCOUNTS || !distinct_keys(accounts) {
            invalid()
        } else {
            match (
                accounts[2].data,
                accounts[3].data,
                accounts[4].data,
                spec_record_of(accounts[5]),
            ) {
                (
                    AccountData::Token(temp_token),
                    AccountData::Token(initializer_receive),
                    AccountData::Token(taker_receive),
                    Some(escrow),
                ) => Ok(
                    ExchangeRequest {
                        taker: accounts[0].key,
                        taker_signed: accounts[0].is_signer,
                        taker_sending_account: accounts[1].key,
                        temp_token_account: accounts[2].key,
                        temp_token,
                        temp_lamports: accounts[2].lamports,
                        initializer_token_to_receive_account: accounts[3].key,
                        initializer_receive_balance: initializer_receive.amount,
                        taker_token_to_receive_account: accounts[4].key,
                        taker_receive_balance: taker_receive.amount,
                        escrow_account: accounts[5].key,
                        escrow_lamports: accounts[5].lamports,
                        escrow,
                        initializer_main_account: accounts[6].key,
                        initializer_lamports: accounts[6].lamports,
                        token_program: accounts[7].key,
                        authority_account: accounts[8].key,
                    },
                ),
                _ => invalid(),
            }
        }
    }

    /// Gathers the request from the accounts of an Exchange instruction.
    pub fn from_accounts(accounts: &Vec<Account>) -> (r: Result<ExchangeRequest, ProcessError>)
        ensures
            r == ExchangeRequest::spec_from_accounts(accounts@),
    {
        if accounts.len() != EXCHANGE_ACCOUNTS || !has_distinct_keys(accounts) {
            return Err(ProcessError::Escrow(EscrowError::InvalidInstruction));
        }
        let temp_token = match accounts[2].data {
            AccountData::Token(token) => token,
            _ => { return Err(ProcessError::Escrow(EscrowError::InvalidInstruction)); },
        };
        let initializer_receive = match accounts[3].data {
            AccountData::Token(token) => token,
            _ => { return Err(ProcessError::Escrow(EscrowError::InvalidInstruction)); },
        };
        let taker_receive = match accounts[4].data {
            AccountData::Token(token) => token,
            _ => { return Err(ProcessError::Escrow(EscrowError::InvalidInstruction)); },
        };
        let escrow = match record_of(&accounts[5]) {
            Some(escrow) => escrow,
            None => { return Err(ProcessError::Escrow(EscrowError::InvalidInstruction)); },
        };
        Ok(
            ExchangeRequest {
                taker: accounts[0].key,
                taker_signed: accounts[0].is_signer,
                taker_sending_account: accounts[1].key,
                temp_token_account: accounts[2].key,
                temp_token,
                temp_lamports: accounts[2].lamports,
                initializer_token_to_receive_account: accounts[3].key,
                initializer_receive_balance: initializer_receive.amount,
                taker_token_to_receive_account: accounts[4].key,
                taker_receive_balance: taker_receive.amount,
                escrow_account: accounts[5].key,
                escrow_lamports: accounts[5].lamports,
                escrow,
                initializer_main_account: accounts[6].key,
                initializer_lamports: accounts[6].lamports,
                token_program: accounts[7].key,
                authority_account: accounts[8].key,
            },
        )
    }
}

impl InitRequest {
    /// The record that a successful Init persists.
    pub open spec fn spec_record(self, amount: u64) -> Escrow {
        Escrow {
            is_initialized: true,
            initializer_pubkey: self.initializer,
            temp_token_account_pubkey: self.temp_token_account,
            initializer_token_to_receive_account_pubkey: self.token_to_receive_account,
            expected_amount: amount,
        }
    }

    /// What Init decides, with the checks in their order: the initializer
    /// must have signed, the record account must be rent-exempt, and it must
    /// not hold a live record. Then the record is written from the request
    /// and the temporary token account goes from the initializer to
    /// `authority`.
    pub open spec fn spec_init_escrow(self, authority: Identity, amount: u64) -> Result<
        InitOutcome,
        ProcessError,
    > {
        if !self.initializer_signed {
            invalid()
        } else if !self.rent.is_exempt(self.escrow_lamports) {
            Err(ProcessError::Escrow(EscrowError::NotRentExempt))
        } else if self.escrow.is_initialized {
            invalid()
        } else {
            Ok(
                InitOutcome {
                    escrow: self.spec_record(amount),
                    call: TokenCall::SetAuthority {
                        account: self.temp_token_account,
                        new_authority: authority,
                        current_authority: self.initializer,
                    },
                },
            )
        }
    }

    /// Decides an Init instruction that asks `amount` in return. `authority`
    /// is the authority derived for the program.
    pub fn init_escrow(&self, authority: &Identity, amount: u64) -> (r: Result<
        InitOutcome,
        ProcessError,
    >)
        ensures
            r == self.spec_init_escrow(*authority, amount),
    {
        if !self.initializer_signed {
            return Err(ProcessError::Escrow(EscrowError::InvalidInstruction));
        }
        if !self.rent.is_exempt(self.escrow_lamports) {
            return Err(ProcessError::Escrow(EscrowError::NotRentExempt));
        }
        if self.escrow.is_initialized {
            return Err(ProcessError::Escrow(EscrowError::InvalidInstruction));
        }
        Ok(
            InitOutcome {
                escrow: Escrow {
                    is_initialized: true,
                    initializer_pubkey: self.initializer,
                    temp_token_account_pubkey: self.temp_token_account,
                    initializer_token_to_receive_account_pubkey: self.token_to_receive_account,
                    expected_amount: amount,
                },
                call: TokenCall::SetAuthority {
                    account: self.temp_token_account,
                    new_authority: *authority,
                    current_authority: self.initializer,
                },
            },
        )
    }
}

impl ExchangeRequest {
    /// Whether an amount that the exchange credits would leave the range of
    /// `u64`: the deposit on top of the taker's balance, the payment on top
    /// of the initializer's balance, or the native balances of the temporary
    /// token account and the record account on top of the initializer's.
    pub open spec fn spec_overflows(self) -> bool {
        ||| self.temp_token.amount + self.taker_receive_balance > u64::MAX
        ||| self.escrow.expected_amount + self.initializer_receive_balance > u64::MAX
        ||| self.initializer_lamports + self.temp_lamports + self.escrow_lamports > u64::MAX
    }

    /// Whether the accounts are the ones the trade is about: the authority
    /// account is the program's authority and holds the deposit, and the
    /// record names the temporary token account, the initializer and the
    /// initializer's receiving account that the instruction names.
    pub open spec fn spec_accounts_match(self, authority: Identity) -> bool {
        &&& self.authority_account == authority
        &&& self.temp_token.owner == authority
        &&& self.escrow.temp_token_account_pubkey == self.temp_token_account
        &&& self.escrow.initializer_pubkey == self.initializer_main_account
        &&& self.escrow.initializer_token_to_receive_account_pubkey
            == self.initializer_token_to_receive_account
    }

    /// What a successful Exchange does.
    pub open spec fn spec_outcome(self, authority: Identity) -> ExchangeOutcome {
        ExchangeOutcome {
            payment: TokenCall::Transfer {
                source: self.taker_sending_account,
                destination: self.initializer_token_to_receive_account,
                authority: self.taker,
                amount: self.escrow.expected_amount,
            },
            release: TokenCall::Transfer {
                source: self.temp_token_account,
                destination: self.taker_token_to_receive_account,
                authority,
                amount: self.temp_token.amount,
            },
            close: TokenCall::CloseAccount {
                account: self.temp_token_account,
                destination: self.initializer_main_account,
                authority,
            },
            refund: self.escrow_lamports,
        }
    }

    /// What Exchange decides, with the checks in their order: the taker must
    /// have signed, the record must be live, no credited amount may
    /// overflow, the amount delivered must be the amount asked, and the
    /// accounts must be the ones the trade is about.
    pub open spec fn spec_exchange(self, authority: Identity, amount: u64) -> Result<
        ExchangeOutcome,
        ProcessError,
    > {
        if !self.taker_signed {
            invalid()
        } else if !self.escrow.is_initialized {
            invalid()
        } else if self.spec_overflows() {
            Err(ProcessError::Escrow(EscrowError::AmountOverflow))
        } else if amount != self.escrow.expected_amount {
            Err(ProcessError::Escrow(EscrowError::ExpectedAmountMismatch))
        } else if !self.spec_accounts_match(authority) {
            invalid()
        } else {
            Ok(self.spec_outcome(authority))
        }
    }

    fn overflows(&self) -> (b: bool)
        ensures
            b == self.spec_overflows(),
    {
        let deposit = self.temp_token.amount.checked_add(self.taker_receive_balance);
        let payment = self.escrow.expected_amount.checked_add(self.initializer_receive_balance);
        let lamports = match self.initializer_lamports.checked_add(self.temp_lamports) {
            Some(sum) => sum.checked_add(self.escrow_lamports),
            None => None,
        };
        deposit.is_none() || payment.is_none() || lamports.is_none()
    }

    fn accounts_match(&self, authority: &Identity) -> (b: bool)
        ensures
            b == self.spec_accounts_match(*authority),
    {
        self.authority_account == *authority && self.temp_token.owner == *authority
            && self.escrow.temp_token_account_pubkey == self.temp_token_account
            && self.escrow.initializer_pubkey == self.initializer_main_account
            && self.escrow.initializer_token_to_receive_account_pubkey
            == self.initializer_token_to_receive_account
    }

    /// Decides an Exchange instruction that delivers `amount`. `authority`
    /// is the authority derived for the program.
    pub fn exchange(&self, authority: &Identity, amount: u64) -> (r: Result<
        ExchangeOutcome,
        ProcessError,
    >)
        ensures
            r == self.spec_exchange(*authority, amount),
    {
        if !self.taker_signed {
            return Err(ProcessError::Escrow(EscrowError::InvalidInstruction));
        }
        if !self.escrow.is_initialized {
            return Err(ProcessError::Escrow(EscrowError::InvalidInstruction));
        }
        if self.overflows() {
            return Err(ProcessError::Escrow(EscrowError::AmountOverflow));
        }
        if amount != self.escrow.expected_amount {
            return Err(ProcessError::Escrow(EscrowError::ExpectedAmountMismatch));
        }
        if !self.accounts_match(authority) {
            return Err(ProcessError::Escrow(EscrowError::InvalidInstruction));
        }
        Ok(
            ExchangeOutcome {
                payment: TokenCall::Transfer {
                    source: self.taker_sending_account,
                    destination: self.initializer_token_to_receive_account,
                    authority: self.taker,
                    amount: self.escrow.expected_amount,
                },
                release: TokenCall::Transfer {
                    source: self.temp_token_account,
                    destination: self.taker_token_to_receive_account,
                    authority: *authority,
                    amount: self.temp_token.amount,
                },
                close: TokenCall::CloseAccount {
                    account: self.temp_token_account,
                    destination: self.initializer_main_account,
                    authority: *authority,
                },
                refund: self.escrow_lamports,
            },
        )
    }
}

/// The accounts of an Exchange once the three calls are through: the
/// record account's native balance goes to the initializer and the record
/// is zeroed.
pub open spec fn spec_close_record(accounts: Seq<Account>, refund: u64) -> Seq<Account> {
    accounts.update(6, accounts[6].with_lamports((accounts[6].lamports + refund) as u64)).update(
        5,
        accounts[5].with_lamports(0).with_data(record_data(Seq::new(105, |i: int| 0u8))),
    )
}

/// What Init does to its accounts: the request is gathered and decided, the
/// token ledger changes the authority, and the record is written.
pub open spec fn spec_process_init_escrow(
    authority: Identity,
    accounts: Seq<Account>,
    amount: u64,
) -> Result<Seq<Account>, ProcessError> {
    match InitRequest::spec_from_accounts(accounts) {
        Err(e) => Err(e),
        Ok(request) => match request.spec_init_escrow(authority, amount) {
            Err(e) => Err(e),
            Ok(outcome) => match spec_execute(accounts, outcome.call, None) {
                Err(e) => Err(ProcessError::Ledger(e)),
                Ok(post) => Ok(
                    post.update(3, post[3].with_data(record_data(outcome.escrow.spec_pack()))),
                ),
            },
        },
    }
}

/// What the three calls of an Exchange do to the accounts: the payment on
/// the taker's signature, then the release and the closing on the program's.
/// The first call that the token ledger refuses ends the chain.
pub open spec fn spec_exchange_calls(
    authority: Identity,
    accounts: Seq<Account>,
    outcome: ExchangeOutcome,
) -> Result<Seq<Account>, LedgerError> {
    match spec_execute(accounts, outcome.payment, None) {
        Err(e) => Err(e),
        Ok(paid) => match spec_execute(paid, outcome.release, Some(authority)) {
            Err(e) => Err(e),
            Ok(released) => spec_execute(released, outcome.close, Some(authority)),
        },
    }
}

/// What Exchange does to its accounts: the request is gathered and decided,
/// the token ledger performs the three calls, and the record is closed.
pub open spec fn spec_process_exchange(
    authority: Identity,
    accounts: Seq<Account>,
    amount: u64,
) -> Result<Seq<Account>, ProcessError> {
    match ExchangeRequest::spec_from_accounts(accounts) {
        Err(e) => Err(e),
        Ok(request) => match request.spec_exchange(authority, amount) {
            Err(e) => Err(e),
            Ok(outcome) => match spec_exchange_calls(authority, accounts, outcome) {
                Err(e) => Err(ProcessError::Ledger(e)),
                Ok(closed) => Ok(spec_close_record(closed, outcome.refund)),
            },
        },
    }
}

/// What a decoded instruction does to its accounts.
pub open spec fn spec_process_instruction(
    authority: Identity,
    accounts: Seq<Account>,
    instruction: EscrowInstruction,
) -> Result<Seq<Account>, ProcessError> {
    match instruction {
        EscrowInstruction::InitEscrow { amount } => spec_process_init_escrow(
            authority,
            accounts,
            amount,
        ),
        EscrowInstruction::Exchange { amount } => spec_process_exchange(authority, accounts, amount),
    }
}

/// What an instruction does to its accounts: its bytes are decoded, the
/// program's authority is derived, and the operation runs. An instruction to
/// a program for which no authority can be derived is invalid.
pub open spec fn spec_process(program_id: Identity, accounts: Seq<Account>, data: Seq<u8>) -> Result<
    Seq<Account>,
    ProcessError,
> {
    match EscrowInstruction::spec_unpack(data) {
        Err(e) => Err(ProcessError::Escrow(e)),
        Ok(instruction) => match escrow_authority(program_id) {
            Some(authority) => spec_process_instruction(authority, accounts, instruction),
            None => invalid(),
        },
    }
}

/// How what an instruction does shows in the accounts afterwards and in the
/// result: an instruction that fails leaves every account as it was.
pub open spec fn transition_is(
    expected: Result<Seq<Account>, ProcessError>,
    pre: Seq<Account>,
    post: Seq<Account>,
    r: Result<(), ProcessError>,
) -> bool {
    match expected {
        Ok(accounts) => r is Ok && post == accounts,
        Err(e) => r == Err::<(), ProcessError>(e) && post == pre,
    }
}

fn snapshot(accounts: &Vec<Account>) -> (copy: Vec<Account>)
    ensures
        copy@ == accounts@,
{
    let mut copy: Vec<Account> = Vec::new();
    let mut i: usize = 0;
    while i < accounts.len()
        invariant
            0 <= i <= accounts@.len(),
            copy@ == accounts@.take(i as int),
        decreases accounts@.len() - i,
    {
        copy.push(accounts[i]);
        assert(copy@ =~= accounts@.take(i + 1));
        i += 1;
    }
    assert(accounts@.take(i as int) =~= accounts@);
    copy
}

/// Runs an Init instruction that asks `amount` in return on its accounts.
/// `authority` is the authority derived for the program.
pub fn process_init_escrow(authority: &Identity, accounts: &mut Vec<Account>, amount: u64) -> (r:
    Result<(), ProcessError>)
    ensures
        transition_is(
            spec_process_init_escrow(*authority, old(accounts)@, amount),
            old(accounts)@,
            final(accounts)@,
            r,
        ),
{
    let request = match InitRequest::from_accounts(accounts) {
        Ok(request) => request,
        Err(e) => { return Err(e); },
    };
    let outcome = match request.init_escrow(authority, amount) {
        Ok(outcome) => outcome,
        Err(e) => { return Err(e); },
    };
    match execute(accounts, &outcome.call, &None) {
        Ok(()) => {},
        Err(e) => { return Err(ProcessError::Ledger(e)); },
    }
    let bytes = outcome.escrow.pack();
    proof {
        lemma_execute_keeps_keys(old(accounts)@, outcome.call, None);
        lemma_record_data(bytes);
    }
    let record_account = Account { data: AccountData::Record(bytes), ..accounts[3] };
    accounts[3] = record_account;
    Ok(())
}

fn exchange_calls(accounts: &mut Vec<Account>, outcome: &ExchangeOutcome, authority: &Identity) -> (r:
    Result<(), LedgerError>)
    ensures
        match spec_exchange_calls(*authority, old(accounts)@, *outcome) {
            Ok(closed) => r is Ok && final(accounts)@ == closed,
            Err(e) => r == Err::<(), LedgerError>(e),
        },
{
    let by_program = Some(*authority);
    match execute(accounts, &outcome.payment, &None) {
        Ok(()) => {},
        Err(e) => { return Err(e); },
    }
    match execute(accounts, &outcome.release, &by_program) {
        Ok(()) => {},
        Err(e) => { return Err(e); },
    }
    execute(accounts, &outcome.close, &by_program)
}

/// Runs an Exchange instruction that delivers `amount` on its accounts.
/// `authority` is the authority derived for the program.
pub fn process_exchange(authority: &Identity, accounts: &mut Vec<Account>, amount: u64) -> (r: Result<
    (),
    ProcessError,
>)
    ensures
        transition_is(
            spec_process_exchange(*authority, old(accounts)@, amount),
            old(accounts)@,
            final(accounts)@,
            r,
        ),
{
    let request = match ExchangeRequest::from_accounts(accounts) {
        Ok(request) => request,
        Err(e) => { return Err(e); },
    };
    let outcome = match request.exchange(authority, amount) {
        Ok(outcome) => outcome,
        Err(e) => { return Err(e); },
    };
    let mut work = snapshot(accounts);
    match exchange_calls(&mut work, &outcome, authority) {
        Ok(()) => {},
        Err(e) => { return Err(ProcessError::Ledger(e)); },
    }
    proof {
        lemma_exchange_effects(*authority, accounts@, amount);
    }
    let zeroed = [0u8; 105];
    proof {
        lemma_record_data(zeroed);
        assert(zeroed@ =~= Seq::new(105, |i: int| 0u8));
    }
    let initializer = Account { lamports: work[6].lamports + outcome.refund, ..work[6] };
    let record_account = Account { lamports: 0, data: AccountData::Record(zeroed), ..work[5] };
    work[6] = initializer;
    work[5] = record_account;
    *accounts = work;
    Ok(())
}

/// Runs a decoded instruction on its accounts. `authority` is the authority
/// derived for the program.
pub fn process_instruction(
    authority: &Identity,
    accounts: &mut Vec<Account>,
    instruction: &EscrowInstruction,
) -> (r: Result<(), ProcessError>)
    ensures
        transition_is(
            spec_process_instruction(*authority, old(accounts)@, *instruction),
            old(accounts)@,
            final(accounts)@,
            r,
        ),
{
    match instruction {
        EscrowInstruction::InitEscrow { amount } => process_init_escrow(authority, accounts, *amount),
        EscrowInstruction::Exchange { amount } => process_exchange(authority, accounts, *amount),
    }
}

/// Runs an instruction of the program `program_id` on the accounts that it
/// names, in their required order. Either the whole instruction applies or
/// no account changes.
pub fn process(program_id: &Identity, accounts: &mut Vec<Account>, instruction_data: &[u8]) -> (r:
    Result<(), ProcessError>)
    ensures
        transition_is(
            spec_process(*program_id, old(accounts)@, instruction_data@),
            old(accounts)@,
            final(accounts)@,
            r,
        ),
{
    let instruction = match EscrowInstruction::unpack(instruction_data) {
        Ok(instruction) => instruction,
        Err(e) => { return Err(ProcessError::Escrow(e)); },
    };
    match derive_authority(program_id) {
        Some((authority, _)) => process_instruction(&authority, accounts, &instruction),
        None => Err(ProcessError::Escrow(EscrowError::InvalidInstruction)),
    }
}

} // verus!

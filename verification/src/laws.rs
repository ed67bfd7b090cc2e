//! What holds of every instruction, proved from the processor's definitions.

use crate::account::{
    distinct_keys, lemma_find, lemma_record_data_bytes, record_data, Account, AccountData,
    TokenAccount,
};
use crate::effects::{lemma_exchange_effects, lemma_init_effects, spec_exchanged};
use crate::error::EscrowError;
use crate::identity::{escrow_authority, Identity};
use crate::instruction::EscrowInstruction;
use crate::ledger::{spec_execute, spec_signed, spec_token_at, LedgerError, TokenCall};
use crate::processor::{
    invalid, spec_process, spec_process_exchange, spec_process_init_escrow,
    spec_process_instruction, spec_record_of, transition_is, ExchangeRequest, InitRequest,
    ProcessError,
};
use crate::state::Escrow;
use vstd::prelude::*;

verus! {

/// Whether two accounts are the same but for who signed.
pub open spec fn same_account(a: Account, b: Account) -> bool {
    a.key == b.key && a.lamports == b.lamports && a.data == b.data
}

/// Every Init that goes through leaves a live record that names the
/// initializer, the temporary token account and the receiving account of the
/// instruction and asks the instruction's amount; the temporary token
/// account is then under the authority derived for the program, with its
/// balance untouched; and no other account has changed.
pub proof fn law_init_records_trade(program_id: Identity, accounts: Seq<Account>, amount: u64)
    requires
        spec_process(
            program_id,
            accounts,
            (EscrowInstruction::InitEscrow { amount }).spec_pack(),
        ) is Ok,
    ensures
        ({
            let post = spec_process(
                program_id,
                accounts,
                (EscrowInstruction::InitEscrow { amount }).spec_pack(),
            )->Ok_0;
            &&& post.len() == 6
            &&& spec_record_of(post[3]) == Some(
                Escrow {
                    is_initialized: true,
                    initializer_pubkey: accounts[0].key,
                    temp_token_account_pubkey: accounts[1].key,
                    initializer_token_to_receive_account_pubkey: accounts[2].key,
                    expected_amount: amount,
                },
            )
            &&& post[3].key == accounts[3].key && post[3].lamports == accounts[3].lamports
            &&& accounts[1].spec_token() is Some
            &&& post[1] == accounts[1].with_token(
                TokenAccount {
                    owner: escrow_authority(program_id)->Some_0,
                    ..accounts[1].spec_token()->Some_0
                },
            )
            &&& escrow_authority(program_id) is Some
            &&& post[0] == accounts[0] && post[2] == accounts[2] && post[4] == accounts[4]
                && post[5] == accounts[5]
        }),
{
    let instruction = EscrowInstruction::InitEscrow { amount };
    instruction.lemma_unpack_pack();
    let authority = escrow_authority(program_id)->Some_0;
    lemma_init_effects(authority, accounts, amount);
    let request = InitRequest::spec_from_accounts(accounts)->Ok_0;
    let record = request.spec_record(amount);
    record.lemma_unpack_pack();
    lemma_record_data_bytes(record.spec_pack());
}

/// An Exchange that delivers another amount than the record asks fails with
/// `ExpectedAmountMismatch`, and no account changes. This holds of every
/// Exchange that gets as far as the comparison: its account list is well
/// formed, the taker has signed, the record is live and no credited amount
/// overflows.
pub proof fn law_exchange_amount_mismatch(authority: Identity, accounts: Seq<Account>, amount: u64)
    requires
        ExchangeRequest::spec_from_accounts(accounts) is Ok,
        ExchangeRequest::spec_from_accounts(accounts)->Ok_0.taker_signed,
        ExchangeRequest::spec_from_accounts(accounts)->Ok_0.escrow.is_initialized,
        !ExchangeRequest::spec_from_accounts(accounts)->Ok_0.spec_overflows(),
        amount != ExchangeRequest::spec_from_accounts(accounts)->Ok_0.escrow.expected_amount,
    ensures
        spec_process_exchange(authority, accounts, amount) == Err::<Seq<Account>, ProcessError>(
            ProcessError::Escrow(EscrowError::ExpectedAmountMismatch),
        ),
        forall|post: Seq<Account>, r: Result<(), ProcessError>|
            transition_is(spec_process_exchange(authority, accounts, amount), accounts, post, r)
                ==> post == accounts,
{
}

/// Whoever the taker is, an Exchange that the program accepts and that the
/// token ledger has no other objection to goes through if and only if the
/// paying token account is the taker's own; where it is not, the ledger
/// refuses with `OwnerMismatch`. The program's own checks never ask who the
/// taker is.
pub proof fn law_exchange_any_signer(
    authority: Identity,
    accounts: Seq<Account>,
    amount: u64,
    other: Identity,
)
    requires
        ExchangeRequest::spec_from_accounts(accounts) is Ok,
        ExchangeRequest::spec_from_accounts(accounts)->Ok_0.spec_exchange(authority, amount) is Ok,
        accounts[1].spec_token() is Some,
        accounts[1].spec_token()->Some_0.amount >= amount,
        accounts[1].spec_token()->Some_0.mint == accounts[3].spec_token()->Some_0.mint,
        accounts[2].spec_token()->Some_0.mint == accounts[4].spec_token()->Some_0.mint,
    ensures
        spec_process_exchange(authority, accounts, amount) is Ok <==> accounts[1].spec_token()->Some_0.owner
            == accounts[0].key,
        accounts[1].spec_token()->Some_0.owner == accounts[0].key ==> spec_process_exchange(
            authority,
            accounts,
            amount,
        ) == Ok::<Seq<Account>, ProcessError>(spec_exchanged(accounts)),
        accounts[1].spec_token()->Some_0.owner != accounts[0].key ==> spec_process_exchange(
            authority,
            accounts,
            amount,
        ) == Err::<Seq<Account>, ProcessError>(ProcessError::Ledger(LedgerError::OwnerMismatch)),
        (ExchangeRequest {
            taker: other,
            ..ExchangeRequest::spec_from_accounts(accounts)->Ok_0
        }).spec_exchange(authority, amount) is Ok,
{
    lemma_exchange_effects(authority, accounts, amount);
}

/// Init followed by Exchange with the amount asked. Let the Exchange name
/// the accounts of the trade as Init left them, the receiving accounts be
/// token accounts, the taker have signed and own a paying account that
/// holds the payment, and the tokens match. Then, unless a credited amount
/// would overflow, the Exchange goes through: the initializer's receiving
/// account has grown by the amount asked and the taker's by the whole
/// deposit, the paying account has shrunk by the payment, the temporary
/// token account is closed and the record zeroed, and the native balances
/// of both are with the initializer.
pub proof fn law_round_trip(
    authority: Identity,
    init_accounts: Seq<Account>,
    amount: u64,
    accounts: Seq<Account>,
)
    requires
        spec_process_init_escrow(authority, init_accounts, amount) is Ok,
        accounts.len() == 9,
        distinct_keys(accounts),
        same_account(accounts[2], spec_process_init_escrow(authority, init_accounts, amount)->Ok_0[1]),
        same_account(accounts[3], spec_process_init_escrow(authority, init_accounts, amount)->Ok_0[2]),
        same_account(accounts[5], spec_process_init_escrow(authority, init_accounts, amount)->Ok_0[3]),
        accounts[6].key == init_accounts[0].key,
        accounts[8].key == authority,
        accounts[0].is_signer,
        accounts[1].spec_token() is Some,
        accounts[3].spec_token() is Some,
        accounts[4].spec_token() is Some,
        accounts[1].spec_token()->Some_0.owner == accounts[0].key,
        accounts[1].spec_token()->Some_0.amount >= amount,
        accounts[1].spec_token()->Some_0.mint == accounts[3].spec_token()->Some_0.mint,
        accounts[2].spec_token()->Some_0.mint == accounts[4].spec_token()->Some_0.mint,
        !ExchangeRequest::spec_from_accounts(accounts)->Ok_0.spec_overflows(),
    ensures
        spec_process_exchange(authority, accounts, amount) is Ok,
        ({
            let post = spec_process_exchange(authority, accounts, amount)->Ok_0;
            let deposit = accounts[2].spec_token()->Some_0;
            &&& post.len() == 9
            &&& post[3].spec_token()->Some_0.amount == accounts[3].spec_token()->Some_0.amount
                + amount
            &&& post[4].spec_token()->Some_0.amount == accounts[4].spec_token()->Some_0.amount
                + deposit.amount
            &&& post[1].spec_token()->Some_0.amount == accounts[1].spec_token()->Some_0.amount
                - amount
            &&& post[2].data == AccountData::Empty && post[2].lamports == 0
            &&& post[5].lamports == 0
            &&& spec_record_of(post[5]) is Some && spec_record_of(post[5])->Some_0.is_zeroed()
            &&& post[6].lamports == accounts[6].lamports + accounts[2].lamports
                + accounts[5].lamports
            &&& post == spec_exchanged(accounts)
        }),
{
    let after_init = spec_process_init_escrow(authority, init_accounts, amount)->Ok_0;
    lemma_init_effects(authority, init_accounts, amount);
    let request = InitRequest::spec_from_accounts(init_accounts)->Ok_0;
    let record = request.spec_record(amount);
    record.lemma_unpack_pack();
    lemma_record_data_bytes(record.spec_pack());
    assert(spec_record_of(accounts[5]) == Some(record));
    lemma_exchange_effects(authority, accounts, amount);
    lemma_zeroed_record();
}

/// The bytes that close a record persist a zeroed record.
pub proof fn lemma_zeroed_record()
    ensures
        record_data(Seq::new(105, |i: int| 0u8)) matches AccountData::Record(bytes)
            && Escrow::spec_unpack_unchecked(bytes@) matches Some(escrow) && escrow.is_zeroed(),
{
    let zeros = Seq::new(105, |i: int| 0u8);
    lemma_record_data_bytes(zeros);
    let escrow = Escrow::spec_unpack_unchecked(zeros)->Some_0;
    let a = escrow.initializer_pubkey;
    let b = escrow.temp_token_account_pubkey;
    let c = escrow.initializer_token_to_receive_account_pubkey;
    Identity::lemma_from_view(zeros.subrange(1, 33));
    Identity::lemma_from_view(zeros.subrange(33, 65));
    Identity::lemma_from_view(zeros.subrange(65, 97));
    assert(a@ == zeros.subrange(1, 33));
    assert(b@ == zeros.subrange(33, 65));
    assert(c@ == zeros.subrange(65, 97));
}

/// An Exchange that went through cannot be replayed: run again on the
/// accounts that it left, the same instruction is invalid, and nothing is
/// spent twice.
pub proof fn law_exchange_replay_fails(program_id: Identity, accounts: Seq<Account>, amount: u64)
    requires
        spec_process(
            program_id,
            accounts,
            (EscrowInstruction::Exchange { amount }).spec_pack(),
        ) is Ok,
    ensures
        spec_process(
            program_id,
            spec_process(
                program_id,
                accounts,
                (EscrowInstruction::Exchange { amount }).spec_pack(),
            )->Ok_0,
            (EscrowInstruction::Exchange { amount }).spec_pack(),
        ) == invalid::<Seq<Account>>(),
{
    let instruction = EscrowInstruction::Exchange { amount };
    instruction.lemma_unpack_pack();
    let authority = escrow_authority(program_id)->Some_0;
    lemma_exchange_effects(authority, accounts, amount);
}

/// An Exchange never wraps an amount: where the deposit on top of the
/// taker's balance, the payment on top of the initializer's, or the native
/// balances on top of the initializer's would leave the range of `u64`, it
/// fails with `AmountOverflow`. So it does for a deposit, or an amount
/// asked, of `u64::MAX` that meets a balance that is not zero. This holds
/// of every Exchange with a well-formed account list, the taker's signature
/// and a live record.
pub proof fn law_exchange_overflow(authority: Identity, accounts: Seq<Account>, amount: u64)
    requires
        ExchangeRequest::spec_from_accounts(accounts) is Ok,
        ExchangeRequest::spec_from_accounts(accounts)->Ok_0.taker_signed,
        ExchangeRequest::spec_from_accounts(accounts)->Ok_0.escrow.is_initialized,
    ensures
        ({
            let request = ExchangeRequest::spec_from_accounts(accounts)->Ok_0;
            &&& request.spec_overflows() ==> spec_process_exchange(authority, accounts, amount)
                == Err::<Seq<Account>, ProcessError>(
                ProcessError::Escrow(EscrowError::AmountOverflow),
            )
            &&& request.temp_token.amount == u64::MAX && request.taker_receive_balance > 0
                ==> request.spec_overflows()
            &&& request.escrow.expected_amount == u64::MAX && request.initializer_receive_balance
                > 0 ==> request.spec_overflows()
            &&& spec_process_exchange(authority, accounts, amount) is Ok
                ==> !request.spec_overflows()
        }),
{
}

/// A live record is never rewritten: an instruction that goes through on a
/// live record is an Exchange, and it leaves the record zeroed. An Init goes
/// through only on a record that is not live, and leaves it live.
pub proof fn law_record_lifecycle(
    authority: Identity,
    accounts: Seq<Account>,
    instruction: EscrowInstruction,
)
    requires
        spec_process_instruction(authority, accounts, instruction) is Ok,
    ensures
        ({
            let post = spec_process_instruction(authority, accounts, instruction)->Ok_0;
            match instruction {
                EscrowInstruction::InitEscrow { amount } => {
                    &&& spec_record_of(accounts[3]) matches Some(before) && !before.is_initialized
                    &&& spec_record_of(post[3]) matches Some(after) && after.is_initialized
                        && after.expected_amount == amount && after.wf()
                },
                EscrowInstruction::Exchange { amount } => {
                    &&& spec_record_of(accounts[5]) matches Some(before) && before.is_initialized
                        && before.expected_amount == amount
                    &&& spec_record_of(post[5]) matches Some(after) && after.is_zeroed()
                        && after.wf()
                },
            }
        }),
{
    match instruction {
        EscrowInstruction::InitEscrow { amount } => {
            lemma_init_effects(authority, accounts, amount);
            let request = InitRequest::spec_from_accounts(accounts)->Ok_0;
            let record = request.spec_record(amount);
            record.lemma_unpack_pack();
            lemma_record_data_bytes(record.spec_pack());
        },
        EscrowInstruction::Exchange { amount } => {
            lemma_exchange_effects(authority, accounts, amount);
            lemma_zeroed_record();
        },
    }
}

/// Tokens move on their authority's signature only. Whatever the call, a
/// token account whose authority has not signed comes out of it under the
/// same authority, of the same token, and with no less than it held, in
/// tokens and in native balance. A deposit under the program's authority is
/// therefore out of every wallet's reach: the program alone signs for it.
pub proof fn law_tokens_move_on_authority_only(
    accounts: Seq<Account>,
    call: TokenCall,
    program_signer: Option<Identity>,
    key: Identity,
)
    requires
        spec_token_at(accounts, key) is Some,
        !spec_signed(accounts, spec_token_at(accounts, key)->Some_0.1.owner, program_signer),
        spec_execute(accounts, call, program_signer) is Ok,
    ensures
        ({
            let (i, before) = spec_token_at(accounts, key)->Some_0;
            let post = spec_execute(accounts, call, program_signer)->Ok_0;
            &&& post[i].spec_token() matches Some(after) && after.owner == before.owner
                && after.mint == before.mint && after.amount >= before.amount
            &&& post[i].lamports >= accounts[i].lamports
        }),
{
    lemma_find(accounts, key);
    match call {
        TokenCall::Transfer { source, destination, .. } => {
            lemma_find(accounts, source);
            lemma_find(accounts, destination);
        },
        TokenCall::SetAuthority { account, .. } => {
            lemma_find(accounts, account);
        },
        TokenCall::CloseAccount { account, destination, .. } => {
            lemma_find(accounts, account);
            lemma_find(accounts, destination);
        },
    }
}

} // verus!

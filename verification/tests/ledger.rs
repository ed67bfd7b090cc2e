use escrow::account::{find, has_distinct_keys, Account, AccountData, Rent, TokenAccount};
use escrow::identity::Identity;
use escrow::ledger::{close_account, execute, set_authority, transfer, LedgerError, TokenCall};

fn id(n: u8) -> Identity {
    Identity::new([n; 32])
}

fn wallet(n: u8, signed: bool) -> Account {
    Account { key: id(n), is_signer: signed, lamports: 1_000, data: AccountData::Empty }
}

fn token(n: u8, mint: u8, owner: u8, amount: u64) -> Account {
    Account {
        key: id(n),
        is_signer: false,
        lamports: 2_000,
        data: AccountData::Token(TokenAccount { mint: id(mint), owner: id(owner), amount }),
    }
}

fn amount_of(account: &Account) -> u64 {
    account.token().unwrap().amount
}

// A signer 1 with a token account 10; a second holder 2 with a token account 20
// of the same token; a token account 30 of another token.
fn sample() -> Vec<Account> {
    vec![
        wallet(1, true),
        wallet(2, false),
        token(10, 100, 1, 500),
        token(20, 100, 2, 7),
        token(30, 101, 1, 0),
    ]
}

#[test]
fn find_gives_the_first_position() {
    let accounts = sample();
    assert_eq!(find(&accounts, &id(1)), Some(0));
    assert_eq!(find(&accounts, &id(30)), Some(4));
    assert_eq!(find(&accounts, &id(99)), None);
    let mut twice = sample();
    twice.push(wallet(2, true));
    assert_eq!(find(&twice, &id(2)), Some(1));
    assert_eq!(find(&Vec::new(), &id(1)), None);
}

#[test]
fn distinct_keys_are_detected() {
    assert!(has_distinct_keys(&sample()));
    assert!(has_distinct_keys(&Vec::new()));
    let mut twice = sample();
    twice.push(wallet(10, false));
    assert!(!has_distinct_keys(&twice));
    assert!(!has_distinct_keys(&vec![wallet(1, true), wallet(1, true)]));
}

#[test]
fn token_balance_of_an_account() {
    let accounts = sample();
    assert_eq!(accounts[0].token(), None);
    assert_eq!(accounts[2].token(), Some(TokenAccount { mint: id(100), owner: id(1), amount: 500 }));
}

#[test]
fn rent_exemption_is_at_the_minimum() {
    let rent = Rent { minimum_balance: 1_621_680 };
    assert!(rent.is_exempt(1_621_680));
    assert!(rent.is_exempt(u64::MAX));
    assert!(!rent.is_exempt(1_621_679));
    assert!(Rent { minimum_balance: 0 }.is_exempt(0));
}

#[test]
fn transfer_moves_the_amount() {
    let mut accounts = sample();
    assert_eq!(transfer(&mut accounts, &id(10), &id(20), &id(1), 200, &None), Ok(()));
    assert_eq!(amount_of(&accounts[2]), 300);
    assert_eq!(amount_of(&accounts[3]), 207);
    let mut expected = sample();
    expected[2] = token(10, 100, 1, 300);
    expected[3] = token(20, 100, 2, 207);
    assert_eq!(accounts, expected);
}

#[test]
fn transfer_of_everything_and_of_nothing() {
    let mut accounts = sample();
    assert_eq!(transfer(&mut accounts, &id(10), &id(20), &id(1), 500, &None), Ok(()));
    assert_eq!(amount_of(&accounts[2]), 0);
    assert_eq!(amount_of(&accounts[3]), 507);
    assert_eq!(transfer(&mut accounts, &id(10), &id(20), &id(1), 0, &None), Ok(()));
    assert_eq!(amount_of(&accounts[3]), 507);
}

#[test]
fn transfer_to_itself_changes_nothing() {
    let mut accounts = sample();
    assert_eq!(transfer(&mut accounts, &id(10), &id(10), &id(1), 500, &None), Ok(()));
    assert_eq!(accounts, sample());
}

#[test]
fn transfer_refusals() {
    let mut accounts = sample();
    assert_eq!(
        transfer(&mut accounts, &id(10), &id(20), &id(1), 501, &None),
        Err(LedgerError::InsufficientFunds)
    );
    assert_eq!(
        transfer(&mut accounts, &id(10), &id(30), &id(1), 1, &None),
        Err(LedgerError::MintMismatch)
    );
    assert_eq!(
        transfer(&mut accounts, &id(10), &id(20), &id(2), 1, &None),
        Err(LedgerError::OwnerMismatch)
    );
    assert_eq!(
        transfer(&mut accounts, &id(20), &id(10), &id(2), 1, &None),
        Err(LedgerError::MissingSignature)
    );
    assert_eq!(
        transfer(&mut accounts, &id(99), &id(20), &id(1), 1, &None),
        Err(LedgerError::InvalidAccount)
    );
    assert_eq!(
        transfer(&mut accounts, &id(10), &id(1), &id(1), 1, &None),
        Err(LedgerError::InvalidAccount)
    );
    assert_eq!(accounts, sample());
}

#[test]
fn transfer_refuses_overflow() {
    let mut accounts = sample();
    accounts[3] = token(20, 100, 2, u64::MAX - 499);
    let before = accounts.clone();
    assert_eq!(
        transfer(&mut accounts, &id(10), &id(20), &id(1), 500, &None),
        Err(LedgerError::Overflow)
    );
    assert_eq!(accounts, before);
    assert_eq!(transfer(&mut accounts, &id(10), &id(20), &id(1), 499, &None), Ok(()));
    assert_eq!(amount_of(&accounts[3]), u64::MAX);
}

#[test]
fn program_signs_for_its_authority_only() {
    let mut accounts = sample();
    accounts[2] = token(10, 100, 50, 500);
    assert_eq!(
        transfer(&mut accounts, &id(10), &id(20), &id(50), 1, &None),
        Err(LedgerError::MissingSignature)
    );
    assert_eq!(
        transfer(&mut accounts, &id(10), &id(20), &id(50), 1, &Some(id(51))),
        Err(LedgerError::MissingSignature)
    );
    assert_eq!(transfer(&mut accounts, &id(10), &id(20), &id(50), 1, &Some(id(50))), Ok(()));
    assert_eq!(amount_of(&accounts[2]), 499);
}

#[test]
fn set_authority_changes_the_owner_only() {
    let mut accounts = sample();
    assert_eq!(set_authority(&mut accounts, &id(10), &id(50), &id(1), &None), Ok(()));
    let mut expected = sample();
    expected[2] = token(10, 100, 50, 500);
    assert_eq!(accounts, expected);
    assert_eq!(
        transfer(&mut accounts, &id(10), &id(20), &id(1), 1, &None),
        Err(LedgerError::OwnerMismatch)
    );
}

#[test]
fn set_authority_refusals() {
    let mut accounts = sample();
    assert_eq!(
        set_authority(&mut accounts, &id(10), &id(50), &id(2), &None),
        Err(LedgerError::OwnerMismatch)
    );
    assert_eq!(
        set_authority(&mut accounts, &id(20), &id(50), &id(2), &None),
        Err(LedgerError::MissingSignature)
    );
    assert_eq!(
        set_authority(&mut accounts, &id(1), &id(50), &id(1), &None),
        Err(LedgerError::InvalidAccount)
    );
    assert_eq!(
        set_authority(&mut accounts, &id(99), &id(50), &id(1), &None),
        Err(LedgerError::InvalidAccount)
    );
    assert_eq!(accounts, sample());
}

#[test]
fn close_account_hands_over_the_native_balance() {
    let mut accounts = sample();
    assert_eq!(close_account(&mut accounts, &id(30), &id(2), &id(1), &None), Ok(()));
    assert_eq!(accounts[4], Account { key: id(30), is_signer: false, lamports: 0, data: AccountData::Empty });
    assert_eq!(accounts[1].lamports, 3_000);
    assert_eq!(accounts[0], sample()[0]);
}

#[test]
fn close_account_refusals() {
    let mut accounts = sample();
    assert_eq!(
        close_account(&mut accounts, &id(10), &id(2), &id(1), &None),
        Err(LedgerError::NonZeroBalance)
    );
    assert_eq!(
        close_account(&mut accounts, &id(30), &id(30), &id(1), &None),
        Err(LedgerError::InvalidAccount)
    );
    assert_eq!(
        close_account(&mut accounts, &id(30), &id(99), &id(1), &None),
        Err(LedgerError::InvalidAccount)
    );
    assert_eq!(
        close_account(&mut accounts, &id(30), &id(2), &id(2), &None),
        Err(LedgerError::OwnerMismatch)
    );
    accounts[0].is_signer = false;
    assert_eq!(
        close_account(&mut accounts, &id(30), &id(2), &id(1), &None),
        Err(LedgerError::MissingSignature)
    );
    accounts[0].is_signer = true;
    accounts[1].lamports = u64::MAX - 1_999;
    assert_eq!(
        close_account(&mut accounts, &id(30), &id(2), &id(1), &None),
        Err(LedgerError::Overflow)
    );
    accounts[1].lamports = 1_000;
    assert_eq!(accounts, sample());
}

#[test]
fn execute_runs_each_call() {
    let mut accounts = sample();
    let pay = TokenCall::Transfer { source: id(10), destination: id(20), authority: id(1), amount: 500 };
    assert_eq!(execute(&mut accounts, &pay, &None), Ok(()));
    assert_eq!(amount_of(&accounts[3]), 507);
    let hand = TokenCall::SetAuthority { account: id(10), new_authority: id(50), current_authority: id(1) };
    assert_eq!(execute(&mut accounts, &hand, &None), Ok(()));
    assert_eq!(accounts[2].token().unwrap().owner, id(50));
    let close = TokenCall::CloseAccount { account: id(10), destination: id(1), authority: id(50) };
    assert_eq!(execute(&mut accounts, &close, &None), Err(LedgerError::MissingSignature));
    assert_eq!(execute(&mut accounts, &close, &Some(id(50))), Ok(()));
    assert_eq!(accounts[2].data, AccountData::Empty);
    assert_eq!(accounts[0].lamports, 3_000);
}

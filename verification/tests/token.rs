use erc20::AccountId;
use erc20::Approval;
use erc20::Balance;
use erc20::Erc20;
use erc20::Error;
use erc20::Event;
use erc20::Transfer;

fn account(byte: u8) -> AccountId {
    AccountId::from([byte; 32])
}

/// The sum of what the given accounts hold.
fn held_by(token: &Erc20, accounts: &[AccountId]) -> Balance {
    accounts.iter().map(|a| token.balance_of(*a)).sum()
}

#[test]
fn construction_credits_the_deployer_with_the_whole_supply() {
    let deployer = account(1);
    let token = Erc20::new(deployer, 100);
    assert_eq!(token.total_supply(), 100);
    assert_eq!(token.balance_of(deployer), 100);
    assert_eq!(token.balance_of(account(2)), 0);
    assert_eq!(token.balance_of(account(0)), 0);
    assert_eq!(token.balance_of(account(255)), 0);
    assert_eq!(token.allowance(deployer, account(2)), 0);
    assert_eq!(token.allowance(account(2), deployer), 0);
}

#[test]
fn construction_announces_the_supply_as_a_transfer_from_nobody() {
    let deployer = account(1);
    let token = Erc20::new(deployer, 100);
    assert_eq!(
        token.events(),
        &vec![Event::Transfer(Transfer { from: None, to: Some(deployer), value: 100 })]
    );
}

#[test]
fn construction_with_zero_supply() {
    let deployer = account(1);
    let mut token = Erc20::new(deployer, 0);
    assert_eq!(token.total_supply(), 0);
    assert_eq!(token.balance_of(deployer), 0);
    assert_eq!(token.transfer(deployer, account(2), 0), Ok(()));
    assert_eq!(token.transfer(deployer, account(2), 1), Err(Error::InsufficientBalance));
}

#[test]
fn transfer_moves_value_to_the_receiver() {
    let deployer = account(1);
    let b = account(2);
    let mut token = Erc20::new(deployer, 100);
    assert_eq!(token.transfer(deployer, b, 10), Ok(()));
    assert_eq!(token.balance_of(deployer), 90);
    assert_eq!(token.balance_of(b), 10);
    assert_eq!(token.total_supply(), 100);
}

#[test]
fn transfer_of_more_than_the_balance_is_rejected() {
    let deployer = account(1);
    let b = account(2);
    let mut token = Erc20::new(deployer, 100);
    assert_eq!(token.transfer(deployer, b, 150), Err(Error::InsufficientBalance));
    assert_eq!(token.balance_of(deployer), 100);
    assert_eq!(token.balance_of(b), 0);
    assert_eq!(token.events().len(), 1);
}

#[test]
fn transfer_of_the_exact_balance_empties_the_account() {
    let deployer = account(1);
    let b = account(2);
    let mut token = Erc20::new(deployer, 100);
    assert_eq!(token.transfer(deployer, b, 100), Ok(()));
    assert_eq!(token.balance_of(deployer), 0);
    assert_eq!(token.balance_of(b), 100);
    assert_eq!(token.transfer(deployer, b, 1), Err(Error::InsufficientBalance));
}

#[test]
fn transfer_by_an_account_that_holds_nothing_is_rejected() {
    let deployer = account(1);
    let b = account(2);
    let mut token = Erc20::new(deployer, 100);
    assert_eq!(token.transfer(b, deployer, 1), Err(Error::InsufficientBalance));
    assert_eq!(token.balance_of(deployer), 100);
    assert_eq!(token.balance_of(b), 0);
}

#[test]
fn transfer_of_nothing_succeeds_and_is_announced() {
    let deployer = account(1);
    let b = account(2);
    let mut token = Erc20::new(deployer, 100);
    assert_eq!(token.transfer(b, deployer, 0), Ok(()));
    assert_eq!(token.balance_of(deployer), 100);
    assert_eq!(token.balance_of(b), 0);
    assert_eq!(
        token.events()[1],
        Event::Transfer(Transfer { from: Some(b), to: Some(deployer), value: 0 })
    );
}

#[test]
fn transfer_to_oneself_changes_no_balance_and_is_announced() {
    let deployer = account(1);
    let mut token = Erc20::new(deployer, 100);
    assert_eq!(token.transfer(deployer, deployer, 40), Ok(()));
    assert_eq!(token.balance_of(deployer), 100);
    assert_eq!(token.total_supply(), 100);
    assert_eq!(
        token.events(),
        &vec![
            Event::Transfer(Transfer { from: None, to: Some(deployer), value: 100 }),
            Event::Transfer(Transfer { from: Some(deployer), to: Some(deployer), value: 40 }),
        ]
    );
    assert_eq!(token.transfer(deployer, deployer, 101), Err(Error::InsufficientBalance));
    assert_eq!(token.balance_of(deployer), 100);
}

#[test]
fn transfer_of_the_largest_supply_does_not_overflow() {
    let deployer = account(1);
    let b = account(2);
    let mut token = Erc20::new(deployer, Balance::MAX);
    assert_eq!(token.transfer(deployer, b, Balance::MAX - 1), Ok(()));
    assert_eq!(token.balance_of(deployer), 1);
    assert_eq!(token.balance_of(b), Balance::MAX - 1);
    assert_eq!(token.transfer(deployer, b, 1), Ok(()));
    assert_eq!(token.balance_of(b), Balance::MAX);
    assert_eq!(token.transfer(b, b, Balance::MAX), Ok(()));
    assert_eq!(token.balance_of(b), Balance::MAX);
}

#[test]
fn approve_overwrites_the_previous_allowance() {
    let a = account(1);
    let b = account(2);
    let mut token = Erc20::new(a, 100);
    assert_eq!(token.approve(a, b, 10), Ok(()));
    assert_eq!(token.allowance(a, b), 10);
    assert_eq!(token.approve(a, b, 5), Ok(()));
    assert_eq!(token.allowance(a, b), 5);
}

#[test]
fn approve_needs_no_balance_and_is_directed() {
    let a = account(1);
    let b = account(2);
    let c = account(3);
    let mut token = Erc20::new(a, 100);
    assert_eq!(token.approve(b, c, 1_000), Ok(()));
    assert_eq!(token.allowance(b, c), 1_000);
    assert_eq!(token.allowance(c, b), 0);
    assert_eq!(token.allowance(a, c), 0);
    assert_eq!(token.balance_of(a), 100);
    assert_eq!(token.balance_of(b), 0);
}

#[test]
fn approve_is_announced() {
    let a = account(1);
    let b = account(2);
    let mut token = Erc20::new(a, 100);
    assert_eq!(token.approve(a, b, 10), Ok(()));
    assert_eq!(
        token.events()[1],
        Event::Approval(Approval { owner: a, spender: b, value: 10 })
    );
    assert_eq!(token.events().len(), 2);
}

#[test]
fn transfer_from_spends_the_allowance() {
    let a = account(1);
    let b = account(2);
    let f = account(6);
    let mut token = Erc20::new(a, 100);
    assert_eq!(token.approve(a, b, 10), Ok(()));
    assert_eq!(token.transfer_from(b, a, f, 10), Ok(()));
    assert_eq!(token.balance_of(f), 10);
    assert_eq!(token.balance_of(a), 90);
    assert_eq!(token.balance_of(b), 0);
    assert_eq!(token.allowance(a, b), 0);
    assert_eq!(
        token.events()[2],
        Event::Transfer(Transfer { from: Some(a), to: Some(f), value: 10 })
    );
    assert_eq!(token.events().len(), 3);
}

#[test]
fn transfer_from_of_part_of_the_allowance_leaves_the_rest() {
    let a = account(1);
    let b = account(2);
    let f = account(6);
    let mut token = Erc20::new(a, 100);
    assert_eq!(token.approve(a, b, 10), Ok(()));
    assert_eq!(token.transfer_from(b, a, f, 4), Ok(()));
    assert_eq!(token.allowance(a, b), 6);
    assert_eq!(token.transfer_from(b, a, f, 7), Err(Error::InsufficientAllowance));
    assert_eq!(token.transfer_from(b, a, f, 6), Ok(()));
    assert_eq!(token.allowance(a, b), 0);
    assert_eq!(token.balance_of(f), 10);
    assert_eq!(token.balance_of(a), 90);
}

#[test]
fn transfer_from_beyond_the_allowance_is_rejected() {
    let a = account(1);
    let b = account(2);
    let f = account(6);
    let mut token = Erc20::new(a, 100);
    assert_eq!(token.approve(a, b, 10), Ok(()));
    assert_eq!(token.transfer_from(b, a, f, 20), Err(Error::InsufficientAllowance));
    assert_eq!(token.allowance(a, b), 10);
    assert_eq!(token.balance_of(f), 0);
    assert_eq!(token.balance_of(a), 100);
    assert_eq!(token.events().len(), 2);
}

#[test]
fn transfer_from_beyond_the_balance_leaves_the_allowance_untouched() {
    let a = account(1);
    let b = account(2);
    let c = account(3);
    let mut token = Erc20::new(a, 100);
    assert_eq!(token.approve(c, b, 30), Ok(()));
    assert_eq!(token.transfer_from(b, c, a, 20), Err(Error::InsufficientBalance));
    assert_eq!(token.allowance(c, b), 30);
    assert_eq!(token.balance_of(c), 0);
    assert_eq!(token.balance_of(a), 100);
    assert_eq!(token.events().len(), 2);
}

#[test]
fn transfer_from_looks_at_the_allowance_before_the_balance() {
    let a = account(1);
    let b = account(2);
    let c = account(3);
    let mut token = Erc20::new(a, 100);
    // `c` has neither granted anything nor does it hold anything.
    assert_eq!(token.transfer_from(b, c, a, 1), Err(Error::InsufficientAllowance));
}

#[test]
fn transfer_from_by_the_owner_needs_an_allowance_too() {
    let a = account(1);
    let b = account(2);
    let mut token = Erc20::new(a, 100);
    assert_eq!(token.transfer_from(a, a, b, 1), Err(Error::InsufficientAllowance));
    assert_eq!(token.transfer_from(a, a, b, 0), Ok(()));
    assert_eq!(token.balance_of(b), 0);
}

#[test]
fn transfer_from_uses_the_allowance_of_the_caller_only() {
    let a = account(1);
    let b = account(2);
    let c = account(3);
    let mut token = Erc20::new(a, 100);
    assert_eq!(token.approve(a, b, 10), Ok(()));
    assert_eq!(token.transfer_from(c, a, c, 10), Err(Error::InsufficientAllowance));
    assert_eq!(token.allowance(a, b), 10);
    assert_eq!(token.allowance(a, c), 0);
}

#[test]
fn balances_add_up_to_the_total_supply_after_every_call() {
    let a = account(1);
    let b = account(2);
    let c = account(3);
    let everyone = [a, b, c];
    let mut token = Erc20::new(a, 1_000);
    assert_eq!(held_by(&token, &everyone), 1_000);
    assert_eq!(token.transfer(a, b, 300), Ok(()));
    assert_eq!(held_by(&token, &everyone), 1_000);
    assert_eq!(token.transfer(b, c, 301), Err(Error::InsufficientBalance));
    assert_eq!(held_by(&token, &everyone), 1_000);
    assert_eq!(token.approve(b, c, 200), Ok(()));
    assert_eq!(held_by(&token, &everyone), 1_000);
    assert_eq!(token.transfer_from(c, b, c, 150), Ok(()));
    assert_eq!(held_by(&token, &everyone), 1_000);
    assert_eq!(token.transfer_from(c, b, a, 51), Err(Error::InsufficientAllowance));
    assert_eq!(held_by(&token, &everyone), 1_000);
    assert_eq!(token.transfer(c, c, 150), Ok(()));
    assert_eq!(held_by(&token, &everyone), 1_000);
    assert_eq!(token.balance_of(a), 700);
    assert_eq!(token.balance_of(b), 150);
    assert_eq!(token.balance_of(c), 150);
    assert_eq!(token.total_supply(), 1_000);
}

#[test]
fn rejected_calls_change_nothing() {
    let a = account(1);
    let b = account(2);
    let c = account(3);
    let mut token = Erc20::new(a, 100);
    assert_eq!(token.approve(a, b, 10), Ok(()));
    let events_before = token.events().clone();
    assert_eq!(token.transfer(b, c, 1), Err(Error::InsufficientBalance));
    assert_eq!(token.transfer_from(b, a, c, 11), Err(Error::InsufficientAllowance));
    assert_eq!(token.transfer_from(c, a, c, 1), Err(Error::InsufficientAllowance));
    assert_eq!(token.balance_of(a), 100);
    assert_eq!(token.balance_of(b), 0);
    assert_eq!(token.balance_of(c), 0);
    assert_eq!(token.allowance(a, b), 10);
    assert_eq!(token.total_supply(), 100);
    assert_eq!(token.events(), &events_before);
}

#[test]
fn reads_change_nothing_however_often_they_are_made() {
    let a = account(1);
    let b = account(2);
    let mut token = Erc20::new(a, 100);
    assert_eq!(token.transfer(a, b, 25), Ok(()));
    assert_eq!(token.approve(a, b, 7), Ok(()));
    let events_before = token.events().clone();
    for _ in 0..50 {
        assert_eq!(token.balance_of(a), 75);
        assert_eq!(token.balance_of(b), 25);
        assert_eq!(token.balance_of(account(9)), 0);
        assert_eq!(token.allowance(a, b), 7);
        assert_eq!(token.allowance(b, a), 0);
        assert_eq!(token.total_supply(), 100);
    }
    assert_eq!(token.events(), &events_before);
    assert_eq!(token.transfer_from(b, a, b, 7), Ok(()));
    assert_eq!(token.balance_of(a), 68);
    assert_eq!(token.balance_of(b), 32);
}

#[test]
fn take_events_empties_the_log_and_nothing_else() {
    let a = account(1);
    let b = account(2);
    let mut token = Erc20::new(a, 100);
    assert_eq!(token.approve(a, b, 10), Ok(()));
    let taken = token.take_events();
    assert_eq!(
        taken,
        vec![
            Event::Transfer(Transfer { from: None, to: Some(a), value: 100 }),
            Event::Approval(Approval { owner: a, spender: b, value: 10 }),
        ]
    );
    assert!(token.events().is_empty());
    assert_eq!(token.balance_of(a), 100);
    assert_eq!(token.allowance(a, b), 10);
    assert_eq!(token.total_supply(), 100);
    assert_eq!(token.transfer(a, b, 1), Ok(()));
    assert_eq!(
        token.take_events(),
        vec![Event::Transfer(Transfer { from: Some(a), to: Some(b), value: 1 })]
    );
}

#[test]
fn many_accounts_are_told_apart() {
    let deployer = account(0);
    let mut token = Erc20::new(deployer, 10_000);
    for byte in 1..=100u8 {
        assert_eq!(token.transfer(deployer, account(byte), byte as Balance), Ok(()));
    }
    for byte in 1..=100u8 {
        assert_eq!(token.balance_of(account(byte)), byte as Balance);
    }
    assert_eq!(token.balance_of(deployer), 10_000 - 5_050);
    // Identifiers that differ in a single byte are different accounts.
    let mut bytes = [7u8; 32];
    bytes[31] = 8;
    assert_eq!(token.balance_of(AccountId::from(bytes)), 0);
    bytes[31] = 7;
    assert_eq!(token.balance_of(AccountId::from(bytes)), 7);
}

use fortnightly::account::{
    simulate_balance, simulate_transaction, total_absolute_deviation, Account, Kind, Transaction,
};

fn deposit(amount: i32) -> Transaction {
    Transaction { kind: Kind::Deposit, amount }
}

fn withdraw(amount: i32) -> Transaction {
    Transaction { kind: Kind::Withdraw, amount }
}

#[test]
fn deposit_and_withdraw_move_the_balance() {
    let mut account = Account::default();
    assert_eq!(account.balance, 0);
    account.deposit(10);
    assert_eq!(account.balance, 10);
    account.withdraw(3);
    assert_eq!(account.balance, 7);
}

#[test]
fn simulate_transaction_applies_the_kind() {
    let mut account = Account::default();
    simulate_transaction(&mut account, deposit(25));
    assert_eq!(account.balance, 25);
    simulate_transaction(&mut account, withdraw(40));
    assert_eq!(account.balance, -15);
}

#[test]
fn balances_track_the_transactions() {
    let transactions = [deposit(10), deposit(20), withdraw(5)];
    let balances = simulate_balance(&transactions);
    assert_eq!(balances, vec![0, 10, 30, 25]);
}

#[test]
fn no_transactions_leave_only_the_opening_balance() {
    let balances = simulate_balance(&[]);
    assert_eq!(balances, vec![0]);
}

#[test]
fn withdrawals_can_drive_the_balance_negative() {
    let transactions = [withdraw(7), deposit(3), withdraw(1)];
    let balances = simulate_balance(&transactions);
    assert_eq!(balances, vec![0, -7, -4, -5]);
}

#[test]
fn deviation_sums_absolute_distances_from_the_target() {
    // |0-100| + |10-100| + |30-100| + |25-100| = 100 + 90 + 70 + 75
    let balances = [0, 10, 30, 25];
    assert_eq!(total_absolute_deviation(&balances, 100), 335);
}

#[test]
fn deviation_of_no_balances_is_zero() {
    assert_eq!(total_absolute_deviation(&[], 100), 0);
}

#[test]
fn deviation_counts_overshoot_and_undershoot_alike() {
    let balances = [90, 110, 100];
    assert_eq!(total_absolute_deviation(&balances, 100), 20);
}

#[test]
fn deviation_handles_negative_balances_and_targets() {
    let balances = [-5, 5];
    assert_eq!(total_absolute_deviation(&balances, -10), 20);
}

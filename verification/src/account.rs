//! The account-balance simulation: transactions applied in order to a
//! zero-initialized balance, and the deviation of the resulting trajectory
//! from a target balance.

use vstd::prelude::*;

verus! {

/// Whole currency units; the simulation works in integers only.
pub type Money = i32;

/// A running account balance.
pub struct Account {
    pub balance: Money,
}

impl Default for Account {
    /// A fresh account holds nothing.
    fn default() -> (r: Self)
        ensures
            r.balance == 0,
    {
        Account { balance: 0 }
    }
}

impl Account {
    pub fn deposit(&mut self, amount: Money)
        requires
            i32::MIN <= old(self).balance + amount <= i32::MAX,
        ensures
            final(self).balance == old(self).balance + amount,
    {
        self.balance = self.balance + amount;
    }

    pub fn withdraw(&mut self, amount: Money)
        requires
            i32::MIN <= old(self).balance - amount <= i32::MAX,
        ensures
            final(self).balance == old(self).balance - amount,
    {
        self.balance = self.balance - amount;
    }
}

/// Whether a transaction adds to the balance or takes from it.
#[derive(Clone, Copy, PartialEq, Eq, Structural, Debug)]
pub enum Kind {
    Deposit,
    Withdraw,
}

/// One signed movement of money.
#[derive(Clone, Copy, PartialEq, Eq, Structural, Debug)]
pub struct Transaction {
    pub kind: Kind,
    pub amount: Money,
}

/// The signed effect of a transaction on a balance.
pub open spec fn signed_amount(t: Transaction) -> int {
    match t.kind {
        Kind::Deposit => t.amount as int,
        Kind::Withdraw => -(t.amount as int),
    }
}

/// The balance after applying all the transactions, in order, to zero.
pub open spec fn balance_after(transactions: Seq<Transaction>) -> int
    decreases transactions.len(),
{
    if transactions.len() == 0 {
        0
    } else {
        balance_after(transactions.drop_last()) + signed_amount(transactions.last())
    }
}

/// Applies one transaction to the account.
pub fn simulate_transaction(account: &mut Account, transaction: Transaction)
    requires
        i32::MIN <= old(account).balance + signed_amount(transaction) <= i32::MAX,
    ensures
        final(account).balance == old(account).balance + signed_amount(transaction),
{
    match transaction.kind {
        Kind::Deposit => account.deposit(transaction.amount),
        Kind::Withdraw => account.withdraw(transaction.amount),
    }
}

/// Applies the transactions in order to a fresh account and records the
/// balance before the first one and after each of them.
pub fn simulate_balance(transactions: &[Transaction]) -> (balances: Vec<Money>)
    requires
        forall|i: int|
            0 <= i <= transactions@.len() ==> i32::MIN <= #[trigger] balance_after(
                transactions@.take(i),
            ) <= i32::MAX,
    ensures
        balances@.len() == transactions@.len() + 1,
        forall|i: int|
            0 <= i <= transactions@.len() ==> balances@[i] == balance_after(
                transactions@.take(i),
            ),
{
    let ghost txs: Seq<Transaction> = transactions@;
    let mut account = Account::default();
    let mut balances: Vec<Money> = Vec::new();
    proof {
        assert(txs.take(0) =~= Seq::<Transaction>::empty());
    }
    balances.push(account.balance);
    let n: usize = transactions.len();
    let mut idx: usize = 0;
    while idx < n
        invariant
            txs == transactions@,
            n == txs.len(),
            idx <= n,
            balances@.len() == idx + 1,
            forall|j: int| 0 <= j <= idx ==> balances@[j] == balance_after(txs.take(j)),
            account.balance == balance_after(txs.take(idx as int)),
            forall|i: int|
                0 <= i <= txs.len() ==> i32::MIN <= #[trigger] balance_after(txs.take(i))
                    <= i32::MAX,
        decreases n - idx,
    {
        let t = transactions[idx];
        proof {
            assert(txs.take(idx + 1).drop_last() =~= txs.take(idx as int));
            assert(txs.take(idx + 1).last() == txs[idx as int]);
            assert(balance_after(txs.take(idx + 1)) == balance_after(txs.take(idx as int))
                + signed_amount(txs[idx as int]));
        }
        simulate_transaction(&mut account, t);
        balances.push(account.balance);
        idx = idx + 1;
    }
    balances
}

/// |x|, over the unbounded integers.
pub open spec fn abs_value(x: int) -> int {
    if x < 0 {
        -x
    } else {
        x
    }
}

/// The sum of the absolute deviations of the balances from the target.
pub open spec fn deviation_total(balances: Seq<Money>, target: int) -> int
    decreases balances.len(),
{
    if balances.len() == 0 {
        0
    } else {
        deviation_total(balances.drop_last(), target) + abs_value(balances.last() - target)
    }
}

proof fn lemma_deviation_total_nonneg(balances: Seq<Money>, target: int)
    ensures
        deviation_total(balances, target) >= 0,
    decreases balances.len(),
{
    if balances.len() > 0 {
        lemma_deviation_total_nonneg(balances.drop_last(), target);
    }
}

proof fn lemma_deviation_total_prefix(balances: Seq<Money>, target: int, i: int)
    requires
        0 <= i <= balances.len(),
    ensures
        deviation_total(balances.take(i), target) <= deviation_total(balances, target),
    decreases balances.len() - i,
{
    if i < balances.len() {
        assert(balances.take(i + 1).drop_last() =~= balances.take(i));
        lemma_deviation_total_prefix(balances, target, i + 1);
    } else {
        assert(balances.take(i) =~= balances);
    }
}

/// The summed absolute deviation of a balance trajectory from a target.
/// The caller divides by the number of entries to obtain the mean.
pub fn total_absolute_deviation(balances: &[Money], target: Money) -> (r: i32)
    requires
        forall|i: int|
            0 <= i < balances@.len() ==> -(i32::MAX as int) <= #[trigger] balances@[i] - target
                <= i32::MAX,
        deviation_total(balances@, target as int) <= i32::MAX,
    ensures
        r == deviation_total(balances@, target as int),
{
    let ghost bs: Seq<Money> = balances@;
    proof {
        assert(bs.take(0) =~= Seq::<Money>::empty());
    }
    let mut sum: i32 = 0;
    let n: usize = balances.len();
    let mut idx: usize = 0;
    while idx < n
        invariant
            bs == balances@,
            n == bs.len(),
            idx <= n,
            sum == deviation_total(bs.take(idx as int), target as int),
            forall|i: int|
                0 <= i < bs.len() ==> -(i32::MAX as int) <= #[trigger] bs[i] - target <= i32::MAX,
            deviation_total(bs, target as int) <= i32::MAX,
        decreases n - idx,
    {
        let b = balances[idx];
        let d = b - target;
        let a = if d < 0 {
            -d
        } else {
            d
        };
        proof {
            assert(bs.take(idx + 1).drop_last() =~= bs.take(idx as int));
            assert(bs.take(idx + 1).last() == bs[idx as int]);
            lemma_deviation_total_prefix(bs, target as int, idx + 1);
            lemma_deviation_total_nonneg(bs.take(idx as int), target as int);
        }
        sum = sum + a;
        idx = idx + 1;
    }
    proof {
        assert(bs.take(n as int) =~= bs);
    }
    sum
}

} // verus!

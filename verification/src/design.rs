//! Builders that turn design parameters into a year's worth of transactions,
//! optionally interleaved with a deterministic stream of random withdrawals.

use vstd::prelude::*;
use crate::account::{Kind, Money, Transaction};
use crate::xs;
use crate::xs::Seed;

verus! {

/// Number of fortnights in a simulated year.
pub const ANNUAL_FORTNIGHTS: u8 = 26;

/// The tunable parameters of a plan; single-parameter plans ignore the
/// second one.
pub type DesignParameters = (Money, Money);

/// The same deposit every fortnight of the year.
pub open spec fn fortnightly_deposits(design_parameters: DesignParameters) -> Seq<Transaction> {
    Seq::new(
        ANNUAL_FORTNIGHTS as nat,
        |i: int| Transaction { kind: Kind::Deposit, amount: design_parameters.0 },
    )
}

/// One opening deposit, then the same deposit every fortnight of the year.
pub open spec fn initial_and_fortnightly_deposits(
    design_parameters: DesignParameters,
) -> Seq<Transaction> {
    Seq::new(
        (ANNUAL_FORTNIGHTS + 1) as nat,
        |i: int|
            if i == 0 {
                Transaction { kind: Kind::Deposit, amount: design_parameters.0 }
            } else {
                Transaction { kind: Kind::Deposit, amount: design_parameters.1 }
            },
    )
}

/// The `i`-th amount the seeded generator draws from `0..high`.
pub open spec fn withdrawal_amount(seed: Seed, i: int, high: u32) -> int
    recommends
        0 < high,
{
    (xs::nth_state(xs::spec_from_seed(seed), (i + 1) as nat).w as int) % (high as int)
}

/// The withdrawals the seeded generator produces, one per fortnight.
pub open spec fn random_withdrawals(seed: Seed, high: u32, count: nat) -> Seq<Transaction> {
    Seq::new(
        count,
        |i: int|
            Transaction { kind: Kind::Withdraw, amount: withdrawal_amount(seed, i, high) as i32 },
    )
}

/// Deposits and withdrawals taken alternately, one pair per fortnight, cut
/// to the shorter of the two lists.
pub open spec fn interleave(a: Seq<Transaction>, b: Seq<Transaction>) -> Seq<Transaction> {
    let pairs = if a.len() <= b.len() {
        a.len()
    } else {
        b.len()
    };
    Seq::new(
        2 * pairs,
        |i: int|
            if i % 2 == 0 {
                a[i / 2]
            } else {
                b[i / 2]
            },
    )
}

/// A plan that deposits the first design parameter every fortnight.
#[allow(non_snake_case)]
pub fn translate_design_FortnightlyDeposit(design_parameters: DesignParameters) -> (r: Vec<
    Transaction,
>)
    ensures
        r@ == fortnightly_deposits(design_parameters),
        r@.len() == ANNUAL_FORTNIGHTS as int,
{
    let mut output: Vec<Transaction> = Vec::new();
    let mut i: usize = 0;
    while i < ANNUAL_FORTNIGHTS as usize
        invariant
            i <= ANNUAL_FORTNIGHTS as usize,
            output@.len() == i,
            forall|j: int|
                0 <= j < i ==> output@[j] == (Transaction {
                    kind: Kind::Deposit,
                    amount: design_parameters.0,
                }),
        decreases ANNUAL_FORTNIGHTS as usize - i,
    {
        output.push(Transaction { kind: Kind::Deposit, amount: design_parameters.0 });
        i = i + 1;
    }
    proof {
        assert(output@ =~= fortnightly_deposits(design_parameters));
    }
    output
}

/// A plan that makes one opening deposit of the first design parameter and
/// then deposits the second one every fortnight.
#[allow(non_snake_case)]
pub fn translate_design_InitialAndFortnightlyDeposit(design_parameters: DesignParameters) -> (r:
    Vec<Transaction>)
    ensures
        r@ == initial_and_fortnightly_deposits(design_parameters),
        r@.len() == ANNUAL_FORTNIGHTS as int + 1,
{
    let mut output: Vec<Transaction> = Vec::new();
    output.push(Transaction { kind: Kind::Deposit, amount: design_parameters.0 });
    let mut i: usize = 1;
    while i < ANNUAL_FORTNIGHTS as usize + 1
        invariant
            1 <= i <= ANNUAL_FORTNIGHTS as usize + 1,
            output@.len() == i,
            output@[0] == (Transaction { kind: Kind::Deposit, amount: design_parameters.0 }),
            forall|j: int|
                1 <= j < i ==> output@[j] == (Transaction {
                    kind: Kind::Deposit,
                    amount: design_parameters.1,
                }),
        decreases ANNUAL_FORTNIGHTS as usize + 1 - i,
    {
        output.push(Transaction { kind: Kind::Deposit, amount: design_parameters.1 });
        i = i + 1;
    }
    proof {
        assert(output@ =~= initial_and_fortnightly_deposits(design_parameters));
    }
    output
}

/// Default cap (exclusive) on a random withdrawal.
pub const DEFAULT_WITHDRAWAL_HIGH: u32 = 5;

/// How the random withdrawals are drawn: the seed of the generator and the
/// exclusive upper bound of each amount.
pub struct FortnightlyRandomWithdrawalArgs {
    pub seed: Seed,
    pub high: u32,
}

impl Default for FortnightlyRandomWithdrawalArgs {
    fn default() -> (r: Self)
        ensures
            r.seed == xs::spec_default_seed(),
            r.high == DEFAULT_WITHDRAWAL_HIGH,
    {
        FortnightlyRandomWithdrawalArgs { seed: Seed::default(), high: DEFAULT_WITHDRAWAL_HIGH }
    }
}

/// The environment's side of a year: one pseudo-random withdrawal per
/// fortnight, each drawn from `0..high`.
#[allow(non_snake_case)]
pub fn translate_environment_FortnightlyRandomWithdrawal(
    args: FortnightlyRandomWithdrawalArgs,
) -> (r: Vec<Transaction>)
    requires
        1 <= args.high <= i32::MAX,
    ensures
        r@ == random_withdrawals(args.seed, args.high, ANNUAL_FORTNIGHTS as nat),
        r@.len() == ANNUAL_FORTNIGHTS as int,
        forall|i: int| 0 <= i < r@.len() ==> 0 <= (#[trigger] r@[i]).amount < args.high,
{
    let mut rng: xs::Xs = xs::from_seed(args.seed);
    let ghost s0: xs::Xs = rng;
    let mut output: Vec<Transaction> = Vec::new();
    let mut i: usize = 0;
    while i < ANNUAL_FORTNIGHTS as usize
        invariant
            1 <= args.high <= i32::MAX,
            i <= ANNUAL_FORTNIGHTS as usize,
            output@.len() == i,
            s0 == xs::spec_from_seed(args.seed),
            rng == xs::nth_state(s0, i as nat),
            forall|j: int|
                0 <= j < i ==> #[trigger] output@[j] == (Transaction {
                    kind: Kind::Withdraw,
                    amount: withdrawal_amount(args.seed, j, args.high) as i32,
                }),
            forall|j: int| 0 <= j < i ==> 0 <= (#[trigger] output@[j]).amount < args.high,
        decreases ANNUAL_FORTNIGHTS as usize - i,
    {
        let amount_word: u32 = xs::range(&mut rng, 0, args.high);
        proof {
            assert(xs::nth_state(s0, (i + 1) as nat) == xs::spec_step(xs::nth_state(s0, i as nat)));
            assert(amount_word as int == withdrawal_amount(args.seed, i as int, args.high));
        }
        let amount: i32 = amount_word as i32;
        output.push(Transaction { kind: Kind::Withdraw, amount });
        i = i + 1;
    }
    proof {
        assert(output@ =~= random_withdrawals(args.seed, args.high, ANNUAL_FORTNIGHTS as nat));
    }
    output
}

/// Takes one element of each list in turn, for as many pairs as the shorter
/// list holds.
pub fn interleave_transactions(a: &Vec<Transaction>, b: &Vec<Transaction>) -> (r: Vec<Transaction>)
    ensures
        r@ == interleave(a@, b@),
{
    let pairs: usize = if a.len() <= b.len() {
        a.len()
    } else {
        b.len()
    };
    let mut output: Vec<Transaction> = Vec::new();
    let mut i: usize = 0;
    while i < pairs
        invariant
            pairs <= a@.len(),
            pairs <= b@.len(),
            interleave(a@, b@).len() == 2 * pairs,
            i <= pairs,
            output@.len() == 2 * i,
            forall|j: int| 0 <= j < 2 * i ==> output@[j] == interleave(a@, b@)[j],
        decreases pairs - i,
    {
        output.push(a[i]);
        output.push(b[i]);
        proof {
            assert((2 * i as int) % 2 == 0 && (2 * i as int) / 2 == i as int);
            assert((2 * i as int + 1) % 2 == 1 && (2 * i as int + 1) / 2 == i as int);
        }
        i = i + 1;
    }
    proof {
        assert(output@ =~= interleave(a@, b@));
    }
    output
}

/// A fortnightly-deposit plan interleaved with the default pseudo-random
/// withdrawals: deposits at even positions, withdrawals at odd ones.
#[allow(non_snake_case)]
pub fn translate_FortnightlyDepositAndRandomWithdrawal(design_parameters: DesignParameters) -> (r:
    Vec<Transaction>)
    ensures
        r@ == interleave(
            fortnightly_deposits(design_parameters),
            random_withdrawals(
                xs::spec_default_seed(),
                DEFAULT_WITHDRAWAL_HIGH,
                ANNUAL_FORTNIGHTS as nat,
            ),
        ),
        r@.len() == 2 * ANNUAL_FORTNIGHTS as int,
{
    let deposits = translate_design_FortnightlyDeposit(design_parameters);
    let withdrawals = translate_environment_FortnightlyRandomWithdrawal(
        FortnightlyRandomWithdrawalArgs::default(),
    );
    interleave_transactions(&deposits, &withdrawals)
}

/// An initial-and-fortnightly-deposit plan interleaved with the default
/// pseudo-random withdrawals; the opening deposit comes first, and the
/// closing deposit of the plan is cut off by the pairing.
#[allow(non_snake_case)]
pub fn translate_InitialAndFortnightlyDepositAndRandomWithdrawal(
    design_parameters: DesignParameters,
) -> (r: Vec<Transaction>)
    ensures
        r@ == interleave(
            initial_and_fortnightly_deposits(design_parameters),
            random_withdrawals(
                xs::spec_default_seed(),
                DEFAULT_WITHDRAWAL_HIGH,
                ANNUAL_FORTNIGHTS as nat,
            ),
        ),
        r@.len() == 2 * ANNUAL_FORTNIGHTS as int,
{
    let deposits = translate_design_InitialAndFortnightlyDeposit(design_parameters);
    let withdrawals = translate_environment_FortnightlyRandomWithdrawal(
        FortnightlyRandomWithdrawalArgs::default(),
    );
    interleave_transactions(&deposits, &withdrawals)
}

} // verus!

//! The revenue splitter.
//!
//! Splits a sale amount 85/15 between the contributors behind a dataset's
//! study references and the protocol treasury, all in truncating integer
//! arithmetic. No value moves here: the splitter returns one distribution
//! signal per study reference plus one treasury signal, for an external
//! settlement process to act on. The double floor division may leave a
//! residual that is neither emitted nor tracked.

use vstd::prelude::*;

use crate::errors::Error;

verus! {

/// The contributors' share of a sale: 85 percent, rounded down.
pub open spec fn contributors_amount(amount: int) -> int {
    amount * 85 / 100
}

/// The treasury's share of a sale: 15 percent, rounded down.
pub open spec fn treasury_amount(amount: int) -> int {
    amount * 15 / 100
}

/// The amount behind each of `n` study references: an equal share of the
/// contributors' amount, rounded down.
pub open spec fn per_contributor_amount(amount: int, n: nat) -> int {
    contributors_amount(amount) / n as int
}

/// One intended, not-yet-executed value transfer.
pub struct Signal {
    /// Who is to be paid: a study reference, or the treasury identifier.
    pub recipient: String,
    /// How much, an integer with two implied decimal places.
    pub amount: i128,
}

/// The mathematical image of a distribution signal.
pub struct SignalView {
    pub recipient: Seq<char>,
    pub amount: int,
}

impl View for Signal {
    type V = SignalView;

    open spec fn view(&self) -> SignalView {
        SignalView { recipient: self.recipient@, amount: self.amount as int }
    }
}

impl DeepView for Signal {
    type V = SignalView;

    open spec fn deep_view(&self) -> SignalView {
        self@
    }
}

/// The full signal list of one split: one signal per study reference, each
/// over the equal contributor share, then one treasury signal.
pub open spec fn split_signals(treasury: Seq<char>, amount: int, refs: Seq<Seq<char>>) -> Seq<
    SignalView,
> {
    Seq::new(
        refs.len(),
        |i: int| SignalView { recipient: refs[i], amount: per_contributor_amount(amount, refs.len()) },
    ).push(SignalView { recipient: treasury, amount: treasury_amount(amount) })
}

/// Which error `split_revenue` reports, if any: an unconfigured treasury is
/// found first, then an empty reference list.
pub open spec fn split_revenue_outcome(treasury: Option<Seq<char>>, refs: Seq<Seq<char>>) -> Result<
    (),
    Error,
> {
    if treasury is None {
        Err(Error::TreasuryNotConfigured)
    } else if refs.len() == 0 {
        Err(Error::EmptyContributorList)
    } else {
        Ok(())
    }
}

/// What a split hands out never exceeds the sale amount: the share of every
/// study reference plus the treasury share stays within `amount`, whatever
/// rounding loses.
pub proof fn lemma_split_total_bounded(amount: int, n: nat)
    requires
        amount >= 0,
        n > 0,
    ensures
        n * per_contributor_amount(amount, n) + treasury_amount(amount) <= amount,
{
    let c = contributors_amount(amount);
    let t = treasury_amount(amount);
    let p = per_contributor_amount(amount, n);
    vstd::arithmetic::div_mod::lemma_fundamental_div_mod(amount * 85, 100);
    vstd::arithmetic::div_mod::lemma_mod_division_less_than_divisor(amount * 85, 100);
    vstd::arithmetic::div_mod::lemma_fundamental_div_mod(amount * 15, 100);
    vstd::arithmetic::div_mod::lemma_mod_division_less_than_divisor(amount * 15, 100);
    assert(100 * c <= amount * 85);
    assert(100 * t <= amount * 15);
    assert(c + t <= amount);
    vstd::arithmetic::div_mod::lemma_fundamental_div_mod(c, n as int);
    vstd::arithmetic::div_mod::lemma_mod_division_less_than_divisor(c, n as int);
    assert(n * p <= c);
}

/// The sum of the amounts in a signal list.
pub open spec fn total_amount(signals: Seq<SignalView>) -> int
    decreases signals.len(),
{
    if signals.len() == 0 {
        0
    } else {
        total_amount(signals.drop_last()) + signals.last().amount
    }
}

/// A list of signals that all carry the same amount sums to length times that
/// amount.
proof fn lemma_total_of_constant_amounts(signals: Seq<SignalView>, p: int)
    requires
        forall|i: int| 0 <= i < signals.len() ==> #[trigger] signals[i].amount == p,
    ensures
        total_amount(signals) == signals.len() * p,
    decreases signals.len(),
{
    if signals.len() > 0 {
        lemma_total_of_constant_amounts(signals.drop_last(), p);
        assert((signals.len() - 1) * p + p == signals.len() * p) by (nonlinear_arith);
    }
}

/// A split conserves value: the amounts of all emitted signals, contributor
/// shares and treasury share together, sum to at most the sale amount. The
/// difference is the rounding residual, which no signal carries.
pub proof fn lemma_split_conserves_amount(treasury: Seq<char>, amount: int, refs: Seq<Seq<char>>)
    requires
        amount >= 0,
        refs.len() > 0,
    ensures
        total_amount(split_signals(treasury, amount, refs)) <= amount,
{
    let p = per_contributor_amount(amount, refs.len());
    let shares = Seq::new(refs.len(), |i: int| SignalView { recipient: refs[i], amount: p });
    let signals = split_signals(treasury, amount, refs);
    assert(signals.drop_last() =~= shares);
    assert(signals.last().amount == treasury_amount(amount));
    lemma_total_of_constant_amounts(shares, p);
    lemma_split_total_bounded(amount, refs.len());
}

/// The revenue splitter: holds the treasury slot, unset until the first
/// `set_treasury` call.
pub struct RevenueSplitter {
    treasury: Option<String>,
}

impl View for RevenueSplitter {
    type V = Option<Seq<char>>;

    closed spec fn view(&self) -> Option<Seq<char>> {
        match self.treasury {
            Some(ref t) => Some(t@),
            None => None,
        }
    }
}

impl RevenueSplitter {
    /// A splitter with no treasury configured yet.
    pub fn new() -> (r: RevenueSplitter)
        ensures
            r@ is None,
    {
        RevenueSplitter { treasury: None }
    }

    /// Overwrites the treasury slot unconditionally and never fails.
    ///
    /// No caller-identity check guards this operation; the trust model of the
    /// surrounding platform is expected to supply one.
    pub fn set_treasury(&mut self, treasury: String) -> (r: Result<(), Error>)
        ensures
            r == Ok::<(), Error>(()),
            final(self)@ == Some(treasury@),
    {
        self.treasury = Some(treasury);
        Ok(())
    }

    /// Splits a sale amount over a dataset's study references.
    ///
    /// Fails with `TreasuryNotConfigured` before any treasury is set and with
    /// `EmptyContributorList` on an empty reference list; otherwise returns
    /// one signal per study reference — duplicates each get their own — over
    /// the equal contributor share, then one treasury signal. The signal list
    /// is the sole effect; nothing is persisted.
    pub fn split_revenue(
        &self,
        dataset_id: &String,
        amount_usdc: i128,
        study_ids: &Vec<String>,
    ) -> (r: Result<Vec<Signal>, Error>)
        requires
            0 <= amount_usdc,
            amount_usdc * 85 <= i128::MAX,
        ensures
            match r {
                Ok(signals) => split_revenue_outcome(self@, study_ids.deep_view()) == Ok::<
                    (),
                    Error,
                >(()) && (self@ matches Some(t) && signals.deep_view() =~= split_signals(
                    t,
                    amount_usdc as int,
                    study_ids.deep_view(),
                )),
                Err(e) => split_revenue_outcome(self@, study_ids.deep_view()) == Err::<(), Error>(e),
            },
    {
        let treasury = match &self.treasury {
            None => {
                return Err(Error::TreasuryNotConfigured);
            },
            Some(t) => t,
        };
        if study_ids.len() == 0 {
            return Err(Error::EmptyContributorList);
        }
        let amt = amount_usdc as u128;
        proof {
            vstd::arithmetic::div_mod::lemma_fundamental_div_mod(amt as int * 85, 100);
            vstd::arithmetic::div_mod::lemma_mod_division_less_than_divisor(amt as int * 85, 100);
            vstd::arithmetic::div_mod::lemma_fundamental_div_mod(amt as int * 15, 100);
            vstd::arithmetic::div_mod::lemma_mod_division_less_than_divisor(amt as int * 15, 100);
        }
        let contributors: u128 = amt * 85 / 100;
        let treasury_share: u128 = amt * 15 / 100;
        let count: u128 = study_ids.len() as u128;
        proof {
            vstd::arithmetic::div_mod::lemma_div_nonincreasing(contributors as int, count as int);
            vstd::arithmetic::div_mod::lemma_div_pos_is_pos(contributors as int, count as int);
        }
        let per: u128 = contributors / count;
        assert(per as int == per_contributor_amount(amount_usdc as int, study_ids.deep_view().len()));
        assert(per <= i128::MAX);
        assert(treasury_share <= i128::MAX);
        let n = study_ids.len();
        let mut signals: Vec<Signal> = Vec::new();
        let mut i: usize = 0;
        while i < n
            invariant
                n == study_ids.len(),
                i <= n,
                per <= i128::MAX,
                per as int == per_contributor_amount(amount_usdc as int, study_ids.deep_view().len()),
                treasury_share <= i128::MAX,
                treasury_share as int == treasury_amount(amount_usdc as int),
                signals@.len() == i,
                forall|j: int|
                    0 <= j < i ==> #[trigger] signals.deep_view()[j] == (SignalView {
                        recipient: study_ids.deep_view()[j],
                        amount: per_contributor_amount(
                            amount_usdc as int,
                            study_ids.deep_view().len(),
                        ),
                    }),
            decreases n - i,
        {
            let ghost prev = signals.deep_view();
            let signal = Signal { recipient: study_ids[i].clone(), amount: per as i128 };
            let ghost sig_view = signal@;
            signals.push(signal);
            proof {
                assert(sig_view == (SignalView {
                    recipient: study_ids.deep_view()[i as int],
                    amount: per_contributor_amount(
                        amount_usdc as int,
                        study_ids.deep_view().len(),
                    ),
                }));
                assert(signals.deep_view() =~= prev.push(sig_view));
            }
            i += 1;
        }
        let ghost prev = signals.deep_view();
        let treasury_signal = Signal { recipient: treasury.clone(), amount: treasury_share as i128 };
        let ghost tr_view = treasury_signal@;
        signals.push(treasury_signal);
        proof {
            assert(signals.deep_view() =~= prev.push(tr_view));
            assert(signals.deep_view() =~= split_signals(
                treasury@,
                amount_usdc as int,
                study_ids.deep_view(),
            ));
        }
        Ok(signals)
    }
}

} // verus!

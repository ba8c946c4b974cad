//! The custody account of a pledge and what leaves it.

use vstd::prelude::*;

verus! {

/// The custody account of one pledge. It belongs to the pledge record, never
/// to a private key. While the pledge is active or reported it holds exactly
/// the stake; the settlement empties and closes it.
#[derive(Clone, Copy, Debug, PartialEq, Eq, Structural)]
pub struct Vault {
    /// The balance, in minor units of the pledge's asset.
    pub amount: u64,
    /// Whether the account was closed and its storage deposit returned.
    pub closed: bool,
}

/// Who receives an amount that leaves custody.
#[derive(Clone, Copy, Debug, PartialEq, Eq, Structural)]
pub enum Payee {
    /// The owner of the pledge.
    Owner,
    /// The treasury of the configuration.
    Treasury,
    /// The charity of the configuration.
    Charity,
}

/// One transfer out of custody.
#[derive(Clone, Copy, Debug, PartialEq, Eq, Structural)]
pub struct Disbursement {
    pub payee: Payee,
    pub amount: u64,
}

/// The transfer of `amount` to `payee`; none where the amount is zero.
pub open spec fn payment(payee: Payee, amount: u64) -> Seq<Disbursement> {
    if amount > 0 {
        seq![Disbursement { payee, amount }]
    } else {
        Seq::empty()
    }
}

/// The sum of the amounts of `payments`.
pub open spec fn total_paid(payments: Seq<Disbursement>) -> int
    decreases payments.len(),
{
    if payments.len() == 0 {
        0
    } else {
        total_paid(payments.drop_last()) + payments.last().amount
    }
}

/// The sum over two lists of payments is the sum of their sums.
pub proof fn lemma_total_paid_concat(first: Seq<Disbursement>, second: Seq<Disbursement>)
    ensures
        total_paid(first + second) == total_paid(first) + total_paid(second),
    decreases second.len(),
{
    if second.len() == 0 {
        assert(first + second =~= first);
    } else {
        assert((first + second).drop_last() =~= first + second.drop_last());
        lemma_total_paid_concat(first, second.drop_last());
    }
}

/// A payment sums to its amount, whether it is made or skipped.
pub proof fn lemma_total_paid_payment(payee: Payee, amount: u64)
    ensures
        total_paid(payment(payee, amount)) == amount,
{
    if amount > 0 {
        let one = payment(payee, amount);
        assert(one.drop_last() =~= Seq::<Disbursement>::empty());
        assert(total_paid(one.drop_last()) == 0);
    }
}

impl Vault {
    /// A fresh custody account that holds `amount`.
    pub fn holding(amount: u64) -> (vault: Vault)
        ensures
            vault == (Vault { amount, closed: false }),
    {
        Vault { amount, closed: false }
    }

    /// Takes `amount` out of custody.
    pub fn withdraw(&mut self, amount: u64)
        requires
            !old(self).closed,
            amount <= old(self).amount,
        ensures
            final(self).amount == old(self).amount - amount,
            !final(self).closed,
    {
        self.amount = self.amount - amount;
    }

    /// Closes the emptied custody account.
    pub fn close(&mut self)
        requires
            !old(self).closed,
            old(self).amount == 0,
        ensures
            *final(self) == (Vault { amount: 0, closed: true }),
    {
        self.closed = true;
    }
}

impl Default for Vault {
    /// A fresh, empty custody account.
    fn default() -> (vault: Self)
        ensures
            vault == (Vault { amount: 0, closed: false }),
    {
        Vault { amount: 0, closed: false }
    }
}

/// Appends the transfer of `amount` to `payee` to `payments`, unless the amount
/// is zero.
pub fn push_payment(payments: &mut Vec<Disbursement>, payee: Payee, amount: u64)
    ensures
        final(payments)@ == old(payments)@ + payment(payee, amount),
{
    if amount > 0 {
        payments.push(Disbursement { payee, amount });
    }
}

} // verus!

//! The balances module: how much each account holds, and transfers between
//! accounts.

use vstd::prelude::*;
use crate::accounts::AccountMap;
use crate::arith::{checked_add_u128, checked_sub_u128, zero_u128};
use crate::support::{Dispatch, DispatchError, DispatchResult};
use crate::types::{AccountId, Balance};

verus! {

/// The balance that `balances` gives to `who`: what is recorded, or zero where
/// nothing is.
pub open spec fn balance_in(balances: Map<Seq<char>, Balance>, who: Seq<char>) -> Balance {
    if balances.contains_key(who) {
        balances[who]
    } else {
        0
    }
}

/// What a transfer of `amount` from `caller` to `to` makes of `balances`.
///
/// Both checks are made on the balances as they stand before the transfer. A
/// transfer that passes them moves `amount` from one account to the other; a
/// transfer to oneself that passes them changes nothing.
pub open spec fn transfer_outcome(
    balances: Map<Seq<char>, Balance>,
    caller: Seq<char>,
    to: Seq<char>,
    amount: Balance,
) -> Result<Map<Seq<char>, Balance>, DispatchError> {
    let from_balance = balance_in(balances, caller);
    let to_balance = balance_in(balances, to);
    if from_balance < amount {
        Err(DispatchError::InsufficientFunds)
    } else if to_balance + amount > Balance::MAX {
        Err(DispatchError::Overflow)
    } else if caller == to {
        Ok(balances)
    } else {
        Ok(
            balances.insert(caller, (from_balance - amount) as Balance).insert(
                to,
                (to_balance + amount) as Balance,
            ),
        )
    }
}

/// The balances after an attempted transfer: those of `transfer_outcome` where
/// it succeeds, and the unchanged ones where it fails.
pub open spec fn balances_after_transfer(
    balances: Map<Seq<char>, Balance>,
    caller: Seq<char>,
    to: Seq<char>,
    amount: Balance,
) -> Map<Seq<char>, Balance> {
    match transfer_outcome(balances, caller, to, amount) {
        Ok(after) => after,
        Err(_) => balances,
    }
}

/// The balance of every account.
#[derive(Debug)]
pub struct Pallet {
    /// The balance of each account that was ever written.
    balances: AccountMap<Balance>,
}

/// The calls that the balances module accepts.
#[derive(Debug)]
pub enum Call {
    /// Move `amount` from the caller to `to`.
    Transfer { to: AccountId, amount: Balance },
}

impl Pallet {
    /// The recorded balances.
    pub closed spec fn view(&self) -> Map<Seq<char>, Balance> {
        self.balances@
    }

    /// The balance of `who`.
    pub open spec fn balance_of(&self, who: Seq<char>) -> Balance {
        balance_in(self@, who)
    }

    /// A ledger in which no account holds anything.
    pub fn new() -> (pallet: Self)
        ensures
            pallet@ == Map::<Seq<char>, Balance>::empty(),
            forall|who: Seq<char>| pallet.balance_of(who) == 0,
    {
        Self { balances: AccountMap::new() }
    }

    /// Sets the balance of `who` to `amount`.
    pub fn set_balance(&mut self, who: &AccountId, amount: Balance)
        ensures
            final(self)@ == old(self)@.insert(who@, amount),
    {
        self.balances.insert(who, amount);
    }

    /// The balance of `who`: zero for an account that was never written.
    pub fn balance(&self, who: &AccountId) -> (amount: Balance)
        ensures
            amount == self.balance_of(who@),
    {
        match self.balances.get(who) {
            Some(amount) => amount,
            None => zero_u128(),
        }
    }

    /// Moves `amount` from `caller` to `to`.
    ///
    /// Fails, and changes nothing, where `caller` holds less than `amount` or
    /// where `to` would hold more than a balance can express.
    pub fn transfer(&mut self, caller: AccountId, to: AccountId, amount: Balance) -> (result:
        DispatchResult)
        ensures
            match transfer_outcome(old(self)@, caller@, to@, amount) {
                Ok(after) => result == Ok::<(), DispatchError>(()) && final(self)@ == after,
                Err(e) => result == Err::<(), DispatchError>(e) && final(self)@ == old(self)@,
            },
    {
        let caller_balance = self.balance(&caller);
        let to_balance = self.balance(&to);
        let new_caller_balance = match checked_sub_u128(caller_balance, amount) {
            Some(rest) => rest,
            None => { return Err(DispatchError::InsufficientFunds); },
        };
        let new_to_balance = match checked_add_u128(to_balance, amount) {
            Some(sum) => sum,
            None => { return Err(DispatchError::Overflow); },
        };
        if caller != to {
            self.set_balance(&caller, new_caller_balance);
            self.set_balance(&to, new_to_balance);
        }
        Ok(())
    }
}

impl Dispatch for Pallet {
    type Caller = AccountId;

    type Call = Call;

    /// Routes `call` to the operation of this module that handles it.
    fn dispatch(&mut self, caller: AccountId, call: Call) -> (result: DispatchResult)
        ensures
            match call {
                Call::Transfer { to, amount } => match transfer_outcome(
                    old(self)@,
                    caller@,
                    to@,
                    amount,
                ) {
                    Ok(after) => result == Ok::<(), DispatchError>(()) && final(self)@ == after,
                    Err(e) => result == Err::<(), DispatchError>(e) && final(self)@ == old(
                        self,
                    )@,
                },
            },
    {
        match call {
            Call::Transfer { to, amount } => self.transfer(caller, to, amount),
        }
    }
}

/// An account that was never written holds nothing, and neither setting the
/// balance of another account nor a transfer between other accounts gives it
/// anything.
pub proof fn lemma_untouched_account_holds_nothing(
    balances: Map<Seq<char>, Balance>,
    who: Seq<char>,
    caller: Seq<char>,
    to: Seq<char>,
    amount: Balance,
)
    requires
        who != caller,
        who != to,
    ensures
        balance_in(Map::<Seq<char>, Balance>::empty(), who) == 0,
        balance_in(balances.insert(to, amount), who) == balance_in(balances, who),
        balance_in(balances_after_transfer(balances, caller, to, amount), who) == balance_in(
            balances,
            who,
        ),
{
}

/// A transfer of more than the caller holds is refused for want of funds, and
/// the balances stay as they were.
pub proof fn lemma_transfer_without_funds(
    balances: Map<Seq<char>, Balance>,
    caller: Seq<char>,
    to: Seq<char>,
    amount: Balance,
)
    requires
        balance_in(balances, caller) < amount,
    ensures
        transfer_outcome(balances, caller, to, amount) == Err::<
            Map<Seq<char>, Balance>,
            DispatchError,
        >(DispatchError::InsufficientFunds),
        balances_after_transfer(balances, caller, to, amount) == balances,
{
}

/// A transfer between two accounts that the caller can pay, and that the
/// destination can hold, succeeds: the caller has `amount` less, the
/// destination `amount` more, and every other account what it had.
pub proof fn lemma_transfer_moves_amount(
    balances: Map<Seq<char>, Balance>,
    caller: Seq<char>,
    to: Seq<char>,
    amount: Balance,
    other: Seq<char>,
)
    requires
        caller != to,
        balance_in(balances, caller) >= amount,
        balance_in(balances, to) + amount <= Balance::MAX,
    ensures
        transfer_outcome(balances, caller, to, amount).is_ok(),
        balance_in(balances_after_transfer(balances, caller, to, amount), caller) == balance_in(
            balances,
            caller,
        ) - amount,
        balance_in(balances_after_transfer(balances, caller, to, amount), to) == balance_in(
            balances,
            to,
        ) + amount,
        other != caller && other != to ==> balance_in(
            balances_after_transfer(balances, caller, to, amount),
            other,
        ) == balance_in(balances, other),
{
}

/// Whatever a transfer does, the caller and the destination hold together
/// what they held before it.
pub proof fn lemma_transfer_conserves(
    balances: Map<Seq<char>, Balance>,
    caller: Seq<char>,
    to: Seq<char>,
    amount: Balance,
)
    ensures
        balance_in(balances_after_transfer(balances, caller, to, amount), caller) + balance_in(
            balances_after_transfer(balances, caller, to, amount),
            to,
        ) == balance_in(balances, caller) + balance_in(balances, to),
{
}

/// A transfer to oneself leaves one's balance as it was.
pub proof fn lemma_transfer_to_self(
    balances: Map<Seq<char>, Balance>,
    who: Seq<char>,
    amount: Balance,
)
    ensures
        balance_in(balances_after_transfer(balances, who, who, amount), who) == balance_in(
            balances,
            who,
        ),
        balance_in(balances, who) >= amount && balance_in(balances, who) + amount
            <= Balance::MAX ==> transfer_outcome(balances, who, who, amount) == Ok::<
            Map<Seq<char>, Balance>,
            DispatchError,
        >(balances),
{
}

} // verus!

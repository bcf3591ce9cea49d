//! The token ledger as a mathematical object: what every account holds, what
//! every owner has allowed every spender, and the total supply, together with
//! the effect of each operation on them.

use crate::primitives::{Address, U256};
use crate::tokens::sum::{
    lemma_total_insert, lemma_total_zero, lemma_two_values_le_total, lemma_value_le_total,
    support, total,
};
use vstd::prelude::*;

verus! {

/// The state of a token ledger.
///
/// Both tables hold a value at every key: an account that was never credited
/// has balance zero, and an allowance that was never set is zero.
#[verifier::ext_equal]
pub struct Ledger {
    /// The token's name.
    pub name: Seq<char>,
    /// The token's symbol.
    pub symbol: Seq<char>,
    /// The number of decimals used to display amounts.
    pub decimals: u8,
    /// The balance of every account.
    pub balances: Map<Address, nat>,
    /// For every pair of owner and spender, what the spender may still move
    /// out of the owner's account.
    pub allowances: Map<(Address, Address), nat>,
    /// The number of tokens in existence.
    pub total_supply: nat,
}

/// Why a ledger operation was refused.
pub enum Rejection {
    /// The account `from` holds `have`, less than the `want` to be moved.
    InsufficientBalance { from: Address, have: nat, want: nat },
    /// `spender` may move `have` out of the account of `owner`, less than
    /// the `want` to be moved.
    InsufficientAllowance { owner: Address, spender: Address, have: nat, want: nat },
}

impl Ledger {
    /// The ledger of a new token: no account holds anything, nothing is
    /// allowed, and the supply is zero.
    pub open spec fn empty(name: Seq<char>, symbol: Seq<char>, decimals: u8) -> Ledger {
        Ledger {
            name,
            symbol,
            decimals,
            balances: Map::total(|account: Address| 0nat),
            allowances: Map::total(|pair: (Address, Address)| 0nat),
            total_supply: 0,
        }
    }

    /// What `account` holds.
    pub open spec fn balance_of(self, account: Address) -> nat {
        self.balances[account]
    }

    /// What `spender` may still move out of the account of `owner`.
    pub open spec fn allowance(self, owner: Address, spender: Address) -> nat {
        self.allowances[(owner, spender)]
    }

    /// The sum of the balances of all accounts.
    pub open spec fn sum_of_balances(self) -> nat {
        total(self.balances)
    }

    /// Conservation of value: all but finitely many balances are zero, and
    /// the balances add up to the total supply.
    pub open spec fn conserved(self) -> bool {
        &&& support(self.balances).finite()
        &&& self.sum_of_balances() == self.total_supply
    }

    /// The invariant of the ledger: both tables hold a value at every key,
    /// value is conserved, and the supply and every allowance fit in 256
    /// bits.
    pub open spec fn valid(self) -> bool {
        &&& self.balances.dom() =~= Set::<Address>::full()
        &&& self.allowances.dom() =~= Set::<(Address, Address)>::full()
        &&& self.conserved()
        &&& self.total_supply <= U256::max_value()
        &&& forall|pair: (Address, Address)| #[trigger] self.allowances[pair] <= U256::max_value()
    }

    /// The ledger after `value` was taken out of the account `from`.
    pub open spec fn debited(self, from: Address, value: nat) -> Ledger
        recommends
            value <= self.balance_of(from),
    {
        Ledger {
            balances: self.balances.insert(from, (self.balance_of(from) - value) as nat),
            ..self
        }
    }

    /// The ledger after `value` was put into the account `to`.
    pub open spec fn credited(self, to: Address, value: nat) -> Ledger {
        Ledger { balances: self.balances.insert(to, self.balance_of(to) + value), ..self }
    }

    /// Moving `value` from `from` to `to`: refused when `from` holds less;
    /// otherwise `from` is debited and then `to` is credited, so that a
    /// transfer to oneself leaves the balance as it was.
    pub open spec fn transfer(
        self,
        from: Address,
        to: Address,
        value: nat,
    ) -> Result<Ledger, Rejection> {
        if self.balance_of(from) < value {
            Err(Rejection::InsufficientBalance { from, have: self.balance_of(from), want: value })
        } else {
            Ok(self.debited(from, value).credited(to, value))
        }
    }

    /// Setting the allowance of `spender` over the account of `owner` to
    /// `value`, whatever it was before.
    pub open spec fn approve(self, owner: Address, spender: Address, value: nat) -> Ledger {
        Ledger { allowances: self.allowances.insert((owner, spender), value), ..self }
    }

    /// `caller` moving `value` from `from` to `to` on the allowance that
    /// `from` gave it: refused when the allowance is less than `value`, then
    /// when the balance of `from` is; otherwise the allowance shrinks by
    /// `value` and the transfer is made.
    pub open spec fn transfer_from(
        self,
        caller: Address,
        from: Address,
        to: Address,
        value: nat,
    ) -> Result<Ledger, Rejection> {
        let have = self.allowance(from, caller);
        if have < value {
            Err(
                Rejection::InsufficientAllowance { owner: from, spender: caller, have, want: value },
            )
        } else {
            self.approve(from, caller, (have - value) as nat).transfer(from, to, value)
        }
    }

    /// Creating `value` new tokens in the account `to`.
    pub open spec fn mint(self, to: Address, value: nat) -> Ledger {
        Ledger { total_supply: self.total_supply + value, ..self.credited(to, value) }
    }
}

/// A new ledger satisfies the invariant.
pub proof fn lemma_empty_valid(name: Seq<char>, symbol: Seq<char>, decimals: u8)
    ensures
        Ledger::empty(name, symbol, decimals).valid(),
{
    lemma_total_zero(Ledger::empty(name, symbol, decimals).balances);
}

/// A receiver's balance cannot overflow: once `value` has left the account
/// `from`, any account can take it in without its balance exceeding the
/// total supply.
pub proof fn lemma_credit_fits(s: Ledger, from: Address, to: Address, value: nat)
    requires
        s.valid(),
        value <= s.balance_of(from),
    ensures
        s.debited(from, value).balance_of(to) + value <= s.total_supply,
{
    if from == to {
        lemma_value_le_total(s.balances, from);
    } else {
        lemma_two_values_le_total(s.balances, from, to);
    }
}

/// A transfer keeps the invariant and the total supply.
pub proof fn lemma_transfer_valid(s: Ledger, from: Address, to: Address, value: nat)
    requires
        s.valid(),
    ensures
        s.transfer(from, to, value) matches Ok(after) ==> after.valid() && after.total_supply
            == s.total_supply,
{
    if value <= s.balance_of(from) {
        let debited = s.debited(from, value);
        lemma_total_insert(s.balances, from, (s.balance_of(from) - value) as nat);
        lemma_total_insert(debited.balances, to, debited.balance_of(to) + value);
    }
}

/// Minting keeps the invariant as long as the new supply fits in 256 bits.
pub proof fn lemma_mint_valid(s: Ledger, to: Address, value: nat)
    requires
        s.valid(),
        s.total_supply + value <= U256::max_value(),
    ensures
        s.mint(to, value).valid(),
{
    lemma_total_insert(s.balances, to, s.balance_of(to) + value);
}

/// An approval of an amount that fits in 256 bits keeps the invariant.
pub proof fn lemma_approve_valid(s: Ledger, owner: Address, spender: Address, value: nat)
    requires
        s.valid(),
        value <= U256::max_value(),
    ensures
        s.approve(owner, spender, value).valid(),
{
    let after = s.approve(owner, spender, value);
    assert forall|pair: (Address, Address)| #[trigger]
        after.allowances[pair] <= U256::max_value() by {
        if pair != (owner, spender) {
            assert(after.allowances[pair] == s.allowances[pair]);
        }
    }
}

/// A transfer on an allowance keeps the invariant and the total supply.
pub proof fn lemma_transfer_from_valid(
    s: Ledger,
    caller: Address,
    from: Address,
    to: Address,
    value: nat,
)
    requires
        s.valid(),
    ensures
        s.transfer_from(caller, from, to, value) matches Ok(after) ==> after.valid()
            && after.total_supply == s.total_supply,
{
    let have = s.allowance(from, caller);
    if value <= have {
        lemma_approve_valid(s, from, caller, (have - value) as nat);
        lemma_transfer_valid(s.approve(from, caller, (have - value) as nat), from, to, value);
    }
}

} // verus!

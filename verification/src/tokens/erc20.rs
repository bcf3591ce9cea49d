//! A fungible token: balances, allowances and total supply, with the
//! operations that move tokens between accounts.

use crate::primitives::{Address, U256};
use crate::tokens::ledger::{
    lemma_approve_valid, lemma_credit_fits, lemma_empty_valid, lemma_mint_valid,
    lemma_transfer_valid, Ledger, Rejection,
};
use crate::tokens::table::Table;
use vstd::prelude::*;

verus! {

/// The fixed description of a token.
#[derive(Clone, Debug)]
pub struct Erc20Params {
    /// The token's name.
    pub name: String,
    /// The token's symbol.
    pub symbol: String,
    /// The number of decimals used to display amounts.
    pub decimals: u8,
}

/// `value` tokens were moved from `from` to `to`.
#[derive(Clone, Copy, Debug, PartialEq, Eq)]
pub struct Transfer {
    pub from: Address,
    pub to: Address,
    pub value: U256,
}

/// `owner` set the allowance of `spender` to `value`.
#[derive(Clone, Copy, Debug, PartialEq, Eq)]
pub struct Approval {
    pub owner: Address,
    pub spender: Address,
    pub value: U256,
}

/// A notification that the ledger emits for outside observers.
#[derive(Clone, Copy, Debug, PartialEq, Eq)]
pub enum Event {
    Transfer(Transfer),
    Approval(Approval),
}

/// The account `from` holds `have`, less than the `want` to be moved.
#[derive(Clone, Copy, Debug, PartialEq, Eq)]
pub struct InsufficientBalance {
    pub from: Address,
    pub have: U256,
    pub want: U256,
}

/// `spender` may move `have` out of the account of `owner`, less than the
/// `want` to be moved.
#[derive(Clone, Copy, Debug, PartialEq, Eq)]
pub struct InsufficientAllowance {
    pub owner: Address,
    pub spender: Address,
    pub have: U256,
    pub want: U256,
}

/// Why the ledger refused an operation.
#[derive(Clone, Copy, Debug, PartialEq, Eq)]
pub enum Erc20Error {
    InsufficientBalance(InsufficientBalance),
    InsufficientAllowance(InsufficientAllowance),
}

impl View for Erc20Error {
    type V = Rejection;

    open spec fn view(&self) -> Rejection {
        match *self {
            Erc20Error::InsufficientBalance(e) => Rejection::InsufficientBalance {
                from: e.from,
                have: e.have@,
                want: e.want@,
            },
            Erc20Error::InsufficientAllowance(e) => Rejection::InsufficientAllowance {
                owner: e.owner,
                spender: e.spender,
                have: e.have@,
                want: e.want@,
            },
        }
    }
}

/// A token ledger.
pub struct Erc20 {
    params: Erc20Params,
    balances: Table<Address>,
    allowances: Table<(Address, Address)>,
    total_supply: U256,
}

impl View for Erc20 {
    type V = Ledger;

    closed spec fn view(&self) -> Ledger {
        Ledger {
            name: self.params.name@,
            symbol: self.params.symbol@,
            decimals: self.params.decimals,
            balances: self.balances@,
            allowances: self.allowances@,
            total_supply: self.total_supply@,
        }
    }
}

impl Erc20 {
    /// The ledger is well formed: its state satisfies the ledger invariant,
    /// so that the balances add up to the total supply.
    pub open spec fn wf(&self) -> bool {
        self@.valid()
    }

    /// The ledger of a new token: empty, with supply zero.
    pub fn new(params: Erc20Params) -> (ledger: Erc20)
        ensures
            ledger.wf(),
            ledger@ == Ledger::empty(params.name@, params.symbol@, params.decimals),
    {
        let ledger = Erc20 {
            params,
            balances: Table::new(),
            allowances: Table::new(),
            total_supply: U256::zero(),
        };
        proof {
            lemma_empty_valid(params.name@, params.symbol@, params.decimals);
        }
        ledger
    }

    /// The name of the token.
    pub fn name(&self) -> (name: String)
        ensures
            name@ == self@.name,
    {
        self.params.name.clone()
    }

    /// The symbol of the token.
    pub fn symbol(&self) -> (symbol: String)
        ensures
            symbol@ == self@.symbol,
    {
        self.params.symbol.clone()
    }

    /// The number of decimals the token uses. It only matters for display and
    /// has no part in the ledger's arithmetic.
    pub fn decimals(&self) -> (decimals: u8)
        ensures
            decimals == self@.decimals,
    {
        self.params.decimals
    }

    /// The number of tokens in existence. In a well-formed ledger it is the
    /// sum of the balances of all accounts.
    pub fn total_supply(&self) -> (supply: U256)
        ensures
            supply@ == self@.total_supply,
            self.wf() ==> supply@ == self@.sum_of_balances(),
    {
        self.total_supply
    }

    /// The balance of `account`; zero for an account that never received
    /// anything.
    pub fn balance_of(&self, account: Address) -> (balance: U256)
        ensures
            balance@ == self@.balance_of(account),
    {
        self.balances.get(&account)
    }

    /// What `spender` may still move out of the account of `owner`; zero if
    /// nothing was ever approved.
    pub fn allowance(&self, owner: Address, spender: Address) -> (allowance: U256)
        ensures
            allowance@ == self@.allowance(owner, spender),
    {
        self.allowances.get(&(owner, spender))
    }

    /// Sets the allowance of `spender` over the tokens of `caller` to `value`,
    /// whatever it was before, and reports the approval.
    pub fn approve(
        &mut self,
        caller: Address,
        spender: Address,
        value: U256,
        log: &mut Vec<Event>,
    ) -> (done: bool)
        requires
            old(self).wf(),
        ensures
            done,
            final(self).wf(),
            final(self)@ == old(self)@.approve(caller, spender, value@),
            final(log)@ == old(log)@.push(
                Event::Approval(Approval { owner: caller, spender, value }),
            ),
    {
        proof {
            value.lemma_in_range();
            lemma_approve_valid(self@, caller, spender, value@);
        }
        self.allowances.set((caller, spender), value);
        log.push(Event::Approval(Approval { owner: caller, spender, value }));
        true
    }

    /// Moves `value` tokens from `from` to `to` and reports the transfer.
    ///
    /// Refused, with nothing changed and nothing reported, when `from` holds
    /// less than `value`. The sender is debited before the receiver is
    /// credited, so a transfer to oneself leaves the balance as it was.
    pub fn _transfer(
        &mut self,
        from: Address,
        to: Address,
        value: U256,
        log: &mut Vec<Event>,
    ) -> (result: Result<bool, Erc20Error>)
        requires
            old(self).wf(),
        ensures
            final(self).wf(),
            old(self)@.transfer(from, to, value@) == (match result {
                Ok(_) => Ok::<Ledger, Rejection>(final(self)@),
                Err(e) => Err::<Ledger, Rejection>(e@),
            }),
            result matches Ok(done) ==> done,
            result is Err ==> final(self)@ == old(self)@,
            final(log)@ == (match result {
                Ok(_) => old(log)@.push(Event::Transfer(Transfer { from, to, value })),
                Err(_) => old(log)@,
            }),
    {
        let have = self.balances.get(&from);
        let rest = match have.checked_sub(value) {
            Some(rest) => rest,
            None => {
                return Err(
                    Erc20Error::InsufficientBalance(
                        InsufficientBalance { from, have, want: value },
                    ),
                );
            },
        };
        self.balances.set(from, rest);
        let held = self.balances.get(&to);
        proof {
            lemma_credit_fits(old(self)@, from, to, value@);
            lemma_transfer_valid(old(self)@, from, to, value@);
        }
        let sum = held.checked_add(value).unwrap();
        self.balances.set(to, sum);
        log.push(Event::Transfer(Transfer { from, to, value }));
        Ok(true)
    }

    /// Creates `value` new tokens in the account `address` and reports them
    /// as transferred from the zero address.
    ///
    /// The new total supply must fit in 256 bits.
    pub fn _mint(&mut self, address: Address, value: U256, log: &mut Vec<Event>)
        requires
            old(self).wf(),
            old(self)@.total_supply + value@ <= U256::max_value(),
        ensures
            final(self).wf(),
            final(self)@ == old(self)@.mint(address, value@),
            final(log)@ == old(log)@.push(
                Event::Transfer(Transfer { from: Address::zero(), to: address, value }),
            ),
    {
        let held = self.balances.get(&address);
        proof {
            lemma_credit_fits(self@, address, address, 0);
            lemma_mint_valid(self@, address, value@);
        }
        let balance = held.checked_add(value).unwrap();
        let supply = self.total_supply.checked_add(value).unwrap();
        self.balances.set(address, balance);
        self.total_supply = supply;
        log.push(Event::Transfer(Transfer { from: Address::zero(), to: address, value }));
    }

    /// Moves `value` tokens from the account of `caller` to `to` and reports
    /// the transfer. Refused, with nothing changed, when `caller` holds less
    /// than `value`.
    pub fn transfer(
        &mut self,
        caller: Address,
        to: Address,
        value: U256,
        log: &mut Vec<Event>,
    ) -> (result: Result<bool, Erc20Error>)
        requires
            old(self).wf(),
        ensures
            final(self).wf(),
            old(self)@.transfer(caller, to, value@) == (match result {
                Ok(_) => Ok::<Ledger, Rejection>(final(self)@),
                Err(e) => Err::<Ledger, Rejection>(e@),
            }),
            result matches Ok(done) ==> done,
            result is Err ==> final(self)@ == old(self)@,
            final(log)@ == (match result {
                Ok(_) => old(log)@.push(Event::Transfer(Transfer { from: caller, to, value })),
                Err(_) => old(log)@,
            }),
    {
        self._transfer(caller, to, value, log)
    }

    /// Moves `value` tokens from `from` to `to` on the allowance that `from`
    /// gave to `caller`, takes `value` off that allowance, and reports the
    /// transfer.
    ///
    /// Refused when the allowance is less than `value`, and then when `from`
    /// holds less than `value`. A refusal changes nothing and reports
    /// nothing: no allowance is used up for a transfer that was not made.
    pub fn transfer_from(
        &mut self,
        caller: Address,
        from: Address,
        to: Address,
        value: U256,
        log: &mut Vec<Event>,
    ) -> (result: Result<bool, Erc20Error>)
        requires
            old(self).wf(),
        ensures
            final(self).wf(),
            old(self)@.transfer_from(caller, from, to, value@) == (match result {
                Ok(_) => Ok::<Ledger, Rejection>(final(self)@),
                Err(e) => Err::<Ledger, Rejection>(e@),
            }),
            result matches Ok(done) ==> done,
            result is Err ==> final(self)@ == old(self)@,
            final(log)@ == (match result {
                Ok(_) => old(log)@.push(Event::Transfer(Transfer { from, to, value })),
                Err(_) => old(log)@,
            }),
    {
        let have = self.allowances.get(&(from, caller));
        let rest = match have.checked_sub(value) {
            Some(rest) => rest,
            None => {
                return Err(
                    Erc20Error::InsufficientAllowance(
                        InsufficientAllowance { owner: from, spender: caller, have, want: value },
                    ),
                );
            },
        };
        // The transfer is tried before the allowance is written, so that a
        // refused transfer leaves the allowance as it was.
        match self._transfer(from, to, value, log) {
            Ok(_) => {
                proof {
                    rest.lemma_in_range();
                    lemma_approve_valid(self@, from, caller, rest@);
                }
                self.allowances.set((from, caller), rest);
                Ok(true)
            },
            Err(e) => Err(e),
        }
    }
}

} // verus!

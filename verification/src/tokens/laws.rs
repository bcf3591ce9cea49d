//! What holds of the ledger over whole histories of calls, and of the single
//! operations beyond their definitions.

use crate::primitives::{Address, U256};
use crate::tokens::ledger::{
    lemma_approve_valid, lemma_empty_valid, lemma_mint_valid, lemma_transfer_from_valid,
    lemma_transfer_valid, Ledger, Rejection,
};
use vstd::prelude::*;

verus! {

/// A call of one of the operations that change the ledger.
pub enum Call {
    /// `caller` moves `value` to `to`.
    Transfer { caller: Address, to: Address, value: nat },
    /// `caller` sets the allowance of `spender` to `value`.
    Approve { caller: Address, spender: Address, value: nat },
    /// `caller` moves `value` from `from` to `to` on its allowance.
    TransferFrom { caller: Address, from: Address, to: Address, value: nat },
    /// `value` new tokens are created in the account `to`.
    Mint { to: Address, value: nat },
}

impl Call {
    /// The amount that the call carries.
    pub open spec fn value(self) -> nat {
        match self {
            Call::Transfer { value, .. } => value,
            Call::Approve { value, .. } => value,
            Call::TransferFrom { value, .. } => value,
            Call::Mint { value, .. } => value,
        }
    }
}

impl Ledger {
    /// The ledger after `call`. A call that is refused leaves the ledger as
    /// it was, and so does a mint that would take the supply beyond 256
    /// bits, which is aborted.
    pub open spec fn after(self, call: Call) -> Ledger {
        match call {
            Call::Transfer { caller, to, value } => match self.transfer(caller, to, value) {
                Ok(next) => next,
                Err(_) => self,
            },
            Call::Approve { caller, spender, value } => self.approve(caller, spender, value),
            Call::TransferFrom { caller, from, to, value } => match self.transfer_from(
                caller,
                from,
                to,
                value,
            ) {
                Ok(next) => next,
                Err(_) => self,
            },
            Call::Mint { to, value } => if self.total_supply + value <= U256::max_value() {
                self.mint(to, value)
            } else {
                self
            },
        }
    }

    /// The ledger after a sequence of calls, made in order.
    pub open spec fn after_all(self, calls: Seq<Call>) -> Ledger
        decreases calls.len(),
    {
        if calls.len() == 0 {
            self
        } else {
            self.after_all(calls.drop_last()).after(calls.last())
        }
    }
}

/// Every call keeps the ledger invariant.
pub proof fn lemma_call_keeps_valid(s: Ledger, call: Call)
    requires
        s.valid(),
        call.value() <= U256::max_value(),
    ensures
        s.after(call).valid(),
{
    match call {
        Call::Transfer { caller, to, value } => {
            lemma_transfer_valid(s, caller, to, value);
        },
        Call::Approve { caller, spender, value } => {
            lemma_approve_valid(s, caller, spender, value);
        },
        Call::TransferFrom { caller, from, to, value } => {
            lemma_transfer_from_valid(s, caller, from, to, value);
        },
        Call::Mint { to, value } => {
            if s.total_supply + value <= U256::max_value() {
                lemma_mint_valid(s, to, value);
            }
        },
    }
}

/// In every state that a new ledger can reach by calls of its operations,
/// the balances of all accounts add up to the total supply.
pub proof fn lemma_reachable_conserved(
    name: Seq<char>,
    symbol: Seq<char>,
    decimals: u8,
    calls: Seq<Call>,
)
    requires
        forall|i: int| 0 <= i < calls.len() ==> (#[trigger] calls[i]).value() <= U256::max_value(),
    ensures
        Ledger::empty(name, symbol, decimals).after_all(calls).valid(),
        Ledger::empty(name, symbol, decimals).after_all(calls).sum_of_balances() == Ledger::empty(
            name,
            symbol,
            decimals,
        ).after_all(calls).total_supply,
    decreases calls.len(),
{
    if calls.len() == 0 {
        lemma_empty_valid(name, symbol, decimals);
    } else {
        lemma_reachable_conserved(name, symbol, decimals, calls.drop_last());
        lemma_call_keeps_valid(
            Ledger::empty(name, symbol, decimals).after_all(calls.drop_last()),
            calls.last(),
        );
    }
}

/// Only minting changes the total supply.
pub proof fn lemma_supply_changes_only_by_mint(s: Ledger, call: Call)
    requires
        !(call is Mint),
    ensures
        s.after(call).total_supply == s.total_supply,
{
}

/// A transfer of more than the sender holds is refused, names what the
/// sender has and what was asked for, and changes nothing.
pub proof fn lemma_overdraw_refused(s: Ledger, from: Address, to: Address, value: nat)
    requires
        s.balance_of(from) < value,
    ensures
        s.transfer(from, to, value) == Err::<Ledger, Rejection>(
            Rejection::InsufficientBalance { from, have: s.balance_of(from), want: value },
        ),
        s.after(Call::Transfer { caller: from, to, value }) == s,
{
}

/// A transfer of one more than the sender holds is refused with the balance
/// as it is and the amount asked for, and both balances stay as they were.
pub proof fn lemma_transfer_one_short(s: Ledger, from: Address, to: Address, value: nat)
    requires
        s.balance_of(from) + 1 == value,
    ensures
        s.transfer(from, to, value) == Err::<Ledger, Rejection>(
            Rejection::InsufficientBalance { from, have: (value - 1) as nat, want: value },
        ),
        s.after(Call::Transfer { caller: from, to, value }).balance_of(from) == s.balance_of(from),
        s.after(Call::Transfer { caller: from, to, value }).balance_of(to) == s.balance_of(to),
{
}

/// A transfer that the sender can afford moves exactly `value`: between two
/// different accounts the sender loses it and the receiver gains it, and no
/// other balance, no allowance and not the supply changes.
pub proof fn lemma_transfer_moves_exactly(s: Ledger, from: Address, to: Address, value: nat)
    requires
        value <= s.balance_of(from),
        from != to,
    ensures
        (s.transfer(from, to, value) matches Ok(after) && {
            &&& after.balance_of(from) + value == s.balance_of(from)
            &&& after.balance_of(to) == s.balance_of(to) + value
            &&& forall|other: Address|
                other != from && other != to ==> after.balance_of(other) == s.balance_of(other)
            &&& after.allowances == s.allowances
            &&& after.total_supply == s.total_supply
        }),
{
}

/// A transfer of the sender's whole balance to another account succeeds,
/// empties the sender's account and adds exactly that balance to the
/// receiver's.
pub proof fn lemma_transfer_whole_balance(s: Ledger, from: Address, to: Address, value: nat)
    requires
        s.balance_of(from) == value,
        from != to,
    ensures
        (s.transfer(from, to, value) matches Ok(after) && {
            &&& after.balance_of(from) == 0
            &&& after.balance_of(to) == s.balance_of(to) + value
        }),
{
}

/// A transfer to oneself that one can afford changes nothing.
pub proof fn lemma_transfer_to_self(s: Ledger, account: Address, value: nat)
    requires
        s.valid(),
        value <= s.balance_of(account),
    ensures
        s.transfer(account, account, value) == Ok::<Ledger, Rejection>(s),
{
    let after = s.debited(account, value).credited(account, value);
    assert(after.balances =~= s.balances);
}

/// An approval overwrites: after two approvals of the same spender by the
/// same owner the allowance is the second amount, and the ledger is as if
/// the first approval had never been made.
pub proof fn lemma_approve_overwrites(
    s: Ledger,
    owner: Address,
    spender: Address,
    first: nat,
    second: nat,
)
    ensures
        s.approve(owner, spender, first).approve(owner, spender, second).allowance(owner, spender)
            == second,
        s.approve(owner, spender, first).approve(owner, spender, second) == s.approve(
            owner,
            spender,
            second,
        ),
{
    let twice = s.approve(owner, spender, first).approve(owner, spender, second);
    assert(twice.allowances =~= s.approve(owner, spender, second).allowances);
}

/// An approval touches one allowance and nothing else.
pub proof fn lemma_approve_touches_one(s: Ledger, owner: Address, spender: Address, value: nat)
    ensures
        s.approve(owner, spender, value).allowance(owner, spender) == value,
        forall|o: Address, p: Address|
            (o, p) != (owner, spender) ==> s.approve(owner, spender, value).allowance(o, p)
                == s.allowance(o, p),
        s.approve(owner, spender, value).balances == s.balances,
        s.approve(owner, spender, value).total_supply == s.total_supply,
{
}

/// A transfer on an allowance that is too small is refused, names what is
/// allowed and what was asked for, and changes nothing.
pub proof fn lemma_overspend_refused(
    s: Ledger,
    caller: Address,
    from: Address,
    to: Address,
    value: nat,
)
    requires
        s.allowance(from, caller) < value,
    ensures
        s.transfer_from(caller, from, to, value) == Err::<Ledger, Rejection>(
            Rejection::InsufficientAllowance {
                owner: from,
                spender: caller,
                have: s.allowance(from, caller),
                want: value,
            },
        ),
        s.after(Call::TransferFrom { caller, from, to, value }) == s,
{
}

/// A transfer on an allowance that is made takes exactly `value` off that
/// allowance, leaves every other allowance alone, and moves the tokens as a
/// plain transfer from `from` to `to` does.
pub proof fn lemma_transfer_from_consumes(
    s: Ledger,
    caller: Address,
    from: Address,
    to: Address,
    value: nat,
)
    requires
        value <= s.allowance(from, caller),
        value <= s.balance_of(from),
    ensures
        (s.transfer_from(caller, from, to, value) matches Ok(after) && {
            &&& after.allowance(from, caller) + value == s.allowance(from, caller)
            &&& forall|o: Address, p: Address|
                (o, p) != (from, caller) ==> after.allowance(o, p) == s.allowance(o, p)
            &&& s.transfer(from, to, value) matches Ok(moved) && after.balances == moved.balances
            &&& after.total_supply == s.total_supply
        }),
{
}

/// A transfer on an allowance that the owner's balance does not cover is
/// refused for the balance, and the allowance is not used up.
pub proof fn lemma_transfer_from_keeps_allowance(
    s: Ledger,
    caller: Address,
    from: Address,
    to: Address,
    value: nat,
)
    requires
        value <= s.allowance(from, caller),
        s.balance_of(from) < value,
    ensures
        s.transfer_from(caller, from, to, value) == Err::<Ledger, Rejection>(
            Rejection::InsufficientBalance { from, have: s.balance_of(from), want: value },
        ),
        s.after(Call::TransferFrom { caller, from, to, value }) == s,
{
}

/// Minting adds `value` to the receiver's balance and to the supply, and
/// changes no other balance and no allowance.
pub proof fn lemma_mint_adds(s: Ledger, to: Address, value: nat)
    ensures
        s.mint(to, value).balance_of(to) == s.balance_of(to) + value,
        s.mint(to, value).total_supply == s.total_supply + value,
        forall|other: Address|
            other != to ==> s.mint(to, value).balance_of(other) == s.balance_of(other),
        s.mint(to, value).allowances == s.allowances,
{
}

} // verus!

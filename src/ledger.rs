//! In-memory collaborators: an account resolver and the two ledgers, each
//! meeting the model its trait states.
use vstd::prelude::*;
use crate::adapter::{LedgerCall, LedgerError, LocationConversion, NativeLedger, TokenLedger};
use crate::asset::{Junction, JunctionView, MultiLocation};
use crate::key::TokenId;

verus! {

/// Resolves a location that ends in an account index to that index.
#[derive(Clone, Copy, Debug)]
pub struct AccountIndexConverter;

impl LocationConversion<u64> for AccountIndexConverter {
    open spec fn account_of(&self, location: Seq<JunctionView>) -> Option<u64> {
        if location.len() > 0 {
            match location.last() {
                JunctionView::AccountIndex64(n) => Some(n),
                _ => None,
            }
        } else {
            None
        }
    }

    fn from_location(&self, location: &MultiLocation) -> (r: Option<u64>) {
        let n = location.junctions.len();
        if n == 0 {
            return None;
        }
        match &location.junctions[n - 1] {
            Junction::AccountIndex64(i) => Some(*i),
            _ => None,
        }
    }
}

/// The balance of `who` in `token`: that of the latest entry for the pair,
/// or zero where there is none.
pub open spec fn token_balance(entries: Seq<(TokenId, u64, u128)>, token: TokenId, who: u64) -> u128
    decreases entries.len(),
{
    if entries.len() == 0 {
        0
    } else if entries.last().0 == token && entries.last().1 == who {
        entries.last().2
    } else {
        token_balance(entries.drop_last(), token, who)
    }
}

/// Token balances as `(token, account, balance)` entries, oldest first, the
/// latest entry of a pair giving its balance; with the calls accepted.
pub struct MemoryTokenLedger {
    pub balances: Vec<(TokenId, u64, u128)>,
    pub calls: Vec<LedgerCall<u64>>,
}

impl MemoryTokenLedger {
    /// A ledger with no balances and no calls.
    pub fn new() -> (r: MemoryTokenLedger)
        ensures
            r.balances@.len() == 0,
            r.calls@.len() == 0,
    {
        MemoryTokenLedger { balances: Vec::new(), calls: Vec::new() }
    }

    /// The balance of `who` in `token`.
    pub fn balance(&self, token: TokenId, who: u64) -> (r: u128)
        ensures
            r == token_balance(self.balances@, token, who),
    {
        let mut i: usize = self.balances.len();
        assert(self.balances@.subrange(0, i as int) =~= self.balances@);
        while i > 0
            invariant
                i <= self.balances@.len(),
                token_balance(self.balances@, token, who) == token_balance(
                    self.balances@.subrange(0, i as int),
                    token,
                    who,
                ),
            decreases i,
        {
            let ghost prefix = self.balances@.subrange(0, i as int);
            assert(prefix.drop_last() =~= self.balances@.subrange(0, i - 1));
            if self.balances[i - 1].0 == token && self.balances[i - 1].1 == who {
                return self.balances[i - 1].2;
            }
            i = i - 1;
        }
        assert(self.balances@.subrange(0, 0) =~= Seq::<(TokenId, u64, u128)>::empty());
        0
    }

    /// Sets the balance of `who` in `token`, without recording a call.
    pub fn set_balance(&mut self, token: TokenId, who: u64, amount: u128)
        ensures
            final(self).calls == old(self).calls,
            forall|t: TokenId, w: u64|
                #[trigger] token_balance(final(self).balances@, t, w) == if t == token && w == who {
                    amount
                } else {
                    token_balance(old(self).balances@, t, w)
                },
    {
        let ghost before = self.balances@;
        self.balances.push((token, who, amount));
        assert(self.balances@.drop_last() =~= before);
    }
}

impl TokenLedger<u64> for MemoryTokenLedger {
    open spec fn accepted_token_calls(&self) -> Seq<LedgerCall<u64>> {
        self.calls@
    }

    /// Refuses a mint that would take the balance past `u128::MAX`.
    open spec fn mint_result(&self, token: TokenId, who: u64, amount: u128) -> Result<
        (),
        LedgerError,
    > {
        if token_balance(self.balances@, token, who) + amount > u128::MAX {
            Err(LedgerError::Other)
        } else {
            Ok(())
        }
    }

    /// Refuses a burn of more than the balance.
    open spec fn burn_result(&self, token: TokenId, who: u64, amount: u128) -> Result<
        (),
        LedgerError,
    > {
        if token_balance(self.balances@, token, who) < amount {
            Err(LedgerError::InsufficientBalance)
        } else {
            Ok(())
        }
    }

    fn mint(&mut self, token: TokenId, who: u64, amount: u128) -> (r: Result<(), LedgerError>) {
        let b = self.balance(token, who);
        if b > u128::MAX - amount {
            return Err(LedgerError::Other);
        }
        self.set_balance(token, who, b + amount);
        self.calls.push(LedgerCall::Mint { token, who, amount });
        Ok(())
    }

    fn burn(&mut self, token: TokenId, who: u64, amount: u128) -> (r: Result<(), LedgerError>) {
        let b = self.balance(token, who);
        if b < amount {
            return Err(LedgerError::InsufficientBalance);
        }
        self.set_balance(token, who, b - amount);
        self.calls.push(LedgerCall::Burn { token, who, amount });
        Ok(())
    }
}

/// The account of `who`: the balance of the latest entry for it, `None` where
/// that entry removed the account or there is none.
pub open spec fn native_account(entries: Seq<(u64, Option<u128>)>, who: u64) -> Option<u128>
    decreases entries.len(),
{
    if entries.len() == 0 {
        None
    } else if entries.last().0 == who {
        entries.last().1
    } else {
        native_account(entries.drop_last(), who)
    }
}

/// Native accounts as `(account, balance)` entries, oldest first, the latest
/// entry of an account giving its balance (`None`: removed); with the calls
/// accepted.
pub struct MemoryNativeLedger {
    pub balances: Vec<(u64, Option<u128>)>,
    pub calls: Vec<LedgerCall<u64>>,
}

impl MemoryNativeLedger {
    /// A ledger with no accounts and no calls.
    pub fn new() -> (r: MemoryNativeLedger)
        ensures
            r.balances@.len() == 0,
            r.calls@.len() == 0,
    {
        MemoryNativeLedger { balances: Vec::new(), calls: Vec::new() }
    }

    /// The balance of the account of `who`, or `None` where it has none.
    pub fn account(&self, who: u64) -> (r: Option<u128>)
        ensures
            r == native_account(self.balances@, who),
    {
        let mut i: usize = self.balances.len();
        assert(self.balances@.subrange(0, i as int) =~= self.balances@);
        while i > 0
            invariant
                i <= self.balances@.len(),
                native_account(self.balances@, who) == native_account(
                    self.balances@.subrange(0, i as int),
                    who,
                ),
            decreases i,
        {
            let ghost prefix = self.balances@.subrange(0, i as int);
            assert(prefix.drop_last() =~= self.balances@.subrange(0, i - 1));
            if self.balances[i - 1].0 == who {
                return self.balances[i - 1].1;
            }
            i = i - 1;
        }
        assert(self.balances@.subrange(0, 0) =~= Seq::<(u64, Option<u128>)>::empty());
        None
    }

    /// The balance of `who`: that of its account, or zero where it has none.
    pub fn balance(&self, who: u64) -> (r: u128)
        ensures
            r == match native_account(self.balances@, who) {
                Some(b) => b,
                None => 0,
            },
    {
        match self.account(who) {
            Some(b) => b,
            None => 0,
        }
    }
}

impl NativeLedger<u64> for MemoryNativeLedger {
    open spec fn accepted_native_calls(&self) -> Seq<LedgerCall<u64>> {
        self.calls@
    }

    /// Refuses a debit from an account that does not exist or holds less than
    /// `amount`.
    open spec fn withdraw_result(&self, who: u64, amount: u128, allow_death: bool) -> Result<
        (),
        LedgerError,
    > {
        match native_account(self.balances@, who) {
            Some(b) => if b < amount {
                Err(LedgerError::InsufficientBalance)
            } else {
                Ok(())
            },
            None => Err(LedgerError::InsufficientBalance),
        }
    }

    /// Credits saturate at `u128::MAX`.
    fn deposit_creating(&mut self, who: u64, amount: u128) {
        let b = self.balance(who);
        self.balances.push((who, Some(b.saturating_add(amount))));
        self.calls.push(LedgerCall::DepositCreating { who, amount });
    }

    /// With `allow_death`, an account left at zero is removed.
    fn withdraw(&mut self, who: u64, amount: u128, allow_death: bool) -> (r: Result<
        (),
        LedgerError,
    >) {
        let b = match self.account(who) {
            Some(b) => b,
            None => return Err(LedgerError::InsufficientBalance),
        };
        if b < amount {
            return Err(LedgerError::InsufficientBalance);
        }
        if b == amount && allow_death {
            self.balances.push((who, None));
        } else {
            self.balances.push((who, Some(b - amount)));
        }
        self.calls.push(LedgerCall::Withdraw { who, amount, allow_death });
        Ok(())
    }
}

} // verus!

//! Settlement of deposits and withdrawals against the token and native ledgers.
use vstd::prelude::*;
use crate::asset::{
    is_parent_location, last_general_key, JunctionView, MultiAsset, MultiAssetView, MultiLocation,
};
use crate::key::{token_of_key, CurrencyId, TokenId};
use crate::matcher::{CurrencyIdConversion, IsConcreteWithGeneralKey};

verus! {

/// A refusal reported by a ledger.
#[derive(Clone, Copy, Debug, PartialEq, Eq, Structural)]
pub enum LedgerError {
    /// The account holds less than the amount to take.
    InsufficientBalance,
    /// Any other refusal, e.g. a supply cap.
    Other,
}

/// Why a deposit or a withdrawal was not carried out.
#[derive(Clone, Copy, Debug, PartialEq, Eq, Structural)]
pub enum AdapterError {
    /// The remote location names no local account.
    UnknownAccount,
    /// The descriptor names no known currency.
    UnrecognizedAsset,
    /// The descriptor carries no valid local amount.
    AmountMismatch,
    /// The ledger refused the operation.
    LedgerRejected(LedgerError),
}

/// The one ledger operation that settles a transfer.
#[derive(Clone, Copy, Debug, PartialEq, Eq)]
pub enum LedgerCall<A> {
    /// Mint `amount` of `token` to `who`.
    Mint { token: TokenId, who: A, amount: u128 },
    /// Burn `amount` of `token` from `who`.
    Burn { token: TokenId, who: A, amount: u128 },
    /// Credit `amount` of native currency to `who`, creating the account if absent.
    DepositCreating { who: A, amount: u128 },
    /// Debit `amount` of native currency from `who`.
    Withdraw { who: A, amount: u128, allow_death: bool },
}

/// Turns a remote location into a local account.
pub trait LocationConversion<A> {
    /// The account that a location names, if any.
    spec fn account_of(&self, location: Seq<JunctionView>) -> Option<A>;

    fn from_location(&self, location: &MultiLocation) -> (r: Option<A>)
        ensures
            r == self.account_of(location@),
    ;
}

/// The ledger of registered tokens, which owns their supply.
///
/// Its model is the sequence of mints and burns it has accepted, oldest first,
/// and the answer it gives to each call. A call that succeeds is appended to
/// the sequence; one that fails leaves it as it was.
pub trait TokenLedger<A> {
    /// The mints and burns accepted so far.
    spec fn accepted_token_calls(&self) -> Seq<LedgerCall<A>>;

    /// What the ledger, as it stands, answers to a mint.
    spec fn mint_result(&self, token: TokenId, who: A, amount: u128) -> Result<(), LedgerError>;

    /// What the ledger, as it stands, answers to a burn.
    spec fn burn_result(&self, token: TokenId, who: A, amount: u128) -> Result<(), LedgerError>;

    fn mint(&mut self, token: TokenId, who: A, amount: u128) -> (r: Result<(), LedgerError>)
        ensures
            r == old(self).mint_result(token, who, amount),
            r is Ok ==> final(self).accepted_token_calls() == old(self).accepted_token_calls().push(
                LedgerCall::Mint { token, who, amount },
            ),
            r is Err ==> final(self).accepted_token_calls() == old(self).accepted_token_calls(),
    ;

    fn burn(&mut self, token: TokenId, who: A, amount: u128) -> (r: Result<(), LedgerError>)
        ensures
            r == old(self).burn_result(token, who, amount),
            r is Ok ==> final(self).accepted_token_calls() == old(self).accepted_token_calls().push(
                LedgerCall::Burn { token, who, amount },
            ),
            r is Err ==> final(self).accepted_token_calls() == old(self).accepted_token_calls(),
    ;
}

/// The ledger of the chain's native currency.
///
/// Its model is the sequence of credits and debits it has accepted, oldest
/// first, and the answer it gives to a debit. A credit is always appended; a
/// debit is appended when it succeeds.
pub trait NativeLedger<A> {
    /// The credits and debits accepted so far.
    spec fn accepted_native_calls(&self) -> Seq<LedgerCall<A>>;

    /// What the ledger, as it stands, answers to a debit.
    spec fn withdraw_result(&self, who: A, amount: u128, allow_death: bool) -> Result<
        (),
        LedgerError,
    >;

    /// Credits `who`, creating the account if absent; never fails.
    fn deposit_creating(&mut self, who: A, amount: u128)
        ensures
            final(self).accepted_native_calls() == old(self).accepted_native_calls().push(
                LedgerCall::DepositCreating { who, amount },
            ),
    ;

    /// Debits `who`; with `allow_death` the account may be drained and removed.
    fn withdraw(&mut self, who: A, amount: u128, allow_death: bool) -> (r: Result<
        (),
        LedgerError,
    >)
        ensures
            r == old(self).withdraw_result(who, amount, allow_death),
            r is Ok ==> final(self).accepted_native_calls() == old(
                self,
            ).accepted_native_calls().push(LedgerCall::Withdraw { who, amount, allow_death }),
            r is Err ==> final(self).accepted_native_calls() == old(self).accepted_native_calls(),
    ;
}

/// The first resolution failure, in the order account, shape (only a concrete
/// fungible asset can be settled), currency, amount.
pub open spec fn resolution_error<A>(
    who: Option<A>,
    fungible: bool,
    currency: Option<CurrencyId>,
    amount: Option<u128>,
) -> Option<AdapterError> {
    if who is None {
        Some(AdapterError::UnknownAccount)
    } else if !fungible {
        Some(AdapterError::AmountMismatch)
    } else if currency is None {
        Some(AdapterError::UnrecognizedAsset)
    } else if amount is None {
        Some(AdapterError::AmountMismatch)
    } else {
        None
    }
}

/// The ledger call that settles a deposit: a mint for a token, a credit for the
/// native currency.
pub open spec fn deposit_plan<A>(
    who: Option<A>,
    fungible: bool,
    currency: Option<CurrencyId>,
    amount: Option<u128>,
) -> Result<LedgerCall<A>, AdapterError> {
    match resolution_error(who, fungible, currency, amount) {
        Some(e) => Err(e),
        None => match currency.unwrap() {
            CurrencyId::Token(t) => Ok(
                LedgerCall::Mint { token: t, who: who.unwrap(), amount: amount.unwrap() },
            ),
            CurrencyId::Native => Ok(
                LedgerCall::DepositCreating { who: who.unwrap(), amount: amount.unwrap() },
            ),
        },
    }
}

/// The ledger call that settles a withdrawal: a burn for a token, a debit that
/// may remove the account for the native currency.
pub open spec fn withdraw_plan<A>(
    who: Option<A>,
    fungible: bool,
    currency: Option<CurrencyId>,
    amount: Option<u128>,
) -> Result<LedgerCall<A>, AdapterError> {
    match resolution_error(who, fungible, currency, amount) {
        Some(e) => Err(e),
        None => match currency.unwrap() {
            CurrencyId::Token(t) => Ok(
                LedgerCall::Burn { token: t, who: who.unwrap(), amount: amount.unwrap() },
            ),
            CurrencyId::Native => Ok(
                LedgerCall::Withdraw {
                    who: who.unwrap(),
                    amount: amount.unwrap(),
                    allow_death: true,
                },
            ),
        },
    }
}

/// The net amount of `token` that `calls` put into the account of `who`: its
/// mints less its burns.
pub open spec fn token_net<A>(calls: Seq<LedgerCall<A>>, token: TokenId, who: A) -> int
    decreases calls.len(),
{
    if calls.len() == 0 {
        0
    } else {
        let rest = token_net(calls.drop_last(), token, who);
        match calls.last() {
            LedgerCall::Mint { token: t, who: w, amount } => if t == token && w == who {
                rest + amount
            } else {
                rest
            },
            LedgerCall::Burn { token: t, who: w, amount } => if t == token && w == who {
                rest - amount
            } else {
                rest
            },
            _ => rest,
        }
    }
}

/// A ledger's answer as the adapter reports it: its error, if any, as
/// `LedgerRejected`.
pub open spec fn rejected(r: Result<(), LedgerError>) -> Result<(), AdapterError> {
    match r {
        Ok(()) => Ok(()),
        Err(e) => Err(AdapterError::LedgerRejected(e)),
    }
}

/// `r` with its success value dropped.
pub open spec fn outcome<T>(r: Result<T, AdapterError>) -> Result<(), AdapterError> {
    match r {
        Ok(_) => Ok(()),
        Err(e) => Err(e),
    }
}

/// The settlement adapter, with its resolvers and the two ledgers it drives.
pub struct MultiCurrencyAdapter<C, R, T, N> {
    /// Resolves a descriptor to a local currency.
    pub currency: C,
    /// Resolves a descriptor to a local amount.
    pub matcher: IsConcreteWithGeneralKey,
    /// Resolves a remote location to a local account.
    pub accounts: R,
    /// The token ledger.
    pub tokens: T,
    /// The native currency ledger.
    pub native: N,
}

impl<C: CurrencyIdConversion, R, T, N> MultiCurrencyAdapter<C, R, T, N> {
    /// An adapter over the given resolvers and ledgers.
    pub fn new(
        currency: C,
        matcher: IsConcreteWithGeneralKey,
        accounts: R,
        tokens: T,
        native: N,
    ) -> (r: Self)
        ensures
            r == (MultiCurrencyAdapter { currency, matcher, accounts, tokens, native }),
    {
        MultiCurrencyAdapter { currency, matcher, accounts, tokens, native }
    }

    /// The ledger call, or the error, that depositing `asset` to `who` comes to.
    pub open spec fn deposit_plan_spec<A>(self, who: Option<A>, asset: MultiAsset) -> Result<
        LedgerCall<A>,
        AdapterError,
    > {
        deposit_plan(
            who,
            asset@ is ConcreteFungible,
            self.currency.currency_spec(asset@),
            self.matcher.amount_spec(asset@),
        )
    }

    /// The ledger call, or the error, that withdrawing `asset` from `who` comes to.
    pub open spec fn withdraw_plan_spec<A>(self, who: Option<A>, asset: MultiAsset) -> Result<
        LedgerCall<A>,
        AdapterError,
    > {
        withdraw_plan(
            who,
            asset@ is ConcreteFungible,
            self.currency.currency_spec(asset@),
            self.matcher.amount_spec(asset@),
        )
    }

    /// How the adapter stands after carrying out `plan`, with result `r`.
    ///
    /// On a resolution failure, that error and no change. Otherwise the
    /// resolvers and the other ledger are unchanged, and the ledger that `plan`
    /// names gave its answer to the planned call: it accepted exactly that call,
    /// with `Ok`, or accepted nothing, with `LedgerRejected` carrying its error;
    /// a native credit is always accepted.
    pub open spec fn settled<A>(
        old_self: Self,
        new_self: Self,
        plan: Result<LedgerCall<A>, AdapterError>,
        r: Result<(), AdapterError>,
    ) -> bool where T: TokenLedger<A>, N: NativeLedger<A> {
        match plan {
            Err(e) => r == Err::<(), AdapterError>(e) && new_self == old_self,
            Ok(call) => {
                let old_tokens = old_self.tokens.accepted_token_calls();
                let new_tokens = new_self.tokens.accepted_token_calls();
                let old_native = old_self.native.accepted_native_calls();
                let new_native = new_self.native.accepted_native_calls();
                &&& new_self.currency == old_self.currency
                &&& new_self.matcher == old_self.matcher
                &&& new_self.accounts == old_self.accounts
                &&& (r is Ok || r matches Err(AdapterError::LedgerRejected(_)))
                &&& match call {
                    LedgerCall::Mint { token, who, amount } => {
                        &&& r == rejected(old_self.tokens.mint_result(token, who, amount))
                        &&& new_self.native == old_self.native
                        &&& r is Ok ==> new_tokens == old_tokens.push(call)
                        &&& r is Err ==> new_tokens == old_tokens
                    },
                    LedgerCall::Burn { token, who, amount } => {
                        &&& r == rejected(old_self.tokens.burn_result(token, who, amount))
                        &&& new_self.native == old_self.native
                        &&& r is Ok ==> new_tokens == old_tokens.push(call)
                        &&& r is Err ==> new_tokens == old_tokens
                    },
                    LedgerCall::DepositCreating { .. } => {
                        &&& new_self.tokens == old_self.tokens
                        &&& r is Ok
                        &&& new_native == old_native.push(call)
                    },
                    LedgerCall::Withdraw { who, amount, allow_death } => {
                        &&& r == rejected(old_self.native.withdraw_result(who, amount, allow_death))
                        &&& new_self.tokens == old_self.tokens
                        &&& r is Ok ==> new_native == old_native.push(call)
                        &&& r is Err ==> new_native == old_native
                    },
                }
            },
        }
    }

    /// The ledger call that settles depositing `asset` to `who`.
    pub fn plan_deposit<A>(&self, who: Option<A>, asset: &MultiAsset) -> (r: Result<
        LedgerCall<A>,
        AdapterError,
    >)
        ensures
            r == self.deposit_plan_spec(who, *asset),
    {
        let who = match who {
            Some(w) => w,
            None => return Err(AdapterError::UnknownAccount),
        };
        if !asset.is_concrete_fungible() {
            return Err(AdapterError::AmountMismatch);
        }
        let currency = match self.currency.from_asset(asset) {
            Some(c) => c,
            None => return Err(AdapterError::UnrecognizedAsset),
        };
        let amount = match self.matcher.matches_fungible(asset) {
            Some(a) => a,
            None => return Err(AdapterError::AmountMismatch),
        };
        match currency {
            CurrencyId::Token(token) => Ok(LedgerCall::Mint { token, who, amount }),
            CurrencyId::Native => Ok(LedgerCall::DepositCreating { who, amount }),
        }
    }

    /// The ledger call that settles withdrawing `asset` from `who`.
    pub fn plan_withdraw<A>(&self, who: Option<A>, asset: &MultiAsset) -> (r: Result<
        LedgerCall<A>,
        AdapterError,
    >)
        ensures
            r == self.withdraw_plan_spec(who, *asset),
    {
        let who = match who {
            Some(w) => w,
            None => return Err(AdapterError::UnknownAccount),
        };
        if !asset.is_concrete_fungible() {
            return Err(AdapterError::AmountMismatch);
        }
        let currency = match self.currency.from_asset(asset) {
            Some(c) => c,
            None => return Err(AdapterError::UnrecognizedAsset),
        };
        let amount = match self.matcher.matches_fungible(asset) {
            Some(a) => a,
            None => return Err(AdapterError::AmountMismatch),
        };
        match currency {
            CurrencyId::Token(token) => Ok(LedgerCall::Burn { token, who, amount }),
            CurrencyId::Native => Ok(LedgerCall::Withdraw { who, amount, allow_death: true }),
        }
    }
}

impl<C: CurrencyIdConversion, R, T, N> MultiCurrencyAdapter<C, R, T, N> {
    /// Carries out `call` on the ledger it names.
    fn execute<A>(&mut self, call: LedgerCall<A>) -> (r: Result<(), AdapterError>) where
        T: TokenLedger<A>,
        N: NativeLedger<A>,

        ensures
            Self::settled(*old(self), *final(self), Ok::<LedgerCall<A>, AdapterError>(call), r),
    {
        let res = match call {
            LedgerCall::Mint { token, who, amount } => self.tokens.mint(token, who, amount),
            LedgerCall::Burn { token, who, amount } => self.tokens.burn(token, who, amount),
            LedgerCall::DepositCreating { who, amount } => {
                self.native.deposit_creating(who, amount);
                Ok(())
            },
            LedgerCall::Withdraw { who, amount, allow_death } => self.native.withdraw(
                who,
                amount,
                allow_death,
            ),
        };
        match res {
            Ok(()) => Ok(()),
            Err(e) => Err(AdapterError::LedgerRejected(e)),
        }
    }

    /// Deposits `asset` to `who`, an account already resolved: resolves the
    /// currency and amount, then mints the token or credits the native currency.
    pub fn deposit_for<A>(&mut self, who: Option<A>, asset: &MultiAsset) -> (r: Result<
        (),
        AdapterError,
    >) where T: TokenLedger<A>, N: NativeLedger<A>
        ensures
            Self::settled(*old(self), *final(self), old(self).deposit_plan_spec(who, *asset), r),
    {
        match self.plan_deposit(who, asset) {
            Ok(call) => self.execute(call),
            Err(e) => Err(e),
        }
    }

    /// Withdraws `asset` from `who`, an account already resolved: resolves the
    /// currency and amount, then burns the token or debits the native currency,
    /// and gives back a copy of `asset`.
    pub fn withdraw_for<A>(&mut self, who: Option<A>, asset: &MultiAsset) -> (r: Result<
        MultiAsset,
        AdapterError,
    >) where T: TokenLedger<A>, N: NativeLedger<A>
        ensures
            Self::settled(
                *old(self),
                *final(self),
                old(self).withdraw_plan_spec(who, *asset),
                outcome(r),
            ),
            r matches Ok(out) ==> out@ == asset@,
    {
        match self.plan_withdraw(who, asset) {
            Ok(call) => match self.execute(call) {
                Ok(()) => Ok(asset.duplicate()),
                Err(e) => Err(e),
            },
            Err(e) => Err(e),
        }
    }

    /// Deposits `asset` to the account that `location` names.
    ///
    /// The outcome is that of [`Self::deposit_for`] on the account that the
    /// resolver gives for `location`; where it gives none, `UnknownAccount`
    /// and no change.
    pub fn deposit_asset<A>(&mut self, asset: &MultiAsset, location: &MultiLocation) -> (r: Result<
        (),
        AdapterError,
    >) where R: LocationConversion<A>, T: TokenLedger<A>, N: NativeLedger<A>
        ensures
            Self::settled(
                *old(self),
                *final(self),
                old(self).deposit_plan_spec(old(self).accounts.account_of(location@), *asset),
                r,
            ),
    {
        let who = self.accounts.from_location(location);
        self.deposit_for(who, asset)
    }

    /// Withdraws `asset` from the account that `location` names, and gives back
    /// a copy of `asset`.
    ///
    /// The outcome is that of [`Self::withdraw_for`] on the account that the
    /// resolver gives for `location`; where it gives none, `UnknownAccount`
    /// and no change.
    pub fn withdraw_asset<A>(&mut self, asset: &MultiAsset, location: &MultiLocation) -> (r: Result<
        MultiAsset,
        AdapterError,
    >) where R: LocationConversion<A>, T: TokenLedger<A>, N: NativeLedger<A>
        ensures
            Self::settled(
                *old(self),
                *final(self),
                old(self).withdraw_plan_spec(old(self).accounts.account_of(location@), *asset),
                outcome(r),
            ),
            r matches Ok(out) ==> out@ == asset@,
    {
        let who = self.accounts.from_location(location);
        self.withdraw_for(who, asset)
    }
}

impl<C: CurrencyIdConversion, R, T, N> MultiCurrencyAdapter<C, R, T, N> {
    /// A deposit of `asset` to `location` that mints a token, followed by a
    /// withdrawal of the same asset from the same location, both successful,
    /// leave every account's net amount of every token, and the native ledger,
    /// as they were before the deposit.
    pub proof fn lemma_token_deposit_withdraw_balanced<A>(
        s0: Self,
        s1: Self,
        s2: Self,
        asset: MultiAsset,
        location: Seq<JunctionView>,
        r1: Result<(), AdapterError>,
        r2: Result<MultiAsset, AdapterError>,
    ) where R: LocationConversion<A>, T: TokenLedger<A>, N: NativeLedger<A>
        requires
            Self::settled(s0, s1, s0.deposit_plan_spec(s0.accounts.account_of(location), asset), r1),
            Self::settled(
                s1,
                s2,
                s1.withdraw_plan_spec(s1.accounts.account_of(location), asset),
                outcome(r2),
            ),
            r1 is Ok,
            r2 is Ok,
            s0.deposit_plan_spec(s0.accounts.account_of(location), asset) matches Ok(
                LedgerCall::Mint { .. },
            ),
        ensures
            forall|t: TokenId, w: A|
                #[trigger] token_net(s2.tokens.accepted_token_calls(), t, w) == token_net(
                    s0.tokens.accepted_token_calls(),
                    t,
                    w,
                ),
            s2.native == s0.native,
    {
        let l0 = s0.tokens.accepted_token_calls();
        let mint = s0.deposit_plan_spec(s0.accounts.account_of(location), asset)->Ok_0;
        let burn = s1.withdraw_plan_spec(s1.accounts.account_of(location), asset)->Ok_0;
        let l1 = l0.push(mint);
        let l2 = l1.push(burn);
        assert(l2.drop_last() =~= l1);
        assert(l1.drop_last() =~= l0);
        assert(s2.tokens.accepted_token_calls() == l2);
        assert(burn == LedgerCall::Burn {
            token: mint->Mint_token,
            who: mint->Mint_who,
            amount: mint->Mint_amount,
        });
        assert forall|t: TokenId, w: A| #[trigger] token_net(l2, t, w) == token_net(l0, t, w) by {
            assert(token_net(l2, t, w) == token_net(l1, t, w) - if t == mint->Mint_token && w
                == mint->Mint_who {
                mint->Mint_amount as int
            } else {
                0
            });
            assert(token_net(l1, t, w) == token_net(l0, t, w) + if t == mint->Mint_token && w
                == mint->Mint_who {
                mint->Mint_amount as int
            } else {
                0
            });
        }
    }

    /// A counterparty-native amount whose rescaled value is undefined or
    /// exceeds the local balance range is refused with `AmountMismatch`,
    /// never wrapped or clamped.
    pub proof fn lemma_rescale_overflow_refused<A>(self, who: A, raw: u128, asset: MultiAsset)
        requires
            asset@ == (MultiAssetView::ConcreteFungible { id: seq![JunctionView::Parent], amount: raw }),
            self.currency.currency_spec(asset@) is Some,
            match self.matcher.rescale.rescaled(raw as nat) {
                Some(v) => v > self.matcher.balance_max,
                None => true,
            },
        ensures
            self.deposit_plan_spec(Some(who), asset) == Err::<LedgerCall<A>, AdapterError>(
                AdapterError::AmountMismatch,
            ),
            self.withdraw_plan_spec(Some(who), asset) == Err::<LedgerCall<A>, AdapterError>(
                AdapterError::AmountMismatch,
            ),
    {
    }

    /// A concrete fungible asset whose currency is token `t` and whose amount
    /// is in the local balance range is deposited by a mint of that amount of
    /// `t` to the resolved account, and withdrawn by a burn of the same.
    pub proof fn lemma_token_asset_mints_and_burns<A>(
        self,
        who: A,
        asset: MultiAsset,
        t: TokenId,
        id: Seq<JunctionView>,
        amount: u128,
    )
        requires
            asset@ == (MultiAssetView::ConcreteFungible { id, amount }),
            self.currency.currency_spec(asset@) == Some(CurrencyId::Token(t)),
            last_general_key(id) matches Some(k) && token_of_key(k) is Some,
            amount <= self.matcher.balance_max,
        ensures
            self.deposit_plan_spec(Some(who), asset) == Ok::<LedgerCall<A>, AdapterError>(
                LedgerCall::Mint { token: t, who, amount },
            ),
            self.withdraw_plan_spec(Some(who), asset) == Ok::<LedgerCall<A>, AdapterError>(
                LedgerCall::Burn { token: t, who, amount },
            ),
    {
        assert(!is_parent_location(id));
    }

    /// A descriptor that is not concrete fungible is refused with
    /// `AmountMismatch` by deposit and withdrawal once the account resolves,
    /// whether or not its location names a currency.
    pub proof fn lemma_not_fungible_refused<A>(self, who: A, asset: MultiAsset)
        requires
            !(asset@ is ConcreteFungible),
        ensures
            self.deposit_plan_spec(Some(who), asset) == Err::<LedgerCall<A>, AdapterError>(
                AdapterError::AmountMismatch,
            ),
            self.withdraw_plan_spec(Some(who), asset) == Err::<LedgerCall<A>, AdapterError>(
                AdapterError::AmountMismatch,
            ),
    {
    }
}

} // verus!

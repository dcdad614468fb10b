use token_dealer::key::{decode_token_key, encode_token_key};
use token_dealer::{
    AccountIndexConverter, AdapterError, CurrencyId, CurrencyIdConversion, CurrencyIdConverter, DecimalRescale,
    IsConcreteWithGeneralKey, Junction, LedgerCall, LedgerError, LocationConversion, MultiAsset,
    MemoryNativeLedger, MemoryTokenLedger, MultiCurrencyAdapter, MultiLocation, NativeLedger,
    TokenLedger,
};

type Adapter =
    MultiCurrencyAdapter<CurrencyIdConverter, AccountIndexConverter, MemoryTokenLedger, MemoryNativeLedger>;

fn relay_to_local() -> DecimalRescale {
    DecimalRescale::new(12, 18).unwrap()
}

fn adapter() -> Adapter {
    MultiCurrencyAdapter::new(
        CurrencyIdConverter { relay_currency: CurrencyId::Native },
        IsConcreteWithGeneralKey { rescale: relay_to_local(), balance_max: u128::MAX },
        AccountIndexConverter,
        MemoryTokenLedger::new(),
        MemoryNativeLedger::new(),
    )
}

fn account(n: u64) -> MultiLocation {
    MultiLocation::parent().pushed_with(Junction::AccountIndex64(n))
}

fn tagged_location(token: u64) -> MultiLocation {
    MultiLocation::parent()
        .pushed_with(Junction::Parachain(1000))
        .pushed_with(Junction::GeneralKey(encode_token_key(token)))
}

fn relay_asset(amount: u128) -> MultiAsset {
    MultiAsset::ConcreteFungible { id: MultiLocation::parent(), amount }
}

fn token_asset(token: u64, amount: u128) -> MultiAsset {
    MultiAsset::ConcreteFungible { id: tagged_location(token), amount }
}

#[test]
fn token_key_round_trip() {
    for id in [0u64, 1, 7, 256, 0x0102_0304_0506_0708, u64::MAX] {
        let key = encode_token_key(id);
        assert_eq!(key.len(), 8);
        assert_eq!(decode_token_key(&key), Some(id));
    }
}

#[test]
fn token_key_is_little_endian() {
    assert_eq!(encode_token_key(7), vec![7, 0, 0, 0, 0, 0, 0, 0]);
    assert_eq!(encode_token_key(0x0102), vec![2, 1, 0, 0, 0, 0, 0, 0]);
    assert_eq!(decode_token_key(&vec![0, 0, 0, 0, 0, 0, 0, 1]), Some(1u64 << 56));
}

#[test]
fn token_key_of_wrong_length_is_refused() {
    assert_eq!(decode_token_key(&vec![]), None);
    assert_eq!(decode_token_key(&vec![7, 0, 0, 0]), None);
    assert_eq!(decode_token_key(&vec![7, 0, 0, 0, 0, 0, 0, 0, 0]), None);
}

#[test]
fn rescale_between_decimals() {
    let up = DecimalRescale::new(12, 18).unwrap();
    assert!(up.widen);
    assert_eq!(up.factor, 1_000_000);
    let down = DecimalRescale::new(18, 12).unwrap();
    assert!(!down.widen);
    assert_eq!(down.factor, 1_000_000);
    let same = DecimalRescale::new(10, 10).unwrap();
    assert_eq!(same.factor, 1);
    assert_eq!(same.convert(12345), Some(12345));
    assert!(DecimalRescale::new(0, 38).is_some());
    assert!(DecimalRescale::new(0, 39).is_none());
    assert!(DecimalRescale::new(40, 0).is_none());
}

#[test]
fn rescale_is_deterministic_and_checked() {
    let up = relay_to_local();
    assert_eq!(up.convert(1_000_000_000_000), Some(1_000_000_000_000_000_000));
    assert_eq!(up.convert(1_000_000_000_000), up.convert(1_000_000_000_000));
    assert_eq!(up.convert(u128::MAX), None);
    let down = DecimalRescale::new(18, 12).unwrap();
    assert_eq!(down.convert(3_000_000), Some(3));
    assert_eq!(down.convert(3_000_001), None);
    let broken = DecimalRescale { factor: 0, widen: false };
    assert_eq!(broken.convert(5), None);
}

#[test]
fn resolves_relay_and_tagged_assets() {
    let conv = CurrencyIdConverter { relay_currency: CurrencyId::Native };
    assert_eq!(conv.from_asset(&relay_asset(1)), Some(CurrencyId::Native));
    assert_eq!(conv.from_asset(&token_asset(7, 1)), Some(CurrencyId::Token(7)));
    let other = CurrencyIdConverter { relay_currency: CurrencyId::Token(3) };
    assert_eq!(other.from_asset(&relay_asset(1)), Some(CurrencyId::Token(3)));
    let class = MultiAsset::ConcreteNonFungible { class: tagged_location(9), instance: 1 };
    assert_eq!(conv.from_asset(&class), None);
    let parent_class = MultiAsset::ConcreteNonFungible { class: MultiLocation::parent(), instance: 1 };
    assert_eq!(conv.from_asset(&parent_class), None);
}

#[test]
fn unrecognized_shapes_match_nothing() {
    let conv = CurrencyIdConverter { relay_currency: CurrencyId::Native };
    let m = IsConcreteWithGeneralKey { rescale: relay_to_local(), balance_max: u128::MAX };
    let bad_key = MultiAsset::ConcreteFungible {
        id: MultiLocation::parent().pushed_with(Junction::GeneralKey(vec![1, 2, 3])),
        amount: 5,
    };
    let sibling = MultiAsset::ConcreteFungible {
        id: MultiLocation::parent().pushed_with(Junction::Parachain(2000)),
        amount: 5,
    };
    let here = MultiAsset::ConcreteFungible { id: MultiLocation::here(), amount: 5 };
    let parent_then_index = MultiAsset::ConcreteFungible {
        id: MultiLocation::parent().pushed_with(Junction::GeneralIndex(0)),
        amount: 5,
    };
    let abstract_asset = MultiAsset::AbstractFungible { id: encode_token_key(7), amount: 5 };
    for a in [
        bad_key,
        sibling,
        here,
        parent_then_index,
        abstract_asset,
        MultiAsset::Empty,
        MultiAsset::All,
        MultiAsset::AllFungible,
        MultiAsset::AllNonFungible,
    ] {
        assert_eq!(conv.from_asset(&a), None);
        assert_eq!(m.matches_fungible(&a), None);
    }
}

#[test]
fn matcher_rescales_relay_amounts_only() {
    let m = IsConcreteWithGeneralKey { rescale: relay_to_local(), balance_max: u128::MAX };
    assert_eq!(m.matches_fungible(&relay_asset(2)), Some(2_000_000));
    assert_eq!(m.matches_fungible(&token_asset(7, 2)), Some(2));
    let nft = MultiAsset::ConcreteNonFungible { class: MultiLocation::parent(), instance: 1 };
    assert_eq!(m.matches_fungible(&nft), None);
}

#[test]
fn matcher_refuses_amounts_out_of_balance_range() {
    let m = IsConcreteWithGeneralKey { rescale: relay_to_local(), balance_max: u64::MAX as u128 };
    assert_eq!(m.matches_fungible(&relay_asset(18_446_744_073_709)), Some(18_446_744_073_709_000_000));
    assert_eq!(m.matches_fungible(&relay_asset(18_446_744_073_710)), None);
    assert_eq!(m.matches_fungible(&token_asset(1, u64::MAX as u128)), Some(u64::MAX as u128));
    assert_eq!(m.matches_fungible(&token_asset(1, u64::MAX as u128 + 1)), None);
}

#[test]
fn relay_deposit_is_rescaled_and_credited() {
    let mut a = adapter();
    assert_eq!(a.deposit_asset(&relay_asset(1_000_000_000_000), &account(42)), Ok(()));
    assert_eq!(a.native.balance(42), 1_000_000_000_000_000_000);
    assert_eq!(a.native.calls, vec![LedgerCall::DepositCreating { who: 42, amount: 1_000_000_000_000_000_000 }]);
    assert!(a.tokens.calls.is_empty());
}

#[test]
fn tagged_deposit_mints_token() {
    let mut a = adapter();
    assert_eq!(a.deposit_asset(&token_asset(7, 500), &account(42)), Ok(()));
    assert_eq!(a.tokens.calls, vec![LedgerCall::Mint { token: 7, who: 42, amount: 500 }]);
    assert_eq!(a.tokens.balance(7, 42), 500);
    assert!(a.native.calls.is_empty());
}

#[test]
fn token_withdraw_with_insufficient_balance_is_rejected() {
    let mut a = adapter();
    let r = a.withdraw_asset(&token_asset(7, 500), &account(42));
    assert_eq!(r.err(), Some(AdapterError::LedgerRejected(LedgerError::InsufficientBalance)));
    assert_eq!(a.tokens.balance(7, 42), 0);
    assert!(a.native.calls.is_empty());
}

#[test]
fn non_fungible_asset_is_amount_mismatch() {
    let mut a = adapter();
    let nft = MultiAsset::ConcreteNonFungible { class: MultiLocation::parent(), instance: 9 };
    assert_eq!(a.deposit_asset(&nft, &account(1)), Err(AdapterError::AmountMismatch));
    assert_eq!(a.withdraw_asset(&nft, &account(1)).err(), Some(AdapterError::AmountMismatch));
    let tagged_nft = MultiAsset::ConcreteNonFungible { class: tagged_location(7), instance: 9 };
    assert_eq!(a.deposit_asset(&tagged_nft, &account(1)), Err(AdapterError::AmountMismatch));
    assert_eq!(a.withdraw_asset(&tagged_nft, &account(1)).err(), Some(AdapterError::AmountMismatch));
    assert!(a.tokens.calls.is_empty());
    assert!(a.native.calls.is_empty());
}

#[test]
fn token_deposit_then_withdraw_is_balanced() {
    let mut a = adapter();
    a.tokens.set_balance(7, 42, 10);
    let asset = token_asset(7, 500);
    assert_eq!(a.deposit_asset(&asset, &account(42)), Ok(()));
    let back = a.withdraw_asset(&asset, &account(42)).unwrap();
    assert_eq!(a.tokens.balance(7, 42), 10);
    assert_eq!(
        a.tokens.calls,
        vec![
            LedgerCall::Mint { token: 7, who: 42, amount: 500 },
            LedgerCall::Burn { token: 7, who: 42, amount: 500 },
        ]
    );
    match back {
        MultiAsset::ConcreteFungible { id, amount } => {
            assert_eq!(amount, 500);
            assert_eq!(id.junctions.len(), 3);
        }
        _ => panic!("withdrawal gave back another asset"),
    }
}

#[test]
fn native_withdraw_drains_account() {
    let mut a = adapter();
    assert_eq!(a.deposit_asset(&relay_asset(3), &account(5)), Ok(()));
    assert_eq!(a.native.balance(5), 3_000_000);
    let back = a.withdraw_asset(&relay_asset(3), &account(5)).unwrap();
    assert!(matches!(back, MultiAsset::ConcreteFungible { amount: 3, .. }));
    assert_eq!(a.native.account(5), None);
    assert_eq!(a.native.calls[1], LedgerCall::Withdraw { who: 5, amount: 3_000_000, allow_death: true });
    let r = a.withdraw_asset(&relay_asset(1), &account(5));
    assert_eq!(r.err(), Some(AdapterError::LedgerRejected(LedgerError::InsufficientBalance)));
}

#[test]
fn unknown_account_changes_nothing() {
    let mut a = adapter();
    let nowhere = MultiLocation::parent().pushed_with(Junction::OnlyChild);
    assert_eq!(a.deposit_asset(&token_asset(7, 5), &nowhere), Err(AdapterError::UnknownAccount));
    assert_eq!(a.withdraw_asset(&relay_asset(5), &nowhere).err(), Some(AdapterError::UnknownAccount));
    assert!(a.tokens.calls.is_empty());
    assert!(a.native.calls.is_empty());
}

#[test]
fn unrecognized_asset_changes_nothing() {
    let mut a = adapter();
    let sibling = MultiAsset::ConcreteFungible {
        id: MultiLocation::parent().pushed_with(Junction::Parachain(7)),
        amount: 5,
    };
    assert_eq!(a.deposit_asset(&sibling, &account(1)), Err(AdapterError::UnrecognizedAsset));
    assert_eq!(a.withdraw_asset(&sibling, &account(1)).err(), Some(AdapterError::UnrecognizedAsset));
    assert!(a.tokens.calls.is_empty());
    assert!(a.native.calls.is_empty());
}

#[test]
fn unrecognized_non_fungible_shapes_are_amount_mismatch() {
    let mut a = adapter();
    let abstract_asset = MultiAsset::AbstractFungible { id: vec![1], amount: 5 };
    assert_eq!(a.deposit_asset(&abstract_asset, &account(1)), Err(AdapterError::AmountMismatch));
    let nft = MultiAsset::ConcreteNonFungible {
        class: MultiLocation::parent().pushed_with(Junction::Parachain(7)),
        instance: 1,
    };
    assert_eq!(a.withdraw_asset(&nft, &account(1)).err(), Some(AdapterError::AmountMismatch));
    assert_eq!(a.deposit_asset(&MultiAsset::All, &account(1)), Err(AdapterError::AmountMismatch));
    assert!(a.tokens.calls.is_empty());
    assert!(a.native.calls.is_empty());
}

#[test]
fn plans_name_the_ledger_call() {
    let a = adapter();
    assert_eq!(
        a.plan_deposit(Some(9u64), &token_asset(7, 500)),
        Ok(LedgerCall::Mint { token: 7, who: 9, amount: 500 })
    );
    assert_eq!(
        a.plan_withdraw(Some(9u64), &token_asset(7, 500)),
        Ok(LedgerCall::Burn { token: 7, who: 9, amount: 500 })
    );
    assert_eq!(
        a.plan_deposit(Some(9u64), &relay_asset(2)),
        Ok(LedgerCall::DepositCreating { who: 9, amount: 2_000_000 })
    );
    assert_eq!(
        a.plan_withdraw(Some(9u64), &relay_asset(2)),
        Ok(LedgerCall::Withdraw { who: 9, amount: 2_000_000, allow_death: true })
    );
    assert_eq!(a.plan_deposit(None::<u64>, &relay_asset(2)), Err(AdapterError::UnknownAccount));
}

#[test]
fn overflowing_relay_amount_is_amount_mismatch() {
    let mut a = adapter();
    a.matcher.balance_max = u64::MAX as u128;
    let r = a.deposit_asset(&relay_asset(100_000_000_000_000), &account(1));
    assert_eq!(r, Err(AdapterError::AmountMismatch));
    let r = a.deposit_asset(&relay_asset(u128::MAX), &account(1));
    assert_eq!(r, Err(AdapterError::AmountMismatch));
    assert!(a.native.calls.is_empty());
}

#[test]
fn failed_mint_is_ledger_rejected_without_fallback() {
    let mut a = adapter();
    a.tokens.set_balance(7, 42, u128::MAX);
    let r = a.deposit_asset(&token_asset(7, 1), &account(42));
    assert_eq!(r, Err(AdapterError::LedgerRejected(LedgerError::Other)));
    assert!(a.tokens.calls.is_empty());
    assert!(a.native.calls.is_empty());
    assert_eq!(a.tokens.balance(7, 42), u128::MAX);
}

#[test]
fn memory_ledgers_record_only_accepted_calls() {
    let mut tokens = MemoryTokenLedger::new();
    assert_eq!(tokens.burn(1, 2, 1), Err(LedgerError::InsufficientBalance));
    assert_eq!(tokens.mint(1, 2, 5), Ok(()));
    assert_eq!(tokens.burn(1, 2, 3), Ok(()));
    assert_eq!(tokens.balance(1, 2), 2);
    assert_eq!(tokens.balance(1, 3), 0);
    assert_eq!(
        tokens.calls,
        vec![
            LedgerCall::Mint { token: 1, who: 2, amount: 5 },
            LedgerCall::Burn { token: 1, who: 2, amount: 3 },
        ]
    );
    let mut native = MemoryNativeLedger::new();
    assert_eq!(native.withdraw(4, 1, true), Err(LedgerError::InsufficientBalance));
    native.deposit_creating(4, 10);
    assert_eq!(native.withdraw(4, 10, false), Ok(()));
    assert_eq!(native.account(4), Some(0));
    native.deposit_creating(4, u128::MAX);
    assert_eq!(native.balance(4), u128::MAX);
    assert_eq!(native.calls.len(), 3);
}

#[test]
fn account_resolver_reads_last_index() {
    let r = AccountIndexConverter;
    assert_eq!(r.from_location(&account(9)), Some(9));
    assert_eq!(r.from_location(&MultiLocation::here()), None);
    assert_eq!(r.from_location(&MultiLocation::parent()), None);
}

//! Settlement of cross-chain fungible transfers against local ledgers.
//!
//! An incoming asset descriptor is resolved to a local currency and a local
//! amount, and the transfer is then applied to the token ledger (mint / burn)
//! or to the native ledger (credit / debit).

pub mod adapter;
pub mod asset;
pub mod key;
pub mod ledger;
pub mod matcher;
pub mod rescale;

pub use adapter::{
    AdapterError, LedgerCall, LedgerError, LocationConversion, MultiCurrencyAdapter, NativeLedger,
    TokenLedger,
};
pub use asset::{Junction, MultiAsset, MultiLocation};
pub use key::{CurrencyId, TokenId};
pub use ledger::{AccountIndexConverter, MemoryNativeLedger, MemoryTokenLedger};
pub use matcher::{CurrencyIdConversion, CurrencyIdConverter, IsConcreteWithGeneralKey};
pub use rescale::DecimalRescale;

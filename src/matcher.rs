//! Recognition of a descriptor's currency and of its local amount.
use vstd::prelude::*;
use crate::asset::{
    fungible_location, is_parent_location, last_general_key, JunctionView, MultiAsset,
    MultiAssetView,
};
use crate::key::{decode_token_key, token_of_key, CurrencyId};
use crate::rescale::DecimalRescale;

verus! {

/// The currency that a location names: `relay` for the parent alone, the token
/// of the key that ends it, or none.
pub open spec fn currency_of_location(relay: CurrencyId, loc: Seq<JunctionView>) -> Option<
    CurrencyId,
> {
    if is_parent_location(loc) {
        Some(relay)
    } else {
        match last_general_key(loc) {
            Some(k) => match token_of_key(k) {
                Some(t) => Some(CurrencyId::Token(t)),
                None => None,
            },
            None => None,
        }
    }
}

/// The currency of a descriptor: that of its location, for a concrete fungible
/// asset; none for every other shape.
pub open spec fn currency_of(relay: CurrencyId, a: MultiAssetView) -> Option<CurrencyId> {
    match fungible_location(a) {
        Some(loc) => currency_of_location(relay, loc),
        None => None,
    }
}

/// Resolution of an asset descriptor to the local currency it stands for.
pub trait CurrencyIdConversion {
    /// The currency that `a` stands for, if any.
    spec fn currency_spec(&self, a: MultiAssetView) -> Option<CurrencyId>;

    fn from_asset(&self, asset: &MultiAsset) -> (r: Option<CurrencyId>)
        ensures
            r == self.currency_spec(asset@),
    ;
}

/// Resolves the parent's own asset to a configured currency and a tagged asset
/// to the token its key names.
#[derive(Clone, Copy, Debug)]
pub struct CurrencyIdConverter {
    /// The currency that the counterparty's native asset stands for.
    pub relay_currency: CurrencyId,
}

impl CurrencyIdConversion for CurrencyIdConverter {
    open spec fn currency_spec(&self, a: MultiAssetView) -> Option<CurrencyId> {
        currency_of(self.relay_currency, a)
    }

    fn from_asset(&self, asset: &MultiAsset) -> (r: Option<CurrencyId>) {
        let loc = match asset.fungible_location() {
            Some(l) => l,
            None => return None,
        };
        if loc.is_parent() {
            return Some(self.relay_currency);
        }
        match loc.last_key() {
            Some(k) => match decode_token_key(k) {
                Some(t) => Some(CurrencyId::Token(t)),
                None => None,
            },
            None => None,
        }
    }
}

/// `v` as a balance, where it does not exceed `max`.
pub open spec fn bounded(v: nat, max: u128) -> Option<u128> {
    if v <= max {
        Some(v as u128)
    } else {
        None
    }
}

/// Matches concrete fungible descriptors of the parent's own asset (rescaled)
/// and of tagged tokens (taken as local amounts).
#[derive(Clone, Copy, Debug)]
pub struct IsConcreteWithGeneralKey {
    /// Conversion of the counterparty's amounts to local precision.
    pub rescale: DecimalRescale,
    /// The largest amount the local balance type holds.
    pub balance_max: u128,
}

impl IsConcreteWithGeneralKey {
    /// The local amount that `a` carries, if it is a recognized fungible asset.
    pub open spec fn amount_spec(self, a: MultiAssetView) -> Option<u128> {
        match a {
            MultiAssetView::ConcreteFungible { id, amount } => if is_parent_location(id) {
                match self.rescale.rescaled(amount as nat) {
                    Some(v) => bounded(v, self.balance_max),
                    None => None,
                }
            } else {
                match last_general_key(id) {
                    Some(k) => if token_of_key(k) is Some {
                        bounded(amount as nat, self.balance_max)
                    } else {
                        None
                    },
                    None => None,
                }
            },
            _ => None,
        }
    }

    /// The local amount of `a`, or `None` where `a` is not a recognized
    /// fungible asset or its amount has no local value in range.
    pub fn matches_fungible(&self, a: &MultiAsset) -> (r: Option<u128>)
        ensures
            r == self.amount_spec(a@),
    {
        match a {
            MultiAsset::ConcreteFungible { id, amount } => {
                if id.is_parent() {
                    return match self.rescale.convert(*amount) {
                        Some(v) => if v <= self.balance_max {
                            Some(v)
                        } else {
                            None
                        },
                        None => None,
                    };
                }
                match id.last_key() {
                    Some(k) => if decode_token_key(k).is_some() && *amount <= self.balance_max {
                        Some(*amount)
                    } else {
                        None
                    },
                    None => None,
                }
            },
            _ => None,
        }
    }
}

/// Whether a location names a currency: the parent alone, or a path that ends
/// in the key of a token.
pub open spec fn recognized_location(loc: Seq<JunctionView>) -> bool {
    is_parent_location(loc) || match last_general_key(loc) {
        Some(k) => token_of_key(k) is Some,
        None => false,
    }
}

/// A concrete fungible asset whose location ends in a key that names a token resolves
/// to exactly that token; one at the parent alone resolves to the configured
/// currency.
pub proof fn lemma_resolves_known_locations(
    conv: CurrencyIdConverter,
    a: MultiAssetView,
    loc: Seq<JunctionView>,
)
    requires
        fungible_location(a) == Some(loc),
    ensures
        is_parent_location(loc) ==> conv.currency_spec(a) == Some(conv.relay_currency),
        last_general_key(loc) matches Some(k) ==> (token_of_key(k) matches Some(t)
            ==> conv.currency_spec(a) == Some(CurrencyId::Token(t))),
{
}

/// A descriptor that is not concrete fungible, or whose location names no currency,
/// matches no currency and no amount.
pub proof fn lemma_unrecognized_no_match(
    conv: CurrencyIdConverter,
    m: IsConcreteWithGeneralKey,
    a: MultiAssetView,
)
    requires
        match fungible_location(a) {
            Some(loc) => !recognized_location(loc),
            None => true,
        },
    ensures
        conv.currency_spec(a) is None,
        m.amount_spec(a) is None,
{
}

} // verus!

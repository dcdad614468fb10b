//! Rescaling of amounts from the counterparty's decimal precision to the local one.
use vstd::prelude::*;

verus! {

/// `10` raised to `d`.
pub open spec fn pow10(d: nat) -> nat
    decreases d,
{
    if d == 0 {
        1
    } else {
        10 * pow10((d - 1) as nat)
    }
}

/// A change of decimal precision by a power of ten.
///
/// Where `widen` holds, an amount is multiplied by `factor`; else it is divided
/// by `factor`, and an amount that the division would round is refused.
#[derive(Clone, Copy, Debug)]
pub struct DecimalRescale {
    pub factor: u128,
    pub widen: bool,
}

impl DecimalRescale {
    /// The local amount for `raw`, where one is defined.
    pub open spec fn rescaled(self, raw: nat) -> Option<nat> {
        if self.widen {
            Some(raw * (self.factor as nat))
        } else if self.factor > 0 && raw % (self.factor as nat) == 0 {
            Some(raw / (self.factor as nat))
        } else {
            None
        }
    }

    /// The rescale from `from_decimals` to `to_decimals` digits; `None` where
    /// the power of ten between them does not fit in `u128`.
    pub fn new(from_decimals: u32, to_decimals: u32) -> (r: Option<DecimalRescale>)
        ensures
            ({
                let widen = from_decimals <= to_decimals;
                let d: nat = if widen {
                    (to_decimals - from_decimals) as nat
                } else {
                    (from_decimals - to_decimals) as nat
                };
                match r {
                    Some(s) => s.widen == widen && s.factor == pow10(d),
                    None => pow10(d) > u128::MAX,
                }
            }),
    {
        let widen = from_decimals <= to_decimals;
        let d: u32 = if widen {
            to_decimals - from_decimals
        } else {
            from_decimals - to_decimals
        };
        let mut factor: u128 = 1;
        let mut i: u32 = 0;
        while i < d
            invariant
                i <= d,
                widen == (from_decimals <= to_decimals),
                d == if widen {
                    to_decimals - from_decimals
                } else {
                    from_decimals - to_decimals
                },
                factor == pow10(i as nat),
            decreases d - i,
        {
            match factor.checked_mul(10) {
                Some(f) => {
                    factor = f;
                },
                None => {
                    proof {
                        assert(pow10((i + 1) as nat) == 10 * pow10(i as nat));
                        lemma_pow10_mono((i + 1) as nat, d as nat);
                    }
                    return None;
                },
            }
            i = i + 1;
        }
        Some(DecimalRescale { factor, widen })
    }

    /// The local amount for `raw`; `None` where none is defined or where it
    /// does not fit in `u128`.
    pub fn convert(&self, raw: u128) -> (r: Option<u128>)
        ensures
            match self.rescaled(raw as nat) {
                Some(v) => if v <= u128::MAX {
                    r == Some(v as u128)
                } else {
                    r is None
                },
                None => r is None,
            },
    {
        if self.widen {
            raw.checked_mul(self.factor)
        } else if self.factor > 0 && raw % self.factor == 0 {
            Some(raw / self.factor)
        } else {
            None
        }
    }
}

proof fn lemma_pow10_mono(a: nat, b: nat)
    requires
        a <= b,
    ensures
        pow10(a) <= pow10(b),
    decreases b,
{
    if a < b {
        lemma_pow10_mono(a, (b - 1) as nat);
    }
}

} // verus!

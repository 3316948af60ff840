//! Monetary amounts as exact decimals: an integer mantissa scaled by a power
//! of ten, within the range of a 96-bit decimal such as `rust_decimal::Decimal`.

use vstd::prelude::*;

verus! {

/// The largest magnitude of a mantissa: 2^96 - 1.
pub const MAX_MANTISSA: i128 = 0xFFFF_FFFF_FFFF_FFFF_FFFF_FFFFi128;

/// The largest number of decimal places.
pub const MAX_SCALE: u32 = 28;

/// The amount `mantissa / 10^scale`.
#[derive(Debug, Clone, Copy)]
pub struct Amount {
    mantissa: i128,
    scale: u32,
}

/// Whether `mantissa` and `scale` describe a representable amount.
pub open spec fn representable(mantissa: int, scale: int) -> bool {
    &&& -MAX_MANTISSA <= mantissa <= MAX_MANTISSA
    &&& 0 <= scale <= MAX_SCALE
}

impl Amount {
    /// The integer that, divided by `10^scale`, gives the amount.
    pub closed spec fn mantissa_spec(self) -> int {
        self.mantissa as int
    }

    /// The number of decimal places.
    pub closed spec fn scale_spec(self) -> nat {
        self.scale as nat
    }

    /// Every amount lies in the representable range.
    pub closed spec fn wf(self) -> bool {
        representable(self.mantissa as int, self.scale as int)
    }

    /// The amount `num / 10^scale`.
    pub fn new(num: i64, scale: u32) -> (amount: Amount)
        requires
            scale <= MAX_SCALE,
        ensures
            amount.wf(),
            amount.mantissa_spec() == num as int,
            amount.scale_spec() == scale as nat,
    {
        Amount { mantissa: num as i128, scale }
    }

    /// The amount `mantissa / 10^scale`, if it is representable.
    pub fn from_parts(mantissa: i128, scale: u32) -> (amount: Option<Amount>)
        ensures
            amount is Some <==> representable(mantissa as int, scale as int),
            amount matches Some(a) ==> a.wf() && a.mantissa_spec() == mantissa as int
                && a.scale_spec() == scale as nat,
    {
        if scale <= MAX_SCALE && -MAX_MANTISSA <= mantissa && mantissa <= MAX_MANTISSA {
            Some(Amount { mantissa, scale })
        } else {
            None
        }
    }

    pub fn mantissa(&self) -> (m: i128)
        ensures
            m as int == self.mantissa_spec(),
    {
        self.mantissa
    }

    pub fn scale(&self) -> (s: u32)
        ensures
            s as nat == self.scale_spec(),
    {
        self.scale
    }

    /// Whether the amount is greater than zero; its sign is the sign of
    /// the mantissa.
    pub fn is_positive(&self) -> (positive: bool)
        ensures
            positive == (self.mantissa_spec() > 0),
    {
        self.mantissa > 0
    }
}

} // verus!

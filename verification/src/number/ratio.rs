//! Ratios that indicate the relative size of two values.

use vstd::prelude::*;

verus! {

/// A ratio between two values: a non-zero count.
///
/// It has no meaning on its own; it takes one with a direction. A ratio `2:4` can read as `2`
/// being half of `4`, or as `4` being twice `2`.
#[derive(Debug, Clone, Copy, PartialEq, Eq, Structural, PartialOrd, Ord, Hash)]
pub struct Ratio(usize);

impl Ratio {
    /// The ratio's count.
    pub closed spec fn count(&self) -> usize {
        self.0
    }

    /// The count of a ratio is never zero.
    #[verifier::type_invariant]
    spec fn non_zero(self) -> bool {
        self.0 != 0
    }

    /// Build the ratio `count`, if it is not zero.
    pub fn new(count: usize) -> (target_ratio: Option<Self>)
        ensures
            count == 0 ==> target_ratio is None,
            count != 0 ==> (target_ratio matches Some(r) && r.count() == count),
    {
        if count == 0 {
            None
        } else {
            Some(Ratio(count))
        }
    }

    /// The ratio's count.
    pub fn get(&self) -> (count: usize)
        ensures
            count == self.count(),
            count != 0,
    {
        proof {
            use_type_invariant(self);
        }
        self.0
    }
}

/// A compile-time ratio constant: the ratio `N`.
pub struct Const<const N: usize>;

impl<const N: usize> Const<N> {
    /// The ratio `N`.
    pub closed spec fn ratio_of() -> Ratio {
        Ratio(N)
    }

    /// The ratio `N` has the count `N`.
    pub proof fn lemma_ratio_of()
        ensures
            Self::ratio_of().count() == N,
    {
    }

    /// The ratio `N`, which must not be zero.
    pub fn ratio() -> (target_ratio: Ratio)
        requires
            N != 0,
        ensures
            target_ratio == Self::ratio_of(),
            target_ratio.count() == N,
    {
        Ratio(N)
    }
}

/// A type that can be scaled up and down by a [`Ratio`].
pub trait Transform: Sized {
    /// The value scaled up by a ratio.
    spec fn scaled_up(self, ratio: Ratio) -> Self;

    /// The value scaled down by a ratio.
    spec fn scaled_down(self, ratio: Ratio) -> Self;

    /// Whether scaling up by the ratio fits in the type.
    spec fn fits_up(self, ratio: Ratio) -> bool;

    /// Scaling down undoes scaling up: `(x * r) / r == x`.
    proof fn lemma_down_undoes_up(self, ratio: Ratio)
        requires
            ratio.count() != 0,
            self.fits_up(ratio),
        ensures
            self.scaled_up(ratio).scaled_down(ratio) == self,
    ;

    /// Scale the value up by the given [`Ratio`]: multiply it by the ratio.
    fn up(self, ratio: Ratio) -> (target_value: Self)
        requires
            self.fits_up(ratio),
        ensures
            target_value == self.scaled_up(ratio),
    ;

    /// Scale the value down by the given [`Ratio`]: divide it by the ratio.
    ///
    /// A ratio larger than the value gives `0`.
    fn down(self, ratio: Ratio) -> (target_value: Self)
        ensures
            target_value == self.scaled_down(ratio),
    ;
}

/// A quotient truncated toward zero is no further from zero than the dividend.
proof fn lemma_truncated_quotient_bound(dividend: int, divisor: int)
    requires
        divisor >= 1,
    ensures
        dividend >= 0 ==> 0 <= dividend / divisor <= dividend,
        dividend < 0 ==> 0 <= (-dividend) / divisor <= -dividend,
{
    assert(dividend >= 0 ==> 0 <= dividend / divisor <= dividend) by (nonlinear_arith)
        requires
            divisor >= 1,
    ;
    assert(dividend < 0 ==> 0 <= (-dividend) / divisor <= -dividend) by (nonlinear_arith)
        requires
            divisor >= 1,
    ;
}

impl Transform for u8 {
    open spec fn scaled_up(self, ratio: Ratio) -> u8 {
        (self as int * ratio.count() as int) as u8
    }

    open spec fn scaled_down(self, ratio: Ratio) -> u8 {
        (self as int / ratio.count() as int) as u8
    }

    open spec fn fits_up(self, ratio: Ratio) -> bool {
        self * ratio.count() <= u8::MAX
    }

    proof fn lemma_down_undoes_up(self, ratio: Ratio) {
        let c = ratio.count() as int;
        let x = self as int;
        assert((x * c) / c == x) by (nonlinear_arith)
            requires
                c > 0,
        ;
    }

    fn up(self, ratio: Ratio) -> (target_value: u8) {
        let count = ratio.get();
        if self == 0 {
            return 0;
        }
        assert(count <= u8::MAX) by (nonlinear_arith)
            requires
                self >= 1,
                self * count <= u8::MAX,
        ;
        let factor = count as u8;
        assert(factor * self == self * count) by (nonlinear_arith)
            requires
                factor == count,
        ;
        factor * self
    }

    fn down(self, ratio: Ratio) -> (target_value: u8) {
        let count = ratio.get();
        let quotient = (self as u64) / (count as u64);
        assert(quotient <= self) by (nonlinear_arith)
            requires
                count >= 1,
                quotient == (self as u64) / (count as u64),
        ;
        quotient as u8
    }
}

impl Transform for u16 {
    open spec fn scaled_up(self, ratio: Ratio) -> u16 {
        (self as int * ratio.count() as int) as u16
    }

    open spec fn scaled_down(self, ratio: Ratio) -> u16 {
        (self as int / ratio.count() as int) as u16
    }

    open spec fn fits_up(self, ratio: Ratio) -> bool {
        self * ratio.count() <= u16::MAX
    }

    proof fn lemma_down_undoes_up(self, ratio: Ratio) {
        let c = ratio.count() as int;
        let x = self as int;
        assert((x * c) / c == x) by (nonlinear_arith)
            requires
                c > 0,
        ;
    }

    fn up(self, ratio: Ratio) -> (target_value: u16) {
        let count = ratio.get();
        if self == 0 {
            return 0;
        }
        assert(count <= u16::MAX) by (nonlinear_arith)
            requires
                self >= 1,
                self * count <= u16::MAX,
        ;
        let factor = count as u16;
        assert(factor * self == self * count) by (nonlinear_arith)
            requires
                factor == count,
        ;
        factor * self
    }

    fn down(self, ratio: Ratio) -> (target_value: u16) {
        let count = ratio.get();
        let quotient = (self as u64) / (count as u64);
        assert(quotient <= self) by (nonlinear_arith)
            requires
                count >= 1,
                quotient == (self as u64) / (count as u64),
        ;
        quotient as u16
    }
}

impl Transform for u32 {
    open spec fn scaled_up(self, ratio: Ratio) -> u32 {
        (self as int * ratio.count() as int) as u32
    }

    open spec fn scaled_down(self, ratio: Ratio) -> u32 {
        (self as int / ratio.count() as int) as u32
    }

    open spec fn fits_up(self, ratio: Ratio) -> bool {
        self * ratio.count() <= u32::MAX
    }

    proof fn lemma_down_undoes_up(self, ratio: Ratio) {
        let c = ratio.count() as int;
        let x = self as int;
        assert((x * c) / c == x) by (nonlinear_arith)
            requires
                c > 0,
        ;
    }

    fn up(self, ratio: Ratio) -> (target_value: u32) {
        let count = ratio.get();
        if self == 0 {
            return 0;
        }
        assert(count <= u32::MAX) by (nonlinear_arith)
            requires
                self >= 1,
                self * count <= u32::MAX,
        ;
        let factor = count as u32;
        assert(factor * self == self * count) by (nonlinear_arith)
            requires
                factor == count,
        ;
        factor * self
    }

    fn down(self, ratio: Ratio) -> (target_value: u32) {
        let count = ratio.get();
        let quotient = (self as u64) / (count as u64);
        assert(quotient <= self) by (nonlinear_arith)
            requires
                count >= 1,
                quotient == (self as u64) / (count as u64),
        ;
        quotient as u32
    }
}

impl Transform for u64 {
    open spec fn scaled_up(self, ratio: Ratio) -> u64 {
        (self as int * ratio.count() as int) as u64
    }

    open spec fn scaled_down(self, ratio: Ratio) -> u64 {
        (self as int / ratio.count() as int) as u64
    }

    open spec fn fits_up(self, ratio: Ratio) -> bool {
        self * ratio.count() <= u64::MAX
    }

    proof fn lemma_down_undoes_up(self, ratio: Ratio) {
        let c = ratio.count() as int;
        let x = self as int;
        assert((x * c) / c == x) by (nonlinear_arith)
            requires
                c > 0,
        ;
    }

    fn up(self, ratio: Ratio) -> (target_value: u64) {
        let count = ratio.get();
        if self == 0 {
            return 0;
        }
        assert(count <= u64::MAX) by (nonlinear_arith)
            requires
                self >= 1,
                self * count <= u64::MAX,
        ;
        let factor = count as u64;
        assert(factor * self == self * count) by (nonlinear_arith)
            requires
                factor == count,
        ;
        factor * self
    }

    fn down(self, ratio: Ratio) -> (target_value: u64) {
        let count = ratio.get();
        self / (count as u64)
    }
}

impl Transform for usize {
    open spec fn scaled_up(self, ratio: Ratio) -> usize {
        (self as int * ratio.count() as int) as usize
    }

    open spec fn scaled_down(self, ratio: Ratio) -> usize {
        (self as int / ratio.count() as int) as usize
    }

    open spec fn fits_up(self, ratio: Ratio) -> bool {
        self * ratio.count() <= usize::MAX
    }

    proof fn lemma_down_undoes_up(self, ratio: Ratio) {
        let c = ratio.count() as int;
        let x = self as int;
        assert((x * c) / c == x) by (nonlinear_arith)
            requires
                c > 0,
        ;
    }

    fn up(self, ratio: Ratio) -> (target_value: usize) {
        let count = ratio.get();
        if self == 0 {
            return 0;
        }
        assert(count <= usize::MAX) by (nonlinear_arith)
            requires
                self >= 1,
                self * count <= usize::MAX,
        ;
        let factor = count as usize;
        assert(factor * self == self * count) by (nonlinear_arith)
            requires
                factor == count,
        ;
        factor * self
    }

    fn down(self, ratio: Ratio) -> (target_value: usize) {
        let count = ratio.get();
        self / (count as usize)
    }
}

impl Transform for u128 {
    open spec fn scaled_up(self, ratio: Ratio) -> u128 {
        (self as int * ratio.count() as int) as u128
    }

    open spec fn scaled_down(self, ratio: Ratio) -> u128 {
        (self as int / ratio.count() as int) as u128
    }

    open spec fn fits_up(self, ratio: Ratio) -> bool {
        self * ratio.count() <= u128::MAX
    }

    proof fn lemma_down_undoes_up(self, ratio: Ratio) {
        let c = ratio.count() as int;
        let x = self as int;
        assert((x * c) / c == x) by (nonlinear_arith)
            requires
                c > 0,
        ;
    }

    fn up(self, ratio: Ratio) -> (target_value: u128) {
        let count = ratio.get();
        if self == 0 {
            return 0;
        }
        assert(count <= u128::MAX) by (nonlinear_arith)
            requires
                self >= 1,
                self * count <= u128::MAX,
        ;
        let factor = count as u128;
        assert(factor * self == self * count) by (nonlinear_arith)
            requires
                factor == count,
        ;
        factor * self
    }

    fn down(self, ratio: Ratio) -> (target_value: u128) {
        let count = ratio.get();
        self / (count as u128)
    }
}

impl Transform for i8 {
    open spec fn scaled_up(self, ratio: Ratio) -> i8 {
        (self as int * ratio.count() as int) as i8
    }

    open spec fn scaled_down(self, ratio: Ratio) -> i8 {
        (if self >= 0 {
            self as int / ratio.count() as int
        } else {
            -((-(self as int)) / ratio.count() as int)
        }) as i8
    }

    open spec fn fits_up(self, ratio: Ratio) -> bool {
        &&& i8::MIN <= self * ratio.count() <= i8::MAX
        &&& (self == 0 || ratio.count() <= i8::MAX)
    }

    proof fn lemma_down_undoes_up(self, ratio: Ratio) {
        let c = ratio.count() as int;
        let x = self as int;
        assert((x * c) / c == x) by (nonlinear_arith)
            requires
                c > 0,
        ;
        assert((-(x * c)) / c == -x) by (nonlinear_arith)
            requires
                c > 0,
        ;
        assert(x >= 0 ==> x * c >= 0) by (nonlinear_arith)
            requires
                c > 0,
        ;
        assert(x < 0 ==> x * c < 0) by (nonlinear_arith)
            requires
                c > 0,
        ;
    }

    fn up(self, ratio: Ratio) -> (target_value: i8) {
        let count = ratio.get();
        if self == 0 {
            return 0;
        }
        let factor = count as i8;
        assert(factor * self == self * count) by (nonlinear_arith)
            requires
                factor == count,
        ;
        factor * self
    }

    fn down(self, ratio: Ratio) -> (target_value: i8) {
        let count = ratio.get();
        let quotient = (self as i128) / (count as i128);
        proof {
            lemma_truncated_quotient_bound(self as int, count as int);
        }
        quotient as i8
    }
}

impl Transform for i16 {
    open spec fn scaled_up(self, ratio: Ratio) -> i16 {
        (self as int * ratio.count() as int) as i16
    }

    open spec fn scaled_down(self, ratio: Ratio) -> i16 {
        (if self >= 0 {
            self as int / ratio.count() as int
        } else {
            -((-(self as int)) / ratio.count() as int)
        }) as i16
    }

    open spec fn fits_up(self, ratio: Ratio) -> bool {
        &&& i16::MIN <= self * ratio.count() <= i16::MAX
        &&& (self == 0 || ratio.count() <= i16::MAX)
    }

    proof fn lemma_down_undoes_up(self, ratio: Ratio) {
        let c = ratio.count() as int;
        let x = self as int;
        assert((x * c) / c == x) by (nonlinear_arith)
            requires
                c > 0,
        ;
        assert((-(x * c)) / c == -x) by (nonlinear_arith)
            requires
                c > 0,
        ;
        assert(x >= 0 ==> x * c >= 0) by (nonlinear_arith)
            requires
                c > 0,
        ;
        assert(x < 0 ==> x * c < 0) by (nonlinear_arith)
            requires
                c > 0,
        ;
    }

    fn up(self, ratio: Ratio) -> (target_value: i16) {
        let count = ratio.get();
        if self == 0 {
            return 0;
        }
        let factor = count as i16;
        assert(factor * self == self * count) by (nonlinear_arith)
            requires
                factor == count,
        ;
        factor * self
    }

    fn down(self, ratio: Ratio) -> (target_value: i16) {
        let count = ratio.get();
        let quotient = (self as i128) / (count as i128);
        proof {
            lemma_truncated_quotient_bound(self as int, count as int);
        }
        quotient as i16
    }
}

impl Transform for i32 {
    open spec fn scaled_up(self, ratio: Ratio) -> i32 {
        (self as int * ratio.count() as int) as i32
    }

    open spec fn scaled_down(self, ratio: Ratio) -> i32 {
        (if self >= 0 {
            self as int / ratio.count() as int
        } else {
            -((-(self as int)) / ratio.count() as int)
        }) as i32
    }

    open spec fn fits_up(self, ratio: Ratio) -> bool {
        &&& i32::MIN <= self * ratio.count() <= i32::MAX
        &&& (self == 0 || ratio.count() <= i32::MAX)
    }

    proof fn lemma_down_undoes_up(self, ratio: Ratio) {
        let c = ratio.count() as int;
        let x = self as int;
        assert((x * c) / c == x) by (nonlinear_arith)
            requires
                c > 0,
        ;
        assert((-(x * c)) / c == -x) by (nonlinear_arith)
            requires
                c > 0,
        ;
        assert(x >= 0 ==> x * c >= 0) by (nonlinear_arith)
            requires
                c > 0,
        ;
        assert(x < 0 ==> x * c < 0) by (nonlinear_arith)
            requires
                c > 0,
        ;
    }

    fn up(self, ratio: Ratio) -> (target_value: i32) {
        let count = ratio.get();
        if self == 0 {
            return 0;
        }
        let factor = count as i32;
        assert(factor * self == self * count) by (nonlinear_arith)
            requires
                factor == count,
        ;
        factor * self
    }

    fn down(self, ratio: Ratio) -> (target_value: i32) {
        let count = ratio.get();
        let quotient = (self as i128) / (count as i128);
        proof {
            lemma_truncated_quotient_bound(self as int, count as int);
        }
        quotient as i32
    }
}

impl Transform for i64 {
    open spec fn scaled_up(self, ratio: Ratio) -> i64 {
        (self as int * ratio.count() as int) as i64
    }

    open spec fn scaled_down(self, ratio: Ratio) -> i64 {
        (if self >= 0 {
            self as int / ratio.count() as int
        } else {
            -((-(self as int)) / ratio.count() as int)
        }) as i64
    }

    open spec fn fits_up(self, ratio: Ratio) -> bool {
        &&& i64::MIN <= self * ratio.count() <= i64::MAX
        &&& (self == 0 || ratio.count() <= i64::MAX)
    }

    proof fn lemma_down_undoes_up(self, ratio: Ratio) {
        let c = ratio.count() as int;
        let x = self as int;
        assert((x * c) / c == x) by (nonlinear_arith)
            requires
                c > 0,
        ;
        assert((-(x * c)) / c == -x) by (nonlinear_arith)
            requires
                c > 0,
        ;
        assert(x >= 0 ==> x * c >= 0) by (nonlinear_arith)
            requires
                c > 0,
        ;
        assert(x < 0 ==> x * c < 0) by (nonlinear_arith)
            requires
                c > 0,
        ;
    }

    fn up(self, ratio: Ratio) -> (target_value: i64) {
        let count = ratio.get();
        if self == 0 {
            return 0;
        }
        let factor = count as i64;
        assert(factor * self == self * count) by (nonlinear_arith)
            requires
                factor == count,
        ;
        factor * self
    }

    fn down(self, ratio: Ratio) -> (target_value: i64) {
        let count = ratio.get();
        let quotient = (self as i128) / (count as i128);
        proof {
            lemma_truncated_quotient_bound(self as int, count as int);
        }
        quotient as i64
    }
}

impl Transform for isize {
    open spec fn scaled_up(self, ratio: Ratio) -> isize {
        (self as int * ratio.count() as int) as isize
    }

    open spec fn scaled_down(self, ratio: Ratio) -> isize {
        (if self >= 0 {
            self as int / ratio.count() as int
        } else {
            -((-(self as int)) / ratio.count() as int)
        }) as isize
    }

    open spec fn fits_up(self, ratio: Ratio) -> bool {
        &&& isize::MIN <= self * ratio.count() <= isize::MAX
        &&& (self == 0 || ratio.count() <= isize::MAX)
    }

    proof fn lemma_down_undoes_up(self, ratio: Ratio) {
        let c = ratio.count() as int;
        let x = self as int;
        assert((x * c) / c == x) by (nonlinear_arith)
            requires
                c > 0,
        ;
        assert((-(x * c)) / c == -x) by (nonlinear_arith)
            requires
                c > 0,
        ;
        assert(x >= 0 ==> x * c >= 0) by (nonlinear_arith)
            requires
                c > 0,
        ;
        assert(x < 0 ==> x * c < 0) by (nonlinear_arith)
            requires
                c > 0,
        ;
    }

    fn up(self, ratio: Ratio) -> (target_value: isize) {
        let count = ratio.get();
        if self == 0 {
            return 0;
        }
        let factor = count as isize;
        assert(factor * self == self * count) by (nonlinear_arith)
            requires
                factor == count,
        ;
        factor * self
    }

    fn down(self, ratio: Ratio) -> (target_value: isize) {
        let count = ratio.get();
        let quotient = (self as i128) / (count as i128);
        proof {
            lemma_truncated_quotient_bound(self as int, count as int);
        }
        quotient as isize
    }
}

impl Transform for i128 {
    open spec fn scaled_up(self, ratio: Ratio) -> i128 {
        (self as int * ratio.count() as int) as i128
    }

    open spec fn scaled_down(self, ratio: Ratio) -> i128 {
        (if self >= 0 {
            self as int / ratio.count() as int
        } else {
            -((-(self as int)) / ratio.count() as int)
        }) as i128
    }

    open spec fn fits_up(self, ratio: Ratio) -> bool {
        &&& i128::MIN <= self * ratio.count() <= i128::MAX
        &&& (self == 0 || ratio.count() <= i128::MAX)
    }

    proof fn lemma_down_undoes_up(self, ratio: Ratio) {
        let c = ratio.count() as int;
        let x = self as int;
        assert((x * c) / c == x) by (nonlinear_arith)
            requires
                c > 0,
        ;
        assert((-(x * c)) / c == -x) by (nonlinear_arith)
            requires
                c > 0,
        ;
        assert(x >= 0 ==> x * c >= 0) by (nonlinear_arith)
            requires
                c > 0,
        ;
        assert(x < 0 ==> x * c < 0) by (nonlinear_arith)
            requires
                c > 0,
        ;
    }

    fn up(self, ratio: Ratio) -> (target_value: i128) {
        let count = ratio.get();
        if self == 0 {
            return 0;
        }
        let factor = count as i128;
        assert(factor * self == self * count) by (nonlinear_arith)
            requires
                factor == count,
        ;
        factor * self
    }

    fn down(self, ratio: Ratio) -> (target_value: i128) {
        let count = ratio.get();
        self / (count as i128)
    }
}

} // verus!

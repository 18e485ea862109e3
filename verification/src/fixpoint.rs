//! Fixed-point numbers over unsigned integers of 8, 16, 32 or 64 bits.
//!
//! A [`Fixpoint<T, N>`] stores a number in the integer `T`, the `N` least significant bits
//! holding its fractional part. The [`Partwise`] decomposition separates a value into its
//! integer part and its fractional part, the latter stored most-significant-bit first in a
//! 64-bit word (i.e. as a fraction of `2^64`).

use vstd::prelude::*;

verus! {

/// One more than the largest value of an unsigned integer of `bits` bits.
pub open spec fn bit_limit(bits: nat) -> int {
    if bits == 8 {
        0x100
    } else if bits == 16 {
        0x1_0000
    } else if bits == 32 {
        0x1_0000_0000
    } else {
        0x1_0000_0000_0000_0000
    }
}

/// `word` truncated to its `bits` least significant bits, as an `as` cast to that width does.
pub open spec fn truncated(word: u64, bits: nat) -> u64 {
    if bits == 8 {
        word & 0xff
    } else if bits == 16 {
        word & 0xffff
    } else if bits == 32 {
        word & 0xffff_ffff
    } else {
        word
    }
}

/// The integer part of `word` read with `n` fractional bits.
pub open spec fn split_integer(word: u64, n: u64) -> u64 {
    word >> n
}

/// The fractional part of `word` read with `n` fractional bits, moved to the most significant
/// bits of a 64-bit word.
pub open spec fn split_fraction(word: u64, n: u64) -> u64 {
    if n == 0 {
        0
    } else {
        (word & ((1u64 << n) - 1u64) as u64) << (64 - n) as u64
    }
}

/// The word with `n` fractional bits that an integer part and a most-significant-bit-first
/// fractional part make up, before truncation to the target width.
pub open spec fn joined(integer: u64, fraction: u64, n: u64) -> u64 {
    if n == 0 {
        integer
    } else {
        (integer << n) | (fraction >> (64 - n) as u64)
    }
}

/// The integer and fractional parts of a number.
///
/// The integer part is stored as-is; the fractional part is stored most-significant-bit first,
/// i.e. the number is `integer + fractional / 2^64`.
#[derive(Debug, Clone, Copy, PartialEq, Eq, Structural, PartialOrd)]
pub struct Partwise {
    /// The integer part of the number.
    integer: u64,
    /// The fractional part of the number, as a fraction of `2^64`.
    fractional: u64,
}

impl Partwise {
    /// The integer part.
    pub closed spec fn integer_part(&self) -> u64 {
        self.integer
    }

    /// The fractional part, as a fraction of `2^64`.
    pub closed spec fn fractional_part(&self) -> u64 {
        self.fractional
    }

    /// Assemble a decomposition from its integer part and its fractional part (a fraction of
    /// `2^64`).
    pub fn parts(integer: u64, fractional: u64) -> (target_partwise: Self)
        ensures
            target_partwise.integer_part() == integer,
            target_partwise.fractional_part() == fractional,
    {
        Partwise { integer, fractional }
    }

    /// The integer part.
    pub fn integer(&self) -> (integer: u64)
        ensures
            integer == self.integer_part(),
    {
        self.integer
    }

    /// The fractional part, as a fraction of `2^64`.
    pub fn fractional(&self) -> (fractional: u64)
        ensures
            fractional == self.fractional_part(),
    {
        self.fractional
    }
}

/// An unsigned integer type that can drive a fixed-point number.
pub trait Fixed: Sized + Copy {
    /// The number of bits of the type: 8, 16, 32 or 64.
    spec fn bits() -> nat;

    /// The value, zero-extended to 64 bits.
    spec fn word(&self) -> u64;

    /// The type has a supported width.
    proof fn lemma_bits()
        ensures
            Self::bits() == 8 || Self::bits() == 16 || Self::bits() == 32 || Self::bits() == 64,
    ;

    /// Every value has a supported width and fits in it.
    proof fn lemma_layout(&self)
        ensures
            Self::bits() == 8 || Self::bits() == 16 || Self::bits() == 32 || Self::bits() == 64,
            self.word() < bit_limit(Self::bits()),
    ;

    /// Zero-extend the value to 64 bits.
    fn wide(self) -> (target_word: u64)
        ensures
            target_word == self.word(),
    ;

    /// A 64-bit word truncated to this type, as an `as` cast does.
    spec fn word_truncation(target_word: u64) -> Self;

    /// The truncation of a word holds the word's bits that fit in the type.
    proof fn lemma_word_truncation(target_word: u64)
        ensures
            Self::word_truncation(target_word).word() == truncated(target_word, Self::bits()),
    ;

    /// Truncate a 64-bit word to this type, as an `as` cast does.
    fn truncate(target_word: u64) -> (target_value: Self)
        ensures
            target_value.word() == truncated(target_word, Self::bits()),
            target_value == Self::word_truncation(target_word),
    ;

    /// Split the value into its [`Partwise`] decomposition with `N` fractional bits.
    fn partwise<const N: usize>(self) -> (target_partwise: Partwise)
        requires
            N < Self::bits(),
        ensures
            target_partwise.integer_part() == split_integer(self.word(), N as u64),
            target_partwise.fractional_part() == split_fraction(self.word(), N as u64),
    {
        proof {
            self.lemma_layout();
        }
        let target_word = self.wide();
        let shift: u64 = N as u64;
        let integer = target_word >> shift;
        let fractional = if shift == 0 {
            0
        } else {
            proof {
                lemma_word_facts(target_word, shift);
            }
            let fractional_mask: u64 = (1u64 << shift) - 1;
            (target_word & fractional_mask) << (64 - shift)
        };
        Partwise { integer, fractional }
    }

    /// Interpret a [`Partwise`] decomposition as a value with `N` fractional bits.
    ///
    /// Integer bits that do not fit are dropped, and so are fractional bits beyond the `N`
    /// most significant ones.
    fn interpret<const N: usize>(target_partwise: Partwise) -> (target_value: Self)
        requires
            N < Self::bits(),
        ensures
            target_value.word() == truncated(
                joined(
                    target_partwise.integer_part(),
                    target_partwise.fractional_part(),
                    N as u64,
                ),
                Self::bits(),
            ),
    {
        proof {
            Self::lemma_bits();
        }
        let shift: u64 = N as u64;
        let Partwise { integer, fractional } = target_partwise;
        let target_word = if shift == 0 {
            integer
        } else {
            (integer << shift) | (fractional >> (64 - shift))
        };
        Self::truncate(target_word)
    }
}

impl Fixed for u8 {
    open spec fn bits() -> nat {
        8
    }

    open spec fn word(&self) -> u64 {
        *self as u64
    }

    open spec fn word_truncation(target_word: u64) -> u8 {
        target_word as u8
    }

    proof fn lemma_bits() {
    }

    proof fn lemma_word_truncation(target_word: u64) {
        lemma_word_facts(target_word, 0);
    }

    proof fn lemma_layout(&self) {
    }

    fn wide(self) -> (target_word: u64) {
        self as u64
    }

    fn truncate(target_word: u64) -> (target_value: u8) {
        let target_value = target_word as u8;
        proof {
            lemma_word_facts(target_word, 0);
            assert(target_value == <u8 as Fixed>::word_truncation(target_word));
        }
        target_value
    }
}

impl Fixed for u16 {
    open spec fn bits() -> nat {
        16
    }

    open spec fn word(&self) -> u64 {
        *self as u64
    }

    open spec fn word_truncation(target_word: u64) -> u16 {
        target_word as u16
    }

    proof fn lemma_bits() {
    }

    proof fn lemma_word_truncation(target_word: u64) {
        lemma_word_facts(target_word, 0);
    }

    proof fn lemma_layout(&self) {
    }

    fn wide(self) -> (target_word: u64) {
        self as u64
    }

    fn truncate(target_word: u64) -> (target_value: u16) {
        let target_value = target_word as u16;
        proof {
            lemma_word_facts(target_word, 0);
            assert(target_value == <u16 as Fixed>::word_truncation(target_word));
        }
        target_value
    }
}

impl Fixed for u32 {
    open spec fn bits() -> nat {
        32
    }

    open spec fn word(&self) -> u64 {
        *self as u64
    }

    open spec fn word_truncation(target_word: u64) -> u32 {
        target_word as u32
    }

    proof fn lemma_bits() {
    }

    proof fn lemma_word_truncation(target_word: u64) {
        lemma_word_facts(target_word, 0);
    }

    proof fn lemma_layout(&self) {
    }

    fn wide(self) -> (target_word: u64) {
        self as u64
    }

    fn truncate(target_word: u64) -> (target_value: u32) {
        let target_value = target_word as u32;
        proof {
            lemma_word_facts(target_word, 0);
            assert(target_value == <u32 as Fixed>::word_truncation(target_word));
        }
        target_value
    }
}

impl Fixed for u64 {
    open spec fn bits() -> nat {
        64
    }

    open spec fn word(&self) -> u64 {
        *self
    }

    open spec fn word_truncation(target_word: u64) -> u64 {
        target_word
    }

    proof fn lemma_bits() {
    }

    proof fn lemma_word_truncation(target_word: u64) {
        lemma_word_facts(target_word, 0);
    }

    proof fn lemma_layout(&self) {
    }

    fn wide(self) -> (target_word: u64) {
        self
    }

    fn truncate(target_word: u64) -> (target_value: u64) {
        proof {
            assert(target_word == <u64 as Fixed>::word_truncation(target_word));
        }
        target_word
    }
}

/// Facts on a 64-bit word and a shift amount that the arithmetic below relies on.
proof fn lemma_word_facts(word: u64, shift: u64)
    by (bit_vector)
    ensures
        (word as u8) as u64 == word & 0xff,
        (word as u16) as u64 == word & 0xffff,
        (word as u32) as u64 == word & 0xffff_ffff,
        word < 0x100 ==> word & 0xff == word,
        word < 0x1_0000 ==> word & 0xffff == word,
        word < 0x1_0000_0000 ==> word & 0xffff_ffff == word,
        word >> 0u64 == word,
        word << 0u64 == word,
        word >> shift <= word,
        shift < 64 ==> (1u64 << shift) >= 1,
{
}

/// Truncating a word that already fits changes nothing.
pub proof fn lemma_truncated_fits(word: u64, bits: nat)
    requires
        bits == 8 || bits == 16 || bits == 32 || bits == 64,
        word < bit_limit(bits),
    ensures
        truncated(word, bits) == word,
{
    lemma_word_facts(word, 0);
}

/// Splitting a word and joining its parts back gives the word again.
pub proof fn lemma_split_join(word: u64, n: u64)
    requires
        n < 64,
    ensures
        joined(split_integer(word, n), split_fraction(word, n), n) == word,
{
    if n != 0 {
        assert(joined(split_integer(word, n), split_fraction(word, n), n) == word) by (bit_vector)
            requires
                0 < n < 64,
        ;
    } else {
        lemma_word_facts(word, 0);
    }
}

/// Converting a value into its [`Partwise`] decomposition and interpreting it back, with the
/// same number of fractional bits, gives the value again.
pub proof fn lemma_partwise_roundtrip<T: Fixed>(target_value: T, n: u64)
    requires
        n < T::bits(),
    ensures
        truncated(joined(split_integer(target_value.word(), n), split_fraction(
            target_value.word(),
            n,
        ), n), T::bits()) == target_value.word(),
{
    target_value.lemma_layout();
    lemma_split_join(target_value.word(), n);
    lemma_truncated_fits(target_value.word(), T::bits());
}

/// A fixed-point number driven by the unsigned integer `T`, with `N` fractional bits.
///
/// The number a value `x` stands for is `x / 2^N`.
#[derive(Debug, Clone, Copy, PartialEq, Eq, Hash, PartialOrd, Ord)]
pub struct Fixpoint<T, const N: usize>(T);

impl<T: Fixed, const N: usize> Fixpoint<T, N> {
    /// The underlying integer.
    pub closed spec fn inner(&self) -> T {
        self.0
    }

    /// The underlying integer, zero-extended to 64 bits.
    pub open spec fn word(&self) -> u64 {
        self.inner().word()
    }

    /// The number whose underlying integer is a 64-bit word truncated to `T`.
    pub closed spec fn of_word(target_word: u64) -> Self {
        Fixpoint(T::word_truncation(target_word))
    }

    /// The number made of a word holds the word's bits that fit in `T`.
    pub proof fn lemma_of_word(target_word: u64)
        ensures
            Self::of_word(target_word).word() == truncated(target_word, T::bits()),
    {
        T::lemma_word_truncation(target_word);
    }

    /// Instantiate a new [`Fixpoint`] literal from its raw value.
    pub fn raw(target_value: T) -> (target_number: Self)
        ensures
            target_number.inner() == target_value,
    {
        Fixpoint(target_value)
    }

    /// Unwrap the internal fixed-point value.
    pub fn value(self) -> (target_value: T)
        ensures
            target_value == self.inner(),
    {
        self.0
    }

    /// Convert a scalar value `T` into a [`Fixpoint`] number, i.e. shift it up by `N` bits.
    ///
    /// Any bits that do not fit are stripped.
    pub fn scalar(target_scalar: T) -> (target_number: Self)
        requires
            N < T::bits(),
        ensures
            target_number.word() == truncated(target_scalar.word() << N as u64, T::bits()),
    {
        let target_partwise = target_scalar.partwise::<0>();
        let shift: u64 = N as u64;
        proof {
            T::lemma_bits();
            let x = target_scalar.word();
            lemma_word_facts(x, 0);
            if shift != 0 {
                assert(joined(x, 0, shift) == x << shift) by (bit_vector)
                    requires
                        0 < shift < 64,
                ;
            }
        }
        Fixpoint(T::interpret::<N>(target_partwise))
    }

    /// The sum of two numbers.
    pub fn add(self, rhs: Self) -> (target_number: Self)
        requires
            self.word() + rhs.word() < bit_limit(T::bits()),
        ensures
            target_number.word() == self.word() + rhs.word(),
            target_number == Self::of_word((self.word() + rhs.word()) as u64),
    {
        proof {
            self.0.lemma_layout();
            rhs.0.lemma_layout();
        }
        let target_word = self.0.wide() + rhs.0.wide();
        proof {
            lemma_truncated_fits(target_word, T::bits());
        }
        Fixpoint(T::truncate(target_word))
    }

    /// The difference of two numbers.
    pub fn sub(self, rhs: Self) -> (target_number: Self)
        requires
            self.word() >= rhs.word(),
        ensures
            target_number.word() == self.word() - rhs.word(),
            target_number == Self::of_word((self.word() - rhs.word()) as u64),
    {
        proof {
            self.0.lemma_layout();
        }
        let target_word = self.0.wide() - rhs.0.wide();
        proof {
            lemma_truncated_fits(target_word, T::bits());
        }
        Fixpoint(T::truncate(target_word))
    }

    /// The product of two numbers: the raw product shifted down by `N` bits.
    pub fn mul(self, rhs: Self) -> (target_number: Self)
        requires
            N < T::bits(),
            self.word() * rhs.word() < bit_limit(T::bits()),
        ensures
            target_number.word() == ((self.word() * rhs.word()) as u64) >> N as u64,
            target_number == Self::of_word(((self.word() * rhs.word()) as u64) >> N as u64),
    {
        proof {
            self.0.lemma_layout();
        }
        let product = self.0.wide() * rhs.0.wide();
        let shift: u64 = N as u64;
        let target_word = product >> shift;
        proof {
            lemma_word_facts(product, shift);
            lemma_truncated_fits(target_word, T::bits());
        }
        Fixpoint(T::truncate(target_word))
    }

    /// The quotient of two numbers: the dividend shifted up by `N` bits (within `T`), divided
    /// by the divisor.
    pub fn div(self, rhs: Self) -> (target_number: Self)
        requires
            N < T::bits(),
            rhs.word() != 0,
        ensures
            target_number.word() == truncated(self.word() << N as u64, T::bits()) / rhs.word(),
            target_number == Self::of_word(
                truncated(self.word() << N as u64, T::bits()) / rhs.word(),
            ),
    {
        proof {
            self.0.lemma_layout();
            T::lemma_bits();
        }
        let shift: u64 = N as u64;
        let shifted: T = T::truncate(self.0.wide() << shift);
        let shifted_word = shifted.wide();
        let divisor = rhs.0.wide();
        let target_word = shifted_word / divisor;
        proof {
            shifted.lemma_layout();
            assert(target_word <= shifted_word) by (nonlinear_arith)
                requires
                    divisor >= 1,
                    target_word == shifted_word / divisor,
            ;
            lemma_truncated_fits(target_word, T::bits());
        }
        Fixpoint(T::truncate(target_word))
    }

    /// The remainder of the division of two numbers.
    pub fn rem(self, rhs: Self) -> (target_number: Self)
        requires
            rhs.word() != 0,
        ensures
            target_number.word() == self.word() % rhs.word(),
            target_number == Self::of_word(self.word() % rhs.word()),
    {
        proof {
            self.0.lemma_layout();
        }
        let dividend = self.0.wide();
        let divisor = rhs.0.wide();
        let target_word = dividend % divisor;
        proof {
            assert(target_word <= dividend) by (nonlinear_arith)
                requires
                    divisor >= 1,
                    target_word == dividend % divisor,
            ;
            lemma_truncated_fits(target_word, T::bits());
        }
        Fixpoint(T::truncate(target_word))
    }

    /// The raw value shifted left by the raw value of `rhs`, dropping the bits that leave `T`.
    pub fn shl(self, rhs: Self) -> (target_number: Self)
        requires
            rhs.word() < T::bits(),
        ensures
            target_number.word() == truncated(self.word() << rhs.word(), T::bits()),
            target_number == Self::of_word(self.word() << rhs.word()),
    {
        proof {
            T::lemma_bits();
        }
        Fixpoint(T::truncate(self.0.wide() << rhs.0.wide()))
    }

    /// The raw value shifted right by the raw value of `rhs`.
    pub fn shr(self, rhs: Self) -> (target_number: Self)
        requires
            rhs.word() < T::bits(),
        ensures
            target_number.word() == self.word() >> rhs.word(),
            target_number == Self::of_word(self.word() >> rhs.word()),
    {
        proof {
            self.0.lemma_layout();
            T::lemma_bits();
        }
        let x = self.0.wide();
        let s = rhs.0.wide();
        let target_word = x >> s;
        proof {
            lemma_word_facts(x, s);
            lemma_truncated_fits(target_word, T::bits());
        }
        Fixpoint(T::truncate(target_word))
    }
}

/// The sum of two numbers.
impl<T: Fixed, const N: usize> core::ops::Add for Fixpoint<T, N> {
    type Output = Self;

    fn add(self, rhs: Self) -> (target_number: Self) {
        Fixpoint::<T, N>::add(self, rhs)
    }
}

impl<T: Fixed, const N: usize> vstd::std_specs::ops::AddSpecImpl for Fixpoint<T, N> {
    open spec fn obeys_add_spec() -> bool {
        true
    }

    open spec fn add_req(self, rhs: Self) -> bool {
        self.word() + rhs.word() < bit_limit(T::bits())
    }

    open spec fn add_spec(self, rhs: Self) -> Self {
        Self::of_word((self.word() + rhs.word()) as u64)
    }
}

/// The difference of two numbers.
impl<T: Fixed, const N: usize> core::ops::Sub for Fixpoint<T, N> {
    type Output = Self;

    fn sub(self, rhs: Self) -> (target_number: Self) {
        Fixpoint::<T, N>::sub(self, rhs)
    }
}

impl<T: Fixed, const N: usize> vstd::std_specs::ops::SubSpecImpl for Fixpoint<T, N> {
    open spec fn obeys_sub_spec() -> bool {
        true
    }

    open spec fn sub_req(self, rhs: Self) -> bool {
        self.word() >= rhs.word()
    }

    open spec fn sub_spec(self, rhs: Self) -> Self {
        Self::of_word((self.word() - rhs.word()) as u64)
    }
}

/// The product of two numbers: the raw product shifted down by `N` bits.
impl<T: Fixed, const N: usize> core::ops::Mul for Fixpoint<T, N> {
    type Output = Self;

    fn mul(self, rhs: Self) -> (target_number: Self) {
        Fixpoint::<T, N>::mul(self, rhs)
    }
}

impl<T: Fixed, const N: usize> vstd::std_specs::ops::MulSpecImpl for Fixpoint<T, N> {
    open spec fn obeys_mul_spec() -> bool {
        true
    }

    open spec fn mul_req(self, rhs: Self) -> bool {
        N < T::bits() && self.word() * rhs.word() < bit_limit(T::bits())
    }

    open spec fn mul_spec(self, rhs: Self) -> Self {
        Self::of_word(((self.word() * rhs.word()) as u64) >> N as u64)
    }
}

/// The quotient of two numbers: the dividend shifted up by `N` bits within `T`, divided by
    /// the divisor.
impl<T: Fixed, const N: usize> core::ops::Div for Fixpoint<T, N> {
    type Output = Self;

    fn div(self, rhs: Self) -> (target_number: Self) {
        Fixpoint::<T, N>::div(self, rhs)
    }
}

impl<T: Fixed, const N: usize> vstd::std_specs::ops::DivSpecImpl for Fixpoint<T, N> {
    open spec fn obeys_div_spec() -> bool {
        true
    }

    open spec fn div_req(self, rhs: Self) -> bool {
        N < T::bits() && rhs.word() != 0
    }

    open spec fn div_spec(self, rhs: Self) -> Self {
        Self::of_word(truncated(self.word() << N as u64, T::bits()) / rhs.word())
    }
}

/// The remainder of the division of two numbers.
impl<T: Fixed, const N: usize> core::ops::Rem for Fixpoint<T, N> {
    type Output = Self;

    fn rem(self, rhs: Self) -> (target_number: Self) {
        Fixpoint::<T, N>::rem(self, rhs)
    }
}

impl<T: Fixed, const N: usize> vstd::std_specs::ops::RemSpecImpl for Fixpoint<T, N> {
    open spec fn obeys_rem_spec() -> bool {
        true
    }

    open spec fn rem_req(self, rhs: Self) -> bool {
        rhs.word() != 0
    }

    open spec fn rem_spec(self, rhs: Self) -> Self {
        Self::of_word(self.word() % rhs.word())
    }
}

/// The raw value shifted left by the raw value of `rhs`, dropping the bits that leave `T`.
impl<T: Fixed, const N: usize> core::ops::Shl for Fixpoint<T, N> {
    type Output = Self;

    fn shl(self, rhs: Self) -> (target_number: Self) {
        Fixpoint::<T, N>::shl(self, rhs)
    }
}

impl<T: Fixed, const N: usize> vstd::std_specs::ops::ShlSpecImpl for Fixpoint<T, N> {
    open spec fn obeys_shl_spec() -> bool {
        true
    }

    open spec fn shl_req(self, rhs: Self) -> bool {
        rhs.word() < T::bits()
    }

    open spec fn shl_spec(self, rhs: Self) -> Self {
        Self::of_word(self.word() << rhs.word())
    }
}

/// The raw value shifted right by the raw value of `rhs`.
impl<T: Fixed, const N: usize> core::ops::Shr for Fixpoint<T, N> {
    type Output = Self;

    fn shr(self, rhs: Self) -> (target_number: Self) {
        Fixpoint::<T, N>::shr(self, rhs)
    }
}

impl<T: Fixed, const N: usize> vstd::std_specs::ops::ShrSpecImpl for Fixpoint<T, N> {
    open spec fn obeys_shr_spec() -> bool {
        true
    }

    open spec fn shr_req(self, rhs: Self) -> bool {
        rhs.word() < T::bits()
    }

    open spec fn shr_spec(self, rhs: Self) -> Self {
        Self::of_word(self.word() >> rhs.word())
    }
}

} // verus!

//! Extract many bits at a time.

use vstd::prelude::*;

use crate::bit::handle::{Bit, BitMut};
use crate::bit::take::{Bits, HasPrimitive, state_at, word_limit};

verus! {

/// A mask of the `width` least significant bits of a `u16`.
pub open spec fn low_mask(width: u16) -> u16 {
    if width >= 16 {
        0xffff
    } else {
        ((1u16 << width) - 1u16) as u16
    }
}

/// The mask of the `span_width` least significant bits.
fn mask_of(span_width: u16) -> (target_mask: u16)
    requires
        1 <= span_width <= 16,
    ensures
        target_mask == low_mask(span_width),
{
    if span_width >= 16 {
        0xffff
    } else {
        assert((1u16 << span_width) >= 1) by (bit_vector)
            requires
                span_width < 16,
        ;
        (1u16 << span_width) - 1
    }
}

/// The number of bits in the inclusive range `first..=last`.
pub open spec fn span(first: u16, last: u16) -> u16 {
    (last - first + 1) as u16
}

/// The bits `first..=last` of `word`, shifted down to start at bit `0`.
pub open spec fn field(word: u16, first: u16, last: u16) -> u16 {
    (word >> first) & low_mask(span(first, last))
}

/// `word` with the bits `first..=last` replaced by the low bits of `target_value`, every other
/// bit unchanged.
pub open spec fn fused(word: u16, first: u16, last: u16, target_value: u16) -> u16 {
    let placed_mask = low_mask(span(first, last)) << first;
    (word & !placed_mask) | ((target_value << first) & placed_mask)
}

/// The precondition shared by all bit-range operations on a type of `width` bits.
pub open spec fn valid_range(first: nat, last: nat, width: nat) -> bool {
    first <= last && last < width
}

proof fn lemma_range_bounds(target_word: u16, first: u16, last: u16, target_value: u16, width: u16)
    requires
        width == 8 || width == 16,
        first <= last,
        last < width,
        width == 8 ==> target_word < 0x100,
    ensures
        span(first, last) >= 1,
        span(first, last) <= 16,
        width == 8 ==> fused(target_word, first, last, target_value) < 0x100,
        field(target_word, first, last) <= low_mask(span(first, last)),
{
    let span_width = span(first, last);
    assert(span_width == last - first + 1);
    let fused_word = fused(target_word, first, last, target_value);
    assert(width == 8 ==> fused_word < 0x100) by (bit_vector)
        requires
            width == 8 || width == 16,
            first <= last,
            last < width,
            width == 8 ==> target_word < 0x100,
            span_width == last - first + 1,
            fused_word == (target_word & !((if span_width >= 16 {
                0xffffu16
            } else {
                ((1u16 << span_width) - 1u16) as u16
            }) << first)) | ((target_value << first) & ((if span_width >= 16 {
                0xffffu16
            } else {
                ((1u16 << span_width) - 1u16) as u16
            }) << first)),
    ;
    let mask = low_mask(span_width);
    assert((target_word >> first) & mask <= mask) by (bit_vector);
}

/// A type from which a range of bits `N..=M` can be extracted and into which such a range can be
/// fused back.
///
/// The range is given by the method's const parameters: `N` is the first (least significant) bit
/// and `M` the last bit, inclusively.
pub trait Extract: Bits {
    /// Extract the bits `N..=M` and return them shifted down to start at bit `0`.
    fn extract<const N: usize, const M: usize>(&self) -> (target_output: u16)
        requires
            valid_range(N as nat, M as nat, Self::width()),
        ensures
            target_output == field(self.word(), N as u16, M as u16),
    {
        proof {
            self.lemma_layout();
            lemma_range_bounds(self.word(), N as u16, M as u16, 0, Self::width() as u16);
        }
        let first: u16 = N as u16;
        let target_mask: u16 = mask_of((M - N + 1) as u16);
        let target_word = self.load();
        (target_word >> first) & target_mask
    }

    /// Fuse the low bits of `target_output` into the bits `N..=M`.
    ///
    /// Yields back the previously extracted value.
    fn fuse<const N: usize, const M: usize>(&mut self, target_output: u16) -> (previous_output: u16)
        requires
            valid_range(N as nat, M as nat, Self::width()),
        ensures
            previous_output == field(old(self).word(), N as u16, M as u16),
            final(self).word() == fused(old(self).word(), N as u16, M as u16, target_output),
    {
        proof {
            self.lemma_layout();
            lemma_range_bounds(self.word(), N as u16, M as u16, target_output, Self::width() as u16);
        }
        let existing_output = self.extract::<N, M>();
        let first: u16 = N as u16;
        let target_mask: u16 = mask_of((M - N + 1) as u16);
        let placed_mask: u16 = target_mask << first;
        let target_word = self.load();
        let target_word = (target_word & !placed_mask) | ((target_output << first) & placed_mask);
        *self = Self::store(target_word);
        existing_output
    }
}

impl Extract for u8 {
}

impl Extract for u16 {
}

/// A copy of a value together with its extracted bits `N..=M`.
#[derive(Debug, Clone, Copy)]
pub struct Extracted<const N: usize, const M: usize, T>(T, u16);

impl<const N: usize, const M: usize, T: Extract> Extracted<N, M, T> {
    /// The range `N..=M` fits in `T`, and the output is the range's bits of the value.
    pub closed spec fn wf(&self) -> bool {
        &&& valid_range(N as nat, M as nat, T::width())
        &&& self.1 == field(self.0.word(), N as u16, M as u16)
    }

    /// The wrapped value.
    pub closed spec fn target(&self) -> T {
        self.0
    }

    /// The cached output: the bits `N..=M` of the wrapped value.
    pub closed spec fn output_of(&self) -> u16 {
        self.1
    }

    /// Wrap the target value's extracted bits in an [`Extracted`] struct.
    pub fn wrap(target_value: &T) -> (target_extracted: Self)
        requires
            valid_range(N as nat, M as nat, T::width()),
        ensures
            target_extracted.wf(),
            target_extracted.target() == *target_value,
            target_extracted.output_of() == field(target_value.word(), N as u16, M as u16),
    {
        let target_output = target_value.extract::<N, M>();
        Extracted(*target_value, target_output)
    }

    /// The value the bits were extracted from.
    pub fn value(&self) -> (target_value: T)
        ensures
            target_value == self.target(),
    {
        self.0
    }

    /// The extracted bits `N..=M`, shifted down to start at bit `0`.
    pub fn output(&self) -> (target_output: u16)
        requires
            self.wf(),
        ensures
            target_output == self.output_of(),
            target_output == field(self.target().word(), N as u16, M as u16),
    {
        self.1
    }

    /// A copy of the value with the bits `N..=M` overwritten by the low bits of `target_output`.
    pub fn overwrite(&self, target_output: u16) -> (target_extracted: Self)
        requires
            self.wf(),
        ensures
            target_extracted.wf(),
            target_extracted.output_of() == field(
                target_extracted.target().word(),
                N as u16,
                M as u16,
            ),
            target_extracted.target().word() == fused(
                self.target().word(),
                N as u16,
                M as u16,
                target_output,
            ),
    {
        let mut target_clone = self.0;
        let _ = target_clone.fuse::<N, M>(target_output);
        Self::wrap(&target_clone)
    }

    /// Access the `K`-th bit of the wrapped value through the [`Bit`] handle.
    pub fn bit<'a, const K: usize>(&'a self) -> (target_bit: Bit<'a, T, K>)
        requires
            K < T::width(),
        ensures
            target_bit.target() == self.target(),
    {
        Bit::wrap(&self.0)
    }

    /// Access the `K`-th bit of the wrapped value through the [`BitMut`] handle.
    pub fn bit_mut<'a, const K: usize>(&'a mut self) -> (target_bit: BitMut<'a, T, K>)
        requires
            K < T::width(),
        ensures
            target_bit.current() == old(self).target(),
            has_resolved(target_bit) ==> *final(self) == *old(self),
    {
        BitMut::wrap(&mut self.0)
    }
}

/// A mutable handle over the bits `N..=M` of a value.
pub struct ExtractedMut<'a, const N: usize, const M: usize, T>(&'a mut T);

impl<'a, const N: usize, const M: usize, T: Extract> ExtractedMut<'a, N, M, T> {
    /// The value currently behind the handle.
    pub closed spec fn current(&self) -> T {
        *self.0
    }

    /// Wrap the target value's bits `N..=M` in an [`ExtractedMut`] handle.
    ///
    /// The handle never writes: once it is done with, the value is as it was.
    pub fn wrap(target_value: &'a mut T) -> (target_handle: Self)
        ensures
            target_handle.current() == *old(target_value),
            has_resolved(target_handle) ==> *final(target_value) == target_handle.current(),
    {
        ExtractedMut(target_value)
    }

    /// The bits `N..=M` of the value behind the handle.
    pub fn value(&self) -> (target_output: u16)
        requires
            valid_range(N as nat, M as nat, T::width()),
        ensures
            target_output == field(self.current().word(), N as u16, M as u16),
    {
        self.0.extract::<N, M>()
    }

    /// Access the `K`-th bit of the value behind the handle through the [`Bit`] handle.
    pub fn bit<const K: usize>(&'a self) -> (target_bit: Bit<'a, T, K>)
        requires
            K < T::width(),
        ensures
            target_bit.target() == self.current(),
    {
        Bit::wrap(&*self.0)
    }

    /// Access the `K`-th bit of the value behind the handle through the [`BitMut`] handle.
    pub fn bit_mut<const K: usize>(&'a mut self) -> (target_bit: BitMut<'a, T, K>)
        requires
            K < T::width(),
        ensures
            target_bit.current() == old(self).current(),
            has_resolved(target_bit) ==> final(self).current() == old(self).current(),
    {
        BitMut::wrap(&mut *self.0)
    }
}

/// Reading back a range of bits after fusing a value into it yields the value's low bits.
pub proof fn lemma_extract_after_fuse(target_word: u16, first: u16, last: u16, target_value: u16)
    requires
        first <= last,
        last < 16,
    ensures
        field(fused(target_word, first, last, target_value), first, last) == target_value
            & low_mask(span(first, last)),
{
    assert(field(fused(target_word, first, last, target_value), first, last) == target_value
        & low_mask(span(first, last))) by (bit_vector)
        requires
            first <= last,
            last < 16,
    ;
}

/// Fusing a value into a range of bits leaves every bit outside the range as it was.
pub proof fn lemma_fuse_preserves_outside(
    target_word: u16,
    first: u16,
    last: u16,
    target_value: u16,
    index: u16,
)
    requires
        first <= last,
        last < 16,
        index < 16,
        index < first || last < index,
    ensures
        state_at(fused(target_word, first, last, target_value), index) == state_at(
            target_word,
            index,
        ),
{
    let fused_word = fused(target_word, first, last, target_value);
    assert((fused_word & (1u16 << index) == 0) == (target_word & (1u16 << index) == 0))
        by (bit_vector)
        requires
            first <= last,
            last < 16,
            index < 16,
            index < first || last < index,
            fused_word == fused(target_word, first, last, target_value),
    ;
}

/// Fusing back the bits just extracted changes nothing.
pub proof fn lemma_fuse_extracted(target_word: u16, first: u16, last: u16)
    requires
        first <= last,
        last < 16,
    ensures
        fused(target_word, first, last, field(target_word, first, last)) == target_word,
{
    assert(fused(target_word, first, last, field(target_word, first, last)) == target_word)
        by (bit_vector)
        requires
            first <= last,
            last < 16,
    ;
}

/// A second fuse into the same range replaces the first one completely.
pub proof fn lemma_fuse_twice(
    target_word: u16,
    first: u16,
    last: u16,
    first_value: u16,
    second_value: u16,
)
    requires
        first <= last,
        last < 16,
    ensures
        fused(fused(target_word, first, last, first_value), first, last, second_value) == fused(
            target_word,
            first,
            last,
            second_value,
        ),
{
    assert(fused(fused(target_word, first, last, first_value), first, last, second_value)
        == fused(target_word, first, last, second_value)) by (bit_vector)
        requires
            first <= last,
            last < 16,
    ;
}

/// Fusing a value into a range of bits leaves every disjoint range as it was.
pub proof fn lemma_field_after_disjoint_fuse(
    target_word: u16,
    first: u16,
    last: u16,
    target_value: u16,
    other_first: u16,
    other_last: u16,
)
    requires
        first <= last,
        last < 16,
        other_first <= other_last,
        other_last < 16,
        last < other_first || other_last < first,
    ensures
        field(fused(target_word, first, last, target_value), other_first, other_last) == field(
            target_word,
            other_first,
            other_last,
        ),
{
    assert(field(fused(target_word, first, last, target_value), other_first, other_last) == field(
        target_word,
        other_first,
        other_last,
    )) by (bit_vector)
        requires
            first <= last,
            last < 16,
            other_first <= other_last,
            other_last < 16,
            last < other_first || other_last < first,
    ;
}

/// Reading back a range of bits after fusing a value that fits in it yields the value.
pub proof fn lemma_read_back(target_word: u16, first: u16, last: u16, target_value: u16)
    requires
        first <= last,
        last < 16,
        target_value <= low_mask(span(first, last)),
    ensures
        field(fused(target_word, first, last, target_value), first, last) == target_value,
{
    lemma_extract_after_fuse(target_word, first, last, target_value);
    let mask = low_mask(span(first, last));
    assert(target_value <= mask ==> target_value & mask == target_value) by (bit_vector)
        requires
            mask == low_mask(span(first, last)),
            first <= last,
            last < 16,
    ;
}

} // verus!

//! The ownership bitmap over the IRQ id space.
//!
//! Each guest's Distributor records which physical IRQs that guest owns in a
//! `bitmaps::Bitmap` of one bit per IRQ id.  The bitmap is carried in a
//! struct of its own because Verus cannot see through the `bitmaps` crate's
//! `Bits` trait machinery; the contracts of the three operations the
//! emulation needs speak of the set of indices whose bit is set.

use vstd::prelude::*;

verus! {

/// A bitmap over the 1024 IRQ ids of a GICv3 Distributor, backed by
/// `bitmaps::Bitmap<1024>`.
#[verifier::external_body]
pub struct IrqBitmap {
    inner: bitmaps::Bitmap<1024>,
}

/// The set of indices whose bit is set in `b`.
pub uninterp spec fn bitmap_bits(b: IrqBitmap) -> Set<int>;

impl IrqBitmap {
    /// Relies on bitmaps::Bitmap::new: a fresh bitmap has every bit clear.
    #[verifier::external_body]
    pub fn new() -> (r: IrqBitmap)
        ensures
            bitmap_bits(r) == Set::<int>::empty(),
    {
        IrqBitmap { inner: bitmaps::Bitmap::new() }
    }

    /// Relies on bitmaps::Bitmap::get: whether bit `index` is set.
    #[verifier::external_body]
    pub fn get(&self, index: usize) -> (r: bool)
        requires
            index < 1024,
        ensures
            r == bitmap_bits(*self).contains(index as int),
    {
        self.inner.get(index)
    }

    /// Relies on bitmaps::Bitmap::set: sets or clears bit `index` and returns
    /// the bit's previous value.
    #[verifier::external_body]
    pub fn set(&mut self, index: usize, value: bool) -> (r: bool)
        requires
            index < 1024,
        ensures
            bitmap_bits(*final(self)) == if value {
                bitmap_bits(*old(self)).insert(index as int)
            } else {
                bitmap_bits(*old(self)).remove(index as int)
            },
            r == bitmap_bits(*old(self)).contains(index as int),
    {
        self.inner.set(index, value)
    }
}

} // verus!

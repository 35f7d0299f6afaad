//! Byte-addressed register pages and little-endian multi-byte access.
//!
//! Every trapped guest access and every access the emulation itself makes to
//! host register state is a single load or store of 1, 2, 4 or 8 bytes at a
//! byte offset into a page.  [`MmioPage`] holds such a page as plain memory;
//! the little-endian value read or written is pinned down by the spec
//! functions [`le_read`] and [`le_write`].

use vstd::prelude::*;

use crate::AccessWidth;

verus! {

/// The little-endian value of the `n` bytes of `s` starting at `off`.
pub open spec fn le_read(s: Seq<u8>, off: int, n: nat) -> u64
    decreases n,
{
    if n == 0 {
        0u64
    } else {
        le_read(s, off, (n - 1) as nat) | ((s[off + n - 1] as u64) << ((8 * (n - 1)) as u64))
    }
}

/// `s` with the `n` bytes starting at `off` replaced by the little-endian
/// encoding of the low `n` bytes of `v`; all other bytes unchanged.
pub open spec fn le_write(s: Seq<u8>, off: int, n: nat, v: u64) -> Seq<u8> {
    Seq::new(
        s.len(),
        |i: int|
            if off <= i < off + n {
                (v >> ((8 * (i - off)) as u64)) as u8
            } else {
                s[i]
            },
    )
}

/// `v` truncated to its low `n` bytes.
pub open spec fn trunc(v: u64, n: nat) -> u64 {
    if n >= 8 {
        v
    } else {
        v & (((1u64 << ((8 * n) as u64)) - 1) as u64)
    }
}

proof fn lemma_trunc_step(v: u64, k: u64)
    by (bit_vector)
    requires
        k <= 56,
    ensures
        (if k < 64 {
            v & (((1u64 << k) - 1) as u64)
        } else {
            v
        }) | ((((v >> k) as u8) as u64) << k) == (if k + 8 < 64 {
            v & (((1u64 << ((k + 8) as u64)) - 1) as u64)
        } else {
            v
        }),
{
}

/// `le_read` looks only at the bytes in `[off, off + n)`.
pub proof fn lemma_le_read_frame(s1: Seq<u8>, s2: Seq<u8>, off: int, n: nat)
    requires
        0 <= off,
        off + n <= s1.len(),
        off + n <= s2.len(),
        forall|i: int| off <= i < off + n ==> s1[i] == s2[i],
    ensures
        le_read(s1, off, n) == le_read(s2, off, n),
    decreases n,
{
    if n > 0 {
        assert(s1[off + n - 1] == s2[off + n - 1]);
        lemma_le_read_frame(s1, s2, off, (n - 1) as nat);
    }
}

/// Reading back the bytes just written yields the written value, truncated to
/// the width of the access.
pub proof fn lemma_le_read_of_le_write(s: Seq<u8>, off: int, n: nat, v: u64)
    requires
        0 <= off,
        off + n <= s.len(),
        n <= 8,
    ensures
        le_read(le_write(s, off, n, v), off, n) == trunc(v, n),
    decreases n,
{
    let w = le_write(s, off, n, v);
    if n > 0 {
        let m = (n - 1) as nat;
        let k = (8 * m) as u64;
        lemma_le_read_of_le_write(s, off, m, v);
        lemma_le_read_frame(le_write(s, off, m, v), w, off, m);
        assert(le_read(w, off, m) == trunc(v, m));
        assert(w[off + n - 1] == #[verifier::truncate] ((v >> k) as u8));
        assert(le_read(w, off, n) == le_read(w, off, m) | ((w[off + n - 1] as u64) << k));
        lemma_trunc_step(v, k);
        assert(trunc(v, m) == v & (((1u64 << k) - 1) as u64));
        assert(trunc(v, m) | ((#[verifier::truncate] ((v >> k) as u8) as u64) << k) == trunc(
            v,
            n,
        ));
    } else {
        assert(v & (((1u64 << 0) - 1) as u64) == 0) by (bit_vector);
    }
}

proof fn bv_le_read_bound_step(a: u64, b: u64, k: u64)
    by (bit_vector)
    requires
        k <= 48,
        a < (1u64 << k),
        b <= 0xff,
    ensures
        (a | (b << k)) < (1u64 << ((k + 8) as u64)),
{
}

/// An `n`-byte value fits in `n` bytes.
pub proof fn lemma_le_read_bound(s: Seq<u8>, off: int, n: nat)
    requires
        n < 8,
    ensures
        le_read(s, off, n) < (1u64 << ((8 * n) as u64)),
    decreases n,
{
    if n == 0 {
        assert(0u64 < (1u64 << 0)) by (bit_vector);
    } else {
        lemma_le_read_bound(s, off, (n - 1) as nat);
        bv_le_read_bound_step(
            le_read(s, off, (n - 1) as nat),
            s[off + n - 1] as u64,
            ((8 * (n - 1)) as u64),
        );
    }
}

/// The second of two stores to the same bytes wins.
pub proof fn lemma_le_write_overwrite(s: Seq<u8>, off: int, n: nat, v1: u64, v2: u64)
    ensures
        le_write(le_write(s, off, n, v1), off, n, v2) == le_write(s, off, n, v2),
{
    assert(le_write(le_write(s, off, n, v1), off, n, v2) =~= le_write(s, off, n, v2));
}

/// Two values whose low `n` bytes agree make the same store.
pub proof fn lemma_le_write_bytes_eq(s: Seq<u8>, off: int, n: nat, v1: u64, v2: u64)
    requires
        forall|j: int|
            0 <= j < n ==> #[verifier::truncate] ((v1 >> (#[trigger] ((8 * j) as u64))) as u8)
                == #[verifier::truncate] ((v2 >> ((8 * j) as u64)) as u8),
    ensures
        le_write(s, off, n, v1) == le_write(s, off, n, v2),
{
    assert forall|i: int| 0 <= i < s.len() implies le_write(s, off, n, v1)[i] == le_write(
        s,
        off,
        n,
        v2,
    )[i] by {
        if off <= i < off + n {
            assert((v1 >> ((8 * (i - off)) as u64)) as u8 == (v2 >> ((8 * (i - off)) as u64)) as u8);
        }
    }
    assert(le_write(s, off, n, v1) =~= le_write(s, off, n, v2));
}

/// A register page: a fixed-size block of byte-addressable memory.
pub struct MmioPage {
    bytes: Vec<u8>,
}

impl View for MmioPage {
    type V = Seq<u8>;

    closed spec fn view(&self) -> Seq<u8> {
        self.bytes@
    }
}

impl MmioPage {
    /// A zero-filled page of `len` bytes.
    pub fn new(len: usize) -> (r: Self)
        ensures
            r@ == Seq::new(len as nat, |i: int| 0u8),
    {
        let mut bytes: Vec<u8> = Vec::new();
        let mut i: usize = 0;
        while i < len
            invariant
                i <= len,
                bytes@ == Seq::new(i as nat, |j: int| 0u8),
            decreases len - i,
        {
            bytes.push(0u8);
            i = i + 1;
            assert(bytes@ =~= Seq::new(i as nat, |j: int| 0u8));
        }
        MmioPage { bytes }
    }

    /// The size of the page in bytes.
    pub fn len(&self) -> (r: usize)
        ensures
            r == self@.len(),
    {
        self.bytes.len()
    }
}

/// Reads the little-endian value of `width` bytes of `page` at `off`.
pub fn perform_mmio_read(page: &MmioPage, off: usize, width: AccessWidth) -> (r: u64)
    requires
        off + width.size() <= page@.len(),
    ensures
        r == le_read(page@, off as int, width.size() as nat),
{
    let n = width.size();
    let plen = page.len();
    let mut r: u64 = 0;
    let mut i: usize = 0;
    while i < n
        invariant
            i <= n,
            n <= 8,
            off + n <= plen,
            plen == page@.len(),
            r == le_read(page@, off as int, i as nat),
        decreases n - i,
    {
        r = r | ((page.bytes[off + i] as u64) << ((8 * i) as u64));
        i = i + 1;
    }
    r
}

/// Stores the low `width` bytes of `val` into `page` at `off`, little-endian;
/// no other byte of the page changes.
pub fn perform_mmio_write(page: &mut MmioPage, off: usize, width: AccessWidth, val: u64)
    requires
        off + width.size() <= old(page)@.len(),
    ensures
        final(page)@ == le_write(old(page)@, off as int, width.size() as nat, val),
{
    let n = width.size();
    let plen = page.len();
    let mut i: usize = 0;
    while i < n
        invariant
            i <= n,
            n <= 8,
            off + n <= plen,
            plen == page@.len(),
            page@.len() == old(page)@.len(),
            forall|j: int|
                off <= j < off + i ==> page@[j] == (val >> ((8 * (j - off)) as u64)) as u8,
            forall|j: int| 0 <= j < page@.len() && !(off <= j < off + i) ==> page@[j] == old(page)@[j],
        decreases n - i,
    {
        page.bytes[off + i] = #[verifier::truncate] ((val >> ((8 * i) as u64)) as u8);
        i = i + 1;
    }
    assert(page@ =~= le_write(old(page)@, off as int, n as nat, val));
}

/// Stores the 32-bit word `val` at `off`.
pub fn write_word(page: &mut MmioPage, off: usize, val: u32)
    requires
        off + 4 <= old(page)@.len(),
    ensures
        final(page)@.len() == old(page)@.len(),
        forall|k: int|
            0 <= k < old(page)@.len() ==> final(page)@[k] == (if off <= k < off + 4 {
                #[verifier::truncate] (((val as u64) >> ((8 * (k - off)) as u64)) as u8)
            } else {
                old(page)@[k]
            }),
{
    perform_mmio_write(page, off, AccessWidth::Dword, val as u64);
}

/// Stores `count` copies of the 32-bit word `val` at `base` onward.
pub fn fill_words(page: &mut MmioPage, base: usize, count: usize, val: u32)
    requires
        base + 4 * count <= old(page)@.len(),
    ensures
        final(page)@.len() == old(page)@.len(),
        forall|k: int|
            0 <= k < old(page)@.len() ==> final(page)@[k] == (if base <= k < base + 4 * count {
                #[verifier::truncate] (((val as u64) >> ((8 * ((k - base) % 4)) as u64)) as u8)
            } else {
                old(page)@[k]
            }),
{
    let plen = page.len();
    let mut i: usize = 0;
    while i < count
        invariant
            i <= count,
            base + 4 * count <= plen,
            plen == page@.len(),
            page@.len() == old(page)@.len(),
            forall|k: int|
                0 <= k < page@.len() ==> page@[k] == (if base <= k < base + 4 * i {
                    #[verifier::truncate] (((val as u64) >> ((8 * ((k - base) % 4)) as u64)) as u8)
                } else {
                    old(page)@[k]
                }),
        decreases count - i,
    {
        write_word(page, base + 4 * i, val);
        proof {
            assert forall|k: int| 0 <= k < page@.len() implies page@[k] == (if base <= k < base + 4
                * (i + 1) {
                #[verifier::truncate] (((val as u64) >> ((8 * ((k - base) % 4)) as u64)) as u8)
            } else {
                old(page)@[k]
            }) by {
                if base + 4 * i <= k < base + 4 * i + 4 {
                    assert((k - base) % 4 == k - base - 4 * i) by (nonlinear_arith)
                        requires
                            4 * i <= k - base < 4 * i + 4,
                    ;
                }
            }
        }
        i = i + 1;
    }
}

} // verus!

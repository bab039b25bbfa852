//! Byte-addressed memory. A `Memory` stands for one contiguous range of the
//! machine's address space: a process's RAM, or its image in flash. Machine
//! words are stored little-endian, lowest address first.

use vstd::prelude::*;
use vstd::bytes::spec_u32_from_le_bytes;
use vstd::bytes::spec_u32_to_le_bytes;
use vstd::bytes::spec_u64_from_le_bytes;
use vstd::bytes::spec_u64_to_le_bytes;
use vstd::bytes::lemma_auto_spec_u32_to_from_le_bytes;
use vstd::bytes::lemma_auto_spec_u64_to_from_le_bytes;
use vstd::bytes::u32_from_le_bytes;
use vstd::bytes::u32_to_le_bytes;
use vstd::bytes::u64_from_le_bytes;
use vstd::bytes::u64_to_le_bytes;
use vstd::slice::slice_subrange;

verus! {

/// The number of bytes in a machine word.
pub const WORD_SIZE: usize = (usize::BITS / 8) as usize;

/// The bytes of the word `v`, lowest byte first.
pub open spec fn word_bytes(v: usize) -> Seq<u8> {
    if usize::BITS == 64 {
        spec_u64_to_le_bytes(v as u64)
    } else {
        spec_u32_to_le_bytes(v as u32)
    }
}

/// The word whose bytes, lowest first, are `s`.
pub open spec fn word_from_bytes(s: Seq<u8>) -> usize {
    if usize::BITS == 64 {
        spec_u64_from_le_bytes(s) as usize
    } else {
        spec_u32_from_le_bytes(s) as usize
    }
}

/// A word's bytes are `WORD_SIZE` many, and give the word back.
pub proof fn lemma_word_bytes_round_trip(v: usize)
    ensures
        word_bytes(v).len() == WORD_SIZE,
        word_from_bytes(word_bytes(v)) == v,
{
    lemma_auto_spec_u64_to_from_le_bytes();
    lemma_auto_spec_u32_to_from_le_bytes();
    lemma_word_width();
    if usize::BITS == 64 {
        let x = v as u64;
        assert(spec_u64_to_le_bytes(x).len() == 8);
        assert(spec_u64_from_le_bytes(spec_u64_to_le_bytes(x)) == x);
        assert(x as usize == v);
    } else {
        let x = v as u32;
        assert(spec_u32_to_le_bytes(x).len() == 4);
        assert(spec_u32_from_le_bytes(spec_u32_to_le_bytes(x)) == x);
        assert(x as usize == v);
    }
}

/// A machine word has 32 or 64 bits, and `usize` holds exactly the numbers
/// that fit in them.
pub proof fn lemma_word_width()
    ensures
        usize::BITS == 32 || usize::BITS == 64,
        usize::BITS == 32 ==> usize::MAX == u32::MAX && WORD_SIZE == 4,
        usize::BITS == 64 ==> usize::MAX == u64::MAX && WORD_SIZE == 8,
{
    vstd::layout::unsigned_int_max_values();
    vstd::arithmetic::power2::lemma2_to64();
    vstd::arithmetic::power2::lemma2_to64_rest();
}

/// The `len` bytes from `addr` on all lie in the range that starts at `base`
/// and holds `bytes`.
pub open spec fn in_bounds(base: int, bytes: Seq<u8>, addr: int, len: int) -> bool {
    &&& 0 <= len
    &&& base <= addr
    &&& addr + len <= base + bytes.len()
}

/// The word whose lowest byte is at `addr`, in the range that starts at
/// `base` and holds `bytes`.
pub open spec fn word_in(base: int, bytes: Seq<u8>, addr: int) -> usize {
    word_from_bytes(bytes.subrange(addr - base, addr - base + WORD_SIZE))
}

/// `bytes` with the word at `addr` replaced by `value`.
pub open spec fn with_word_in(base: int, bytes: Seq<u8>, addr: int, value: usize) -> Seq<u8> {
    bytes.subrange(0, addr - base) + word_bytes(value) + bytes.subrange(
        addr - base + WORD_SIZE,
        bytes.len() as int,
    )
}

/// `bytes` with the bytes from `addr` on replaced by `new`.
pub open spec fn with_bytes_in(base: int, bytes: Seq<u8>, addr: int, new: Seq<u8>) -> Seq<u8> {
    bytes.subrange(0, addr - base) + new + bytes.subrange(
        addr - base + new.len(),
        bytes.len() as int,
    )
}

/// Storing a word keeps the length, puts the word where it was stored, and
/// leaves every byte outside it, and so every word that does not overlap it,
/// as it was.
pub proof fn lemma_with_word_in(base: int, bytes: Seq<u8>, addr: int, value: usize)
    requires
        in_bounds(base, bytes, addr, WORD_SIZE as int),
    ensures
        with_word_in(base, bytes, addr, value).len() == bytes.len(),
        word_in(base, with_word_in(base, bytes, addr, value), addr) == value,
        forall|i: int|
            0 <= i < bytes.len() && !(addr - base <= i < addr - base + WORD_SIZE)
                ==> #[trigger] with_word_in(base, bytes, addr, value)[i] == bytes[i],
        forall|a: int|
            in_bounds(base, bytes, a, WORD_SIZE as int) && (a + WORD_SIZE <= addr || addr
                + WORD_SIZE <= a) ==> #[trigger] word_in(
                base,
                with_word_in(base, bytes, addr, value),
                a,
            ) == word_in(base, bytes, a),
{
    lemma_word_bytes_round_trip(value);
    let post = with_word_in(base, bytes, addr, value);
    assert(post.subrange(addr - base, addr - base + WORD_SIZE) == word_bytes(value));
    assert forall|a: int|
        in_bounds(base, bytes, a, WORD_SIZE as int) && (a + WORD_SIZE <= addr || addr + WORD_SIZE
            <= a) implies #[trigger] word_in(base, post, a) == word_in(base, bytes, a) by {
        assert(post.subrange(a - base, a - base + WORD_SIZE) == bytes.subrange(
            a - base,
            a - base + WORD_SIZE,
        ));
    }
}

/// One contiguous range of memory: `self@[i]` is the byte at address
/// `self.base() + i`.
pub struct Memory {
    base: usize,
    bytes: Vec<u8>,
}

impl View for Memory {
    type V = Seq<u8>;

    closed spec fn view(&self) -> Seq<u8> {
        self.bytes@
    }
}

impl Memory {
    /// The address of the first byte.
    pub closed spec fn base(&self) -> usize {
        self.base
    }

    /// The address just past the last byte.
    pub open spec fn limit(&self) -> int {
        self.base() + self@.len()
    }

    /// Every byte has an address.
    pub open spec fn wf(&self) -> bool {
        self.limit() <= usize::MAX
    }

    /// The `len` bytes from `addr` on all lie in this range.
    pub open spec fn contains_range(&self, addr: int, len: int) -> bool {
        in_bounds(self.base() as int, self@, addr, len)
    }

    /// The byte at `addr`.
    pub open spec fn byte_at(&self, addr: int) -> u8 {
        self@[addr - self.base()]
    }

    /// The word whose lowest byte is at `addr`.
    pub open spec fn word_at(&self, addr: int) -> usize {
        word_in(self.base() as int, self@, addr)
    }

    /// `self` with the bytes from `addr` on replaced by `bytes`.
    pub open spec fn with_bytes(&self, addr: int, bytes: Seq<u8>) -> Seq<u8> {
        with_bytes_in(self.base() as int, self@, addr, bytes)
    }

    /// `self` with the word at `addr` replaced by `value`.
    pub open spec fn with_word(&self, addr: int, value: usize) -> Seq<u8> {
        with_word_in(self.base() as int, self@, addr, value)
    }

    /// `len` zero bytes from `base` on.
    pub fn new(base: usize, len: usize) -> (m: Memory)
        requires
            base + len <= usize::MAX,
        ensures
            m.wf(),
            m.base() == base,
            m@.len() == len,
            forall|i: int| 0 <= i < len ==> m@[i] == 0,
    {
        let mut bytes: Vec<u8> = Vec::new();
        let mut i: usize = 0;
        while i < len
            invariant
                i <= len,
                bytes@.len() == i,
                forall|j: int| 0 <= j < i ==> bytes@[j] == 0,
            decreases len - i,
        {
            bytes.push(0);
            i = i + 1;
        }
        Memory { base, bytes }
    }

    /// The given bytes, the first of them at `base`.
    pub fn from_bytes(base: usize, bytes: Vec<u8>) -> (m: Memory)
        requires
            base + bytes@.len() <= usize::MAX,
        ensures
            m.wf(),
            m.base() == base,
            m@ == bytes@,
    {
        Memory { base, bytes }
    }

    /// The address of the first byte.
    pub fn start(&self) -> (a: usize)
        ensures
            a == self.base(),
    {
        self.base
    }

    /// The address just past the last byte.
    pub fn end(&self) -> (a: usize)
        requires
            self.wf(),
        ensures
            a == self.limit(),
    {
        self.base + self.bytes.len()
    }

    /// The number of bytes.
    pub fn len(&self) -> (n: usize)
        ensures
            n == self@.len(),
    {
        self.bytes.len()
    }

    /// Whether the `len` bytes from `addr` on all lie in this range.
    pub fn in_range(&self, addr: usize, len: usize) -> (r: bool)
        requires
            self.wf(),
        ensures
            r == self.contains_range(addr as int, len as int),
    {
        addr >= self.base && addr - self.base <= self.bytes.len() && len <= self.bytes.len() - (
        addr - self.base)
    }

    /// The byte at `addr`.
    pub fn read_byte(&self, addr: usize) -> (b: u8)
        requires
            self.contains_range(addr as int, 1),
        ensures
            b == self.byte_at(addr as int),
    {
        self.bytes[addr - self.base]
    }

    /// Stores `value` at `addr`.
    pub fn write_byte(&mut self, addr: usize, value: u8)
        requires
            old(self).contains_range(addr as int, 1),
        ensures
            final(self).base() == old(self).base(),
            final(self)@ == old(self)@.update(addr - old(self).base(), value),
    {
        let off = addr - self.base;
        self.bytes[off] = value;
    }

    /// The word whose lowest byte is at `addr`.
    pub fn read_word(&self, addr: usize) -> (w: usize)
        requires
            self.contains_range(addr as int, WORD_SIZE as int),
        ensures
            w == self.word_at(addr as int),
    {
        let off = addr - self.base;
        let n = self.bytes.len();
        proof {
            lemma_word_width();
            assert(off + WORD_SIZE <= n);
        }
        let s = slice_subrange(self.bytes.as_slice(), off, off + WORD_SIZE);
        if WORD_SIZE == 8 {
            u64_from_le_bytes(s) as usize
        } else {
            u32_from_le_bytes(s) as usize
        }
    }

    /// Stores the word `value` with its lowest byte at `addr`.
    pub fn write_word(&mut self, addr: usize, value: usize)
        requires
            old(self).contains_range(addr as int, WORD_SIZE as int),
        ensures
            final(self).base() == old(self).base(),
            final(self)@ == old(self).with_word(addr as int, value),
            final(self)@.len() == old(self)@.len(),
    {
        let off = addr - self.base;
        let n = self.bytes.len();
        let b = if WORD_SIZE == 8 {
            u64_to_le_bytes(value as u64)
        } else {
            u32_to_le_bytes(value as u32)
        };
        proof {
            lemma_word_bytes_round_trip(value);
            lemma_word_width();
        }
        let mut k: usize = 0;
        while k < WORD_SIZE
            invariant
                k <= WORD_SIZE,
                off + WORD_SIZE <= self.bytes@.len() == n,
                b@ == word_bytes(value),
                b@.len() == WORD_SIZE,
                self.base == old(self).base,
                self.bytes@.len() == old(self).bytes@.len(),
                self.bytes@ == old(self).bytes@.subrange(0, off as int) + b@.subrange(0, k as int)
                    + old(self).bytes@.subrange(off + k, old(self).bytes@.len() as int),
            decreases WORD_SIZE - k,
        {
            let byte = b[k];
            self.bytes[off + k] = byte;
            k = k + 1;
        }
        proof {
            assert(b@.subrange(0, WORD_SIZE as int) == b@);
        }
    }

    /// Stores `data` from `addr` on.
    pub fn write_bytes(&mut self, addr: usize, data: &[u8])
        requires
            old(self).contains_range(addr as int, data@.len() as int),
        ensures
            final(self).base() == old(self).base(),
            final(self)@ == old(self).with_bytes(addr as int, data@),
            final(self)@.len() == old(self)@.len(),
    {
        let off = addr - self.base;
        let n = self.bytes.len();
        let len = data.len();
        let mut k: usize = 0;
        while k < len
            invariant
                k <= len,
                len == data@.len(),
                off + len <= self.bytes@.len() == n,
                self.base == old(self).base,
                self.bytes@.len() == old(self).bytes@.len(),
                self.bytes@ == old(self).bytes@.subrange(0, off as int) + data@.subrange(
                    0,
                    k as int,
                ) + old(self).bytes@.subrange(off + k, old(self).bytes@.len() as int),
            decreases len - k,
        {
            let byte = data[k];
            self.bytes[off + k] = byte;
            k = k + 1;
        }
        proof {
            assert(data@.subrange(0, len as int) == data@);
        }
    }

    /// The `len` bytes from `addr` on, to be written. What is written
    /// through the slice is what the memory then holds there.
    pub fn slice_mut(&mut self, addr: usize, len: usize) -> (s: &mut [u8])
        requires
            old(self).contains_range(addr as int, len as int),
        ensures
            s@ == old(self)@.subrange(addr - old(self).base(), addr - old(self).base() + len),
            final(self).base() == old(self).base(),
            final(s)@.len() == len ==> final(self)@ == old(self).with_bytes(addr as int, final(s)@),
    {
        let off = addr - self.base;
        let n = self.bytes.len();
        assert(off + len <= n);
        let whole = self.bytes.as_mut_slice();
        let (_, rest) = whole.split_at_mut(off);
        let (mid, _) = rest.split_at_mut(len);
        mid
    }

    /// The `len` bytes from `addr` on.
    pub fn slice(&self, addr: usize, len: usize) -> (s: &[u8])
        requires
            self.contains_range(addr as int, len as int),
        ensures
            s@ == self@.subrange(addr - self.base(), addr - self.base() + len),
    {
        let off = addr - self.base;
        let n = self.bytes.len();
        assert(off + len <= n);
        slice_subrange(self.bytes.as_slice(), off, off + len)
    }
}

} // verus!

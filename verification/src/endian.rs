//! Byte-order correction: the console is big-endian, the host little-endian.

use vstd::prelude::*;

verus! {

/// Transfer size of one typed read.
#[derive(Clone, Copy, Debug, PartialEq, Eq, Structural)]
pub enum ByteSize {
    U8,
    U16,
    U32,
}

impl ByteSize {
    /// Width in bits: 8, 16 or 32.
    pub open spec fn bit_width(self) -> nat {
        match self {
            ByteSize::U8 => 8,
            ByteSize::U16 => 16,
            ByteSize::U32 => 32,
        }
    }

    /// Width in bytes: 1, 2 or 4.
    pub open spec fn width(self) -> nat {
        match self {
            ByteSize::U8 => 1,
            ByteSize::U16 => 2,
            ByteSize::U32 => 4,
        }
    }

    /// The size whose width is `bits` bits, if there is one.
    pub open spec fn of_bits(bits: int) -> Option<ByteSize> {
        if bits == 8 {
            Some(ByteSize::U8)
        } else if bits == 16 {
            Some(ByteSize::U16)
        } else if bits == 32 {
            Some(ByteSize::U32)
        } else {
            None
        }
    }

    /// Selects the transfer size for a width given in bits.
    pub fn from_bits(bits: u32) -> (size: Option<ByteSize>)
        ensures
            size == ByteSize::of_bits(bits as int),
    {
        if bits == 8 {
            Some(ByteSize::U8)
        } else if bits == 16 {
            Some(ByteSize::U16)
        } else if bits == 32 {
            Some(ByteSize::U32)
        } else {
            None
        }
    }

    /// Width in bits.
    pub fn bits(self) -> (n: u32)
        ensures
            n == self.bit_width(),
    {
        match self {
            ByteSize::U8 => 8,
            ByteSize::U16 => 16,
            ByteSize::U32 => 32,
        }
    }

    /// Number of bytes that one read of this size transfers.
    pub fn byte_count(self) -> (n: usize)
        ensures
            n == self.width(),
            8 * n == self.bit_width(),
    {
        match self {
            ByteSize::U8 => 1,
            ByteSize::U16 => 2,
            ByteSize::U32 => 4,
        }
    }
}

/// 256 to the power `n`: the number of values that `n` bytes can hold.
pub open spec fn radix_pow(n: nat) -> nat
    decreases n,
{
    if n == 0 {
        1
    } else {
        256 * radix_pow((n - 1) as nat)
    }
}

/// The number that `bytes` spell with the most significant byte first.
pub open spec fn be_value(bytes: Seq<u8>) -> nat
    decreases bytes.len(),
{
    if bytes.len() == 0 {
        0
    } else {
        256 * be_value(bytes.drop_last()) + bytes.last() as nat
    }
}

/// The number that `bytes` spell with the least significant byte first.
pub open spec fn le_value(bytes: Seq<u8>) -> nat
    decreases bytes.len(),
{
    if bytes.len() == 0 {
        0
    } else {
        bytes[0] as nat + 256 * le_value(bytes.skip(1))
    }
}

/// The `count` bytes that spell `value` with the most significant byte first.
pub open spec fn be_bytes(value: nat, count: nat) -> Seq<u8>
    decreases count,
{
    if count == 0 {
        Seq::empty()
    } else {
        be_bytes(value / 256, (count - 1) as nat).push((value % 256) as u8)
    }
}

/// Reversing a buffer turns its big-endian reading into the little-endian one.
pub proof fn lemma_le_of_reverse(bytes: Seq<u8>)
    ensures
        le_value(bytes.reverse()) == be_value(bytes),
    decreases bytes.len(),
{
    if bytes.len() > 0 {
        let rev = bytes.reverse();
        assert(rev[0] == bytes.last());
        assert(rev.skip(1) =~= bytes.drop_last().reverse());
        lemma_le_of_reverse(bytes.drop_last());
    }
}

/// Reversing a buffer twice gives the buffer back.
pub proof fn lemma_reverse_twice(bytes: Seq<u8>)
    ensures
        bytes.reverse().reverse() == bytes,
{
    assert(bytes.reverse().reverse() =~= bytes);
}

/// A value spelled over `n` bytes is below 256 to the power `n`.
pub proof fn lemma_be_value_bound(bytes: Seq<u8>)
    ensures
        be_value(bytes) < radix_pow(bytes.len()),
    decreases bytes.len(),
{
    if bytes.len() > 0 {
        lemma_be_value_bound(bytes.drop_last());
    }
}

/// Writing a value big-endian and reading the bytes back gives the value:
/// for every `value` that fits in `count` bytes.
pub proof fn lemma_be_round_trip(value: nat, count: nat)
    requires
        value < radix_pow(count),
    ensures
        be_bytes(value, count).len() == count,
        be_value(be_bytes(value, count)) == value,
    decreases count,
{
    if count > 0 {
        let rest = be_bytes(value / 256, (count - 1) as nat);
        lemma_be_round_trip(value / 256, (count - 1) as nat);
        assert(be_bytes(value, count).drop_last() =~= rest);
    }
}

/// Reading bytes big-endian and writing the value back gives the bytes.
pub proof fn lemma_be_bytes_of_value(bytes: Seq<u8>)
    ensures
        be_bytes(be_value(bytes), bytes.len()) == bytes,
    decreases bytes.len(),
{
    if bytes.len() > 0 {
        lemma_be_bytes_of_value(bytes.drop_last());
        let v = be_value(bytes);
        assert(v / 256 == be_value(bytes.drop_last()));
        assert(v % 256 == bytes.last() as nat);
        assert(be_bytes(v, bytes.len()) =~= bytes);
    } else {
        assert(be_bytes(0, 0) =~= bytes);
    }
}

/// Reverses the order of the bytes of `buffer`.
pub fn reverse_bytes(buffer: Vec<u8>) -> (reversed: Vec<u8>)
    ensures
        reversed@ == buffer@.reverse(),
{
    let n = buffer.len();
    let mut reversed: Vec<u8> = Vec::new();
    let mut i: usize = 0;
    while i < n
        invariant
            n == buffer@.len(),
            i <= n,
            reversed@.len() == i,
            forall|k: int| 0 <= k < i ==> reversed@[k] == buffer@[n - 1 - k],
        decreases n - i,
    {
        reversed.push(buffer[n - 1 - i]);
        i = i + 1;
    }
    assert(reversed@ =~= buffer@.reverse());
    reversed
}

/// Reads a host-order (little-endian) buffer of at most four bytes as a number.
pub fn le_decode(bytes: &Vec<u8>) -> (value: u32)
    requires
        bytes@.len() <= 4,
    ensures
        value == le_value(bytes@),
{
    let n = bytes.len();
    let mut value: u32 = 0;
    let mut i: usize = n;
    while i > 0
        invariant
            n == bytes@.len(),
            n <= 4,
            i <= n,
            value == le_value(bytes@.skip(i as int)),
            value < radix_pow((n - i) as nat),
        decreases i,
    {
        i = i - 1;
        proof {
            reveal_with_fuel(radix_pow, 5);
            assert(bytes@.skip(i as int).skip(1) =~= bytes@.skip(i + 1));
            assert(bytes@.skip(i as int)[0] == bytes@[i as int]);
        }
        value = value * 256 + bytes[i] as u32;
    }
    assert(bytes@.skip(0) =~= bytes@);
    value
}

/// Decodes a buffer of at most four bytes in console order (big-endian):
/// the buffer is reversed into host order and read as a number.
pub fn decode(buffer: Vec<u8>) -> (value: u32)
    requires
        buffer@.len() <= 4,
    ensures
        value == be_value(buffer@),
{
    proof {
        lemma_le_of_reverse(buffer@);
    }
    let host_order = reverse_bytes(buffer);
    le_decode(&host_order)
}

} // verus!

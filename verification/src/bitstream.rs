//! Sequential, most-significant-bit-first reader over a byte buffer.
//!
//! Bit `0` of the stream is the top bit of the first byte. The reader knows
//! nothing about the format that is layered on top of it.
use crate::error::{WvgError, WvgResult};
use vstd::arithmetic::power2::{lemma2_to64, lemma_pow2_strictly_increases, lemma_pow2_unfold, pow2};
use vstd::bits::lemma_u64_shl_is_mul;
use vstd::prelude::*;

verus! {

/// Outcome of reading at a position: the value and the position after it,
/// or the failure.
pub type Parsed<T> = Result<(T, nat), WvgError>;

/// The bit at position `pos` of `data`, counted from the top bit of byte 0.
pub open spec fn bit_at(data: Seq<u8>, pos: nat) -> u8 {
    (data[(pos / 8) as int] >> ((7 - pos % 8) as u8)) & 1u8
}

/// The `n` bits starting at `pos`, read as an unsigned number whose first
/// bit is the most significant.
pub open spec fn bits_value(data: Seq<u8>, pos: nat, n: nat) -> nat
    decreases n,
{
    if n == 0 {
        0
    } else {
        2 * bits_value(data, pos, (n - 1) as nat) + bit_at(data, (pos + n - 1) as nat) as nat
    }
}

/// The two's-complement reading of an `n`-bit unsigned value `u`: values
/// with the top bit set stand for `u - 2^n`.
pub open spec fn signed_value(u: nat, n: nat) -> int {
    if n > 0 && u >= pow2((n - 1) as nat) {
        u - pow2(n)
    } else {
        u as int
    }
}

/// The `n` bits starting at `pos`, read as a two's-complement number.
pub open spec fn signed_bits_value(data: Seq<u8>, pos: nat, n: nat) -> int {
    signed_value(bits_value(data, pos, n), n)
}

/// What reading one bit at `pos` gives.
pub open spec fn spec_read_bit(data: Seq<u8>, pos: nat) -> Parsed<u8> {
    if pos < 8 * data.len() {
        Ok((bit_at(data, pos), pos + 1))
    } else {
        Err(WvgError::EndOfStream)
    }
}

/// What reading one bit at `pos` as a flag gives.
pub open spec fn spec_read_flag(data: Seq<u8>, pos: nat) -> Parsed<bool> {
    if pos < 8 * data.len() {
        Ok((bit_at(data, pos) == 1, pos + 1))
    } else {
        Err(WvgError::EndOfStream)
    }
}

/// What reading `n` bits at `pos` as an unsigned number gives.
pub open spec fn spec_read_bits(data: Seq<u8>, pos: nat, n: nat) -> Parsed<u32> {
    if pos + n <= 8 * data.len() {
        Ok((bits_value(data, pos, n) as u32, pos + n))
    } else {
        Err(WvgError::EndOfStream)
    }
}

/// What reading `n` bits at `pos` as a signed number gives.
pub open spec fn spec_read_signed_bits(data: Seq<u8>, pos: nat, n: nat) -> Parsed<i32> {
    if pos + n <= 8 * data.len() {
        Ok((signed_bits_value(data, pos, n) as i32, pos + n))
    } else {
        Err(WvgError::EndOfStream)
    }
}

/// A single bit is zero or one.
pub proof fn lemma_bit_at_range(data: Seq<u8>, pos: nat)
    ensures
        bit_at(data, pos) <= 1,
{
    let b = data[(pos / 8) as int];
    let s = (7 - pos % 8) as u8;
    assert((b >> s) & 1u8 <= 1) by (bit_vector);
}

/// An `n`-bit field holds a value below `2^n`.
pub proof fn lemma_bits_value_bound(data: Seq<u8>, pos: nat, n: nat)
    ensures
        bits_value(data, pos, n) < pow2(n),
    decreases n,
{
    if n == 0 {
        lemma2_to64();
    } else {
        lemma_bits_value_bound(data, pos, (n - 1) as nat);
        lemma_bit_at_range(data, (pos + n - 1) as nat);
        lemma_pow2_unfold(n);
    }
}

/// A signed `n`-bit field holds a value in `-2^(n-1) .. 2^(n-1)`; a field
/// of no bits holds zero.
pub proof fn lemma_signed_bits_value_bound(data: Seq<u8>, pos: nat, n: nat)
    ensures
        n == 0 ==> signed_bits_value(data, pos, n) == 0,
        n > 0 ==> -pow2((n - 1) as nat) <= signed_bits_value(data, pos, n) < pow2((n - 1) as nat),
{
    lemma_bits_value_bound(data, pos, n);
    if n > 0 {
        lemma_pow2_unfold(n);
    }
}

/// The signed and the unsigned reading of the same `n` bits, for `n` from
/// 1 to 32: below `2^(n-1)` they are the same number, and from there on
/// the signed reading is lower by `2^n`. Either both readings succeed or
/// both fail.
pub proof fn lemma_signed_reading(data: Seq<u8>, pos: nat, n: nat)
    requires
        1 <= n <= 32,
    ensures
        bits_value(data, pos, n) < pow2((n - 1) as nat) ==> signed_bits_value(data, pos, n)
            == bits_value(data, pos, n),
        bits_value(data, pos, n) >= pow2((n - 1) as nat) ==> signed_bits_value(data, pos, n)
            == bits_value(data, pos, n) - pow2(n),
        spec_read_bits(data, pos, n) is Ok <==> spec_read_signed_bits(data, pos, n) is Ok,
        spec_read_bits(data, pos, n) is Ok ==> spec_read_bits(data, pos, n)->Ok_0.0
            == bits_value(data, pos, n) && spec_read_signed_bits(data, pos, n)->Ok_0.0
            == signed_bits_value(data, pos, n),
{
    lemma_bits_value_bound(data, pos, n);
    lemma_signed_bits_value_bound(data, pos, n);
    lemma_pow2_monotonic(n, 32);
    lemma_pow2_monotonic((n - 1) as nat, 31);
    lemma2_to64();
}

/// Reading fails exactly when it asks for more bits than are left, and
/// the failure is `EndOfStream`; no value comes back in that case.
pub proof fn lemma_read_past_end(data: Seq<u8>, pos: nat, n: nat)
    ensures
        pos + n > 8 * data.len() <==> spec_read_bits(data, pos, n) == Err::<(u32, nat), WvgError>(
            WvgError::EndOfStream,
        ),
        pos + n > 8 * data.len() <==> spec_read_signed_bits(data, pos, n) == Err::<
            (i32, nat),
            WvgError,
        >(WvgError::EndOfStream),
        pos + 1 > 8 * data.len() <==> spec_read_bit(data, pos) == Err::<(u8, nat), WvgError>(
            WvgError::EndOfStream,
        ),
        pos + n <= 8 * data.len() <==> spec_read_bits(data, pos, n) is Ok,
        pos + n <= 8 * data.len() <==> spec_read_signed_bits(data, pos, n) is Ok,
        pos + 1 <= 8 * data.len() <==> spec_read_bit(data, pos) is Ok,
{
}

/// Powers of two grow with the exponent.
pub proof fn lemma_pow2_monotonic(a: nat, b: nat)
    requires
        a <= b,
    ensures
        pow2(a) <= pow2(b),
{
    if a < b {
        lemma_pow2_strictly_increases(a, b);
    }
}

/// A cursor over a borrowed byte buffer that hands out bits in order.
#[derive(Debug)]
pub struct BitStream<'a> {
    data: &'a [u8],
    byte_pos: usize,
    bit_pos: u8,
}

impl<'a> BitStream<'a> {
    /// The bytes the stream reads from.
    pub closed spec fn bytes(&self) -> Seq<u8> {
        self.data@
    }

    /// The number of bits consumed so far.
    pub closed spec fn position(&self) -> nat {
        (self.byte_pos * 8 + self.bit_pos) as nat
    }

    /// The cursor lies inside the buffer or exactly at its end, and the bit
    /// offset is a proper offset into one byte.
    pub closed spec fn wf(&self) -> bool {
        &&& self.bit_pos < 8
        &&& self.byte_pos <= self.data@.len()
        &&& self.byte_pos == self.data@.len() ==> self.bit_pos == 0
    }

    /// A well-formed stream never stands past the end of its bytes.
    pub proof fn lemma_position_in_bounds(&self)
        requires
            self.wf(),
        ensures
            self.position() <= 8 * self.bytes().len(),
    {
    }

    /// Starts reading `data` at its first bit.
    pub fn new(data: &'a [u8]) -> (s: Self)
        ensures
            s.wf(),
            s.bytes() == data@,
            s.position() == 0,
    {
        Self { data, byte_pos: 0, bit_pos: 0 }
    }

    /// Reads one bit. Fails with `EndOfStream`, leaving the cursor where it
    /// was, exactly when no bit is left.
    pub fn read_bit(&mut self) -> (r: WvgResult<u8>)
        requires
            old(self).wf(),
        ensures
            final(self).wf(),
            final(self).bytes() == old(self).bytes(),
            match r {
                Ok(b) => spec_read_bit(old(self).bytes(), old(self).position()) == Ok::<
                    (u8, nat),
                    WvgError,
                >((b, final(self).position())),
                Err(e) => e == WvgError::EndOfStream && spec_read_bit(
                    old(self).bytes(),
                    old(self).position(),
                ) is Err && final(self).position() == old(self).position(),
            },
    {
        if self.byte_pos >= self.data.len() {
            return Err(WvgError::EndOfStream);
        }
        let byte = self.data[self.byte_pos];
        let bit = (byte >> (7 - self.bit_pos)) & 1;
        assert((self.byte_pos * 8 + self.bit_pos) / 8 == self.byte_pos);
        assert((self.byte_pos * 8 + self.bit_pos) % 8 == self.bit_pos);
        self.bit_pos += 1;
        if self.bit_pos == 8 {
            self.bit_pos = 0;
            self.byte_pos += 1;
        }
        Ok(bit)
    }

    /// Reads `n` bits as an unsigned number, first bit most significant.
    /// Fails with `EndOfStream` exactly when fewer than `n` bits are left;
    /// the cursor then rests at the end of the input.
    pub fn read_bits(&mut self, n: u8) -> (r: WvgResult<u32>)
        requires
            old(self).wf(),
            n <= 32,
        ensures
            final(self).wf(),
            final(self).bytes() == old(self).bytes(),
            match r {
                Ok(v) => spec_read_bits(old(self).bytes(), old(self).position(), n as nat) == Ok::<
                    (u32, nat),
                    WvgError,
                >((v, final(self).position())) && v < pow2(n as nat) && v as nat == bits_value(
                    old(self).bytes(),
                    old(self).position(),
                    n as nat,
                ),
                Err(e) => e == WvgError::EndOfStream && spec_read_bits(
                    old(self).bytes(),
                    old(self).position(),
                    n as nat,
                ) is Err && final(self).position() == 8 * old(self).bytes().len(),
            },
    {
        let ghost data = self.bytes();
        let ghost start = self.position();
        let mut val: u32 = 0;
        let mut i: u8 = 0;
        while i < n
            invariant
                i <= n <= 32,
                self.wf(),
                self.bytes() == data,
                data == old(self).bytes(),
                start == old(self).position(),
                self.position() == start + i,
                val == bits_value(data, start, i as nat),
            decreases n - i,
        {
            proof {
                self.lemma_position_in_bounds();
            }
            let bit = match self.read_bit() {
                Ok(b) => b,
                Err(e) => {
                    return Err(e);
                },
            };
            proof {
                lemma_bits_value_bound(data, start, i as nat);
                lemma_pow2_monotonic(i as nat, 31);
                lemma2_to64();
                lemma_bit_at_range(data, (start + i) as nat);
                let b32 = bit as u32;
                assert((val << 1) | b32 == 2 * val + b32) by (bit_vector)
                    requires
                        val < 0x8000_0000u32,
                        b32 <= 1,
                ;
            }
            val = (val << 1) | (bit as u32);
            i = i + 1;
        }
        proof {
            lemma_bits_value_bound(data, start, n as nat);
            self.lemma_position_in_bounds();
        }
        Ok(val)
    }

    /// Reads `n` bits as a two's-complement number. A field of no bits
    /// reads as zero. Fails like [`BitStream::read_bits`].
    pub fn read_signed_bits(&mut self, n: u8) -> (r: WvgResult<i32>)
        requires
            old(self).wf(),
            n <= 32,
        ensures
            final(self).wf(),
            final(self).bytes() == old(self).bytes(),
            match r {
                Ok(v) => spec_read_signed_bits(old(self).bytes(), old(self).position(), n as nat)
                    == Ok::<(i32, nat), WvgError>((v, final(self).position())) && v
                    == signed_bits_value(old(self).bytes(), old(self).position(), n as nat),
                Err(e) => e == WvgError::EndOfStream && spec_read_signed_bits(
                    old(self).bytes(),
                    old(self).position(),
                    n as nat,
                ) is Err && final(self).position() == 8 * old(self).bytes().len(),
            },
    {
        let val = self.read_bits(n)?;
        proof {
            lemma_bits_value_bound(old(self).bytes(), old(self).position(), n as nat);
            lemma_pow2_monotonic(n as nat, 32);
            lemma2_to64();
        }
        if n == 0 {
            return Ok(0);
        }
        proof {
            lemma_pow2_monotonic((n - 1) as nat, 31);
            lemma2_to64();
            lemma_pow2_unfold(n as nat);
            lemma_u64_shl_is_mul(1, (n - 1) as u64);
        }
        let half: u64 = 1u64 << ((n - 1) as u64);
        if (val as u64) >= half {
            let wide: i64 = (val as i64) - 2 * (half as i64);
            Ok(wide as i32)
        } else {
            Ok(val as i32)
        }
    }

    /// Whether at least one more bit can be read.
    pub fn has_more_bits(&self) -> (r: bool)
        requires
            self.wf(),
        ensures
            r == (self.position() < 8 * self.bytes().len()),
    {
        self.byte_pos < self.data.len()
    }

    /// Index of the byte the cursor stands in.
    pub fn byte_position(&self) -> (r: usize)
        requires
            self.wf(),
        ensures
            r == self.position() / 8,
    {
        self.byte_pos
    }

    /// Offset of the cursor inside its byte; zero is the top bit.
    pub fn bit_position(&self) -> (r: u8)
        requires
            self.wf(),
        ensures
            r == self.position() % 8,
    {
        self.bit_pos
    }

    /// Number of bytes in the buffer.
    pub fn len(&self) -> (r: usize)
        ensures
            r == self.bytes().len(),
    {
        self.data.len()
    }

    /// Whether the buffer holds no bytes at all.
    pub fn is_empty(&self) -> (r: bool)
        ensures
            r == (self.bytes().len() == 0),
    {
        self.data.len() == 0
    }
}

} // verus!

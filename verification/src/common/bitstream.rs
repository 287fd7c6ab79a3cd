//! Bit buffer for reading bitstream syntax, most significant bit first.
//!
//! The buffer is a ring: reading runs on past the data that was fed into it, wraps
//! around at the end of the buffer, and counts the overrun as a negative number of
//! valid bits. Parsers read first and check the count afterwards.

use vstd::prelude::*;
use vstd::arithmetic::div_mod::{
    lemma_add_mod_noop, lemma_add_mod_noop_right, lemma_fundamental_div_mod, lemma_mod_breakdown,
    lemma_mod_multiples_vanish, lemma_small_mod, lemma_sub_mod_noop,
};
use vstd::arithmetic::power2::{pow2, lemma_pow2_pos, lemma_pow2_unfold, lemma_pow2_strictly_increases, lemma2_to64};

verus! {

/// Largest buffer a `Bitstream` holds, in bytes.
pub const MAX_BUFFER_BYTES: usize = 0x0100_0000;

/// How far reading may run past the valid data, in bits.
pub const MIN_VALID_BITS: isize = -0x4000_0000;

/// Whether a bitstream is read or written.
#[derive(Clone, Copy, Debug, PartialEq, Eq, Structural)]
pub enum Mode {
    /// The bitstream is read.
    Reader,
    /// The bitstream is written.
    Writer,
}

/// The bit at ring position `p`: bit `7 - p % 8` of byte `p / 8`.
pub open spec fn bit_at(buf: Seq<u8>, p: int) -> u8 {
    (buf[p / 8] >> ((7 - p % 8) as u8)) & 1u8
}

/// Size of the ring over `buf`, in bits.
pub open spec fn ring_size(buf: Seq<u8>) -> int {
    8 * buf.len() as int
}

/// A bit is zero or one.
pub proof fn lemma_bit_at_bound(buf: Seq<u8>, p: int)
    ensures
        bit_at(buf, p) <= 1,
{
    let b = buf[p / 8];
    let s = ((7 - p % 8) as u8);
    assert((b >> s) & 1u8 <= 1u8) by (bit_vector);
}

/// The value of the `n` bits from ring position `pos` on, the first bit the most significant.
pub open spec fn ring_bits(buf: Seq<u8>, pos: int, n: nat) -> nat
    decreases n,
{
    if n == 0 {
        0
    } else {
        ring_bits(buf, pos, (n - 1) as nat) * 2 + bit_at(buf, (pos + n - 1) % ring_size(buf)) as nat
    }
}

/// `buf` with the bytes of `src` written from byte `off` on, wrapping at the end.
pub open spec fn ring_write(buf: Seq<u8>, off: int, src: Seq<u8>) -> Seq<u8> {
    Seq::new(
        buf.len(),
        |i: int|
            if (i - off) % (buf.len() as int) < src.len() {
                src[(i - off) % (buf.len() as int)]
            } else {
                buf[i]
            },
    )
}

/// `buf` with the bit at ring position `p` set to `b`, which is zero or one.
pub open spec fn put_bit(buf: Seq<u8>, p: int, b: u8) -> Seq<u8> {
    let byte = buf[p / 8];
    let mask = 1u8 << ((7 - p % 8) as u8);
    buf.update(p / 8, if b == 1 { byte | mask } else { byte & !mask })
}

/// `buf` with the low `n` bits of `value` written from ring position `pos` on, the
/// most significant first.
pub open spec fn ring_put(buf: Seq<u8>, pos: int, value: nat, n: nat) -> Seq<u8>
    decreases n,
{
    if n == 0 {
        buf
    } else {
        ring_put(
            put_bit(buf, (pos + n - 1) % ring_size(buf), (value % 2) as u8),
            pos,
            value / 2,
            (n - 1) as nat,
        )
    }
}

/// What a `Bitstream` holds: its bytes, the read position in bits, the number of
/// valid bits ahead of it (negative after an overrun), the byte at which the next
/// fed byte is stored, and the mode.
pub struct BitstreamView {
    pub buf: Seq<u8>,
    pub pos: int,
    pub valid: int,
    pub fill: int,
    pub mode: Mode,
}

impl BitstreamView {
    /// Size of the ring in bits.
    pub open spec fn total_bits(self) -> int {
        ring_size(self.buf)
    }

    pub open spec fn wf(self) -> bool {
        &&& 0 < self.buf.len() <= MAX_BUFFER_BYTES
        &&& 0 <= self.pos < self.total_bits()
        &&& 0 <= self.fill < self.buf.len()
        &&& MIN_VALID_BITS <= self.valid <= self.total_bits()
    }

    /// The value of the next `n` bits.
    pub open spec fn peek(self, n: nat) -> nat {
        ring_bits(self.buf, self.pos, n)
    }

    /// The state after moving `n` bits forward (backward for negative `n`).
    pub open spec fn skip(self, n: int) -> BitstreamView {
        BitstreamView { pos: (self.pos + n) % self.total_bits(), valid: self.valid - n, ..self }
    }

    /// Moving `n` bits keeps the count of valid bits within its bounds.
    pub open spec fn can_skip(self, n: int) -> bool {
        MIN_VALID_BITS <= self.valid - n <= self.total_bits()
    }

    /// The state after the bytes of `src` were fed in.
    pub open spec fn fed(self, src: Seq<u8>) -> BitstreamView {
        BitstreamView {
            buf: ring_write(self.buf, self.fill, src),
            valid: self.valid + 8 * src.len(),
            fill: (self.fill + src.len()) % (self.buf.len() as int),
            ..self
        }
    }

    /// The state after the low `n` bits of `value` were written at the position.
    pub open spec fn put(self, value: nat, n: nat) -> BitstreamView {
        BitstreamView {
            buf: ring_put(self.buf, self.pos, value, n),
            pos: (self.pos + n) % self.total_bits(),
            valid: self.valid + n,
            ..self
        }
    }

    /// How many bytes a feed can still take.
    pub open spec fn free_bytes(self) -> int {
        if self.valid < 0 {
            self.buf.len() as int
        } else {
            (self.total_bits() - self.valid) / 8
        }
    }

    /// The number of bits to skip to reach a byte boundary counted from `anchor`, the
    /// number of valid bits at the point the count starts.
    pub open spec fn alignment_bits(self, anchor: int) -> int {
        (8 - (anchor - self.valid) % 8) % 8
    }
}

/// A bit buffer.
#[derive(Debug)]
pub struct Bitstream {
    buffer: Vec<u8>,
    bit_ndx: usize,
    fill_ndx: usize,
    valid_bits: isize,
    mode: Mode,
}

impl View for Bitstream {
    type V = BitstreamView;

    closed spec fn view(&self) -> BitstreamView {
        BitstreamView {
            buf: self.buffer@,
            pos: self.bit_ndx as int,
            valid: self.valid_bits as int,
            fill: self.fill_ndx as int,
            mode: self.mode,
        }
    }
}

/// The bits read so far fit in as many bits as were read.
proof fn lemma_ring_bits_bound(buf: Seq<u8>, pos: int, n: nat)
    ensures
        ring_bits(buf, pos, n) < pow2(n),
    decreases n,
{
    if n == 0 {
        lemma2_to64();
    } else {
        lemma_ring_bits_bound(buf, pos, (n - 1) as nat);
        lemma_pow2_unfold(n);
        lemma_bit_at_bound(buf, (pos + n - 1) % ring_size(buf));
    }
}

/// Reading `n` bits gives less than `2^n`.
pub proof fn lemma_peek_bound(v: BitstreamView, n: nat)
    ensures
        v.peek(n) < pow2(n),
{
    lemma_ring_bits_bound(v.buf, v.pos, n);
}

/// Moving `n` bits and then `n` bits back leaves the bitstream as it was.
pub proof fn lemma_skip_back(v: BitstreamView, n: int)
    requires
        v.wf(),
    ensures
        v.skip(n).skip(-n) == v,
{
    let t = v.total_bits();
    lemma_add_mod_noop((v.pos + n), -n, t);
    lemma_add_mod_noop(v.pos + n - n, 0, t);
    lemma_small_mod(v.pos as nat, t as nat);
    assert(((v.pos + n) % t + (-n) % t) % t == (v.pos + n - n) % t);
    lemma_add_mod_noop_right((v.pos + n) % t, -n, t);
}

/// After moving to the next byte boundary counted from `anchor`, a whole number of
/// bytes lies between `anchor` and the read position.
pub proof fn lemma_aligned(v: BitstreamView, anchor: int)
    ensures
        (v.skip(v.alignment_bits(anchor)).valid - anchor) % 8 == 0,
{
    let d = (anchor - v.valid) % 8;
    let a = v.alignment_bits(anchor);
    assert(0 <= d < 8);
    if d == 0 {
        lemma_small_mod(0, 8);
        assert(a == 0);
        assert(anchor - v.valid == 8 * ((anchor - v.valid) / 8));
        assert((v.valid - anchor) == 8 * (-((anchor - v.valid) / 8)));
        lemma_mod_multiples_vanish(-((anchor - v.valid) / 8), 0, 8);
    } else {
        lemma_small_mod((8 - d) as nat, 8);
        assert(a == 8 - d);
        let q = (anchor - v.valid) / 8;
        assert(anchor - v.valid == 8 * q + d);
        assert(v.valid - a - anchor == 8 * (-q - 1));
        lemma_mod_multiples_vanish(-q - 1, 0, 8);
    }
}

/// Moving no bit leaves the bitstream as it was.
pub proof fn lemma_skip_zero(v: BitstreamView)
    requires
        v.wf(),
    ensures
        v.skip(0) == v,
{
    lemma_small_mod(v.pos as nat, v.total_bits() as nat);
}

/// Moving `a` bits and then `b` bits is moving `a + b` bits.
pub proof fn lemma_skip_add(v: BitstreamView, a: int, b: int)
    requires
        v.wf(),
    ensures
        v.skip(a).skip(b) == v.skip(a + b),
{
    let t = v.total_bits();
    lemma_add_mod_noop(v.pos + a, b, t);
    lemma_add_mod_noop_right((v.pos + a) % t, b, t);
    lemma_add_mod_noop(v.pos + a, b, t);
    assert(((v.pos + a) % t + b) % t == (v.pos + a + b) % t) by {
        lemma_add_mod_noop_right(b, v.pos + a, t);
    }
}

/// One step along the ring.
proof fn lemma_ring_step(start: int, k: int, total: int)
    requires
        0 <= start,
        0 <= k,
        8 <= total,
    ensures
        (((start + k) % total) + 1 == total ==> (start + k + 1) % total == 0),
        (((start + k) % total) + 1 != total ==> (start + k + 1) % total == ((start + k) % total)
            + 1),
{
    lemma_add_mod_noop(start + k, 1, total);
    lemma_small_mod(1, total as nat);
    let r = (start + k) % total;
    assert(0 <= r < total);
    if r + 1 == total {
        lemma_mod_multiples_vanish(1, 0, total);
        lemma_small_mod(0, total as nat);
    } else {
        lemma_small_mod((r + 1) as nat, total as nat);
    }
}

/// Moving back by `back` bits on the ring.
proof fn lemma_ring_back(pos: int, back: int, total: int)
    requires
        0 <= pos < total,
        0 <= back,
        0 < total,
    ensures
        (pos + total - back % total) % total == (pos - back) % total,
{
    let m = back % total;
    let q = back / total;
    lemma_fundamental_div_mod(back, total);
    assert(pos - back == (pos + total - m) + total * (-(q + 1))) by (nonlinear_arith)
        requires
            back == total * q + m,
    ;
    lemma_mod_multiples_vanish(-(q + 1), pos + total - m, total);
}

/// Writing one more byte on the ring.
proof fn lemma_ring_write_push(buf: Seq<u8>, off: int, src: Seq<u8>, b: u8)
    requires
        0 <= off < buf.len(),
        src.len() < buf.len(),
    ensures
        ring_write(buf, off, src).update((off + src.len()) % (buf.len() as int), b)
            == ring_write(buf, off, src.push(b)),
{
    let len = buf.len() as int;
    let k = src.len() as int;
    let j = (off + k) % len;
    assert forall|i: int| 0 <= i < len implies (#[trigger] ((i - off) % len) == k <==> i == j) by {
        lemma_add_mod_noop_right(off, i - off, len);
        lemma_small_mod(i as nat, len as nat);
        lemma_add_mod_noop_right(-off, off + k, len);
        lemma_small_mod(k as nat, len as nat);
    }
    assert(ring_write(buf, off, src).update(j, b) =~= ring_write(buf, off, src.push(b)));
}

/// Setting one bit sets that bit and leaves every other one.
proof fn lemma_put_bit(buf: Seq<u8>, p: int, b: u8, q: int)
    requires
        0 <= p < ring_size(buf),
        0 <= q < ring_size(buf),
        b <= 1,
    ensures
        put_bit(buf, p, b).len() == buf.len(),
        bit_at(put_bit(buf, p, b), q) == if q == p {
            b
        } else {
            bit_at(buf, q)
        },
{
    if q / 8 == p / 8 {
        let x = buf[p / 8];
        let s = (7 - p % 8) as u8;
        let t = (7 - q % 8) as u8;
        if q == p {
            if b == 1 {
                assert(((x | (1u8 << s)) >> s) & 1u8 == 1u8) by (bit_vector)
                    requires
                        s < 8,
                ;
            } else {
                assert(((x & !(1u8 << s)) >> s) & 1u8 == 0u8) by (bit_vector)
                    requires
                        s < 8,
                ;
            }
        } else {
            assert(s != t);
            assert(((x | (1u8 << s)) >> t) & 1u8 == (x >> t) & 1u8) by (bit_vector)
                requires
                    s < 8,
                    t < 8,
                    s != t,
            ;
            assert(((x & !(1u8 << s)) >> t) & 1u8 == (x >> t) & 1u8) by (bit_vector)
                requires
                    s < 8,
                    t < 8,
                    s != t,
            ;
        }
    }
}

/// The distance along the ring from `pos` to `k` steps past it is `k`.
proof fn lemma_ring_offset(pos: int, k: int, t: int)
    requires
        0 <= pos < t,
        0 <= k < t,
    ensures
        (((pos + k) % t) - pos) % t == k,
{
    if pos + k < t {
        lemma_small_mod((pos + k) as nat, t as nat);
    } else {
        lemma_mod_multiples_vanish(1, pos + k - t, t);
        lemma_small_mod((pos + k - t) as nat, t as nat);
        lemma_mod_multiples_vanish(-1, k, t);
    }
    lemma_small_mod(k as nat, t as nat);
}

/// Writing `n` bits from `pos` on puts `value` modulo `2^n` there and leaves every
/// bit outside those `n` positions.
pub proof fn lemma_ring_put(buf: Seq<u8>, pos: int, value: nat, n: nat)
    requires
        0 < buf.len(),
        0 <= pos < ring_size(buf),
        n <= ring_size(buf),
    ensures
        ring_put(buf, pos, value, n).len() == buf.len(),
        ring_bits(ring_put(buf, pos, value, n), pos, n) == value % pow2(n),
        forall|q: int|
            0 <= q < ring_size(buf) && (q - pos) % ring_size(buf) >= n ==> #[trigger] bit_at(
                ring_put(buf, pos, value, n),
                q,
            ) == bit_at(buf, q),
    decreases n,
{
    let t = ring_size(buf);
    if n == 0 {
        lemma2_to64();
    } else {
        let q0 = (pos + n - 1) % t;
        let b = (value % 2) as u8;
        let bp = put_bit(buf, q0, b);
        lemma_put_bit(buf, q0, b, q0);
        lemma_ring_put(bp, pos, value / 2, (n - 1) as nat);
        let r = ring_put(bp, pos, value / 2, (n - 1) as nat);
        assert(r == ring_put(buf, pos, value, n));
        lemma_ring_offset(pos, n - 1, t);
        assert(bit_at(r, q0) == b);
        lemma_pow2_unfold(n);
        lemma_pow2_pos((n - 1) as nat);
        lemma_mod_breakdown(value as int, 2, pow2((n - 1) as nat) as int);
        assert forall|q: int| 0 <= q < t && (q - pos) % t >= n implies #[trigger] bit_at(r, q)
            == bit_at(buf, q) by {
            lemma_put_bit(buf, q0, b, q);
        }
    }
}

/// Bits that agree on `n` positions read the same there.
proof fn lemma_ring_bits_agree(a: Seq<u8>, b: Seq<u8>, pos: int, n: nat)
    requires
        a.len() == b.len(),
        forall|i: int|
            0 <= i < n ==> #[trigger] bit_at(a, (pos + i) % ring_size(a)) == bit_at(
                b,
                (pos + i) % ring_size(b),
            ),
    ensures
        ring_bits(a, pos, n) == ring_bits(b, pos, n),
    decreases n,
{
    if n > 0 {
        lemma_ring_bits_agree(a, b, pos, (n - 1) as nat);
        assert(bit_at(a, (pos + (n - 1)) % ring_size(a)) == bit_at(b, (pos + (n - 1)) % ring_size(b)));
    }
}

/// A byte of the ring read as eight bits is that byte.
proof fn lemma_ring_byte(buf: Seq<u8>, i: int)
    requires
        0 <= i < buf.len(),
    ensures
        ring_bits(buf, 8 * i, 8) == buf[i],
{
    let t = ring_size(buf);
    let b = buf[i];
    assert forall|j: int| 0 <= j < 8 implies #[trigger] bit_at(buf, (8 * i + j) % t) == (b >> ((7
        - j) as u8)) & 1u8 by {
        lemma_small_mod((8 * i + j) as nat, t as nat);
        assert((8 * i + j) / 8 == i);
        assert((8 * i + j) % 8 == j);
    }
    reveal_with_fuel(ring_bits, 9);
    assert(bit_at(buf, (8 * i + 0) % t) == (b >> 7u8) & 1u8);
    assert(bit_at(buf, (8 * i + 1) % t) == (b >> 6u8) & 1u8);
    assert(bit_at(buf, (8 * i + 2) % t) == (b >> 5u8) & 1u8);
    assert(bit_at(buf, (8 * i + 3) % t) == (b >> 4u8) & 1u8);
    assert(bit_at(buf, (8 * i + 4) % t) == (b >> 3u8) & 1u8);
    assert(bit_at(buf, (8 * i + 5) % t) == (b >> 2u8) & 1u8);
    assert(bit_at(buf, (8 * i + 6) % t) == (b >> 1u8) & 1u8);
    assert(bit_at(buf, (8 * i + 7) % t) == (b >> 0u8) & 1u8);
    assert(((((((((b >> 7u8) & 1u8) as u32 * 2 + ((b >> 6u8) & 1u8) as u32) * 2 + ((b >> 5u8)
        & 1u8) as u32) * 2 + ((b >> 4u8) & 1u8) as u32) * 2 + ((b >> 3u8) & 1u8) as u32) * 2 + ((b
        >> 2u8) & 1u8) as u32) * 2 + ((b >> 1u8) & 1u8) as u32) * 2 + ((b >> 0u8) & 1u8) as u32
        == b as u32) by (bit_vector);
}

/// What is fed is read back: with the read position at the byte where feeding
/// starts, as after a reset, byte `i` of what was fed is read as the eight bits
/// `8 * i` bits on.
pub proof fn lemma_fed_read_back(v: BitstreamView, src: Seq<u8>, i: int)
    requires
        v.wf(),
        v.pos == 8 * v.fill,
        src.len() <= v.buf.len(),
        0 <= i < src.len(),
    ensures
        v.fed(src).skip(8 * i).peek(8) == src[i],
{
    let len = v.buf.len() as int;
    let t = 8 * len;
    let w = v.fed(src);
    let q = (v.fill + i) % len;
    lemma_fundamental_div_mod(v.fill + i, len);
    let k = (v.fill + i) / len;
    assert(8 * (v.fill + i) == t * k + 8 * q) by (nonlinear_arith)
        requires
            v.fill + i == len * k + q,
            t == 8 * len,
    ;
    lemma_mod_multiples_vanish(k, 8 * q, t);
    lemma_small_mod((8 * q) as nat, t as nat);
    assert(w.skip(8 * i).pos == 8 * q);
    lemma_ring_byte(w.buf, q);
    lemma_sub_mod_noop(v.fill + i, v.fill, len);
    lemma_small_mod(v.fill as nat, len as nat);
    lemma_small_mod(i as nat, len as nat);
    assert((q - v.fill) % len == i);
}

/// A write is read back: from where a write of `n` bits began, the `n` bits hold the
/// value written, modulo `2^n`.
pub proof fn lemma_write_read_back(v: BitstreamView, value: nat, n: nat)
    requires
        v.wf(),
        n <= v.total_bits(),
    ensures
        (BitstreamView { pos: v.pos, ..v.put(value, n) }).peek(n) == value % pow2(n),
{
    lemma_ring_put(v.buf, v.pos, value, n);
}

/// Two writes are read back in the order they were made: from where the first
/// began, its `na` bits hold `a`, and the `nb` bits after them hold `b`, each modulo
/// the power of two of its width.
pub proof fn lemma_writes_read_back_in_order(v: BitstreamView, a: nat, na: nat, b: nat, nb: nat)
    requires
        v.wf(),
        na + nb <= v.total_bits(),
    ensures
        ({
            let r = BitstreamView { pos: v.pos, ..v.put(a, na).put(b, nb) };
            &&& r.peek(na) == a % pow2(na)
            &&& r.skip(na as int).peek(nb) == b % pow2(nb)
        }),
{
    let t = v.total_bits();
    let w1 = v.put(a, na);
    let w = w1.put(b, nb);
    lemma_ring_put(v.buf, v.pos, a, na);
    let p1 = w1.pos;
    lemma_ring_put(w1.buf, p1, b, nb);
    assert forall|i: int| 0 <= i < na implies #[trigger] bit_at(w.buf, (v.pos + i) % ring_size(w.buf))
        == bit_at(w1.buf, (v.pos + i) % ring_size(w1.buf)) by {
        let q = (v.pos + i) % t;
        lemma_sub_mod_noop(v.pos + i, v.pos + na, t);
        lemma_mod_multiples_vanish(-1, t + i - na, t);
        lemma_small_mod((t + i - na) as nat, t as nat);
        assert((q - p1) % t == t + i - na);
    }
    lemma_ring_bits_agree(w.buf, w1.buf, v.pos, na);
}

/// `x % 8` for an `x` that may be negative.
pub fn mod8(x: isize) -> (r: isize)
    ensures
        0 <= r < 8,
        r == x % 8,
{
    let r = x & 7;
    assert(r == x % 8 && 0 <= r < 8) by (bit_vector)
        requires
            r == x & 7,
    ;
    r
}

impl Bitstream {
    pub open spec fn wf(&self) -> bool {
        self@.wf()
    }

    /// A bitstream of `size` bytes, all zero, with nothing to read.
    pub fn new(size: usize, mode: Mode) -> (bs: Bitstream)
        requires
            0 < size <= MAX_BUFFER_BYTES,
        ensures
            bs.wf(),
            bs@.buf == Seq::new(size as nat, |i: int| 0u8),
            bs@.pos == 0,
            bs@.valid == 0,
            bs@.fill == 0,
            bs@.mode == mode,
    {
        let mut buffer: Vec<u8> = Vec::with_capacity(size);
        while buffer.len() < size
            invariant
                buffer.len() <= size,
                forall|i: int| 0 <= i < buffer.len() ==> buffer@[i] == 0u8,
            decreases size - buffer.len(),
        {
            buffer.push(0u8);
        }
        assert(buffer@ =~= Seq::new(size as nat, |i: int| 0u8));
        Bitstream { buffer, bit_ndx: 0, fill_ndx: 0, valid_bits: 0, mode }
    }

    /// Puts `data` at the start of the buffer and makes its first `n_bits` bits the
    /// ones to read.
    pub fn init(&mut self, data: &[u8], n_bits: usize)
        requires
            old(self).wf(),
            data@.len() <= old(self)@.buf.len(),
            n_bits <= old(self)@.total_bits(),
        ensures
            final(self).wf(),
            final(self)@.buf == data@ + old(self)@.buf.subrange(
                data@.len() as int,
                old(self)@.buf.len() as int,
            ),
            final(self)@.pos == 0,
            final(self)@.valid == n_bits,
            final(self)@.fill == 0,
            final(self)@.mode == old(self)@.mode,
    {
        let ghost old_buf = self.buffer@;
        let mut i: usize = 0;
        while i < data.len()
            invariant
                i <= data@.len() <= self.buffer@.len(),
                self.buffer@.len() == old_buf.len(),
                old_buf == old(self).buffer@,
                self.mode == old(self).mode,
                forall|j: int| 0 <= j < i ==> self.buffer@[j] == data@[j],
                forall|j: int| i <= j < old_buf.len() ==> self.buffer@[j] == old_buf[j],
            decreases data@.len() - i,
        {
            self.buffer.set(i, data[i]);
            i += 1;
        }
        assert(self.buffer@ =~= data@ + old_buf.subrange(data@.len() as int, old_buf.len() as int));
        self.bit_ndx = 0;
        self.fill_ndx = 0;
        self.valid_bits = n_bits as isize;
    }

    /// Size of the buffer in bytes.
    pub fn capacity(&self) -> (size: usize)
        requires
            self.wf(),
        ensures
            size == self@.buf.len(),
    {
        self.buffer.len()
    }

    /// Number of valid bits left to read; negative after reading past them.
    pub fn valid_bits(&self) -> (bits: isize)
        ensures
            bits == self@.valid,
    {
        self.valid_bits
    }

    /// Reads `n` bits, the first one the most significant.
    pub fn read(&mut self, n: u32) -> (value: u32)
        requires
            old(self).wf(),
            n <= 32,
            old(self)@.can_skip(n as int),
        ensures
            final(self).wf(),
            value == old(self)@.peek(n as nat),
            final(self)@ == old(self)@.skip(n as int),
    {
        let total: usize = self.buffer.len() * 8;
        let ghost start = self.bit_ndx as int;
        let mut value: u32 = 0;
        let mut i: u32 = 0;
        proof {
            lemma2_to64();
            lemma_small_mod(start as nat, total as nat);
        }
        while i < n
            invariant
                i <= n <= 32,
                total == 8 * self.buffer@.len(),
                0 < self.buffer@.len() <= MAX_BUFFER_BYTES,
                self.buffer@ == old(self).buffer@,
                self.valid_bits == old(self).valid_bits,
                self.fill_ndx == old(self).fill_ndx,
                self.mode == old(self).mode,
                start == old(self).bit_ndx,
                0 <= start < total,
                self.bit_ndx == (start + i) % (total as int),
                value == ring_bits(self.buffer@, start, i as nat),
                value < pow2(i as nat),
                pow2(32) == 0x1_0000_0000,
            decreases n - i,
        {
            let ndx = self.bit_ndx;
            proof {
                lemma_ring_step(start, i as int, total as int);
            }
            let byte = self.buffer[ndx / 8];
            let bit: u8 = (byte >> ((7 - ndx % 8) as u8)) & 1u8;
            assert(bit <= 1) by (bit_vector)
                requires
                    bit == (byte >> ((7 - ndx % 8) as u8)) & 1u8,
            ;
            proof {
                lemma_pow2_unfold((i + 1) as nat);
                if i + 1 < 32 {
                    lemma_pow2_strictly_increases((i + 1) as nat, 32);
                }
                assert(bit_at(self.buffer@, (start + i) % (total as int)) == bit);
            }
            value = value * 2 + bit as u32;
            self.bit_ndx = if ndx + 1 == total {
                0
            } else {
                ndx + 1
            };
            i += 1;
        }
        self.valid_bits = self.valid_bits - n as isize;
        value
    }

    /// Reads one bit.
    pub fn read_bit(&mut self) -> (value: u32)
        requires
            old(self).wf(),
            old(self)@.can_skip(1),
        ensures
            final(self).wf(),
            value == old(self)@.peek(1),
            value <= 1,
            final(self)@ == old(self)@.skip(1),
    {
        proof {
            lemma_ring_bits_bound(self@.buf, self@.pos, 1);
            lemma2_to64();
        }
        self.read(1)
    }

    /// Writes the low `n` bits of `value` at the position, the most significant
    /// first, and counts them as valid.
    pub fn write(&mut self, value: u32, n: u8)
        requires
            old(self).wf(),
            n <= 32,
            old(self)@.valid + n <= old(self)@.total_bits(),
        ensures
            final(self).wf(),
            final(self)@ == old(self)@.put(value as nat, n as nat),
    {
        let total: usize = self.buffer.len() * 8;
        let start = self.bit_ndx;
        let ghost old_buf = self.buffer@;
        let mut v: u32 = value;
        let mut k: usize = n as usize;
        while k > 0
            invariant
                k <= n,
                total == 8 * self.buffer@.len(),
                self.buffer@.len() == old_buf.len(),
                0 < old_buf.len() <= MAX_BUFFER_BYTES,
                0 <= start < total,
                start == old(self).bit_ndx,
                self.bit_ndx == old(self).bit_ndx,
                self.valid_bits == old(self).valid_bits,
                self.fill_ndx == old(self).fill_ndx,
                self.mode == old(self).mode,
                ring_put(self.buffer@, start as int, v as nat, k as nat) == ring_put(
                    old_buf,
                    start as int,
                    value as nat,
                    n as nat,
                ),
            decreases k,
        {
            let p = (start + k - 1) % total;
            let bit: u8 = (v % 2) as u8;
            let byte = self.buffer[p / 8];
            let mask: u8 = 1u8 << ((7 - p % 8) as u8);
            let new_byte = if bit == 1 {
                byte | mask
            } else {
                byte & !mask
            };
            proof {
                assert(put_bit(self.buffer@, p as int, bit) == self.buffer@.update(
                    (p / 8) as int,
                    new_byte,
                ));
            }
            self.buffer.set(p / 8, new_byte);
            v = v / 2;
            k -= 1;
        }
        self.bit_ndx = (start + n as usize) % total;
        self.valid_bits = self.valid_bits + n as isize;
    }

    /// The bytes of the buffer.
    pub fn buffer(&self) -> (bytes: &[u8])
        ensures
            bytes@ == self@.buf,
    {
        self.buffer.as_slice()
    }

    /// Moves the read position `n` bits forward, or back for a negative `n`.
    pub fn push(&mut self, n: isize)
        requires
            old(self).wf(),
            old(self)@.can_skip(n as int),
        ensures
            final(self).wf(),
            final(self)@ == old(self)@.skip(n as int),
    {
        let total: usize = self.buffer.len() * 8;
        if n >= 0 {
            let step = (n as usize) % total;
            proof {
                lemma_add_mod_noop(self.bit_ndx as int, n as int, total as int);
                lemma_small_mod(self.bit_ndx as nat, total as nat);
            }
            self.bit_ndx = (self.bit_ndx + step) % total;
        } else {
            let back = ((-n) as usize) % total;
            proof {
                lemma_ring_back(self.bit_ndx as int, -n as int, total as int);
            }
            self.bit_ndx = (self.bit_ndx + total - back) % total;
        }
        self.valid_bits = self.valid_bits - n;
    }

    /// Empties the buffer: nothing is left to read and feeding starts at its first byte.
    pub fn reset(&mut self)
        requires
            old(self).wf(),
        ensures
            final(self).wf(),
            final(self)@ == (BitstreamView { pos: 0, valid: 0, fill: 0, ..old(self)@ }),
    {
        self.bit_ndx = 0;
        self.fill_ndx = 0;
        self.valid_bits = 0;
    }

    /// Feeds the last `bytes_valid` bytes of `buffer` in, as many as there is room for.
    /// Returns the number of bytes that did not fit.
    pub fn feed(&mut self, buffer: &[u8], bytes_valid: usize) -> (left: usize)
        requires
            old(self).wf(),
            bytes_valid <= buffer@.len(),
        ensures
            final(self).wf(),
            ({
                let n = if old(self)@.free_bytes() < bytes_valid {
                    old(self)@.free_bytes()
                } else {
                    bytes_valid as int
                };
                let start = buffer@.len() - bytes_valid;
                &&& left == bytes_valid - n
                &&& final(self)@ == old(self)@.fed(buffer@.subrange(start, start + n))
            }),
    {
        let len = self.buffer.len();
        let total = len * 8;
        let free: usize = if self.valid_bits < 0 {
            len
        } else {
            (total - self.valid_bits as usize) / 8
        };
        let n = if free < bytes_valid {
            free
        } else {
            bytes_valid
        };
        let buffer_len = buffer.len();
        let start = buffer_len - bytes_valid;
        let ghost old_buf = self.buffer@;
        let ghost src = buffer@.subrange(start as int, start + n);
        let mut k: usize = 0;
        assert(src.subrange(0, 0) =~= Seq::<u8>::empty());
        assert(ring_write(old_buf, self.fill_ndx as int, Seq::<u8>::empty()) =~= old_buf);
        while k < n
            invariant
                k <= n <= len,
                n <= bytes_valid,
                start + bytes_valid == buffer@.len(),
                start + n <= buffer@.len(),
                buffer_len == buffer@.len(),
                src == buffer@.subrange(start as int, start + n),
                len == self.buffer@.len() == old_buf.len(),
                0 < len <= MAX_BUFFER_BYTES,
                old_buf == old(self).buffer@,
                self.fill_ndx == old(self).fill_ndx,
                self.bit_ndx == old(self).bit_ndx,
                self.valid_bits == old(self).valid_bits,
                self.mode == old(self).mode,
                0 <= self.fill_ndx < len,
                self.buffer@ == ring_write(old_buf, self.fill_ndx as int, src.subrange(0, k as int)),
            decreases n - k,
        {
            let at = (self.fill_ndx + k) % len;
            proof {
                lemma_ring_write_push(
                    old_buf,
                    self.fill_ndx as int,
                    src.subrange(0, k as int),
                    src[k as int],
                );
                assert(src.subrange(0, k as int).push(src[k as int]) =~= src.subrange(0, k + 1));
            }
            let byte = buffer[start + k];
            self.buffer.set(at, byte);
            k += 1;
        }
        assert(src.subrange(0, n as int) =~= src);
        self.fill_ndx = (self.fill_ndx + n) % len;
        self.valid_bits = self.valid_bits + (8 * n) as isize;
        bytes_valid - n
    }

    /// Moves the read position forward to the next byte boundary counted from
    /// `anchor`, the number of valid bits where the count starts.
    pub fn align(&mut self, anchor: isize)
        requires
            old(self).wf(),
            isize::MIN <= anchor - old(self)@.valid <= isize::MAX,
            old(self)@.can_skip(old(self)@.alignment_bits(anchor as int)),
        ensures
            final(self).wf(),
            final(self)@ == old(self)@.skip(old(self)@.alignment_bits(anchor as int)),
    {
        let phase = mod8(anchor - self.valid_bits);
        let bits: isize = if phase == 0 {
            0
        } else {
            8 - phase
        };
        proof {
            if phase != 0 {
                lemma_small_mod((8 - phase) as nat, 8);
            } else {
                lemma_small_mod(0, 8);
            }
        }
        self.push(bits);
    }
}

} // verus!

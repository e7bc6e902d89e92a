//! Single-bit access on the unsigned words that carry the flag fields.
//!
//! Bit `k` is counted from the least significant bit. Every flag accessor of
//! the packet flag words is specified through these functions.

use vstd::prelude::*;

verus! {

/// Bit `k` of the byte `w`.
pub open spec fn bit8(w: u8, k: u32) -> bool {
    (w >> k) & 1u8 == 1u8
}

/// The byte `w` with bit `k` cleared, then set when `v` holds.
pub open spec fn with_bit8(w: u8, k: u32, v: bool) -> u8 {
    if v {
        w | (1u8 << k)
    } else {
        w & !(1u8 << k)
    }
}

/// Bit `k` of the half-word `w`.
pub open spec fn bit16(w: u16, k: u32) -> bool {
    (w >> k) & 1u16 == 1u16
}

/// The half-word `w` with bit `k` cleared, then set when `v` holds.
pub open spec fn with_bit16(w: u16, k: u32, v: bool) -> u16 {
    if v {
        w | (1u16 << k)
    } else {
        w & !(1u16 << k)
    }
}

/// Bit `k` of the word `w`.
pub open spec fn bit32(w: u32, k: u32) -> bool {
    (w >> k) & 1u32 == 1u32
}

/// The word `w` with bit `k` cleared, then set when `v` holds.
pub open spec fn with_bit32(w: u32, k: u32, v: bool) -> u32 {
    if v {
        w | (1u32 << k)
    } else {
        w & !(1u32 << k)
    }
}

/// Reads bit `k` of `w`.
pub fn get_bit8(w: u8, k: u32) -> (b: bool)
    requires
        k < 8,
    ensures
        b == bit8(w, k),
{
    (w >> k) & 1u8 == 1u8
}

/// Writes `v` into bit `k` of `w`, as `(w & !(1 << k)) | ((v as u8) << k)`.
pub fn put_bit8(w: u8, k: u32, v: bool) -> (r: u8)
    requires
        k < 8,
    ensures
        r == with_bit8(w, k, v),
{
    let x: u8 = if v { 1u8 } else { 0u8 };
    let r: u8 = (w & !(1u8 << k)) | (x << k);
    assert(x <= 1 && k < 8 ==> (w & !(1u8 << k)) | (x << k) == if x == 1 {
        w | (1u8 << k)
    } else {
        w & !(1u8 << k)
    }) by (bit_vector);
    r
}

/// Reads bit `k` of `w`.
pub fn get_bit16(w: u16, k: u32) -> (b: bool)
    requires
        k < 16,
    ensures
        b == bit16(w, k),
{
    (w >> k) & 1u16 == 1u16
}

/// Writes `v` into bit `k` of `w`, as `(w & !(1 << k)) | ((v as u16) << k)`.
pub fn put_bit16(w: u16, k: u32, v: bool) -> (r: u16)
    requires
        k < 16,
    ensures
        r == with_bit16(w, k, v),
{
    let x: u16 = if v { 1u16 } else { 0u16 };
    let r: u16 = (w & !(1u16 << k)) | (x << k);
    assert(x <= 1 && k < 16 ==> (w & !(1u16 << k)) | (x << k) == if x == 1 {
        w | (1u16 << k)
    } else {
        w & !(1u16 << k)
    }) by (bit_vector);
    r
}

/// Reads bit `k` of `w`.
pub fn get_bit32(w: u32, k: u32) -> (b: bool)
    requires
        k < 32,
    ensures
        b == bit32(w, k),
{
    (w >> k) & 1u32 == 1u32
}

/// Writes `v` into bit `k` of `w`, as `(w & !(1 << k)) | ((v as u32) << k)`.
pub fn put_bit32(w: u32, k: u32, v: bool) -> (r: u32)
    requires
        k < 32,
    ensures
        r == with_bit32(w, k, v),
{
    let x: u32 = if v { 1u32 } else { 0u32 };
    let r: u32 = (w & !(1u32 << k)) | (x << k);
    assert(x <= 1 && k < 32 ==> (w & !(1u32 << k)) | (x << k) == if x == 1 {
        w | (1u32 << k)
    } else {
        w & !(1u32 << k)
    }) by (bit_vector);
    r
}

/// Reading a bit of a u8 word after writing one gives back the written value at
/// the written position and the old value at every other position.
pub proof fn lemma_bit8_after_write(w: u8, k: u32, j: u32, v: bool)
    requires
        k < 8,
        j < 8,
    ensures
        bit8(with_bit8(w, k, v), j) == if j == k {
            v
        } else {
            bit8(w, j)
        },
{
    assert(k < 8 && j < 8 ==> (((if v {
        w | (1u8 << k)
    } else {
        w & !(1u8 << k)
    }) >> j) & 1u8 == 1u8) == (if j == k {
        v
    } else {
        (w >> j) & 1u8 == 1u8
    })) by (bit_vector);
}

/// Writes into a u8 word: a second write to the same bit overrides the first,
/// writing a bit its own value changes nothing, and writes to different bits
/// commute.
pub proof fn lemma_with_bit8_laws(w: u8, k: u32, j: u32, a: bool, b: bool)
    requires
        k < 8,
        j < 8,
    ensures
        with_bit8(with_bit8(w, k, a), k, b) == with_bit8(w, k, b),
        with_bit8(w, k, bit8(w, k)) == w,
        j != k ==> with_bit8(with_bit8(w, k, a), j, b) == with_bit8(with_bit8(w, j, b), k, a),
{
    let wa = with_bit8(w, k, a);
    let wb = with_bit8(w, j, b);
    let wab = with_bit8(wa, j, b);
    let wba = with_bit8(wb, k, a);
    let wkb = with_bit8(wa, k, b);
    let wk = with_bit8(w, k, b);
    let own = with_bit8(w, k, bit8(w, k));
    assert(k < 8 && j < 8
        && wa == (if a { w | (1u8 << k) } else { w & !(1u8 << k) })
        && wb == (if b { w | (1u8 << j) } else { w & !(1u8 << j) })
        && wab == (if b { wa | (1u8 << j) } else { wa & !(1u8 << j) })
        && wba == (if a { wb | (1u8 << k) } else { wb & !(1u8 << k) })
        && wkb == (if b { wa | (1u8 << k) } else { wa & !(1u8 << k) })
        && wk == (if b { w | (1u8 << k) } else { w & !(1u8 << k) })
        && own == (if (w >> k) & 1u8 == 1u8 { w | (1u8 << k) } else { w & !(1u8 << k) })
        ==> wkb == wk && own == w && (j != k ==> wab == wba)) by (bit_vector);
}

/// Reading a bit of a u16 word after writing one gives back the written value at
/// the written position and the old value at every other position.
pub proof fn lemma_bit16_after_write(w: u16, k: u32, j: u32, v: bool)
    requires
        k < 16,
        j < 16,
    ensures
        bit16(with_bit16(w, k, v), j) == if j == k {
            v
        } else {
            bit16(w, j)
        },
{
    assert(k < 16 && j < 16 ==> (((if v {
        w | (1u16 << k)
    } else {
        w & !(1u16 << k)
    }) >> j) & 1u16 == 1u16) == (if j == k {
        v
    } else {
        (w >> j) & 1u16 == 1u16
    })) by (bit_vector);
}

/// Writes into a u16 word: a second write to the same bit overrides the first,
/// writing a bit its own value changes nothing, and writes to different bits
/// commute.
pub proof fn lemma_with_bit16_laws(w: u16, k: u32, j: u32, a: bool, b: bool)
    requires
        k < 16,
        j < 16,
    ensures
        with_bit16(with_bit16(w, k, a), k, b) == with_bit16(w, k, b),
        with_bit16(w, k, bit16(w, k)) == w,
        j != k ==> with_bit16(with_bit16(w, k, a), j, b) == with_bit16(with_bit16(w, j, b), k, a),
{
    let wa = with_bit16(w, k, a);
    let wb = with_bit16(w, j, b);
    let wab = with_bit16(wa, j, b);
    let wba = with_bit16(wb, k, a);
    let wkb = with_bit16(wa, k, b);
    let wk = with_bit16(w, k, b);
    let own = with_bit16(w, k, bit16(w, k));
    assert(k < 16 && j < 16
        && wa == (if a { w | (1u16 << k) } else { w & !(1u16 << k) })
        && wb == (if b { w | (1u16 << j) } else { w & !(1u16 << j) })
        && wab == (if b { wa | (1u16 << j) } else { wa & !(1u16 << j) })
        && wba == (if a { wb | (1u16 << k) } else { wb & !(1u16 << k) })
        && wkb == (if b { wa | (1u16 << k) } else { wa & !(1u16 << k) })
        && wk == (if b { w | (1u16 << k) } else { w & !(1u16 << k) })
        && own == (if (w >> k) & 1u16 == 1u16 { w | (1u16 << k) } else { w & !(1u16 << k) })
        ==> wkb == wk && own == w && (j != k ==> wab == wba)) by (bit_vector);
}

/// Reading a bit of a u32 word after writing one gives back the written value at
/// the written position and the old value at every other position.
pub proof fn lemma_bit32_after_write(w: u32, k: u32, j: u32, v: bool)
    requires
        k < 32,
        j < 32,
    ensures
        bit32(with_bit32(w, k, v), j) == if j == k {
            v
        } else {
            bit32(w, j)
        },
{
    assert(k < 32 && j < 32 ==> (((if v {
        w | (1u32 << k)
    } else {
        w & !(1u32 << k)
    }) >> j) & 1u32 == 1u32) == (if j == k {
        v
    } else {
        (w >> j) & 1u32 == 1u32
    })) by (bit_vector);
}

/// Writes into a u32 word: a second write to the same bit overrides the first,
/// writing a bit its own value changes nothing, and writes to different bits
/// commute.
pub proof fn lemma_with_bit32_laws(w: u32, k: u32, j: u32, a: bool, b: bool)
    requires
        k < 32,
        j < 32,
    ensures
        with_bit32(with_bit32(w, k, a), k, b) == with_bit32(w, k, b),
        with_bit32(w, k, bit32(w, k)) == w,
        j != k ==> with_bit32(with_bit32(w, k, a), j, b) == with_bit32(with_bit32(w, j, b), k, a),
{
    let wa = with_bit32(w, k, a);
    let wb = with_bit32(w, j, b);
    let wab = with_bit32(wa, j, b);
    let wba = with_bit32(wb, k, a);
    let wkb = with_bit32(wa, k, b);
    let wk = with_bit32(w, k, b);
    let own = with_bit32(w, k, bit32(w, k));
    assert(k < 32 && j < 32
        && wa == (if a { w | (1u32 << k) } else { w & !(1u32 << k) })
        && wb == (if b { w | (1u32 << j) } else { w & !(1u32 << j) })
        && wab == (if b { wa | (1u32 << j) } else { wa & !(1u32 << j) })
        && wba == (if a { wb | (1u32 << k) } else { wb & !(1u32 << k) })
        && wkb == (if b { wa | (1u32 << k) } else { wa & !(1u32 << k) })
        && wk == (if b { w | (1u32 << k) } else { w & !(1u32 << k) })
        && own == (if (w >> k) & 1u32 == 1u32 { w | (1u32 << k) } else { w & !(1u32 << k) })
        ==> wkb == wk && own == w && (j != k ==> wab == wba)) by (bit_vector);
}

/// Reading bit `k` of a u8 word is testing it against the mask `1 << k`, as
/// the generated C getters do.
pub proof fn lemma_bit8_is_mask_test(w: u8, k: u32)
    requires
        k < 8,
    ensures
        bit8(w, k) == (w & (1u8 << k) != 0u8),
{
    assert(k < 8 ==> (((w >> k) & 1u8 == 1u8) == (w & (1u8 << k) != 0u8))) by (bit_vector);
}

/// Reading bit `k` of a u16 word is testing it against the mask `1 << k`, as
/// the generated C getters do.
pub proof fn lemma_bit16_is_mask_test(w: u16, k: u32)
    requires
        k < 16,
    ensures
        bit16(w, k) == (w & (1u16 << k) != 0u16),
{
    assert(k < 16 ==> (((w >> k) & 1u16 == 1u16) == (w & (1u16 << k) != 0u16))) by (bit_vector);
}

/// Reading bit `k` of a u32 word is testing it against the mask `1 << k`, as
/// the generated C getters do.
pub proof fn lemma_bit32_is_mask_test(w: u32, k: u32)
    requires
        k < 32,
    ensures
        bit32(w, k) == (w & (1u32 << k) != 0u32),
{
    assert(k < 32 ==> (((w >> k) & 1u32 == 1u32) == (w & (1u32 << k) != 0u32))) by (bit_vector);
}

/// Bit `k` of the double word `w`.
pub open spec fn bit64(w: u64, k: u32) -> bool {
    (w >> k) & 1u64 == 1u64
}

/// The mask of the low `bits` bits of a u8 word.
pub open spec fn mask8(bits: u32) -> u8 {
    if bits >= 8 {
        u8::MAX
    } else {
        ((1u8 << bits) - 1u8) as u8
    }
}

/// The `bits`-wide field of the u8 word `w` that starts at bit `off`.
pub open spec fn field8(w: u8, off: u32, bits: u32) -> u8 {
    (w >> off) & mask8(bits)
}

/// The u8 word `w` with the `bits`-wide field at bit `off` replaced by the low
/// `bits` bits of `v`.
pub open spec fn with_field8(w: u8, off: u32, bits: u32, v: u8) -> u8 {
    (w & !(mask8(bits) << off)) | ((v & mask8(bits)) << off)
}

/// The mask of the low `bits` bits of a u8 word.
fn low_mask8(bits: u32) -> (m: u8)
    ensures
        m == mask8(bits),
{
    if bits >= 8 {
        u8::MAX
    } else {
        assert(bits < 8 ==> 1u8 <= (1u8 << bits)) by (bit_vector);
        (1u8 << bits) - 1u8
    }
}

/// Reads the `bits`-wide field at bit `off` of `w`.
pub fn get_field8(w: u8, off: u32, bits: u32) -> (r: u8)
    requires
        off < 8,
        0 < bits,
        off + bits <= 8,
    ensures
        r == field8(w, off, bits),
{
    let m = low_mask8(bits);
    (w >> off) & m
}

/// Writes the low `bits` bits of `v` into the `bits`-wide field at bit `off`
/// of `w`.
pub fn put_field8(w: u8, off: u32, bits: u32, v: u8) -> (r: u8)
    requires
        off < 8,
        0 < bits,
        off + bits <= 8,
    ensures
        r == with_field8(w, off, bits, v),
{
    let m = low_mask8(bits);
    (w & !(m << off)) | ((v & m) << off)
}

/// Reading a field of a u8 word after writing it gives back the written value
/// cut to the field's width, and every bit outside the field keeps its old
/// value.
pub proof fn lemma_field8_after_write(w: u8, off: u32, bits: u32, v: u8, j: u32)
    requires
        off < 8,
        0 < bits,
        off + bits <= 8,
        j < 8,
    ensures
        field8(with_field8(w, off, bits, v), off, bits) == v & mask8(bits),
        (j < off || j >= off + bits) ==> bit8(with_field8(w, off, bits, v), j) == bit8(w, j),
{
    let m = mask8(bits);
    let r = with_field8(w, off, bits, v);
    assert(off < 8 && 0 < bits && off + bits <= 8
        && m == (if bits >= 8 { u8::MAX } else { ((1u8 << bits) - 1u8) as u8 })
        && r == (w & !(m << off)) | ((v & m) << off)
        ==> (r >> off) & m == v & m) by (bit_vector);
    assert(off < 8 && 0 < bits && off + bits <= 8 && j < 8 && (j < off || j >= off + bits)
        && m == (if bits >= 8 { u8::MAX } else { ((1u8 << bits) - 1u8) as u8 })
        && r == (w & !(m << off)) | ((v & m) << off)
        ==> (((r >> j) & 1u8 == 1u8) == ((w >> j) & 1u8 == 1u8))) by (bit_vector);
}

/// The mask of the low `bits` bits of a u16 word.
pub open spec fn mask16(bits: u32) -> u16 {
    if bits >= 16 {
        u16::MAX
    } else {
        ((1u16 << bits) - 1u16) as u16
    }
}

/// The `bits`-wide field of the u16 word `w` that starts at bit `off`.
pub open spec fn field16(w: u16, off: u32, bits: u32) -> u16 {
    (w >> off) & mask16(bits)
}

/// The u16 word `w` with the `bits`-wide field at bit `off` replaced by the low
/// `bits` bits of `v`.
pub open spec fn with_field16(w: u16, off: u32, bits: u32, v: u16) -> u16 {
    (w & !(mask16(bits) << off)) | ((v & mask16(bits)) << off)
}

/// The mask of the low `bits` bits of a u16 word.
fn low_mask16(bits: u32) -> (m: u16)
    ensures
        m == mask16(bits),
{
    if bits >= 16 {
        u16::MAX
    } else {
        assert(bits < 16 ==> 1u16 <= (1u16 << bits)) by (bit_vector);
        (1u16 << bits) - 1u16
    }
}

/// Reads the `bits`-wide field at bit `off` of `w`.
pub fn get_field16(w: u16, off: u32, bits: u32) -> (r: u16)
    requires
        off < 16,
        0 < bits,
        off + bits <= 16,
    ensures
        r == field16(w, off, bits),
{
    let m = low_mask16(bits);
    (w >> off) & m
}

/// Writes the low `bits` bits of `v` into the `bits`-wide field at bit `off`
/// of `w`.
pub fn put_field16(w: u16, off: u32, bits: u32, v: u16) -> (r: u16)
    requires
        off < 16,
        0 < bits,
        off + bits <= 16,
    ensures
        r == with_field16(w, off, bits, v),
{
    let m = low_mask16(bits);
    (w & !(m << off)) | ((v & m) << off)
}

/// Reading a field of a u16 word after writing it gives back the written value
/// cut to the field's width, and every bit outside the field keeps its old
/// value.
pub proof fn lemma_field16_after_write(w: u16, off: u32, bits: u32, v: u16, j: u32)
    requires
        off < 16,
        0 < bits,
        off + bits <= 16,
        j < 16,
    ensures
        field16(with_field16(w, off, bits, v), off, bits) == v & mask16(bits),
        (j < off || j >= off + bits) ==> bit16(with_field16(w, off, bits, v), j) == bit16(w, j),
{
    let m = mask16(bits);
    let r = with_field16(w, off, bits, v);
    assert(off < 16 && 0 < bits && off + bits <= 16
        && m == (if bits >= 16 { u16::MAX } else { ((1u16 << bits) - 1u16) as u16 })
        && r == (w & !(m << off)) | ((v & m) << off)
        ==> (r >> off) & m == v & m) by (bit_vector);
    assert(off < 16 && 0 < bits && off + bits <= 16 && j < 16 && (j < off || j >= off + bits)
        && m == (if bits >= 16 { u16::MAX } else { ((1u16 << bits) - 1u16) as u16 })
        && r == (w & !(m << off)) | ((v & m) << off)
        ==> (((r >> j) & 1u16 == 1u16) == ((w >> j) & 1u16 == 1u16))) by (bit_vector);
}

/// The mask of the low `bits` bits of a u32 word.
pub open spec fn mask32(bits: u32) -> u32 {
    if bits >= 32 {
        u32::MAX
    } else {
        ((1u32 << bits) - 1u32) as u32
    }
}

/// The `bits`-wide field of the u32 word `w` that starts at bit `off`.
pub open spec fn field32(w: u32, off: u32, bits: u32) -> u32 {
    (w >> off) & mask32(bits)
}

/// The u32 word `w` with the `bits`-wide field at bit `off` replaced by the low
/// `bits` bits of `v`.
pub open spec fn with_field32(w: u32, off: u32, bits: u32, v: u32) -> u32 {
    (w & !(mask32(bits) << off)) | ((v & mask32(bits)) << off)
}

/// The mask of the low `bits` bits of a u32 word.
fn low_mask32(bits: u32) -> (m: u32)
    ensures
        m == mask32(bits),
{
    if bits >= 32 {
        u32::MAX
    } else {
        assert(bits < 32 ==> 1u32 <= (1u32 << bits)) by (bit_vector);
        (1u32 << bits) - 1u32
    }
}

/// Reads the `bits`-wide field at bit `off` of `w`.
pub fn get_field32(w: u32, off: u32, bits: u32) -> (r: u32)
    requires
        off < 32,
        0 < bits,
        off + bits <= 32,
    ensures
        r == field32(w, off, bits),
{
    let m = low_mask32(bits);
    (w >> off) & m
}

/// Writes the low `bits` bits of `v` into the `bits`-wide field at bit `off`
/// of `w`.
pub fn put_field32(w: u32, off: u32, bits: u32, v: u32) -> (r: u32)
    requires
        off < 32,
        0 < bits,
        off + bits <= 32,
    ensures
        r == with_field32(w, off, bits, v),
{
    let m = low_mask32(bits);
    (w & !(m << off)) | ((v & m) << off)
}

/// Reading a field of a u32 word after writing it gives back the written value
/// cut to the field's width, and every bit outside the field keeps its old
/// value.
pub proof fn lemma_field32_after_write(w: u32, off: u32, bits: u32, v: u32, j: u32)
    requires
        off < 32,
        0 < bits,
        off + bits <= 32,
        j < 32,
    ensures
        field32(with_field32(w, off, bits, v), off, bits) == v & mask32(bits),
        (j < off || j >= off + bits) ==> bit32(with_field32(w, off, bits, v), j) == bit32(w, j),
{
    let m = mask32(bits);
    let r = with_field32(w, off, bits, v);
    assert(off < 32 && 0 < bits && off + bits <= 32
        && m == (if bits >= 32 { u32::MAX } else { ((1u32 << bits) - 1u32) as u32 })
        && r == (w & !(m << off)) | ((v & m) << off)
        ==> (r >> off) & m == v & m) by (bit_vector);
    assert(off < 32 && 0 < bits && off + bits <= 32 && j < 32 && (j < off || j >= off + bits)
        && m == (if bits >= 32 { u32::MAX } else { ((1u32 << bits) - 1u32) as u32 })
        && r == (w & !(m << off)) | ((v & m) << off)
        ==> (((r >> j) & 1u32 == 1u32) == ((w >> j) & 1u32 == 1u32))) by (bit_vector);
}

/// The mask of the low `bits` bits of a u64 word.
pub open spec fn mask64(bits: u32) -> u64 {
    if bits >= 64 {
        u64::MAX
    } else {
        ((1u64 << bits) - 1u64) as u64
    }
}

/// The `bits`-wide field of the u64 word `w` that starts at bit `off`.
pub open spec fn field64(w: u64, off: u32, bits: u32) -> u64 {
    (w >> off) & mask64(bits)
}

/// The u64 word `w` with the `bits`-wide field at bit `off` replaced by the low
/// `bits` bits of `v`.
pub open spec fn with_field64(w: u64, off: u32, bits: u32, v: u64) -> u64 {
    (w & !(mask64(bits) << off)) | ((v & mask64(bits)) << off)
}

/// The mask of the low `bits` bits of a u64 word.
fn low_mask64(bits: u32) -> (m: u64)
    ensures
        m == mask64(bits),
{
    if bits >= 64 {
        u64::MAX
    } else {
        assert(bits < 64 ==> 1u64 <= (1u64 << bits)) by (bit_vector);
        (1u64 << bits) - 1u64
    }
}

/// Reads the `bits`-wide field at bit `off` of `w`.
pub fn get_field64(w: u64, off: u32, bits: u32) -> (r: u64)
    requires
        off < 64,
        0 < bits,
        off + bits <= 64,
    ensures
        r == field64(w, off, bits),
{
    let m = low_mask64(bits);
    (w >> off) & m
}

/// Writes the low `bits` bits of `v` into the `bits`-wide field at bit `off`
/// of `w`.
pub fn put_field64(w: u64, off: u32, bits: u32, v: u64) -> (r: u64)
    requires
        off < 64,
        0 < bits,
        off + bits <= 64,
    ensures
        r == with_field64(w, off, bits, v),
{
    let m = low_mask64(bits);
    (w & !(m << off)) | ((v & m) << off)
}

/// Reading a field of a u64 word after writing it gives back the written value
/// cut to the field's width, and every bit outside the field keeps its old
/// value.
pub proof fn lemma_field64_after_write(w: u64, off: u32, bits: u32, v: u64, j: u32)
    requires
        off < 64,
        0 < bits,
        off + bits <= 64,
        j < 64,
    ensures
        field64(with_field64(w, off, bits, v), off, bits) == v & mask64(bits),
        (j < off || j >= off + bits) ==> bit64(with_field64(w, off, bits, v), j) == bit64(w, j),
{
    let m = mask64(bits);
    let r = with_field64(w, off, bits, v);
    assert(off < 64 && 0 < bits && off + bits <= 64
        && m == (if bits >= 64 { u64::MAX } else { ((1u64 << bits) - 1u64) as u64 })
        && r == (w & !(m << off)) | ((v & m) << off)
        ==> (r >> off) & m == v & m) by (bit_vector);
    assert(off < 64 && 0 < bits && off + bits <= 64 && j < 64 && (j < off || j >= off + bits)
        && m == (if bits >= 64 { u64::MAX } else { ((1u64 << bits) - 1u64) as u64 })
        && r == (w & !(m << off)) | ((v & m) << off)
        ==> (((r >> j) & 1u64 == 1u64) == ((w >> j) & 1u64 == 1u64))) by (bit_vector);
}

/// Writing a field of a u8 word leaves every field that does not overlap it
/// unchanged.
pub proof fn lemma_field8_disjoint_write(w: u8, o1: u32, b1: u32, v: u8, o2: u32, b2: u32)
    requires
        o1 < 8,
        0 < b1,
        o1 + b1 <= 8,
        o2 < 8,
        0 < b2,
        o2 + b2 <= 8,
        o1 + b1 <= o2 || o2 + b2 <= o1,
    ensures
        field8(with_field8(w, o1, b1, v), o2, b2) == field8(w, o2, b2),
{
    let m1 = mask8(b1);
    let m2 = mask8(b2);
    let r = with_field8(w, o1, b1, v);
    assert(o1 < 8 && 0 < b1 && o1 + b1 <= 8 && o2 < 8 && 0 < b2 && o2 + b2 <= 8
        && (o1 + b1 <= o2 || o2 + b2 <= o1)
        && m1 == (if b1 >= 8 { u8::MAX } else { ((1u8 << b1) - 1u8) as u8 })
        && m2 == (if b2 >= 8 { u8::MAX } else { ((1u8 << b2) - 1u8) as u8 })
        && r == (w & !(m1 << o1)) | ((v & m1) << o1)
        ==> (r >> o2) & m2 == (w >> o2) & m2) by (bit_vector);
}

/// Writing a field of a u16 word leaves every field that does not overlap it
/// unchanged.
pub proof fn lemma_field16_disjoint_write(w: u16, o1: u32, b1: u32, v: u16, o2: u32, b2: u32)
    requires
        o1 < 16,
        0 < b1,
        o1 + b1 <= 16,
        o2 < 16,
        0 < b2,
        o2 + b2 <= 16,
        o1 + b1 <= o2 || o2 + b2 <= o1,
    ensures
        field16(with_field16(w, o1, b1, v), o2, b2) == field16(w, o2, b2),
{
    let m1 = mask16(b1);
    let m2 = mask16(b2);
    let r = with_field16(w, o1, b1, v);
    assert(o1 < 16 && 0 < b1 && o1 + b1 <= 16 && o2 < 16 && 0 < b2 && o2 + b2 <= 16
        && (o1 + b1 <= o2 || o2 + b2 <= o1)
        && m1 == (if b1 >= 16 { u16::MAX } else { ((1u16 << b1) - 1u16) as u16 })
        && m2 == (if b2 >= 16 { u16::MAX } else { ((1u16 << b2) - 1u16) as u16 })
        && r == (w & !(m1 << o1)) | ((v & m1) << o1)
        ==> (r >> o2) & m2 == (w >> o2) & m2) by (bit_vector);
}

/// Writing a field of a u32 word leaves every field that does not overlap it
/// unchanged.
pub proof fn lemma_field32_disjoint_write(w: u32, o1: u32, b1: u32, v: u32, o2: u32, b2: u32)
    requires
        o1 < 32,
        0 < b1,
        o1 + b1 <= 32,
        o2 < 32,
        0 < b2,
        o2 + b2 <= 32,
        o1 + b1 <= o2 || o2 + b2 <= o1,
    ensures
        field32(with_field32(w, o1, b1, v), o2, b2) == field32(w, o2, b2),
{
    let m1 = mask32(b1);
    let m2 = mask32(b2);
    let r = with_field32(w, o1, b1, v);
    assert(o1 < 32 && 0 < b1 && o1 + b1 <= 32 && o2 < 32 && 0 < b2 && o2 + b2 <= 32
        && (o1 + b1 <= o2 || o2 + b2 <= o1)
        && m1 == (if b1 >= 32 { u32::MAX } else { ((1u32 << b1) - 1u32) as u32 })
        && m2 == (if b2 >= 32 { u32::MAX } else { ((1u32 << b2) - 1u32) as u32 })
        && r == (w & !(m1 << o1)) | ((v & m1) << o1)
        ==> (r >> o2) & m2 == (w >> o2) & m2) by (bit_vector);
}

/// Writing a field of a u64 word leaves every field that does not overlap it
/// unchanged.
pub proof fn lemma_field64_disjoint_write(w: u64, o1: u32, b1: u32, v: u64, o2: u32, b2: u32)
    requires
        o1 < 64,
        0 < b1,
        o1 + b1 <= 64,
        o2 < 64,
        0 < b2,
        o2 + b2 <= 64,
        o1 + b1 <= o2 || o2 + b2 <= o1,
    ensures
        field64(with_field64(w, o1, b1, v), o2, b2) == field64(w, o2, b2),
{
    let m1 = mask64(b1);
    let m2 = mask64(b2);
    let r = with_field64(w, o1, b1, v);
    assert(o1 < 64 && 0 < b1 && o1 + b1 <= 64 && o2 < 64 && 0 < b2 && o2 + b2 <= 64
        && (o1 + b1 <= o2 || o2 + b2 <= o1)
        && m1 == (if b1 >= 64 { u64::MAX } else { ((1u64 << b1) - 1u64) as u64 })
        && m2 == (if b2 >= 64 { u64::MAX } else { ((1u64 << b2) - 1u64) as u64 })
        && r == (w & !(m1 << o1)) | ((v & m1) << o1)
        ==> (r >> o2) & m2 == (w >> o2) & m2) by (bit_vector);
}

/// A flag is a one-bit field: reading it is reading that field as 1, and
/// writing it is writing 1 or 0 into that field.
pub proof fn lemma_bit8_is_field(w: u8, k: u32, v: bool)
    requires
        k < 8,
    ensures
        bit8(w, k) == (field8(w, k, 1) == 1u8),
        with_bit8(w, k, v) == with_field8(w, k, 1, if v { 1u8 } else { 0u8 }),
{
    let m = mask8(1);
    let x: u8 = if v { 1u8 } else { 0u8 };
    let r = with_bit8(w, k, v);
    assert(m == 1u8) by (bit_vector)
        requires
            m == ((1u8 << 1u32) - 1u8) as u8,
    ;
    assert(k < 8 && m == 1u8 && x <= 1u8
        && r == (if x == 1u8 { w | (1u8 << k) } else { w & !(1u8 << k) })
        ==> r == (w & !(m << k)) | ((x & m) << k)) by (bit_vector);
}

/// A flag is a one-bit field: reading it is reading that field as 1, and
/// writing it is writing 1 or 0 into that field.
pub proof fn lemma_bit16_is_field(w: u16, k: u32, v: bool)
    requires
        k < 16,
    ensures
        bit16(w, k) == (field16(w, k, 1) == 1u16),
        with_bit16(w, k, v) == with_field16(w, k, 1, if v { 1u16 } else { 0u16 }),
{
    let m = mask16(1);
    let x: u16 = if v { 1u16 } else { 0u16 };
    let r = with_bit16(w, k, v);
    assert(m == 1u16) by (bit_vector)
        requires
            m == ((1u16 << 1u32) - 1u16) as u16,
    ;
    assert(k < 16 && m == 1u16 && x <= 1u16
        && r == (if x == 1u16 { w | (1u16 << k) } else { w & !(1u16 << k) })
        ==> r == (w & !(m << k)) | ((x & m) << k)) by (bit_vector);
}

/// A flag is a one-bit field: reading it is reading that field as 1, and
/// writing it is writing 1 or 0 into that field.
pub proof fn lemma_bit32_is_field(w: u32, k: u32, v: bool)
    requires
        k < 32,
    ensures
        bit32(w, k) == (field32(w, k, 1) == 1u32),
        with_bit32(w, k, v) == with_field32(w, k, 1, if v { 1u32 } else { 0u32 }),
{
    let m = mask32(1);
    let x: u32 = if v { 1u32 } else { 0u32 };
    let r = with_bit32(w, k, v);
    assert(m == 1u32) by (bit_vector)
        requires
            m == ((1u32 << 1u32) - 1u32) as u32,
    ;
    assert(k < 32 && m == 1u32 && x <= 1u32
        && r == (if x == 1u32 { w | (1u32 << k) } else { w & !(1u32 << k) })
        ==> r == (w & !(m << k)) | ((x & m) << k)) by (bit_vector);
}

} // verus!

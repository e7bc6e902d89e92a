//! Layout of a flag-word declaration: each field gets a bit offset, fields are
//! packed least-significant-bit first in declaration order, and the widths must
//! add up to the width of the base integer.

use crate::decl::{
    bits_for_type, field_bits, field_decl_views, spec_field_bits, spec_type_bits, FieldDeclView,
    StructDecl, StructDeclView,
};
use crate::bits::{
    bit16, bit32, bit8, field16, field32, field64, field8, lemma_bit16_is_field,
    lemma_bit32_is_field, lemma_bit8_is_field, lemma_field16_after_write,
    lemma_field16_disjoint_write, lemma_field32_after_write, lemma_field32_disjoint_write,
    lemma_field64_after_write, lemma_field64_disjoint_write, lemma_field8_after_write,
    lemma_field8_disjoint_write, mask16, mask32, mask64, mask8, with_bit16, with_bit32, with_bit8,
    with_field16, with_field32, with_field64, with_field8,
};
use crate::text::str_equals;
use vstd::prelude::*;

verus! {

/// Why a flag-word declaration has no layout.
#[derive(Clone, Copy, Debug, PartialEq, Eq, Structural)]
pub enum WireBitfieldError {
    /// The base type is not `u8`, `u16`, `u32` or `u64`.
    UnsupportedBaseType,
    /// The struct does not have named fields.
    UnnamedFields,
    /// The field at this position has no `bits` attribute and its type has no
    /// natural width (or its `bits` attribute says 0).
    UnknownWidth { field: usize },
    /// The widths of the fields add up to `used` bits, not the `total` of the
    /// base type.
    WidthMismatch { used: u32, total: u32 },
}

/// Where a field sits in the word.
#[derive(Clone, Copy, Debug, PartialEq, Eq, Structural)]
pub struct FieldPlan {
    /// Position of the field's lowest bit.
    pub offset: u32,
    /// Number of bits of the field.
    pub bits: u32,
}

/// Width in bits of a supported base type name.
pub open spec fn spec_base_bits(t: Seq<char>) -> Option<u32> {
    if t == "u8"@ {
        Some(8)
    } else if t == "u16"@ {
        Some(16)
    } else if t == "u32"@ {
        Some(32)
    } else if t == "u64"@ {
        Some(64)
    } else {
        None
    }
}

/// The sum of the widths of the first `n` fields.
pub open spec fn width_sum(fields: Seq<FieldDeclView>, n: int) -> int
    decreases n,
{
    if n <= 0 || n > fields.len() {
        0
    } else {
        width_sum(fields, n - 1) + spec_field_bits(fields[n - 1])
    }
}

/// The position of the first field of width 0 among the first `n` fields.
pub open spec fn first_zero_width(fields: Seq<FieldDeclView>, n: int) -> Option<int>
    decreases n,
{
    if n <= 0 || n > fields.len() {
        None
    } else {
        match first_zero_width(fields, n - 1) {
            Some(i) => Some(i),
            None => if spec_field_bits(fields[n - 1]) == 0 {
                Some(n - 1)
            } else {
                None
            },
        }
    }
}

/// The layout of a declaration with the given base type, or why it has none.
pub open spec fn spec_plan(base_type: Seq<char>, decl: StructDeclView) -> Result<Seq<FieldPlan>, WireBitfieldError> {
    match spec_base_bits(base_type) {
        None => Err(WireBitfieldError::UnsupportedBaseType),
        Some(total) => match decl.named_fields {
            None => Err(WireBitfieldError::UnnamedFields),
            Some(fs) => {
                match first_zero_width(fs, fs.len() as int) {
                    Some(i) => Err(WireBitfieldError::UnknownWidth { field: i as usize }),
                    None => if width_sum(fs, fs.len() as int) != total {
                        Err(
                            WireBitfieldError::WidthMismatch {
                                used: width_sum(fs, fs.len() as int) as u32,
                                total,
                            },
                        )
                    } else {
                        Ok(
                            Seq::new(
                                fs.len(),
                                |i: int|
                                    FieldPlan {
                                        offset: width_sum(fs, i) as u32,
                                        bits: spec_field_bits(fs[i]),
                                    },
                            ),
                        )
                    },
                }
            },
        },
    }
}

/// The widths of the first `n` fields add up to no more than those of the
/// first `m`, for `n <= m`.
pub proof fn lemma_width_sum_monotone(fields: Seq<FieldDeclView>, n: int, m: int)
    requires
        0 <= n <= m <= fields.len(),
    ensures
        width_sum(fields, n) <= width_sum(fields, m),
    decreases m - n,
{
    if n < m {
        lemma_width_sum_monotone(fields, n, m - 1);
    }
}

/// Whether the declaration can be laid out: the number of bits of the base
/// type, or `None` when it is not `u8`, `u16`, `u32` or `u64`.
pub fn base_bits(base_type: &str) -> (r: Option<u32>)
    ensures
        r == spec_base_bits(base_type@),
{
    if str_equals(base_type, "u8") {
        Some(8)
    } else if str_equals(base_type, "u16") {
        Some(16)
    } else if str_equals(base_type, "u32") {
        Some(32)
    } else if str_equals(base_type, "u64") {
        Some(64)
    } else {
        None
    }
}

/// The natural width of a field type name: 1 for `bool`, the width of the
/// integer types, 0 for anything else.
pub fn default_bits(type_str: &str) -> (r: u32)
    ensures
        r == spec_type_bits(type_str@),
{
    bits_for_type(type_str)
}

/// Lays out a flag-word declaration over the given base type: the offset and
/// width of every field, in declaration order, or the first reason the
/// declaration is refused (an unsupported base type, unnamed fields, a field
/// of unknown width, widths that do not add up to the base type's width).
pub fn plan_wire_bitfield(base_type: &str, decl: &StructDecl) -> (r: Result<Vec<FieldPlan>, WireBitfieldError>)
    requires
        spec_base_bits(base_type@) is Some && decl@.named_fields is Some && first_zero_width(
            decl@.named_fields->0,
            decl@.named_fields->0.len() as int,
        ) is None ==> width_sum(decl@.named_fields->0, decl@.named_fields->0.len() as int)
            <= u32::MAX,
    ensures
        match (r, spec_plan(base_type@, decl@)) {
            (Ok(p), Ok(q)) => p@ == q,
            (Err(e), Err(f)) => e == f,
            _ => false,
        },
{
    let total = match base_bits(base_type) {
        Some(t) => t,
        None => {
            return Err(WireBitfieldError::UnsupportedBaseType);
        },
    };
    let fields = match &decl.named_fields {
        Some(f) => f,
        None => {
            return Err(WireBitfieldError::UnnamedFields);
        },
    };
    let ghost fs = field_decl_views(fields@);
    let n = fields.len();
    let mut widths: Vec<u32> = Vec::new();
    let mut i: usize = 0;
    while i < n
        invariant
            n == fs.len(),
            fs == field_decl_views(fields@),
            decl@.named_fields is Some,
            decl@.named_fields->0 == fs,
            spec_base_bits(base_type@) == Some(total),
            i <= n,
            widths@.len() == i,
            forall|j: int| 0 <= j < i ==> widths@[j] == spec_field_bits(#[trigger] fs[j]),
            first_zero_width(fs, i as int) is None,
        decreases n - i,
    {
        let w = field_bits(&fields[i]);
        assert(fs[i as int] == fields@[i as int]@);
        if w == 0 {
            assert(first_zero_width(fs, i + 1) == Some(i as int));
            proof {
                lemma_first_zero_persists(fs, i + 1, n as int);
            }
            return Err(WireBitfieldError::UnknownWidth { field: i });
        }
        widths.push(w);
        i = i + 1;
    }
    let mut plan: Vec<FieldPlan> = Vec::new();
    let mut used: u32 = 0;
    let mut k: usize = 0;
    while k < n
        invariant
            n == fs.len(),
            widths@.len() == n,
            forall|j: int| 0 <= j < n ==> widths@[j] == spec_field_bits(#[trigger] fs[j]),
            width_sum(fs, n as int) <= u32::MAX,
            k <= n,
            used == width_sum(fs, k as int),
            plan@.len() == k,
            forall|j: int|
                0 <= j < k ==> #[trigger] plan@[j] == (FieldPlan {
                    offset: width_sum(fs, j) as u32,
                    bits: spec_field_bits(fs[j]),
                }),
        decreases n - k,
    {
        proof {
            lemma_width_sum_monotone(fs, k + 1, n as int);
        }
        plan.push(FieldPlan { offset: used, bits: widths[k] });
        used = used + widths[k];
        k = k + 1;
    }
    if used != total {
        return Err(WireBitfieldError::WidthMismatch { used, total });
    }
    assert(plan@ =~= Seq::new(
        fs.len(),
        |i: int| FieldPlan { offset: width_sum(fs, i) as u32, bits: spec_field_bits(fs[i]) },
    ));
    Ok(plan)
}

/// Once a field of width 0 has been found among the first `n` fields, it is
/// also the first among the first `m`, for `n <= m`.
proof fn lemma_first_zero_persists(fields: Seq<FieldDeclView>, n: int, m: int)
    requires
        0 <= n <= m <= fields.len(),
        first_zero_width(fields, n) is Some,
    ensures
        first_zero_width(fields, m) == first_zero_width(fields, n),
    decreases m - n,
{
    if n < m {
        lemma_first_zero_persists(fields, n, m - 1);
    }
}

/// A layout packs the fields without gaps or overlap: the first field starts
/// at bit 0, each next field starts where the previous one ends, every field
/// has at least one bit, and the last field ends at the width of the base
/// type.
pub proof fn lemma_plan_tiles(base_type: Seq<char>, decl: StructDeclView)
    requires
        spec_plan(base_type, decl) is Ok,
    ensures
        ({
            let p = spec_plan(base_type, decl)->Ok_0;
            let total = spec_base_bits(base_type)->0;
            &&& p.len() > 0 ==> p[0].offset == 0
            &&& forall|i: int| 0 <= i < p.len() ==> #[trigger] p[i].bits > 0
            &&& forall|i: int| 0 <= i < p.len() - 1 ==> #[trigger] p[i + 1].offset == p[i].offset + p[i].bits
            &&& p.len() > 0 ==> p[p.len() - 1].offset + p[p.len() - 1].bits == total
            &&& p.len() == 0 ==> total == 0
        }),
{
    let fs = decl.named_fields->0;
    let n = fs.len() as int;
    let total = spec_base_bits(base_type)->0;
    assert forall|i: int| 0 <= i < n implies spec_field_bits(#[trigger] fs[i]) > 0 by {
        lemma_no_zero_below(fs, i + 1, n);
    }
    assert forall|i: int| 0 <= i <= n implies 0 <= #[trigger] width_sum(fs, i) <= total by {
        lemma_width_sum_monotone(fs, i, n);
        lemma_width_sum_monotone(fs, 0, i);
    }
    let p = spec_plan(base_type, decl)->Ok_0;
    assert forall|i: int| 0 <= i < p.len() - 1 implies #[trigger] p[i + 1].offset == p[i].offset + p[i].bits by {
        assert(0 <= width_sum(fs, i) <= total);
        assert(0 <= width_sum(fs, i + 1) <= total);
    }
    if n > 0 {
        assert(0 <= width_sum(fs, n - 1) <= total);
    }
}

/// When no field of width 0 is among the first `m` fields, none is among the
/// first `n`, for `n <= m`.
proof fn lemma_no_zero_below(fields: Seq<FieldDeclView>, n: int, m: int)
    requires
        0 <= n <= m <= fields.len(),
        first_zero_width(fields, m) is None,
    ensures
        first_zero_width(fields, n) is None,
    decreases m - n,
{
    if n < m {
        lemma_no_zero_below(fields, n, m - 1);
    }
}

/// In a layout, every field lies inside the base word and an earlier field
/// ends no later than a later one begins, so no two fields share a bit.
pub proof fn lemma_plan_fields_apart(base_type: Seq<char>, decl: StructDeclView, i: int, j: int)
    requires
        spec_plan(base_type, decl) is Ok,
        0 <= i < spec_plan(base_type, decl)->Ok_0.len(),
        0 <= j < spec_plan(base_type, decl)->Ok_0.len(),
    ensures
        ({
            let p = spec_plan(base_type, decl)->Ok_0;
            let total = spec_base_bits(base_type)->0;
            &&& 0 < p[i].bits
            &&& p[i].offset + p[i].bits <= total
            &&& i < j ==> p[i].offset + p[i].bits <= p[j].offset
        }),
{
    let fs = decl.named_fields->0;
    let n = fs.len() as int;
    let total = spec_base_bits(base_type)->0;
    lemma_no_zero_below(fs, i + 1, n);
    lemma_width_sum_monotone(fs, 0, i);
    lemma_width_sum_monotone(fs, i + 1, n);
    if i < j {
        lemma_width_sum_monotone(fs, i + 1, j);
        lemma_width_sum_monotone(fs, 0, j);
        lemma_width_sum_monotone(fs, j, n);
    }
}

/// Writing a field of a `u8` flag word at the place its layout gives it: the
/// field then reads back the written value cut to its width, and every other
/// field of the layout reads as before. A one-bit field is a flag: setting it
/// to `b` reads back `b` and leaves every other field as it was.
pub proof fn lemma_planned_write8(base_type: Seq<char>, decl: StructDeclView, w: u8, v: u8, b: bool, i: int, j: int)
    requires
        spec_plan(base_type, decl) is Ok,
        spec_base_bits(base_type) == Some(8u32),
        0 <= i < spec_plan(base_type, decl)->Ok_0.len(),
        0 <= j < spec_plan(base_type, decl)->Ok_0.len(),
    ensures
        ({
            let p = spec_plan(base_type, decl)->Ok_0;
            let (oi, bi, oj, bj) = (p[i].offset, p[i].bits, p[j].offset, p[j].bits);
            &&& field8(with_field8(w, oi, bi, v), oi, bi) == v & mask8(bi)
            &&& i != j ==> field8(with_field8(w, oi, bi, v), oj, bj) == field8(w, oj, bj)
            &&& bi == 1 ==> bit8(with_bit8(w, oi, b), oi) == b
            &&& bi == 1 && i != j ==> field8(with_bit8(w, oi, b), oj, bj) == field8(w, oj, bj)
        }),
{
    let p = spec_plan(base_type, decl)->Ok_0;
    lemma_plan_fields_apart(base_type, decl, i, j);
    lemma_plan_fields_apart(base_type, decl, j, i);
    let (oi, bi, oj, bj) = (p[i].offset, p[i].bits, p[j].offset, p[j].bits);
    lemma_field8_after_write(w, oi, bi, v, 0);
    let x: u8 = if b { 1u8 } else { 0u8 };
    if i != j {
        lemma_field8_disjoint_write(w, oi, bi, v, oj, bj);
        lemma_field8_disjoint_write(w, oi, bi, x, oj, bj);
    }
    if bi == 1 {
        lemma_bit8_is_field(w, oi, b);
        lemma_bit8_is_field(with_bit8(w, oi, b), oi, b);
        lemma_field8_after_write(w, oi, 1, x, 0);
        assert(x & mask8(1) == x) by (bit_vector)
            requires
                x <= 1u8,
                mask8(1) == ((1u8 << 1u32) - 1u8) as u8,
        ;
    }
}

/// Writing a field of a `u16` flag word at the place its layout gives it: the
/// field then reads back the written value cut to its width, and every other
/// field of the layout reads as before. A one-bit field is a flag: setting it
/// to `b` reads back `b` and leaves every other field as it was.
pub proof fn lemma_planned_write16(base_type: Seq<char>, decl: StructDeclView, w: u16, v: u16, b: bool, i: int, j: int)
    requires
        spec_plan(base_type, decl) is Ok,
        spec_base_bits(base_type) == Some(16u32),
        0 <= i < spec_plan(base_type, decl)->Ok_0.len(),
        0 <= j < spec_plan(base_type, decl)->Ok_0.len(),
    ensures
        ({
            let p = spec_plan(base_type, decl)->Ok_0;
            let (oi, bi, oj, bj) = (p[i].offset, p[i].bits, p[j].offset, p[j].bits);
            &&& field16(with_field16(w, oi, bi, v), oi, bi) == v & mask16(bi)
            &&& i != j ==> field16(with_field16(w, oi, bi, v), oj, bj) == field16(w, oj, bj)
            &&& bi == 1 ==> bit16(with_bit16(w, oi, b), oi) == b
            &&& bi == 1 && i != j ==> field16(with_bit16(w, oi, b), oj, bj) == field16(w, oj, bj)
        }),
{
    let p = spec_plan(base_type, decl)->Ok_0;
    lemma_plan_fields_apart(base_type, decl, i, j);
    lemma_plan_fields_apart(base_type, decl, j, i);
    let (oi, bi, oj, bj) = (p[i].offset, p[i].bits, p[j].offset, p[j].bits);
    lemma_field16_after_write(w, oi, bi, v, 0);
    let x: u16 = if b { 1u16 } else { 0u16 };
    if i != j {
        lemma_field16_disjoint_write(w, oi, bi, v, oj, bj);
        lemma_field16_disjoint_write(w, oi, bi, x, oj, bj);
    }
    if bi == 1 {
        lemma_bit16_is_field(w, oi, b);
        lemma_bit16_is_field(with_bit16(w, oi, b), oi, b);
        lemma_field16_after_write(w, oi, 1, x, 0);
        assert(x & mask16(1) == x) by (bit_vector)
            requires
                x <= 1u16,
                mask16(1) == ((1u16 << 1u32) - 1u16) as u16,
        ;
    }
}

/// Writing a field of a `u32` flag word at the place its layout gives it: the
/// field then reads back the written value cut to its width, and every other
/// field of the layout reads as before. A one-bit field is a flag: setting it
/// to `b` reads back `b` and leaves every other field as it was.
pub proof fn lemma_planned_write32(base_type: Seq<char>, decl: StructDeclView, w: u32, v: u32, b: bool, i: int, j: int)
    requires
        spec_plan(base_type, decl) is Ok,
        spec_base_bits(base_type) == Some(32u32),
        0 <= i < spec_plan(base_type, decl)->Ok_0.len(),
        0 <= j < spec_plan(base_type, decl)->Ok_0.len(),
    ensures
        ({
            let p = spec_plan(base_type, decl)->Ok_0;
            let (oi, bi, oj, bj) = (p[i].offset, p[i].bits, p[j].offset, p[j].bits);
            &&& field32(with_field32(w, oi, bi, v), oi, bi) == v & mask32(bi)
            &&& i != j ==> field32(with_field32(w, oi, bi, v), oj, bj) == field32(w, oj, bj)
            &&& bi == 1 ==> bit32(with_bit32(w, oi, b), oi) == b
            &&& bi == 1 && i != j ==> field32(with_bit32(w, oi, b), oj, bj) == field32(w, oj, bj)
        }),
{
    let p = spec_plan(base_type, decl)->Ok_0;
    lemma_plan_fields_apart(base_type, decl, i, j);
    lemma_plan_fields_apart(base_type, decl, j, i);
    let (oi, bi, oj, bj) = (p[i].offset, p[i].bits, p[j].offset, p[j].bits);
    lemma_field32_after_write(w, oi, bi, v, 0);
    let x: u32 = if b { 1u32 } else { 0u32 };
    if i != j {
        lemma_field32_disjoint_write(w, oi, bi, v, oj, bj);
        lemma_field32_disjoint_write(w, oi, bi, x, oj, bj);
    }
    if bi == 1 {
        lemma_bit32_is_field(w, oi, b);
        lemma_bit32_is_field(with_bit32(w, oi, b), oi, b);
        lemma_field32_after_write(w, oi, 1, x, 0);
        assert(x & mask32(1) == x) by (bit_vector)
            requires
                x <= 1u32,
                mask32(1) == ((1u32 << 1u32) - 1u32) as u32,
        ;
    }
}

/// Writing a field of a `u64` flag word at the place its layout gives it: the
/// field then reads back the written value cut to its width, and every other
/// field of the layout reads as before.
pub proof fn lemma_planned_write64(base_type: Seq<char>, decl: StructDeclView, w: u64, v: u64, i: int, j: int)
    requires
        spec_plan(base_type, decl) is Ok,
        spec_base_bits(base_type) == Some(64u32),
        0 <= i < spec_plan(base_type, decl)->Ok_0.len(),
        0 <= j < spec_plan(base_type, decl)->Ok_0.len(),
    ensures
        ({
            let p = spec_plan(base_type, decl)->Ok_0;
            let (oi, bi, oj, bj) = (p[i].offset, p[i].bits, p[j].offset, p[j].bits);
            &&& field64(with_field64(w, oi, bi, v), oi, bi) == v & mask64(bi)
            &&& i != j ==> field64(with_field64(w, oi, bi, v), oj, bj) == field64(w, oj, bj)
        }),
{
    let p = spec_plan(base_type, decl)->Ok_0;
    lemma_plan_fields_apart(base_type, decl, i, j);
    lemma_plan_fields_apart(base_type, decl, j, i);
    let (oi, bi, oj, bj) = (p[i].offset, p[i].bits, p[j].offset, p[j].bits);
    lemma_field64_after_write(w, oi, bi, v, 0);
    if i != j {
        lemma_field64_disjoint_write(w, oi, bi, v, oj, bj);
    }
}

/// When every one of the first `n` fields has a nonzero width, none of them
/// has width 0.
proof fn lemma_all_widths_known(fields: Seq<FieldDeclView>, n: int)
    requires
        0 <= n <= fields.len(),
        forall|i: int| 0 <= i < n ==> spec_field_bits(#[trigger] fields[i]) > 0,
    ensures
        first_zero_width(fields, n) is None,
    decreases n,
{
    if n > 0 {
        lemma_all_widths_known(fields, n - 1);
    }
}

/// The supported base types and their widths: `u8` is 8 bits, `u16` 16,
/// `u32` 32 and `u64` 64. A declaration with named fields, every one of a
/// known nonzero width, whose widths add up to the width of its base type is
/// laid out, with one entry per field carrying that field's width; a base
/// type with any other name is refused as unsupported.
pub proof fn lemma_supported_base_types(base_type: Seq<char>, decl: StructDeclView)
    requires
        decl.named_fields is Some,
        forall|i: int|
            0 <= i < decl.named_fields->0.len() ==> spec_field_bits(
                #[trigger] decl.named_fields->0[i],
            ) > 0,
    ensures
        ({
            let fs = decl.named_fields->0;
            let used = width_sum(fs, fs.len() as int);
            &&& ((base_type == "u8"@ && used == 8) || (base_type == "u16"@ && used == 16) || (
            base_type == "u32"@ && used == 32) || (base_type == "u64"@ && used == 64)) ==> {
                &&& spec_plan(base_type, decl) is Ok
                &&& spec_plan(base_type, decl)->Ok_0.len() == fs.len()
                &&& forall|i: int|
                    0 <= i < fs.len() ==> (#[trigger] spec_plan(base_type, decl)->Ok_0[i]).bits
                        == spec_field_bits(fs[i])
            }
            &&& !(base_type == "u8"@ || base_type == "u16"@ || base_type == "u32"@ || base_type
                == "u64"@) ==> spec_plan(base_type, decl) == Err::<Seq<FieldPlan>, WireBitfieldError>(
                WireBitfieldError::UnsupportedBaseType,
            )
        }),
{
    reveal_strlit("u8");
    reveal_strlit("u16");
    reveal_strlit("u32");
    reveal_strlit("u64");
    let fs = decl.named_fields->0;
    lemma_all_widths_known(fs, fs.len() as int);
    assert("u8"@.len() == 2 && "u16"@.len() == 3 && "u32"@.len() == 3 && "u64"@.len() == 3);
    assert("u16"@[1] == '1' && "u32"@[1] == '3' && "u64"@[1] == '6');
}

/// The natural widths of field types agree with the base types: each of
/// `u8`, `u16`, `u32` and `u64` is as wide as a field as it is as a base type,
/// the signed type of the same size (`i8` to `i64`) is as wide again, and a
/// `bool` takes one bit.
pub proof fn lemma_type_widths_match_base_types(t: Seq<char>)
    requires
        spec_base_bits(t) is Some,
    ensures
        spec_type_bits(t) == spec_base_bits(t)->0,
        spec_type_bits(seq!['i'] + t.drop_first()) == spec_base_bits(t)->0,
        spec_type_bits("bool"@) == 1,
{
    reveal_strlit("u8");
    reveal_strlit("u16");
    reveal_strlit("u32");
    reveal_strlit("u64");
    reveal_strlit("i8");
    reveal_strlit("i16");
    reveal_strlit("i32");
    reveal_strlit("i64");
    reveal_strlit("bool");
    assert("bool"@.len() == 4 && "u8"@.len() == 2 && "i8"@.len() == 2);
    assert("u16"@.len() == 3 && "u32"@.len() == 3 && "u64"@.len() == 3);
    assert("i16"@.len() == 3 && "i32"@.len() == 3 && "i64"@.len() == 3);
    assert("u8"@[0] == 'u' && "u16"@[0] == 'u' && "u32"@[0] == 'u' && "u64"@[0] == 'u');
    assert("i8"@[0] == 'i' && "i16"@[0] == 'i' && "i32"@[0] == 'i' && "i64"@[0] == 'i');
    assert("u16"@[1] == '1' && "u32"@[1] == '3' && "u64"@[1] == '6');
    assert("i16"@[1] == '1' && "i32"@[1] == '3' && "i64"@[1] == '6');
    let s = seq!['i'] + t.drop_first();
    if t == "u8"@ {
        assert(s =~= "i8"@);
    } else if t == "u16"@ {
        assert(s =~= "i16"@);
    } else if t == "u32"@ {
        assert(s =~= "i32"@);
    } else {
        assert(s =~= "i64"@);
    }
}

/// Why a declaration is refused, when it is: an unsupported base type first,
/// then unnamed fields, then the first field of unknown width (every field
/// before it has a known width), then widths that add up to something other
/// than the base type's width, with the sum and the width reported.
pub proof fn lemma_plan_errors(base_type: Seq<char>, decl: StructDeclView)
    requires
        decl.named_fields is Some ==> decl.named_fields->0.len() <= usize::MAX,
    ensures
        spec_base_bits(base_type) is None ==> spec_plan(base_type, decl)
            == Err::<Seq<FieldPlan>, WireBitfieldError>(WireBitfieldError::UnsupportedBaseType),
        spec_base_bits(base_type) is Some && decl.named_fields is None ==> spec_plan(base_type, decl)
            == Err::<Seq<FieldPlan>, WireBitfieldError>(WireBitfieldError::UnnamedFields),
        spec_plan(base_type, decl) matches Err(WireBitfieldError::UnknownWidth { field }) ==> {
            let fs = decl.named_fields->0;
            &&& decl.named_fields is Some
            &&& field < fs.len()
            &&& spec_field_bits(fs[field as int]) == 0
            &&& forall|j: int| 0 <= j < field ==> spec_field_bits(#[trigger] fs[j]) > 0
        },
        spec_plan(base_type, decl) matches Err(WireBitfieldError::WidthMismatch { used, total }) ==> {
            let fs = decl.named_fields->0;
            &&& decl.named_fields is Some
            &&& Some(total) == spec_base_bits(base_type)
            &&& used as int == width_sum(fs, fs.len() as int) || width_sum(fs, fs.len() as int) > u32::MAX
            &&& width_sum(fs, fs.len() as int) != total
            &&& forall|j: int| 0 <= j < fs.len() ==> spec_field_bits(#[trigger] fs[j]) > 0
        },
{
    if decl.named_fields is Some {
        let fs = decl.named_fields->0;
        let n = fs.len() as int;
        lemma_width_sum_monotone(fs, 0, n);
        match first_zero_width(fs, n) {
            Some(i) => {
                lemma_first_zero_is_first(fs, n);
            },
            None => {
                assert forall|j: int| 0 <= j < n implies spec_field_bits(#[trigger] fs[j]) > 0 by {
                    lemma_no_zero_below(fs, j + 1, n);
                }
            },
        }
    }
}

/// The position `first_zero_width` reports holds a field of width 0, and every
/// field before it has a nonzero width.
proof fn lemma_first_zero_is_first(fields: Seq<FieldDeclView>, n: int)
    requires
        0 <= n <= fields.len(),
        first_zero_width(fields, n) is Some,
    ensures
        ({
            let i = first_zero_width(fields, n)->0;
            &&& 0 <= i < n
            &&& spec_field_bits(fields[i]) == 0
            &&& forall|j: int| 0 <= j < i ==> spec_field_bits(#[trigger] fields[j]) > 0
        }),
    decreases n,
{
    if first_zero_width(fields, n - 1) is Some {
        lemma_first_zero_is_first(fields, n - 1);
    } else {
        assert forall|j: int| 0 <= j < n - 1 implies spec_field_bits(#[trigger] fields[j]) > 0 by {
            lemma_no_zero_below(fields, j + 1, n - 1);
        }
    }
}

} // verus!

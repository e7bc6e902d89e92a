//! C header generation for the flag words: the declarations are collected
//! into bitfield descriptions, and each description is rendered as a C header
//! with an inline getter, builder and setter per named field.

use crate::decl::{
    attr_is, attr_views, field_bits, field_decl_views, is_reserved, opt_str_view, spec_field_bits,
    spec_reserved, AttrDecl, AttrDeclView, FieldDecl, FieldDeclView, StructDecl, StructDeclView,
};
use crate::layout::{lemma_width_sum_monotone, spec_base_bits, spec_plan, width_sum};
use crate::text::{
    dec_text, decimal_value, hex_text, hex_value, is_decimal_numeral, is_hex_numeral,
    lemma_dec_text_reads_back, lemma_hex_text_reads_back, push_char, push_dec, push_hex,
    str_equals,
};
use vstd::arithmetic::power2::{lemma2_to64_rest, lemma_pow2_pos, pow2};
use vstd::bits::{lemma_u64_pow2_no_overflow, lemma_u64_shl_is_mul};
use vstd::prelude::*;
use vstd::string::*;

verus! {

#[verifier::external_type_specification]
#[verifier::external_body]
pub struct ExItemStruct(syn::ItemStruct);

#[verifier::external_type_specification]
#[verifier::external_body]
pub struct ExField(syn::Field);

#[verifier::external_type_specification]
#[verifier::external_body]
pub struct ExAttribute(syn::Attribute);

/// One field of a flag word, as the header generator sees it.
pub struct BitField {
    pub name: String,
    /// Width in bits.
    pub bits: u32,
    /// Reserved fields take up bits but get no accessors.
    pub reserved: bool,
    /// `bool` fields are single flags; other fields hold a number.
    pub is_bool: bool,
    /// The field's type name, used for the return type of its getter.
    pub field_type: String,
}

/// The value of a `BitField`, with its strings as character sequences.
pub struct BitFieldView {
    pub name: Seq<char>,
    pub bits: u32,
    pub reserved: bool,
    pub is_bool: bool,
    pub field_type: Seq<char>,
}

impl View for BitField {
    type V = BitFieldView;

    open spec fn view(&self) -> BitFieldView {
        BitFieldView {
            name: self.name@,
            bits: self.bits,
            reserved: self.reserved,
            is_bool: self.is_bool,
            field_type: self.field_type@,
        }
    }
}

/// A flag word: its name, its base integer type and its fields in order.
pub struct BitfieldStruct {
    pub name: String,
    /// `u8`, `u16`, `u32` or `u64`.
    pub base_type: String,
    pub fields: Vec<BitField>,
}

/// The value of a `BitfieldStruct`, with its strings as character sequences.
pub struct BitfieldStructView {
    pub name: Seq<char>,
    pub base_type: Seq<char>,
    pub fields: Seq<BitFieldView>,
}

/// The views of a sequence of fields.
pub open spec fn field_views(fields: Seq<BitField>) -> Seq<BitFieldView> {
    fields.map_values(|f: BitField| f@)
}

impl View for BitfieldStruct {
    type V = BitfieldStructView;

    open spec fn view(&self) -> BitfieldStructView {
        BitfieldStructView {
            name: self.name@,
            base_type: self.base_type@,
            fields: field_views(self.fields@),
        }
    }
}

/// The views of a sequence of flag words.
pub open spec fn struct_views(structs: Seq<BitfieldStruct>) -> Seq<BitfieldStructView> {
    structs.map_values(|s: BitfieldStruct| s@)
}

/// The base type named by the last `wire_bitfield` attribute whose argument is
/// an identifier, if any.
pub open spec fn wire_base(attrs: Seq<AttrDeclView>) -> Option<Seq<char>>
    decreases attrs.len(),
{
    if attrs.len() == 0 {
        None
    } else if attr_is(attrs.last(), "wire_bitfield"@) && attrs.last().ident_arg is Some {
        attrs.last().ident_arg
    } else {
        wire_base(attrs.drop_last())
    }
}

/// The description of a declared field.
pub open spec fn field_model(f: FieldDeclView) -> BitFieldView {
    BitFieldView {
        name: f.name,
        bits: spec_field_bits(f),
        reserved: spec_reserved(f.name),
        is_bool: f.type_ident == "bool"@,
        field_type: f.type_ident,
    }
}

/// The flag word a declaration describes: present when the struct carries a
/// `wire_bitfield` attribute naming its base type and has named fields.
pub open spec fn struct_model(d: StructDeclView) -> Option<BitfieldStructView> {
    match (wire_base(d.attrs), d.named_fields) {
        (Some(base), Some(fields)) => Some(
            BitfieldStructView {
                name: d.name,
                base_type: base,
                fields: fields.map_values(|f: FieldDeclView| field_model(f)),
            },
        ),
        _ => None,
    }
}

/// The flag words described by the top-level items of a file, in order; an
/// item is `None` when it is not a struct.
pub open spec fn collected(items: Seq<Option<StructDeclView>>) -> Seq<BitfieldStructView>
    decreases items.len(),
{
    if items.len() == 0 {
        Seq::empty()
    } else {
        let rest = collected(items.drop_last());
        match items.last() {
            Some(d) => match struct_model(d) {
                Some(b) => rest.push(b),
                None => rest,
            },
            None => rest,
        }
    }
}

/// The values of a sequence of items.
pub open spec fn item_views(items: Seq<Option<StructDecl>>) -> Seq<Option<StructDeclView>> {
    items.map_values(
        |d: Option<StructDecl>|
            match d {
                Some(s) => Some(s@),
                None => None,
            },
    )
}

/// The `wire_bitfield` base type of a struct's attributes.
fn find_wire_base(attrs: &Vec<AttrDecl>) -> (r: Option<String>)
    ensures
        opt_str_view(r) == wire_base(attr_views(attrs@)),
{
    let ghost av = attr_views(attrs@);
    let mut base: Option<String> = None;
    let mut i: usize = 0;
    while i < attrs.len()
        invariant
            i <= attrs@.len(),
            av == attr_views(attrs@),
            opt_str_view(base) == wire_base(av.take(i as int)),
        decreases attrs@.len() - i,
    {
        let a = &attrs[i];
        assert(av.take(i + 1).drop_last() =~= av.take(i as int));
        assert(av.take(i + 1).last() == attrs@[i as int]@);
        let is_wire = match &a.path_ident {
            Some(p) => str_equals(p.as_str(), "wire_bitfield"),
            None => false,
        };
        if is_wire {
            match &a.ident_arg {
                Some(id) => {
                    base = Some(id.clone());
                },
                None => {},
            }
        }
        i = i + 1;
    }
    assert(av.take(attrs@.len() as int) =~= av);
    base
}

/// The description of each declared field.
fn describe_fields(fields: &Vec<FieldDecl>) -> (r: Vec<BitField>)
    ensures
        field_views(r@) == field_decl_views(fields@).map_values(|f: FieldDeclView| field_model(f)),
{
    let ghost fv = field_decl_views(fields@);
    let mut out: Vec<BitField> = Vec::new();
    let mut i: usize = 0;
    while i < fields.len()
        invariant
            i <= fields@.len(),
            fv == field_decl_views(fields@),
            field_views(out@) =~= fv.take(i as int).map_values(|f: FieldDeclView| field_model(f)),
        decreases fields@.len() - i,
    {
        let f = &fields[i];
        let bf = BitField {
            name: f.name.clone(),
            bits: field_bits(f),
            reserved: is_reserved(&f.name),
            is_bool: str_equals(f.type_ident.as_str(), "bool"),
            field_type: f.type_ident.clone(),
        };
        assert(fv[i as int] == fields@[i as int]@);
        assert(bf@ == field_model(fv[i as int]));
        let ghost before = out@;
        out.push(bf);
        assert(field_views(out@) =~= field_views(before).push(bf@));
        assert(fv.take(i + 1) =~= fv.take(i as int).push(fv[i as int]));
        i = i + 1;
    }
    assert(fv.take(fields@.len() as int) =~= fv);
    out
}

/// The flag word a struct declaration describes, if any.
fn describe_struct(d: &StructDecl) -> (r: Option<BitfieldStruct>)
    ensures
        match r {
            Some(b) => struct_model(d@) == Some(b@),
            None => struct_model(d@) is None,
        },
{
    let base = find_wire_base(&d.attrs);
    match (base, &d.named_fields) {
        (Some(b), Some(fields)) => Some(
            BitfieldStruct { name: d.name.clone(), base_type: b, fields: describe_fields(fields) },
        ),
        _ => None,
    }
}

/// The flag words described by the top-level items of a file, in order (an
/// item is `None` when it is not a struct): every struct that carries a
/// `wire_bitfield` attribute naming its base type and has named fields. A
/// field is reserved when its name starts with an underscore, is a flag when
/// its type is `bool`, and is as wide as its `bits` attribute says, else as
/// wide as its type.
pub fn collect_bitfield_structs(items: &Vec<Option<StructDecl>>) -> (r: Vec<BitfieldStruct>)
    ensures
        struct_views(r@) == collected(item_views(items@)),
{
    let ghost iv = item_views(items@);
    let mut out: Vec<BitfieldStruct> = Vec::new();
    let mut i: usize = 0;
    while i < items.len()
        invariant
            i <= items@.len(),
            iv == item_views(items@),
            struct_views(out@) =~= collected(iv.take(i as int)),
        decreases items@.len() - i,
    {
        assert(iv.take(i + 1).drop_last() =~= iv.take(i as int));
        assert(iv.take(i + 1).last() == iv[i as int]);
        match &items[i] {
            Some(d) => {
                match describe_struct(d) {
                    Some(bs) => {
                        let ghost before = out@;
                        out.push(bs);
                        assert(struct_views(out@) =~= struct_views(before).push(bs@));
                    },
                    None => {},
                }
            },
            None => {},
        }
        i = i + 1;
    }
    assert(iv.take(items@.len() as int) =~= iv);
    out
}

/// The top-level items of a Rust source file as `syn::parse_file` reads them,
/// `None` where the text does not parse: each item is its struct declaration,
/// or `None` when it is not a struct.
pub uninterp spec fn syn_file_items(src: Seq<char>) -> Option<Seq<Option<StructDeclView>>>;

/// Reads the top-level items of a Rust source file.
///
/// Trusted: calls `syn::parse_file` and converts each struct item with
/// `struct_decl`; the result is named, not described, since it follows
/// Rust's grammar.
#[verifier::external_body]
fn parse_items(src: &str) -> (r: Option<Vec<Option<StructDecl>>>)
    ensures
        match r {
            Some(v) => syn_file_items(src@) == Some(item_views(v@)),
            None => syn_file_items(src@) is None,
        },
{
    let file = syn::parse_file(src).ok()?;
    Some(
        file.items.iter().map(|item| match item {
            syn::Item::Struct(s) => Some(struct_decl(s)),
            _ => None,
        }).collect(),
    )
}

/// The declaration of a `syn` struct item: its name, its attributes, and its
/// named fields when it has them.
///
/// Trusted: reads fields of `syn::ItemStruct`; nothing is stated of the
/// result, which `parse_items` names as a whole.
#[verifier::external_body]
fn struct_decl(s: &syn::ItemStruct) -> StructDecl {
    StructDecl {
        name: s.ident.to_string(),
        attrs: s.attrs.iter().map(attr_decl).collect(),
        named_fields: match &s.fields {
            syn::Fields::Named(n) => Some(n.named.iter().map(field_decl).collect()),
            _ => None,
        },
    }
}

/// The declaration of a `syn` field: its name, the last identifier of its type
/// path (empty when the type is not a path), and its attributes.
///
/// Trusted: reads fields of `syn::Field`; nothing is stated of the result,
/// which `parse_items` names as a whole.
#[verifier::external_body]
fn field_decl(f: &syn::Field) -> FieldDecl {
    let type_ident = match &f.ty {
        syn::Type::Path(tp) => tp.path.segments.last().map(|s| s.ident.to_string()).unwrap_or_default(),
        _ => String::new(),
    };
    FieldDecl {
        name: f.ident.as_ref().map(|i| i.to_string()).unwrap_or_default(),
        type_ident,
        attrs: f.attrs.iter().map(attr_decl).collect(),
    }
}

/// The declaration of a `syn` attribute: its path when a single identifier,
/// and its argument read as an identifier and as an integer literal.
///
/// Trusted: calls `Attribute::path`, `Path::get_ident`, `Attribute::parse_args`
/// and `LitInt::base10_parse`; nothing is stated of the result, which
/// `parse_items` names as a whole.
#[verifier::external_body]
fn attr_decl(a: &syn::Attribute) -> AttrDecl {
    AttrDecl {
        path_ident: a.path().get_ident().map(|i| i.to_string()),
        ident_arg: a.parse_args::<syn::Ident>().ok().map(|i| i.to_string()),
        int_arg: a.parse_args::<syn::LitInt>().ok().map(|n| n.base10_parse::<u32>().ok()),
    }
}

/// The flag words declared in a Rust source file, in file order: empty when
/// the text does not parse, else one per top-level struct that carries a
/// `wire_bitfield` attribute naming its base type and has named fields (see
/// `collect_bitfield_structs`).
pub fn parse_bitfield_structs(src: &str) -> (r: Vec<BitfieldStruct>)
    ensures
        struct_views(r@) == match syn_file_items(src@) {
            Some(items) => collected(items),
            None => Seq::empty(),
        },
{
    match parse_items(src) {
        Some(items) => collect_bitfield_structs(&items),
        None => {
            let r: Vec<BitfieldStruct> = Vec::new();
            assert(struct_views(r@) =~= Seq::empty());
            r
        },
    }
}

/// The C integer type of a Rust unsigned type name; `uint32_t` for any name
/// other than `u8`, `u16`, `u32` and `u64`.
pub open spec fn spec_c_uint(t: Seq<char>) -> Seq<char> {
    if t == "u8"@ {
        "uint8_t"@
    } else if t == "u16"@ {
        "uint16_t"@
    } else if t == "u32"@ {
        "uint32_t"@
    } else if t == "u64"@ {
        "uint64_t"@
    } else {
        "uint32_t"@
    }
}

/// The C integer type of a Rust unsigned type name: `uint8_t`, `uint16_t`,
/// `uint32_t` or `uint64_t` for `u8` to `u64`, and `uint32_t` for any other
/// name.
pub fn c_uint(rust_type: &str) -> (r: &'static str)
    ensures
        r@ == spec_c_uint(rust_type@),
{
    if str_equals(rust_type, "u8") {
        "uint8_t"
    } else if str_equals(rust_type, "u16") {
        "uint16_t"
    } else if str_equals(rust_type, "u32") {
        "uint32_t"
    } else if str_equals(rust_type, "u64") {
        "uint64_t"
    } else {
        "uint32_t"
    }
}

/// Whether a char has the Unicode `Uppercase` property, as `char::is_uppercase`
/// reports it.
pub uninterp spec fn char_is_uppercase(c: char) -> bool;

/// Whether a char has the Unicode `Lowercase` property, as `char::is_lowercase`
/// reports it.
pub uninterp spec fn char_is_lowercase(c: char) -> bool;

/// The first char of the lowercase mapping of a char, as the iterator of
/// `char::to_lowercase` yields it.
pub uninterp spec fn char_lowercase_first(c: char) -> char;

/// Whether `c` is upper case.
///
/// Trusted: calls `char::is_uppercase`; the result is named, not described,
/// since it follows the Unicode `Uppercase` property.
#[verifier::external_body]
fn is_uppercase(c: char) -> (r: bool)
    ensures
        r == char_is_uppercase(c),
{
    c.is_uppercase()
}

/// Whether `c` is lower case.
///
/// Trusted: calls `char::is_lowercase`; the result is named, not described,
/// since it follows the Unicode `Lowercase` property.
#[verifier::external_body]
fn is_lowercase(c: char) -> (r: bool)
    ensures
        r == char_is_lowercase(c),
{
    c.is_lowercase()
}

/// The first char of the lowercase mapping of `c`.
///
/// Trusted: takes the first item of `char::to_lowercase`, which std documents
/// as yielding one or more chars (the char itself when it has no lowercase
/// mapping); the result is named, not described, since it follows the Unicode
/// case tables.
#[verifier::external_body]
fn lowercase_first(c: char) -> (r: char)
    ensures
        r == char_lowercase_first(c),
{
    c.to_lowercase().next().unwrap()
}

/// Whether char `i` of a name described by `cases` (each char as: is upper
/// case, is lower case, lowercase form) begins a CamelCase word: it is upper
/// case, and either the char before it is not upper case or the char after it
/// is lower case.
pub open spec fn starts_word(cases: Seq<(bool, bool, char)>, i: int) -> bool {
    &&& cases[i].0
    &&& (i == 0 || !cases[i - 1].0 || (i + 1 < cases.len() && cases[i + 1].1))
}

/// The lowercase initials of the words that begin among the first `n` chars.
pub open spec fn initials(cases: Seq<(bool, bool, char)>, n: int) -> Seq<char>
    decreases n,
{
    if n <= 0 || n > cases.len() {
        Seq::empty()
    } else if starts_word(cases, n - 1) {
        initials(cases, n - 1).push(cases[n - 1].2)
    } else {
        initials(cases, n - 1)
    }
}

/// The accessor prefix for a name whose chars are described by `cases`: the
/// initials followed by an underscore.
pub open spec fn prefix_text(cases: Seq<(bool, bool, char)>) -> Seq<char> {
    initials(cases, cases.len() as int).push('_')
}

/// How each char of `name` is classified: upper case or not, lower case or
/// not, and its lowercase form.
pub open spec fn char_cases(name: Seq<char>) -> Seq<(bool, bool, char)> {
    name.map_values(
        |c: char| (char_is_uppercase(c), char_is_lowercase(c), char_lowercase_first(c)),
    )
}

/// The accessor prefix of a type name.
pub open spec fn spec_prefix(name: Seq<char>) -> Seq<char> {
    prefix_text(char_cases(name))
}

/// The accessor prefix for a name given char by char as (is upper case, is
/// lower case, lowercase form): the lowercase form of every char that begins a
/// CamelCase word (an upper-case char not preceded by an upper-case char, or
/// followed by a lower-case one), then an underscore.
pub fn prefix_from_cases(cases: &Vec<(bool, bool, char)>) -> (r: String)
    ensures
        r@ == prefix_text(cases@),
{
    let mut out = String::new();
    let n = cases.len();
    let mut i: usize = 0;
    while i < n
        invariant
            n == cases@.len(),
            i <= n,
            out@ == initials(cases@, i as int),
        decreases n - i,
    {
        let (upper, _, lower) = cases[i];
        let prev_upper = i > 0 && cases[i - 1].0;
        let next_lower = i + 1 < n && cases[i + 1].1;
        if upper && (!prev_upper || next_lower) {
            push_char(&mut out, lower);
        }
        i = i + 1;
    }
    push_char(&mut out, '_');
    out
}

/// The accessor prefix of a type name: the lowercase initial of each
/// CamelCase word, then an underscore. A run of capitals counts as one word,
/// except that its last capital begins the next word when a lower-case char
/// follows it (`BasicControlFlags` gives `bcf_`, `CCMTelemetryStatus` gives
/// `cts_`, `CCMStatus` gives `cs_`).
pub fn snake_to_prefix(name: &str) -> (r: String)
    ensures
        r@ == spec_prefix(name@),
{
    let n = name.unicode_len();
    let mut cases: Vec<(bool, bool, char)> = Vec::new();
    let mut i: usize = 0;
    while i < n
        invariant
            n == name@.len(),
            i <= n,
            cases@ =~= char_cases(name@.take(i as int)),
        decreases n - i,
    {
        let c = name.get_char(i);
        let entry = (is_uppercase(c), is_lowercase(c), lowercase_first(c));
        cases.push(entry);
        assert(name@.take(i + 1) =~= name@.take(i as int).push(c));
        i = i + 1;
    }
    assert(name@.take(n as int) =~= name@);
    prefix_from_cases(&cases)
}

/// The bit offset of field `i`: the sum of the widths of the fields before it.
pub open spec fn offset_before(fields: Seq<BitFieldView>, i: int) -> int
    decreases i,
{
    if i <= 0 || i > fields.len() {
        0
    } else {
        offset_before(fields, i - 1) + fields[i - 1].bits
    }
}

/// The C accessors of a single-bit flag at offset `off`: a getter, a builder
/// and a setter, each on one line, then an empty line.
pub open spec fn flag_lines(prefix: Seq<char>, field: Seq<char>, name: Seq<char>, off: nat) -> Seq<char> {
    let m = hex_text(pow2(off));
    ("static inline bool "@ + prefix + field + "("@ + name + " v) { return (v & 0x"@ + m
        + "u) != 0u; }\n"@) + ("static inline "@ + name + " "@ + prefix + "with_"@ + field + "("@
        + name + " v, bool b) { return b ? (v | 0x"@ + m + "u) : (v & ~0x"@ + m + "u); }\n"@) + (
    "static inline void "@ + prefix + "set_"@ + field + "("@ + name + " *v, bool b) { *v = "@
        + prefix + "with_"@ + field + "(*v, b); }\n"@) + "\n"@
}

/// The C accessors of a `bits`-wide numeric field of C type `ret` at offset
/// `off`: a getter, a builder and a setter, each on one line, then an empty
/// line.
pub open spec fn number_lines(
    prefix: Seq<char>,
    field: Seq<char>,
    name: Seq<char>,
    ret: Seq<char>,
    off: nat,
    bits: nat,
) -> Seq<char> {
    let m = hex_text((pow2(bits) - 1) as nat);
    let o = dec_text(off);
    ("static inline "@ + ret + " "@ + prefix + field + "("@ + name + " v) { return ("@ + ret
        + ")((v >> "@ + o + "u) & 0x"@ + m + "u); }\n"@) + ("static inline "@ + name + " "@ + prefix
        + "with_"@ + field + "("@ + name + " v, "@ + ret + " x) { return (v & ~(("@ + name + ")(0x"@
        + m + "u) << "@ + o + "u)) | ((("@ + name + ")(x) & 0x"@ + m + "u) << "@ + o + "u); }\n"@)
        + ("static inline void "@ + prefix + "set_"@ + field + "("@ + name + " *v, "@ + ret
        + " x) { *v = "@ + prefix + "with_"@ + field + "(*v, x); }\n"@) + "\n"@
}

/// The C text of one field at offset `off`: nothing for a reserved field.
pub open spec fn field_text(f: BitFieldView, off: int, prefix: Seq<char>, name: Seq<char>) -> Seq<char> {
    if f.reserved {
        Seq::empty()
    } else if f.is_bool {
        flag_lines(prefix, f.name, name, off as nat)
    } else {
        number_lines(prefix, f.name, name, spec_c_uint(f.field_type), off as nat, f.bits as nat)
    }
}

/// The C text of the first `n` fields.
pub open spec fn fields_text(fields: Seq<BitFieldView>, n: int, prefix: Seq<char>, name: Seq<char>) -> Seq<char>
    decreases n,
{
    if n <= 0 || n > fields.len() {
        Seq::empty()
    } else {
        fields_text(fields, n - 1, prefix, name) + field_text(
            fields[n - 1],
            offset_before(fields, n - 1),
            prefix,
            name,
        )
    }
}

/// The C header of a flag word: the include guard and includes, a typedef of
/// the word to its C integer type, the accessors of every named field, and a
/// closing comment with the total number of bits.
pub open spec fn header_text(bf: BitfieldStructView) -> Seq<char> {
    let n = bf.fields.len() as int;
    "#pragma once\n#include <stdint.h>\n#include <stdbool.h>\n\ntypedef "@ + spec_c_uint(bf.base_type)
        + " "@ + bf.name + ";\n\n"@ + fields_text(bf.fields, n, spec_prefix(bf.name), bf.name)
        + "\n/* Total bits: "@ + dec_text(offset_before(bf.fields, n) as nat) + " */\n"@
}

/// The flag words the generator can render: the offsets add up within a
/// `u32`, every flag sits below bit 64 and no numeric field is wider than 64
/// bits.
pub open spec fn header_renderable(bf: BitfieldStructView) -> bool {
    let fs = bf.fields;
    &&& offset_before(fs, fs.len() as int) <= u32::MAX
    &&& forall|i: int|
        0 <= i < fs.len() && !(#[trigger] fs[i]).reserved && fs[i].is_bool ==> offset_before(fs, i) < 64
    &&& forall|i: int| 0 <= i < fs.len() && !(#[trigger] fs[i]).reserved && !fs[i].is_bool ==> fs[i].bits <= 64
}

/// Offsets grow with the field index.
proof fn lemma_offset_monotone(fields: Seq<BitFieldView>, i: int, j: int)
    requires
        0 <= i <= j <= fields.len(),
    ensures
        0 <= offset_before(fields, i) <= offset_before(fields, j),
    decreases j,
{
    if i < j {
        lemma_offset_monotone(fields, i, j - 1);
    } else if j > 0 {
        lemma_offset_monotone(fields, 0, j - 1);
    }
}

/// Appends the accessors of a single-bit flag at offset `off`.
fn push_flag_lines(out: &mut String, prefix: &String, field: &String, name: &String, off: u32)
    requires
        off < 64,
    ensures
        final(out)@ == old(out)@ + flag_lines(prefix@, field@, name@, off as nat),
{
    proof {
        lemma_u64_pow2_no_overflow(off as nat);
        lemma_u64_shl_is_mul(1u64, off as u64);
    }
    let mask: u64 = 1u64 << (off as u64);
    let mut l1 = String::from_str("static inline bool ");
    l1.append(prefix.as_str());
    l1.append(field.as_str());
    l1.append("(");
    l1.append(name.as_str());
    l1.append(" v) { return (v & 0x");
    push_hex(&mut l1, mask);
    l1.append("u) != 0u; }\n");
    let mut l2 = String::from_str("static inline ");
    l2.append(name.as_str());
    l2.append(" ");
    l2.append(prefix.as_str());
    l2.append("with_");
    l2.append(field.as_str());
    l2.append("(");
    l2.append(name.as_str());
    l2.append(" v, bool b) { return b ? (v | 0x");
    push_hex(&mut l2, mask);
    l2.append("u) : (v & ~0x");
    push_hex(&mut l2, mask);
    l2.append("u); }\n");
    let mut l3 = String::from_str("static inline void ");
    l3.append(prefix.as_str());
    l3.append("set_");
    l3.append(field.as_str());
    l3.append("(");
    l3.append(name.as_str());
    l3.append(" *v, bool b) { *v = ");
    l3.append(prefix.as_str());
    l3.append("with_");
    l3.append(field.as_str());
    l3.append("(*v, b); }\n");
    let ghost start = out@;
    out.append(l1.as_str());
    out.append(l2.as_str());
    out.append(l3.as_str());
    out.append("\n");
    assert(out@ =~= start + (l1@ + l2@ + l3@ + "\n"@));
}

/// Appends the accessors of a `bits`-wide numeric field of C type `ret` at
/// offset `off`.
fn push_number_lines(out: &mut String, prefix: &String, field: &String, name: &String, ret: &str, off: u32, bits: u32)
    requires
        bits <= 64,
    ensures
        final(out)@ == old(out)@ + number_lines(prefix@, field@, name@, ret@, off as nat, bits as nat),
{
    let mask: u64 = if bits == 64 {
        proof {
            lemma2_to64_rest();
        }
        u64::MAX
    } else {
        proof {
            lemma_u64_pow2_no_overflow(bits as nat);
            lemma_u64_shl_is_mul(1u64, bits as u64);
        }
        (1u64 << (bits as u64)) - 1
    };
    let mut l1 = String::from_str("static inline ");
    l1.append(ret);
    l1.append(" ");
    l1.append(prefix.as_str());
    l1.append(field.as_str());
    l1.append("(");
    l1.append(name.as_str());
    l1.append(" v) { return (");
    l1.append(ret);
    l1.append(")((v >> ");
    push_dec(&mut l1, off);
    l1.append("u) & 0x");
    push_hex(&mut l1, mask);
    l1.append("u); }\n");
    let mut l2 = String::from_str("static inline ");
    l2.append(name.as_str());
    l2.append(" ");
    l2.append(prefix.as_str());
    l2.append("with_");
    l2.append(field.as_str());
    l2.append("(");
    l2.append(name.as_str());
    l2.append(" v, ");
    l2.append(ret);
    l2.append(" x) { return (v & ~((");
    l2.append(name.as_str());
    l2.append(")(0x");
    push_hex(&mut l2, mask);
    l2.append("u) << ");
    push_dec(&mut l2, off);
    l2.append("u)) | (((");
    l2.append(name.as_str());
    l2.append(")(x) & 0x");
    push_hex(&mut l2, mask);
    l2.append("u) << ");
    push_dec(&mut l2, off);
    l2.append("u); }\n");
    let mut l3 = String::from_str("static inline void ");
    l3.append(prefix.as_str());
    l3.append("set_");
    l3.append(field.as_str());
    l3.append("(");
    l3.append(name.as_str());
    l3.append(" *v, ");
    l3.append(ret);
    l3.append(" x) { *v = ");
    l3.append(prefix.as_str());
    l3.append("with_");
    l3.append(field.as_str());
    l3.append("(*v, x); }\n");
    let ghost start = out@;
    out.append(l1.as_str());
    out.append(l2.as_str());
    out.append(l3.as_str());
    out.append("\n");
    assert(out@ =~= start + (l1@ + l2@ + l3@ + "\n"@));
}

/// Renders the C header of a flag word: fields are packed from bit 0 in
/// order; each named flag gets a getter, a `with_` builder and a `set_`
/// setter testing or writing its bit, each named numeric field gets the same
/// three accessors over its mask and shift, and reserved fields only advance
/// the offset. The accessors are prefixed with the initials of the word's
/// name.
pub fn generate_bitfield_header(bf: &BitfieldStruct) -> (r: String)
    requires
        header_renderable(bf@),
    ensures
        r@ == header_text(bf@),
{
    let c_type = c_uint(bf.base_type.as_str());
    let prefix = snake_to_prefix(bf.name.as_str());
    let ghost fs = bf@.fields;
    let ghost name = bf.name@;
    let mut out = String::from_str("#pragma once\n#include <stdint.h>\n#include <stdbool.h>\n\ntypedef ");
    out.append(c_type);
    out.append(" ");
    out.append(bf.name.as_str());
    out.append(";\n\n");
    let ghost head = out@;
    let n = bf.fields.len();
    let mut offset: u32 = 0;
    let mut i: usize = 0;
    while i < n
        invariant
            n == fs.len(),
            fs == bf@.fields,
            name == bf.name@,
            prefix@ == spec_prefix(name),
            header_renderable(bf@),
            i <= n,
            offset == offset_before(fs, i as int),
            out@ == head + fields_text(fs, i as int, prefix@, name),
        decreases n - i,
    {
        let f = &bf.fields[i];
        assert(f@ == fs[i as int]);
        let off = offset;
        proof {
            lemma_offset_monotone(fs, i + 1, n as int);
        }
        offset = offset + f.bits;
        let ghost before = out@;
        if !f.reserved {
            if f.is_bool {
                push_flag_lines(&mut out, &prefix, &f.name, &bf.name, off);
            } else {
                let ret = c_uint(f.field_type.as_str());
                push_number_lines(&mut out, &prefix, &f.name, &bf.name, ret, off, f.bits);
            }
        }
        assert(out@ =~= head + fields_text(fs, i + 1, prefix@, name));
        i = i + 1;
    }
    out.append("\n/* Total bits: ");
    push_dec(&mut out, offset);
    out.append(" */\n");
    out
}

/// The C header declaring every packet type, with the layout of the Rust
/// packet types: enums as packed bytes, tagged unions as a tag enum, a body
/// union and an outer struct, and the radio frame limited to 576 bytes.
pub const PACKETS_H: &'static str = r#"// Auto-generated by tools/codegen — DO NOT EDIT.
// Source of truth: rust-lib/src/packets/ and rust-lib/src/bitfields/
// Run `cargo run --manifest-path tools/codegen/Cargo.toml` to regenerate.

#pragma once
#include <stdint.h>
#include <stdbool.h>
#include <stddef.h>

#include "bitfields/BasicControlFlags.h"
#include "bitfields/BasicTelemetryErrors.h"
#include "bitfields/BodyControlExtTelemetryFlags.h"
#include "bitfields/BatteryStatus.h"
#include "bitfields/PowerStatus.h"
#include "bitfields/PowerCommandFlags.h"
#include "bitfields/DiscoveryFlags.h"
#include "bitfields/KickerCommandFlags.h"
#include "bitfields/KickerStatusFlags.h"
#include "bitfields/CcmMotionCommandFlags.h"
#include "bitfields/CcmTelemetryStatus.h"

// ─── Enums ───────────────────────────────────────────────────────────────────

typedef enum TeamColor {
    TeamColor_Yellow = 0,
    TeamColor_Blue   = 1,
} __attribute__((packed)) TeamColor;

typedef enum PivotDirection {
    PivotDirection_Forward  = 0,
    PivotDirection_Backward = 1,
} __attribute__((packed)) PivotDirection;

typedef enum KickRequest {
    KickRequest_Disable      = 0,
    KickRequest_Arm          = 1,
    KickRequest_KickNow      = 2,
    KickRequest_KickTouch    = 3,
    KickRequest_KickCaptured = 4,
    KickRequest_ChipNow      = 5,
    KickRequest_ChipTouch    = 6,
    KickRequest_ChipCaptured = 7,
} __attribute__((packed)) KickRequest;

typedef enum DribblerCommand {
    DribblerCommand_Disable     = 0,
    DribblerCommand_HardReceive = 1,
    DribblerCommand_SoftReceive = 2,
    DribblerCommand_Dribble     = 3,
    DribblerCommand_Velocity    = 4,
    DribblerCommand_Current     = 5,
} __attribute__((packed)) DribblerCommand;

typedef enum ParameterCommandCode {
    ParameterCommandCode_Read               = 0,
    ParameterCommandCode_Write              = 1,
    ParameterCommandCode_Ack                = 2,
    ParameterCommandCode_NackInvalidName    = 3,
    ParameterCommandCode_NackInvalidTypeForName = 4,
} __attribute__((packed)) ParameterCommandCode;

typedef enum ParameterName {
    ParameterName_KfProcessStd        = 0,
    ParameterName_KfMeasurementStd    = 1,
    ParameterName_KfMaxState          = 2,
    ParameterName_PhysWheel           = 3,
    ParameterName_PhysInertia         = 4,
    ParameterName_PhysMotorModel      = 5,
    ParameterName_PhysFrictionModel   = 6,
    ParameterName_FrictionCompGating  = 7,
    ParameterName_PoseControlGain     = 8,
    ParameterName_TrajRecomputeError  = 9,
    ParameterName_PoseFbPidiiLinear   = 10,
    ParameterName_PoseFbPidiiAngular  = 11,
    ParameterName_TwistFbPidiiLinear  = 12,
    ParameterName_TwistFbPidiiAngular = 13,
} __attribute__((packed)) ParameterName;

typedef enum CcmMotionControlType {
    CcmMotionControlType_MotorOff        = 0,
    CcmMotionControlType_DutyOpenloop    = 1,
    CcmMotionControlType_VoltageOpenloop = 2,
    CcmMotionControlType_Current         = 3,
    CcmMotionControlType_Velocity        = 4,
    CcmMotionControlType_VelocityCurrent = 5,
} __attribute__((packed)) CcmMotionControlType;

// ─── Leaf maneuver structs ───────────────────────────────────────────────────

typedef struct GlobalPositionCommand {
    float global_x;
    float global_y;
    float global_theta;
    float max_linear_vel;
    float max_angular_vel;
    float max_linear_acc;
    float max_angular_acc;
} GlobalPositionCommand;

typedef struct GlobalPositionTelemetry { uint32_t reserved; } GlobalPositionTelemetry;
typedef struct ExtendedGlobalPositionTelemetry { GlobalPositionCommand cmd_echo; } ExtendedGlobalPositionTelemetry;

typedef struct GlobalVelocityCommand {
    float global_xd;
    float global_yd;
    float global_omega;
    float max_linear_acc;
    float max_angular_acc;
} GlobalVelocityCommand;

typedef struct GlobalVelocityTelemetry { uint32_t reserved; } GlobalVelocityTelemetry;
typedef struct ExtendedGlobalVelocityTelemetry { GlobalVelocityCommand cmd_echo; } ExtendedGlobalVelocityTelemetry;

typedef struct LocalVelocityCommand {
    float local_xd;
    float local_yd;
    float local_omega;
    float max_linear_acc;
    float max_angular_acc;
} LocalVelocityCommand;

typedef struct LocalVelocityTelemetry { uint32_t reserved; } LocalVelocityTelemetry;
typedef struct ExtendedLocalVelocityTelemetry { LocalVelocityCommand cmd_echo; } ExtendedLocalVelocityTelemetry;

typedef struct GlobalAccelerationCommand { float global_xdd; float global_ydd; float global_alpha; } GlobalAccelerationCommand;
typedef struct GlobalAccelerationTelemetry { uint32_t reserved; } GlobalAccelerationTelemetry;
typedef struct ExtendedGlobalAccelerationTelemetry { GlobalAccelerationCommand cmd_echo; } ExtendedGlobalAccelerationTelemetry;

typedef struct LocalAccelerationCommand { float local_xdd; float local_ydd; float local_alpha; } LocalAccelerationCommand;
typedef struct LocalAccelerationTelemetry { uint32_t reserved; } LocalAccelerationTelemetry;
typedef struct ExtendedLocalAccelerationTelemetry { LocalAccelerationCommand cmd_echo; } ExtendedLocalAccelerationTelemetry;

typedef struct HeadingPivotCommand {
    float global_theta;
    float max_angular_vel;
    float max_angular_acc;
    float orbit_radius;
    float inset_angle;
    PivotDirection direction;
    uint8_t compute_inset_angle;
    uint8_t reserved[2];
} HeadingPivotCommand;

typedef struct PointPivotCommand {
    float target_x;
    float target_y;
    float max_angular_vel;
    float max_angular_acc;
    float orbit_radius;
    float inset_angle;
    PivotDirection direction;
    uint8_t compute_inset_angle;
    uint8_t reserved[2];
} PointPivotCommand;

typedef struct HeadingPivotTelemetry { uint32_t reserved; } HeadingPivotTelemetry;
typedef struct PointPivotTelemetry { uint32_t reserved; } PointPivotTelemetry;
typedef struct ExtendedHeadingPivotTelemetry { HeadingPivotCommand cmd_echo; } ExtendedHeadingPivotTelemetry;
typedef struct ExtendedPointPivotTelemetry { PointPivotCommand cmd_echo; } ExtendedPointPivotTelemetry;

typedef struct HeadingLineCommand {
    float start_x; float start_y; float dir_x; float dir_y; float line_velocity;
    float global_theta; float max_vel_colinear; float max_vel_perp; float max_vel_angular;
    float max_accel_colinear; float max_accel_perp; float max_accel_angular;
    float colinear_start_thresh;
} HeadingLineCommand;

typedef struct PointLineCommand {
    float start_x; float start_y; float dir_x; float dir_y; float line_velocity;
    float target_x; float target_y;
    float max_vel_colinear; float max_vel_perp; float max_vel_angular;
    float max_accel_colinear; float max_accel_perp; float max_accel_angular;
    float colinear_start_thresh;
} PointLineCommand;

typedef struct HeadingLineTelemetry { uint32_t reserved; } HeadingLineTelemetry;
typedef struct PointLineTelemetry { uint32_t reserved; } PointLineTelemetry;
typedef struct ExtendedHeadingLineTelemetry { HeadingLineCommand cmd_echo; } ExtendedHeadingLineTelemetry;
typedef struct ExtendedPointLineTelemetry { PointLineCommand cmd_echo; } ExtendedPointLineTelemetry;

// ─── Discovery ───────────────────────────────────────────────────────────────

typedef struct HelloRequest {
    uint8_t robot_id;
    TeamColor color;
    DiscoveryFlags flags;
    uint8_t _reserved[1];
    uint8_t coms_hash[4];
    uint8_t controls_hash[4];
    uint8_t firmware_hash[4];
} HelloRequest;

typedef struct HelloResponse { uint8_t ipv4[4]; uint16_t port; } HelloResponse;

// ─── Error telemetry ─────────────────────────────────────────────────────────

typedef struct ErrorTelemetry { uint32_t timestamp; uint8_t error_message[60]; } ErrorTelemetry;

// ─── Power ───────────────────────────────────────────────────────────────────

typedef struct BatteryInfo {
    BatteryStatus status;
    uint16_t battery_mv;
    uint16_t cell1_mv; uint16_t cell2_mv; uint16_t cell3_mv;
    uint16_t cell4_mv; uint16_t cell5_mv; uint16_t cell6_mv;
    uint8_t battery_pct;
    uint8_t cell1_pct; uint8_t cell2_pct; uint8_t cell3_pct;
    uint8_t cell4_pct; uint8_t cell5_pct; uint8_t cell6_pct;
    uint8_t _reserved;
} BatteryInfo;

typedef struct PowerTelemetry { PowerStatus status; BatteryInfo battery_info; } PowerTelemetry;
typedef struct PowerCommand { PowerCommandFlags flags; } PowerCommand;

// ─── CCM (Current-Controlled Motor) ─────────────────────────────────────────

typedef struct CcmMotionCommand {
    CcmMotionCommandFlags flags;
    CcmMotionControlType motion_control_type;
    uint8_t _reserved[1];
    int16_t current_setpoint_ma;
    float setpoint;
} CcmMotionCommand;

typedef struct CcmCurrentTelemetry {
    uint16_t bus_voltage_mv;
    uint16_t motor_voltage_cmd_mv;
    int16_t current_setpoint_ma;
    int16_t hall_vel_est_drads;
    uint16_t current_samples_ma[20];
} CcmCurrentTelemetry;

typedef struct CcmVelocityTelemetry { float vel_setpoint_rads; float wheel_vel_rads; } CcmVelocityTelemetry;

typedef struct CcmTelemetry {
    CcmTelemetryStatus status;
    CcmMotionControlType motion_control_type;
    uint8_t gain_stage_index;
    CcmCurrentTelemetry current_telemetry;
    CcmVelocityTelemetry velocity_telemetry;
} CcmTelemetry;

// ─── Kicker ──────────────────────────────────────────────────────────────────

typedef struct KickerControl {
    KickerCommandFlags flags;
    DribblerCommand dribbler_mode;
    KickRequest kick_request;
    float kick_speed;
    float drib_setpoint;
} KickerControl;

typedef struct KickerTelemetry {
    KickerStatusFlags status;
    uint16_t charge_pct;
    float rail_voltage;
    float battery_voltage;
    uint8_t kicker_image_hash[4];
    CcmTelemetry dribbler_motor;
} KickerTelemetry;

// ─── BodyControlCommand (discriminated union) ─────────────────────────────────
// cbindgen-style: explicit Tag enum + Body union + outer struct.
// Python generate_msgs.py detects this by the `tag` + `body` field pattern.

typedef enum BodyControlCommandTag {
    BodyControlCommandTag_Off               = 0,
    BodyControlCommandTag_EstopBrake        = 1,
    BodyControlCommandTag_GlobalPosition    = 10,
    BodyControlCommandTag_GlobalVelocity    = 11,
    BodyControlCommandTag_LocalVelocity     = 12,
    BodyControlCommandTag_GlobalAcceleration = 13,
    BodyControlCommandTag_LocalAcceleration = 14,
    BodyControlCommandTag_HeadingPivot      = 20,
    BodyControlCommandTag_PointPivot        = 21,
    BodyControlCommandTag_HeadingLine       = 30,
    BodyControlCommandTag_PointLine         = 31,
} __attribute__((packed)) BodyControlCommandTag;

typedef union BodyControlCommandBody {
    GlobalPositionCommand    global_position;
    GlobalVelocityCommand    global_velocity;
    LocalVelocityCommand     local_velocity;
    GlobalAccelerationCommand global_acceleration;
    LocalAccelerationCommand local_acceleration;
    HeadingPivotCommand      heading_pivot;
    PointPivotCommand        point_pivot;
    HeadingLineCommand       heading_line;
    PointLineCommand         point_line;
} BodyControlCommandBody;

typedef struct BodyControlCommand {
    BodyControlCommandTag tag;
    BodyControlCommandBody body;
} BodyControlCommand;

// ─── BasicControl (88B) ──────────────────────────────────────────────────────

typedef struct BasicControl {
    BasicControlFlags flags;
    float vision_position_update[3];
    KickRequest kick_request;
    uint8_t play_song;
    DribblerCommand dribbler_mode;
    uint8_t _pad;
    float kick_vel;
    float dribbler_setpoint;
    BodyControlCommand cmd;
} BasicControl;

// ─── BodyControlTelemetry (discriminated union) ───────────────────────────────

typedef enum BodyControlTelemetryTag {
    BodyControlTelemetryTag_Off               = 0,
    BodyControlTelemetryTag_EstopBrake        = 1,
    BodyControlTelemetryTag_GlobalPosition    = 10,
    BodyControlTelemetryTag_GlobalVelocity    = 11,
    BodyControlTelemetryTag_LocalVelocity     = 12,
    BodyControlTelemetryTag_GlobalAcceleration = 13,
    BodyControlTelemetryTag_LocalAcceleration = 14,
    BodyControlTelemetryTag_HeadingPivot      = 20,
    BodyControlTelemetryTag_PointPivot        = 21,
    BodyControlTelemetryTag_HeadingLine       = 30,
    BodyControlTelemetryTag_PointLine         = 31,
} __attribute__((packed)) BodyControlTelemetryTag;

typedef union BodyControlTelemetryBody {
    GlobalPositionTelemetry    global_position;
    GlobalVelocityTelemetry    global_velocity;
    LocalVelocityTelemetry     local_velocity;
    GlobalAccelerationTelemetry global_acceleration;
    LocalAccelerationTelemetry local_acceleration;
    HeadingPivotTelemetry      heading_pivot;
    PointPivotTelemetry        point_pivot;
    HeadingLineTelemetry       heading_line;
    PointLineTelemetry         point_line;
} BodyControlTelemetryBody;

typedef struct BodyControlTelemetry {
    BodyControlTelemetryTag tag;
    BodyControlTelemetryBody body;
} BodyControlTelemetry;

// ─── BasicTelemetry (32B) ────────────────────────────────────────────────────

typedef struct BasicTelemetry {
    uint8_t transmission_sequence_number;
    uint8_t control_data_sequence_number;
    uint8_t _reserved[2];
    BasicTelemetryErrors errors;
    uint16_t battery_percent;
    uint16_t kicker_charge_percent;
    BodyControlTelemetry control_telem;
    int16_t kf_body_pos_estimate[3];
    int16_t kf_body_vel_estimate[3];
} BasicTelemetry;

// ─── BodyControlManeuverExtendedTelemetry (discriminated union) ───────────────

typedef enum BodyControlManeuverExtendedTelemetryTag {
    BodyControlManeuverExtendedTelemetryTag_Off               = 0,
    BodyControlManeuverExtendedTelemetryTag_EstopBrake        = 1,
    BodyControlManeuverExtendedTelemetryTag_GlobalPosition    = 10,
    BodyControlManeuverExtendedTelemetryTag_GlobalVelocity    = 11,
    BodyControlManeuverExtendedTelemetryTag_LocalVelocity     = 12,
    BodyControlManeuverExtendedTelemetryTag_GlobalAcceleration = 13,
    BodyControlManeuverExtendedTelemetryTag_LocalAcceleration = 14,
    BodyControlManeuverExtendedTelemetryTag_HeadingPivot      = 20,
    BodyControlManeuverExtendedTelemetryTag_PointPivot        = 21,
    BodyControlManeuverExtendedTelemetryTag_HeadingLine       = 30,
    BodyControlManeuverExtendedTelemetryTag_PointLine         = 31,
} __attribute__((packed)) BodyControlManeuverExtendedTelemetryTag;

typedef union BodyControlManeuverExtendedTelemetryBody {
    ExtendedGlobalPositionTelemetry    global_position;
    ExtendedGlobalVelocityTelemetry    global_velocity;
    ExtendedLocalVelocityTelemetry     local_velocity;
    ExtendedGlobalAccelerationTelemetry global_acceleration;
    ExtendedLocalAccelerationTelemetry local_acceleration;
    ExtendedHeadingPivotTelemetry      heading_pivot;
    ExtendedPointPivotTelemetry        point_pivot;
    ExtendedHeadingLineTelemetry       heading_line;
    ExtendedPointLineTelemetry         point_line;
} BodyControlManeuverExtendedTelemetryBody;

typedef struct BodyControlManeuverExtendedTelemetry {
    BodyControlManeuverExtendedTelemetryTag tag;
    BodyControlManeuverExtendedTelemetryBody body;
} BodyControlManeuverExtendedTelemetry;

// ─── BodyControlExtendedTelemetry (208B) ─────────────────────────────────────

typedef struct BodyControlExtendedTelemetry {
    BodyControlExtTelemetryFlags flags;
    uint8_t _reserved[3];
    BodyControlManeuverExtendedTelemetry maneuver;
    float imu_gyro[3];
    float imu_accel[3];
    float vision_pose[3];
    float body_traj_pos[3];
    float body_traj_vel[3];
    float kf_body_pos_prediction[3];
    float kf_body_vel_prediction[3];
    float kf_body_pos_estimate[3];
    float kf_body_vel_estimate[3];
    float body_vel_u[3];
    float body_accel_u[3];
    float body_accel_u_fric_comp[3];
} BodyControlExtendedTelemetry;

// ─── ParameterData (discriminated union) ─────────────────────────────────────

typedef enum ParameterDataTag {
    ParameterDataTag_F32     = 0,
    ParameterDataTag_Vec2F32 = 1,
    ParameterDataTag_Vec3F32 = 2,
    ParameterDataTag_Vec4F32 = 3,
    ParameterDataTag_Vec5F32 = 4,
    ParameterDataTag_Vec6F32 = 5,
} __attribute__((packed)) ParameterDataTag;

typedef union ParameterDataBody {
    float f32[1];
    float vec2_f32[2];
    float vec3_f32[3];
    float vec4_f32[4];
    float vec5_f32[5];
    float vec6_f32[6];
} ParameterDataBody;

typedef struct ParameterData {
    ParameterDataTag tag;
    ParameterDataBody body;
} ParameterData;

typedef struct ParameterCommand {
    ParameterCommandCode command_code;
    ParameterName parameter_name;
    uint8_t _pad[2];
    ParameterData data;
} ParameterCommand;

// ─── ExtendedTelemetry (560B) ────────────────────────────────────────────────

typedef struct ExtendedTelemetry {
    uint32_t timestamp_us_lo;
    uint32_t timestamp_us_hi;
    PowerTelemetry power_status;
    CcmTelemetry front_left_motor;
    CcmTelemetry back_left_motor;
    CcmTelemetry back_right_motor;
    CcmTelemetry front_right_motor;
    BodyControlExtendedTelemetry body_control_telemetry;
    KickerTelemetry kicker_status;
} ExtendedTelemetry;

// ─── RadioData (discriminated union) ─────────────────────────────────────────

typedef enum RadioDataTag {
    RadioDataTag_HelloRequest           = 21,
    RadioDataTag_HelloResponse          = 22,
    RadioDataTag_Telemetry              = 41,
    RadioDataTag_ControlDebugTelemetry  = 42,
    RadioDataTag_RobotParameterCommand  = 43,
    RadioDataTag_ErrorTelemetry         = 44,
    RadioDataTag_Control                = 61,
} __attribute__((packed)) RadioDataTag;

typedef union RadioDataBody {
    HelloRequest        hello_request;
    HelloResponse       hello_response;
    BasicTelemetry      telemetry;
    ExtendedTelemetry   control_debug_telemetry;
    ParameterCommand    robot_parameter_command;
    ErrorTelemetry      error_telemetry;
    BasicControl        control;
} RadioDataBody;

typedef struct RadioData {
    RadioDataTag tag;
    RadioDataBody body;
} RadioData;

// ─── RadioHeader & RadioPacket (572B, ≤576B) ─────────────────────────────────

typedef struct __attribute__((packed)) RadioHeader {
    uint32_t crc32;
    uint8_t _reserved[2];
    uint16_t data_length;
} RadioHeader;

typedef struct __attribute__((aligned(4))) RadioPacket {
    RadioHeader header;
    RadioData data;
} RadioPacket;

static_assert(sizeof(RadioPacket) <= 576, "RadioPacket exceeds 576-byte buffer limit");
"#;

/// The C header declaring every packet type.
pub fn generate_packets_h() -> (r: String)
    ensures
        r@ == PACKETS_H@,
{
    String::from_str(PACKETS_H)
}

/// The offsets the header generator computes from the described fields are
/// the sums of the declared widths.
proof fn lemma_offsets_are_width_sums(fields: Seq<FieldDeclView>, i: int)
    requires
        0 <= i <= fields.len(),
    ensures
        offset_before(fields.map_values(|f: FieldDeclView| field_model(f)), i) == width_sum(fields, i),
    decreases i,
{
    if i > 0 {
        lemma_offsets_are_width_sums(fields, i - 1);
    }
}

/// The header generator and the flag-word layout agree: for a declaration
/// that is collected as a flag word and lays out over the base type its
/// `wire_bitfield` attribute names, every collected field has the offset and
/// the width the layout gives it, so the C accessors address the same bits as
/// the Rust ones.
pub proof fn lemma_header_offsets_match_layout(d: StructDeclView)
    requires
        struct_model(d) is Some,
        spec_plan(struct_model(d)->0.base_type, d) is Ok,
    ensures
        ({
            let bv = struct_model(d)->0;
            let p = spec_plan(bv.base_type, d)->Ok_0;
            &&& bv.fields.len() == p.len()
            &&& forall|i: int|
                0 <= i < p.len() ==> offset_before(bv.fields, i) == (#[trigger] p[i]).offset
                    && bv.fields[i].bits == p[i].bits
        }),
{
    let bv = struct_model(d)->0;
    let fs = d.named_fields->0;
    let total = spec_base_bits(bv.base_type)->0;
    let p = spec_plan(bv.base_type, d)->Ok_0;
    assert forall|i: int| 0 <= i < p.len() implies offset_before(bv.fields, i) == (
    #[trigger] p[i]).offset && bv.fields[i].bits == p[i].bits by {
        lemma_offsets_are_width_sums(fs, i);
        lemma_width_sum_monotone(fs, i, fs.len() as int);
        lemma_width_sum_monotone(fs, 0, i);
    }
}

/// The C accessors of a numeric field address the field's bits: the getter
/// shifts the word right by the field's offset and masks it with the field's
/// low-bits mask, and the builder clears the same mask shifted left by the
/// same offset and puts the masked value there. The offset is written as a
/// decimal numeral that reads back as `off`, and the mask as a hexadecimal
/// numeral that reads back as `2^bits - 1`; both are returned.
pub proof fn lemma_number_lines_address_field(
    prefix: Seq<char>,
    field: Seq<char>,
    name: Seq<char>,
    ret: Seq<char>,
    off: nat,
    bits: nat,
) -> (numerals: (Seq<char>, Seq<char>))
    ensures
        is_decimal_numeral(numerals.0),
        decimal_value(numerals.0) == off,
        is_hex_numeral(numerals.1),
        hex_value(numerals.1) == pow2(bits) - 1,
        number_lines(prefix, field, name, ret, off, bits) == ("static inline "@ + ret + " "@
            + prefix + field + "("@ + name + " v) { return ("@ + ret + ")((v >> "@ + numerals.0
            + "u) & 0x"@ + numerals.1 + "u); }\n"@) + ("static inline "@ + name + " "@ + prefix
            + "with_"@ + field + "("@ + name + " v, "@ + ret + " x) { return (v & ~(("@ + name
            + ")(0x"@ + numerals.1 + "u) << "@ + numerals.0 + "u)) | ((("@ + name + ")(x) & 0x"@
            + numerals.1 + "u) << "@ + numerals.0 + "u); }\n"@) + ("static inline void "@ + prefix
            + "set_"@ + field + "("@ + name + " *v, "@ + ret + " x) { *v = "@ + prefix + "with_"@
            + field + "(*v, x); }\n"@) + "\n"@,
{
    lemma_pow2_pos(bits);
    lemma_dec_text_reads_back(off);
    lemma_hex_text_reads_back((pow2(bits) - 1) as nat);
    (dec_text(off), hex_text((pow2(bits) - 1) as nat))
}

/// The C accessors of a flag test, set and clear the flag's bit: the getter
/// masks the word with a hexadecimal numeral that reads back as `2^off`, and
/// the builder ors in or masks out the same numeral. The numeral is returned.
pub proof fn lemma_flag_lines_address_bit(prefix: Seq<char>, field: Seq<char>, name: Seq<char>, off: nat) -> (mask: Seq<char>)
    ensures
        is_hex_numeral(mask),
        hex_value(mask) == pow2(off),
        flag_lines(prefix, field, name, off) == ("static inline bool "@ + prefix + field + "("@
            + name + " v) { return (v & 0x"@ + mask + "u) != 0u; }\n"@) + ("static inline "@
            + name + " "@ + prefix + "with_"@ + field + "("@ + name
            + " v, bool b) { return b ? (v | 0x"@ + mask + "u) : (v & ~0x"@ + mask + "u); }\n"@)
            + ("static inline void "@ + prefix + "set_"@ + field + "("@ + name
            + " *v, bool b) { *v = "@ + prefix + "with_"@ + field + "(*v, b); }\n"@) + "\n"@,
{
    lemma_hex_text_reads_back(pow2(off));
    hex_text(pow2(off))
}

/// The text of the first `n` fields is the text of the first `i` fields, then
/// the text of field `i` at its offset, then the rest.
proof fn lemma_fields_text_split(fields: Seq<BitFieldView>, i: int, n: int, prefix: Seq<char>, name: Seq<char>) -> (rest: Seq<char>)
    requires
        0 <= i < n <= fields.len(),
    ensures
        fields_text(fields, n, prefix, name) == fields_text(fields, i, prefix, name) + field_text(
            fields[i],
            offset_before(fields, i),
            prefix,
            name,
        ) + rest,
    decreases n,
{
    if n == i + 1 {
        let e = Seq::<char>::empty();
        assert(fields_text(fields, n, prefix, name) =~= fields_text(fields, i, prefix, name)
            + field_text(fields[i], offset_before(fields, i), prefix, name) + e);
        e
    } else {
        let r = lemma_fields_text_split(fields, i, n - 1, prefix, name);
        let last = field_text(fields[n - 1], offset_before(fields, n - 1), prefix, name);
        assert(fields_text(fields, n, prefix, name) =~= fields_text(fields, i, prefix, name)
            + field_text(fields[i], offset_before(fields, i), prefix, name) + (r + last));
        r + last
    }
}

/// The header of a flag word holds, for every field in declaration order, the
/// text of that field at its offset (the sum of the widths of the fields
/// before it), with the word's accessor prefix and type name; the text before
/// and after it is returned.
#[verifier::spinoff_prover]
#[verifier::rlimit(40)]
pub proof fn lemma_header_holds_field(bf: BitfieldStructView, i: int) -> (around: (Seq<char>, Seq<char>))
    requires
        0 <= i < bf.fields.len(),
    ensures
        header_text(bf) == around.0 + field_text(
            bf.fields[i],
            offset_before(bf.fields, i),
            spec_prefix(bf.name),
            bf.name,
        ) + around.1,
{
    let n = bf.fields.len() as int;
    let prefix = spec_prefix(bf.name);
    let rest = lemma_fields_text_split(bf.fields, i, n, prefix, bf.name);
    let h = "#pragma once\n#include <stdint.h>\n#include <stdbool.h>\n\ntypedef "@
        + spec_c_uint(bf.base_type) + " "@ + bf.name + ";\n\n"@;
    let f = fields_text(bf.fields, n, prefix, bf.name);
    let t1 = "\n/* Total bits: "@;
    let t2 = dec_text(offset_before(bf.fields, n) as nat);
    let t3 = " */\n"@;
    let x = fields_text(bf.fields, i, prefix, bf.name);
    let ft = field_text(bf.fields[i], offset_before(bf.fields, i), prefix, bf.name);
    assert(header_text(bf) == h + f + t1 + t2 + t3);
    assert(f == x + ft + rest);
    let before = h + x;
    let after = rest + t1 + t2 + t3;
    let mid = before + ft;
    assert(h + f =~= mid + rest);
    assert(mid + rest + t1 + t2 + t3 =~= mid + after);
    (before, after)
}

/// Whether an attribute names a flag word's base type: its path is
/// `wire_bitfield` and its argument is an identifier.
pub open spec fn names_wire_base(a: AttrDeclView) -> bool {
    a.path_ident == Some("wire_bitfield"@) && a.ident_arg is Some
}

/// A struct's flag-word base type comes from the last of its attributes that
/// names one, wherever that attribute stands among the others; attributes
/// with other paths play no part. When no attribute names a base type there
/// is none. The position of the deciding attribute is returned.
pub proof fn lemma_wire_base_is_last_naming(attrs: Seq<AttrDeclView>) -> (k: int)
    ensures
        (exists|j: int| 0 <= j < attrs.len() && #[trigger] names_wire_base(attrs[j])) ==> {
            &&& 0 <= k < attrs.len()
            &&& names_wire_base(attrs[k])
            &&& wire_base(attrs) == attrs[k].ident_arg
            &&& forall|m: int| k < m < attrs.len() ==> !#[trigger] names_wire_base(attrs[m])
        },
        (forall|j: int| 0 <= j < attrs.len() ==> !#[trigger] names_wire_base(attrs[j])) ==> wire_base(
            attrs,
        ) is None,
    decreases attrs.len(),
{
    if attrs.len() == 0 {
        0
    } else {
        let n = attrs.len() - 1;
        let rest = attrs.drop_last();
        if names_wire_base(attrs[n]) {
            n
        } else {
            let k = lemma_wire_base_is_last_naming(rest);
            assert forall|j: int| 0 <= j < n implies rest[j] == attrs[j] by {}
            if exists|j: int| 0 <= j < attrs.len() && #[trigger] names_wire_base(attrs[j]) {
                let j = choose|j: int| 0 <= j < attrs.len() && #[trigger] names_wire_base(attrs[j]);
                assert(j < n);
                assert(names_wire_base(rest[j]));
                assert(rest[k] == attrs[k]);
            } else {
                assert forall|j: int| 0 <= j < rest.len() implies !#[trigger] names_wire_base(rest[j]) by {
                    assert(rest[j] == attrs[j]);
                }
            }
            k
        }
    }
}

/// A struct declaration describes a flag word exactly when it has named
/// fields and one of its attributes names a base type; the flag word then
/// keeps the struct's name and takes the base type of the last such
/// attribute, and it has one field per declared field, in order.
pub proof fn lemma_struct_model_collects(d: StructDeclView) -> (k: int)
    ensures
        (struct_model(d) is Some) == (d.named_fields is Some && exists|j: int|
            0 <= j < d.attrs.len() && #[trigger] names_wire_base(d.attrs[j])),
        struct_model(d) is Some ==> {
            &&& 0 <= k < d.attrs.len()
            &&& names_wire_base(d.attrs[k])
            &&& forall|m: int| k < m < d.attrs.len() ==> !#[trigger] names_wire_base(d.attrs[m])
            &&& Some(struct_model(d)->0.base_type) == d.attrs[k].ident_arg
            &&& struct_model(d)->0.name == d.name
            &&& struct_model(d)->0.fields.len() == d.named_fields->0.len()
        },
{
    let k = lemma_wire_base_is_last_naming(d.attrs);
    k
}

/// The C type of a flag word is the unsigned C integer of the base type's
/// width: `uint` and the width in decimal and `_t`, so `uint8_t` for `u8` up
/// to `uint64_t` for `u64`; any other name gets `uint32_t`.
pub proof fn lemma_c_uint_has_base_width(t: Seq<char>)
    ensures
        spec_base_bits(t) is Some ==> spec_c_uint(t) == "uint"@ + dec_text(
            spec_base_bits(t)->0 as nat,
        ) + "_t"@,
        spec_base_bits(t) is None ==> spec_c_uint(t) == "uint"@ + dec_text(32) + "_t"@,
{
    reveal_strlit("u8");
    reveal_strlit("u16");
    reveal_strlit("u32");
    reveal_strlit("u64");
    reveal_strlit("uint");
    reveal_strlit("_t");
    reveal_strlit("uint8_t");
    reveal_strlit("uint16_t");
    reveal_strlit("uint32_t");
    reveal_strlit("uint64_t");
    assert(dec_text(8) =~= seq!['8']);
    assert(dec_text(1) =~= seq!['1']);
    assert(dec_text(6) =~= seq!['6']);
    assert(dec_text(3) =~= seq!['3']);
    assert(dec_text(2) =~= seq!['2']);
    assert(dec_text(4) =~= seq!['4']);
    assert(dec_text(16) =~= seq!['1', '6']);
    assert(dec_text(32) =~= seq!['3', '2']);
    assert(dec_text(64) =~= seq!['6', '4']);
    assert("uint8_t"@ =~= "uint"@ + dec_text(8) + "_t"@);
    assert("uint16_t"@ =~= "uint"@ + dec_text(16) + "_t"@);
    assert("uint32_t"@ =~= "uint"@ + dec_text(32) + "_t"@);
    assert("uint64_t"@ =~= "uint"@ + dec_text(64) + "_t"@);
}

/// How the accessor prefix grows char by char: a char that is not upper case
/// adds nothing; an upper-case char at the start of the name or after a char
/// that is not upper case adds its lowercase form; an upper-case char inside a
/// run of capitals adds its lowercase form only when a lower-case char follows
/// it (so `CCMStatus` gives `cs_`). The prefix is those initials then `_`.
pub proof fn lemma_prefix_initials_step(cases: Seq<(bool, bool, char)>, k: int)
    requires
        0 <= k < cases.len(),
    ensures
        !cases[k].0 ==> initials(cases, k + 1) == initials(cases, k),
        cases[k].0 && (k == 0 || !cases[k - 1].0) ==> initials(cases, k + 1) == initials(
            cases,
            k,
        ).push(cases[k].2),
        cases[k].0 && k > 0 && cases[k - 1].0 ==> initials(cases, k + 1) == if k + 1 < cases.len()
            && cases[k + 1].1 {
            initials(cases, k).push(cases[k].2)
        } else {
            initials(cases, k)
        },
        prefix_text(cases) == initials(cases, cases.len() as int) + seq!['_'],
{
    assert(initials(cases, cases.len() as int).push('_') =~= initials(cases, cases.len() as int)
        + seq!['_']);
}

} // verus!

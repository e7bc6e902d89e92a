//! Struct declarations as the flag-word tools read them, and the rules that
//! turn a declaration into a flag-word layout.
//!
//! A declaration keeps, for the struct and each of its fields, the name, the
//! last identifier of the field's type, and the attributes with what their
//! arguments parse as.

use crate::text::{starts_with_underscore, str_equals};
use vstd::prelude::*;

verus! {

/// An attribute of a struct or a field.
pub struct AttrDecl {
    /// The attribute's path when it is a single identifier, as in `#[bits(..)]`.
    pub path_ident: Option<String>,
    /// The attribute's argument when it parses as an identifier.
    pub ident_arg: Option<String>,
    /// Whether the attribute's argument parses as an integer literal, and then
    /// its value when that fits in a `u32`.
    pub int_arg: Option<Option<u32>>,
}

/// A named field of a struct.
pub struct FieldDecl {
    pub name: String,
    /// The last identifier of the field's type path, empty when the type is
    /// not a path.
    pub type_ident: String,
    pub attrs: Vec<AttrDecl>,
}

/// A struct declaration.
pub struct StructDecl {
    pub name: String,
    pub attrs: Vec<AttrDecl>,
    /// The fields when the struct has named fields.
    pub named_fields: Option<Vec<FieldDecl>>,
}

/// The value of an attribute, with its strings as character sequences.
pub struct AttrDeclView {
    pub path_ident: Option<Seq<char>>,
    pub ident_arg: Option<Seq<char>>,
    pub int_arg: Option<Option<u32>>,
}

/// The character sequence of an optional string.
pub open spec fn opt_str_view(s: Option<String>) -> Option<Seq<char>> {
    match s {
        Some(t) => Some(t@),
        None => None,
    }
}

impl View for AttrDecl {
    type V = AttrDeclView;

    open spec fn view(&self) -> AttrDeclView {
        AttrDeclView {
            path_ident: opt_str_view(self.path_ident),
            ident_arg: opt_str_view(self.ident_arg),
            int_arg: self.int_arg,
        }
    }
}

/// The values of a sequence of attributes.
pub open spec fn attr_views(attrs: Seq<AttrDecl>) -> Seq<AttrDeclView> {
    attrs.map_values(|a: AttrDecl| a@)
}

/// The value of a field declaration.
pub struct FieldDeclView {
    pub name: Seq<char>,
    pub type_ident: Seq<char>,
    pub attrs: Seq<AttrDeclView>,
}

impl View for FieldDecl {
    type V = FieldDeclView;

    open spec fn view(&self) -> FieldDeclView {
        FieldDeclView {
            name: self.name@,
            type_ident: self.type_ident@,
            attrs: attr_views(self.attrs@),
        }
    }
}

/// The values of a sequence of field declarations.
pub open spec fn field_decl_views(fields: Seq<FieldDecl>) -> Seq<FieldDeclView> {
    fields.map_values(|f: FieldDecl| f@)
}

/// The value of a struct declaration.
pub struct StructDeclView {
    pub name: Seq<char>,
    pub attrs: Seq<AttrDeclView>,
    pub named_fields: Option<Seq<FieldDeclView>>,
}

impl View for StructDecl {
    type V = StructDeclView;

    open spec fn view(&self) -> StructDeclView {
        StructDeclView {
            name: self.name@,
            attrs: attr_views(self.attrs@),
            named_fields: match self.named_fields {
                Some(f) => Some(field_decl_views(f@)),
                None => None,
            },
        }
    }
}

/// Whether the attribute's path is the single identifier `name`.
pub open spec fn attr_is(a: AttrDeclView, name: Seq<char>) -> bool {
    a.path_ident == Some(name)
}

/// The width given by the first `bits` attribute whose argument is an integer
/// literal: its value, or `None` when the value does not fit in a `u32`.
/// `None` also when no such attribute exists.
pub open spec fn spec_bits_attr(attrs: Seq<AttrDeclView>) -> Option<u32>
    decreases attrs.len(),
{
    if attrs.len() == 0 {
        None
    } else if attr_is(attrs[0], "bits"@) && attrs[0].int_arg is Some {
        attrs[0].int_arg->0
    } else {
        spec_bits_attr(attrs.drop_first())
    }
}

/// The natural width in bits of a primitive type name, 0 for other names.
pub open spec fn spec_type_bits(t: Seq<char>) -> u32 {
    if t == "bool"@ {
        1
    } else if t == "u8"@ || t == "i8"@ {
        8
    } else if t == "u16"@ || t == "i16"@ {
        16
    } else if t == "u32"@ || t == "i32"@ {
        32
    } else if t == "u64"@ || t == "i64"@ {
        64
    } else {
        0
    }
}

/// The width of a field: its `bits` attribute, else the natural width of its
/// type.
pub open spec fn spec_field_bits(f: FieldDeclView) -> u32 {
    match spec_bits_attr(f.attrs) {
        Some(n) => n,
        None => spec_type_bits(f.type_ident),
    }
}

/// Whether a field is reserved: its name starts with an underscore.
pub open spec fn spec_reserved(name: Seq<char>) -> bool {
    name.len() > 0 && name[0] == '_'
}

/// Reads the width given by a field's `bits` attribute.
pub fn get_bits_attr(attrs: &Vec<AttrDecl>) -> (r: Option<u32>)
    ensures
        r == spec_bits_attr(attr_views(attrs@)),
{
    let ghost av = attr_views(attrs@);
    let mut i: usize = 0;
    assert(av.skip(0) =~= av);
    while i < attrs.len()
        invariant
            i <= attrs@.len(),
            av == attr_views(attrs@),
            spec_bits_attr(av) == spec_bits_attr(av.skip(i as int)),
        decreases attrs@.len() - i,
    {
        let a = &attrs[i];
        assert(av.skip(i as int)[0] == attrs@[i as int]@);
        assert(av.skip(i as int).drop_first() =~= av.skip(i + 1));
        let is_bits = match &a.path_ident {
            Some(p) => str_equals(p.as_str(), "bits"),
            None => false,
        };
        if is_bits {
            match a.int_arg {
                Some(n) => {
                    return n;
                },
                None => {},
            }
        }
        i = i + 1;
    }
    assert(av.skip(i as int).len() == 0);
    None
}

/// The natural width in bits of a primitive type name: 1 for `bool`, 8, 16,
/// 32 or 64 for the integer types, 0 for any other name.
pub fn bits_for_type(type_str: &str) -> (r: u32)
    ensures
        r == spec_type_bits(type_str@),
{
    if str_equals(type_str, "bool") {
        1
    } else if str_equals(type_str, "u8") || str_equals(type_str, "i8") {
        8
    } else if str_equals(type_str, "u16") || str_equals(type_str, "i16") {
        16
    } else if str_equals(type_str, "u32") || str_equals(type_str, "i32") {
        32
    } else if str_equals(type_str, "u64") || str_equals(type_str, "i64") {
        64
    } else {
        0
    }
}

/// The width of a field: its `bits` attribute, else the natural width of its
/// type.
pub fn field_bits(f: &FieldDecl) -> (r: u32)
    ensures
        r == spec_field_bits(f@),
{
    match get_bits_attr(&f.attrs) {
        Some(n) => n,
        None => bits_for_type(f.type_ident.as_str()),
    }
}

/// Whether a field name marks a reserved field.
pub fn is_reserved(name: &String) -> (r: bool)
    ensures
        r == spec_reserved(name@),
{
    starts_with_underscore(name.as_str())
}

/// Whether an attribute gives a field width: its path is `bits` and its
/// argument is an integer literal.
pub open spec fn gives_width(a: AttrDeclView) -> bool {
    a.path_ident == Some("bits"@) && a.int_arg is Some
}

/// A field's explicit width comes from the first of its attributes that gives
/// one, wherever it stands among the others; attributes with other paths play
/// no part, and neither do later `bits` attributes. With no such attribute
/// there is none. The position of the deciding attribute is returned.
pub proof fn lemma_bits_attr_is_first_giving(attrs: Seq<AttrDeclView>) -> (k: int)
    ensures
        (exists|j: int| 0 <= j < attrs.len() && #[trigger] gives_width(attrs[j])) ==> {
            &&& 0 <= k < attrs.len()
            &&& gives_width(attrs[k])
            &&& spec_bits_attr(attrs) == attrs[k].int_arg->0
            &&& forall|m: int| 0 <= m < k ==> !#[trigger] gives_width(attrs[m])
        },
        (forall|j: int| 0 <= j < attrs.len() ==> !#[trigger] gives_width(attrs[j])) ==> spec_bits_attr(
            attrs,
        ) is None,
    decreases attrs.len(),
{
    if attrs.len() == 0 {
        0
    } else if gives_width(attrs[0]) {
        0
    } else {
        let rest = attrs.drop_first();
        let k = lemma_bits_attr_is_first_giving(rest);
        assert forall|j: int| 0 <= j < rest.len() implies rest[j] == attrs[j + 1] by {}
        if exists|j: int| 0 <= j < attrs.len() && #[trigger] gives_width(attrs[j]) {
            let j = choose|j: int| 0 <= j < attrs.len() && #[trigger] gives_width(attrs[j]);
            assert(j > 0);
            assert(gives_width(rest[j - 1]));
            assert(rest[k] == attrs[k + 1]);
            assert forall|m: int| 0 <= m < k + 1 implies !#[trigger] gives_width(attrs[m]) by {
                if m > 0 {
                    assert(attrs[m] == rest[m - 1]);
                }
            }
        } else {
            assert forall|j: int| 0 <= j < rest.len() implies !#[trigger] gives_width(rest[j]) by {
                assert(rest[j] == attrs[j + 1]);
            }
        }
        k + 1
    }
}

} // verus!

use ateam_common_packets::codegen::{
    c_uint, collect_bitfield_structs, generate_bitfield_header, generate_packets_h,
    parse_bitfield_structs, prefix_from_cases, snake_to_prefix, BitField, BitfieldStruct,
};
use ateam_common_packets::bits::{get_field16, put_field16};
use ateam_common_packets::decl::{bits_for_type, get_bits_attr, AttrDecl, FieldDecl, StructDecl};
use ateam_common_packets::layout::{default_bits, plan_wire_bitfield, FieldPlan, WireBitfieldError};

fn path_attr(name: &str) -> AttrDecl {
    AttrDecl { path_ident: Some(name.to_string()), ident_arg: None, int_arg: None }
}

fn bits_attr(n: u32) -> AttrDecl {
    AttrDecl { path_ident: Some("bits".to_string()), ident_arg: None, int_arg: Some(Some(n)) }
}

fn wire_attr(base: &str) -> AttrDecl {
    AttrDecl {
        path_ident: Some("wire_bitfield".to_string()),
        ident_arg: Some(base.to_string()),
        int_arg: None,
    }
}

fn field(name: &str, ty: &str, attrs: Vec<AttrDecl>) -> FieldDecl {
    FieldDecl { name: name.to_string(), type_ident: ty.to_string(), attrs }
}

fn bool_field(name: &str, bits: u32, reserved: bool) -> BitField {
    BitField {
        name: name.to_string(),
        bits,
        reserved,
        is_bool: true,
        field_type: "bool".to_string(),
    }
}

#[test]
fn type_widths() {
    assert_eq!(bits_for_type("bool"), 1);
    assert_eq!(bits_for_type("u8"), 8);
    assert_eq!(bits_for_type("i8"), 8);
    assert_eq!(bits_for_type("i16"), 16);
    assert_eq!(bits_for_type("u32"), 32);
    assert_eq!(bits_for_type("i64"), 64);
    assert_eq!(bits_for_type("f32"), 0);
    assert_eq!(bits_for_type(""), 0);
    assert_eq!(default_bits("u16"), 16);
    assert_eq!(default_bits("usize"), 0);
}

#[test]
fn c_integer_types() {
    assert_eq!(c_uint("u8"), "uint8_t");
    assert_eq!(c_uint("u16"), "uint16_t");
    assert_eq!(c_uint("u32"), "uint32_t");
    assert_eq!(c_uint("u64"), "uint64_t");
    assert_eq!(c_uint("bool"), "uint32_t");
}

#[test]
fn accessor_prefixes() {
    assert_eq!(snake_to_prefix("BasicControlFlags"), "bcf_");
    assert_eq!(snake_to_prefix("CcmTelemetryStatus"), "cts_");
    assert_eq!(snake_to_prefix("CCMTelemetryStatus"), "cts_");
    assert_eq!(snake_to_prefix("CCMStatus"), "cs_");
    assert_eq!(snake_to_prefix("ABC"), "a_");
    assert_eq!(snake_to_prefix("IOFlags2"), "if_");
    assert_eq!(snake_to_prefix("flags"), "_");
    assert_eq!(snake_to_prefix(""), "_");
    assert_eq!(
        prefix_from_cases(&vec![
            (true, false, 'a'),
            (true, false, 'b'),
            (false, true, 'c'),
            (true, false, 'd'),
        ]),
        "abd_"
    );
    assert_eq!(
        prefix_from_cases(&vec![(true, false, 'x'), (true, false, 'y'), (false, false, '1')]),
        "x_"
    );
    assert_eq!(prefix_from_cases(&vec![]), "_");
}

#[test]
fn bits_attribute_lookup() {
    assert_eq!(get_bits_attr(&vec![]), None);
    assert_eq!(get_bits_attr(&vec![path_attr("doc"), bits_attr(23)]), Some(23));
    assert_eq!(get_bits_attr(&vec![bits_attr(5), bits_attr(6)]), Some(5));
    let unparsable = AttrDecl { path_ident: Some("bits".to_string()), ident_arg: None, int_arg: None };
    assert_eq!(get_bits_attr(&vec![unparsable, bits_attr(4)]), Some(4));
    let too_big = AttrDecl { path_ident: Some("bits".to_string()), ident_arg: None, int_arg: Some(None) };
    assert_eq!(get_bits_attr(&vec![too_big, bits_attr(4)]), None);
}

fn basic_control_flags_decl() -> StructDecl {
    let mut fields: Vec<FieldDecl> = [
        "request_shutdown",
        "reboot_robot",
        "game_state_in_stop",
        "game_state_in_halt",
        "emergency_stop",
        "wheel_vel_control_enabled",
        "wheel_torque_control_enabled",
        "vision_update",
        "reset_controller",
    ]
    .iter()
    .map(|n| field(n, "bool", vec![]))
    .collect();
    fields.push(field("_reserved", "u32", vec![bits_attr(23)]));
    StructDecl {
        name: "BasicControlFlags".to_string(),
        attrs: vec![wire_attr("u32")],
        named_fields: Some(fields),
    }
}

#[test]
fn wire_bitfield_layout() {
    let plan = plan_wire_bitfield("u32", &basic_control_flags_decl()).unwrap();
    assert_eq!(plan.len(), 10);
    for i in 0..9 {
        assert_eq!(plan[i], FieldPlan { offset: i as u32, bits: 1 });
    }
    assert_eq!(plan[9], FieldPlan { offset: 9, bits: 23 });
}

#[test]
fn planned_field_writes_stay_in_their_field() {
    let decl = StructDecl {
        name: "Mixed".to_string(),
        attrs: vec![wire_attr("u16")],
        named_fields: Some(vec![
            field("armed", "bool", vec![]),
            field("level", "u8", vec![bits_attr(3)]),
            field("mode", "u8", vec![bits_attr(4)]),
            field("_reserved", "u8", vec![]),
        ]),
    };
    let plan = plan_wire_bitfield("u16", &decl).unwrap();
    assert_eq!(
        plan,
        vec![
            FieldPlan { offset: 0, bits: 1 },
            FieldPlan { offset: 1, bits: 3 },
            FieldPlan { offset: 4, bits: 4 },
            FieldPlan { offset: 8, bits: 8 },
        ]
    );
    let w: u16 = 0xA5C3;
    for i in 0..plan.len() {
        let p = plan[i];
        let written = put_field16(w, p.offset, p.bits, 0xFFFF);
        let mask: u16 = if p.bits >= 16 { u16::MAX } else { (1u16 << p.bits) - 1 };
        assert_eq!(get_field16(written, p.offset, p.bits), mask);
        for j in 0..plan.len() {
            if j != i {
                let q = plan[j];
                assert_eq!(get_field16(written, q.offset, q.bits), get_field16(w, q.offset, q.bits));
            }
        }
    }
    let level = plan[1];
    let written = put_field16(0, level.offset, level.bits, 0b1110);
    assert_eq!(written, 0b1100);
    assert_eq!(get_field16(written, level.offset, level.bits), 0b110);
}

#[test]
fn wire_bitfield_errors() {
    let decl = basic_control_flags_decl();
    assert_eq!(plan_wire_bitfield("u7", &decl), Err(WireBitfieldError::UnsupportedBaseType));
    assert_eq!(
        plan_wire_bitfield("u16", &decl),
        Err(WireBitfieldError::WidthMismatch { used: 32, total: 16 })
    );
    let tuple = StructDecl { name: "T".to_string(), attrs: vec![], named_fields: None };
    assert_eq!(plan_wire_bitfield("u8", &tuple), Err(WireBitfieldError::UnnamedFields));
    let unknown = StructDecl {
        name: "U".to_string(),
        attrs: vec![],
        named_fields: Some(vec![field("a", "bool", vec![]), field("x", "f32", vec![]), field("y", "f64", vec![])]),
    };
    assert_eq!(plan_wire_bitfield("u8", &unknown), Err(WireBitfieldError::UnknownWidth { field: 1 }));
    let sized = StructDecl {
        name: "S".to_string(),
        attrs: vec![],
        named_fields: Some(vec![field("x", "f32", vec![bits_attr(3)]), field("_r", "u8", vec![bits_attr(5)])]),
    };
    assert_eq!(
        plan_wire_bitfield("u8", &sized),
        Ok(vec![FieldPlan { offset: 0, bits: 3 }, FieldPlan { offset: 3, bits: 5 }])
    );
}

#[test]
fn collect_structs_from_declarations() {
    let plain = StructDecl {
        name: "Plain".to_string(),
        attrs: vec![path_attr("derive")],
        named_fields: Some(vec![field("a", "u8", vec![])]),
    };
    let tuple = StructDecl { name: "Tuple".to_string(), attrs: vec![wire_attr("u8")], named_fields: None };
    let decls = vec![Some(plain), None, Some(basic_control_flags_decl()), Some(tuple)];
    let out = collect_bitfield_structs(&decls);
    assert_eq!(out.len(), 1);
    assert_eq!(out[0].name, "BasicControlFlags");
    assert_eq!(out[0].base_type, "u32");
    assert_eq!(out[0].fields.len(), 10);
    assert_eq!(out[0].fields[0].name, "request_shutdown");
    assert!(out[0].fields[0].is_bool);
    assert!(!out[0].fields[0].reserved);
    assert_eq!(out[0].fields[0].bits, 1);
    assert!(out[0].fields[9].reserved);
    assert!(!out[0].fields[9].is_bool);
    assert_eq!(out[0].fields[9].bits, 23);
    assert_eq!(out[0].fields[9].field_type, "u32");

    let twice = StructDecl {
        name: "Twice".to_string(),
        attrs: vec![wire_attr("u8"), wire_attr("u16")],
        named_fields: Some(vec![]),
    };
    assert_eq!(collect_bitfield_structs(&vec![Some(twice)])[0].base_type, "u16");
}

#[test]
fn header_for_flags_and_numbers() {
    let bf = BitfieldStruct {
        name: "Flags".to_string(),
        base_type: "u32".to_string(),
        fields: vec![
            bool_field("flag_a", 1, false),
            BitField {
                name: "count".to_string(),
                bits: 6,
                reserved: false,
                is_bool: false,
                field_type: "u8".to_string(),
            },
            BitField {
                name: "_reserved".to_string(),
                bits: 25,
                reserved: true,
                is_bool: false,
                field_type: "u32".to_string(),
            },
        ],
    };
    let expected = "#pragma once\n\
#include <stdint.h>\n\
#include <stdbool.h>\n\
\n\
typedef uint32_t Flags;\n\
\n\
static inline bool f_flag_a(Flags v) { return (v & 0x1u) != 0u; }\n\
static inline Flags f_with_flag_a(Flags v, bool b) { return b ? (v | 0x1u) : (v & ~0x1u); }\n\
static inline void f_set_flag_a(Flags *v, bool b) { *v = f_with_flag_a(*v, b); }\n\
\n\
static inline uint8_t f_count(Flags v) { return (uint8_t)((v >> 1u) & 0x3Fu); }\n\
static inline Flags f_with_count(Flags v, uint8_t x) { return (v & ~((Flags)(0x3Fu) << 1u)) | (((Flags)(x) & 0x3Fu) << 1u); }\n\
static inline void f_set_count(Flags *v, uint8_t x) { *v = f_with_count(*v, x); }\n\
\n\
\n\
/* Total bits: 32 */\n";
    assert_eq!(generate_bitfield_header(&bf), expected);
}

#[test]
fn header_for_a_high_flag() {
    let mut fields = vec![];
    for i in 0..16 {
        fields.push(bool_field(&format!("f{}", i), 1, i == 3));
    }
    let bf = BitfieldStruct { name: "CcmTelemetryStatus".to_string(), base_type: "u16".to_string(), fields };
    let h = generate_bitfield_header(&bf);
    assert!(h.contains("typedef uint16_t CcmTelemetryStatus;\n"));
    assert!(h.contains(
        "static inline bool cts_f15(CcmTelemetryStatus v) { return (v & 0x8000u) != 0u; }\n"
    ));
    assert!(h.contains("cts_with_f10(CcmTelemetryStatus v, bool b) { return b ? (v | 0x400u) : (v & ~0x400u); }"));
    assert!(!h.contains("cts_f3("));
    assert!(h.ends_with("\n/* Total bits: 16 */\n"));
}

#[test]
fn packets_header() {
    let h = generate_packets_h();
    assert!(h.contains("#pragma once\n"));
    assert!(h.contains("#include \"bitfields/CcmTelemetryStatus.h\"\n"));
    assert!(h.contains("RadioDataTag_Control                = 61,"));
    assert!(h.ends_with("static_assert(sizeof(RadioPacket) <= 576, \"RadioPacket exceeds 576-byte buffer limit\");\n"));
}

#[test]
fn parse_structs_from_source_text() {
    let src = "use x::wire_bitfield;\n\
#[wire_bitfield(u16)]\n\
pub struct KickerCommandFlags {\n\
    pub telemetry_enabled: bool,\n\
    pub enable_charging: bool,\n\
    #[bits(14)]\n\
    _reserved: u16,\n\
}\n\
pub struct Plain { pub a: u8 }\n\
#[wire_bitfield(u8)]\n\
pub struct Tuple(u8);\n\
#[derive(Clone)]\n\
#[wire_bitfield(u8)]\n\
pub struct Counter {\n\
    #[bits(3)]\n\
    pub count: u8,\n\
    pub level: crate::Level,\n\
}\n";
    let out = parse_bitfield_structs(src);
    assert_eq!(out.len(), 2);
    assert_eq!(out[0].name, "KickerCommandFlags");
    assert_eq!(out[0].base_type, "u16");
    assert_eq!(out[0].fields.len(), 3);
    assert_eq!(out[0].fields[1].name, "enable_charging");
    assert!(out[0].fields[1].is_bool && !out[0].fields[1].reserved && out[0].fields[1].bits == 1);
    assert_eq!(out[0].fields[2].name, "_reserved");
    assert!(out[0].fields[2].reserved && out[0].fields[2].bits == 14);
    assert_eq!(out[1].name, "Counter");
    assert_eq!(out[1].fields[0].bits, 3);
    assert!(!out[1].fields[0].is_bool);
    assert_eq!(out[1].fields[1].field_type, "Level");
    assert_eq!(out[1].fields[1].bits, 0);
}

#[test]
fn parse_failure_gives_no_structs() {
    assert!(parse_bitfield_structs("pub struct {").is_empty());
    assert!(parse_bitfield_structs("").is_empty());
}

#[test]
fn header_for_a_full_width_field() {
    let bf = BitfieldStruct {
        name: "Wide".to_string(),
        base_type: "u64".to_string(),
        fields: vec![BitField {
            name: "v".to_string(),
            bits: 64,
            reserved: false,
            is_bool: false,
            field_type: "u64".to_string(),
        }],
    };
    let h = generate_bitfield_header(&bf);
    assert!(h.contains(
        "static inline uint64_t w_v(Wide v) { return (uint64_t)((v >> 0u) & 0xFFFFFFFFFFFFFFFFu); }\n"
    ));
    assert!(h.ends_with("\n/* Total bits: 64 */\n"));
}

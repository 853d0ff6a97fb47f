use hwgen::builder::{record_c_define, record_c_struct_typedef, record_hw_define,
    record_struct_typedef};
use hwgen::flatten::{ArrayKind, FieldDecl, FieldShape};
use hwgen::gen_c::generate_c_file;
use hwgen::gen_hw::generate_hw_file;
use hwgen::gen_rust::{emit_hw_struct, generate_define, generate_rust_file, get_val_info};
use hwgen::ir::{CJson, HWDefine, HWDefineType, HWJson, HWStruct, HWStructField, WantedJson,
    GROUP_NONE};

fn value(vals: &[&str]) -> HWDefine {
    HWDefine {
        hwtype: HWDefineType::Value,
        vals: vals.iter().map(|v| v.to_string()).collect(),
    }
}

fn toks(words: &[&str]) -> Vec<String> {
    words.iter().map(|w| w.to_string()).collect()
}

fn nvu32_field(name: &str, byte_offset: u32) -> FieldDecl {
    FieldDecl {
        name: name.to_string(),
        byte_offset,
        array: ArrayKind::NotArray,
        aligned: false,
        shape: FieldShape::Integer {
            bits: 32,
            builtin: false,
            ty_name: "NvU32".to_string(),
        },
    }
}

#[test]
fn val_info_strips_suffixes() {
    assert_eq!(get_val_info("10ULL".to_string()), (64, "10_u64".to_string()));
    assert_eq!(get_val_info("5U".to_string()), (32, "5".to_string()));
    assert_eq!(get_val_info("5u".to_string()), (32, "5".to_string()));
    assert_eq!(get_val_info("7".to_string()), (32, "7".to_string()));
}

#[test]
fn equal_value_pair_dedups_to_one_constant() {
    let text = generate_define(&"NAME".to_string(), &value(&["5", "5"]));
    assert_eq!(text, "pub(crate) const NAME: u32 = 5;\n");
}

#[test]
fn distinct_value_pair_splits_into_a_and_b() {
    let text = generate_define(&"NAME".to_string(), &value(&["2", "7"]));
    assert_eq!(
        text,
        "pub(crate) const NAME_A: u32 = 2;\npub(crate) const NAME_B: u32 = 7;\n"
    );
}

#[test]
fn single_value_emits_one_constant() {
    let text = generate_define(&"WIDE".to_string(), &value(&["10ULL"]));
    assert_eq!(text, "pub(crate) const WIDE: u64 = 10_u64;\n");
}

#[test]
fn accessor_type_for_one_scalar_field() {
    let structs = vec![(
        "T".to_string(),
        HWStruct {
            total_size: 32,
            fields: vec![HWStructField {
                name: "x".to_string(),
                start: 0,
                size: 32,
                group_len: GROUP_NONE,
                isint: 1,
                val_type: "NvU32".to_string(),
            }],
        },
    )];
    let text = emit_hw_struct(&structs, "T");
    let expected = "pub(crate) struct s_T<'s> {\n    store: &'s mut [u8],\n}\n\nimpl<'s> s_T<'s> {\n    pub(crate) const fn str_size() -> usize {\n        4\n    }\n    pub(crate) fn new(store: &'s mut [u8]) -> Self {\n        let (store, _) = store.split_at_mut(Self::str_size());\n        Self { store }\n    }\n\n    pub(crate) fn x(self, fld: u32) -> Self {\n        self.store[0..4].copy_from_slice(&u32::to_le_bytes(fld));\n    self }\n\n    pub(crate) fn get_x(&self) -> u32 {\n        u32::from_le_bytes(self.store[0..4].try_into().unwrap())\n    }\n    pub(crate) fn set_x(&mut self, fld: u32) {\n        self.store[0..4].copy_from_slice(&u32::to_le_bytes(fld));\n    }\n}\n\n";
    assert_eq!(text, expected);
}

#[test]
fn accessor_renames_field_called_type() {
    let structs = vec![(
        "T".to_string(),
        HWStruct {
            total_size: 32,
            fields: vec![HWStructField {
                name: "type".to_string(),
                start: 0,
                size: 32,
                group_len: GROUP_NONE,
                isint: 1,
                val_type: String::new(),
            }],
        },
    )];
    let text = emit_hw_struct(&structs, "T");
    assert!(text.contains("fn rtype(self, fld: u32)"));
    assert!(text.contains("fn get_rtype(&self)"));
    assert!(!text.contains("fn type("));
}

#[test]
fn accessor_skips_width_zero_fields() {
    let structs = vec![(
        "T".to_string(),
        HWStruct {
            total_size: 64,
            fields: vec![
                HWStructField {
                    name: "bad".to_string(),
                    start: 0,
                    size: 0,
                    group_len: GROUP_NONE,
                    isint: 1,
                    val_type: String::new(),
                },
                HWStructField {
                    name: "ok".to_string(),
                    start: 32,
                    size: 32,
                    group_len: GROUP_NONE,
                    isint: 1,
                    val_type: String::new(),
                },
            ],
        },
    )];
    let text = emit_hw_struct(&structs, "T");
    assert!(!text.contains("bad"));
    assert!(text.contains("fn get_ok"));
}

#[test]
fn accessor_array_and_substruct_fields() {
    let structs = vec![
        (
            "SUB".to_string(),
            HWStruct {
                total_size: 32,
                fields: vec![HWStructField {
                    name: "v".to_string(),
                    start: 0,
                    size: 32,
                    group_len: GROUP_NONE,
                    isint: 1,
                    val_type: String::new(),
                }],
            },
        ),
        (
            "T".to_string(),
            HWStruct {
                total_size: 192,
                fields: vec![
                    HWStructField {
                        name: "arr".to_string(),
                        start: 0,
                        size: 32,
                        group_len: 4,
                        isint: 1,
                        val_type: "NvU32".to_string(),
                    },
                    HWStructField {
                        name: "sub".to_string(),
                        start: 128,
                        size: 32,
                        group_len: GROUP_NONE,
                        isint: 0,
                        val_type: "SUB".to_string(),
                    },
                ],
            },
        ),
    ];
    let text = emit_hw_struct(&structs, "T");
    assert!(text.contains("fn arr(self, fld: [u32; 4]) -> Self {"));
    assert!(text.contains("fn set_arr(&mut self, fld: [u32; 4])"));
    assert!(text.contains("fn get_arr(&mut self) -> [u32; 4]"));
    assert!(text.contains("fn new_S_sub(&mut self) -> s_SUB<'_> {"));
    assert!(text.contains("s_SUB::new(&mut self.store[16..20])"));
}

#[test]
fn struct_declaration_handles_sentinel_and_width_zero() {
    let hws = HWStruct {
        total_size: 96,
        fields: vec![
            HWStructField {
                name: "a".to_string(),
                start: 0,
                size: 32,
                group_len: GROUP_NONE,
                isint: 1,
                val_type: String::new(),
            },
            HWStructField {
                name: "b".to_string(),
                start: 32,
                size: 16,
                group_len: 2,
                isint: 1,
                val_type: String::new(),
            },
            HWStructField {
                name: "bad".to_string(),
                start: 64,
                size: 0,
                group_len: GROUP_NONE,
                isint: 1,
                val_type: String::new(),
            },
        ],
    };
    let text = hwgen::gen_hw::generate_hw_struct(&"S".to_string(), &hws);
    assert_eq!(text, "struct S {\n    u32 a;\n    u16 b[2];\n};\n");
}

#[test]
fn rust_file_command_group_prefix_selection() {
    let json = HWJson {
        version: "1.2.3".to_string(),
        defines: vec![
            ("NVFOO_CTRL_BAR_FLAG".to_string(), value(&["1"])),
            ("NVFOO_CTRL_CMD_BAR".to_string(), value(&["2"])),
            ("NVFOO_CTRL_OTHER".to_string(), value(&["3"])),
            ("NVOTHER_THING".to_string(), value(&["4"])),
        ],
        structs: vec![(
            "NVFOO_CTRL_BAR_PARAMS".to_string(),
            HWStruct {
                total_size: 32,
                fields: vec![HWStructField {
                    name: "v".to_string(),
                    start: 0,
                    size: 32,
                    group_len: GROUP_NONE,
                    isint: 1,
                    val_type: String::new(),
                }],
            },
        )],
    };
    let wanted = WantedJson {
        structs: vec![],
        cmds: vec![("FOO".to_string(), vec!["BAR".to_string()])],
        defines: vec![],
    };
    let out = generate_rust_file(&json, &wanted).unwrap();
    assert!(out.contains("pub(crate) const NVFOO_CTRL_BAR_FLAG: u32 = 1;"));
    assert!(out.contains("pub(crate) const NVFOO_CTRL_CMD_BAR: u32 = 2;"));
    assert!(!out.contains("NVFOO_CTRL_OTHER"));
    assert!(!out.contains("NVOTHER_THING"));
    assert!(out.contains("pub(crate) struct s_NVFOO_CTRL_BAR_PARAMS<'s>"));
}

#[test]
fn command_group_expands_only_nonscalar_fields() {
    // The one-level expansion follows struct-valued (isint == 0) fields
    // by element-type name; a scalar field's type name never pulls in a
    // struct, even when a layout struct happens to carry that name.
    let v_field = |name: &str| HWStructField {
        name: name.to_string(),
        start: 0,
        size: 32,
        group_len: GROUP_NONE,
        isint: 1,
        val_type: String::new(),
    };
    let json = HWJson {
        version: "1".to_string(),
        defines: vec![],
        structs: vec![
            (
                "NVFOO_CTRL_BAR_PARAMS".to_string(),
                HWStruct {
                    total_size: 128,
                    fields: vec![
                        HWStructField {
                            name: "sub".to_string(),
                            start: 0,
                            size: 64,
                            group_len: GROUP_NONE,
                            isint: 0,
                            val_type: "SUB".to_string(),
                        },
                        HWStructField {
                            name: "n".to_string(),
                            start: 64,
                            size: 32,
                            group_len: GROUP_NONE,
                            isint: 1,
                            val_type: "WEIRD".to_string(),
                        },
                    ],
                },
            ),
            ("SUB".to_string(), HWStruct { total_size: 64, fields: vec![v_field("a")] }),
            ("WEIRD".to_string(), HWStruct { total_size: 32, fields: vec![v_field("b")] }),
        ],
    };
    let wanted = WantedJson {
        structs: vec![],
        cmds: vec![("FOO".to_string(), vec!["BAR".to_string()])],
        defines: vec![],
    };
    let out = generate_rust_file(&json, &wanted).unwrap();
    assert!(out.contains("pub(crate) struct s_SUB<'s>"));
    assert!(!out.contains("s_WEIRD"));
}

#[test]
fn rust_file_selection_miss_emits_nothing() {
    let json = HWJson {
        version: "1".to_string(),
        defines: vec![],
        structs: vec![],
    };
    let wanted = WantedJson {
        structs: vec!["MISSING".to_string()],
        cmds: vec![],
        defines: vec!["ALSO_MISSING".to_string()],
    };
    let out = generate_rust_file(&json, &wanted).unwrap();
    assert_eq!(
        out,
        "#![allow(non_snake_case)]\n#![allow(dead_code)]\n#![allow(non_camel_case_types)]\n\n\n"
    );
}

#[test]
fn rust_file_unknown_definition_is_fatal() {
    let json = HWJson {
        version: "1".to_string(),
        defines: vec![(
            "BAD".to_string(),
            HWDefine { hwtype: HWDefineType::Unknown, vals: vec![] },
        )],
        structs: vec![],
    };
    let wanted = WantedJson {
        structs: vec![],
        cmds: vec![],
        defines: vec!["BAD".to_string()],
    };
    assert!(generate_rust_file(&json, &wanted).is_err());
}

#[test]
fn hw_file_reemits_defines_and_structs() {
    let json = HWJson {
        version: "1.2".to_string(),
        defines: vec![
            ("X_RANGE".to_string(), value(&["1", "7"])),
            ("X_VAL".to_string(), value(&["3"])),
        ],
        structs: vec![(
            "S".to_string(),
            HWStruct {
                total_size: 64,
                fields: vec![
                    HWStructField {
                        name: "a".to_string(),
                        start: 0,
                        size: 32,
                        group_len: GROUP_NONE,
                        isint: 1,
                        val_type: String::new(),
                    },
                    HWStructField {
                        name: "b".to_string(),
                        start: 32,
                        size: 16,
                        group_len: 2,
                        isint: 1,
                        val_type: String::new(),
                    },
                ],
            },
        )],
    };
    let syms = vec!["X_RANGE".to_string(), "X_VAL".to_string(), "S".to_string()];
    let out = generate_hw_file(&json, &syms).unwrap();
    assert!(out.starts_with("#ifndef __NV_HEADER_1_2__\n#define __NV_HEADER_1_2__ 1\n"));
    assert!(out.contains("#define __NV_VERSION__ 1.2\n"));
    assert!(out.contains("#define X_RANGE 1:7\n"));
    assert!(out.contains("#define X_VAL 3\n"));
    assert!(out.contains("struct S {\n    u32 a;\n    u16 b[2];\n};\n"));
    assert!(out.ends_with("#endif\n"));
}

#[test]
fn end_to_end_extract_then_generate() {
    // Extraction stage: one macro definition and one struct typedef.
    let mut cjson = CJson::new("9".to_string());
    record_c_define(&mut cjson.types, "X_VAL".to_string(), &toks(&["X_VAL", "(", "3", ")"]));
    let decl = vec![
        nvu32_field("a", 0),
        FieldDecl {
            name: "b".to_string(),
            byte_offset: 4,
            array: ArrayKind::Fixed(4),
            aligned: false,
            shape: FieldShape::Integer {
                bits: 32,
                builtin: false,
                ty_name: "NvU32".to_string(),
            },
        },
    ];
    record_c_struct_typedef(&mut cjson.types, "S".to_string(), &decl, 160);

    let mut hwjson = HWJson::new("9".to_string());
    record_hw_define(&mut hwjson.defines, "X_VAL".to_string(), &toks(&["X_VAL", "(", "3", ")"]));
    record_struct_typedef(&mut hwjson.structs, "S".to_string(), &decl, 160);

    // Generation stage: both selected.
    let syms = vec!["X_VAL".to_string(), "S".to_string()];
    let out = generate_c_file(&cjson, &syms).unwrap();
    assert!(out.contains("#define X_VAL_9 3\n"));
    assert!(out.contains("typedef struct S_9 {\n"));
    assert!(out.contains("    NvU32_9    a;\n"));
    assert!(out.contains("    NvU32_9    b[4];\n"));
    assert!(out.contains("} S_9;\n"));
    assert!(out.contains("#define NvU32_9 NvU32\n"));

    let out2 = generate_hw_file(&hwjson, &syms).unwrap();
    assert!(out2.contains("#define X_VAL 3\n"));
    assert!(out2.contains("struct S {\n    u32 a;\n    u32 b[4];\n};\n"));

    // Re-running generation over the same documents is byte-identical.
    let again = generate_c_file(&cjson, &syms).unwrap();
    assert_eq!(out, again);
    let again2 = generate_hw_file(&hwjson, &syms).unwrap();
    assert_eq!(out2, again2);
}

#[test]
fn generated_accessor_region_round_trips() {
    // The flattened layout of the end-to-end struct, driven through the
    // codec the generated accessors implement.
    let mut hwjson = HWJson::new("9".to_string());
    let decl = vec![
        nvu32_field("a", 0),
        FieldDecl {
            name: "b".to_string(),
            byte_offset: 4,
            array: ArrayKind::Fixed(4),
            aligned: false,
            shape: FieldShape::Integer {
                bits: 32,
                builtin: false,
                ty_name: "NvU32".to_string(),
            },
        },
    ];
    record_struct_typedef(&mut hwjson.structs, "S".to_string(), &decl, 160);
    let s = &hwjson.structs[0].1;
    let mut buf = vec![0u8; (s.total_size / 8) as usize];

    let a = &s.fields[0];
    hwgen::codec::set_field_le(&mut buf, (a.start / 8) as usize, (a.size / 8) as usize, 0x01020304);
    assert_eq!(&buf[0..4], &[0x04, 0x03, 0x02, 0x01]);
    assert_eq!(
        hwgen::codec::get_field_le(&buf, (a.start / 8) as usize, (a.size / 8) as usize),
        0x01020304
    );

    let b = &s.fields[1];
    let vals = vec![1u64, 2, 3, 4];
    hwgen::codec::set_array_le(&mut buf, (b.start / 8) as usize, (b.size / 8) as usize, &vals);
    let back = hwgen::codec::get_array_le(
        &buf,
        (b.start / 8) as usize,
        (b.size / 8) as usize,
        b.group_len as usize,
    );
    assert_eq!(back, vals);
}

use hwgen::builder::record_struct_typedef;
use hwgen::codec::{get_array_le, get_field_le, set_array_le, set_field_le};
use hwgen::flatten::{handle_record, ArrayKind, FieldDecl, FieldShape};
use hwgen::ir::{HWStruct, HWStructField, GROUP_NONE};

fn nvu32_field(name: &str, byte_offset: u32) -> FieldDecl {
    FieldDecl {
        name: name.to_string(),
        byte_offset,
        array: ArrayKind::NotArray,
        aligned: false,
        shape: FieldShape::Integer {
            bits: 32,
            builtin: false,
            ty_name: "NvU32".to_string(),
        },
    }
}

#[test]
fn flatten_scalar_and_array_fields() {
    let decl = vec![
        nvu32_field("a", 0),
        FieldDecl {
            name: "b".to_string(),
            byte_offset: 4,
            array: ArrayKind::Fixed(4),
            aligned: false,
            shape: FieldShape::Integer {
                bits: 32,
                builtin: false,
                ty_name: "NvU32".to_string(),
            },
        },
    ];
    let mut rows: Vec<HWStructField> = Vec::new();
    let end = handle_record(0, &mut rows, &decl, "");
    assert_eq!(rows.len(), 2);
    assert_eq!(rows[0].name, "a");
    assert_eq!(rows[0].start, 0);
    assert_eq!(rows[0].size, 32);
    assert_eq!(rows[0].group_len, GROUP_NONE);
    assert_eq!(rows[0].isint, 1);
    assert_eq!(rows[1].name, "b");
    assert_eq!(rows[1].start, 32);
    assert_eq!(rows[1].size, 32);
    assert_eq!(rows[1].group_len, 4);
    assert_eq!(rows[1].val_type, "NvU32");
    assert_eq!(end, 64);
}

#[test]
fn flatten_inlines_named_nested_struct_with_prefix() {
    let decl = vec![FieldDecl {
        name: "inner".to_string(),
        byte_offset: 8,
        array: ArrayKind::NotArray,
        aligned: false,
        shape: FieldShape::Record {
            named: true,
            is_union: false,
            size_bytes: 4,
            fields: vec![nvu32_field("x", 0)],
        },
    }];
    let mut rows: Vec<HWStructField> = Vec::new();
    handle_record(0, &mut rows, &decl, "");
    assert_eq!(rows.len(), 1);
    assert_eq!(rows[0].name, "inner_x");
    assert_eq!(rows[0].start, 64);
    assert_eq!(rows[0].size, 32);
}

#[test]
fn flatten_inlines_anonymous_nested_record_without_prefix() {
    let decl = vec![FieldDecl {
        name: "u".to_string(),
        byte_offset: 0,
        array: ArrayKind::NotArray,
        aligned: false,
        shape: FieldShape::Record {
            named: false,
            is_union: true,
            size_bytes: 4,
            fields: vec![nvu32_field("x", 0)],
        },
    }];
    let mut rows: Vec<HWStructField> = Vec::new();
    handle_record(0, &mut rows, &decl, "");
    assert_eq!(rows.len(), 1);
    assert_eq!(rows[0].name, "x");
    assert_eq!(rows[0].start, 0);
}

#[test]
fn flatten_marks_struct_typedef_field_as_nested() {
    let decl = vec![FieldDecl {
        name: "params".to_string(),
        byte_offset: 0,
        array: ArrayKind::NotArray,
        aligned: false,
        shape: FieldShape::RecordTypedef {
            ty_name: "SUB_PARAMS".to_string(),
            size_bytes: 12,
        },
    }];
    let mut rows: Vec<HWStructField> = Vec::new();
    handle_record(0, &mut rows, &decl, "");
    assert_eq!(rows.len(), 1);
    assert_eq!(rows[0].isint, 0);
    assert_eq!(rows[0].size, 96);
    assert_eq!(rows[0].val_type, "SUB_PARAMS");
}

#[test]
fn flatten_unresolved_type_gets_width_zero() {
    let decl = vec![FieldDecl {
        name: "p".to_string(),
        byte_offset: 0,
        array: ArrayKind::NotArray,
        aligned: false,
        shape: FieldShape::Opaque {
            ty_name: "void *".to_string(),
        },
    }];
    let mut rows: Vec<HWStructField> = Vec::new();
    handle_record(0, &mut rows, &decl, "");
    assert_eq!(rows.len(), 1);
    assert_eq!(rows[0].size, 0);
}

#[test]
fn flatten_rows_are_monotone_without_overlap() {
    let decl = vec![
        nvu32_field("a", 0),
        nvu32_field("b", 4),
        FieldDecl {
            name: "inner".to_string(),
            byte_offset: 8,
            array: ArrayKind::NotArray,
            aligned: false,
            shape: FieldShape::Record {
                named: true,
                is_union: false,
                size_bytes: 8,
                fields: vec![nvu32_field("x", 0), nvu32_field("y", 4)],
            },
        },
        nvu32_field("c", 16),
    ];
    let mut rows: Vec<HWStructField> = Vec::new();
    handle_record(0, &mut rows, &decl, "");
    assert_eq!(rows.len(), 5);
    for k in 1..rows.len() {
        let prev = &rows[k - 1];
        let group = if prev.group_len == GROUP_NONE { 1 } else { prev.group_len };
        assert!(prev.start + prev.size * group <= rows[k].start);
    }
}

#[test]
fn record_struct_typedef_skips_zero_size() {
    let mut structs: Vec<(String, HWStruct)> = Vec::new();
    record_struct_typedef(&mut structs, "S".to_string(), &vec![nvu32_field("a", 0)], 0);
    assert!(structs.is_empty());
    record_struct_typedef(&mut structs, "S".to_string(), &vec![nvu32_field("a", 0)], 32);
    assert_eq!(structs.len(), 1);
    assert_eq!(structs[0].1.total_size, 32);
    assert_eq!(structs[0].1.fields.len(), 1);
}

#[test]
fn codec_scalar_little_endian_byte_pattern() {
    let mut buf = vec![0u8; 8];
    set_field_le(&mut buf, 2, 4, 0x01020304);
    assert_eq!(buf, vec![0, 0, 0x04, 0x03, 0x02, 0x01, 0, 0]);
    let v = get_field_le(&buf, 2, 4);
    assert_eq!(v, 0x01020304);
}

#[test]
fn codec_scalar_round_trip_all_widths() {
    let cases: &[(usize, u64)] = &[
        (1, 0xab),
        (2, 0xbeef),
        (4, 0xdeadbeef),
        (8, 0x0123456789abcdef),
    ];
    for &(w, v) in cases {
        let mut buf = vec![0u8; 16];
        set_field_le(&mut buf, 3, w, v);
        assert_eq!(get_field_le(&buf, 3, w), v);
    }
}

#[test]
fn codec_array_round_trip_preserves_order() {
    let vals = vec![0x11111111u64, 0x22222222, 0x33333333, 0x44444444];
    let mut buf = vec![0u8; 20];
    set_array_le(&mut buf, 2, 4, &vals);
    assert_eq!(&buf[2..6], &[0x11, 0x11, 0x11, 0x11]);
    let back = get_array_le(&buf, 2, 4, 4);
    assert_eq!(back, vals);
}

#[test]
fn codec_write_leaves_other_bytes_unchanged() {
    let mut buf = vec![0xffu8; 8];
    set_field_le(&mut buf, 2, 2, 0x0102);
    assert_eq!(buf, vec![0xff, 0xff, 0x02, 0x01, 0xff, 0xff, 0xff, 0xff]);
}

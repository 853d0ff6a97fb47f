//! The record flattener. The external parser resolves each declaration
//! field to a plain description — name, byte offset within its record,
//! array shape, and the resolved underlying type — and the functions here
//! walk that tree and emit field rows:
//!
//!  - `handle_record` produces bit-level rows for the layout document,
//!    inlining nested struct/union blocks at their absolute bit offset and
//!    leaving a width-0 sentinel row for fields whose width could not be
//!    resolved;
//!  - `handle_c_parser_record` produces declaration-level rows for the
//!    definitions document, preserving nested blocks as begin/end markers
//!    so declarations can be re-emitted.
//!
//! Both are specified exactly by spec functions over the declaration tree.

use vstd::prelude::*;

use crate::ir::{
    c_rows_view, hw_rows_view, CFieldV, CStructField, FieldType, HWFieldV, HWStructField,
    GROUP_NONE,
};

verus! {

/// Array shape of a declaration field: not an array, a fixed-length array,
/// or an incomplete (unsized) array.
pub enum ArrayKind {
    NotArray,
    Fixed(u32),
    Incomplete,
}

/// The parser-resolved underlying type of a declaration field.
pub enum FieldShape {
    /// A type that resolves to an integer of `bits` bits. `builtin` marks
    /// a plain C integer type (spelled directly, not through a typedef);
    /// `ty_name` is the type's spelling.
    Integer { bits: u32, builtin: bool, ty_name: String },
    /// A struct or union type spelled out at the field (a tagged or
    /// anonymous block), to be inlined. `named` tells whether the field's
    /// type carries the field a visible name prefix when inlined.
    Record { named: bool, is_union: bool, size_bytes: u32, fields: Vec<FieldDecl> },
    /// A typedef name that resolves to a struct or union: kept as one
    /// reference row, not inlined.
    RecordTypedef { ty_name: String, size_bytes: u32 },
    /// A typedef name that resolves to a fixed-length array of an
    /// integer element type.
    ArrayTypedef { len: u32, elem_bits: u32, elem_name: String },
    /// A type whose width the parser could not resolve.
    Opaque { ty_name: String },
}

/// One field of a record declaration, as the external parser reports it.
pub struct FieldDecl {
    pub name: String,
    pub byte_offset: u32,
    pub array: ArrayKind,
    pub aligned: bool,
    pub shape: FieldShape,
}

/// The layout rows one declaration field contributes, at base bit offset
/// `base` and with `prefix` prepended to emitted names.
pub open spec fn spec_hw_field_rows(fld: FieldDecl, base: int, prefix: Seq<char>) -> Seq<
    HWFieldV,
>
    decreases fld, 0int,
{
    let off = base + fld.byte_offset * 8;
    match fld.array {
        ArrayKind::NotArray => match fld.shape {
            FieldShape::Record { named, fields, .. } => spec_hw_rows_to(
                fields@,
                fields@.len() as int,
                off,
                if named {
                    fld.name@ + "_"@
                } else {
                    Seq::<char>::empty()
                },
            ),
            FieldShape::Integer { bits, builtin, ty_name } => seq![
                HWFieldV {
                    name: prefix + fld.name@,
                    start: off,
                    size: bits as int,
                    group_len: GROUP_NONE as int,
                    isint: 1,
                    val_type: if builtin {
                        Seq::<char>::empty()
                    } else {
                        ty_name@
                    },
                },
            ],
            FieldShape::RecordTypedef { ty_name, size_bytes } => seq![
                HWFieldV {
                    name: prefix + fld.name@,
                    start: off,
                    size: size_bytes * 8,
                    group_len: GROUP_NONE as int,
                    isint: 0,
                    val_type: ty_name@,
                },
            ],
            FieldShape::ArrayTypedef { len, elem_bits, elem_name } => seq![
                HWFieldV {
                    name: prefix + fld.name@,
                    start: off,
                    size: elem_bits as int,
                    group_len: len as int,
                    isint: 1,
                    val_type: elem_name@,
                },
            ],
            FieldShape::Opaque { ty_name } => seq![
                HWFieldV {
                    name: prefix + fld.name@,
                    start: off,
                    size: 0,
                    group_len: GROUP_NONE as int,
                    isint: 1,
                    val_type: ty_name@,
                },
            ],
        },
        ArrayKind::Fixed(n) => match fld.shape {
            FieldShape::Integer { bits, builtin, ty_name } => seq![
                HWFieldV {
                    name: prefix + fld.name@,
                    start: off,
                    size: bits as int,
                    group_len: n as int,
                    isint: 1,
                    val_type: ty_name@,
                },
            ],
            FieldShape::RecordTypedef { ty_name, size_bytes } => seq![
                HWFieldV {
                    name: prefix + fld.name@,
                    start: off,
                    size: size_bytes * 8,
                    group_len: n as int,
                    isint: 0,
                    val_type: ty_name@,
                },
            ],
            _ => seq![
                HWFieldV {
                    name: prefix + fld.name@,
                    start: off,
                    size: 0,
                    group_len: n as int,
                    isint: 1,
                    val_type: Seq::<char>::empty(),
                },
            ],
        },
        ArrayKind::Incomplete => seq![
            HWFieldV {
                name: prefix + fld.name@,
                start: off,
                size: 0,
                group_len: GROUP_NONE as int,
                isint: 1,
                val_type: Seq::<char>::empty(),
            },
        ],
    }
}

/// The layout rows of the first `i` fields of a declaration, in order.
pub open spec fn spec_hw_rows_to(
    fields: Seq<FieldDecl>,
    i: int,
    base: int,
    prefix: Seq<char>,
) -> Seq<HWFieldV>
    decreases fields, i,
{
    if i <= 0 || i > fields.len() {
        Seq::empty()
    } else {
        spec_hw_rows_to(fields, i - 1, base, prefix) + spec_hw_field_rows(
            fields[i - 1],
            base,
            prefix,
        )
    }
}

/// All layout rows of a declaration.
pub open spec fn spec_hw_rows(fields: Seq<FieldDecl>, base: int, prefix: Seq<char>) -> Seq<
    HWFieldV,
> {
    spec_hw_rows_to(fields, fields.len() as int, base, prefix)
}

/// The diagnostic end offset one field reaches: its absolute bit offset
/// plus its (per-element) width.
pub open spec fn spec_field_end(fld: FieldDecl, base: int) -> int {
    let off = base + fld.byte_offset * 8;
    match fld.array {
        ArrayKind::NotArray => match fld.shape {
            FieldShape::Record { size_bytes, .. } => off + size_bytes * 8,
            FieldShape::Integer { bits, .. } => off + bits,
            FieldShape::RecordTypedef { size_bytes, .. } => off + size_bytes * 8,
            FieldShape::ArrayTypedef { elem_bits, .. } => off + elem_bits,
            FieldShape::Opaque { .. } => off,
        },
        ArrayKind::Fixed(_) => match fld.shape {
            FieldShape::Integer { bits, .. } => off + bits,
            FieldShape::RecordTypedef { size_bytes, .. } => off + size_bytes * 8,
            _ => off,
        },
        ArrayKind::Incomplete => off,
    }
}

/// The diagnostic end offset after the first `i` fields: the last field's
/// end, or `base` for an empty prefix.
pub open spec fn spec_end_to(fields: Seq<FieldDecl>, i: int, base: int) -> int {
    if i <= 0 || i > fields.len() {
        base
    } else {
        spec_field_end(fields[i - 1], base)
    }
}

/// Whether the arithmetic the flattener performs on one field stays within
/// the 32-bit offsets the IR stores.
pub open spec fn spec_field_fits(fld: FieldDecl, base: int) -> bool
    decreases fld, 0int,
{
    let off = base + fld.byte_offset * 8;
    off <= u32::MAX && match fld.shape {
        FieldShape::Record { fields, size_bytes, .. } => {
            &&& size_bytes * 8 <= u32::MAX
            &&& off + size_bytes * 8 <= u32::MAX
            &&& spec_fields_fit(fields@, fields@.len() as int, off)
        },
        FieldShape::Integer { bits, .. } => off + bits <= u32::MAX,
        FieldShape::RecordTypedef { size_bytes, .. } => {
            &&& size_bytes * 8 <= u32::MAX
            &&& off + size_bytes * 8 <= u32::MAX
        },
        FieldShape::ArrayTypedef { elem_bits, .. } => off + elem_bits <= u32::MAX,
        FieldShape::Opaque { .. } => true,
    }
}

/// Whether the first `i` fields of a declaration all fit, recursively.
pub open spec fn spec_fields_fit(fields: Seq<FieldDecl>, i: int, base: int) -> bool
    decreases fields, i,
{
    i <= 0 || (i <= fields.len() && spec_fields_fit(fields, i - 1, base) && spec_field_fits(
        fields[i - 1],
        base,
    ))
}

/// Each of the first `n` fields fits individually.
pub proof fn lemma_fits_at(fields: Seq<FieldDecl>, n: int, i: int, base: int)
    requires
        spec_fields_fit(fields, n, base),
        0 <= i < n,
        n <= fields.len(),
    ensures
        spec_field_fits(fields[i], base),
    decreases n,
{
    if i < n - 1 {
        lemma_fits_at(fields, n - 1, i, base);
    }
}

/// Flattens a record declaration into bit-level layout rows, appending to
/// `newfields`. Nested struct/union blocks are inlined at their absolute
/// bit offset (with a name prefix when the nesting is named); no row is
/// emitted for the block itself. Returns the diagnostic end offset.
pub fn handle_record(
    base_offset: u32,
    newfields: &mut Vec<HWStructField>,
    record_fields: &Vec<FieldDecl>,
    name_prefix: &str,
) -> (end: u32)
    requires
        spec_fields_fit(record_fields@, record_fields@.len() as int, base_offset as int),
    ensures
        hw_rows_view(final(newfields)@) == hw_rows_view(old(newfields)@) + spec_hw_rows(
            record_fields@,
            base_offset as int,
            name_prefix@,
        ),
        end as int == spec_end_to(
            record_fields@,
            record_fields@.len() as int,
            base_offset as int,
        ),
    decreases record_fields@,
{
    let ghost all = record_fields@;
    let mut end_offset = base_offset;
    let mut i: usize = 0;
    while i < record_fields.len()
        invariant
            record_fields@ == all,
            i <= all.len(),
            spec_fields_fit(all, all.len() as int, base_offset as int),
            hw_rows_view(newfields@) == hw_rows_view(old(newfields)@) + spec_hw_rows_to(
                all,
                i as int,
                base_offset as int,
                name_prefix@,
            ),
            end_offset as int == spec_end_to(all, i as int, base_offset as int),
        decreases all.len() - i,
    {
        proof {
            lemma_fits_at(all, all.len() as int, i as int, base_offset as int);
        }
        let fld = &record_fields[i];
        let off = base_offset + fld.byte_offset * 8;
        let ghost rows_before = hw_rows_view(newfields@);
        match (&fld.array, &fld.shape) {
            (ArrayKind::NotArray, FieldShape::Record { named, fields, size_bytes, .. }) => {
                let mut sub_prefix = fld.name.clone();
                if *named {
                    sub_prefix.append("_");
                } else {
                    sub_prefix = String::new();
                }
                proof {
                    assert(decreases_to!(all => all[i as int]));
                }
                handle_record(off, newfields, fields, sub_prefix.as_str());
                end_offset = off + size_bytes * 8;
            },
            (ArrayKind::NotArray, FieldShape::Integer { bits, builtin, ty_name }) => {
                let mut nm = String::from_str(name_prefix);
                nm.append(fld.name.as_str());
                let vt = if *builtin {
                    String::new()
                } else {
                    ty_name.clone()
                };
                newfields.push(HWStructField {
                    name: nm,
                    start: off,
                    size: *bits,
                    group_len: GROUP_NONE,
                    isint: 1,
                    val_type: vt,
                });
                end_offset = off + *bits;
            },
            (ArrayKind::NotArray, FieldShape::RecordTypedef { ty_name, size_bytes }) => {
                let mut nm = String::from_str(name_prefix);
                nm.append(fld.name.as_str());
                newfields.push(HWStructField {
                    name: nm,
                    start: off,
                    size: size_bytes * 8,
                    group_len: GROUP_NONE,
                    isint: 0,
                    val_type: ty_name.clone(),
                });
                end_offset = off + size_bytes * 8;
            },
            (ArrayKind::NotArray, FieldShape::ArrayTypedef { len, elem_bits, elem_name }) => {
                let mut nm = String::from_str(name_prefix);
                nm.append(fld.name.as_str());
                newfields.push(HWStructField {
                    name: nm,
                    start: off,
                    size: *elem_bits,
                    group_len: *len,
                    isint: 1,
                    val_type: elem_name.clone(),
                });
                end_offset = off + *elem_bits;
            },
            (ArrayKind::NotArray, FieldShape::Opaque { ty_name }) => {
                let mut nm = String::from_str(name_prefix);
                nm.append(fld.name.as_str());
                newfields.push(HWStructField {
                    name: nm,
                    start: off,
                    size: 0,
                    group_len: GROUP_NONE,
                    isint: 1,
                    val_type: ty_name.clone(),
                });
                end_offset = off;
            },
            (ArrayKind::Fixed(n), FieldShape::Integer { bits, ty_name, .. }) => {
                let mut nm = String::from_str(name_prefix);
                nm.append(fld.name.as_str());
                newfields.push(HWStructField {
                    name: nm,
                    start: off,
                    size: *bits,
                    group_len: *n,
                    isint: 1,
                    val_type: ty_name.clone(),
                });
                end_offset = off + *bits;
            },
            (ArrayKind::Fixed(n), FieldShape::RecordTypedef { ty_name, size_bytes }) => {
                let mut nm = String::from_str(name_prefix);
                nm.append(fld.name.as_str());
                newfields.push(HWStructField {
                    name: nm,
                    start: off,
                    size: size_bytes * 8,
                    group_len: *n,
                    isint: 0,
                    val_type: ty_name.clone(),
                });
                end_offset = off + size_bytes * 8;
            },
            (ArrayKind::Fixed(n), _) => {
                let mut nm = String::from_str(name_prefix);
                nm.append(fld.name.as_str());
                newfields.push(HWStructField {
                    name: nm,
                    start: off,
                    size: 0,
                    group_len: *n,
                    isint: 1,
                    val_type: String::new(),
                });
                end_offset = off;
            },
            (ArrayKind::Incomplete, _) => {
                let mut nm = String::from_str(name_prefix);
                nm.append(fld.name.as_str());
                newfields.push(HWStructField {
                    name: nm,
                    start: off,
                    size: 0,
                    group_len: GROUP_NONE,
                    isint: 1,
                    val_type: String::new(),
                });
                end_offset = off;
            },
        }
        proof {
            assert(hw_rows_view(newfields@) =~= rows_before + spec_hw_field_rows(
                all[i as int],
                base_offset as int,
                name_prefix@,
            ));
        }
        i += 1;
    }
    end_offset
}

/// The declaration-level array size a field reports: the element count for
/// a fixed array, `0` for an incomplete array, and the `GROUP_NONE`
/// sentinel otherwise.
pub open spec fn spec_c_array_size(a: ArrayKind) -> int {
    match a {
        ArrayKind::NotArray => GROUP_NONE as int,
        ArrayKind::Fixed(n) => n as int,
        ArrayKind::Incomplete => 0,
    }
}

/// Whether a field counts as an array at the declaration level.
pub open spec fn spec_c_is_array(a: ArrayKind) -> bool {
    !(a is NotArray)
}

/// The declaration-level rows one field contributes.
pub open spec fn spec_c_field_rows(fld: FieldDecl, prefix: Seq<char>) -> Seq<CFieldV>
    decreases fld, 0int,
{
    match fld.shape {
        FieldShape::Record { named, is_union, fields, .. } => {
            let start_row = CFieldV {
                fldtype: if is_union {
                    FieldType::UnionStart
                } else {
                    FieldType::StructStart
                },
                ftype: Seq::<char>::empty(),
                name: fld.name@,
                is_array: false,
                size: 0,
                is_aligned: false,
                alignment: 0,
            };
            let end_row = CFieldV {
                fldtype: if is_union {
                    FieldType::UnionEnd
                } else {
                    FieldType::StructEnd
                },
                ftype: Seq::<char>::empty(),
                name: if named {
                    fld.name@
                } else {
                    Seq::<char>::empty()
                },
                is_array: spec_c_is_array(fld.array),
                size: spec_c_array_size(fld.array),
                is_aligned: false,
                alignment: 0,
            };
            seq![start_row] + spec_c_rows_to(
                fields@,
                fields@.len() as int,
                Seq::<char>::empty(),
            ) + seq![end_row]
        },
        FieldShape::Integer { builtin, ty_name, .. } => seq![
            spec_c_member(
                fld,
                prefix,
                if builtin && !(fld.array is Fixed) {
                    Seq::<char>::empty()
                } else {
                    ty_name@
                },
                spec_c_is_array(fld.array),
                spec_c_array_size(fld.array),
            ),
        ],
        FieldShape::RecordTypedef { ty_name, .. } => seq![
            spec_c_member(
                fld,
                prefix,
                ty_name@,
                spec_c_is_array(fld.array),
                spec_c_array_size(fld.array),
            ),
        ],
        FieldShape::ArrayTypedef { len, elem_name, .. } => seq![
            spec_c_member(fld, prefix, elem_name@, true, len as int),
        ],
        FieldShape::Opaque { ty_name } => seq![
            spec_c_member(
                fld,
                prefix,
                ty_name@,
                spec_c_is_array(fld.array),
                spec_c_array_size(fld.array),
            ),
        ],
    }
}

/// A plain member row: the field's resolved type spelling, array flags,
/// and its alignment attribute (recorded as an assumed 8-byte alignment).
pub open spec fn spec_c_member(
    fld: FieldDecl,
    prefix: Seq<char>,
    ftype: Seq<char>,
    is_array: bool,
    size: int,
) -> CFieldV {
    CFieldV {
        fldtype: FieldType::Member,
        ftype: ftype,
        name: prefix + fld.name@,
        is_array: is_array,
        size: size,
        is_aligned: fld.aligned,
        alignment: if fld.aligned {
            8
        } else {
            0
        },
    }
}

/// The declaration-level rows of the first `i` fields, in order.
pub open spec fn spec_c_rows_to(fields: Seq<FieldDecl>, i: int, prefix: Seq<char>) -> Seq<
    CFieldV,
>
    decreases fields, i,
{
    if i <= 0 || i > fields.len() {
        Seq::empty()
    } else {
        spec_c_rows_to(fields, i - 1, prefix) + spec_c_field_rows(fields[i - 1], prefix)
    }
}

/// All declaration-level rows of a declaration.
pub open spec fn spec_c_rows(fields: Seq<FieldDecl>, prefix: Seq<char>) -> Seq<CFieldV> {
    spec_c_rows_to(fields, fields.len() as int, prefix)
}

/// Flattens a record declaration into declaration-level rows, appending to
/// `newfields`. Nested struct/union blocks are kept as begin/end marker
/// rows around their members so the declaration can be re-emitted with its
/// nesting intact.
pub fn handle_c_parser_record(
    newfields: &mut Vec<CStructField>,
    record_fields: &Vec<FieldDecl>,
    name_prefix: &str,
) -> (r: usize)
    ensures
        c_rows_view(final(newfields)@) == c_rows_view(old(newfields)@) + spec_c_rows(
            record_fields@,
            name_prefix@,
        ),
        r == 0,
    decreases record_fields@,
{
    let ghost all = record_fields@;
    let mut i: usize = 0;
    while i < record_fields.len()
        invariant
            record_fields@ == all,
            i <= all.len(),
            c_rows_view(newfields@) == c_rows_view(old(newfields)@) + spec_c_rows_to(
                all,
                i as int,
                name_prefix@,
            ),
        decreases all.len() - i,
    {
        let fld = &record_fields[i];
        let (is_arr, arr_size) = match &fld.array {
            ArrayKind::NotArray => (false, GROUP_NONE),
            ArrayKind::Fixed(n) => (true, *n),
            ArrayKind::Incomplete => (true, 0u32),
        };
        let ghost rows_before = c_rows_view(newfields@);
        match &fld.shape {
            FieldShape::Record { named, is_union, fields, .. } => {
                newfields.push(CStructField {
                    fldtype: if *is_union {
                        FieldType::UnionStart
                    } else {
                        FieldType::StructStart
                    },
                    ftype: String::new(),
                    name: fld.name.clone(),
                    is_array: false,
                    size: 0,
                    is_aligned: false,
                    alignment: 0,
                });
                proof {
                    assert(decreases_to!(all => all[i as int]));
                    reveal_strlit("");
                    assert(""@ =~= Seq::<char>::empty());
                    assert(c_rows_view(newfields@) =~~= rows_before + seq![
                        CFieldV {
                            fldtype: if all[i as int].shape->Record_is_union {
                                FieldType::UnionStart
                            } else {
                                FieldType::StructStart
                            },
                            ftype: Seq::<char>::empty(),
                            name: all[i as int].name@,
                            is_array: false,
                            size: 0,
                            is_aligned: false,
                            alignment: 0,
                        },
                    ]);
                }
                let ghost rows_mid = c_rows_view(newfields@);
                handle_c_parser_record(newfields, fields, "");
                proof {
                    assert(c_rows_view(newfields@) =~~= rows_mid + spec_c_rows_to(
                        all[i as int].shape->Record_fields@,
                        all[i as int].shape->Record_fields@.len() as int,
                        Seq::<char>::empty(),
                    ));
                }
                let ghost rows_mid2 = c_rows_view(newfields@);
                newfields.push(CStructField {
                    fldtype: if *is_union {
                        FieldType::UnionEnd
                    } else {
                        FieldType::StructEnd
                    },
                    ftype: String::new(),
                    name: if *named {
                        fld.name.clone()
                    } else {
                        String::new()
                    },
                    is_array: is_arr,
                    size: arr_size,
                    is_aligned: false,
                    alignment: 0,
                });
                proof {
                    assert(c_rows_view(newfields@) =~~= rows_mid2 + seq![
                        CFieldV {
                            fldtype: if all[i as int].shape->Record_is_union {
                                FieldType::UnionEnd
                            } else {
                                FieldType::StructEnd
                            },
                            ftype: Seq::<char>::empty(),
                            name: if all[i as int].shape->Record_named {
                                all[i as int].name@
                            } else {
                                Seq::<char>::empty()
                            },
                            is_array: spec_c_is_array(all[i as int].array),
                            size: spec_c_array_size(all[i as int].array),
                            is_aligned: false,
                            alignment: 0,
                        },
                    ]);
                }
            },
            FieldShape::Integer { builtin, ty_name, .. } => {
                let ft = if *builtin && !matches!(&fld.array, ArrayKind::Fixed(_)) {
                    String::new()
                } else {
                    ty_name.clone()
                };
                push_c_member(newfields, fld, name_prefix, ft, is_arr, arr_size);
            },
            FieldShape::RecordTypedef { ty_name, .. } => {
                push_c_member(newfields, fld, name_prefix, ty_name.clone(), is_arr, arr_size);
            },
            FieldShape::ArrayTypedef { len, elem_name, .. } => {
                push_c_member(newfields, fld, name_prefix, elem_name.clone(), true, *len);
            },
            FieldShape::Opaque { ty_name } => {
                push_c_member(newfields, fld, name_prefix, ty_name.clone(), is_arr, arr_size);
            },
        }
        proof {
            assert(c_rows_view(newfields@) =~~= rows_before + spec_c_field_rows(
                all[i as int],
                name_prefix@,
            ));
        }
        i += 1;
    }
    0
}

/// Appends one member row with the given resolved type spelling and array
/// flags.
fn push_c_member(
    newfields: &mut Vec<CStructField>,
    fld: &FieldDecl,
    name_prefix: &str,
    ftype: String,
    is_array: bool,
    size: u32,
)
    ensures
        c_rows_view(final(newfields)@) == c_rows_view(old(newfields)@) + seq![
            spec_c_member(*fld, name_prefix@, ftype@, is_array, size as int),
        ],
{
    let mut nm = String::from_str(name_prefix);
    nm.append(fld.name.as_str());
    let (is_aligned, alignment) = if fld.aligned {
        (true, 8)
    } else {
        (false, 0)
    };
    newfields.push(CStructField {
        fldtype: FieldType::Member,
        ftype,
        name: nm,
        is_array,
        size,
        is_aligned,
        alignment,
    });
    proof {
        assert(c_rows_view(newfields@) =~= c_rows_view(old(newfields)@) + seq![
            spec_c_member(*fld, name_prefix@, ftype@, is_array, size as int),
        ]);
    }
}

/// The number of bits a declaration field occupies in its record: the
/// extent of the byte range `[byte_offset, byte_offset + extent/8)`.
pub open spec fn decl_extent_bits(fld: FieldDecl) -> int {
    match fld.array {
        ArrayKind::NotArray => match fld.shape {
            FieldShape::Integer { bits, .. } => bits as int,
            FieldShape::Record { size_bytes, .. } => size_bytes * 8,
            FieldShape::RecordTypedef { size_bytes, .. } => size_bytes * 8,
            FieldShape::ArrayTypedef { len, elem_bits, .. } => len * elem_bits,
            FieldShape::Opaque { .. } => 0,
        },
        ArrayKind::Fixed(n) => match fld.shape {
            FieldShape::Integer { bits, .. } => n * bits,
            FieldShape::RecordTypedef { size_bytes, .. } => n * (size_bytes * 8),
            _ => 0,
        },
        ArrayKind::Incomplete => 0,
    }
}

/// A well-formed field: a spelled-out record block is not itself an
/// array, is a struct (unions overlap by design and are excluded here),
/// and its members form a well-formed chain within the block's size.
pub open spec fn wf_decl(fld: FieldDecl) -> bool
    decreases fld, 0int,
{
    match fld.shape {
        FieldShape::Record { is_union, size_bytes, fields, .. } => {
            &&& !is_union
            &&& fld.array is NotArray
            &&& wf_chain(fields@, fields@.len() as int, 0, size_bytes * 8)
        },
        _ => true,
    }
}

/// The first `i` fields occupy ascending, pairwise-disjoint bit ranges
/// inside `[lo, hi)`, each well-formed, in declaration order.
pub open spec fn wf_chain(fields: Seq<FieldDecl>, i: int, lo: int, hi: int) -> bool
    decreases fields, i,
{
    i <= 0 || (i <= fields.len() && {
        let f = fields[i - 1];
        let s = f.byte_offset * 8;
        let e = s + decl_extent_bits(f);
        &&& lo <= s
        &&& e <= hi
        &&& wf_decl(f)
        &&& wf_chain(fields, i - 1, lo, s)
    })
}

/// The bit extent one emitted layout row covers: its per-element width
/// times its element count (1 for a non-array row).
pub open spec fn row_extent(r: HWFieldV) -> int {
    r.size * (if r.group_len == GROUP_NONE as int {
        1
    } else {
        r.group_len
    })
}

/// A row sequence lies within `[lo, hi)` and is ascending and pairwise
/// disjoint: each row ends before the next begins.
pub open spec fn rows_monotone_in(rows: Seq<HWFieldV>, lo: int, hi: int) -> bool {
    &&& forall|k: int|
        0 <= k < rows.len() ==> lo <= #[trigger] rows[k].start && rows[k].start + row_extent(
            rows[k],
        ) <= hi
    &&& forall|k: int, l: int|
        0 <= k < l < rows.len() ==> #[trigger] rows[k].start + row_extent(rows[k])
            <= #[trigger] rows[l].start
}

/// The rows of one well-formed field lie within the field's own slot and
/// are ascending and disjoint.
pub proof fn lemma_field_rows_monotone(fld: FieldDecl, base: int, prefix: Seq<char>)
    requires
        wf_decl(fld),
    ensures
        rows_monotone_in(
            spec_hw_field_rows(fld, base, prefix),
            base + fld.byte_offset * 8,
            base + fld.byte_offset * 8 + decl_extent_bits(fld),
        ),
    decreases fld, 1int,
{
    let off = base + fld.byte_offset * 8;
    let rows = spec_hw_field_rows(fld, base, prefix);
    match fld.array {
        ArrayKind::NotArray => match fld.shape {
            FieldShape::Record { named, size_bytes, fields, .. } => {
                lemma_chain_rows_monotone(
                    fields@,
                    fields@.len() as int,
                    off,
                    if named {
                        fld.name@ + "_"@
                    } else {
                        Seq::<char>::empty()
                    },
                    0,
                    size_bytes * 8,
                );
            },
            _ => {
                assert(rows.len() == 1 && rows[0].start == off);
                assert(row_extent(rows[0]) <= decl_extent_bits(fld)) by {
                    match fld.shape {
                        FieldShape::ArrayTypedef { len, elem_bits, .. } => {
                            lemma_elem_extent(elem_bits as int, len as int);
                        },
                        _ => {},
                    }
                }
            },
        },
        ArrayKind::Fixed(n) => {
            assert(rows.len() == 1 && rows[0].start == off);
            assert(row_extent(rows[0]) <= decl_extent_bits(fld)) by {
                match fld.shape {
                    FieldShape::Integer { bits, .. } => {
                        lemma_elem_extent(bits as int, n as int);
                    },
                    FieldShape::RecordTypedef { size_bytes, .. } => {
                        lemma_elem_extent(size_bytes * 8, n as int);
                    },
                    _ => {
                        lemma_elem_extent(0, n as int);
                    },
                }
            }
        },
        ArrayKind::Incomplete => {
            assert(rows.len() == 1 && rows[0].start == off && row_extent(rows[0]) == 0);
        },
    }
}

/// An element width times an element count, read either way, is covered
/// by the declared extent `count * width`; a single element is covered
/// whenever the count is at least one.
proof fn lemma_elem_extent(w: int, n: int)
    requires
        w >= 0,
        n >= 0,
    ensures
        w * n <= n * w,
        n * w <= w * n,
        n >= 1 ==> w * 1 <= n * w,
        w * 0 == 0 && 0 * n == 0,
{
    assert(w * n == n * w) by (nonlinear_arith);
    assert(n >= 1 ==> w * 1 <= n * w) by (nonlinear_arith)
        requires
            w >= 0,
            n >= 0,
    ;
    assert(w * 0 == 0 && 0 * n == 0) by (nonlinear_arith);
}

/// The rows of a well-formed chain of fields lie within `[base+lo,
/// base+hi)` and are ascending and disjoint.
pub proof fn lemma_chain_rows_monotone(
    fields: Seq<FieldDecl>,
    i: int,
    base: int,
    prefix: Seq<char>,
    lo: int,
    hi: int,
)
    requires
        wf_chain(fields, i, lo, hi),
        i <= fields.len(),
    ensures
        rows_monotone_in(spec_hw_rows_to(fields, i, base, prefix), base + lo, base + hi),
    decreases fields, i,
{
    if i <= 0 {
    } else {
        let f = fields[i - 1];
        let s = f.byte_offset * 8;
        lemma_chain_rows_monotone(fields, i - 1, base, prefix, lo, s);
        lemma_field_rows_monotone(f, base, prefix);
        let front = spec_hw_rows_to(fields, i - 1, base, prefix);
        let tail = spec_hw_field_rows(f, base, prefix);
        let all = spec_hw_rows_to(fields, i, base, prefix);
        assert(all == front + tail);
        assert(rows_monotone_in(front, base + lo, base + s));
        assert(rows_monotone_in(tail, base + s, base + s + decl_extent_bits(f)));
        assert forall|k: int|
            0 <= k < all.len() implies base + lo <= #[trigger] all[k].start && all[k].start
            + row_extent(all[k]) <= base + hi by {
            if k < front.len() {
                assert(all[k] == front[k]);
            } else {
                assert(all[k] == tail[k - front.len()]);
            }
        }
        assert forall|k: int, l: int|
            0 <= k < l < all.len() implies #[trigger] all[k].start + row_extent(all[k])
            <= #[trigger] all[l].start by {
            if l < front.len() {
                assert(all[k] == front[k] && all[l] == front[l]);
            } else if k >= front.len() {
                assert(all[k] == tail[k - front.len()] && all[l] == tail[l - front.len()]);
            } else {
                assert(all[k] == front[k] && all[l] == tail[l - front.len()]);
                assert(front[k].start + row_extent(front[k]) <= base + s);
                assert(base + s <= tail[l - front.len()].start);
            }
        }
    }
}

/// Offset monotone coverage: flattening a well-formed declaration (its
/// fields in ascending, non-overlapping order within the declared size,
/// recursively, and union-free) emits rows whose bit ranges
/// `[start, start + size * elements)` lie within
/// `[base, base + total_size_bits)`, ascend in emission order, and never
/// overlap.
pub proof fn lemma_flatten_monotone_coverage(
    fields: Seq<FieldDecl>,
    total_size_bits: int,
    base: int,
    prefix: Seq<char>,
)
    requires
        wf_chain(fields, fields.len() as int, 0, total_size_bits),
    ensures
        rows_monotone_in(spec_hw_rows(fields, base, prefix), base, base + total_size_bits),
{
    lemma_chain_rows_monotone(
        fields,
        fields.len() as int,
        base,
        prefix,
        0,
        total_size_bits,
    );
}

} // verus!

//! The IR builder's merge steps: each function takes one construct that a
//! header walk produced (a macro definition's tokens, an enum value, a
//! flattened struct) and merges it into the running maps, insert-or-
//! overwrite. Macro names starting with a double underscore are reserved
//! for the toolchain and skipped; unclassifiable macros are dropped, not
//! recorded.

use vstd::prelude::*;

use crate::classify::{classify_tokens, spec_classify};
use crate::flatten::{
    handle_c_parser_record, handle_record, spec_c_rows, spec_fields_fit, spec_hw_rows,
    FieldDecl,
};
use crate::ir::{
    c_rows_view, has_key, hw_rows_view, key_index, unique_keys, insert_entry,
    CStructField, CType, CTypes, HWDefine, HWDefineType, HWStruct, HWStructField,
};
use crate::strutil::{is_prefix, str_starts_with};

verus! {

/// `post` is `pre` with `v` written under `name`: overwritten in place if
/// the name was present, appended otherwise.
pub open spec fn inserted<V>(
    pre: Seq<(String, V)>,
    post: Seq<(String, V)>,
    name: String,
    v: V,
) -> bool {
    post == (if has_key(pre, name@) {
        pre.update(key_index(pre, name@), (name, v))
    } else {
        pre.push((name, v))
    })
}

/// Merges one macro definition into the layout document's constant map.
/// Reserved (`__`-prefixed) names and unclassifiable token shapes leave
/// the map unchanged; otherwise the classified value strings are recorded
/// under the macro's name.
pub fn record_hw_define(
    defines: &mut Vec<(String, HWDefine)>,
    name: String,
    tokens: &Vec<String>,
)
    requires
        unique_keys(old(defines)@),
    ensures
        unique_keys(final(defines)@),
        ({
            let c = spec_classify(tokens.deep_view());
            if is_prefix("__"@, name@) || c is None {
                final(defines)@ == old(defines)@
            } else {
                exists|d: HWDefine|
                    {
                        &&& d.hwtype is Value
                        &&& d.vals.deep_view() == c.unwrap()
                        &&& inserted(old(defines)@, final(defines)@, name, d)
                    }
            }
        }),
{
    if str_starts_with(name.as_str(), "__") {
        return;
    }
    match classify_tokens(tokens) {
        None => {},
        Some(vals) => {
            let d = HWDefine { hwtype: HWDefineType::Value, vals };
            let ghost gd = d;
            insert_entry(defines, name, d);
            proof {
                let c = spec_classify(tokens.deep_view());
                assert(exists|d: HWDefine|
                    {
                        &&& d.hwtype is Value
                        &&& d.vals.deep_view() == c.unwrap()
                        &&& inserted(old(defines)@, defines@, name, d)
                    }) by {
                    assert(gd.hwtype is Value);
                    assert(gd.vals.deep_view() == c.unwrap());
                    assert(inserted(old(defines)@, defines@, name, gd));
                }
            }
        },
    }
}

/// Merges one enum constant into the layout document's constant map. The
/// placeholder enumerator named `packed` is skipped; any other name is
/// recorded as a single-value constant.
pub fn record_hw_enum_value(
    defines: &mut Vec<(String, HWDefine)>,
    name: String,
    value: String,
)
    requires
        unique_keys(old(defines)@),
    ensures
        unique_keys(final(defines)@),
        (if name@ == "packed"@ {
            final(defines)@ == old(defines)@
        } else {
            exists|d: HWDefine|
                {
                    &&& d.hwtype is Value
                    &&& d.vals.deep_view() == seq![value@]
                    &&& inserted(old(defines)@, final(defines)@, name, d)
                }
        }),
{
    if crate::strutil::str_eq(name.as_str(), "packed") {
        return;
    }
    let mut vals: Vec<String> = Vec::new();
    let ghost v = value@;
    vals.push(value);
    proof {
        assert(vals.deep_view() =~= seq![v]);
    }
    let d = HWDefine { hwtype: HWDefineType::Value, vals };
    let ghost gd = d;
    insert_entry(defines, name, d);
    proof {
        assert(exists|d: HWDefine|
            {
                &&& d.hwtype is Value
                &&& d.vals.deep_view() == seq![v]
                &&& inserted(old(defines)@, defines@, name, d)
            }) by {
            assert(gd.hwtype is Value);
            assert(gd.vals.deep_view() == seq![v]);
            assert(inserted(old(defines)@, defines@, name, gd));
        }
    }
}

/// Merges one flattened struct layout into the layout map, unless the
/// declaration's total size could not be determined (zero bits), in which
/// case the struct is skipped.
pub fn record_hw_struct(
    structs: &mut Vec<(String, HWStruct)>,
    name: String,
    fields: Vec<HWStructField>,
    total_size_bits: u32,
)
    requires
        unique_keys(old(structs)@),
    ensures
        unique_keys(final(structs)@),
        (if total_size_bits == 0 {
            final(structs)@ == old(structs)@
        } else {
            inserted(
                old(structs)@,
                final(structs)@,
                name,
                (HWStruct { total_size: total_size_bits, fields }),
            )
        }),
{
    if total_size_bits == 0 {
        return;
    }
    insert_entry(structs, name, HWStruct { total_size: total_size_bits, fields });
}

/// Merges one macro definition into the definitions document, under the
/// same reserved-name and classifiability rules as the layout side.
pub fn record_c_define(
    types: &mut Vec<(String, CTypes)>,
    name: String,
    tokens: &Vec<String>,
)
    requires
        unique_keys(old(types)@),
    ensures
        unique_keys(final(types)@),
        ({
            let c = spec_classify(tokens.deep_view());
            if is_prefix("__"@, name@) || c is None {
                final(types)@ == old(types)@
            } else {
                exists|d: CTypes|
                    {
                        &&& d.ctype is Value
                        &&& d.vals.deep_view() == c.unwrap()
                        &&& d.fields@.len() == 0
                        &&& !d.is_anon_struct
                        &&& inserted(old(types)@, final(types)@, name, d)
                    }
            }
        }),
{
    if str_starts_with(name.as_str(), "__") {
        return;
    }
    match classify_tokens(tokens) {
        None => {},
        Some(vals) => {
            let d = CTypes {
                ctype: CType::Value,
                vals,
                is_anon_struct: false,
                fields: Vec::new(),
            };
            let ghost gd = d;
            insert_entry(types, name, d);
            proof {
                let c = spec_classify(tokens.deep_view());
                assert(exists|d: CTypes|
                    {
                        &&& d.ctype is Value
                        &&& d.vals.deep_view() == c.unwrap()
                        &&& d.fields@.len() == 0
                        &&& !d.is_anon_struct
                        &&& inserted(old(types)@, types@, name, d)
                    }) by {
                    assert(gd.ctype is Value);
                    assert(gd.vals.deep_view() == c.unwrap());
                    assert(inserted(old(types)@, types@, name, gd));
                }
            }
        },
    }
}

/// Merges one enum constant into the definitions document, skipping the
/// placeholder enumerator named `packed`.
pub fn record_c_enum_value(
    types: &mut Vec<(String, CTypes)>,
    name: String,
    value: String,
)
    requires
        unique_keys(old(types)@),
    ensures
        unique_keys(final(types)@),
        (if name@ == "packed"@ {
            final(types)@ == old(types)@
        } else {
            exists|d: CTypes|
                {
                    &&& d.ctype is Value
                    &&& d.vals.deep_view() == seq![value@]
                    &&& d.fields@.len() == 0
                    &&& !d.is_anon_struct
                    &&& inserted(old(types)@, final(types)@, name, d)
                }
        }),
{
    if crate::strutil::str_eq(name.as_str(), "packed") {
        return;
    }
    let mut vals: Vec<String> = Vec::new();
    let ghost v = value@;
    vals.push(value);
    proof {
        assert(vals.deep_view() =~= seq![v]);
    }
    let d = CTypes { ctype: CType::Value, vals, is_anon_struct: false, fields: Vec::new() };
    let ghost gd = d;
    insert_entry(types, name, d);
    proof {
        assert(exists|d: CTypes|
            {
                &&& d.ctype is Value
                &&& d.vals.deep_view() == seq![v]
                &&& d.fields@.len() == 0
                &&& !d.is_anon_struct
                &&& inserted(old(types)@, types@, name, d)
            }) by {
            assert(gd.ctype is Value);
            assert(gd.vals.deep_view() == seq![v]);
            assert(inserted(old(types)@, types@, name, gd));
        }
    }
}

/// Records an enum declaration's own name as a typedef of the 32-bit
/// unsigned base type.
pub fn record_c_enum_typedef(types: &mut Vec<(String, CTypes)>, name: String)
    requires
        unique_keys(old(types)@),
    ensures
        unique_keys(final(types)@),
        exists|d: CTypes|
            {
                &&& d.ctype is Typedef
                &&& d.vals.deep_view() == seq!["u32"@]
                &&& d.fields@.len() == 0
                &&& inserted(old(types)@, final(types)@, name, d)
            },
{
    let mut vals: Vec<String> = Vec::new();
    vals.push(String::from_str("u32"));
    proof {
        assert(vals.deep_view() =~= seq!["u32"@]);
    }
    let d = CTypes { ctype: CType::Typedef, vals, is_anon_struct: false, fields: Vec::new() };
    let ghost gd = d;
    insert_entry(types, name, d);
    proof {
        assert(exists|d: CTypes|
            {
                &&& d.ctype is Typedef
                &&& d.vals.deep_view() == seq!["u32"@]
                &&& d.fields@.len() == 0
                &&& inserted(old(types)@, types@, name, d)
            }) by {
            assert(gd.ctype is Typedef);
            assert(gd.vals.deep_view() == seq!["u32"@]);
            assert(inserted(old(types)@, types@, name, gd));
        }
    }
}

/// Merges one declaration-level struct (its marker-tagged field list) into
/// the definitions document, unless the declaration's total size could not
/// be determined.
pub fn record_c_struct(
    types: &mut Vec<(String, CTypes)>,
    name: String,
    fields: Vec<CStructField>,
    total_size_bits: u32,
)
    requires
        unique_keys(old(types)@),
    ensures
        unique_keys(final(types)@),
        (if total_size_bits == 0 {
            final(types)@ == old(types)@
        } else {
            exists|d: CTypes|
                {
                    &&& d.ctype is Struct
                    &&& d.vals.deep_view() == seq![""@]
                    &&& d.fields == fields
                    &&& !d.is_anon_struct
                    &&& inserted(old(types)@, final(types)@, name, d)
                }
        }),
{
    if total_size_bits == 0 {
        return;
    }
    let mut vals: Vec<String> = Vec::new();
    vals.push(String::new());
    proof {
        reveal_strlit("");
        assert(""@ =~= Seq::<char>::empty());
        assert(vals.deep_view() =~= seq![""@]);
    }
    let ghost gf = fields;
    let d = CTypes { ctype: CType::Struct, vals, is_anon_struct: false, fields };
    let ghost gd = d;
    insert_entry(types, name, d);
    proof {
        assert(exists|d: CTypes|
            {
                &&& d.ctype is Struct
                &&& d.vals.deep_view() == seq![""@]
                &&& d.fields == gf
                &&& !d.is_anon_struct
                &&& inserted(old(types)@, types@, name, d)
            }) by {
            assert(gd.ctype is Struct);
            assert(gd.vals.deep_view() == seq![""@]);
            assert(inserted(old(types)@, types@, name, gd));
        }
    }
}

/// Processes one struct typedef for the layout document: flattens the
/// declaration into bit-level rows from offset zero and merges the result
/// under the typedef's name, unless the declaration's total size could
/// not be determined.
pub fn record_struct_typedef(
    structs: &mut Vec<(String, HWStruct)>,
    name: String,
    decl_fields: &Vec<FieldDecl>,
    total_size_bits: u32,
)
    requires
        unique_keys(old(structs)@),
        spec_fields_fit(decl_fields@, decl_fields@.len() as int, 0),
    ensures
        unique_keys(final(structs)@),
        (if total_size_bits == 0 {
            final(structs)@ == old(structs)@
        } else {
            exists|hs: HWStruct|
                {
                    &&& hs.total_size == total_size_bits
                    &&& hw_rows_view(hs.fields@) == spec_hw_rows(
                        decl_fields@,
                        0,
                        Seq::<char>::empty(),
                    )
                    &&& inserted(old(structs)@, final(structs)@, name, hs)
                }
        }),
{
    if total_size_bits == 0 {
        return;
    }
    let mut newfields: Vec<HWStructField> = Vec::new();
    handle_record(0, &mut newfields, decl_fields, "");
    proof {
        reveal_strlit("");
        assert(""@ =~= Seq::<char>::empty());
        assert(hw_rows_view(newfields@) =~= spec_hw_rows(
            decl_fields@,
            0,
            Seq::<char>::empty(),
        ));
    }
    let hs = HWStruct { total_size: total_size_bits, fields: newfields };
    let ghost ghs = hs;
    insert_entry(structs, name, hs);
    proof {
        assert(exists|hs: HWStruct|
            {
                &&& hs.total_size == total_size_bits
                &&& hw_rows_view(hs.fields@) == spec_hw_rows(
                    decl_fields@,
                    0,
                    Seq::<char>::empty(),
                )
                &&& inserted(old(structs)@, structs@, name, hs)
            }) by {
            assert(ghs.total_size == total_size_bits);
            assert(hw_rows_view(ghs.fields@) == spec_hw_rows(
                decl_fields@,
                0,
                Seq::<char>::empty(),
            ));
            assert(inserted(old(structs)@, structs@, name, ghs));
        }
    }
}

/// Processes one struct typedef for the definitions document: flattens
/// the declaration into marker-tagged rows and merges the result under
/// the typedef's name, unless the declaration's total size could not be
/// determined.
pub fn record_c_struct_typedef(
    types: &mut Vec<(String, CTypes)>,
    name: String,
    decl_fields: &Vec<FieldDecl>,
    total_size_bits: u32,
)
    requires
        unique_keys(old(types)@),
    ensures
        unique_keys(final(types)@),
        (if total_size_bits == 0 {
            final(types)@ == old(types)@
        } else {
            exists|d: CTypes|
                {
                    &&& d.ctype is Struct
                    &&& d.vals.deep_view() == seq![""@]
                    &&& c_rows_view(d.fields@) == spec_c_rows(
                        decl_fields@,
                        Seq::<char>::empty(),
                    )
                    &&& !d.is_anon_struct
                    &&& inserted(old(types)@, final(types)@, name, d)
                }
        }),
{
    if total_size_bits == 0 {
        return;
    }
    let mut newfields: Vec<CStructField> = Vec::new();
    handle_c_parser_record(&mut newfields, decl_fields, "");
    proof {
        reveal_strlit("");
        assert(""@ =~= Seq::<char>::empty());
        assert(c_rows_view(newfields@) =~= spec_c_rows(decl_fields@, Seq::<char>::empty()));
    }
    let mut vals: Vec<String> = Vec::new();
    vals.push(String::new());
    proof {
        assert(vals.deep_view() =~= seq![""@]);
    }
    let ghost grows = c_rows_view(newfields@);
    let d = CTypes { ctype: CType::Struct, vals, is_anon_struct: false, fields: newfields };
    let ghost gd = d;
    insert_entry(types, name, d);
    proof {
        assert(exists|d: CTypes|
            {
                &&& d.ctype is Struct
                &&& d.vals.deep_view() == seq![""@]
                &&& c_rows_view(d.fields@) == spec_c_rows(decl_fields@, Seq::<char>::empty())
                &&& !d.is_anon_struct
                &&& inserted(old(types)@, types@, name, d)
            }) by {
            assert(gd.ctype is Struct);
            assert(gd.vals.deep_view() == seq![""@]);
            assert(c_rows_view(gd.fields@) == spec_c_rows(
                decl_fields@,
                Seq::<char>::empty(),
            ));
            assert(inserted(old(types)@, types@, name, gd));
        }
    }
}

} // verus!

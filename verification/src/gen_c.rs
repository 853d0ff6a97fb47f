//! The declaration-oriented generator over the definitions document:
//! re-emits selected constants, typedefs and struct declarations as C
//! source, with every emitted name suffixed by the document version.
//! Nested union/struct marker rows are translated back into nested
//! anonymous block syntax.

use vstd::prelude::*;

use crate::ir::{
    find_entry, has_key, key_index, lookup, CFieldV, CJson, CStructField, CTypes, FieldType,
    GenError,
};
use crate::gen_hw::{header_guard, spec_header_guard};
use crate::strutil::{spec_before, spec_dec, str_before_char, u32_to_dec};

verus! {

/// One re-emitted macro line, version-suffixed: the value, or a
/// `low:high` pair.
pub open spec fn spec_c_define(ver: Seq<char>, name: Seq<char>, vals: Seq<Seq<char>>) -> Seq<
    char,
> {
    if vals.len() == 2 {
        "#define "@ + name + "_"@ + ver + " "@ + vals[0] + ":"@ + vals[1] + "\n"@
    } else {
        "#define "@ + name + "_"@ + ver + " "@ + vals[0] + "\n"@
    }
}

/// Re-emits one constant definition as a `#define` line.
pub fn generate_define(verstr: &str, defname: &String, define: &CTypes) -> (r: String)
    requires
        define.vals@.len() >= 1,
    ensures
        r@ == spec_c_define(verstr@, defname@, define.vals.deep_view()),
{
    let mut s = String::from_str("#define ");
    s.append(defname.as_str());
    s.append("_");
    s.append(verstr);
    s.append(" ");
    s.append(define.vals[0].as_str());
    if define.vals.len() == 2 {
        s.append(":");
        s.append(define.vals[1].as_str());
    }
    s.append("\n");
    proof {
        assert(s@ =~= spec_c_define(verstr@, defname@, define.vals.deep_view()));
    }
    s
}

/// One re-emitted declaration field line. A member renders its
/// version-suffixed type (for an array, the type spelling up to any `[`)
/// and its name; a block marker opens an anonymous `union`/`struct` or
/// closes it with the block's field name and array suffix.
pub open spec fn spec_c_field_line(ver: Seq<char>, f: CFieldV) -> Seq<char> {
    match f.fldtype {
        FieldType::Member => if f.is_array {
            "    "@ + spec_before(f.ftype, '[') + "_"@ + ver + "    "@ + f.name + "["@
                + spec_dec(f.size) + "];\n"@
        } else {
            "    "@ + f.ftype + "_"@ + ver + "    "@ + f.name + ";\n"@
        },
        FieldType::UnionStart => "    union {\n"@,
        FieldType::StructStart => "    struct {\n"@,
        FieldType::UnionEnd | FieldType::StructEnd => if f.is_array {
            "    } "@ + f.name + "["@ + spec_dec(f.size) + "];\n"@
        } else {
            "    } "@ + f.name + ";\n"@
        },
    }
}

/// The declaration field lines of the first `i` rows.
pub open spec fn spec_c_fields_to(ver: Seq<char>, fields: Seq<CStructField>, i: int) -> Seq<
    char,
>
    decreases i,
{
    if i <= 0 || i > fields.len() {
        Seq::empty()
    } else {
        spec_c_fields_to(ver, fields, i - 1) + spec_c_field_line(ver, fields[i - 1]@)
    }
}

/// The typedef-struct declaration re-emitted for one recorded struct.
pub open spec fn spec_c_struct(ver: Seq<char>, name: Seq<char>, d: CTypes) -> Seq<char> {
    "typedef struct "@ + name + "_"@ + ver + " {\n"@ + spec_c_fields_to(
        ver,
        d.fields@,
        d.fields@.len() as int,
    ) + "} "@ + name + "_"@ + ver + ";\n"@
}

/// Re-emits one recorded struct as a typedef-struct declaration.
#[verifier::rlimit(50)]
pub fn generate_struct(verstr: &str, strname: &String, cstruct: &CTypes) -> (r: String)
    ensures
        r@ == spec_c_struct(verstr@, strname@, *cstruct),
{
    let mut s = String::from_str("typedef struct ");
    s.append(strname.as_str());
    s.append("_");
    s.append(verstr);
    s.append(" {\n");
    let ghost head = s@;
    let mut i: usize = 0;
    while i < cstruct.fields.len()
        invariant
            i <= cstruct.fields@.len(),
            s@ == head + spec_c_fields_to(verstr@, cstruct.fields@, i as int),
        decreases cstruct.fields@.len() - i,
    {
        let f = &cstruct.fields[i];
        match &f.fldtype {
            FieldType::Member => {
                s.append("    ");
                if f.is_array {
                    let base = str_before_char(f.ftype.as_str(), '[');
                    s.append(base.as_str());
                } else {
                    s.append(f.ftype.as_str());
                }
                s.append("_");
                s.append(verstr);
                s.append("    ");
                s.append(f.name.as_str());
                if f.is_array {
                    s.append("[");
                    let d = u32_to_dec(f.size);
                    s.append(d.as_str());
                    s.append("];\n");
                } else {
                    s.append(";\n");
                }
            },
            FieldType::UnionStart => {
                s.append("    union {\n");
            },
            FieldType::StructStart => {
                s.append("    struct {\n");
            },
            FieldType::UnionEnd | FieldType::StructEnd => {
                s.append("    } ");
                s.append(f.name.as_str());
                if f.is_array {
                    s.append("[");
                    let d = u32_to_dec(f.size);
                    s.append(d.as_str());
                    s.append("];\n");
                } else {
                    s.append(";\n");
                }
            },
        }
        proof {
            assert(s@ =~= head + spec_c_fields_to(verstr@, cstruct.fields@, i as int + 1));
        }
        i += 1;
    }
    s.append("} ");
    s.append(strname.as_str());
    s.append("_");
    s.append(verstr);
    s.append(";\n");
    proof {
        assert(s@ =~= spec_c_struct(verstr@, strname@, *cstruct));
    }
    s
}

/// The alias declaration re-emitted for one recorded typedef.
pub open spec fn spec_c_typedef(ver: Seq<char>, name: Seq<char>, vals: Seq<Seq<char>>) -> Seq<
    char,
> {
    "typedef struct "@ + name + "_"@ + ver + " "@ + vals[0] + "\n"@
}

/// Re-emits one recorded typedef as an alias declaration.
pub fn generate_typedef(verstr: &str, tdname: &String, ctypedef: &CTypes) -> (r: String)
    requires
        ctypedef.vals@.len() >= 1,
    ensures
        r@ == spec_c_typedef(verstr@, tdname@, ctypedef.vals.deep_view()),
{
    let mut s = String::from_str("typedef struct ");
    s.append(tdname.as_str());
    s.append("_");
    s.append(verstr);
    s.append(" ");
    s.append(ctypedef.vals[0].as_str());
    s.append("\n");
    proof {
        assert(s@ =~= spec_c_typedef(verstr@, tdname@, ctypedef.vals.deep_view()));
    }
    s
}

/// One version-aliasing line for a base type the headers use unchanged.
pub open spec fn spec_base_type_line(ver: Seq<char>, t: Seq<char>) -> Seq<char> {
    "#define "@ + t + "_"@ + ver + " "@ + t + "\n"@
}

/// The version-aliasing lines for the fixed set of base types, followed
/// by a blank line.
pub open spec fn spec_base_type_defines(ver: Seq<char>) -> Seq<char> {
    spec_base_type_line(ver, "NvU32"@) + spec_base_type_line(ver, "NvU64"@)
        + spec_base_type_line(ver, "NvU16"@) + spec_base_type_line(ver, "NvU8"@)
        + spec_base_type_line(ver, "NvBool"@) + spec_base_type_line(ver, "char"@)
        + spec_base_type_line(ver, "NvHandle"@) + spec_base_type_line(ver, "int"@) + "\n"@
}

/// Appends one base-type aliasing line.
fn append_base_type_line(out: &mut String, verstr: &str, t: &str)
    ensures
        final(out)@ == old(out)@ + spec_base_type_line(verstr@, t@),
{
    out.append("#define ");
    out.append(t);
    out.append("_");
    out.append(verstr);
    out.append(" ");
    out.append(t);
    out.append("\n");
    proof {
        assert(out@ =~= old(out)@ + spec_base_type_line(verstr@, t@));
    }
}

/// The text the first `i` selected names contribute: each name found in
/// the definition map contributes its declaration and a blank line; a
/// missing name contributes nothing.
pub open spec fn spec_c_syms_to(json: CJson, ver: Seq<char>, syms: Seq<String>, i: int) -> Seq<
    char,
>
    decreases i,
{
    if i <= 0 || i > syms.len() {
        Seq::empty()
    } else {
        spec_c_syms_to(json, ver, syms, i - 1) + (if has_key(json.types@, syms[i - 1]@) {
            (match lookup(json.types@, syms[i - 1]@).ctype {
                crate::ir::CType::Struct => spec_c_struct(
                    ver,
                    syms[i - 1]@,
                    lookup(json.types@, syms[i - 1]@),
                ),
                crate::ir::CType::Value => spec_c_define(
                    ver,
                    syms[i - 1]@,
                    lookup(json.types@, syms[i - 1]@).vals.deep_view(),
                ),
                crate::ir::CType::Typedef => spec_c_typedef(
                    ver,
                    syms[i - 1]@,
                    lookup(json.types@, syms[i - 1]@).vals.deep_view(),
                ),
                crate::ir::CType::Unknown => Seq::empty(),
            }) + "\n"@
        } else {
            Seq::empty()
        })
    }
}

/// Every selected name that the definition map holds resolves to a
/// definition with a generation rule (not `Unknown`).
pub open spec fn spec_c_syms_ok(json: CJson, syms: Seq<String>) -> bool {
    forall|i: int|
        0 <= i < syms.len() && has_key(json.types@, syms[i]@) ==> !(lookup(
            json.types@,
            syms[i]@,
        ).ctype is Unknown)
}

/// Every `Value` or `Typedef` definition carries at least one value
/// string, as the document schema promises.
pub open spec fn spec_ctypes_have_vals(types: Seq<(String, CTypes)>) -> bool {
    forall|i: int|
        0 <= i < types.len() && !(types[i].1.ctype is Struct) && !(types[i].1.ctype is Unknown)
            ==> types[i].1.vals@.len() >= 1
}

/// The whole re-emitted header: guard, base-type aliases, one section
/// per selected name, then the guard's end.
pub open spec fn spec_c_file_text(json: CJson, syms: Seq<String>) -> Seq<char> {
    let ver = crate::strutil::spec_replace(json.version@, '.', '_');
    spec_header_guard(json.version@) + spec_base_type_defines(ver) + spec_c_syms_to(
        json,
        ver,
        syms,
        syms.len() as int,
    ) + "#endif\n"@
}

/// Generates the whole declaration-oriented output for a list of
/// selected names over one definitions document. Fails, emitting
/// nothing, exactly when a selected definition carries the `Unknown`
/// tag.
#[verifier::rlimit(80)]
pub fn generate_c_file(json: &CJson, syms: &Vec<String>) -> (r: Result<String, GenError>)
    requires
        json.wf(),
        spec_ctypes_have_vals(json.types@),
    ensures
        match r {
            Ok(s) => spec_c_syms_ok(*json, syms@) && s@ == spec_c_file_text(*json, syms@),
            Err(e) => !spec_c_syms_ok(*json, syms@) && e is UnknownKind,
        },
{
    let ver = crate::strutil::str_replace_char(json.version.as_str(), '.', '_');
    let mut out = header_guard(&json.version);
    append_base_type_line(&mut out, ver.as_str(), "NvU32");
    append_base_type_line(&mut out, ver.as_str(), "NvU64");
    append_base_type_line(&mut out, ver.as_str(), "NvU16");
    append_base_type_line(&mut out, ver.as_str(), "NvU8");
    append_base_type_line(&mut out, ver.as_str(), "NvBool");
    append_base_type_line(&mut out, ver.as_str(), "char");
    append_base_type_line(&mut out, ver.as_str(), "NvHandle");
    append_base_type_line(&mut out, ver.as_str(), "int");
    out.append("\n");
    proof {
        assert(out@ =~= spec_header_guard(json.version@) + spec_base_type_defines(ver@));
    }
    let ghost head = out@;
    let mut i: usize = 0;
    while i < syms.len()
        invariant
            json.wf(),
            spec_ctypes_have_vals(json.types@),
            ver@ == crate::strutil::spec_replace(json.version@, '.', '_'),
            i <= syms@.len(),
            out@ == head + spec_c_syms_to(*json, ver@, syms@, i as int),
            forall|j: int|
                0 <= j < i && has_key(json.types@, syms@[j]@) ==> !(lookup(
                    json.types@,
                    syms@[j]@,
                ).ctype is Unknown),
        decreases syms@.len() - i,
    {
        let sym = &syms[i];
        match find_entry(&json.types, sym.as_str()) {
            None => {},
            Some(k) => {
                proof {
                    assert(key_index(json.types@, sym@) == k) by {
                        let ki = key_index(json.types@, sym@);
                        assert(json.types@[k as int].0@ == sym@);
                        assert(0 <= ki < json.types@.len() && json.types@[ki].0@ == sym@);
                    }
                }
                let d = &json.types[k].1;
                match &d.ctype {
                    crate::ir::CType::Unknown => {
                        proof {
                            assert(!spec_c_syms_ok(*json, syms@)) by {
                                assert(has_key(json.types@, syms@[i as int]@));
                                assert(lookup(json.types@, syms@[i as int]@).ctype is Unknown);
                            }
                        }
                        return Err(GenError::UnknownKind);
                    },
                    crate::ir::CType::Struct => {
                        let t = generate_struct(ver.as_str(), &json.types[k].0, d);
                        out.append(t.as_str());
                        out.append("\n");
                    },
                    crate::ir::CType::Value => {
                        let t = generate_define(ver.as_str(), &json.types[k].0, d);
                        out.append(t.as_str());
                        out.append("\n");
                    },
                    crate::ir::CType::Typedef => {
                        let t = generate_typedef(ver.as_str(), &json.types[k].0, d);
                        out.append(t.as_str());
                        out.append("\n");
                    },
                }
            },
        }
        proof {
            assert(out@ =~= head + spec_c_syms_to(*json, ver@, syms@, i as int + 1));
        }
        i += 1;
    }
    out.append("#endif\n");
    proof {
        assert(out@ =~= spec_c_file_text(*json, syms@));
    }
    Ok(out)
}

} // verus!
//! The header-oriented generator over the layout document: re-emits
//! selected constants as `#define` lines and selected layout structs as
//! C-style struct declarations, wrapped in a version-keyed header guard.

use vstd::prelude::*;

use crate::ir::{
    find_entry, has_key, key_index, lookup, GenError, HWDefine, HWFieldV, HWJson, HWStruct,
    GROUP_NONE,
};
use crate::strutil::{spec_dec, spec_replace, str_eq, str_replace_char, u32_to_dec};
use crate::gen_rust::spec_defines_have_vals;

verus! {

/// One re-emitted macro line: the value, or a `low:high` pair.
pub open spec fn spec_hw_define(name: Seq<char>, vals: Seq<Seq<char>>) -> Seq<char> {
    if vals.len() == 2 {
        "#define "@ + name + " "@ + vals[0] + ":"@ + vals[1] + "\n"@
    } else {
        "#define "@ + name + " "@ + vals[0] + "\n"@
    }
}

/// Re-emits one recorded constant as a `#define` line.
pub fn generate_define(defname: &String, define: &HWDefine) -> (r: String)
    requires
        define.vals@.len() >= 1,
    ensures
        r@ == spec_hw_define(defname@, define.vals.deep_view()),
{
    let mut s = String::from_str("#define ");
    s.append(defname.as_str());
    s.append(" ");
    s.append(define.vals[0].as_str());
    if define.vals.len() == 2 {
        s.append(":");
        s.append(define.vals[1].as_str());
    }
    s.append("\n");
    proof {
        assert(s@ =~= spec_hw_define(defname@, define.vals.deep_view()));
    }
    s
}

/// The C-style type spelling for a field width, defaulting to `u32`.
pub open spec fn spec_plain_type(size: int) -> Seq<char> {
    if size == 64 {
        "u64"@
    } else if size == 32 {
        "u32"@
    } else if size == 16 {
        "u16"@
    } else if size == 8 {
        "u8"@
    } else {
        "u32"@
    }
}

/// Selects the C-style type spelling for a field width.
fn plain_type(size: u32) -> (r: &'static str)
    ensures
        r@ == spec_plain_type(size as int),
{
    if size == 64 {
        "u64"
    } else if size == 32 {
        "u32"
    } else if size == 16 {
        "u16"
    } else if size == 8 {
        "u8"
    } else {
        "u32"
    }
}

/// One struct field line. A width-0 (unsupported) field is omitted; an
/// array suffix appears only for a positive element count that is not
/// the `GROUP_NONE` sentinel.
pub open spec fn spec_hw_field_line(f: HWFieldV) -> Seq<char> {
    let ts = spec_plain_type(f.size);
    if f.size == 0 {
        Seq::empty()
    } else if f.group_len != GROUP_NONE as int && f.group_len > 0 {
        "    "@ + ts + " "@ + f.name + "["@ + spec_dec(f.group_len) + "];\n"@
    } else {
        "    "@ + ts + " "@ + f.name + ";\n"@
    }
}

/// The field lines of the first `i` fields.
pub open spec fn spec_hw_fields_to(fields: Seq<crate::ir::HWStructField>, i: int) -> Seq<char>
    decreases i,
{
    if i <= 0 || i > fields.len() {
        Seq::empty()
    } else {
        spec_hw_fields_to(fields, i - 1) + spec_hw_field_line(fields[i - 1]@)
    }
}

/// The C-style declaration re-emitted for one layout struct.
pub open spec fn spec_hw_struct_decl(name: Seq<char>, hws: HWStruct) -> Seq<char> {
    "struct "@ + name + " {\n"@ + spec_hw_fields_to(hws.fields@, hws.fields@.len() as int)
        + "};\n"@
}

/// Re-emits one layout struct as a C-style struct declaration.
pub fn generate_hw_struct(strname: &String, hwstruct: &HWStruct) -> (r: String)
    ensures
        r@ == spec_hw_struct_decl(strname@, *hwstruct),
{
    let mut s = String::from_str("struct ");
    s.append(strname.as_str());
    s.append(" {\n");
    let ghost head = s@;
    let mut i: usize = 0;
    while i < hwstruct.fields.len()
        invariant
            i <= hwstruct.fields@.len(),
            s@ == head + spec_hw_fields_to(hwstruct.fields@, i as int),
        decreases hwstruct.fields@.len() - i,
    {
        let f = &hwstruct.fields[i];
        if f.size == 0 {
            // width-0 sentinel: the field is unsupported and emits nothing
        } else {
            let ts = plain_type(f.size);
            s.append("    ");
            s.append(ts);
            s.append(" ");
            s.append(f.name.as_str());
            if f.group_len != GROUP_NONE && f.group_len > 0 {
                s.append("[");
                let g = u32_to_dec(f.group_len);
                s.append(g.as_str());
                s.append("];\n");
            } else {
                s.append(";\n");
            }
        }
        proof {
            assert(s@ =~= head + spec_hw_fields_to(hwstruct.fields@, i as int + 1));
        }
        i += 1;
    }
    s.append("};\n");
    proof {
        assert(s@ =~= spec_hw_struct_decl(strname@, *hwstruct));
    }
    s
}

/// The version-keyed header-guard lines that open a generated header:
/// guard, guard value, version constant, then a blank line.
pub open spec fn spec_header_guard(version: Seq<char>) -> Seq<char> {
    let v = spec_replace(version, '.', '_');
    "#ifndef __NV_HEADER_"@ + v + "__\n"@ + "#define __NV_HEADER_"@ + v + "__ 1\n"@
        + "#define __NV_VERSION__ "@ + version + "\n"@ + "\n"@
}

/// Builds the header-guard lines for one document version.
pub fn header_guard(version: &String) -> (r: String)
    ensures
        r@ == spec_header_guard(version@),
{
    let v = str_replace_char(version.as_str(), '.', '_');
    let mut s = String::from_str("#ifndef __NV_HEADER_");
    s.append(v.as_str());
    s.append("__\n");
    s.append("#define __NV_HEADER_");
    s.append(v.as_str());
    s.append("__ 1\n");
    s.append("#define __NV_VERSION__ ");
    s.append(version.as_str());
    s.append("\n");
    s.append("\n");
    proof {
        assert(s@ =~= spec_header_guard(version@));
    }
    s
}

/// The text the first `i` selected names contribute: for a name found in
/// the constant map, its `#define` line and a blank line; for a name
/// found in the layout map, its struct declaration; a missing name
/// contributes nothing.
pub open spec fn spec_hw_syms_to(json: HWJson, syms: Seq<String>, i: int) -> Seq<char>
    decreases i,
{
    if i <= 0 || i > syms.len() {
        Seq::empty()
    } else {
        spec_hw_syms_to(json, syms, i - 1) + (if has_key(json.defines@, syms[i - 1]@) {
            spec_hw_define(syms[i - 1]@, lookup(json.defines@, syms[i - 1]@).vals.deep_view())
                + "\n"@
        } else {
            Seq::empty()
        }) + (if has_key(json.structs@, syms[i - 1]@) {
            spec_hw_struct_decl(syms[i - 1]@, lookup(json.structs@, syms[i - 1]@))
        } else {
            Seq::empty()
        })
    }
}

/// Every selected name that the constant map holds is a `Value`.
pub open spec fn spec_hw_syms_ok(json: HWJson, syms: Seq<String>) -> bool {
    forall|i: int|
        0 <= i < syms.len() && has_key(json.defines@, syms[i]@) ==> lookup(
            json.defines@,
            syms[i]@,
        ).hwtype is Value
}

/// The whole re-emitted header: guard, a blank line, one section per
/// selected name, then the guard's end.
pub open spec fn spec_hw_file_text(json: HWJson, syms: Seq<String>) -> Seq<char> {
    spec_header_guard(json.version@) + "\n"@ + spec_hw_syms_to(json, syms, syms.len() as int)
        + "#endif\n"@
}

/// Generates the whole header-oriented output for a list of selected
/// names over one layout document. Fails, emitting nothing, exactly when
/// a selected definition carries the `Unknown` tag.
pub fn generate_hw_file(json: &HWJson, syms: &Vec<String>) -> (r: Result<String, GenError>)
    requires
        json.wf(),
        spec_defines_have_vals(json.defines@),
    ensures
        match r {
            Ok(s) => spec_hw_syms_ok(*json, syms@) && s@ == spec_hw_file_text(*json, syms@),
            Err(e) => !spec_hw_syms_ok(*json, syms@) && e is UnknownKind,
        },
{
    let mut out = header_guard(&json.version);
    out.append("\n");
    let ghost head = out@;
    let mut i: usize = 0;
    while i < syms.len()
        invariant
            json.wf(),
            spec_defines_have_vals(json.defines@),
            i <= syms@.len(),
            out@ == head + spec_hw_syms_to(*json, syms@, i as int),
            forall|j: int|
                0 <= j < i && has_key(json.defines@, syms@[j]@) ==> lookup(
                    json.defines@,
                    syms@[j]@,
                ).hwtype is Value,
        decreases syms@.len() - i,
    {
        let sym = &syms[i];
        match find_entry(&json.defines, sym.as_str()) {
            None => {},
            Some(k) => {
                proof {
                    assert(key_index(json.defines@, sym@) == k) by {
                        let ki = key_index(json.defines@, sym@);
                        assert(json.defines@[k as int].0@ == sym@);
                        assert(0 <= ki < json.defines@.len() && json.defines@[ki].0@ == sym@);
                    }
                }
                let d = &json.defines[k].1;
                match &d.hwtype {
                    crate::ir::HWDefineType::Unknown => {
                        proof {
                            assert(!spec_hw_syms_ok(*json, syms@)) by {
                                assert(has_key(json.defines@, syms@[i as int]@));
                                assert(lookup(
                                    json.defines@,
                                    syms@[i as int]@,
                                ).hwtype is Unknown);
                            }
                        }
                        return Err(GenError::UnknownKind);
                    },
                    crate::ir::HWDefineType::Value => {
                        let t = generate_define(&json.defines[k].0, d);
                        out.append(t.as_str());
                        out.append("\n");
                    },
                }
            },
        }
        match find_entry(&json.structs, sym.as_str()) {
            None => {},
            Some(k) => {
                proof {
                    assert(key_index(json.structs@, sym@) == k) by {
                        let ki = key_index(json.structs@, sym@);
                        assert(json.structs@[k as int].0@ == sym@);
                        assert(0 <= ki < json.structs@.len() && json.structs@[ki].0@ == sym@);
                    }
                }
                let t = generate_hw_struct(&json.structs[k].0, &json.structs[k].1);
                out.append(t.as_str());
                proof {
                    assert(json.structs@[k as int].0@ == syms@[i as int]@);
                }
            },
        }
        proof {
            assert(out@ =~= head + spec_hw_syms_to(*json, syms@, i as int + 1));
        }
        i += 1;
    }
    out.append("#endif\n");
    proof {
        assert(out@ =~= spec_hw_file_text(*json, syms@));
    }
    Ok(out)
}

} // verus!
//! The accessor-oriented code generator: emits constants and byte-accessor
//! types over the layout document. Accessor types borrow a byte region of
//! exactly `total_size / 8` bytes and expose, per field, a chaining
//! builder-setter, a mutating setter and a getter, all little-endian;
//! array fields get batch forms, and struct-valued fields get constructors
//! over the field's sub-region.

use vstd::prelude::*;

use crate::ir::{
    find_entry, has_key, key_index, lookup, GenError, HWDefine, HWFieldV, HWJson, HWStruct,
    HWStructField, WantedJson, GROUP_NONE,
};
use crate::strutil::{
    is_prefix, is_suffix, spec_dec, str_ends_with, str_eq, str_starts_with, str_take,
    u32_to_dec, u64_to_dec,
};

verus! {

/// Constant width and literal text derived from one value string: a `ULL`
/// suffix selects a 64-bit constant and is rewritten to a `_u64` literal
/// suffix, a trailing `U`/`u` is stripped, anything else is a 32-bit
/// constant with its text unchanged.
pub open spec fn spec_val_info(v: Seq<char>) -> (int, Seq<char>) {
    if is_suffix("ULL"@, v) {
        (64int, v.subrange(0, v.len() - 3) + "_u64"@)
    } else if is_suffix("U"@, v) || is_suffix("u"@, v) {
        (32int, v.subrange(0, v.len() - 1))
    } else {
        (32int, v)
    }
}

/// Splits one value string into the constant's bit width and literal text.
pub fn get_val_info(val: String) -> (r: (u32, String))
    ensures
        r.0 as int == spec_val_info(val@).0,
        r.1@ == spec_val_info(val@).1,
{
    let len = val.as_str().unicode_len();
    if str_ends_with(val.as_str(), "ULL") {
        proof {
            reveal_strlit("ULL");
        }
        let mut s = str_take(val.as_str(), len - 3);
        s.append("_u64");
        (64, s)
    } else if str_ends_with(val.as_str(), "U") || str_ends_with(val.as_str(), "u") {
        proof {
            reveal_strlit("U");
            reveal_strlit("u");
        }
        let s = str_take(val.as_str(), len - 1);
        (32, s)
    } else {
        (32, val)
    }
}

/// One emitted constant declaration line.
pub open spec fn spec_const_line(name: Seq<char>, bits: int, v: Seq<char>) -> Seq<char> {
    "pub(crate) const "@ + name + ": u"@ + spec_dec(bits) + " = "@ + v + ";\n"@
}

/// The text emitted for one recorded constant: one declaration, or — for
/// a pair of distinct values — an `_A` and a `_B` declaration.
/// A pair holding the same value twice is deduplicated to one unsuffixed
/// declaration.
pub open spec fn spec_rust_define(name: Seq<char>, vals: Seq<Seq<char>>) -> Seq<char> {
    let b0 = spec_val_info(vals[0]).0;
    let v0 = spec_val_info(vals[0]).1;
    if vals.len() == 2 {
        if vals[0] == vals[1] {
            spec_const_line(name, b0, v0)
        } else {
            let b1 = spec_val_info(vals[1]).0;
            let v1 = spec_val_info(vals[1]).1;
            spec_const_line(name + "_A"@, b0, v0) + spec_const_line(name + "_B"@, b1, v1)
        }
    } else {
        spec_const_line(name, b0, v0)
    }
}

/// Builds one constant declaration line.
fn const_line(name: &str, suffix: &str, bits: u32, v: &str) -> (r: String)
    ensures
        r@ == spec_const_line(name@ + suffix@, bits as int, v@),
{
    let mut s = String::from_str("pub(crate) const ");
    s.append(name);
    s.append(suffix);
    s.append(": u");
    let d = u32_to_dec(bits);
    s.append(d.as_str());
    s.append(" = ");
    s.append(v);
    s.append(";\n");
    proof {
        assert(s@ =~= spec_const_line(name@ + suffix@, bits as int, v@));
    }
    s
}

/// Emits the constant declaration(s) for one recorded constant.
pub fn generate_define(defname: &String, define: &HWDefine) -> (r: String)
    requires
        define.vals@.len() >= 1,
    ensures
        r@ == spec_rust_define(defname@, define.vals.deep_view()),
{
    let (bits0, text0) = get_val_info(define.vals[0].clone());
    if define.vals.len() == 2 {
        if str_eq(define.vals[0].as_str(), define.vals[1].as_str()) {
            let r = const_line(defname.as_str(), "", bits0, text0.as_str());
            proof {
                reveal_strlit("");
                assert(defname@ + ""@ =~= defname@);
            }
            r
        } else {
            let (bits1, text1) = get_val_info(define.vals[1].clone());
            let mut r = const_line(defname.as_str(), "_A", bits0, text0.as_str());
            let rb = const_line(defname.as_str(), "_B", bits1, text1.as_str());
            r.append(rb.as_str());
            r
        }
    } else {
        let r = const_line(defname.as_str(), "", bits0, text0.as_str());
        proof {
            reveal_strlit("");
            assert(defname@ + ""@ =~= defname@);
        }
        r
    }
}

/// The unsigned integer type name for a field width in bits.
pub open spec fn spec_u_name(size: int) -> Seq<char> {
    "u"@ + spec_dec(size)
}

/// A field literally named `type` is renamed so the emitted method does
/// not collide with the reserved word.
pub open spec fn spec_fld_rename(name: Seq<char>) -> Seq<char> {
    if name == "type"@ {
        "r"@ + name
    } else {
        name
    }
}

/// The accessor methods emitted for one plain scalar field: a chaining
/// builder-setter, a getter and a mutating setter, each reading or
/// writing the field's little-endian bytes at `[start/8, (start+size)/8)`.
pub open spec fn spec_scalar_accessors(f: HWFieldV) -> Seq<char> {
    let n = spec_fld_rename(f.name);
    let u = spec_u_name(f.size);
    let a = spec_dec(f.start / 8);
    let b = spec_dec((f.start + f.size) / 8);
    "    pub(crate) fn "@ + n + "(self, fld: "@ + u + ") -> Self {\n"@
        + "        self.store["@ + a + ".."@ + b + "].copy_from_slice(&"@ + u
        + "::to_le_bytes(fld));\n"@ + "    self }\n"@ + "\n"@
        + "    pub(crate) fn get_"@ + n + "(&self) -> "@ + u + " {\n"@
        + "        "@ + u + "::from_le_bytes(self.store["@ + a + ".."@ + b
        + "].try_into().unwrap())\n"@ + "    }\n"@
        + "    pub(crate) fn set_"@ + n + "(&mut self, fld: "@ + u + ") {\n"@
        + "        self.store["@ + a + ".."@ + b + "].copy_from_slice(&"@ + u
        + "::to_le_bytes(fld));\n"@ + "    }\n"@
}

/// The body shared by the two batch writers of an array field.
pub open spec fn spec_array_write_body(f: HWFieldV) -> Seq<char> {
    let e = spec_dec(f.size / 8);
    let g = spec_dec(f.group_len);
    let bytes = spec_dec(f.group_len * (f.size / 8));
    let a = spec_dec(f.start / 8);
    let be = spec_dec((f.start + f.size * f.group_len) / 8);
    "        let mut byte_data = [0u8; "@ + bytes + "];\n"@
        + "        for i in 0.."@ + g + " {\n"@
        + "            let bytes = fld[i].to_le_bytes();\n"@
        + "            byte_data[(i * "@ + e + ")..((i + 1) * "@ + e
        + ")].copy_from_slice(&bytes);\n"@ + "        }\n"@
        + "        self.store["@ + a + ".."@ + be + "].copy_from_slice(&byte_data);\n"@
}

/// The accessor methods emitted for an array-of-scalar field: batch
/// builder-setter and setter serializing the elements as contiguous
/// little-endian chunks, and a batch getter deserializing them in order.
pub open spec fn spec_array_accessors(f: HWFieldV) -> Seq<char> {
    let n = spec_fld_rename(f.name);
    let u = spec_u_name(f.size);
    let e = spec_dec(f.size / 8);
    let g = spec_dec(f.group_len);
    let a = spec_dec(f.start / 8);
    let be = spec_dec((f.start + f.size * f.group_len) / 8);
    "    pub(crate) fn "@ + n + "(self, fld: ["@ + u + "; "@ + g + "]) -> Self {\n"@
        + spec_array_write_body(f) + "    self }\n"@
        + "    pub(crate) fn set_"@ + n + "(&mut self, fld: ["@ + u + "; "@ + g + "]) {\n"@
        + spec_array_write_body(f) + "    }\n"@
        + "    pub(crate) fn get_"@ + n + "(&mut self) -> ["@ + u + "; "@ + g + "] {\n"@
        + "        let mut array = [0"@ + u + "; "@ + g + "];\n"@
        + "        for (i, chunk) in self.store["@ + a + ".."@ + be + "].chunks_exact("@ + e
        + ").enumerate() {\n"@
        + "            array[i] = "@ + u + "::from_le_bytes(chunk.try_into().unwrap());\n"@
        + "        }\n"@ + "        array\n"@ + "    }\n"@
}

/// The constructor emitted for a struct-valued field: a new accessor over
/// the sub-region starting at `start/8`, indexed by element for an array
/// of structs.
pub open spec fn spec_sub_ctor(f: HWFieldV) -> Seq<char> {
    let e = spec_dec(f.size / 8);
    let a = spec_dec(f.start / 8);
    let ae = spec_dec(f.start / 8 + f.size / 8);
    if f.group_len != GROUP_NONE as int {
        "\n"@ + "    pub(crate) fn new_S_"@ + f.name
            + "(&mut self, idx: usize) -> s_"@ + f.val_type + "<'_> {\n"@
            + "        s_"@ + f.val_type + "::new(&mut self.store[(idx * "@ + e + " + "@ + a
            + ")..(idx * "@ + e + " + "@ + ae + ")])\n"@ + "    }\n"@ + "\n"@
    } else {
        "\n"@ + "    pub(crate) fn new_S_"@ + f.name + "(&mut self) -> s_"@ + f.val_type
            + "<'_> {\n"@ + "        s_"@ + f.val_type + "::new(&mut self.store["@ + a
            + ".."@ + ae + "])\n"@ + "    }\n"@ + "\n"@
    }
}

/// The text one field contributes to its accessor type: nothing for a
/// width-0 (unsupported) field, a sub-accessor constructor for a
/// struct-valued field, batch accessors for an array of scalars, plain
/// accessors otherwise.
pub open spec fn spec_accessor_field(f: HWFieldV) -> Seq<char> {
    if f.size == 0 {
        Seq::empty()
    } else if f.isint == 0 {
        spec_sub_ctor(f)
    } else if f.group_len != GROUP_NONE as int {
        spec_array_accessors(f)
    } else {
        spec_scalar_accessors(f)
    }
}

/// The accessor text of the first `i` fields, in order.
pub open spec fn spec_accessor_fields_to(fields: Seq<HWStructField>, i: int) -> Seq<char>
    decreases i,
{
    if i <= 0 || i > fields.len() {
        Seq::empty()
    } else {
        spec_accessor_fields_to(fields, i - 1) + spec_accessor_field(fields[i - 1]@)
    }
}

/// The head of an accessor type: the struct owning the byte region and
/// the opening of its impl block, with the region's byte size. The
/// emitted constructor cuts its argument down to exactly `str_size()`
/// bytes, so the type borrows a region of exactly that size.
pub open spec fn spec_accessor_prologue(name: Seq<char>, total_size: int) -> Seq<char> {
    let b = spec_dec(total_size / 8);
    "pub(crate) struct s_"@ + name + "<'s> {\n"@ + "    store: &'s mut [u8],\n"@ + "}\n"@
        + "\n"@ + "impl<'s> s_"@ + name + "<'s> {\n"@
        + "    pub(crate) const fn str_size() -> usize {\n"@ + "        "@ + b + "\n"@
        + "    }\n"@ + "    pub(crate) fn new(store: &'s mut [u8]) -> Self {\n"@
        + "        let (store, _) = store.split_at_mut(Self::str_size());\n"@
        + "        Self { store }\n"@ + "    }\n"@ + "\n"@
}

/// The whole accessor type emitted for one layout struct.
pub open spec fn spec_accessor_struct(name: Seq<char>, hws: HWStruct) -> Seq<char> {
    spec_accessor_prologue(name, hws.total_size as int) + spec_accessor_fields_to(
        hws.fields@,
        hws.fields@.len() as int,
    ) + "}\n"@ + "\n"@
}

/// The text `emit_hw_struct` produces over the first `i` map entries:
/// an accessor type for every entry named `sym`.
pub open spec fn spec_emit_to(
    structs: Seq<(String, HWStruct)>,
    i: int,
    sym: Seq<char>,
) -> Seq<char>
    decreases i,
{
    if i <= 0 || i > structs.len() {
        Seq::empty()
    } else {
        spec_emit_to(structs, i - 1, sym) + (if structs[i - 1].0@ == sym {
            spec_accessor_struct(structs[i - 1].0@, structs[i - 1].1)
        } else {
            Seq::empty()
        })
    }
}

/// The accessor-type text for the layout struct named `sym` (empty when
/// the name is absent from the map).
pub open spec fn spec_emit_hw_struct(structs: Seq<(String, HWStruct)>, sym: Seq<char>) -> Seq<
    char,
> {
    spec_emit_to(structs, structs.len() as int, sym)
}

/// The product of two 32-bit quantities, and any partial product of
/// them, stays well under the 64-bit limit.
proof fn lemma_u32_prod_fits(a: u64, b: u64)
    requires
        a <= u32::MAX,
        b <= u32::MAX,
    ensures
        a * b <= 0xffff_fffe_0000_0001,
        b * (a / 8) <= 0xffff_fffe_0000_0001,
{
    assert(a * b <= 0xffff_ffff * 0xffff_ffff) by (nonlinear_arith)
        requires
            0 <= a <= 0xffff_ffff,
            0 <= b <= 0xffff_ffff,
    ;
    assert(b * (a / 8) <= 0xffff_ffff * 0xffff_ffff) by (nonlinear_arith)
        requires
            0 <= a <= 0xffff_ffff,
            0 <= b <= 0xffff_ffff,
    ;
}

/// Renders the byte range bound `(bits + extra_bits) / 8` in decimal.
fn dec_of_bits(bits: u32, extra_bits: u64) -> (r: String)
    requires
        extra_bits <= u64::MAX - u32::MAX,
    ensures
        r@ == spec_dec((bits + extra_bits) as int / 8),
{
    u64_to_dec((bits as u64 + extra_bits) / 8)
}

/// Builds the public method name of a field, renaming a field literally
/// named `type`.
fn fld_pub_name(name: &String) -> (r: String)
    ensures
        r@ == spec_fld_rename(name@),
{
    if str_eq(name.as_str(), "type") {
        let mut s = String::from_str("r");
        s.append(name.as_str());
        s
    } else {
        name.clone()
    }
}

/// Builds the accessor methods of one plain scalar field.
fn scalar_accessors(f: &HWStructField) -> (r: String)
    ensures
        r@ == spec_scalar_accessors(f@),
{
    let n = fld_pub_name(&f.name);
    let mut u = String::from_str("u");
    let d = u32_to_dec(f.size);
    u.append(d.as_str());
    let a = dec_of_bits(f.start, 0);
    let b = dec_of_bits(f.start, f.size as u64);
    let mut s = String::from_str("    pub(crate) fn ");
    s.append(n.as_str());
    s.append("(self, fld: ");
    s.append(u.as_str());
    s.append(") -> Self {\n");
    s.append("        self.store[");
    s.append(a.as_str());
    s.append("..");
    s.append(b.as_str());
    s.append("].copy_from_slice(&");
    s.append(u.as_str());
    s.append("::to_le_bytes(fld));\n");
    s.append("    self }\n");
    s.append("\n");
    s.append("    pub(crate) fn get_");
    s.append(n.as_str());
    s.append("(&self) -> ");
    s.append(u.as_str());
    s.append(" {\n");
    s.append("        ");
    s.append(u.as_str());
    s.append("::from_le_bytes(self.store[");
    s.append(a.as_str());
    s.append("..");
    s.append(b.as_str());
    s.append("].try_into().unwrap())\n");
    s.append("    }\n");
    s.append("    pub(crate) fn set_");
    s.append(n.as_str());
    s.append("(&mut self, fld: ");
    s.append(u.as_str());
    s.append(") {\n");
    s.append("        self.store[");
    s.append(a.as_str());
    s.append("..");
    s.append(b.as_str());
    s.append("].copy_from_slice(&");
    s.append(u.as_str());
    s.append("::to_le_bytes(fld));\n");
    s.append("    }\n");
    proof {
        assert(s@ =~= spec_scalar_accessors(f@));
    }
    s
}

/// Builds the body shared by the two batch writers of an array field.
fn array_write_body(f: &HWStructField) -> (r: String)
    ensures
        r@ == spec_array_write_body(f@),
{
    let sz = f.size as u64;
    let gl = f.group_len as u64;
    proof {
        lemma_u32_prod_fits(sz, gl);
    }
    let e = u64_to_dec(sz / 8);
    let g = u32_to_dec(f.group_len);
    let bytes = u64_to_dec(gl * (sz / 8));
    let a = dec_of_bits(f.start, 0);
    let be = u64_to_dec((f.start as u64 + sz * gl) / 8);
    let mut s = String::from_str("        let mut byte_data = [0u8; ");
    s.append(bytes.as_str());
    s.append("];\n");
    s.append("        for i in 0..");
    s.append(g.as_str());
    s.append(" {\n");
    s.append("            let bytes = fld[i].to_le_bytes();\n");
    s.append("            byte_data[(i * ");
    s.append(e.as_str());
    s.append(")..((i + 1) * ");
    s.append(e.as_str());
    s.append(")].copy_from_slice(&bytes);\n");
    s.append("        }\n");
    s.append("        self.store[");
    s.append(a.as_str());
    s.append("..");
    s.append(be.as_str());
    s.append("].copy_from_slice(&byte_data);\n");
    proof {
        assert(s@ =~= spec_array_write_body(f@));
    }
    s
}

/// Builds the batch accessor methods of one array-of-scalar field.
fn array_accessors(f: &HWStructField) -> (r: String)
    ensures
        r@ == spec_array_accessors(f@),
{
    let n = fld_pub_name(&f.name);
    let mut u = String::from_str("u");
    let d = u32_to_dec(f.size);
    u.append(d.as_str());
    let sz = f.size as u64;
    let gl = f.group_len as u64;
    proof {
        lemma_u32_prod_fits(sz, gl);
    }
    let e = u64_to_dec(sz / 8);
    let g = u32_to_dec(f.group_len);
    let a = dec_of_bits(f.start, 0);
    let be = u64_to_dec((f.start as u64 + sz * gl) / 8);
    let body = array_write_body(f);
    let mut s = String::from_str("    pub(crate) fn ");
    s.append(n.as_str());
    s.append("(self, fld: [");
    s.append(u.as_str());
    s.append("; ");
    s.append(g.as_str());
    s.append("]) -> Self {\n");
    s.append(body.as_str());
    s.append("    self }\n");
    s.append("    pub(crate) fn set_");
    s.append(n.as_str());
    s.append("(&mut self, fld: [");
    s.append(u.as_str());
    s.append("; ");
    s.append(g.as_str());
    s.append("]) {\n");
    s.append(body.as_str());
    s.append("    }\n");
    s.append("    pub(crate) fn get_");
    s.append(n.as_str());
    s.append("(&mut self) -> [");
    s.append(u.as_str());
    s.append("; ");
    s.append(g.as_str());
    s.append("] {\n");
    s.append("        let mut array = [0");
    s.append(u.as_str());
    s.append("; ");
    s.append(g.as_str());
    s.append("];\n");
    s.append("        for (i, chunk) in self.store[");
    s.append(a.as_str());
    s.append("..");
    s.append(be.as_str());
    s.append("].chunks_exact(");
    s.append(e.as_str());
    s.append(").enumerate() {\n");
    s.append("            array[i] = ");
    s.append(u.as_str());
    s.append("::from_le_bytes(chunk.try_into().unwrap());\n");
    s.append("        }\n");
    s.append("        array\n");
    s.append("    }\n");
    proof {
        assert(s@ =~= spec_array_accessors(f@));
    }
    s
}

/// Builds the sub-accessor constructor of one struct-valued field.
fn sub_ctor(f: &HWStructField) -> (r: String)
    ensures
        r@ == spec_sub_ctor(f@),
{
    let e = u64_to_dec(f.size as u64 / 8);
    let a = dec_of_bits(f.start, 0);
    let ae = u64_to_dec(f.start as u64 / 8 + f.size as u64 / 8);
    let mut s = String::from_str("\n");
    if f.group_len != GROUP_NONE {
        s.append("    pub(crate) fn new_S_");
        s.append(f.name.as_str());
        s.append("(&mut self, idx: usize) -> s_");
        s.append(f.val_type.as_str());
        s.append("<'_> {\n");
        s.append("        s_");
        s.append(f.val_type.as_str());
        s.append("::new(&mut self.store[(idx * ");
        s.append(e.as_str());
        s.append(" + ");
        s.append(a.as_str());
        s.append(")..(idx * ");
        s.append(e.as_str());
        s.append(" + ");
        s.append(ae.as_str());
        s.append(")])\n");
        s.append("    }\n");
        s.append("\n");
    } else {
        s.append("    pub(crate) fn new_S_");
        s.append(f.name.as_str());
        s.append("(&mut self) -> s_");
        s.append(f.val_type.as_str());
        s.append("<'_> {\n");
        s.append("        s_");
        s.append(f.val_type.as_str());
        s.append("::new(&mut self.store[");
        s.append(a.as_str());
        s.append("..");
        s.append(ae.as_str());
        s.append("])\n");
        s.append("    }\n");
        s.append("\n");
    }
    proof {
        assert(s@ =~= spec_sub_ctor(f@));
    }
    s
}

/// Builds the head of one accessor type.
fn accessor_prologue(name: &str, total_size: u32) -> (r: String)
    ensures
        r@ == spec_accessor_prologue(name@, total_size as int),
{
    let b = u64_to_dec(total_size as u64 / 8);
    let mut s = String::from_str("pub(crate) struct s_");
    s.append(name);
    s.append("<'s> {\n");
    s.append("    store: &'s mut [u8],\n");
    s.append("}\n");
    s.append("\n");
    s.append("impl<'s> s_");
    s.append(name);
    s.append("<'s> {\n");
    s.append("    pub(crate) const fn str_size() -> usize {\n");
    s.append("        ");
    s.append(b.as_str());
    s.append("\n");
    s.append("    }\n");
    s.append("    pub(crate) fn new(store: &'s mut [u8]) -> Self {\n");
    s.append("        let (store, _) = store.split_at_mut(Self::str_size());\n");
    s.append("        Self { store }\n");
    s.append("    }\n");
    s.append("\n");
    proof {
        assert(s@ =~= spec_accessor_prologue(name@, total_size as int));
    }
    s
}

/// Builds the whole accessor type for one layout struct.
fn accessor_struct(name: &str, hws: &HWStruct) -> (r: String)
    ensures
        r@ == spec_accessor_struct(name@, *hws),
{
    let mut s = accessor_prologue(name, hws.total_size);
    let ghost head = s@;
    let mut i: usize = 0;
    while i < hws.fields.len()
        invariant
            i <= hws.fields@.len(),
            s@ == head + spec_accessor_fields_to(hws.fields@, i as int),
        decreases hws.fields@.len() - i,
    {
        let f = &hws.fields[i];
        if f.size == 0 {
            // width-0 sentinel: the field is unsupported and emits nothing
        } else if f.isint == 0 {
            let t = sub_ctor(f);
            s.append(t.as_str());
        } else if f.group_len != GROUP_NONE {
            let t = array_accessors(f);
            s.append(t.as_str());
        } else {
            let t = scalar_accessors(f);
            s.append(t.as_str());
        }
        proof {
            assert(s@ =~= head + spec_accessor_fields_to(hws.fields@, i as int + 1));
        }
        i += 1;
    }
    s.append("}\n");
    s.append("\n");
    proof {
        assert(s@ =~= spec_accessor_struct(name@, *hws));
    }
    s
}

/// Emits the accessor type for the layout struct named `sym_struct`, or
/// nothing when the layout map has no entry of that name.
pub fn emit_hw_struct(
    structs: &Vec<(String, HWStruct)>,
    sym_struct: &str,
) -> (r: String)
    ensures
        r@ == spec_emit_hw_struct(structs@, sym_struct@),
{
    let mut s = String::new();
    let mut i: usize = 0;
    while i < structs.len()
        invariant
            i <= structs@.len(),
            s@ == spec_emit_to(structs@, i as int, sym_struct@),
        decreases structs@.len() - i,
    {
        if str_eq(structs[i].0.as_str(), sym_struct) {
            let t = accessor_struct(structs[i].0.as_str(), &structs[i].1);
            s.append(t.as_str());
        }
        proof {
            assert(s@ =~= spec_emit_to(structs@, i as int + 1, sym_struct@));
        }
        i += 1;
    }
    s
}

/// The command-name candidate for one group prefix and command suffix.
pub open spec fn spec_cmd_name(group: Seq<char>, cmd: Seq<char>) -> Seq<char> {
    "NV"@ + group + "_CTRL_CMD_"@ + cmd
}

/// The control-name candidate for one group prefix and command suffix.
pub open spec fn spec_ctrl_name(group: Seq<char>, cmd: Seq<char>) -> Seq<char> {
    "NV"@ + group + "_CTRL_"@ + cmd
}

/// Whether a definition name belongs to a command: it starts with either
/// of the two candidate names.
pub open spec fn spec_cmd_selects(name: Seq<char>, group: Seq<char>, cmd: Seq<char>) -> bool {
    is_prefix(spec_cmd_name(group, cmd), name) || is_prefix(spec_ctrl_name(group, cmd), name)
}

/// The constant text of one command over the first `i` constant-map
/// entries: every definition whose name the command selects, in map
/// order.
pub open spec fn spec_cmd_defines_to(
    defines: Seq<(String, HWDefine)>,
    i: int,
    group: Seq<char>,
    cmd: Seq<char>,
) -> Seq<char>
    decreases i,
{
    if i <= 0 || i > defines.len() {
        Seq::empty()
    } else {
        spec_cmd_defines_to(defines, i - 1, group, cmd) + (if spec_cmd_selects(
            defines[i - 1].0@,
            group,
            cmd,
        ) {
            spec_rust_define(defines[i - 1].0@, defines[i - 1].1.vals.deep_view())
        } else {
            Seq::empty()
        })
    }
}

/// The accessor text of the layout structs a parameter struct's
/// struct-valued fields name, over the first `k` layout-map entries.
pub open spec fn spec_fld_expand_to(
    structs: Seq<(String, HWStruct)>,
    k: int,
    vt: Seq<char>,
) -> Seq<char>
    decreases k,
{
    if k <= 0 || k > structs.len() {
        Seq::empty()
    } else {
        spec_fld_expand_to(structs, k - 1, vt) + (if structs[k - 1].0@ == vt {
            spec_emit_hw_struct(structs, structs[k - 1].0@)
        } else {
            Seq::empty()
        })
    }
}

/// The expansion text of the first `i` fields of a parameter struct: one
/// level of non-scalar (struct-valued) fields, each expanded by
/// element-type name.
pub open spec fn spec_params_flds_to(
    structs: Seq<(String, HWStruct)>,
    flds: Seq<HWStructField>,
    i: int,
) -> Seq<char>
    decreases i,
{
    if i <= 0 || i > flds.len() {
        Seq::empty()
    } else {
        spec_params_flds_to(structs, flds, i - 1) + (if flds[i - 1].isint == 0 {
            spec_fld_expand_to(structs, structs.len() as int, flds[i - 1].val_type@)
        } else {
            Seq::empty()
        })
    }
}

/// The one-level transitive expansion of a parameter struct, over the
/// first `j` layout-map entries.
pub open spec fn spec_params_expand_to(
    structs: Seq<(String, HWStruct)>,
    j: int,
    params: Seq<char>,
) -> Seq<char>
    decreases j,
{
    if j <= 0 || j > structs.len() {
        Seq::empty()
    } else {
        spec_params_expand_to(structs, j - 1, params) + (if structs[j - 1].0@ == params {
            spec_params_flds_to(
                structs,
                structs[j - 1].1.fields@,
                structs[j - 1].1.fields@.len() as int,
            )
        } else {
            Seq::empty()
        })
    }
}

/// The text one command contributes: its selected constants, the
/// command's parameter struct if present, then the structs its
/// struct-valued fields name.
pub open spec fn spec_one_cmd(json: HWJson, group: Seq<char>, cmd: Seq<char>) -> Seq<char> {
    let params = spec_ctrl_name(group, cmd) + "_PARAMS"@;
    spec_cmd_defines_to(json.defines@, json.defines@.len() as int, group, cmd)
        + spec_emit_hw_struct(json.structs@, params) + spec_params_expand_to(
        json.structs@,
        json.structs@.len() as int,
        params,
    )
}

/// The text of the first `i` commands of one group.
pub open spec fn spec_cmds_to(json: HWJson, group: Seq<char>, cmds: Seq<String>, i: int) -> Seq<
    char,
>
    decreases i,
{
    if i <= 0 || i > cmds.len() {
        Seq::empty()
    } else {
        spec_cmds_to(json, group, cmds, i - 1) + spec_one_cmd(json, group, cmds[i - 1]@)
    }
}

/// The text of the first `i` command groups.
pub open spec fn spec_groups_to(
    json: HWJson,
    groups: Seq<(String, Vec<String>)>,
    i: int,
) -> Seq<char>
    decreases i,
{
    if i <= 0 || i > groups.len() {
        Seq::empty()
    } else {
        spec_groups_to(json, groups, i - 1) + spec_cmds_to(
            json,
            groups[i - 1].0@,
            groups[i - 1].1@,
            groups[i - 1].1@.len() as int,
        )
    }
}

/// The constant text of the first `i` selected constant names: each name
/// found in the constant map contributes its declaration(s); a missing
/// name contributes nothing.
pub open spec fn spec_sel_defines_to(
    defines: Seq<(String, HWDefine)>,
    syms: Seq<String>,
    i: int,
) -> Seq<char>
    decreases i,
{
    if i <= 0 || i > syms.len() {
        Seq::empty()
    } else {
        spec_sel_defines_to(defines, syms, i - 1) + (if has_key(defines, syms[i - 1]@) {
            spec_rust_define(syms[i - 1]@, lookup(defines, syms[i - 1]@).vals.deep_view())
        } else {
            Seq::empty()
        })
    }
}

/// The accessor text of the first `i` selected struct names.
pub open spec fn spec_sel_structs_to(
    structs: Seq<(String, HWStruct)>,
    syms: Seq<String>,
    i: int,
) -> Seq<char>
    decreases i,
{
    if i <= 0 || i > syms.len() {
        Seq::empty()
    } else {
        spec_sel_structs_to(structs, syms, i - 1) + spec_emit_hw_struct(structs, syms[i - 1]@)
    }
}

/// Every selected constant name that the map holds resolves to a `Value`
/// definition (the `Unknown` tag is fatal at generation time).
pub open spec fn spec_sel_defines_ok(
    defines: Seq<(String, HWDefine)>,
    syms: Seq<String>,
) -> bool {
    forall|i: int|
        0 <= i < syms.len() && has_key(defines, syms[i]@) ==> lookup(
            defines,
            syms[i]@,
        ).hwtype is Value
}

/// Every definition any command of any group selects is a `Value`.
pub open spec fn spec_groups_ok(json: HWJson, groups: Seq<(String, Vec<String>)>) -> bool {
    forall|g: int, c: int, d: int|
        0 <= g < groups.len() && 0 <= c < groups[g].1@.len() && 0 <= d < json.defines@.len()
            && spec_cmd_selects(json.defines@[d].0@, groups[g].0@, groups[g].1@[c]@)
            ==> json.defines@[d].1.hwtype is Value
}

/// Generation succeeds exactly when no selected definition is `Unknown`.
pub open spec fn spec_rust_file_ok(json: HWJson, wanted: WantedJson) -> bool {
    spec_sel_defines_ok(json.defines@, wanted.defines@) && spec_groups_ok(json, wanted.cmds@)
}

/// The whole generated file: the lint prologue, the selected constants, a
/// blank line, the selected accessor types, then the command groups.
pub open spec fn spec_rust_file_text(json: HWJson, wanted: WantedJson) -> Seq<char> {
    "#![allow(non_snake_case)]\n"@ + "#![allow(dead_code)]\n"@
        + "#![allow(non_camel_case_types)]\n"@ + "\n"@ + spec_sel_defines_to(
        json.defines@,
        wanted.defines@,
        wanted.defines@.len() as int,
    ) + "\n"@ + spec_sel_structs_to(
        json.structs@,
        wanted.structs@,
        wanted.structs@.len() as int,
    ) + spec_groups_to(json, wanted.cmds@, wanted.cmds@.len() as int)
}

/// Whether every `Value` entry of the constant map carries at least one
/// value string, as the document schema promises.
pub open spec fn spec_defines_have_vals(defines: Seq<(String, HWDefine)>) -> bool {
    forall|i: int|
        0 <= i < defines.len() && defines[i].1.hwtype is Value ==> defines[i].1.vals@.len()
            >= 1
}

/// Generates the whole accessor-oriented output for one selection over
/// one layout document: the selected constants and accessor types, then
/// each command group's constants, parameter struct and one level of
/// nested structs. Fails, emitting nothing, exactly when a selected
/// definition carries the `Unknown` tag.
#[verifier::rlimit(50)]
pub fn generate_rust_file(json: &HWJson, wanted: &WantedJson) -> (r: Result<String, GenError>)
    requires
        json.wf(),
        spec_defines_have_vals(json.defines@),
    ensures
        match r {
            Ok(s) => spec_rust_file_ok(*json, *wanted) && s@ == spec_rust_file_text(
                *json,
                *wanted,
            ),
            Err(e) => !spec_rust_file_ok(*json, *wanted) && e is UnknownKind,
        },
{
    let mut out = String::from_str("#![allow(non_snake_case)]\n");
    out.append("#![allow(dead_code)]\n");
    out.append("#![allow(non_camel_case_types)]\n");
    out.append("\n");
    let ghost head = out@;

    let mut i: usize = 0;
    while i < wanted.defines.len()
        invariant
            json.wf(),
            spec_defines_have_vals(json.defines@),
            i <= wanted.defines@.len(),
            out@ == head + spec_sel_defines_to(json.defines@, wanted.defines@, i as int),
            forall|j: int|
                0 <= j < i && has_key(json.defines@, wanted.defines@[j]@) ==> lookup(
                    json.defines@,
                    wanted.defines@[j]@,
                ).hwtype is Value,
        decreases wanted.defines@.len() - i,
    {
        let sym = &wanted.defines[i];
        match find_entry(&json.defines, sym.as_str()) {
            None => {},
            Some(k) => {
                proof {
                    assert(key_index(json.defines@, sym@) == k) by {
                        let ki = key_index(json.defines@, sym@);
                        assert(json.defines@[k as int].0@ == sym@);
                        assert(0 <= ki < json.defines@.len() && json.defines@[ki].0@ == sym@);
                    }
                }
                let d = &json.defines[k].1;
                match &d.hwtype {
                    crate::ir::HWDefineType::Unknown => {
                        proof {
                            assert(!spec_sel_defines_ok(json.defines@, wanted.defines@)) by {
                                assert(has_key(json.defines@, wanted.defines@[i as int]@));
                                assert(lookup(
                                    json.defines@,
                                    wanted.defines@[i as int]@,
                                ).hwtype is Unknown);
                            }
                        }
                        return Err(GenError::UnknownKind);
                    },
                    crate::ir::HWDefineType::Value => {
                        let t = generate_define(&json.defines[k].0, d);
                        out.append(t.as_str());
                    },
                }
            },
        }
        proof {
            assert(out@ =~= head + spec_sel_defines_to(
                json.defines@,
                wanted.defines@,
                i as int + 1,
            ));
        }
        i += 1;
    }
    out.append("\n");
    let ghost head2 = out@;

    let mut i2: usize = 0;
    while i2 < wanted.structs.len()
        invariant
            i2 <= wanted.structs@.len(),
            out@ == head2 + spec_sel_structs_to(json.structs@, wanted.structs@, i2 as int),
        decreases wanted.structs@.len() - i2,
    {
        let t = emit_hw_struct(&json.structs, wanted.structs[i2].as_str());
        out.append(t.as_str());
        proof {
            assert(out@ =~= head2 + spec_sel_structs_to(
                json.structs@,
                wanted.structs@,
                i2 as int + 1,
            ));
        }
        i2 += 1;
    }
    let ghost head3 = out@;

    let mut g: usize = 0;
    while g < wanted.cmds.len()
        invariant
            json.wf(),
            spec_defines_have_vals(json.defines@),
            g <= wanted.cmds@.len(),
            out@ == head3 + spec_groups_to(*json, wanted.cmds@, g as int),
            forall|gj: int, c: int, d: int|
                0 <= gj < g && 0 <= c < wanted.cmds@[gj].1@.len() && 0 <= d
                    < json.defines@.len() && spec_cmd_selects(
                    json.defines@[d].0@,
                    wanted.cmds@[gj].0@,
                    wanted.cmds@[gj].1@[c]@,
                ) ==> json.defines@[d].1.hwtype is Value,
        decreases wanted.cmds@.len() - g,
    {
        let group = &wanted.cmds[g].0;
        let cmds = &wanted.cmds[g].1;
        let mut basename = String::from_str("NV");
        basename.append(group.as_str());
        let ghost ggroup = group@;
        let ghost group_head = out@;

        let mut c: usize = 0;
        while c < cmds.len()
            invariant
                json.wf(),
                spec_defines_have_vals(json.defines@),
                c <= cmds@.len(),
                g < wanted.cmds@.len(),
                ggroup == wanted.cmds@[g as int].0@,
                cmds@ == wanted.cmds@[g as int].1@,
                basename@ == "NV"@ + ggroup,
                out@ == group_head + spec_cmds_to(*json, ggroup, cmds@, c as int),
                forall|cj: int, d: int|
                    0 <= cj < c && 0 <= d < json.defines@.len() && spec_cmd_selects(
                        json.defines@[d].0@,
                        ggroup,
                        cmds@[cj]@,
                    ) ==> json.defines@[d].1.hwtype is Value,
            decreases cmds@.len() - c,
        {
            let cmd = &cmds[c];
            let mut cmdname = basename.clone();
            cmdname.append("_CTRL_CMD_");
            cmdname.append(cmd.as_str());
            let mut ctrlname = basename.clone();
            ctrlname.append("_CTRL_");
            ctrlname.append(cmd.as_str());
            proof {
                assert(cmdname@ == spec_cmd_name(ggroup, cmds@[c as int]@));
                assert(ctrlname@ == spec_ctrl_name(ggroup, cmds@[c as int]@));
            }
            let ghost cmd_head = out@;

            let mut d: usize = 0;
            while d < json.defines.len()
                invariant
                    json.wf(),
                    spec_defines_have_vals(json.defines@),
                    d <= json.defines@.len(),
                    g < wanted.cmds@.len(),
                    ggroup == wanted.cmds@[g as int].0@,
                    cmds@ == wanted.cmds@[g as int].1@,
                    c < cmds@.len(),
                    cmdname@ == spec_cmd_name(ggroup, cmds@[c as int]@),
                    ctrlname@ == spec_ctrl_name(ggroup, cmds@[c as int]@),
                    out@ == cmd_head + spec_cmd_defines_to(
                        json.defines@,
                        d as int,
                        ggroup,
                        cmds@[c as int]@,
                    ),
                    forall|dj: int|
                        0 <= dj < d && spec_cmd_selects(
                            json.defines@[dj].0@,
                            ggroup,
                            cmds@[c as int]@,
                        ) ==> json.defines@[dj].1.hwtype is Value,
                decreases json.defines@.len() - d,
            {
                let defname = &json.defines[d].0;
                let define = &json.defines[d].1;
                if str_starts_with(defname.as_str(), cmdname.as_str()) || str_starts_with(
                    defname.as_str(),
                    ctrlname.as_str(),
                ) {
                    match &define.hwtype {
                        crate::ir::HWDefineType::Unknown => {
                            proof {
                                assert(!spec_groups_ok(*json, wanted.cmds@)) by {
                                    assert(spec_cmd_selects(
                                        json.defines@[d as int].0@,
                                        wanted.cmds@[g as int].0@,
                                        wanted.cmds@[g as int].1@[c as int]@,
                                    ));
                                    assert(json.defines@[d as int].1.hwtype is Unknown);
                                }
                            }
                            return Err(GenError::UnknownKind);
                        },
                        crate::ir::HWDefineType::Value => {
                            let t = generate_define(defname, define);
                            out.append(t.as_str());
                        },
                    }
                }
                proof {
                    assert(out@ =~= cmd_head + spec_cmd_defines_to(
                        json.defines@,
                        d as int + 1,
                        ggroup,
                        cmds@[c as int]@,
                    ));
                }
                d += 1;
            }

            let mut params = ctrlname.clone();
            params.append("_PARAMS");
            let t = emit_hw_struct(&json.structs, params.as_str());
            out.append(t.as_str());
            let ghost expand_head = out@;

            let mut j: usize = 0;
            while j < json.structs.len()
                invariant
                    j <= json.structs@.len(),
                    c < cmds@.len(),
                    params@ == spec_ctrl_name(ggroup, cmds@[c as int]@) + "_PARAMS"@,
                    out@ == expand_head + spec_params_expand_to(
                        json.structs@,
                        j as int,
                        params@,
                    ),
                decreases json.structs@.len() - j,
            {
                if str_eq(json.structs[j].0.as_str(), params.as_str()) {
                    let flds = &json.structs[j].1.fields;
                    let ghost fld_head = out@;
                    let mut fi: usize = 0;
                    while fi < flds.len()
                        invariant
                            fi <= flds@.len(),
                            out@ == fld_head + spec_params_flds_to(
                                json.structs@,
                                flds@,
                                fi as int,
                            ),
                        decreases flds@.len() - fi,
                    {
                        if flds[fi].isint == 0 {
                            let ghost inner_head = out@;
                            let mut k: usize = 0;
                            while k < json.structs.len()
                                invariant
                                    k <= json.structs@.len(),
                                    fi < flds@.len(),
                                    out@ == inner_head + spec_fld_expand_to(
                                        json.structs@,
                                        k as int,
                                        flds@[fi as int].val_type@,
                                    ),
                                decreases json.structs@.len() - k,
                            {
                                if str_eq(
                                    json.structs[k].0.as_str(),
                                    flds[fi].val_type.as_str(),
                                ) {
                                    let t = emit_hw_struct(
                                        &json.structs,
                                        json.structs[k].0.as_str(),
                                    );
                                    out.append(t.as_str());
                                }
                                proof {
                                    assert(out@ =~= inner_head + spec_fld_expand_to(
                                        json.structs@,
                                        k as int + 1,
                                        flds@[fi as int].val_type@,
                                    ));
                                }
                                k += 1;
                            }
                        }
                        proof {
                            assert(out@ =~= fld_head + spec_params_flds_to(
                                json.structs@,
                                flds@,
                                fi as int + 1,
                            ));
                        }
                        fi += 1;
                    }
                }
                proof {
                    assert(out@ =~= expand_head + spec_params_expand_to(
                        json.structs@,
                        j as int + 1,
                        params@,
                    ));
                }
                j += 1;
            }
            proof {
                assert(out@ =~= group_head + spec_cmds_to(*json, ggroup, cmds@, c as int + 1));
            }
            c += 1;
        }
        proof {
            assert(out@ =~= head3 + spec_groups_to(*json, wanted.cmds@, g as int + 1));
        }
        g += 1;
    }
    Ok(out)
}

} // verus!

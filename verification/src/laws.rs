//! Cross-cutting laws of the pipeline.
//!
//! Idempotence: every generator is specified as a function of its
//! document's and selection's mathematical views alone, so two runs over
//! documents that carry the same data — for instance one document and
//! its reload from disk — produce byte-identical output. The lemmas here
//! prove that the generated text depends on nothing but those views.
//!
//! Selection: a command group selects definitions by prefix against two
//! synthesized candidate names and picks up the command's parameter
//! struct exactly when the layout map holds it; a name absent from a map
//! selects nothing.

use vstd::prelude::*;

use crate::gen_rust::{
    spec_accessor_fields_to, spec_accessor_struct, spec_cmd_defines_to, spec_cmd_name,
    spec_cmd_selects, spec_ctrl_name, spec_emit_hw_struct, spec_emit_to, spec_fld_expand_to,
    spec_groups_to, spec_cmds_to, spec_one_cmd, spec_params_expand_to, spec_params_flds_to,
    spec_rust_file_text, spec_sel_defines_to, spec_sel_structs_to,
};
use crate::builder::inserted;
use crate::classify::spec_classify;
use crate::flatten::{
    spec_hw_field_rows, spec_hw_rows, spec_hw_rows_to, ArrayKind, FieldDecl, FieldShape,
};
use crate::gen_c::{
    spec_c_fields_to, spec_c_file_text, spec_c_struct, spec_c_syms_to, spec_c_typedef,
};
use crate::gen_hw::{spec_hw_fields_to, spec_hw_file_text, spec_hw_struct_decl, spec_hw_syms_to};
use crate::ir::{
    c_rows_view, has_key, hw_rows_view, key_index, lookup, unique_keys, CJson, CTypes,
    HWDefine, HWJson, HWStruct, WantedJson,
};

verus! {

/// Two map entries line up name for name.
pub open spec fn eq_keys<V>(a: Seq<(String, V)>, b: Seq<(String, V)>) -> bool {
    a.len() == b.len() && forall|i: int| 0 <= i < a.len() ==> a[i].0@ == b[i].0@
}

/// Two recorded constants carry the same data.
pub open spec fn eq_define(a: HWDefine, b: HWDefine) -> bool {
    a.hwtype == b.hwtype && a.vals.deep_view() == b.vals.deep_view()
}

/// Two layout structs carry the same data.
pub open spec fn eq_hw_struct(a: HWStruct, b: HWStruct) -> bool {
    a.total_size == b.total_size && hw_rows_view(a.fields@) == hw_rows_view(b.fields@)
}

/// Two constant maps carry the same data, entry for entry.
pub open spec fn eq_defines_map(a: Seq<(String, HWDefine)>, b: Seq<(String, HWDefine)>) -> bool {
    eq_keys(a, b) && forall|i: int| 0 <= i < a.len() ==> eq_define(a[i].1, b[i].1)
}

/// Two layout maps carry the same data, entry for entry.
pub open spec fn eq_structs_map(a: Seq<(String, HWStruct)>, b: Seq<(String, HWStruct)>) -> bool {
    eq_keys(a, b) && forall|i: int| 0 <= i < a.len() ==> eq_hw_struct(a[i].1, b[i].1)
}

/// Two layout documents carry the same data.
pub open spec fn eq_hw_json(a: HWJson, b: HWJson) -> bool {
    a.version@ == b.version@ && eq_defines_map(a.defines@, b.defines@) && eq_structs_map(
        a.structs@,
        b.structs@,
    )
}

/// Two name lists carry the same names.
pub open spec fn eq_syms(a: Seq<String>, b: Seq<String>) -> bool {
    a.len() == b.len() && forall|i: int| 0 <= i < a.len() ==> a[i]@ == b[i]@
}

/// Two selections ask for the same names and command groups.
pub open spec fn eq_wanted(a: WantedJson, b: WantedJson) -> bool {
    &&& eq_syms(a.structs@, b.structs@)
    &&& eq_syms(a.defines@, b.defines@)
    &&& a.cmds@.len() == b.cmds@.len()
    &&& forall|g: int|
        0 <= g < a.cmds@.len() ==> a.cmds@[g].0@ == b.cmds@[g].0@ && eq_syms(
            a.cmds@[g].1@,
            b.cmds@[g].1@,
        )
}

/// Name-aligned maps hold the same names.
pub proof fn lemma_eq_has_key<V>(a: Seq<(String, V)>, b: Seq<(String, V)>, k: Seq<char>)
    requires
        eq_keys(a, b),
    ensures
        has_key(a, k) == has_key(b, k),
{
    if has_key(a, k) {
        let i = choose|i: int| 0 <= i < a.len() && a[i].0@ == k;
        assert(b[i].0@ == k);
    }
    if has_key(b, k) {
        let i = choose|i: int| 0 <= i < b.len() && b[i].0@ == k;
        assert(a[i].0@ == k);
    }
}

/// Name-aligned maps with distinct names find a held name at the same
/// position.
pub proof fn lemma_eq_key_index<V>(a: Seq<(String, V)>, b: Seq<(String, V)>, k: Seq<char>)
    requires
        eq_keys(a, b),
        unique_keys(a),
        has_key(a, k),
    ensures
        has_key(b, k),
        0 <= key_index(a, k) < a.len(),
        key_index(b, k) == key_index(a, k),
{
    lemma_eq_has_key(a, b, k);
    let ia = key_index(a, k);
    assert(0 <= ia < a.len() && a[ia].0@ == k);
    let ib = key_index(b, k);
    assert(0 <= ib < b.len() && b[ib].0@ == k);
    if ia != ib {
        assert(a[ib].0@ == k);
    }
}

/// Field-row-aligned field lists generate the same accessor text.
pub proof fn lemma_eq_accessor_fields(
    fa: Seq<crate::ir::HWStructField>,
    fb: Seq<crate::ir::HWStructField>,
    i: int,
)
    requires
        hw_rows_view(fa) == hw_rows_view(fb),
    ensures
        spec_accessor_fields_to(fa, i) == spec_accessor_fields_to(fb, i),
    decreases i,
{
    assert(fa.len() == fb.len()) by {
        assert(hw_rows_view(fa).len() == fa.len());
        assert(hw_rows_view(fb).len() == fb.len());
    }
    if 0 < i <= fa.len() {
        lemma_eq_accessor_fields(fa, fb, i - 1);
        assert(fa[i - 1]@ == hw_rows_view(fa)[i - 1]);
        assert(fb[i - 1]@ == hw_rows_view(fb)[i - 1]);
    }
}

/// Data-aligned layout structs generate the same accessor type.
pub proof fn lemma_eq_accessor_struct(name: Seq<char>, a: HWStruct, b: HWStruct)
    requires
        eq_hw_struct(a, b),
    ensures
        spec_accessor_struct(name, a) == spec_accessor_struct(name, b),
{
    assert(a.fields@.len() == b.fields@.len()) by {
        assert(hw_rows_view(a.fields@).len() == a.fields@.len());
        assert(hw_rows_view(b.fields@).len() == b.fields@.len());
    }
    lemma_eq_accessor_fields(a.fields@, b.fields@, a.fields@.len() as int);
}

/// Data-aligned layout maps emit the same accessor text for any name.
pub proof fn lemma_eq_emit_to(
    sa: Seq<(String, HWStruct)>,
    sb: Seq<(String, HWStruct)>,
    i: int,
    sym: Seq<char>,
)
    requires
        eq_structs_map(sa, sb),
    ensures
        spec_emit_to(sa, i, sym) == spec_emit_to(sb, i, sym),
    decreases i,
{
    if 0 < i <= sa.len() {
        lemma_eq_emit_to(sa, sb, i - 1, sym);
        if sa[i - 1].0@ == sym {
            lemma_eq_accessor_struct(sym, sa[i - 1].1, sb[i - 1].1);
        }
    }
}

/// Data-aligned constant maps emit the same text for name-aligned
/// selected-constant lists.
pub proof fn lemma_eq_sel_defines(
    da: Seq<(String, HWDefine)>,
    db: Seq<(String, HWDefine)>,
    sa: Seq<String>,
    sb: Seq<String>,
    i: int,
)
    requires
        eq_defines_map(da, db),
        unique_keys(da),
        eq_syms(sa, sb),
    ensures
        spec_sel_defines_to(da, sa, i) == spec_sel_defines_to(db, sb, i),
    decreases i,
{
    if 0 < i <= sa.len() {
        lemma_eq_sel_defines(da, db, sa, sb, i - 1);
        let k = sa[i - 1]@;
        lemma_eq_has_key(da, db, k);
        if has_key(da, k) {
            lemma_eq_key_index(da, db, k);
        }
    }
}

/// Data-aligned layout maps emit the same text for name-aligned
/// selected-struct lists.
pub proof fn lemma_eq_sel_structs(
    sa: Seq<(String, HWStruct)>,
    sb: Seq<(String, HWStruct)>,
    wa: Seq<String>,
    wb: Seq<String>,
    i: int,
)
    requires
        eq_structs_map(sa, sb),
        eq_syms(wa, wb),
    ensures
        spec_sel_structs_to(sa, wa, i) == spec_sel_structs_to(sb, wb, i),
    decreases i,
{
    if 0 < i <= wa.len() {
        lemma_eq_sel_structs(sa, sb, wa, wb, i - 1);
        lemma_eq_emit_to(sa, sb, sa.len() as int, wa[i - 1]@);
    }
}

/// Data-aligned constant maps contribute the same text to one command.
pub proof fn lemma_eq_cmd_defines(
    da: Seq<(String, HWDefine)>,
    db: Seq<(String, HWDefine)>,
    i: int,
    group: Seq<char>,
    cmd: Seq<char>,
)
    requires
        eq_defines_map(da, db),
    ensures
        spec_cmd_defines_to(da, i, group, cmd) == spec_cmd_defines_to(db, i, group, cmd),
    decreases i,
{
    if 0 < i <= da.len() {
        lemma_eq_cmd_defines(da, db, i - 1, group, cmd);
    }
}

/// Data-aligned layout maps expand a struct-valued field the same way.
pub proof fn lemma_eq_fld_expand(
    sa: Seq<(String, HWStruct)>,
    sb: Seq<(String, HWStruct)>,
    k: int,
    vt: Seq<char>,
)
    requires
        eq_structs_map(sa, sb),
    ensures
        spec_fld_expand_to(sa, k, vt) == spec_fld_expand_to(sb, k, vt),
    decreases k,
{
    if 0 < k <= sa.len() {
        lemma_eq_fld_expand(sa, sb, k - 1, vt);
        if sa[k - 1].0@ == vt {
            lemma_eq_emit_to(sa, sb, sa.len() as int, sa[k - 1].0@);
        }
    }
}

/// Data-aligned layout maps expand row-aligned parameter fields the same
/// way.
pub proof fn lemma_eq_params_flds(
    sa: Seq<(String, HWStruct)>,
    sb: Seq<(String, HWStruct)>,
    fa: Seq<crate::ir::HWStructField>,
    fb: Seq<crate::ir::HWStructField>,
    i: int,
)
    requires
        eq_structs_map(sa, sb),
        hw_rows_view(fa) == hw_rows_view(fb),
    ensures
        spec_params_flds_to(sa, fa, i) == spec_params_flds_to(sb, fb, i),
    decreases i,
{
    assert(fa.len() == fb.len()) by {
        assert(hw_rows_view(fa).len() == fa.len());
        assert(hw_rows_view(fb).len() == fb.len());
    }
    if 0 < i <= fa.len() {
        lemma_eq_params_flds(sa, sb, fa, fb, i - 1);
        assert(fa[i - 1]@ == hw_rows_view(fa)[i - 1]);
        assert(fb[i - 1]@ == hw_rows_view(fb)[i - 1]);
        if fa[i - 1].isint == 0 {
            lemma_eq_fld_expand(sa, sb, sa.len() as int, fa[i - 1].val_type@);
        }
    }
}

/// Data-aligned layout maps expand a parameter struct the same way.
pub proof fn lemma_eq_params_expand(
    sa: Seq<(String, HWStruct)>,
    sb: Seq<(String, HWStruct)>,
    j: int,
    params: Seq<char>,
)
    requires
        eq_structs_map(sa, sb),
    ensures
        spec_params_expand_to(sa, j, params) == spec_params_expand_to(sb, j, params),
    decreases j,
{
    if 0 < j <= sa.len() {
        lemma_eq_params_expand(sa, sb, j - 1, params);
        if sa[j - 1].0@ == params {
            lemma_eq_params_flds(
                sa,
                sb,
                sa[j - 1].1.fields@,
                sb[j - 1].1.fields@,
                sa[j - 1].1.fields@.len() as int,
            );
            assert(sb[j - 1].1.fields@.len() == sa[j - 1].1.fields@.len()) by {
                assert(hw_rows_view(sa[j - 1].1.fields@).len() == sa[j - 1].1.fields@.len());
                assert(hw_rows_view(sb[j - 1].1.fields@).len() == sb[j - 1].1.fields@.len());
            }
        }
    }
}

/// Data-aligned documents give one command the same text.
pub proof fn lemma_eq_one_cmd(a: HWJson, b: HWJson, group: Seq<char>, cmd: Seq<char>)
    requires
        eq_hw_json(a, b),
    ensures
        spec_one_cmd(a, group, cmd) == spec_one_cmd(b, group, cmd),
{
    lemma_eq_cmd_defines(a.defines@, b.defines@, a.defines@.len() as int, group, cmd);
    let params = spec_ctrl_name(group, cmd) + "_PARAMS"@;
    lemma_eq_emit_to(a.structs@, b.structs@, a.structs@.len() as int, params);
    lemma_eq_params_expand(a.structs@, b.structs@, a.structs@.len() as int, params);
}

/// Data-aligned documents give name-aligned command lists the same text.
pub proof fn lemma_eq_cmds(
    a: HWJson,
    b: HWJson,
    ca: Seq<String>,
    cb: Seq<String>,
    i: int,
    group: Seq<char>,
)
    requires
        eq_hw_json(a, b),
        eq_syms(ca, cb),
    ensures
        spec_cmds_to(a, group, ca, i) == spec_cmds_to(b, group, cb, i),
    decreases i,
{
    if 0 < i <= ca.len() {
        lemma_eq_cmds(a, b, ca, cb, i - 1, group);
        lemma_eq_one_cmd(a, b, group, ca[i - 1]@);
    }
}

/// Data-aligned documents give aligned group lists the same text.
pub proof fn lemma_eq_groups(
    a: HWJson,
    b: HWJson,
    ga: Seq<(String, Vec<String>)>,
    gb: Seq<(String, Vec<String>)>,
    i: int,
)
    requires
        eq_hw_json(a, b),
        ga.len() == gb.len(),
        forall|g: int|
            0 <= g < ga.len() ==> ga[g].0@ == gb[g].0@ && eq_syms(ga[g].1@, gb[g].1@),
    ensures
        spec_groups_to(a, ga, i) == spec_groups_to(b, gb, i),
    decreases i,
{
    if 0 < i <= ga.len() {
        lemma_eq_groups(a, b, ga, gb, i - 1);
        lemma_eq_cmds(a, b, ga[i - 1].1@, gb[i - 1].1@, ga[i - 1].1@.len() as int, ga[i
            - 1].0@);
    }
}

/// Idempotence of generation: two documents that carry the same data —
/// one document and its reload from persisted form included — and two
/// selections that ask for the same names produce byte-identical
/// accessor-oriented output. Together with the generator's own contract,
/// which pins its output to this text, re-running generation can never
/// change the bytes emitted.
pub proof fn lemma_generation_idempotent(a: HWJson, b: HWJson, wa: WantedJson, wb: WantedJson)
    requires
        eq_hw_json(a, b),
        eq_wanted(wa, wb),
        unique_keys(a.defines@),
    ensures
        spec_rust_file_text(a, wa) == spec_rust_file_text(b, wb),
{
    lemma_eq_sel_defines(
        a.defines@,
        b.defines@,
        wa.defines@,
        wb.defines@,
        wa.defines@.len() as int,
    );
    lemma_eq_sel_structs(
        a.structs@,
        b.structs@,
        wa.structs@,
        wb.structs@,
        wa.structs@.len() as int,
    );
    lemma_eq_groups(a, b, wa.cmds@, wb.cmds@, wa.cmds@.len() as int);
}

/// Field-row-aligned field lists re-emit the same declaration lines.
pub proof fn lemma_eq_hw_fields(
    fa: Seq<crate::ir::HWStructField>,
    fb: Seq<crate::ir::HWStructField>,
    i: int,
)
    requires
        hw_rows_view(fa) == hw_rows_view(fb),
    ensures
        spec_hw_fields_to(fa, i) == spec_hw_fields_to(fb, i),
    decreases i,
{
    assert(fa.len() == fb.len()) by {
        assert(hw_rows_view(fa).len() == fa.len());
        assert(hw_rows_view(fb).len() == fb.len());
    }
    if 0 < i <= fa.len() {
        lemma_eq_hw_fields(fa, fb, i - 1);
        assert(fa[i - 1]@ == hw_rows_view(fa)[i - 1]);
        assert(fb[i - 1]@ == hw_rows_view(fb)[i - 1]);
    }
}

/// Data-aligned documents re-emit the same header for name-aligned
/// symbol lists.
pub proof fn lemma_eq_hw_syms(a: HWJson, b: HWJson, sa: Seq<String>, sb: Seq<String>, i: int)
    requires
        eq_hw_json(a, b),
        unique_keys(a.defines@),
        unique_keys(a.structs@),
        eq_syms(sa, sb),
    ensures
        spec_hw_syms_to(a, sa, i) == spec_hw_syms_to(b, sb, i),
    decreases i,
{
    if 0 < i <= sa.len() {
        lemma_eq_hw_syms(a, b, sa, sb, i - 1);
        let k = sa[i - 1]@;
        lemma_eq_has_key(a.defines@, b.defines@, k);
        if has_key(a.defines@, k) {
            lemma_eq_key_index(a.defines@, b.defines@, k);
        }
        lemma_eq_has_key(a.structs@, b.structs@, k);
        if has_key(a.structs@, k) {
            lemma_eq_key_index(a.structs@, b.structs@, k);
            let sa2 = lookup(a.structs@, k);
            let sb2 = lookup(b.structs@, k);
            assert(spec_hw_struct_decl(k, sa2) == spec_hw_struct_decl(k, sb2)) by {
                assert(sa2.fields@.len() == sb2.fields@.len()) by {
                    assert(hw_rows_view(sa2.fields@).len() == sa2.fields@.len());
                    assert(hw_rows_view(sb2.fields@).len() == sb2.fields@.len());
                }
                lemma_eq_hw_fields(sa2.fields@, sb2.fields@, sa2.fields@.len() as int);
            }
        }
    }
}

/// Idempotence of the header-oriented generator: data-aligned documents
/// and name-aligned symbol lists yield byte-identical output.
pub proof fn lemma_hw_generation_idempotent(
    a: HWJson,
    b: HWJson,
    sa: Seq<String>,
    sb: Seq<String>,
)
    requires
        eq_hw_json(a, b),
        unique_keys(a.defines@),
        unique_keys(a.structs@),
        eq_syms(sa, sb),
    ensures
        spec_hw_file_text(a, sa) == spec_hw_file_text(b, sb),
{
    lemma_eq_hw_syms(a, b, sa, sb, sa.len() as int);
}

/// Two recorded definitions carry the same data, as far as the
/// declaration-oriented generator reads them.
pub open spec fn eq_ctypes(a: CTypes, b: CTypes) -> bool {
    &&& a.ctype == b.ctype
    &&& a.vals.deep_view() == b.vals.deep_view()
    &&& c_rows_view(a.fields@) == c_rows_view(b.fields@)
}

/// Two definition maps carry the same data, entry for entry.
pub open spec fn eq_ctypes_map(a: Seq<(String, CTypes)>, b: Seq<(String, CTypes)>) -> bool {
    eq_keys(a, b) && forall|i: int| 0 <= i < a.len() ==> eq_ctypes(a[i].1, b[i].1)
}

/// Two definitions documents carry the same data.
pub open spec fn eq_c_json(a: CJson, b: CJson) -> bool {
    a.version@ == b.version@ && eq_ctypes_map(a.types@, b.types@)
}

/// Row-aligned declaration field lists re-emit the same lines.
pub proof fn lemma_eq_c_fields(
    ver: Seq<char>,
    fa: Seq<crate::ir::CStructField>,
    fb: Seq<crate::ir::CStructField>,
    i: int,
)
    requires
        c_rows_view(fa) == c_rows_view(fb),
    ensures
        spec_c_fields_to(ver, fa, i) == spec_c_fields_to(ver, fb, i),
    decreases i,
{
    assert(fa.len() == fb.len()) by {
        assert(c_rows_view(fa).len() == fa.len());
        assert(c_rows_view(fb).len() == fb.len());
    }
    if 0 < i <= fa.len() {
        lemma_eq_c_fields(ver, fa, fb, i - 1);
        assert(fa[i - 1]@ == c_rows_view(fa)[i - 1]);
        assert(fb[i - 1]@ == c_rows_view(fb)[i - 1]);
    }
}

/// Data-aligned definitions documents re-emit the same declarations for
/// name-aligned symbol lists.
pub proof fn lemma_eq_c_syms(
    a: CJson,
    b: CJson,
    ver: Seq<char>,
    sa: Seq<String>,
    sb: Seq<String>,
    i: int,
)
    requires
        eq_c_json(a, b),
        unique_keys(a.types@),
        eq_syms(sa, sb),
    ensures
        spec_c_syms_to(a, ver, sa, i) == spec_c_syms_to(b, ver, sb, i),
    decreases i,
{
    if 0 < i <= sa.len() {
        lemma_eq_c_syms(a, b, ver, sa, sb, i - 1);
        let k = sa[i - 1]@;
        lemma_eq_has_key(a.types@, b.types@, k);
        if has_key(a.types@, k) {
            lemma_eq_key_index(a.types@, b.types@, k);
            let da = lookup(a.types@, k);
            let db = lookup(b.types@, k);
            assert(spec_c_struct(ver, k, da) == spec_c_struct(ver, k, db)) by {
                assert(da.fields@.len() == db.fields@.len()) by {
                    assert(c_rows_view(da.fields@).len() == da.fields@.len());
                    assert(c_rows_view(db.fields@).len() == db.fields@.len());
                }
                lemma_eq_c_fields(ver, da.fields@, db.fields@, da.fields@.len() as int);
            }
            assert(spec_c_typedef(ver, k, da.vals.deep_view()) == spec_c_typedef(
                ver,
                k,
                db.vals.deep_view(),
            ));
        }
    }
}

/// Idempotence of the declaration-oriented generator: data-aligned
/// documents and name-aligned symbol lists yield byte-identical output.
pub proof fn lemma_c_generation_idempotent(a: CJson, b: CJson, sa: Seq<String>, sb: Seq<String>)
    requires
        eq_c_json(a, b),
        unique_keys(a.types@),
        eq_syms(sa, sb),
    ensures
        spec_c_file_text(a, sa) == spec_c_file_text(b, sb),
{
    lemma_eq_c_syms(
        a,
        b,
        crate::strutil::spec_replace(a.version@, '.', '_'),
        sa,
        sb,
        sa.len() as int,
    );
}

/// A name the layout map does not hold selects nothing.
pub proof fn lemma_emit_missing(structs: Seq<(String, HWStruct)>, i: int, sym: Seq<char>)
    requires
        !has_key(structs, sym),
        i <= structs.len(),
    ensures
        spec_emit_to(structs, i, sym) == Seq::<char>::empty(),
    decreases i,
{
    if 0 < i {
        lemma_emit_missing(structs, i - 1, sym);
        assert(structs[i - 1].0@ != sym);
        assert(spec_emit_to(structs, i, sym) =~= Seq::<char>::empty());
    }
}

/// A held name selects exactly its own accessor type, once.
pub proof fn lemma_emit_found(structs: Seq<(String, HWStruct)>, sym: Seq<char>)
    requires
        unique_keys(structs),
        has_key(structs, sym),
    ensures
        spec_emit_hw_struct(structs, sym) == spec_accessor_struct(sym, lookup(structs, sym)),
{
    let ki = key_index(structs, sym);
    assert(0 <= ki < structs.len() && structs[ki].0@ == sym);
    lemma_emit_once(structs, structs.len() as int, sym, ki);
}

/// Within the first `i` entries, only the unique entry at `ki` (when
/// reached) contributes.
proof fn lemma_emit_once(structs: Seq<(String, HWStruct)>, i: int, sym: Seq<char>, ki: int)
    requires
        unique_keys(structs),
        0 <= ki < structs.len(),
        structs[ki].0@ == sym,
        i <= structs.len(),
    ensures
        spec_emit_to(structs, i, sym) == (if ki < i {
            spec_accessor_struct(sym, structs[ki].1)
        } else {
            Seq::<char>::empty()
        }),
        lookup(structs, sym) == structs[ki].1,
    decreases i,
{
    assert(key_index(structs, sym) == ki) by {
        let k2 = key_index(structs, sym);
        assert(0 <= k2 < structs.len() && structs[k2].0@ == sym) by {
            assert(structs[ki].0@ == sym);
        }
        if k2 != ki {
            assert(structs[k2].0@ != structs[ki].0@ || true);
        }
    }
    if 0 < i {
        lemma_emit_once(structs, i - 1, sym, ki);
        if i - 1 == ki {
            assert(spec_emit_to(structs, i, sym) =~= spec_accessor_struct(
                sym,
                structs[ki].1,
            ));
        } else {
            assert(structs[i - 1].0@ != sym);
            if ki < i - 1 {
                assert(spec_emit_to(structs, i, sym) =~= spec_accessor_struct(
                    sym,
                    structs[ki].1,
                ));
            } else {
                assert(spec_emit_to(structs, i, sym) =~= Seq::<char>::empty());
            }
        }
    }
}

/// Command-group selection: one command contributes exactly the
/// definitions whose names start with one of its two synthesized
/// candidate names, `NV<group>_CTRL_CMD_<cmd>` and `NV<group>_CTRL_<cmd>`
/// (in map order), followed by the accessor type of the parameter struct
/// `NV<group>_CTRL_<cmd>_PARAMS` when the layout map holds that name —
/// and by nothing in its place when it does not — followed by the
/// parameter struct's one-level expansion.
pub proof fn lemma_cmd_group_selection(json: HWJson, group: Seq<char>, cmd: Seq<char>)
    requires
        unique_keys(json.structs@),
    ensures
        ({
            let params = spec_ctrl_name(group, cmd) + "_PARAMS"@;
            spec_one_cmd(json, group, cmd) == spec_cmd_defines_to(
                json.defines@,
                json.defines@.len() as int,
                group,
                cmd,
            ) + (if has_key(json.structs@, params) {
                spec_accessor_struct(params, lookup(json.structs@, params))
            } else {
                Seq::<char>::empty()
            }) + spec_params_expand_to(json.structs@, json.structs@.len() as int, params)
        }),
        forall|d: int|
            0 <= d < json.defines@.len() ==> (#[trigger] spec_cmd_selects(
                json.defines@[d].0@,
                group,
                cmd,
            ) == (crate::strutil::is_prefix(spec_cmd_name(group, cmd), json.defines@[d].0@)
                || crate::strutil::is_prefix(spec_ctrl_name(group, cmd), json.defines@[d].0@))),
{
    let params = spec_ctrl_name(group, cmd) + "_PARAMS"@;
    if has_key(json.structs@, params) {
        lemma_emit_found(json.structs@, params);
    } else {
        lemma_emit_missing(json.structs@, json.structs@.len() as int, params);
    }
}


/// Aligned writes keep aligned maps aligned: writing entries that carry
/// the same name and (by `eqv`) the same data into name-and-data-aligned
/// maps leaves the maps name-and-data-aligned.
pub proof fn lemma_insert_aligned<V>(
    pre1: Seq<(String, V)>,
    post1: Seq<(String, V)>,
    name1: String,
    v1: V,
    pre2: Seq<(String, V)>,
    post2: Seq<(String, V)>,
    name2: String,
    v2: V,
    eqv: spec_fn(V, V) -> bool,
)
    requires
        unique_keys(pre1),
        unique_keys(pre2),
        eq_keys(pre1, pre2),
        forall|i: int| 0 <= i < pre1.len() ==> #[trigger] eqv(pre1[i].1, pre2[i].1),
        name1@ == name2@,
        eqv(v1, v2),
        inserted(pre1, post1, name1, v1),
        inserted(pre2, post2, name2, v2),
    ensures
        unique_keys(post1),
        unique_keys(post2),
        eq_keys(post1, post2),
        forall|i: int| 0 <= i < post1.len() ==> #[trigger] eqv(post1[i].1, post2[i].1),
{
    crate::ir::lemma_insert_lookup(pre1, post1, name1, v1);
    crate::ir::lemma_insert_lookup(pre2, post2, name2, v2);
    lemma_eq_has_key(pre1, pre2, name1@);
    if has_key(pre1, name1@) {
        lemma_eq_key_index(pre1, pre2, name1@);
        let ki = key_index(pre1, name1@);
        assert(eq_keys(post1, post2)) by {
            assert(forall|i: int|
                0 <= i < post1.len() && i != ki ==> post1[i] == pre1[i] && post2[i]
                    == pre2[i]);
        }
        assert forall|i: int| 0 <= i < post1.len() implies #[trigger] eqv(
            post1[i].1,
            post2[i].1,
        ) by {
            if i != ki {
                assert(post1[i] == pre1[i] && post2[i] == pre2[i]);
                assert(eqv(pre1[i].1, pre2[i].1));
            }
        }
    } else {
        let n = pre1.len() as int;
        assert(eq_keys(post1, post2)) by {
            assert(forall|i: int|
                0 <= i < n ==> post1[i] == pre1[i] && post2[i] == pre2[i]);
            assert(post1[n].0@ == name1@ && post2[n].0@ == name2@);
        }
        assert forall|i: int| 0 <= i < post1.len() implies #[trigger] eqv(
            post1[i].1,
            post2[i].1,
        ) by {
            if i < n {
                assert(post1[i] == pre1[i] && post2[i] == pre2[i]);
                assert(eqv(pre1[i].1, pre2[i].1));
            } else {
                assert(post1[i].1 == v1 && post2[i].1 == v2);
            }
        }
    }
}

/// Idempotence of extraction, macro step: two runs that merge the same
/// macro — same name and token spellings — into data-aligned constant
/// maps leave the maps data-aligned: both skip it (reserved name or
/// unclassifiable shape), or both record the same classified values
/// under the same name. The hypotheses are exactly what
/// `builder::record_hw_define` ensures of each run.
pub proof fn lemma_extraction_define_step(
    pre1: Seq<(String, HWDefine)>,
    post1: Seq<(String, HWDefine)>,
    name1: String,
    pre2: Seq<(String, HWDefine)>,
    post2: Seq<(String, HWDefine)>,
    name2: String,
    toks: Seq<Seq<char>>,
)
    requires
        unique_keys(pre1),
        unique_keys(pre2),
        eq_defines_map(pre1, pre2),
        name1@ == name2@,
        (if crate::strutil::is_prefix("__"@, name1@) || spec_classify(toks) is None {
            post1 == pre1
        } else {
            exists|d: HWDefine|
                {
                    &&& d.hwtype is Value
                    &&& d.vals.deep_view() == spec_classify(toks).unwrap()
                    &&& inserted(pre1, post1, name1, d)
                }
        }),
        (if crate::strutil::is_prefix("__"@, name2@) || spec_classify(toks) is None {
            post2 == pre2
        } else {
            exists|d: HWDefine|
                {
                    &&& d.hwtype is Value
                    &&& d.vals.deep_view() == spec_classify(toks).unwrap()
                    &&& inserted(pre2, post2, name2, d)
                }
        }),
    ensures
        unique_keys(post1),
        unique_keys(post2),
        eq_defines_map(post1, post2),
{
    if crate::strutil::is_prefix("__"@, name1@) || spec_classify(toks) is None {
    } else {
        let d1 = choose|d: HWDefine|
            {
                &&& d.hwtype is Value
                &&& d.vals.deep_view() == spec_classify(toks).unwrap()
                &&& inserted(pre1, post1, name1, d)
            };
        let d2 = choose|d: HWDefine|
            {
                &&& d.hwtype is Value
                &&& d.vals.deep_view() == spec_classify(toks).unwrap()
                &&& inserted(pre2, post2, name2, d)
            };
        assert(eq_define(d1, d2));
        lemma_insert_aligned(
            pre1,
            post1,
            name1,
            d1,
            pre2,
            post2,
            name2,
            d2,
            |a: HWDefine, b: HWDefine| eq_define(a, b),
        );
    }
}

/// Idempotence of extraction, enum step: two runs that merge the same
/// enum constant — same name and rendered value — into data-aligned
/// constant maps leave the maps data-aligned. The hypotheses are exactly
/// what `builder::record_hw_enum_value` ensures of each run.
pub proof fn lemma_extraction_enum_step(
    pre1: Seq<(String, HWDefine)>,
    post1: Seq<(String, HWDefine)>,
    name1: String,
    value1: String,
    pre2: Seq<(String, HWDefine)>,
    post2: Seq<(String, HWDefine)>,
    name2: String,
    value2: String,
)
    requires
        unique_keys(pre1),
        unique_keys(pre2),
        eq_defines_map(pre1, pre2),
        name1@ == name2@,
        value1@ == value2@,
        (if name1@ == "packed"@ {
            post1 == pre1
        } else {
            exists|d: HWDefine|
                {
                    &&& d.hwtype is Value
                    &&& d.vals.deep_view() == seq![value1@]
                    &&& inserted(pre1, post1, name1, d)
                }
        }),
        (if name2@ == "packed"@ {
            post2 == pre2
        } else {
            exists|d: HWDefine|
                {
                    &&& d.hwtype is Value
                    &&& d.vals.deep_view() == seq![value2@]
                    &&& inserted(pre2, post2, name2, d)
                }
        }),
    ensures
        unique_keys(post1),
        unique_keys(post2),
        eq_defines_map(post1, post2),
{
    if name1@ == "packed"@ {
    } else {
        let d1 = choose|d: HWDefine|
            {
                &&& d.hwtype is Value
                &&& d.vals.deep_view() == seq![value1@]
                &&& inserted(pre1, post1, name1, d)
            };
        let d2 = choose|d: HWDefine|
            {
                &&& d.hwtype is Value
                &&& d.vals.deep_view() == seq![value2@]
                &&& inserted(pre2, post2, name2, d)
            };
        assert(eq_define(d1, d2));
        lemma_insert_aligned(
            pre1,
            post1,
            name1,
            d1,
            pre2,
            post2,
            name2,
            d2,
            |a: HWDefine, b: HWDefine| eq_define(a, b),
        );
    }
}

/// Two parsed field declarations carry the same data: same spellings,
/// offsets, array shape and alignment, recursively through nested
/// blocks.
pub open spec fn eq_decl(a: FieldDecl, b: FieldDecl) -> bool
    decreases a, 0int,
{
    &&& a.name@ == b.name@
    &&& a.byte_offset == b.byte_offset
    &&& a.array == b.array
    &&& a.aligned == b.aligned
    &&& match (a.shape, b.shape) {
        (
            FieldShape::Integer { bits: ba, builtin: la, ty_name: ta },
            FieldShape::Integer { bits: bb, builtin: lb, ty_name: tb },
        ) => ba == bb && la == lb && ta@ == tb@,
        (
            FieldShape::Record { named: na, is_union: ua, size_bytes: sa, fields: fa },
            FieldShape::Record { named: nb, is_union: ub, size_bytes: sb, fields: fb },
        ) => na == nb && ua == ub && sa == sb && eq_decls(fa@, fb@, fa@.len() as int)
            && fa@.len() == fb@.len(),
        (
            FieldShape::RecordTypedef { ty_name: ta, size_bytes: sa },
            FieldShape::RecordTypedef { ty_name: tb, size_bytes: sb },
        ) => ta@ == tb@ && sa == sb,
        (
            FieldShape::ArrayTypedef { len: la, elem_bits: ea, elem_name: na },
            FieldShape::ArrayTypedef { len: lb, elem_bits: eb, elem_name: nb },
        ) => la == lb && ea == eb && na@ == nb@,
        (FieldShape::Opaque { ty_name: ta }, FieldShape::Opaque { ty_name: tb }) => ta@
            == tb@,
        _ => false,
    }
}

/// The first `i` fields of two declarations carry the same data.
pub open spec fn eq_decls(a: Seq<FieldDecl>, b: Seq<FieldDecl>, i: int) -> bool
    decreases a, i,
{
    i <= 0 || (i <= a.len() && i <= b.len() && eq_decl(a[i - 1], b[i - 1]) && eq_decls(
        a,
        b,
        i - 1,
    ))
}

/// Data-aligned field declarations flatten to the same layout rows.
pub proof fn lemma_eq_field_rows(a: FieldDecl, b: FieldDecl, base: int, prefix: Seq<char>)
    requires
        eq_decl(a, b),
    ensures
        spec_hw_field_rows(a, base, prefix) == spec_hw_field_rows(b, base, prefix),
    decreases a, 1int,
{
    match a.array {
        ArrayKind::NotArray => match a.shape {
            FieldShape::Record { named, fields, .. } => {
                match b.shape {
                    FieldShape::Record { fields: fb, .. } => {
                        lemma_eq_rows(
                            fields@,
                            fb@,
                            fields@.len() as int,
                            base + a.byte_offset * 8,
                            if named {
                                a.name@ + "_"@
                            } else {
                                Seq::<char>::empty()
                            },
                        );
                    },
                    _ => {},
                }
            },
            _ => {},
        },
        _ => {},
    }
}

/// Data-aligned declarations flatten to the same layout rows.
pub proof fn lemma_eq_rows(
    a: Seq<FieldDecl>,
    b: Seq<FieldDecl>,
    i: int,
    base: int,
    prefix: Seq<char>,
)
    requires
        eq_decls(a, b, i),
    ensures
        spec_hw_rows_to(a, i, base, prefix) == spec_hw_rows_to(b, i, base, prefix),
    decreases a, i,
{
    if 0 < i <= a.len() {
        lemma_eq_rows(a, b, i - 1, base, prefix);
        lemma_eq_field_rows(a[i - 1], b[i - 1], base, prefix);
    }
}

/// Idempotence of extraction, struct-typedef step: two runs that flatten
/// and merge the same declaration — data-aligned field trees, same name,
/// same total size — into data-aligned layout maps leave the maps
/// data-aligned: both skip a zero-size declaration, or both record the
/// same rows under the same name. The hypotheses are exactly what
/// `builder::record_struct_typedef` ensures of each run.
pub proof fn lemma_extraction_struct_step(
    pre1: Seq<(String, HWStruct)>,
    post1: Seq<(String, HWStruct)>,
    name1: String,
    decl1: Seq<FieldDecl>,
    pre2: Seq<(String, HWStruct)>,
    post2: Seq<(String, HWStruct)>,
    name2: String,
    decl2: Seq<FieldDecl>,
    total_size_bits: u32,
)
    requires
        unique_keys(pre1),
        unique_keys(pre2),
        eq_structs_map(pre1, pre2),
        name1@ == name2@,
        eq_decls(decl1, decl2, decl1.len() as int),
        decl1.len() == decl2.len(),
        (if total_size_bits == 0 {
            post1 == pre1
        } else {
            exists|hs: HWStruct|
                {
                    &&& hs.total_size == total_size_bits
                    &&& hw_rows_view(hs.fields@) == spec_hw_rows(
                        decl1,
                        0,
                        Seq::<char>::empty(),
                    )
                    &&& inserted(pre1, post1, name1, hs)
                }
        }),
        (if total_size_bits == 0 {
            post2 == pre2
        } else {
            exists|hs: HWStruct|
                {
                    &&& hs.total_size == total_size_bits
                    &&& hw_rows_view(hs.fields@) == spec_hw_rows(
                        decl2,
                        0,
                        Seq::<char>::empty(),
                    )
                    &&& inserted(pre2, post2, name2, hs)
                }
        }),
    ensures
        unique_keys(post1),
        unique_keys(post2),
        eq_structs_map(post1, post2),
{
    if total_size_bits == 0 {
    } else {
        lemma_eq_rows(decl1, decl2, decl1.len() as int, 0, Seq::<char>::empty());
        let h1 = choose|hs: HWStruct|
            {
                &&& hs.total_size == total_size_bits
                &&& hw_rows_view(hs.fields@) == spec_hw_rows(decl1, 0, Seq::<char>::empty())
                &&& inserted(pre1, post1, name1, hs)
            };
        let h2 = choose|hs: HWStruct|
            {
                &&& hs.total_size == total_size_bits
                &&& hw_rows_view(hs.fields@) == spec_hw_rows(decl2, 0, Seq::<char>::empty())
                &&& inserted(pre2, post2, name2, hs)
            };
        assert(eq_hw_struct(h1, h2));
        lemma_insert_aligned(
            pre1,
            post1,
            name1,
            h1,
            pre2,
            post2,
            name2,
            h2,
            |a: HWStruct, b: HWStruct| eq_hw_struct(a, b),
        );
    }
}

} // verus!

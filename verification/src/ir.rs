//! The intermediate representation that the extraction stage produces and
//! the generation stage consumes: named constant definitions, bit-level
//! struct layouts, and declaration-level struct descriptions.
//!
//! Both stages speak of name-keyed maps. Here a map is an ordered list of
//! `(name, entry)` pairs with pairwise-distinct names; inserting an entry
//! under an existing name overwrites it in place (last write wins, by
//! design), and a new name is appended, so entry order is the insertion
//! order of first writes.

use vstd::prelude::*;

use crate::strutil::str_eq;

verus! {

/// `group_len` value meaning "this field is not an array".
pub const GROUP_NONE: u32 = 0xffff_ffff;

/// One field of a bit-level struct layout. `start` and `size` are in bits;
/// `size` is the per-element width for array fields. `isint == 0` marks a
/// field whose contents are another layout struct named by `val_type`.
pub struct HWStructField {
    pub name: String,
    pub start: u32,
    pub size: u32,
    pub group_len: u32,
    pub isint: u32,
    pub val_type: String,
}

/// A bit-level struct layout: total size in bits plus its fields in
/// declaration order.
pub struct HWStruct {
    pub total_size: u32,
    pub fields: Vec<HWStructField>,
}

/// Classification of a recorded macro constant.
pub enum HWDefineType {
    Unknown,
    Value,
}

/// A recorded macro constant: one value string, or a low/high pair.
pub struct HWDefine {
    pub hwtype: HWDefineType,
    pub vals: Vec<String>,
}

/// The layout document: version string, constant map and layout map.
pub struct HWJson {
    pub version: String,
    pub defines: Vec<(String, HWDefine)>,
    pub structs: Vec<(String, HWStruct)>,
}

/// Declaration-level field tag: a plain member, or a marker opening or
/// closing a nested union/struct block.
pub enum FieldType {
    Member,
    UnionStart,
    UnionEnd,
    StructStart,
    StructEnd,
}

/// One declaration-level field record.
pub struct CStructField {
    pub fldtype: FieldType,
    pub ftype: String,
    pub name: String,
    pub is_array: bool,
    pub size: u32,
    pub is_aligned: bool,
    pub alignment: u32,
}

/// Variant tag of a declaration-level definition.
pub enum CType {
    Unknown,
    Value,
    Struct,
    Typedef,
}

/// A declaration-level definition: a constant's value strings, a struct's
/// field list, or a typedef's aliased type name (in `vals[0]`).
pub struct CTypes {
    pub ctype: CType,
    pub vals: Vec<String>,
    pub is_anon_struct: bool,
    pub fields: Vec<CStructField>,
}

/// The definitions document: version string plus the definition map.
pub struct CJson {
    pub version: String,
    pub types: Vec<(String, CTypes)>,
}

/// A generation run's selection: struct names and constant names to emit,
/// and command groups, each a group prefix with its list of command
/// suffixes.
pub struct WantedJson {
    pub structs: Vec<String>,
    pub cmds: Vec<(String, Vec<String>)>,
    pub defines: Vec<String>,
}

/// A fatal generation-stage error.
#[derive(Debug)]
pub enum GenError {
    /// A selected definition carries a variant tag with no generation
    /// rule: the IR and the generator disagree, so generation stops
    /// rather than emit partial output.
    UnknownKind,
}

/// Mathematical image of one `HWStructField`: names as character
/// sequences, numbers as unbounded integers.
pub struct HWFieldV {
    pub name: Seq<char>,
    pub start: int,
    pub size: int,
    pub group_len: int,
    pub isint: int,
    pub val_type: Seq<char>,
}

impl View for HWStructField {
    type V = HWFieldV;

    open spec fn view(&self) -> HWFieldV {
        HWFieldV {
            name: self.name@,
            start: self.start as int,
            size: self.size as int,
            group_len: self.group_len as int,
            isint: self.isint as int,
            val_type: self.val_type@,
        }
    }
}

/// Mathematical image of one `CStructField`.
pub struct CFieldV {
    pub fldtype: FieldType,
    pub ftype: Seq<char>,
    pub name: Seq<char>,
    pub is_array: bool,
    pub size: int,
    pub is_aligned: bool,
    pub alignment: int,
}

impl View for CStructField {
    type V = CFieldV;

    open spec fn view(&self) -> CFieldV {
        CFieldV {
            fldtype: self.fldtype,
            ftype: self.ftype@,
            name: self.name@,
            is_array: self.is_array,
            size: self.size as int,
            is_aligned: self.is_aligned,
            alignment: self.alignment as int,
        }
    }
}

/// The views of a row sequence, element for element.
pub open spec fn hw_rows_view(s: Seq<HWStructField>) -> Seq<HWFieldV> {
    s.map_values(|f: HWStructField| f@)
}

/// The views of a declaration-level row sequence, element for element.
pub open spec fn c_rows_view(s: Seq<CStructField>) -> Seq<CFieldV> {
    s.map_values(|f: CStructField| f@)
}

/// Whether some entry of `m` carries the name `k`.
pub open spec fn has_key<V>(m: Seq<(String, V)>, k: Seq<char>) -> bool {
    exists|i: int| 0 <= i < m.len() && m[i].0@ == k
}

/// Entry names are pairwise distinct.
pub open spec fn unique_keys<V>(m: Seq<(String, V)>) -> bool {
    forall|i: int, j: int| 0 <= i < j < m.len() ==> m[i].0@ != m[j].0@
}

/// The index of the entry named `k` (unique when `unique_keys(m)` holds).
pub open spec fn key_index<V>(m: Seq<(String, V)>, k: Seq<char>) -> int {
    choose|i: int| 0 <= i < m.len() && m[i].0@ == k
}

/// The entry stored under the name `k`.
pub open spec fn lookup<V>(m: Seq<(String, V)>, k: Seq<char>) -> V {
    m[key_index(m, k)].1
}

/// Finds the first entry named `key`, scanning in entry order.
pub fn find_entry<V>(m: &Vec<(String, V)>, key: &str) -> (r: Option<usize>)
    ensures
        match r {
            Some(i) => {
                &&& i < m@.len()
                &&& m@[i as int].0@ == key@
                &&& forall|j: int| 0 <= j < i ==> m@[j].0@ != key@
            },
            None => !has_key(m@, key@),
        },
{
    let mut i: usize = 0;
    while i < m.len()
        invariant
            i <= m@.len(),
            forall|j: int| 0 <= j < i ==> m@[j].0@ != key@,
        decreases m@.len() - i,
    {
        if str_eq(m[i].0.as_str(), key) {
            return Some(i);
        }
        i += 1;
    }
    None
}

/// Inserts `value` under `key`: overwrites in place if the name is present,
/// appends otherwise.
pub fn insert_entry<V>(m: &mut Vec<(String, V)>, key: String, value: V)
    requires
        unique_keys(old(m)@),
    ensures
        unique_keys(final(m)@),
        has_key(final(m)@, key@),
        final(m)@ == (if has_key(old(m)@, key@) {
            old(m)@.update(key_index(old(m)@, key@), (key, value))
        } else {
            old(m)@.push((key, value))
        }),
{
    let found = find_entry(m, key.as_str());
    match found {
        Some(i) => {
            proof {
                assert(old(m)@[i as int].0@ == key@);
                assert(key_index(old(m)@, key@) == i) by {
                    let ki = key_index(old(m)@, key@);
                    assert(0 <= ki < old(m)@.len() && old(m)@[ki].0@ == key@);
                }
            }
            m.set(i, (key, value));
            proof {
                assert(has_key(final(m)@, key@)) by {
                    assert(final(m)@[i as int].0@ == key@);
                }
            }
        },
        None => {
            m.push((key, value));
            proof {
                let n = old(m)@.len() as int;
                assert(has_key(final(m)@, key@)) by {
                    assert(final(m)@[n].0@ == key@);
                }
                assert forall|i: int, j: int| 0 <= i < j < final(m)@.len() implies
                    final(m)@[i].0@ != final(m)@[j].0@
                by {
                    if j < n {
                        assert(old(m)@[i].0@ != old(m)@[j].0@);
                    } else {
                        assert(final(m)@[j].0@ == key@);
                        assert(final(m)@[i].0@ == old(m)@[i].0@);
                        assert(!has_key(old(m)@, key@));
                    }
                }
            }
        },
    }
}

/// After an insert, the entry under the inserted name is the new value and
/// every other name keeps its old entry, at its old index.
pub proof fn lemma_insert_lookup<V>(
    pre: Seq<(String, V)>,
    post: Seq<(String, V)>,
    key: String,
    value: V,
)
    requires
        unique_keys(pre),
        post == (if has_key(pre, key@) {
            pre.update(key_index(pre, key@), (key, value))
        } else {
            pre.push((key, value))
        }),
    ensures
        unique_keys(post),
        has_key(post, key@),
        lookup(post, key@) == value,
        forall|k: Seq<char>| k != key@ ==> has_key(post, k) == has_key(pre, k),
        forall|k: Seq<char>|
            k != key@ && has_key(pre, k) ==> #[trigger] lookup(post, k) == lookup(pre, k)
                && key_index(post, k) == key_index(pre, k),
{
    if has_key(pre, key@) {
        let ki = key_index(pre, key@);
        assert(0 <= ki < pre.len() && pre[ki].0@ == key@);
        assert(post[ki].0@ == key@);
        assert(unique_keys(post)) by {
            assert forall|i: int, j: int| 0 <= i < j < post.len() implies
                post[i].0@ != post[j].0@
            by {
                assert(pre[i].0@ != pre[j].0@);
                if i == ki {
                    assert(post[i].0@ == key@ && post[j].0@ == pre[j].0@);
                } else if j == ki {
                    assert(post[j].0@ == key@ && post[i].0@ == pre[i].0@);
                }
            }
        }
        assert(key_index(post, key@) == ki) by {
            let ki2 = key_index(post, key@);
            assert(0 <= ki2 < post.len() && post[ki2].0@ == key@) by {
                assert(post[ki].0@ == key@);
            }
            if ki2 != ki {
                assert(pre[ki2].0@ == key@);
            }
        }
        assert(lookup(post, key@) == value);
        assert forall|k: Seq<char>| k != key@ implies
            has_key(post, k) == has_key(pre, k)
        by {
            if has_key(pre, k) {
                let i = key_index(pre, k);
                assert(0 <= i < pre.len() && pre[i].0@ == k);
                assert(i != ki);
                assert(post[i].0@ == k);
            }
            if has_key(post, k) {
                let i = choose|i: int| 0 <= i < post.len() && post[i].0@ == k;
                assert(i != ki);
                assert(pre[i].0@ == k);
            }
        }
        assert forall|k: Seq<char>| k != key@ && has_key(pre, k) implies
            #[trigger] lookup(post, k) == lookup(pre, k) && key_index(post, k) == key_index(pre, k)
        by {
            let i = key_index(pre, k);
            assert(0 <= i < pre.len() && pre[i].0@ == k);
            assert(i != ki);
            assert(post[i].0@ == k);
            let i2 = key_index(post, k);
            assert(0 <= i2 < post.len() && post[i2].0@ == k);
            if i2 != i {
                if i2 == ki {
                    assert(post[ki].0@ == key@);
                } else {
                    assert(pre[i2].0@ == k);
                }
            }
        }
    } else {
        let n = pre.len() as int;
        assert(post[n].0@ == key@);
        assert(unique_keys(post)) by {
            assert forall|i: int, j: int| 0 <= i < j < post.len() implies
                post[i].0@ != post[j].0@
            by {
                if j < n {
                    assert(pre[i].0@ != pre[j].0@);
                } else {
                    assert(post[j].0@ == key@);
                    assert(post[i].0@ == pre[i].0@);
                }
            }
        }
        assert(key_index(post, key@) == n) by {
            let ki2 = key_index(post, key@);
            assert(0 <= ki2 < post.len() && post[ki2].0@ == key@) by {
                assert(post[n].0@ == key@);
            }
            if ki2 != n {
                assert(pre[ki2].0@ == key@);
            }
        }
        assert(lookup(post, key@) == value);
        assert forall|k: Seq<char>| k != key@ implies
            has_key(post, k) == has_key(pre, k)
        by {
            if has_key(pre, k) {
                let i = key_index(pre, k);
                assert(0 <= i < pre.len() && pre[i].0@ == k);
                assert(post[i].0@ == k);
            }
            if has_key(post, k) {
                let i = choose|i: int| 0 <= i < post.len() && post[i].0@ == k;
                assert(i != n);
                assert(pre[i].0@ == k);
            }
        }
        assert forall|k: Seq<char>| k != key@ && has_key(pre, k) implies
            #[trigger] lookup(post, k) == lookup(pre, k) && key_index(post, k) == key_index(pre, k)
        by {
            let i = key_index(pre, k);
            assert(0 <= i < pre.len() && pre[i].0@ == k);
            assert(post[i].0@ == k);
            let i2 = key_index(post, k);
            assert(0 <= i2 < post.len() && post[i2].0@ == k);
            if i2 != i {
                if i2 == n {
                    assert(post[n].0@ == key@);
                } else {
                    assert(pre[i2].0@ == k);
                }
            }
        }
    }
}

impl HWJson {
    /// Both maps of the document carry pairwise-distinct names.
    pub open spec fn wf(&self) -> bool {
        unique_keys(self.defines@) && unique_keys(self.structs@)
    }

    /// An empty layout document for the given version.
    pub fn new(version: String) -> (r: HWJson)
        ensures
            r.wf(),
            r.version@ == version@,
            r.defines@.len() == 0,
            r.structs@.len() == 0,
    {
        HWJson { version, defines: Vec::new(), structs: Vec::new() }
    }
}

impl CJson {
    /// The definition map carries pairwise-distinct names.
    pub open spec fn wf(&self) -> bool {
        unique_keys(self.types@)
    }

    /// An empty definitions document for the given version.
    pub fn new(version: String) -> (r: CJson)
        ensures
            r.wf(),
            r.version@ == version@,
            r.types@.len() == 0,
    {
        CJson { version, types: Vec::new() }
    }
}

} // verus!

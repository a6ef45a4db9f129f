//! Shared metadata walk for the Mono runtimes.
//!
//! The Mono eras share one graph shape — a linked list of assemblies, a
//! per-image internal hash table of class definitions with per-bucket chains,
//! counted field arrays, and a static-field region placed right after a
//! class's VTable — while their byte layouts differ.  A `MonoLayout` value
//! carries one era's pointer width and struct offsets; every walk below is
//! specified and verified once over an arbitrary well-formed layout.

use vstd::prelude::*;
use vstd::string::StringSliceAdditionalSpecFns;
use crate::cname::{name_matches, trunc_nul, NAME_WINDOW};
use crate::mem::{
    sext32, si32, sptr, sread_bytes, sread_ptr, su32, wadd, wmul, ProcessMemory, TargetView,
    WalkOut, WALK_CAP,
};

verus! {

/// Pointer width and struct offsets of one Mono era.  All offsets are byte
/// offsets inside the era's target structs.
#[derive(Clone, Copy, PartialEq, Eq, Structural)]
pub struct MonoLayout {
    /// Byte width of a target pointer: 4 or 8.
    pub ptr: u64,
    /// Byte size of an assembly descriptor.
    pub asm_size: u64,
    /// Offset of the assembly's name pointer.
    pub asm_name: u64,
    /// Offset of the assembly's image pointer.
    pub asm_image: u64,
    /// Byte size of an image descriptor.
    pub img_size: u64,
    /// Offset of the class cache's bucket count (signed 32-bit).
    pub img_cc_size: u64,
    /// Offset of the class cache's bucket-table pointer.
    pub img_cc_table: u64,
    /// Byte size of a class definition.
    pub cdef_size: u64,
    /// Offset of the class's name pointer.
    pub cls_name: u64,
    /// Offset of the class's field-array pointer.
    pub cls_fields: u64,
    /// Offset of the class's parent pointer.
    pub cls_parent: u64,
    /// Offset of the class's runtime-info pointer.
    pub cls_runtime_info: u64,
    /// Offset of the class's VTable slot count (signed 32-bit).
    pub cls_vtable_size: u64,
    /// Offset of the class definition's field count (32-bit).
    pub cdef_field_count: u64,
    /// Offset of the class definition's cache-chain link.
    pub cdef_next: u64,
    /// Byte size of a field descriptor.
    pub field_size: u64,
    /// Offset of the field's name pointer.
    pub field_name: u64,
    /// Offset of the field's byte offset (signed 32-bit).
    pub field_offset: u64,
    /// Byte size of the class runtime-info header that is read.
    pub rti_size: u64,
    /// Offset of the runtime info's domain-VTables pointer.
    pub rti_vtables: u64,
    /// Byte size of a VTable header less one pointer: the advance from a
    /// VTable to its trailing method-pointer array, past whose end the
    /// static-field region sits.  A fragile coupling to the runtime's
    /// VTable layout, preserved as the metadata demands.
    pub vtable_tail: u64,
}

/// The offsets a walkable layout must satisfy: each decoded field lies
/// inside the bytes read for its struct, and the pointer width is 4 or 8.
pub open spec fn lay_wf(lay: MonoLayout) -> bool {
    &&& (lay.ptr == 4 || lay.ptr == 8)
    &&& lay.asm_name + lay.ptr <= lay.asm_size <= 0x10000
    &&& lay.asm_image + lay.ptr <= lay.asm_size
    &&& lay.img_cc_size + 4 <= lay.img_size <= 0x10000
    &&& lay.img_cc_table + lay.ptr <= lay.img_size
    &&& lay.cls_name + lay.ptr <= lay.cdef_size <= 0x10000
    &&& lay.cls_fields + lay.ptr <= lay.cdef_size
    &&& lay.cls_parent + lay.ptr <= lay.cdef_size
    &&& lay.cls_runtime_info + lay.ptr <= lay.cdef_size
    &&& lay.cls_vtable_size + 4 <= lay.cdef_size
    &&& lay.cdef_field_count + 4 <= lay.cdef_size
    &&& lay.cdef_next + lay.ptr <= lay.cdef_size
    &&& lay.field_name + lay.ptr <= lay.field_size <= 0x10000
    &&& lay.field_offset + 4 <= lay.field_size
    &&& lay.rti_vtables + lay.ptr <= lay.rti_size <= 0x10000
    &&& lay.vtable_tail < 0x1_0000_0000
}

/// One node of the assemblies list: its payload and its successor.
#[derive(Clone, Copy, PartialEq, Eq, Structural)]
pub struct GlistNode {
    /// Address of the node's assembly descriptor.
    pub data: u64,
    /// Address of the next node.
    pub next: u64,
}

/// The image fields the walk consumes: the class cache's bucket count and
/// bucket table.
#[derive(Clone, Copy, PartialEq, Eq, Structural)]
pub struct MonoImageData {
    /// Number of bucket slots in the image's class cache (as stored).
    pub cc_size: i32,
    /// Address of the bucket table.
    pub cc_table: u64,
}

/// The class-definition fields the walk consumes.
#[derive(Clone, Copy, PartialEq, Eq, Structural)]
pub struct MonoClassData {
    /// Address of the class's C-string name.
    pub name_ptr: u64,
    /// Address of the class's field-descriptor array.
    pub fields: u64,
    /// Address of the parent class definition.
    pub parent: u64,
    /// Address of the class's runtime info.
    pub runtime_info: u64,
    /// The class's VTable slot count (as stored).
    pub vtable_size: i32,
    /// Number of field descriptors.
    pub field_count: u32,
    /// Address of the next class definition in the same cache chain.
    pub next: u64,
}

/// The list node decoded from a node's bytes.
pub open spec fn spec_glist(lay: MonoLayout, gb: Seq<u8>) -> GlistNode {
    GlistNode { data: sptr(gb, 0, lay.ptr), next: sptr(gb, lay.ptr as int, lay.ptr) }
}

/// The image fields decoded from a descriptor's bytes.
pub open spec fn spec_image_data(lay: MonoLayout, ib: Seq<u8>) -> MonoImageData {
    MonoImageData {
        cc_size: si32(ib, lay.img_cc_size as int),
        cc_table: sptr(ib, lay.img_cc_table as int, lay.ptr),
    }
}

/// The class fields decoded from a class definition's bytes.
pub open spec fn spec_class_data(lay: MonoLayout, cb: Seq<u8>) -> MonoClassData {
    MonoClassData {
        name_ptr: sptr(cb, lay.cls_name as int, lay.ptr),
        fields: sptr(cb, lay.cls_fields as int, lay.ptr),
        parent: sptr(cb, lay.cls_parent as int, lay.ptr),
        runtime_info: sptr(cb, lay.cls_runtime_info as int, lay.ptr),
        vtable_size: si32(cb, lay.cls_vtable_size as int),
        field_count: su32(cb, lay.cdef_field_count as int),
        next: sptr(cb, lay.cdef_next as int, lay.ptr),
    }
}

/// Pointer-width address addition: 64-bit pointers wrap at the 64-bit
/// boundary, 32-bit pointers at the 32-bit boundary.
pub open spec fn spec_addr_add(a: u64, b: u64, w: u64) -> u64 {
    if w == 8 {
        wadd(a, b)
    } else {
        ((a + b) % 0x1_0000_0000) as u64
    }
}

/// Pointer-width address addition.
pub fn addr_add(a: u64, b: u64, w: u64) -> (r: u64)
    requires
        w == 4 || w == 8,
        a < 0x1_0000_0000 || w == 8,
        b < 0x1_0000_0000,
    ensures
        r == spec_addr_add(a, b, w),
{
    if w == 8 {
        a.wrapping_add(b)
    } else {
        let s = (a as u32).wrapping_add(b as u32);
        proof {
            assert(a + b == a as u32 + b as u32);
        }
        s as u64
    }
}

/// One step of the image search over the assemblies list, from the node
/// value `g`: a null payload or a failed read ends the search; a name match
/// materializes the image; otherwise the walk follows the `next` link.
pub open spec fn spec_glist_walk(
    v: TargetView,
    lay: MonoLayout,
    g: GlistNode,
    name: Seq<u8>,
    fuel: nat,
) -> WalkOut<Option<MonoImageData>>
    decreases fuel,
{
    if fuel == 0 {
        WalkOut::Short
    } else if g.data == 0 {
        WalkOut::Done(None)
    } else {
        match sread_bytes(v, g.data, lay.asm_size as nat) {
            None => WalkOut::Done(None),
            Some(ab) => match sread_bytes(
                v,
                sptr(ab, lay.asm_name as int, lay.ptr),
                NAME_WINDOW as nat,
            ) {
                None => WalkOut::Done(None),
                Some(w) => if trunc_nul(w) == name {
                    match sread_bytes(v, sptr(ab, lay.asm_image as int, lay.ptr), lay.img_size as nat) {
                        None => WalkOut::Done(None),
                        Some(ib) => WalkOut::Done(Some(spec_image_data(lay, ib))),
                    }
                } else {
                    match sread_bytes(v, g.next, (3 * lay.ptr) as nat) {
                        None => WalkOut::Done(None),
                        Some(gb) => spec_glist_walk(
                            v,
                            lay,
                            spec_glist(lay, gb),
                            name,
                            (fuel - 1) as nat,
                        ),
                    }
                },
            },
        }
    }
}

/// The image the assemblies list yields for the query `name`, entered by
/// reading the root pointer and then the first node; a walk that exhausts
/// the step bound (a cyclic list) is abandoned as not found.
pub open spec fn spec_get_image(v: TargetView, lay: MonoLayout, root: u64, name: Seq<u8>) -> Option<
    MonoImageData,
> {
    match sread_ptr(v, root, lay.ptr) {
        None => None,
        Some(p1) => match sread_bytes(v, p1, (3 * lay.ptr) as nat) {
            None => None,
            Some(gb) => match spec_glist_walk(v, lay, spec_glist(lay, gb), name, WALK_CAP as nat) {
                WalkOut::Done(x) => x,
                WalkOut::Short => None,
            },
        },
    }
}

/// The image search is a function of the snapshot alone: repeated
/// `get_image` on an unchanged target returns equal results.
pub proof fn lemma_get_image_deterministic(
    v1: TargetView,
    v2: TargetView,
    lay: MonoLayout,
    root: u64,
    name: Seq<u8>,
)
    requires
        v1.mem == v2.mem,
        v1.modules == v2.modules,
    ensures
        spec_get_image(v1, lay, root, name) == spec_get_image(v2, lay, root, name),
{
    assert(v1 == v2);
}

/// Walks the assemblies list for the image of the assembly named `name`.
#[verifier::loop_isolation(false)]
pub fn walk_get_image(p: &ProcessMemory, lay: &MonoLayout, root: u64, name: &str) -> (r: Option<
    MonoImageData,
>)
    requires
        lay_wf(*lay),
    ensures
        r == spec_get_image(p@, *lay, root, name.spec_bytes()),
{
    let ghost v = p@;
    let ghost nm = name.spec_bytes();
    let p1 = match p.read_ptr(root, lay.ptr) {
        Some(x) => x,
        None => {
            return None;
        },
    };
    let gb0 = match p.read_bytes(p1, (3 * lay.ptr) as usize) {
        Some(x) => x,
        None => {
            return None;
        },
    };
    let mut g = decode_glist(lay, &gb0);
    let mut k: u64 = 0;
    while k < WALK_CAP
        invariant
            k <= WALK_CAP,
            spec_glist_walk(v, *lay, spec_glist(*lay, gb0@), nm, WALK_CAP as nat)
                == spec_glist_walk(v, *lay, g, nm, (WALK_CAP - k) as nat),
        decreases WALK_CAP - k,
    {
        let ghost fuel = (WALK_CAP - k) as nat;
        if g.data == 0 {
            proof {
                assert(spec_glist_walk(v, *lay, g, nm, fuel) == WalkOut::Done(
                    None::<MonoImageData>,
                ));
            }
            return None;
        }
        let ab = match p.read_bytes(g.data, lay.asm_size as usize) {
            Some(x) => x,
            None => {
                proof {
                    assert(spec_glist_walk(v, *lay, g, nm, fuel) == WalkOut::Done(
                        None::<MonoImageData>,
                    ));
                }
                return None;
            },
        };
        let name_ptr = crate::mem::dptr(&ab, lay.asm_name as usize, lay.ptr);
        let w = match p.read_bytes(name_ptr, NAME_WINDOW) {
            Some(x) => x,
            None => {
                proof {
                    assert(spec_glist_walk(v, *lay, g, nm, fuel) == WalkOut::Done(
                        None::<MonoImageData>,
                    ));
                }
                return None;
            },
        };
        if name_matches(&w, name.as_bytes()) {
            let image_ptr = crate::mem::dptr(&ab, lay.asm_image as usize, lay.ptr);
            let ib = match p.read_bytes(image_ptr, lay.img_size as usize) {
                Some(x) => x,
                None => {
                    proof {
                        assert(spec_glist_walk(v, *lay, g, nm, fuel) == WalkOut::Done(
                            None::<MonoImageData>,
                        ));
                    }
                    return None;
                },
            };
            let img = MonoImageData {
                cc_size: crate::mem::di32(&ib, lay.img_cc_size as usize),
                cc_table: crate::mem::dptr(&ib, lay.img_cc_table as usize, lay.ptr),
            };
            proof {
                assert(img == spec_image_data(*lay, ib@));
                assert(spec_glist_walk(v, *lay, g, nm, fuel) == WalkOut::Done(
                    Some(spec_image_data(*lay, ib@)),
                ));
            }
            return Some(img);
        }
        let gb = match p.read_bytes(g.next, (3 * lay.ptr) as usize) {
            Some(x) => x,
            None => {
                proof {
                    assert(spec_glist_walk(v, *lay, g, nm, fuel) == WalkOut::Done(
                        None::<MonoImageData>,
                    ));
                }
                return None;
            },
        };
        let g2 = decode_glist(lay, &gb);
        proof {
            assert(spec_glist_walk(v, *lay, g, nm, fuel) == spec_glist_walk(
                v,
                *lay,
                spec_glist(*lay, gb@),
                nm,
                (fuel - 1) as nat,
            ));
        }
        g = g2;
        k = k + 1;
    }
    None
}

/// Decodes a list node out of its bytes.
fn decode_glist(lay: &MonoLayout, gb: &Vec<u8>) -> (r: GlistNode)
    requires
        lay_wf(*lay),
        gb@.len() == 3 * lay.ptr,
    ensures
        r == spec_glist(*lay, gb@),
{
    GlistNode {
        data: crate::mem::dptr(gb, 0, lay.ptr),
        next: crate::mem::dptr(gb, lay.ptr as usize, lay.ptr),
    }
}

/// Decodes the consumed class fields out of a class definition's bytes.
fn decode_class(lay: &MonoLayout, cb: &Vec<u8>) -> (r: MonoClassData)
    requires
        lay_wf(*lay),
        cb@.len() == lay.cdef_size,
    ensures
        r == spec_class_data(*lay, cb@),
{
    MonoClassData {
        name_ptr: crate::mem::dptr(cb, lay.cls_name as usize, lay.ptr),
        fields: crate::mem::dptr(cb, lay.cls_fields as usize, lay.ptr),
        parent: crate::mem::dptr(cb, lay.cls_parent as usize, lay.ptr),
        runtime_info: crate::mem::dptr(cb, lay.cls_runtime_info as usize, lay.ptr),
        vtable_size: crate::mem::di32(cb, lay.cls_vtable_size as usize),
        field_count: crate::mem::du32(cb, lay.cdef_field_count as usize),
        next: crate::mem::dptr(cb, lay.cdef_next as usize, lay.ptr),
    }
}

/// One step of a class-cache chain walk from the definition at address `c`:
/// a null link or an unreadable definition ends the chain; a readable name
/// window that truncates to `name`, on a class whose field array is
/// non-null, settles the search; anything else follows the chain link.
pub open spec fn spec_chain_walk(
    v: TargetView,
    lay: MonoLayout,
    c: u64,
    name: Seq<u8>,
    fuel: nat,
) -> WalkOut<Option<MonoClassData>>
    decreases fuel,
{
    if fuel == 0 {
        WalkOut::Short
    } else if c == 0 {
        WalkOut::Done(None)
    } else {
        match sread_bytes(v, c, lay.cdef_size as nat) {
            None => WalkOut::Done(None),
            Some(cb) => {
                let cd = spec_class_data(lay, cb);
                match sread_bytes(v, cd.name_ptr, NAME_WINDOW as nat) {
                    None => spec_chain_walk(v, lay, cd.next, name, (fuel - 1) as nat),
                    Some(w) => if trunc_nul(w) == name && cd.fields != 0 {
                        WalkOut::Done(Some(cd))
                    } else {
                        spec_chain_walk(v, lay, cd.next, name, (fuel - 1) as nat)
                    },
                }
            },
        }
    }
}

/// First match over the cache's buckets from index `i` on: each bucket's
/// head pointer is read (an unreadable slot counts as an empty bucket) and
/// its chain searched; a chain that exhausts the step bound (a cyclic
/// chain) abandons the whole search.
pub open spec fn spec_bucket_find(
    v: TargetView,
    lay: MonoLayout,
    table: u64,
    count: u64,
    i: u64,
    name: Seq<u8>,
) -> Option<MonoClassData>
    decreases count - i,
{
    if i >= count {
        None
    } else {
        let head = match sread_ptr(v, wadd(table, wmul(i, lay.ptr)), lay.ptr) {
            None => 0,
            Some(h) => h,
        };
        match spec_chain_walk(v, lay, head, name, WALK_CAP as nat) {
            WalkOut::Done(Some(c)) => Some(c),
            WalkOut::Done(None) => spec_bucket_find(v, lay, table, count, (i + 1) as u64, name),
            WalkOut::Short => None,
        }
    }
}

/// The class the cache yields for the query `name`: the bucket count is the
/// stored signed count widened as the walk widens it.
pub open spec fn spec_get_class(
    v: TargetView,
    lay: MonoLayout,
    img: MonoImageData,
    name: Seq<u8>,
) -> Option<MonoClassData> {
    spec_bucket_find(v, lay, img.cc_table, sext32(img.cc_size), 0, name)
}

/// Every class the chain walk settles on carries a non-null field array and
/// a name window that truncates to the query.
pub proof fn lemma_chain_found_matches(
    v: TargetView,
    lay: MonoLayout,
    c: u64,
    name: Seq<u8>,
    fuel: nat,
    cd: MonoClassData,
)
    requires
        spec_chain_walk(v, lay, c, name, fuel) == WalkOut::Done(Some(cd)),
    ensures
        cd.fields != 0,
        sread_bytes(v, cd.name_ptr, NAME_WINDOW as nat) is Some,
        trunc_nul(sread_bytes(v, cd.name_ptr, NAME_WINDOW as nat)->Some_0) == name,
    decreases fuel,
{
    if fuel > 0 && c != 0 {
        match sread_bytes(v, c, lay.cdef_size as nat) {
            None => {},
            Some(cb) => {
                let cd0 = spec_class_data(lay, cb);
                match sread_bytes(v, cd0.name_ptr, NAME_WINDOW as nat) {
                    None => {
                        lemma_chain_found_matches(v, lay, cd0.next, name, (fuel - 1) as nat, cd);
                    },
                    Some(w) => {
                        if !(trunc_nul(w) == name && cd0.fields != 0) {
                            lemma_chain_found_matches(
                                v,
                                lay,
                                cd0.next,
                                name,
                                (fuel - 1) as nat,
                                cd,
                            );
                        }
                    },
                }
            },
        }
    }
}

/// Every class the bucket search returns carries a non-null field array and
/// a name window that truncates to the query.
pub proof fn lemma_class_found_matches(
    v: TargetView,
    lay: MonoLayout,
    table: u64,
    count: u64,
    i: u64,
    name: Seq<u8>,
)
    requires
        spec_bucket_find(v, lay, table, count, i, name) is Some,
    ensures
        ({
            let cd = spec_bucket_find(v, lay, table, count, i, name)->Some_0;
            &&& cd.fields != 0
            &&& sread_bytes(v, cd.name_ptr, NAME_WINDOW as nat) is Some
            &&& trunc_nul(sread_bytes(v, cd.name_ptr, NAME_WINDOW as nat)->Some_0) == name
        }),
    decreases count - i,
{
    if i < count {
        let head = match sread_ptr(v, wadd(table, wmul(i, lay.ptr)), lay.ptr) {
            None => 0u64,
            Some(h) => h,
        };
        match spec_chain_walk(v, lay, head, name, WALK_CAP as nat) {
            WalkOut::Done(Some(cd)) => {
                lemma_chain_found_matches(v, lay, head, name, WALK_CAP as nat, cd);
            },
            WalkOut::Done(None) => {
                lemma_class_found_matches(v, lay, table, count, (i + 1) as u64, name);
            },
            WalkOut::Short => {},
        }
    }
}

/// Outcome of one bucket chain's search.
enum ChainHit {
    /// The chain settled on this class.
    Found(MonoClassData),
    /// The chain ended without a match.
    End,
    /// The chain exhausted the step bound.
    GaveUp,
}

/// Searches one cache chain for the query.
#[verifier::loop_isolation(false)]
fn chain_find(p: &ProcessMemory, lay: &MonoLayout, head: u64, name: &str) -> (r: ChainHit)
    requires
        lay_wf(*lay),
    ensures
        spec_chain_walk(p@, *lay, head, name.spec_bytes(), WALK_CAP as nat) == match r {
            ChainHit::Found(c) => WalkOut::Done(Some(c)),
            ChainHit::End => WalkOut::Done(None::<MonoClassData>),
            ChainHit::GaveUp => WalkOut::Short,
        },
{
    let ghost v = p@;
    let ghost nm = name.spec_bytes();
    let mut cur: u64 = head;
    let mut k: u64 = 0;
    while k < WALK_CAP
        invariant
            k <= WALK_CAP,
            spec_chain_walk(v, *lay, head, nm, WALK_CAP as nat) == spec_chain_walk(
                v,
                *lay,
                cur,
                nm,
                (WALK_CAP - k) as nat,
            ),
        decreases WALK_CAP - k,
    {
        let ghost fuel = (WALK_CAP - k) as nat;
        if cur == 0 {
            proof {
                assert(spec_chain_walk(v, *lay, cur, nm, fuel) == WalkOut::Done(
                    None::<MonoClassData>,
                ));
            }
            return ChainHit::End;
        }
        let cb = match p.read_bytes(cur, lay.cdef_size as usize) {
            Some(x) => x,
            None => {
                proof {
                    assert(spec_chain_walk(v, *lay, cur, nm, fuel) == WalkOut::Done(
                        None::<MonoClassData>,
                    ));
                }
                return ChainHit::End;
            },
        };
        let cd = decode_class(lay, &cb);
        match p.read_bytes(cd.name_ptr, NAME_WINDOW) {
            None => {
                proof {
                    assert(spec_chain_walk(v, *lay, cur, nm, fuel) == spec_chain_walk(
                        v,
                        *lay,
                        cd.next,
                        nm,
                        (fuel - 1) as nat,
                    ));
                }
                cur = cd.next;
                k = k + 1;
            },
            Some(w) => {
                if name_matches(&w, name.as_bytes()) && cd.fields != 0 {
                    proof {
                        assert(spec_chain_walk(v, *lay, cur, nm, fuel) == WalkOut::Done(Some(cd)));
                    }
                    return ChainHit::Found(cd);
                }
                proof {
                    assert(spec_chain_walk(v, *lay, cur, nm, fuel) == spec_chain_walk(
                        v,
                        *lay,
                        cd.next,
                        nm,
                        (fuel - 1) as nat,
                    ));
                }
                cur = cd.next;
                k = k + 1;
            },
        }
    }
    proof {
        assert(spec_chain_walk(v, *lay, cur, nm, 0) == WalkOut::Short::<Option<MonoClassData>>);
    }
    ChainHit::GaveUp
}

/// Searches the image's class cache for the first class named `name` whose
/// field array is non-null, bucket by bucket and chain by chain.
#[verifier::loop_isolation(false)]
pub fn walk_get_class(p: &ProcessMemory, lay: &MonoLayout, img: &MonoImageData, name: &str) -> (r:
    Option<MonoClassData>)
    requires
        lay_wf(*lay),
    ensures
        r == spec_get_class(p@, *lay, *img, name.spec_bytes()),
{
    let ghost v = p@;
    let ghost nm = name.spec_bytes();
    let table = img.cc_table;
    let count = crate::mem::sext(img.cc_size);
    let mut i: u64 = 0;
    while i < count
        invariant
            i <= count,
            count == sext32(img.cc_size),
            spec_bucket_find(v, *lay, table, count, 0, nm) == spec_bucket_find(
                v,
                *lay,
                table,
                count,
                i,
                nm,
            ),
        decreases count - i,
    {
        let head = match p.read_ptr(i.wrapping_mul(lay.ptr).wrapping_add(table), lay.ptr) {
            Some(h) => h,
            None => 0,
        };
        proof {
            assert(wadd(table, wmul(i, lay.ptr)) == i.wrapping_mul(lay.ptr).wrapping_add(table));
        }
        match chain_find(p, lay, head, name) {
            ChainHit::Found(c) => {
                return Some(c);
            },
            ChainHit::End => {},
            ChainHit::GaveUp => {
                return None;
            },
        }
        i = i + 1;
    }
    None
}

/// The chain's classes from the definition at address `c` on, in chain
/// order; an unreadable definition ends the chain, and the step bound cuts a
/// cyclic chain short.
pub open spec fn spec_chain_classes(v: TargetView, lay: MonoLayout, c: u64, fuel: nat) -> WalkOut<
    Seq<MonoClassData>,
>
    decreases fuel,
{
    if fuel == 0 {
        WalkOut::Short
    } else if c == 0 {
        WalkOut::Done(Seq::empty())
    } else {
        match sread_bytes(v, c, lay.cdef_size as nat) {
            None => WalkOut::Done(Seq::empty()),
            Some(cb) => {
                let cd = spec_class_data(lay, cb);
                match spec_chain_classes(v, lay, cd.next, (fuel - 1) as nat) {
                    WalkOut::Done(rest) => WalkOut::Done(seq![cd] + rest),
                    WalkOut::Short => WalkOut::Short,
                }
            },
        }
    }
}

/// `pre` prepended to a chain enumeration's outcome.
pub open spec fn chain_prepend(pre: Seq<MonoClassData>, w: WalkOut<Seq<MonoClassData>>) -> WalkOut<
    Seq<MonoClassData>,
> {
    match w {
        WalkOut::Done(s) => WalkOut::Done(pre + s),
        WalkOut::Short => WalkOut::Short,
    }
}

/// The cache's classes over buckets `i .. count`, bucket by bucket in chain
/// order; `None` when some chain exhausts the step bound.
pub open spec fn spec_bucket_classes(
    v: TargetView,
    lay: MonoLayout,
    table: u64,
    count: u64,
    i: u64,
) -> Option<Seq<MonoClassData>>
    decreases count - i,
{
    if i >= count {
        Some(Seq::empty())
    } else {
        let head = match sread_ptr(v, wadd(table, wmul(i, lay.ptr)), lay.ptr) {
            None => 0,
            Some(h) => h,
        };
        match spec_chain_classes(v, lay, head, WALK_CAP as nat) {
            WalkOut::Short => None,
            WalkOut::Done(cs) => match spec_bucket_classes(v, lay, table, count, (i + 1) as u64) {
                None => None,
                Some(rest) => Some(cs + rest),
            },
        }
    }
}

/// `pre` prepended to a cache enumeration's outcome.
pub open spec fn classes_prepend(pre: Seq<MonoClassData>, o: Option<Seq<MonoClassData>>) -> Option<
    Seq<MonoClassData>,
> {
    match o {
        None => None,
        Some(s) => Some(pre + s),
    }
}

/// Every class cached under the image, bucket by bucket and chain by chain.
pub open spec fn spec_classes(v: TargetView, lay: MonoLayout, img: MonoImageData) -> Option<
    Seq<MonoClassData>,
> {
    spec_bucket_classes(v, lay, img.cc_table, sext32(img.cc_size), 0)
}

/// One bucket chain's enumeration.
enum ChainList {
    /// The chain's classes, in order.
    Classes(Vec<MonoClassData>),
    /// The chain exhausted the step bound.
    GaveUp,
}

/// Materializes one cache chain.
#[verifier::loop_isolation(false)]
fn chain_classes(p: &ProcessMemory, lay: &MonoLayout, head: u64) -> (r: ChainList)
    requires
        lay_wf(*lay),
    ensures
        spec_chain_classes(p@, *lay, head, WALK_CAP as nat) == match r {
            ChainList::Classes(cs) => WalkOut::Done(cs@),
            ChainList::GaveUp => WalkOut::Short::<Seq<MonoClassData>>,
        },
{
    let ghost v = p@;
    let mut out: Vec<MonoClassData> = Vec::new();
    let mut cur: u64 = head;
    let mut k: u64 = 0;
    while k < WALK_CAP
        invariant
            k <= WALK_CAP,
            spec_chain_classes(v, *lay, head, WALK_CAP as nat) == chain_prepend(
                out@,
                spec_chain_classes(v, *lay, cur, (WALK_CAP - k) as nat),
            ),
        decreases WALK_CAP - k,
    {
        let ghost fuel = (WALK_CAP - k) as nat;
        if cur == 0 {
            proof {
                assert(spec_chain_classes(v, *lay, cur, fuel) == WalkOut::Done(
                    Seq::<MonoClassData>::empty(),
                ));
                assert(out@ + Seq::<MonoClassData>::empty() =~= out@);
            }
            return ChainList::Classes(out);
        }
        let cb = match p.read_bytes(cur, lay.cdef_size as usize) {
            Some(x) => x,
            None => {
                proof {
                    assert(spec_chain_classes(v, *lay, cur, fuel) == WalkOut::Done(
                        Seq::<MonoClassData>::empty(),
                    ));
                    assert(out@ + Seq::<MonoClassData>::empty() =~= out@);
                }
                return ChainList::Classes(out);
            },
        };
        let cd = decode_class(lay, &cb);
        let ghost o0 = out@;
        out.push(cd);
        proof {
            let chw = spec_chain_classes(v, *lay, cd.next, (fuel - 1) as nat);
            assert(spec_chain_classes(v, *lay, cur, fuel) == chain_prepend(seq![cd], chw));
            match chw {
                WalkOut::Done(s) => {
                    assert(o0 + (seq![cd] + s) =~= out@ + s);
                },
                WalkOut::Short => {},
            }
        }
        cur = cd.next;
        k = k + 1;
    }
    proof {
        assert(spec_chain_classes(v, *lay, cur, 0) == WalkOut::Short::<Seq<MonoClassData>>);
    }
    ChainList::GaveUp
}

/// Materializes every class cached under the image, bucket by bucket and
/// chain by chain; `None` when some chain is cyclic.
#[verifier::loop_isolation(false)]
pub fn walk_classes(p: &ProcessMemory, lay: &MonoLayout, img: &MonoImageData) -> (r: Option<
    Vec<MonoClassData>,
>)
    requires
        lay_wf(*lay),
    ensures
        match r {
            Some(cs) => spec_classes(p@, *lay, *img) == Some(cs@),
            None => spec_classes(p@, *lay, *img) is None,
        },
{
    let ghost v = p@;
    let table = img.cc_table;
    let count = crate::mem::sext(img.cc_size);
    let mut acc: Vec<MonoClassData> = Vec::new();
    let mut i: u64 = 0;
    while i < count
        invariant
            i <= count,
            count == sext32(img.cc_size),
            spec_bucket_classes(v, *lay, table, count, 0) == classes_prepend(
                acc@,
                spec_bucket_classes(v, *lay, table, count, i),
            ),
        decreases count - i,
    {
        let head = match p.read_ptr(i.wrapping_mul(lay.ptr).wrapping_add(table), lay.ptr) {
            Some(h) => h,
            None => 0,
        };
        proof {
            assert(wadd(table, wmul(i, lay.ptr)) == i.wrapping_mul(lay.ptr).wrapping_add(table));
        }
        match chain_classes(p, lay, head) {
            ChainList::Classes(mut cs) => {
                let ghost a0 = acc@;
                let ghost c0 = cs@;
                acc.append(&mut cs);
                proof {
                    let rest = spec_bucket_classes(v, *lay, table, count, (i + 1) as u64);
                    assert(spec_bucket_classes(v, *lay, table, count, i) == classes_prepend(
                        c0,
                        rest,
                    ));
                    match rest {
                        Some(s) => {
                            assert(a0 + (c0 + s) =~= acc@ + s);
                        },
                        None => {},
                    }
                }
            },
            ChainList::GaveUp => {
                return None;
            },
        }
        i = i + 1;
    }
    proof {
        assert(spec_bucket_classes(v, *lay, table, count, i) == Some(Seq::<MonoClassData>::empty()));
        assert(acc@ + Seq::<MonoClassData>::empty() =~= acc@);
    }
    Some(acc)
}

/// The field descriptor at entry `i` of the class's field array, when its
/// bytes are readable.
pub open spec fn field_at(v: TargetView, lay: MonoLayout, fields: u64, i: u64) -> Option<
    MonoClassField,
> {
    match sread_bytes(v, wadd(fields, wmul(i, lay.field_size)), lay.field_size as nat) {
        None => None,
        Some(fb) => Some(
            MonoClassField {
                name_ptr: sptr(fb, lay.field_name as int, lay.ptr),
                offset: si32(fb, lay.field_offset as int),
            },
        ),
    }
}

/// The field descriptors of entries `i .. count`, in array order,
/// unreadable entries skipped.
pub open spec fn spec_fields(
    v: TargetView,
    lay: MonoLayout,
    fields: u64,
    count: u64,
    i: u64,
) -> Seq<MonoClassField>
    decreases count - i,
{
    if i >= count {
        Seq::empty()
    } else {
        match field_at(v, lay, fields, i) {
            Some(f) => seq![f] + spec_fields(v, lay, fields, count, (i + 1) as u64),
            None => spec_fields(v, lay, fields, count, (i + 1) as u64),
        }
    }
}

/// A field descriptor's consumed fields, decoded from the descriptor's
/// bytes.
#[derive(Clone, Copy, PartialEq, Eq, Structural)]
pub struct MonoClassField {
    /// Address of the field's C-string name.
    pub name_ptr: u64,
    /// The field's byte offset inside its class, as stored.
    pub offset: i32,
}

/// Materializes the class's field descriptors in array order; unreadable
/// entries are skipped.
#[verifier::loop_isolation(false)]
pub fn walk_fields(p: &ProcessMemory, lay: &MonoLayout, c: &MonoClassData) -> (r: Vec<
    MonoClassField,
>)
    requires
        lay_wf(*lay),
    ensures
        r@ == spec_fields(p@, *lay, c.fields, c.field_count as u64, 0),
{
    let ghost v = p@;
    let fields = c.fields;
    let count = c.field_count as u64;
    let mut out: Vec<MonoClassField> = Vec::new();
    let mut i: u64 = 0;
    while i < count
        invariant
            i <= count,
            spec_fields(v, *lay, fields, count, 0) == out@ + spec_fields(
                v,
                *lay,
                fields,
                count,
                i,
            ),
        decreases count - i,
    {
        let ghost o0 = out@;
        match p.read_bytes(i.wrapping_mul(lay.field_size).wrapping_add(fields), lay.field_size as usize) {
            None => {
                proof {
                    assert(wadd(fields, wmul(i, lay.field_size)) == i.wrapping_mul(
                        lay.field_size,
                    ).wrapping_add(fields));
                    assert(field_at(v, *lay, fields, i) is None);
                }
            },
            Some(fb) => {
                let f = MonoClassField {
                    name_ptr: crate::mem::dptr(&fb, lay.field_name as usize, lay.ptr),
                    offset: crate::mem::di32(&fb, lay.field_offset as usize),
                };
                out.push(f);
                proof {
                    assert(wadd(fields, wmul(i, lay.field_size)) == i.wrapping_mul(
                        lay.field_size,
                    ).wrapping_add(fields));
                    assert(field_at(v, *lay, fields, i) == Some(f));
                    assert(out@ + spec_fields(v, *lay, fields, count, (i + 1) as u64) =~= o0 + (
                    seq![f] + spec_fields(v, *lay, fields, count, (i + 1) as u64)));
                }
            },
        }
        i = i + 1;
    }
    proof {
        assert(spec_fields(v, *lay, fields, count, 0) =~= out@);
    }
    out
}

/// The field candidate at entry `i` of the class's field array: the entry's
/// stored offset when its descriptor and name window are readable and the
/// truncated name equals the query.
pub open spec fn field_match_at(
    v: TargetView,
    lay: MonoLayout,
    fields: u64,
    i: u64,
    name: Seq<u8>,
) -> Option<i32> {
    match sread_bytes(v, wadd(fields, wmul(i, lay.field_size)), lay.field_size as nat) {
        None => None,
        Some(fb) => match sread_bytes(
            v,
            sptr(fb, lay.field_name as int, lay.ptr),
            NAME_WINDOW as nat,
        ) {
            None => None,
            Some(w) => if trunc_nul(w) == name {
                Some(si32(fb, lay.field_offset as int))
            } else {
                None
            },
        },
    }
}

/// First field candidate among entries `i .. count`.
pub open spec fn spec_find_field(
    v: TargetView,
    lay: MonoLayout,
    fields: u64,
    count: u64,
    i: u64,
    name: Seq<u8>,
) -> Option<i32>
    decreases count - i,
{
    if i >= count {
        None
    } else {
        match field_match_at(v, lay, fields, i, name) {
            Some(off) => Some(off),
            None => spec_find_field(v, lay, fields, count, (i + 1) as u64, name),
        }
    }
}

/// Every offset the field search returns belongs to a field entry inside the
/// class's array whose name equals the query.
pub proof fn lemma_field_offset_witness(
    v: TargetView,
    lay: MonoLayout,
    fields: u64,
    count: u64,
    i: u64,
    name: Seq<u8>,
)
    requires
        spec_find_field(v, lay, fields, count, i, name) is Some,
    ensures
        exists|j: u64|
            i <= j < count && #[trigger] field_match_at(v, lay, fields, j, name) == spec_find_field(
                v,
                lay,
                fields,
                count,
                i,
                name,
            ),
    decreases count - i,
{
    if i < count {
        if field_match_at(v, lay, fields, i, name) is Some {
        } else {
            lemma_field_offset_witness(v, lay, fields, count, (i + 1) as u64, name);
        }
    }
}

/// Finds the byte offset of the field named `name` inside the class's field
/// array; unreadable entries are skipped.
#[verifier::loop_isolation(false)]
pub fn walk_get_field(p: &ProcessMemory, lay: &MonoLayout, c: &MonoClassData, name: &str) -> (r:
    Option<u64>)
    requires
        lay_wf(*lay),
    ensures
        r == match spec_find_field(
            p@,
            *lay,
            c.fields,
            c.field_count as u64,
            0,
            name.spec_bytes(),
        ) {
            Some(off) => Some(sext32(off)),
            None => None,
        },
{
    let ghost v = p@;
    let ghost nm = name.spec_bytes();
    let fields = c.fields;
    let count = c.field_count as u64;
    let mut i: u64 = 0;
    while i < count
        invariant
            i <= count,
            spec_find_field(v, *lay, fields, count, 0, nm) == spec_find_field(
                v,
                *lay,
                fields,
                count,
                i,
                nm,
            ),
        decreases count - i,
    {
        match p.read_bytes(i.wrapping_mul(lay.field_size).wrapping_add(fields), lay.field_size as usize) {
            None => {
                proof {
                    assert(wadd(fields, wmul(i, lay.field_size)) == i.wrapping_mul(
                        lay.field_size,
                    ).wrapping_add(fields));
                    assert(field_match_at(v, *lay, fields, i, nm) is None);
                }
            },
            Some(fb) => {
                proof {
                    assert(wadd(fields, wmul(i, lay.field_size)) == i.wrapping_mul(
                        lay.field_size,
                    ).wrapping_add(fields));
                }
                let fname = crate::mem::dptr(&fb, lay.field_name as usize, lay.ptr);
                match p.read_bytes(fname, NAME_WINDOW) {
                    None => {
                        proof {
                            assert(field_match_at(v, *lay, fields, i, nm) is None);
                        }
                    },
                    Some(w) => {
                        if name_matches(&w, name.as_bytes()) {
                            let off = crate::mem::di32(&fb, lay.field_offset as usize);
                            proof {
                                assert(field_match_at(v, *lay, fields, i, nm) == Some(
                                    si32(fb@, lay.field_offset as int),
                                ));
                            }
                            return Some(crate::mem::sext(off));
                        }
                        proof {
                            assert(field_match_at(v, *lay, fields, i, nm) is None);
                        }
                    },
                }
            },
        }
        i = i + 1;
    }
    None
}

/// The class's static-field storage address: the runtime info's first
/// domain VTable, advanced past the VTable header to its method-pointer
/// array, indexed by the class's VTable slot count, and dereferenced; null
/// anywhere along the way yields `None`.
pub open spec fn spec_static_table(v: TargetView, lay: MonoLayout, c: MonoClassData) -> Option<
    u64,
> {
    match sread_bytes(v, c.runtime_info, lay.rti_size as nat) {
        None => None,
        Some(rb) => {
            let dv = sptr(rb, lay.rti_vtables as int, lay.ptr);
            let a1 = spec_addr_add(dv, lay.vtable_tail, lay.ptr);
            let a2 = wadd(a1, wmul(sext32(c.vtable_size), lay.ptr));
            match sread_ptr(v, a2, lay.ptr) {
                None => None,
                Some(st) => if st == 0 {
                    None
                } else {
                    Some(st)
                },
            }
        },
    }
}

/// Resolves the class's static-field storage address.
pub fn walk_static_table(p: &ProcessMemory, lay: &MonoLayout, c: &MonoClassData) -> (r: Option<
    u64,
>)
    requires
        lay_wf(*lay),
    ensures
        r == spec_static_table(p@, *lay, *c),
{
    let rb = match p.read_bytes(c.runtime_info, lay.rti_size as usize) {
        Some(x) => x,
        None => {
            return None;
        },
    };
    let dv = crate::mem::dptr(&rb, lay.rti_vtables as usize, lay.ptr);
    proof {
        if lay.ptr == 4 {
            assert(dv < 0x1_0000_0000);
        }
    }
    let a1 = addr_add(dv, lay.vtable_tail, lay.ptr);
    let a2 = crate::mem::sext(c.vtable_size).wrapping_mul(lay.ptr).wrapping_add(a1);
    proof {
        assert(a2 == wadd(a1, wmul(sext32(c.vtable_size), lay.ptr)));
    }
    match p.read_ptr(a2, lay.ptr) {
        None => None,
        Some(st) => {
            if st == 0 {
                None
            } else {
                Some(st)
            }
        },
    }
}

/// Materializes the parent class definition; `None` when the parent pointer
/// is null or the definition cannot be read.
pub open spec fn spec_parent(v: TargetView, lay: MonoLayout, c: MonoClassData) -> Option<
    MonoClassData,
> {
    if c.parent == 0 {
        None
    } else {
        match sread_bytes(v, c.parent, lay.cdef_size as nat) {
            None => None,
            Some(cb) => Some(spec_class_data(lay, cb)),
        }
    }
}

/// Materializes the parent class definition; `None` when the parent pointer
/// is null or the definition cannot be read.
pub fn walk_parent(p: &ProcessMemory, lay: &MonoLayout, c: &MonoClassData) -> (r: Option<
    MonoClassData,
>)
    requires
        lay_wf(*lay),
    ensures
        r == spec_parent(p@, *lay, *c),
{
    if c.parent == 0 {
        return None;
    }
    match p.read_bytes(c.parent, lay.cdef_size as usize) {
        None => None,
        Some(cb) => Some(decode_class(lay, &cb)),
    }
}

} // verus!

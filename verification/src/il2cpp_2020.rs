//! Walker for the IL2CPP runtime of the Unity 2020 era and later.
//!
//! Attachment scans `GameAssembly.dll` for the two instructions that
//! reference the assemblies array and the type-info definition table, and
//! decodes their RIP-relative operands.  Images are found by walking the
//! flat assemblies array slot by slot until the first null slot; classes are
//! the image's span of the type-info definition table; fields are a counted
//! array of descriptors.  All struct offsets below are the byte layout this
//! era ships.

use vstd::prelude::*;
use vstd::string::StringSliceAdditionalSpecFns;
use crate::cname::{name_matches, trunc_nul, NAME_WINDOW};
use crate::mem::{
    module_span, sext32, sread_bytes, sread_i32, sread_u64, su16, su32, su64, wadd, wadds, wmul,
    ProcessMemory, TargetView, WalkOut, WALK_CAP,
};
use crate::sig::{
    sig_il2cpp_assemblies, sig_il2cpp_assemblies_spec, sig_il2cpp_type_table,
    sig_il2cpp_type_table_spec, spec_scan,
};

verus! {

/// Byte size of an assembly descriptor.
pub const ASM_SIZE: u64 = 88;

/// Offset of the image pointer inside an assembly descriptor.
pub const ASM_IMAGE: u64 = 0;

/// Offset of the name pointer (inside the embedded assembly name).
pub const ASM_NAME: u64 = 24;

/// Byte size of an image descriptor.
pub const IMG_SIZE: u64 = 72;

/// Offset of the image's class count.
pub const IMG_TYPE_COUNT: u64 = 24;

/// Offset of the pointer to the image's metadata handle.
pub const IMG_METADATA_HANDLE: u64 = 40;

/// Byte size of a class descriptor.
pub const CLS_SIZE: u64 = 312;

/// Offset of the class's name pointer.
pub const CLS_NAME: u64 = 16;

/// Offset of the class's parent pointer.
pub const CLS_PARENT: u64 = 88;

/// Offset of the class's field-array pointer.
pub const CLS_FIELDS: u64 = 128;

/// Offset of the class's static-field storage pointer.
pub const CLS_STATIC_FIELDS: u64 = 184;

/// Offset of the class's field count.
pub const CLS_FIELD_COUNT: u64 = 288;

/// Byte size of a field descriptor.
pub const FIELD_SIZE: u64 = 32;

/// Offset of the field's name pointer.
pub const FIELD_NAME: u64 = 0;

/// Offset of the field's byte offset inside its class.
pub const FIELD_OFFSET: u64 = 24;

/// The fields of an image descriptor that the walker consumes, decoded from
/// the descriptor's full byte span.
#[derive(Clone, Copy, PartialEq, Eq, Structural)]
pub struct MonoImage {
    /// Number of classes the image declares.
    pub type_count: u32,
    /// Address of the image's metadata handle (a 32-bit index).
    pub metadata_handle: u64,
}

/// The fields of a class descriptor that the walker consumes, decoded from
/// the descriptor's full byte span.
#[derive(Clone, Copy, PartialEq, Eq, Structural)]
pub struct MonoClass {
    /// Address of the class's C-string name.
    pub name_ptr: u64,
    /// Address of the parent class descriptor.
    pub parent: u64,
    /// Address of the class's field-descriptor array.
    pub fields: u64,
    /// Address of the class's static-field storage.
    pub static_fields: u64,
    /// Number of field descriptors.
    pub field_count: u16,
}

/// The image fields decoded from a descriptor's bytes.
pub open spec fn spec_image(ib: Seq<u8>) -> MonoImage {
    MonoImage { type_count: su32(ib, IMG_TYPE_COUNT as int), metadata_handle: su64(ib, IMG_METADATA_HANDLE as int) }
}

/// The class fields decoded from a descriptor's bytes.
pub open spec fn spec_class(cb: Seq<u8>) -> MonoClass {
    MonoClass {
        name_ptr: su64(cb, CLS_NAME as int),
        parent: su64(cb, CLS_PARENT as int),
        fields: su64(cb, CLS_FIELDS as int),
        static_fields: su64(cb, CLS_STATIC_FIELDS as int),
        field_count: su16(cb, CLS_FIELD_COUNT as int),
    }
}

/// The two roots that attachment resolves out of `GameAssembly.dll`: the
/// assemblies array and the type-info definition table, each found by a
/// pattern scan followed by a RIP-relative decode and one pointer read.
pub open spec fn spec_attach(v: TargetView) -> Option<(u64, u64)> {
    match module_span(v.modules, ("GameAssembly.dll").spec_bytes()) {
        None => None,
        Some((base, size)) => match spec_scan(v, sig_il2cpp_assemblies_spec(), base, size) {
            None => None,
            Some(a) => match sread_i32(v, wadd(a, 12)) {
                None => None,
                Some(d) => match sread_u64(v, wadds(wadd(wadd(a, 12), 4), d as i64)) {
                    None => None,
                    Some(assemblies) => match spec_scan(
                        v,
                        sig_il2cpp_type_table_spec(),
                        base,
                        size,
                    ) {
                        None => None,
                        Some(b) => match sread_i32(v, wadds(b, -4i64)) {
                            None => None,
                            Some(d2) => match sread_u64(
                                v,
                                wadds(wadd(wadds(b, -4i64), 4), d2 as i64),
                            ) {
                                None => None,
                                Some(tidt) => Some((assemblies, tidt)),
                            },
                        },
                    },
                },
            },
        },
    }
}

/// One step of the image search, from the array slot at address `slot`: a
/// null slot or any failed read ends the search; a name match materializes
/// the image; otherwise the walk moves one slot up.
pub open spec fn spec_image_walk(v: TargetView, slot: u64, name: Seq<u8>, fuel: nat) -> WalkOut<
    Option<MonoImage>,
>
    decreases fuel,
{
    if fuel == 0 {
        WalkOut::Short
    } else {
        match sread_u64(v, slot) {
            None => WalkOut::Done(None),
            Some(ptr) => if ptr == 0 {
                WalkOut::Done(None)
            } else {
                match sread_bytes(v, ptr, ASM_SIZE as nat) {
                    None => WalkOut::Done(None),
                    Some(ab) => match sread_bytes(v, su64(ab, ASM_NAME as int), NAME_WINDOW as nat) {
                        None => WalkOut::Done(None),
                        Some(w) => if trunc_nul(w) == name {
                            match sread_bytes(v, su64(ab, ASM_IMAGE as int), IMG_SIZE as nat) {
                                None => WalkOut::Done(None),
                                Some(ib) => WalkOut::Done(Some(spec_image(ib))),
                            }
                        } else {
                            spec_image_walk(v, wadd(slot, 8), name, (fuel - 1) as nat)
                        },
                    },
                }
            },
        }
    }
}

/// The image the assemblies walk settles on, starting at the array slot
/// `root`: a walk that exhausts the step bound (a cyclic array) is abandoned
/// as not found.
pub open spec fn spec_get_image(v: TargetView, root: u64, name: Seq<u8>) -> Option<MonoImage> {
    match spec_image_walk(v, root, name, WALK_CAP as nat) {
        WalkOut::Done(x) => x,
        WalkOut::Short => None,
    }
}

/// The image search is a function of the snapshot alone: repeated
/// `get_image` on an unchanged target returns equal results.
pub proof fn lemma_get_image_deterministic(v1: TargetView, v2: TargetView, root: u64, name: Seq<u8>)
    requires
        v1.mem == v2.mem,
        v1.modules == v2.modules,
    ensures
        spec_get_image(v1, root, name) == spec_get_image(v2, root, name),
{
    assert(v1 == v2);
}

/// A null slot terminates the image search at once, whatever the query.
pub proof fn lemma_null_slot_ends_walk(v: TargetView, slot: u64, name: Seq<u8>, fuel: nat)
    requires
        sread_u64(v, slot) == Some(0u64),
        fuel >= 1,
    ensures
        spec_image_walk(v, slot, name, fuel) == WalkOut::Done(None::<MonoImage>),
{
}

/// A field descriptor's consumed fields, decoded from the descriptor's
/// bytes.
#[derive(Clone, Copy, PartialEq, Eq, Structural)]
pub struct MonoClassField {
    /// Address of the field's C-string name.
    pub name_ptr: u64,
    /// The field's byte offset inside its class, as stored.
    pub offset: i32,
}

/// The field descriptor decoded from entry `i` of the field array, when its
/// bytes are readable.
pub open spec fn field_at(v: TargetView, fields: u64, i: u64) -> Option<MonoClassField> {
    match sread_bytes(v, wadd(fields, wmul(i, FIELD_SIZE)), FIELD_SIZE as nat) {
        None => None,
        Some(fb) => Some(
            MonoClassField { name_ptr: su64(fb, FIELD_NAME as int), offset: si32_of(fb) },
        ),
    }
}

/// The class materialized from slot `i` of the image's table span, when the
/// slot is non-null and the descriptor readable.
pub open spec fn class_slot_at(v: TargetView, base: u64, i: u64) -> Option<MonoClass> {
    match sread_u64(v, wadd(base, wmul(i, 8))) {
        None => None,
        Some(cp) => if cp == 0 {
            None
        } else {
            match sread_bytes(v, cp, CLS_SIZE as nat) {
                None => None,
                Some(cb) => Some(spec_class(cb)),
            }
        },
    }
}

/// The classes of slots `i .. count`, in slot order, null and unreadable
/// slots skipped; a count of zero yields no classes.
pub open spec fn spec_classes(v: TargetView, base: u64, count: u64, i: u64) -> Seq<MonoClass>
    decreases count - i,
{
    if i >= count {
        Seq::empty()
    } else {
        match class_slot_at(v, base, i) {
            Some(c) => seq![c] + spec_classes(v, base, count, (i + 1) as u64),
            None => spec_classes(v, base, count, (i + 1) as u64),
        }
    }
}

/// The field descriptors of entries `i .. count`, in array order,
/// unreadable entries skipped.
pub open spec fn spec_fields(v: TargetView, fields: u64, count: u64, i: u64) -> Seq<MonoClassField>
    decreases count - i,
{
    if i >= count {
        Seq::empty()
    } else {
        match field_at(v, fields, i) {
            Some(f) => seq![f] + spec_fields(v, fields, count, (i + 1) as u64),
            None => spec_fields(v, fields, count, (i + 1) as u64),
        }
    }
}

/// The class candidate at slot `i` of the image's table span: `Some` only
/// when the slot is non-null, the descriptor and its name window are
/// readable, the truncated name equals the query, and the field array is
/// non-null.  Read failures and null slots yield no candidate.
pub open spec fn class_match_at(v: TargetView, base: u64, i: u64, name: Seq<u8>) -> Option<
    MonoClass,
> {
    match sread_u64(v, wadd(base, wmul(i, 8))) {
        None => None,
        Some(cp) => if cp == 0 {
            None
        } else {
            match sread_bytes(v, cp, CLS_SIZE as nat) {
                None => None,
                Some(cb) => {
                    let c = spec_class(cb);
                    match sread_bytes(v, c.name_ptr, NAME_WINDOW as nat) {
                        None => None,
                        Some(w) => if trunc_nul(w) == name && c.fields != 0 {
                            Some(c)
                        } else {
                            None
                        },
                    }
                },
            }
        },
    }
}

/// First class candidate among slots `i .. count`.
pub open spec fn spec_find_class(
    v: TargetView,
    base: u64,
    count: u64,
    i: u64,
    name: Seq<u8>,
) -> Option<MonoClass>
    decreases count - i,
{
    if i >= count {
        None
    } else {
        match class_match_at(v, base, i, name) {
            Some(c) => Some(c),
            None => spec_find_class(v, base, count, (i + 1) as u64, name),
        }
    }
}

/// The parent class a descriptor leads to: a null parent pointer yields
/// nothing, and so does an unreadable parent descriptor.
pub open spec fn spec_parent(v: TargetView, c: MonoClass) -> Option<MonoClass> {
    if c.parent == 0 {
        None
    } else {
        match sread_bytes(v, c.parent, CLS_SIZE as nat) {
            None => None,
            Some(cb) => Some(spec_class(cb)),
        }
    }
}

/// The class the image yields for the query `name`: the image's metadata
/// handle indexes the type-info definition table at `tidt`, and the image's
/// span of that table is searched in slot order.
pub open spec fn spec_get_class(v: TargetView, tidt: u64, img: MonoImage, name: Seq<u8>) -> Option<
    MonoClass,
> {
    match sread_i32(v, img.metadata_handle) {
        None => None,
        Some(h) => spec_find_class(
            v,
            wadd(tidt, wmul(sext32(h), 8)),
            img.type_count as u64,
            0,
            name,
        ),
    }
}

/// Every class the search returns carries a non-null field array and a name
/// window that truncates to the query.
pub proof fn lemma_class_found_matches(v: TargetView, base: u64, count: u64, i: u64, name: Seq<u8>)
    requires
        spec_find_class(v, base, count, i, name) is Some,
    ensures
        ({
            let c = spec_find_class(v, base, count, i, name)->Some_0;
            &&& c.fields != 0
            &&& sread_bytes(v, c.name_ptr, NAME_WINDOW as nat) is Some
            &&& trunc_nul(sread_bytes(v, c.name_ptr, NAME_WINDOW as nat)->Some_0) == name
        }),
    decreases count - i,
{
    if i < count {
        if class_match_at(v, base, i, name) is Some {
        } else {
            lemma_class_found_matches(v, base, count, (i + 1) as u64, name);
        }
    }
}

/// An image that declares no classes yields no class, whatever the query.
pub proof fn lemma_no_types_no_class(v: TargetView, base: u64, i: u64, name: Seq<u8>)
    ensures
        spec_find_class(v, base, 0, i, name) is None,
{
}

/// The field candidate at entry `i` of the class's field array: the entry's
/// offset when its descriptor and name window are readable and the truncated
/// name equals the query.
pub open spec fn field_match_at(v: TargetView, fields: u64, i: u64, name: Seq<u8>) -> Option<i32> {
    match sread_bytes(v, wadd(fields, wmul(i, FIELD_SIZE)), FIELD_SIZE as nat) {
        None => None,
        Some(fb) => match sread_bytes(v, su64(fb, FIELD_NAME as int), NAME_WINDOW as nat) {
            None => None,
            Some(w) => if trunc_nul(w) == name {
                Some(si32_of(fb))
            } else {
                None
            },
        },
    }
}

/// The field descriptor's offset value, decoded as a signed 32-bit field.
pub open spec fn si32_of(fb: Seq<u8>) -> i32 {
    crate::mem::si32(fb, FIELD_OFFSET as int)
}

/// First field candidate among entries `i .. count`.
pub open spec fn spec_find_field(
    v: TargetView,
    fields: u64,
    count: u64,
    i: u64,
    name: Seq<u8>,
) -> Option<i32>
    decreases count - i,
{
    if i >= count {
        None
    } else {
        match field_match_at(v, fields, i, name) {
            Some(off) => Some(off),
            None => spec_find_field(v, fields, count, (i + 1) as u64, name),
        }
    }
}

/// Every offset the field search returns belongs to a field entry inside the
/// class's array whose name equals the query.
pub proof fn lemma_field_offset_witness(
    v: TargetView,
    fields: u64,
    count: u64,
    i: u64,
    name: Seq<u8>,
)
    requires
        spec_find_field(v, fields, count, i, name) is Some,
    ensures
        exists|j: u64|
            i <= j < count && #[trigger] field_match_at(v, fields, j, name) == spec_find_field(
                v,
                fields,
                count,
                i,
                name,
            ),
    decreases count - i,
{
    if i < count {
        if field_match_at(v, fields, i, name) is Some {
        } else {
            lemma_field_offset_witness(v, fields, count, (i + 1) as u64, name);
        }
    }
}

/// Attachment to an IL2CPP 2020-era target: the snapshot plus the two roots
/// resolved from `GameAssembly.dll`.
pub struct MonoModule<'a> {
    process: &'a ProcessMemory,
    assemblies: u64,
    type_info_definition_table: u64,
}

/// An image materialized by `get_image`, bound to its attachment.
pub struct MonoImageContainer<'a> {
    mono_module: &'a MonoModule<'a>,
    mono_image: MonoImage,
}

/// A class materialized by `get_class` or `get_parent`, bound to its
/// attachment.
pub struct MonoClassContainer<'a> {
    mono_module: &'a MonoModule<'a>,
    mono_class: MonoClass,
}

impl<'a> MonoModule<'a> {
    /// The snapshot this attachment reads.
    pub closed spec fn proc(&self) -> TargetView {
        self.process@
    }

    /// Address of the first slot of the assemblies array.
    pub closed spec fn assemblies_root(&self) -> u64 {
        self.assemblies
    }

    /// Base address of the type-info definition table.
    pub closed spec fn type_table(&self) -> u64 {
        self.type_info_definition_table
    }

    /// Resolves the two metadata roots out of `GameAssembly.dll`.
    pub fn attach(process: &'a ProcessMemory) -> (r: Option<MonoModule<'a>>)
        ensures
            match r {
                Some(m) => {
                    &&& m.proc() == process@
                    &&& spec_attach(process@) == Some((m.assemblies_root(), m.type_table()))
                },
                None => spec_attach(process@) is None,
            },
    {
        let (base, size) = match process.get_module_range("GameAssembly.dll") {
            Some(x) => x,
            None => {
                return None;
            },
        };
        let sig_a = sig_il2cpp_assemblies();
        let a = match sig_a.scan(process, base, size) {
            Some(a) => a,
            None => {
                return None;
            },
        };
        let a12 = a.wrapping_add(12);
        let d = match process.read_i32(a12) {
            Some(d) => d,
            None => {
                return None;
            },
        };
        let assemblies = match process.read_u64(a12.wrapping_add(4).wrapping_add_signed(d as i64)) {
            Some(x) => x,
            None => {
                return None;
            },
        };
        let sig_t = sig_il2cpp_type_table();
        let b = match sig_t.scan(process, base, size) {
            Some(b) => b,
            None => {
                return None;
            },
        };
        let b4 = b.wrapping_add_signed(-4);
        let d2 = match process.read_i32(b4) {
            Some(d2) => d2,
            None => {
                return None;
            },
        };
        let tidt = match process.read_u64(b4.wrapping_add(4).wrapping_add_signed(d2 as i64)) {
            Some(x) => x,
            None => {
                return None;
            },
        };
        Some(MonoModule { process, assemblies, type_info_definition_table: tidt })
    }

    /// Walks the assemblies array for the image of the assembly named
    /// `assembly_name`; the first null slot ends the search.
    #[verifier::loop_isolation(false)]
    pub fn get_image(&self, assembly_name: &str) -> (r: Option<MonoImageContainer<'_>>)
        ensures
            match r {
                Some(c) => {
                    &&& spec_get_image(self.proc(), self.assemblies_root(), assembly_name.spec_bytes())
                        == Some(c.image())
                    &&& c.proc() == self.proc()
                    &&& c.type_table() == self.type_table()
                },
                None => spec_get_image(self.proc(), self.assemblies_root(), assembly_name.spec_bytes())
                    is None,
            },
    {
        let ghost v = self.proc();
        let ghost nm = assembly_name.spec_bytes();
        let ghost root = self.assemblies;
        let mut slot: u64 = self.assemblies;
        let mut k: u64 = 0;
        while k < WALK_CAP
            invariant
                k <= WALK_CAP,
                spec_image_walk(v, root, nm, WALK_CAP as nat) == spec_image_walk(
                    v,
                    slot,
                    nm,
                    (WALK_CAP - k) as nat,
                ),
            decreases WALK_CAP - k,
        {
            let ghost fuel = (WALK_CAP - k) as nat;
            let ptr = match self.process.read_u64(slot) {
                Some(x) => x,
                None => {
                    proof {
                        assert(spec_image_walk(v, slot, nm, fuel) == WalkOut::Done(
                            None::<MonoImage>,
                        ));
                    }
                    return None;
                },
            };
            if ptr == 0 {
                proof {
                    assert(spec_image_walk(v, slot, nm, fuel) == WalkOut::Done(None::<MonoImage>));
                }
                return None;
            }
            let ab = match self.process.read_bytes(ptr, ASM_SIZE as usize) {
                Some(x) => x,
                None => {
                    proof {
                        assert(spec_image_walk(v, slot, nm, fuel) == WalkOut::Done(
                            None::<MonoImage>,
                        ));
                    }
                    return None;
                },
            };
            let name_ptr = crate::mem::du64(&ab, ASM_NAME as usize);
            let w = match self.process.read_bytes(name_ptr, NAME_WINDOW) {
                Some(x) => x,
                None => {
                    proof {
                        assert(spec_image_walk(v, slot, nm, fuel) == WalkOut::Done(
                            None::<MonoImage>,
                        ));
                    }
                    return None;
                },
            };
            if name_matches(&w, assembly_name.as_bytes()) {
                let image_ptr = crate::mem::du64(&ab, ASM_IMAGE as usize);
                let ib = match self.process.read_bytes(image_ptr, IMG_SIZE as usize) {
                    Some(x) => x,
                    None => {
                        proof {
                            assert(spec_image_walk(v, slot, nm, fuel) == WalkOut::Done(
                                None::<MonoImage>,
                            ));
                        }
                        return None;
                    },
                };
                let img = MonoImage {
                    type_count: crate::mem::du32(&ib, IMG_TYPE_COUNT as usize),
                    metadata_handle: crate::mem::du64(&ib, IMG_METADATA_HANDLE as usize),
                };
                proof {
                    assert(img == spec_image(ib@));
                    assert(spec_image_walk(v, slot, nm, fuel) == WalkOut::Done(
                        Some(spec_image(ib@)),
                    ));
                }
                return Some(MonoImageContainer { mono_module: self, mono_image: img });
            }
            proof {
                assert(spec_image_walk(v, slot, nm, fuel) == spec_image_walk(
                    v,
                    wadd(slot, 8),
                    nm,
                    (fuel - 1) as nat,
                ));
            }
            slot = slot.wrapping_add(8);
            k = k + 1;
        }
        proof {
            assert(spec_image_walk(v, slot, nm, 0) == WalkOut::Short::<Option<MonoImage>>);
        }
        None
    }
}

impl<'a> MonoImageContainer<'a> {
    /// The snapshot this image was read from.
    pub closed spec fn proc(&self) -> TargetView {
        self.mono_module.proc()
    }

    /// Base address of the type-info definition table of the attachment.
    pub closed spec fn type_table(&self) -> u64 {
        self.mono_module.type_table()
    }

    /// The materialized image fields.
    pub closed spec fn image(&self) -> MonoImage {
        self.mono_image
    }

    /// Materializes every class of the image's span of the type-info
    /// definition table, in slot order; null and unreadable slots are
    /// skipped.  Fails only when the image's metadata handle cannot be read.
    #[verifier::loop_isolation(false)]
    pub fn classes(&self) -> (r: Option<Vec<MonoClass>>)
        ensures
            match sread_i32(self.proc(), self.image().metadata_handle) {
                None => r is None,
                Some(h) => match r {
                    Some(cs) => cs@ == spec_classes(
                        self.proc(),
                        wadd(self.type_table(), wmul(sext32(h), 8)),
                        self.image().type_count as u64,
                        0,
                    ),
                    None => false,
                },
            },
    {
        let ghost v = self.proc();
        let h = match self.mono_module.process.read_i32(self.mono_image.metadata_handle) {
            Some(h) => h,
            None => {
                return None;
            },
        };
        let base = self.mono_module.type_info_definition_table.wrapping_add(
            crate::mem::sext(h).wrapping_mul(8),
        );
        let count = self.mono_image.type_count as u64;
        let mut out: Vec<MonoClass> = Vec::new();
        let mut i: u64 = 0;
        while i < count
            invariant
                i <= count,
                spec_classes(v, base, count, 0) == out@ + spec_classes(v, base, count, i),
            decreases count - i,
        {
            let ghost o0 = out@;
            match self.mono_module.process.read_u64(i.wrapping_mul(8).wrapping_add(base)) {
                None => {
                    proof {
                        assert(wadd(base, wmul(i, 8)) == i.wrapping_mul(8).wrapping_add(base));
                        assert(class_slot_at(v, base, i) is None);
                    }
                },
                Some(cp) => {
                    if cp != 0 {
                        match self.mono_module.process.read_bytes(cp, CLS_SIZE as usize) {
                            None => {
                                proof {
                                    assert(class_slot_at(v, base, i) is None);
                                }
                            },
                            Some(cb) => {
                                let c = decode_class(&cb);
                                out.push(c);
                                proof {
                                    assert(class_slot_at(v, base, i) == Some(c));
                                    assert(out@ + spec_classes(v, base, count, (i + 1) as u64)
                                        =~= o0 + (seq![c] + spec_classes(
                                        v,
                                        base,
                                        count,
                                        (i + 1) as u64,
                                    )));
                                }
                            },
                        }
                    } else {
                        proof {
                            assert(class_slot_at(v, base, i) is None);
                        }
                    }
                },
            }
            i = i + 1;
        }
        proof {
            assert(spec_classes(v, base, count, 0) =~= out@);
        }
        Some(out)
    }

    /// Finds the first class named `class_name` with a non-null field array,
    /// among the image's span of the type-info definition table; null slots
    /// and unreadable descriptors are skipped.
    #[verifier::loop_isolation(false)]
    pub fn get_class(&self, class_name: &str) -> (r: Option<MonoClassContainer<'a>>)
        ensures
            ({
                let res = spec_get_class(
                    self.proc(),
                    self.type_table(),
                    self.image(),
                    class_name.spec_bytes(),
                );
                match r {
                    Some(c) => res == Some(c.class()) && c.proc() == self.proc() && c.type_table()
                        == self.type_table(),
                    None => res is None,
                }
            }),
    {
        let ghost v = self.proc();
        let ghost nm = class_name.spec_bytes();
        let h = match self.mono_module.process.read_i32(self.mono_image.metadata_handle) {
            Some(h) => h,
            None => {
                return None;
            },
        };
        let base = self.mono_module.type_info_definition_table.wrapping_add(
            crate::mem::sext(h).wrapping_mul(8),
        );
        let count = self.mono_image.type_count as u64;
        let mut i: u64 = 0;
        while i < count
            invariant
                i <= count,
                spec_find_class(v, base, count, 0, nm) == spec_find_class(v, base, count, i, nm),
            decreases count - i,
        {
            match self.mono_module.process.read_u64(i.wrapping_mul(8).wrapping_add(base)) {
                None => {
                    proof {
                        assert(wadd(base, wmul(i, 8)) == i.wrapping_mul(8).wrapping_add(base));
                        assert(class_match_at(v, base, i, nm) is None);
                    }
                },
                Some(cp) => {
                    if cp != 0 {
                        match self.mono_module.process.read_bytes(cp, CLS_SIZE as usize) {
                            None => {
                                proof {
                                    assert(class_match_at(v, base, i, nm) is None);
                                }
                            },
                            Some(cb) => {
                                let c = decode_class(&cb);
                                match self.mono_module.process.read_bytes(c.name_ptr, NAME_WINDOW) {
                                    None => {
                                        proof {
                                            assert(class_match_at(v, base, i, nm) is None);
                                        }
                                    },
                                    Some(w) => {
                                        if name_matches(&w, class_name.as_bytes()) && c.fields != 0
                                         {
                                            proof {
                                                assert(class_match_at(v, base, i, nm) == Some(c));
                                            }
                                            return Some(
                                                MonoClassContainer {
                                                    mono_module: self.mono_module,
                                                    mono_class: c,
                                                },
                                            );
                                        }
                                        proof {
                                            assert(class_match_at(v, base, i, nm) is None);
                                        }
                                    },
                                }
                            },
                        }
                    } else {
                        proof {
                            assert(class_match_at(v, base, i, nm) is None);
                        }
                    }
                },
            }
            i = i + 1;
        }
        None
    }
}

/// Decodes the consumed class fields out of a descriptor's bytes.
fn decode_class(cb: &Vec<u8>) -> (r: MonoClass)
    requires
        cb@.len() == CLS_SIZE,
    ensures
        r == spec_class(cb@),
{
    MonoClass {
        name_ptr: crate::mem::du64(cb, CLS_NAME as usize),
        parent: crate::mem::du64(cb, CLS_PARENT as usize),
        fields: crate::mem::du64(cb, CLS_FIELDS as usize),
        static_fields: crate::mem::du64(cb, CLS_STATIC_FIELDS as usize),
        field_count: crate::mem::du16(cb, CLS_FIELD_COUNT as usize),
    }
}

impl<'a> MonoClassContainer<'a> {
    /// The snapshot this class was read from.
    pub closed spec fn proc(&self) -> TargetView {
        self.mono_module.proc()
    }

    /// Base address of the type-info definition table of the attachment.
    pub closed spec fn type_table(&self) -> u64 {
        self.mono_module.type_table()
    }

    /// The materialized class fields.
    pub closed spec fn class(&self) -> MonoClass {
        self.mono_class
    }

    /// Materializes the class's field descriptors in array order; unreadable
    /// entries are skipped.
    #[verifier::loop_isolation(false)]
    pub fn fields(&self) -> (r: Vec<MonoClassField>)
        ensures
            r@ == spec_fields(
                self.proc(),
                self.class().fields,
                self.class().field_count as u64,
                0,
            ),
    {
        let ghost v = self.proc();
        let fields = self.mono_class.fields;
        let count = self.mono_class.field_count as u64;
        let mut out: Vec<MonoClassField> = Vec::new();
        let mut i: u64 = 0;
        while i < count
            invariant
                i <= count,
                spec_fields(v, fields, count, 0) == out@ + spec_fields(v, fields, count, i),
            decreases count - i,
        {
            let ghost o0 = out@;
            match self.mono_module.process.read_bytes(
                i.wrapping_mul(FIELD_SIZE).wrapping_add(fields),
                FIELD_SIZE as usize,
            ) {
                None => {
                    proof {
                        assert(wadd(fields, wmul(i, FIELD_SIZE)) == i.wrapping_mul(
                            FIELD_SIZE,
                        ).wrapping_add(fields));
                        assert(field_at(v, fields, i) is None);
                    }
                },
                Some(fb) => {
                    let f = MonoClassField {
                        name_ptr: crate::mem::du64(&fb, FIELD_NAME as usize),
                        offset: crate::mem::di32(&fb, FIELD_OFFSET as usize),
                    };
                    out.push(f);
                    proof {
                        assert(wadd(fields, wmul(i, FIELD_SIZE)) == i.wrapping_mul(
                            FIELD_SIZE,
                        ).wrapping_add(fields));
                        assert(field_at(v, fields, i) == Some(f));
                        assert(out@ + spec_fields(v, fields, count, (i + 1) as u64) =~= o0 + (seq![
                            f,
                        ] + spec_fields(v, fields, count, (i + 1) as u64)));
                    }
                },
            }
            i = i + 1;
        }
        proof {
            assert(spec_fields(v, fields, count, 0) =~= out@);
        }
        out
    }

    /// Finds the byte offset of the field named `name`, walking the class's
    /// field array in order; unreadable entries are skipped.  The stored
    /// signed offset is returned sign-extended to 64 bits.
    #[verifier::loop_isolation(false)]
    pub fn get_field(&self, name: &str) -> (r: Option<u64>)
        ensures
            r == match spec_find_field(
                self.proc(),
                self.class().fields,
                self.class().field_count as u64,
                0,
                name.spec_bytes(),
            ) {
                Some(off) => Some(sext32(off)),
                None => None,
            },
    {
        let ghost v = self.proc();
        let ghost nm = name.spec_bytes();
        let fields = self.mono_class.fields;
        let count = self.mono_class.field_count as u64;
        let mut i: u64 = 0;
        while i < count
            invariant
                i <= count,
                spec_find_field(v, fields, count, 0, nm) == spec_find_field(v, fields, count, i, nm),
            decreases count - i,
        {
            match self.mono_module.process.read_bytes(
                i.wrapping_mul(FIELD_SIZE).wrapping_add(fields),
                FIELD_SIZE as usize,
            ) {
                None => {
                    proof {
                        assert(wadd(fields, wmul(i, FIELD_SIZE)) == i.wrapping_mul(
                            FIELD_SIZE,
                        ).wrapping_add(fields));
                        assert(field_match_at(v, fields, i, nm) is None);
                    }
                },
                Some(fb) => {
                    let fname = crate::mem::du64(&fb, FIELD_NAME as usize);
                    match self.mono_module.process.read_bytes(fname, NAME_WINDOW) {
                        None => {
                            proof {
                                assert(field_match_at(v, fields, i, nm) is None);
                            }
                        },
                        Some(w) => {
                            if name_matches(&w, name.as_bytes()) {
                                let off = crate::mem::di32(&fb, FIELD_OFFSET as usize);
                                proof {
                                    assert(field_match_at(v, fields, i, nm) == Some(si32_of(fb@)));
                                }
                                return Some(crate::mem::sext(off));
                            }
                            proof {
                                assert(field_match_at(v, fields, i, nm) is None);
                            }
                        },
                    }
                },
            }
            i = i + 1;
        }
        None
    }

    /// The class's static-field storage address, `None` when the class has
    /// none.
    pub fn get_static_table(&self) -> (r: Option<u64>)
        ensures
            r == if self.class().static_fields == 0 {
                None
            } else {
                Some(self.class().static_fields)
            },
    {
        if self.mono_class.static_fields == 0 {
            None
        } else {
            Some(self.mono_class.static_fields)
        }
    }

    /// Materializes the parent class descriptor; `None` when the parent
    /// pointer is null or the descriptor cannot be read.
    pub fn get_parent(&self) -> (r: Option<MonoClassContainer<'a>>)
        ensures
            ({
                let res = spec_parent(self.proc(), self.class());
                match r {
                    Some(c) => res == Some(c.class()) && c.proc() == self.proc() && c.type_table()
                        == self.type_table(),
                    None => res is None,
                }
            }),
    {
        if self.mono_class.parent == 0 {
            return None;
        }
        match self.mono_module.process.read_bytes(self.mono_class.parent, CLS_SIZE as usize) {
            None => None,
            Some(cb) => {
                let c = decode_class(&cb);
                Some(MonoClassContainer { mono_module: self.mono_module, mono_class: c })
            },
        }
    }
}

} // verus!

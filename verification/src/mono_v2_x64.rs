//! Walker for the Mono era 2 runtime, 64-bit.
//!
//! Attachment resolves the loaded-assemblies global out of
//! `mono-2.0-bdwgc.dll` through its export table and a pattern scan; the
//! metadata walk itself is the shared Mono walk, instantiated with this
//! era's pointer width and struct offsets.

use vstd::prelude::*;
use vstd::string::StringSliceAdditionalSpecFns;
use crate::mem::{module_span, sread_i32, wadd, wadds, ProcessMemory, TargetView};
use crate::mono_walk::{
    lay_wf, spec_classes, spec_fields, spec_find_field, spec_get_class, spec_get_image,
    spec_parent, spec_static_table, walk_classes, walk_fields, walk_get_class, walk_get_field,
    walk_get_image, walk_parent, walk_static_table, MonoClassData, MonoClassField, MonoImageData,
    MonoLayout,
};
use crate::pe::{find_export, spec_find_export};
use crate::sig::{sig_mono_64, sig_mono_64_spec, spec_scan};

verus! {

/// This era's pointer width and struct offsets.
pub open spec fn layout_spec() -> MonoLayout {
    MonoLayout {
        ptr: 8,
        asm_size: 104,
        asm_name: 16,
        asm_image: 96,
        img_size: 1256,
        img_cc_size: 1240,
        img_cc_table: 1248,
        cdef_size: 272,
        cls_name: 72,
        cls_fields: 152,
        cls_parent: 48,
        cls_runtime_info: 208,
        cls_vtable_size: 92,
        cdef_field_count: 256,
        cdef_next: 264,
        field_size: 32,
        field_name: 8,
        field_offset: 24,
        rti_size: 16,
        rti_vtables: 8,
        vtable_tail: 64,
    }
}

/// This era's pointer width and struct offsets.
pub fn layout() -> (r: MonoLayout)
    ensures
        r == layout_spec(),
        lay_wf(r),
{
    MonoLayout {
        ptr: 8,
        asm_size: 104,
        asm_name: 16,
        asm_image: 96,
        img_size: 1256,
        img_cc_size: 1240,
        img_cc_table: 1248,
        cdef_size: 272,
        cls_name: 72,
        cls_fields: 152,
        cls_parent: 48,
        cls_runtime_info: 208,
        cls_vtable_size: 92,
        cdef_field_count: 256,
        cdef_next: 264,
        field_size: 32,
        field_name: 8,
        field_offset: 24,
        rti_size: 16,
        rti_vtables: 8,
        vtable_tail: 64,
    }
}

/// The root that attachment resolves: the address of the loaded-assemblies
/// global, found by following the exported `mono_assembly_foreach`, scanning
/// its first 0x100 bytes for the rcx-load pattern, and decoding the
/// RIP-relative operand 3 bytes past the match.
pub open spec fn spec_attach(v: TargetView) -> Option<u64> {
    match module_span(v.modules, ("mono-2.0-bdwgc.dll").spec_bytes()) {
        None => None,
        Some((base, _size)) => match spec_find_export(
            v,
            base,
            true,
            ("mono_assembly_foreach").spec_bytes(),
        ) {
            None => None,
            Some(fa) => match spec_scan(v, sig_mono_64_spec(), fa, 0x100) {
                None => None,
                Some(m) => match sread_i32(v, wadd(m, 3)) {
                    None => None,
                    Some(d) => Some(wadds(wadd(wadd(m, 3), 4), d as i64)),
                },
            },
        },
    }
}

/// Attachment to a Mono era 2 64-bit target: the snapshot plus the
/// loaded-assemblies root.
pub struct MonoModule<'a> {
    process: &'a ProcessMemory,
    assemblies: u64,
}

/// An image materialized by `get_image`, bound to its attachment.
pub struct MonoImageContainer<'a> {
    mono_module: &'a MonoModule<'a>,
    mono_image: MonoImageData,
}

/// A class materialized by `get_class` or `get_parent`, bound to its
/// attachment.
pub struct MonoClassContainer<'a> {
    mono_module: &'a MonoModule<'a>,
    mono_class: MonoClassData,
}

impl<'a> MonoModule<'a> {
    /// The snapshot this attachment reads.
    pub closed spec fn proc(&self) -> TargetView {
        self.process@
    }

    /// Address of the loaded-assemblies global.
    pub closed spec fn root(&self) -> u64 {
        self.assemblies
    }

    /// Resolves the loaded-assemblies root out of `mono-2.0-bdwgc.dll`.
    pub fn attach(process: &'a ProcessMemory) -> (r: Option<MonoModule<'a>>)
        ensures
            match r {
                Some(m) => m.proc() == process@ && spec_attach(process@) == Some(m.root()),
                None => spec_attach(process@) is None,
            },
    {
        let base = match process.get_module_address("mono-2.0-bdwgc.dll") {
            Some(x) => x,
            None => {
                return None;
            },
        };
        let fa = match find_export(process, base, true, "mono_assembly_foreach") {
            Some(x) => x,
            None => {
                return None;
            },
        };
        let sig = sig_mono_64();
        let m = match sig.scan(process, fa, 0x100) {
            Some(x) => x,
            None => {
                return None;
            },
        };
        let sa = m.wrapping_add(3);
        let d = match process.read_i32(sa) {
            Some(x) => x,
            None => {
                return None;
            },
        };
        let root = sa.wrapping_add(4).wrapping_add_signed(d as i64);
        Some(MonoModule { process, assemblies: root })
    }

    /// Walks the assemblies list for the image of the assembly named
    /// `assembly_name`.
    pub fn get_image(&self, assembly_name: &str) -> (r: Option<MonoImageContainer<'_>>)
        ensures
            match r {
                Some(c) => {
                    &&& spec_get_image(self.proc(), layout_spec(), self.root(), assembly_name.spec_bytes())
                        == Some(c.image())
                    &&& c.proc() == self.proc()
                },
                None => spec_get_image(self.proc(), layout_spec(), self.root(), assembly_name.spec_bytes())
                    is None,
            },
    {
        let lay = layout();
        match walk_get_image(self.process, &lay, self.assemblies, assembly_name) {
            Some(img) => Some(MonoImageContainer { mono_module: self, mono_image: img }),
            None => None,
        }
    }
}

impl<'a> MonoImageContainer<'a> {
    /// The snapshot this image was read from.
    pub closed spec fn proc(&self) -> TargetView {
        self.mono_module.proc()
    }

    /// The materialized image fields.
    pub closed spec fn image(&self) -> MonoImageData {
        self.mono_image
    }

    /// Materializes every class cached under the image, bucket by bucket and
    /// chain by chain; `None` when some chain is cyclic.
    pub fn classes(&self) -> (r: Option<Vec<MonoClassData>>)
        ensures
            match r {
                Some(cs) => spec_classes(self.proc(), layout_spec(), self.image()) == Some(cs@),
                None => spec_classes(self.proc(), layout_spec(), self.image()) is None,
            },
    {
        let lay = layout();
        walk_classes(self.mono_module.process, &lay, &self.mono_image)
    }

    /// Finds the first class named `class_name` with a non-null field array
    /// in the image's class cache.
    pub fn get_class(&self, class_name: &str) -> (r: Option<MonoClassContainer<'a>>)
        ensures
            ({
                let res = spec_get_class(self.proc(), layout_spec(), self.image(), class_name.spec_bytes());
                match r {
                    Some(c) => res == Some(c.class()) && c.proc() == self.proc(),
                    None => res is None,
                }
            }),
    {
        let lay = layout();
        match walk_get_class(self.mono_module.process, &lay, &self.mono_image, class_name) {
            Some(c) => Some(MonoClassContainer { mono_module: self.mono_module, mono_class: c }),
            None => None,
        }
    }
}

impl<'a> MonoClassContainer<'a> {
    /// The snapshot this class was read from.
    pub closed spec fn proc(&self) -> TargetView {
        self.mono_module.proc()
    }

    /// The materialized class fields.
    pub closed spec fn class(&self) -> MonoClassData {
        self.mono_class
    }

    /// Materializes the class's field descriptors in array order; unreadable
    /// entries are skipped.
    pub fn fields(&self) -> (r: Vec<MonoClassField>)
        ensures
            r@ == spec_fields(
                self.proc(),
                layout_spec(),
                self.class().fields,
                self.class().field_count as u64,
                0,
            ),
    {
        let lay = layout();
        walk_fields(self.mono_module.process, &lay, &self.mono_class)
    }

    /// Finds the byte offset of the field named `name`; the stored signed
    /// offset is returned sign-extended to 64 bits.
    pub fn get_field(&self, name: &str) -> (r: Option<u64>)
        ensures
            r == match spec_find_field(
                self.proc(),
                layout_spec(),
                self.class().fields,
                self.class().field_count as u64,
                0,
                name.spec_bytes(),
            ) {
                Some(off) => Some(crate::mem::sext32(off)),
                None => None,
            },
    {
        let lay = layout();
        walk_get_field(self.mono_module.process, &lay, &self.mono_class, name)
    }

    /// The class's static-field storage address: the region placed right
    /// after its VTable's method-pointer array.
    pub fn get_static_table(&self) -> (r: Option<u64>)
        ensures
            r == spec_static_table(self.proc(), layout_spec(), self.class()),
    {
        let lay = layout();
        walk_static_table(self.mono_module.process, &lay, &self.mono_class)
    }

    /// Materializes the parent class definition; `None` when it cannot be
    /// read (a null parent included).
    pub fn get_parent(&self) -> (r: Option<MonoClassContainer<'a>>)
        ensures
            ({
                let res = spec_parent(self.proc(), layout_spec(), self.class());
                match r {
                    Some(c) => res == Some(c.class()) && c.proc() == self.proc(),
                    None => res is None,
                }
            }),
    {
        let lay = layout();
        match walk_parent(self.mono_module.process, &lay, &self.mono_class) {
            Some(c) => Some(MonoClassContainer { mono_module: self.mono_module, mono_class: c }),
            None => None,
        }
    }
}

} // verus!

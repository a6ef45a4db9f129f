//! Polymorphic façade over the per-variant walkers.
//!
//! A `UnityManager` is a tagged union over the walkers this library ships;
//! every method dispatches on the tag and its contract defers to the
//! dispatched walker's specification.  An attachment built for a variant
//! always carries that variant's tag.

use vstd::prelude::*;
use vstd::string::StringSliceAdditionalSpecFns;
use crate::cname::{trunc_nul, NAME_WINDOW};
use crate::il2cpp_2020;
use crate::mem::{sread_bytes, sread_i32, wadd, wmul, ProcessMemory, TargetView};
use crate::mono_v2_x64;
use crate::mono_v2_x86;
use crate::mono_walk;
use crate::version::{detect_version, spec_detect_version, MonoVersion};

verus! {

/// An attachment to a target process: one of the supported walkers, tagged
/// by its runtime variant.
#[allow(non_camel_case_types)]
pub enum UnityManager<'a> {
    /// Mono era 2 on a 32-bit target.
    MonoV2_x86(mono_v2_x86::MonoModule<'a>),
    /// Mono era 2 on a 64-bit target.
    MonoV2_x64(mono_v2_x64::MonoModule<'a>),
    /// IL2CPP of the Unity 2020 era.
    Il2Cpp_2020(il2cpp_2020::MonoModule<'a>),
}

/// An image found inside an attached target.
#[allow(non_camel_case_types)]
pub enum MonoImage<'a> {
    /// Mono era 2 on a 32-bit target.
    MonoV2_x86(mono_v2_x86::MonoImageContainer<'a>),
    /// Mono era 2 on a 64-bit target.
    MonoV2_x64(mono_v2_x64::MonoImageContainer<'a>),
    /// IL2CPP of the Unity 2020 era.
    Il2Cpp_2020(il2cpp_2020::MonoImageContainer<'a>),
}

/// A class found inside an attached target.
#[allow(non_camel_case_types)]
pub enum MonoClass<'a> {
    /// Mono era 2 on a 32-bit target.
    MonoV2_x86(mono_v2_x86::MonoClassContainer<'a>),
    /// Mono era 2 on a 64-bit target.
    MonoV2_x64(mono_v2_x64::MonoClassContainer<'a>),
    /// IL2CPP of the Unity 2020 era.
    Il2Cpp_2020(il2cpp_2020::MonoClassContainer<'a>),
}

/// Whether `version` is a variant this library ships a walker for, and its
/// walker's attachment succeeds on the snapshot.
pub open spec fn spec_attach_some(v: TargetView, version: MonoVersion) -> bool {
    match version {
        MonoVersion::MonoV2_x86 => mono_v2_x86::spec_attach(v) is Some,
        MonoVersion::MonoV2_x64 => mono_v2_x64::spec_attach(v) is Some,
        MonoVersion::Il2Cpp_2020_x64 => il2cpp_2020::spec_attach(v) is Some,
        _ => false,
    }
}

impl<'a> UnityManager<'a> {
    /// The variant tag this attachment carries.
    pub open spec fn version(&self) -> MonoVersion {
        match self {
            UnityManager::MonoV2_x86(_) => MonoVersion::MonoV2_x86,
            UnityManager::MonoV2_x64(_) => MonoVersion::MonoV2_x64,
            UnityManager::Il2Cpp_2020(_) => MonoVersion::Il2Cpp_2020_x64,
        }
    }

    /// The attachment reads the snapshot `v` and carries exactly the roots
    /// that its walker's attachment resolves out of `v`.
    pub open spec fn inv(&self, v: TargetView) -> bool {
        match self {
            UnityManager::MonoV2_x86(w) => w.proc() == v && mono_v2_x86::spec_attach(v) == Some(
                w.root(),
            ),
            UnityManager::MonoV2_x64(w) => w.proc() == v && mono_v2_x64::spec_attach(v) == Some(
                w.root(),
            ),
            UnityManager::Il2Cpp_2020(w) => w.proc() == v && il2cpp_2020::spec_attach(v) == Some(
                (w.assemblies_root(), w.type_table()),
            ),
        }
    }

    /// The image lookup's outcome, as the dispatched walker's specification
    /// gives it.
    pub open spec fn get_image_post(&self, name: Seq<u8>, r: Option<MonoImage<'a>>) -> bool {
        match self {
            UnityManager::MonoV2_x86(w) => {
                let res = mono_walk::spec_get_image(
                    w.proc(),
                    mono_v2_x86::layout_spec(),
                    w.root(),
                    name,
                );
                match r {
                    Some(MonoImage::MonoV2_x86(c)) => res == Some(c.image()) && c.proc()
                        == w.proc(),
                    Some(_) => false,
                    None => res is None,
                }
            },
            UnityManager::MonoV2_x64(w) => {
                let res = mono_walk::spec_get_image(
                    w.proc(),
                    mono_v2_x64::layout_spec(),
                    w.root(),
                    name,
                );
                match r {
                    Some(MonoImage::MonoV2_x64(c)) => res == Some(c.image()) && c.proc()
                        == w.proc(),
                    Some(_) => false,
                    None => res is None,
                }
            },
            UnityManager::Il2Cpp_2020(w) => {
                let res = il2cpp_2020::spec_get_image(w.proc(), w.assemblies_root(), name);
                match r {
                    Some(MonoImage::Il2Cpp_2020(c)) => res == Some(c.image()) && c.proc()
                        == w.proc() && c.type_table() == w.type_table(),
                    Some(_) => false,
                    None => res is None,
                }
            },
        }
    }

    /// Detects the target's runtime variant, then attaches its walker.
    pub fn try_attach(process: &'a ProcessMemory) -> (r: Option<UnityManager<'a>>)
        ensures
            match spec_detect_version(process@) {
                None => r is None,
                Some(ver) => match r {
                    Some(m) => m.version() == ver && m.inv(process@),
                    None => !spec_attach_some(process@, ver),
                },
            },
    {
        let version = match detect_version(process) {
            Some(v) => v,
            None => {
                return None;
            },
        };
        Self::attach(process, version)
    }

    /// Attaches the walker of the given variant; an attachment, when one is
    /// returned, always carries the variant it was asked for.  Variants this
    /// library ships no walker for yield `None`.
    pub fn attach(process: &'a ProcessMemory, version: MonoVersion) -> (r: Option<UnityManager<'a>>)
        ensures
            r is Some <==> spec_attach_some(process@, version),
            match r {
                Some(m) => m.version() == version && m.inv(process@),
                None => true,
            },
    {
        match version {
            MonoVersion::MonoV2_x86 => match mono_v2_x86::MonoModule::attach(process) {
                Some(w) => Some(UnityManager::MonoV2_x86(w)),
                None => None,
            },
            MonoVersion::MonoV2_x64 => match mono_v2_x64::MonoModule::attach(process) {
                Some(w) => Some(UnityManager::MonoV2_x64(w)),
                None => None,
            },
            MonoVersion::Il2Cpp_2020_x64 => match il2cpp_2020::MonoModule::attach(process) {
                Some(w) => Some(UnityManager::Il2Cpp_2020(w)),
                None => None,
            },
            _ => None,
        }
    }

    /// Looks for the image of the assembly named `assembly_name` inside the
    /// attached target.
    pub fn get_image(&'a self, assembly_name: &str) -> (r: Option<MonoImage<'a>>)
        ensures
            self.get_image_post(assembly_name.spec_bytes(), r),
    {
        match self {
            UnityManager::MonoV2_x86(w) => match w.get_image(assembly_name) {
                Some(c) => Some(MonoImage::MonoV2_x86(c)),
                None => None,
            },
            UnityManager::MonoV2_x64(w) => match w.get_image(assembly_name) {
                Some(c) => Some(MonoImage::MonoV2_x64(c)),
                None => None,
            },
            UnityManager::Il2Cpp_2020(w) => match w.get_image(assembly_name) {
                Some(c) => Some(MonoImage::Il2Cpp_2020(c)),
                None => None,
            },
        }
    }

    /// Looks for the `Assembly-CSharp` image, the default game assembly.
    pub fn get_default_image(&'a self) -> (r: Option<MonoImage<'a>>)
        ensures
            self.get_image_post(("Assembly-CSharp").spec_bytes(), r),
    {
        self.get_image("Assembly-CSharp")
    }
}

impl<'a> MonoImage<'a> {
    /// The class lookup's outcome, as the dispatched walker's specification
    /// gives it.
    pub open spec fn get_class_post(&self, name: Seq<u8>, r: Option<MonoClass<'a>>) -> bool {
        match self {
            MonoImage::MonoV2_x86(ic) => {
                let res = mono_walk::spec_get_class(
                    ic.proc(),
                    mono_v2_x86::layout_spec(),
                    ic.image(),
                    name,
                );
                match r {
                    Some(MonoClass::MonoV2_x86(c)) => res == Some(c.class()) && c.proc()
                        == ic.proc(),
                    Some(_) => false,
                    None => res is None,
                }
            },
            MonoImage::MonoV2_x64(ic) => {
                let res = mono_walk::spec_get_class(
                    ic.proc(),
                    mono_v2_x64::layout_spec(),
                    ic.image(),
                    name,
                );
                match r {
                    Some(MonoClass::MonoV2_x64(c)) => res == Some(c.class()) && c.proc()
                        == ic.proc(),
                    Some(_) => false,
                    None => res is None,
                }
            },
            MonoImage::Il2Cpp_2020(ic) => {
                let res = il2cpp_2020::spec_get_class(ic.proc(), ic.type_table(), ic.image(), name);
                match r {
                    Some(MonoClass::Il2Cpp_2020(c)) => res == Some(c.class()) && c.proc()
                        == ic.proc() && c.type_table() == ic.type_table(),
                    Some(_) => false,
                    None => res is None,
                }
            },
        }
    }

    /// Searches the image for the class named `class_name`: the first class
    /// of that name whose field array is non-null.
    pub fn get_class(&self, class_name: &str) -> (r: Option<MonoClass<'a>>)
        ensures
            self.get_class_post(class_name.spec_bytes(), r),
    {
        match self {
            MonoImage::MonoV2_x86(ic) => match ic.get_class(class_name) {
                Some(c) => Some(MonoClass::MonoV2_x86(c)),
                None => None,
            },
            MonoImage::MonoV2_x64(ic) => match ic.get_class(class_name) {
                Some(c) => Some(MonoClass::MonoV2_x64(c)),
                None => None,
            },
            MonoImage::Il2Cpp_2020(ic) => match ic.get_class(class_name) {
                Some(c) => Some(MonoClass::Il2Cpp_2020(c)),
                None => None,
            },
        }
    }
}

/// Every class the façade's class lookup returns, whatever the variant,
/// carries a non-null field array and a name window that truncates to the
/// query.
pub proof fn lemma_facade_class_matches<'a>(
    img: &MonoImage<'a>,
    name: Seq<u8>,
    r: Option<MonoClass<'a>>,
)
    requires
        img.get_class_post(name, r),
        r is Some,
    ensures
        ({
            let c = r->Some_0;
            &&& c.fields_ptr() != 0
            &&& sread_bytes(c.proc(), c.name_ptr(), NAME_WINDOW as nat) is Some
            &&& trunc_nul(sread_bytes(c.proc(), c.name_ptr(), NAME_WINDOW as nat)->Some_0) == name
        }),
{
    match img {
        MonoImage::MonoV2_x86(ic) => {
            mono_walk::lemma_class_found_matches(
                ic.proc(),
                mono_v2_x86::layout_spec(),
                ic.image().cc_table,
                crate::mem::sext32(ic.image().cc_size),
                0,
                name,
            );
        },
        MonoImage::MonoV2_x64(ic) => {
            mono_walk::lemma_class_found_matches(
                ic.proc(),
                mono_v2_x64::layout_spec(),
                ic.image().cc_table,
                crate::mem::sext32(ic.image().cc_size),
                0,
                name,
            );
        },
        MonoImage::Il2Cpp_2020(ic) => {
            let h = sread_i32(ic.proc(), ic.image().metadata_handle)->Some_0;
            il2cpp_2020::lemma_class_found_matches(
                ic.proc(),
                wadd(ic.type_table(), wmul(crate::mem::sext32(h), 8)),
                ic.image().type_count as u64,
                0,
                name,
            );
        },
    }
}

/// Every field offset the façade's field lookup returns, whatever the
/// variant, belongs to a field entry of the class's array whose name equals
/// the query; the returned value is that entry's stored offset, widened.
pub proof fn lemma_facade_field_witness<'a>(cls: &MonoClass<'a>, name: Seq<u8>, r: Option<u64>)
    requires
        cls.get_field_post(name, r),
        r is Some,
    ensures
        exists|j: u64|
            j < cls.field_count() && (#[trigger] cls.field_entry_at(j, name)) is Some && r == Some(
                crate::mem::sext32(cls.field_entry_at(j, name)->Some_0),
            ),
{
    match cls {
        MonoClass::MonoV2_x86(c) => {
            let v = c.proc();
            let lay = mono_v2_x86::layout_spec();
            let fields = c.class().fields;
            let count = c.class().field_count as u64;
            mono_walk::lemma_field_offset_witness(v, lay, fields, count, 0, name);
            let j = choose|j: u64|
                0 <= j < count && #[trigger] mono_walk::field_match_at(v, lay, fields, j, name)
                    == mono_walk::spec_find_field(v, lay, fields, count, 0, name);
            assert(cls.field_entry_at(j, name) == mono_walk::field_match_at(
                v,
                lay,
                fields,
                j,
                name,
            ));
        },
        MonoClass::MonoV2_x64(c) => {
            let v = c.proc();
            let lay = mono_v2_x64::layout_spec();
            let fields = c.class().fields;
            let count = c.class().field_count as u64;
            mono_walk::lemma_field_offset_witness(v, lay, fields, count, 0, name);
            let j = choose|j: u64|
                0 <= j < count && #[trigger] mono_walk::field_match_at(v, lay, fields, j, name)
                    == mono_walk::spec_find_field(v, lay, fields, count, 0, name);
            assert(cls.field_entry_at(j, name) == mono_walk::field_match_at(
                v,
                lay,
                fields,
                j,
                name,
            ));
        },
        MonoClass::Il2Cpp_2020(c) => {
            let v = c.proc();
            let fields = c.class().fields;
            let count = c.class().field_count as u64;
            il2cpp_2020::lemma_field_offset_witness(v, fields, count, 0, name);
            let j = choose|j: u64|
                0 <= j < count && #[trigger] il2cpp_2020::field_match_at(v, fields, j, name)
                    == il2cpp_2020::spec_find_field(v, fields, count, 0, name);
            assert(cls.field_entry_at(j, name) == il2cpp_2020::field_match_at(
                v,
                fields,
                j,
                name,
            ));
        },
    }
}

impl<'a> MonoClass<'a> {
    /// The snapshot this class was read from.
    pub open spec fn proc(&self) -> TargetView {
        match self {
            MonoClass::MonoV2_x86(c) => c.proc(),
            MonoClass::MonoV2_x64(c) => c.proc(),
            MonoClass::Il2Cpp_2020(c) => c.proc(),
        }
    }

    /// Address of the class's C-string name.
    pub open spec fn name_ptr(&self) -> u64 {
        match self {
            MonoClass::MonoV2_x86(c) => c.class().name_ptr,
            MonoClass::MonoV2_x64(c) => c.class().name_ptr,
            MonoClass::Il2Cpp_2020(c) => c.class().name_ptr,
        }
    }

    /// Address of the class's field-descriptor array.
    pub open spec fn fields_ptr(&self) -> u64 {
        match self {
            MonoClass::MonoV2_x86(c) => c.class().fields,
            MonoClass::MonoV2_x64(c) => c.class().fields,
            MonoClass::Il2Cpp_2020(c) => c.class().fields,
        }
    }

    /// Number of field descriptors the class declares.
    pub open spec fn field_count(&self) -> u64 {
        match self {
            MonoClass::MonoV2_x86(c) => c.class().field_count as u64,
            MonoClass::MonoV2_x64(c) => c.class().field_count as u64,
            MonoClass::Il2Cpp_2020(c) => c.class().field_count as u64,
        }
    }

    /// The field candidate at entry `i` of this class's field array, as the
    /// variant's walker reads it.
    pub open spec fn field_entry_at(&self, i: u64, name: Seq<u8>) -> Option<i32> {
        match self {
            MonoClass::MonoV2_x86(c) => mono_walk::field_match_at(
                c.proc(),
                mono_v2_x86::layout_spec(),
                c.class().fields,
                i,
                name,
            ),
            MonoClass::MonoV2_x64(c) => mono_walk::field_match_at(
                c.proc(),
                mono_v2_x64::layout_spec(),
                c.class().fields,
                i,
                name,
            ),
            MonoClass::Il2Cpp_2020(c) => il2cpp_2020::field_match_at(
                c.proc(),
                c.class().fields,
                i,
                name,
            ),
        }
    }

    /// The field lookup's outcome, as the dispatched walker's specification
    /// gives it.
    pub open spec fn get_field_post(&self, name: Seq<u8>, r: Option<u64>) -> bool {
        match self {
            MonoClass::MonoV2_x86(c) => r == match mono_walk::spec_find_field(
                c.proc(),
                mono_v2_x86::layout_spec(),
                c.class().fields,
                c.class().field_count as u64,
                0,
                name,
            ) {
                Some(off) => Some(crate::mem::sext32(off)),
                None => None,
            },
            MonoClass::MonoV2_x64(c) => r == match mono_walk::spec_find_field(
                c.proc(),
                mono_v2_x64::layout_spec(),
                c.class().fields,
                c.class().field_count as u64,
                0,
                name,
            ) {
                Some(off) => Some(crate::mem::sext32(off)),
                None => None,
            },
            MonoClass::Il2Cpp_2020(c) => r == match il2cpp_2020::spec_find_field(
                c.proc(),
                c.class().fields,
                c.class().field_count as u64,
                0,
                name,
            ) {
                Some(off) => Some(crate::mem::sext32(off)),
                None => None,
            },
        }
    }

    /// The static-table lookup's outcome, as the dispatched walker's
    /// specification gives it.
    pub open spec fn get_static_table_post(&self, r: Option<u64>) -> bool {
        match self {
            MonoClass::MonoV2_x86(c) => r == mono_walk::spec_static_table(
                c.proc(),
                mono_v2_x86::layout_spec(),
                c.class(),
            ),
            MonoClass::MonoV2_x64(c) => r == mono_walk::spec_static_table(
                c.proc(),
                mono_v2_x64::layout_spec(),
                c.class(),
            ),
            MonoClass::Il2Cpp_2020(c) => r == if c.class().static_fields == 0 {
                None
            } else {
                Some(c.class().static_fields)
            },
        }
    }

    /// The parent lookup's outcome, as the dispatched walker's specification
    /// gives it.
    pub open spec fn get_parent_post(&self, r: Option<MonoClass<'a>>) -> bool {
        match self {
            MonoClass::MonoV2_x86(c) => {
                let res = mono_walk::spec_parent(c.proc(), mono_v2_x86::layout_spec(), c.class());
                match r {
                    Some(MonoClass::MonoV2_x86(pc)) => res == Some(pc.class()) && pc.proc()
                        == c.proc(),
                    Some(_) => false,
                    None => res is None,
                }
            },
            MonoClass::MonoV2_x64(c) => {
                let res = mono_walk::spec_parent(c.proc(), mono_v2_x64::layout_spec(), c.class());
                match r {
                    Some(MonoClass::MonoV2_x64(pc)) => res == Some(pc.class()) && pc.proc()
                        == c.proc(),
                    Some(_) => false,
                    None => res is None,
                }
            },
            MonoClass::Il2Cpp_2020(c) => {
                let res = il2cpp_2020::spec_parent(c.proc(), c.class());
                match r {
                    Some(MonoClass::Il2Cpp_2020(pc)) => res == Some(pc.class()) && pc.proc()
                        == c.proc() && pc.type_table() == c.type_table(),
                    Some(_) => false,
                    None => res is None,
                }
            },
        }
    }

    /// Finds the byte offset of the field named `field_name` inside this
    /// class.
    pub fn get_field(&self, field_name: &str) -> (r: Option<u64>)
        ensures
            self.get_field_post(field_name.spec_bytes(), r),
    {
        match self {
            MonoClass::MonoV2_x86(c) => c.get_field(field_name),
            MonoClass::MonoV2_x64(c) => c.get_field(field_name),
            MonoClass::Il2Cpp_2020(c) => c.get_field(field_name),
        }
    }

    /// The address of this class's static-field storage.
    pub fn get_static_table(&self) -> (r: Option<u64>)
        ensures
            self.get_static_table_post(r),
    {
        match self {
            MonoClass::MonoV2_x86(c) => c.get_static_table(),
            MonoClass::MonoV2_x64(c) => c.get_static_table(),
            MonoClass::Il2Cpp_2020(c) => c.get_static_table(),
        }
    }

    /// The parent class of this class.
    pub fn get_parent(&self) -> (r: Option<MonoClass<'a>>)
        ensures
            self.get_parent_post(r),
    {
        match self {
            MonoClass::MonoV2_x86(c) => match c.get_parent() {
                Some(pc) => Some(MonoClass::MonoV2_x86(pc)),
                None => None,
            },
            MonoClass::MonoV2_x64(c) => match c.get_parent() {
                Some(pc) => Some(MonoClass::MonoV2_x64(pc)),
                None => None,
            },
            MonoClass::Il2Cpp_2020(c) => match c.get_parent() {
                Some(pc) => Some(MonoClass::Il2Cpp_2020(pc)),
                None => None,
            },
        }
    }
}

} // verus!

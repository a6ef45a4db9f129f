//! End-to-end tests of the IL2CPP 2020-era walker over synthetic targets.

use unity_mono::mem::ProcessMemory;
use unity_mono::unity::{MonoClass, MonoImage, UnityManager};
use unity_mono::version::MonoVersion;

const GA: u64 = 0x1000_0000;
const UP: u64 = 0x2000_0000;
const DATA: u64 = 0x1100_0000;

const GLOB_A: u64 = DATA; // holds the assemblies array address
const GLOB_T: u64 = DATA + 8; // holds the type table address
const ARR: u64 = DATA + 0x100; // assemblies array
const TIDT: u64 = DATA + 0x200; // type-info definition table
const HANDLE: u64 = DATA + 0x400; // the image's metadata handle (i32)
const ASM0: u64 = DATA + 0x1000;
const ASM1: u64 = DATA + 0x1100;
const IMG: u64 = DATA + 0x2000;
const NAMES: u64 = DATA + 0x4000; // 0x80-strided name windows
const CLS0: u64 = DATA + 0x5000; // the looked-up class
const CLS1: u64 = DATA + 0x5200; // its parent
const FLD0: u64 = DATA + 0x6000;
const FLD1: u64 = DATA + 0x6100;

fn w16(v: &mut Vec<u8>, off: usize, x: u16) {
    v[off..off + 2].copy_from_slice(&x.to_le_bytes());
}

fn w32(v: &mut Vec<u8>, off: usize, x: u32) {
    v[off..off + 4].copy_from_slice(&x.to_le_bytes());
}

fn wi32(v: &mut Vec<u8>, off: usize, x: i32) {
    v[off..off + 4].copy_from_slice(&x.to_le_bytes());
}

fn w64(v: &mut Vec<u8>, off: usize, x: u64) {
    v[off..off + 8].copy_from_slice(&x.to_le_bytes());
}

fn wstr(v: &mut Vec<u8>, off: usize, s: &str) {
    v[off..off + s.len()].copy_from_slice(s.as_bytes());
}

const UNITY_SIG: [u8; 25] = [
    0x55, 0x00, 0x6E, 0x00, 0x69, 0x00, 0x74, 0x00, 0x79, 0x00, 0x20, 0x00, 0x56, 0x00, 0x65,
    0x00, 0x72, 0x00, 0x73, 0x00, 0x69, 0x00, 0x6F, 0x00, 0x6E,
];

/// A full IL2CPP 2020 target: GameAssembly with the three signatures,
/// UnityPlayer on 64-bit Unity 2021.3 with metadata version 29, and a data
/// region whose assemblies array holds the given slots.  The one image
/// declares `type_count` classes out of the type table; class `Player` has
/// field `hp` at 0x28 and parent `Base` with `hp` at 0x10.
fn il2cpp_target(arr_slots: &[u64], type_count: u32, type_slots: &[u64]) -> ProcessMemory {
    let mut p = ProcessMemory::new();

    // GameAssembly.dll: the three scanned instruction patterns
    let mut ga = vec![0u8; 0x1000];
    ga[0x100..0x10C]
        .copy_from_slice(&[0x48, 0xFF, 0xC5, 0x80, 0x3C, 0x11, 0x00, 0x75, 0x22, 0x48, 0x8B, 0x1D]);
    wi32(&mut ga, 0x10C, (GLOB_A as i64 - (GA + 0x110) as i64) as i32);
    wi32(&mut ga, 0x17C, (GLOB_T as i64 - (GA + 0x180) as i64) as i32);
    ga[0x180..0x18A].copy_from_slice(&[0x48, 0x83, 0x3C, 0x11, 0x00, 0x75, 0x22, 0x8B, 0xC1, 0xE8]);
    ga[0x300] = 0x4C;
    ga[0x301] = 0x8B;
    ga[0x302] = 0x05;
    wi32(&mut ga, 0x303, ((GA + 0x800) as i64 - (GA + 0x307) as i64) as i32);
    ga[0x307] = 0x49;
    ga[0x308] = 0x63;
    wi32(&mut ga, 0x804, 29);
    p.add_region(GA, ga);
    p.add_module("GameAssembly.dll", GA, 0x1000);

    // UnityPlayer.dll: 64-bit machine, Unity version text "2021.3"
    let mut up = vec![0u8; 0x400];
    w32(&mut up, 0x3C, 0x80);
    w16(&mut up, 0x84, 0x8664);
    up[0x200..0x219].copy_from_slice(&UNITY_SIG);
    for (i, c) in "2021.3".bytes().enumerate() {
        up[0x21E + 2 * i] = c;
    }
    p.add_region(UP, up);
    p.add_module("UnityPlayer.dll", UP, 0x400);

    // data region: the metadata graph
    let mut d = vec![0u8; 0x10000];
    let o = |a: u64| (a - DATA) as usize;
    w64(&mut d, o(GLOB_A), ARR);
    w64(&mut d, o(GLOB_T), TIDT);
    for (i, slot) in arr_slots.iter().enumerate() {
        w64(&mut d, o(ARR) + 8 * i, *slot);
    }
    for (i, slot) in type_slots.iter().enumerate() {
        w64(&mut d, o(TIDT) + 8 * i, *slot);
    }
    wi32(&mut d, o(HANDLE), 0);

    // assembly 0: name "A"; assembly 1: name "Assembly-CSharp"
    w64(&mut d, o(ASM0), IMG);
    w64(&mut d, o(ASM0) + 24, NAMES);
    w64(&mut d, o(ASM1), IMG);
    w64(&mut d, o(ASM1) + 24, NAMES + 0x80);
    wstr(&mut d, o(NAMES), "A");
    wstr(&mut d, o(NAMES) + 0x80, "Assembly-CSharp");
    wstr(&mut d, o(NAMES) + 0x100, "Player");
    wstr(&mut d, o(NAMES) + 0x180, "hp");
    wstr(&mut d, o(NAMES) + 0x200, "Base");

    // the image: its class count and metadata handle
    w32(&mut d, o(IMG) + 24, type_count);
    w64(&mut d, o(IMG) + 40, HANDLE);

    // class "Player": fields at FLD0, one field, parent CLS1, statics set
    w64(&mut d, o(CLS0) + 16, NAMES + 0x100);
    w64(&mut d, o(CLS0) + 88, CLS1);
    w64(&mut d, o(CLS0) + 128, FLD0);
    w64(&mut d, o(CLS0) + 184, 0xCAFE00);
    w16(&mut d, o(CLS0) + 288, 1);

    // class "Base": one field "hp" at 0x10, no parent, no statics
    w64(&mut d, o(CLS1) + 16, NAMES + 0x200);
    w64(&mut d, o(CLS1) + 88, 0);
    w64(&mut d, o(CLS1) + 128, FLD1);
    w64(&mut d, o(CLS1) + 184, 0);
    w16(&mut d, o(CLS1) + 288, 1);

    // field arrays: "hp" at 0x28 under Player, at 0x10 under Base
    w64(&mut d, o(FLD0), NAMES + 0x180);
    wi32(&mut d, o(FLD0) + 24, 0x28);
    w64(&mut d, o(FLD1), NAMES + 0x180);
    wi32(&mut d, o(FLD1) + 24, 0x10);

    p.add_region(DATA, d);
    p
}

#[test]
fn il2cpp_2020_happy_path() {
    let p = il2cpp_target(&[ASM1, 0], 1, &[CLS0]);
    let mgr = UnityManager::try_attach(&p).unwrap();
    assert!(matches!(mgr, UnityManager::Il2Cpp_2020(_)));
    let img = mgr.get_default_image().unwrap();
    let cls = img.get_class("Player").unwrap();
    assert_eq!(cls.get_field("hp"), Some(0x28));
}

#[test]
fn attach_carries_the_requested_variant() {
    let p = il2cpp_target(&[ASM1, 0], 1, &[CLS0]);
    let mgr = UnityManager::attach(&p, MonoVersion::Il2Cpp_2020_x64).unwrap();
    assert!(matches!(mgr, UnityManager::Il2Cpp_2020(_)));
    // variants without a shipped walker do not attach
    assert!(UnityManager::attach(&p, MonoVersion::MonoV1_x86).is_none());
    assert!(UnityManager::attach(&p, MonoVersion::Il2Cpp_2019_x64).is_none());
    // nor do walkers whose modules are absent
    assert!(UnityManager::attach(&p, MonoVersion::MonoV2_x64).is_none());
}

#[test]
fn null_slot_ends_assembly_walk() {
    // slot 0 valid ("A"), slot 1 null, slot 2 valid ("Assembly-CSharp"):
    // termination at the first null slot hides the later match by design
    let p = il2cpp_target(&[ASM0, 0, ASM1], 1, &[CLS0]);
    let mgr = UnityManager::try_attach(&p).unwrap();
    assert!(mgr.get_image("Assembly-CSharp").is_none());
    assert!(mgr.get_image("A").is_some());
}

#[test]
fn repeated_get_image_agrees() {
    let p = il2cpp_target(&[ASM1, 0], 1, &[CLS0]);
    let mgr = UnityManager::try_attach(&p).unwrap();
    let f1 = mgr
        .get_default_image()
        .unwrap()
        .get_class("Player")
        .unwrap()
        .get_field("hp");
    let f2 = mgr
        .get_default_image()
        .unwrap()
        .get_class("Player")
        .unwrap()
        .get_field("hp");
    assert_eq!(f1, f2);
    assert_eq!(f1, Some(0x28));
}

#[test]
fn zero_type_count_yields_no_class() {
    let p = il2cpp_target(&[ASM1, 0], 0, &[CLS0]);
    let mgr = UnityManager::try_attach(&p).unwrap();
    let img = mgr.get_default_image().unwrap();
    assert!(img.get_class("Player").is_none());
}

#[test]
fn null_type_slots_are_skipped() {
    let p = il2cpp_target(&[ASM1, 0], 3, &[0, 0, CLS0]);
    let mgr = UnityManager::try_attach(&p).unwrap();
    let img = mgr.get_default_image().unwrap();
    assert!(img.get_class("Player").is_some());
}

#[test]
fn missing_names_yield_none() {
    let p = il2cpp_target(&[ASM1, 0], 1, &[CLS0]);
    let mgr = UnityManager::try_attach(&p).unwrap();
    assert!(mgr.get_image("Assembly-CSharp2").is_none());
    let img = mgr.get_default_image().unwrap();
    assert!(img.get_class("Enemy").is_none());
    let cls = img.get_class("Player").unwrap();
    assert_eq!(cls.get_field("mp"), None);
}

#[test]
fn static_table_and_parent() {
    let p = il2cpp_target(&[ASM1, 0], 1, &[CLS0]);
    let mgr = UnityManager::try_attach(&p).unwrap();
    let img = mgr.get_default_image().unwrap();
    let cls = img.get_class("Player").unwrap();
    assert_eq!(cls.get_static_table(), Some(0xCAFE00));
    let parent = cls.get_parent().unwrap();
    assert_eq!(parent.get_field("hp"), Some(0x10));
    // the parent's statics pointer is null
    assert_eq!(parent.get_static_table(), None);
    // the parent's own parent pointer is null and address 0 is unmapped
    assert!(parent.get_parent().is_none());
}

#[test]
fn null_parent_yields_none_even_when_address_zero_is_readable() {
    let mut p = il2cpp_target(&[ASM1, 0], 1, &[CLS0]);
    // a readable class-sized span at address 0 must not turn a null parent
    // pointer into a class
    p.add_region(0, vec![0u8; 312]);
    let mgr = UnityManager::try_attach(&p).unwrap();
    let img = mgr.get_default_image().unwrap();
    let cls = img.get_class("Player").unwrap();
    let parent = cls.get_parent().unwrap();
    assert!(parent.get_parent().is_none());
}

#[test]
fn parent_field_offset_not_above_childs() {
    let p = il2cpp_target(&[ASM1, 0], 1, &[CLS0]);
    let mgr = UnityManager::try_attach(&p).unwrap();
    let img = mgr.get_default_image().unwrap();
    let cls = img.get_class("Player").unwrap();
    let child_off = cls.get_field("hp").unwrap();
    let parent_off = cls.get_parent().unwrap().get_field("hp").unwrap();
    assert!(parent_off <= child_off);
}

#[test]
fn class_and_field_enumeration() {
    let p = il2cpp_target(&[ASM1, 0], 3, &[0, CLS0, CLS1]);
    let mgr = UnityManager::try_attach(&p).unwrap();
    let img = mgr.get_default_image().unwrap();
    if let MonoImage::Il2Cpp_2020(ic) = img {
        let cs = ic.classes().unwrap();
        // the null slot is skipped; the two real classes come in slot order
        assert_eq!(cs.len(), 2);
        assert_eq!(cs[0].field_count, 1);
        let cls = ic.get_class("Player").unwrap();
        let fs = cls.fields();
        assert_eq!(fs.len(), 1);
        assert_eq!(fs[0].offset, 0x28);
    } else {
        unreachable!();
    }
}

#[test]
fn zero_type_count_enumerates_no_classes() {
    let p = il2cpp_target(&[ASM1, 0], 0, &[CLS0]);
    let mgr = UnityManager::try_attach(&p).unwrap();
    let img = mgr.get_default_image().unwrap();
    if let MonoImage::Il2Cpp_2020(ic) = img {
        assert_eq!(ic.classes().unwrap().len(), 0);
    } else {
        unreachable!();
    }
}

#[test]
fn facade_variants_match_walker() {
    let p = il2cpp_target(&[ASM1, 0], 1, &[CLS0]);
    let mgr = UnityManager::try_attach(&p).unwrap();
    let img = mgr.get_default_image().unwrap();
    assert!(matches!(img, MonoImage::Il2Cpp_2020(_)));
    let cls = img.get_class("Player").unwrap();
    assert!(matches!(cls, MonoClass::Il2Cpp_2020(_)));
}

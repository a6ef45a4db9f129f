//! End-to-end tests of the Mono era 2 walkers over synthetic targets.

use unity_mono::mem::ProcessMemory;
use unity_mono::unity::{MonoClass, MonoImage, UnityManager};
use unity_mono::version::MonoVersion;

fn w16(v: &mut Vec<u8>, off: usize, x: u16) {
    v[off..off + 2].copy_from_slice(&x.to_le_bytes());
}

fn w32(v: &mut Vec<u8>, off: usize, x: u32) {
    v[off..off + 4].copy_from_slice(&x.to_le_bytes());
}

fn wi32(v: &mut Vec<u8>, off: usize, x: i32) {
    v[off..off + 4].copy_from_slice(&x.to_le_bytes());
}

fn w64(v: &mut Vec<u8>, off: usize, x: u64) {
    v[off..off + 8].copy_from_slice(&x.to_le_bytes());
}

fn wstr(v: &mut Vec<u8>, off: usize, s: &str) {
    v[off..off + s.len()].copy_from_slice(s.as_bytes());
}

/// A PE module whose export table carries `mono_assembly_foreach` at RVA
/// 0x400, for the given export-directory offset (0x88 on 64-bit, 0x78 on
/// 32-bit).
fn mono_module_bytes(dir_off: usize) -> Vec<u8> {
    let mut m = vec![0u8; 0x1000];
    w32(&mut m, 0x3C, 0x80);
    w32(&mut m, 0x80 + dir_off, 0x200);
    w32(&mut m, 0x214, 1);
    w32(&mut m, 0x21C, 0x240);
    w32(&mut m, 0x220, 0x280);
    w32(&mut m, 0x280, 0x2A0);
    m[0x2A0..0x2A0 + 21].copy_from_slice(b"mono_assembly_foreach");
    w32(&mut m, 0x240, 0x400);
    m
}

const M64: u64 = 0x4000_0000;
const D64: u64 = 0x4100_0000;

/// A Mono era 2 64-bit target: the exported walk entry leads to the
/// loaded-assemblies global, a three-node list whose second node carries
/// `Assembly-CSharp`, and a one-class cache holding `Enemy` behind a
/// non-matching chain head.
fn mono_x64_target() -> ProcessMemory {
    let mut p = ProcessMemory::new();

    let mut m = mono_module_bytes(0x88);
    // 48 8B 0D <disp>: the loaded-assemblies global sits at D64
    m[0x410..0x413].copy_from_slice(&[0x48, 0x8B, 0x0D]);
    wi32(&mut m, 0x413, (D64 as i64 - (M64 + 0x417) as i64) as i32);
    p.add_region(M64, m);
    p.add_module("mono-2.0-bdwgc.dll", M64, 0x1000);

    let root = D64;
    let node1 = D64 + 0x100;
    let node2 = D64 + 0x130;
    let node3 = D64 + 0x160;
    let asm1 = D64 + 0x1000;
    let asm2 = D64 + 0x1100;
    let names = D64 + 0x4000;
    let img = D64 + 0x8000;
    let tbl = D64 + 0x9000;
    let cd1 = D64 + 0xA000;
    let cd2 = D64 + 0xA200;
    let fld = D64 + 0xB000;
    let rti = D64 + 0xC000;
    let dv = D64 + 0xD000;

    let mut d = vec![0u8; 0x10000];
    let o = |a: u64| (a - D64) as usize;
    w64(&mut d, o(root), node1);
    // node 1: "Dummy"; node 2: "Assembly-CSharp"; node 3 ends the list
    w64(&mut d, o(node1), asm1);
    w64(&mut d, o(node1) + 8, node2);
    w64(&mut d, o(node2), asm2);
    w64(&mut d, o(node2) + 8, node3);
    w64(&mut d, o(node3), 0);

    w64(&mut d, o(asm1) + 16, names);
    w64(&mut d, o(asm2) + 16, names + 0x80);
    w64(&mut d, o(asm2) + 96, img);
    wstr(&mut d, o(names), "Dummy");
    wstr(&mut d, o(names) + 0x80, "Assembly-CSharp");
    wstr(&mut d, o(names) + 0x100, "Other");
    wstr(&mut d, o(names) + 0x180, "Enemy");
    wstr(&mut d, o(names) + 0x200, "mana");

    // image: two buckets, the first empty
    wi32(&mut d, o(img) + 1240, 2);
    w64(&mut d, o(img) + 1248, tbl);
    w64(&mut d, o(tbl), 0);
    w64(&mut d, o(tbl) + 8, cd1);

    // chain: "Other" (non-matching, parent "Enemy"), then "Enemy"
    w64(&mut d, o(cd1) + 72, names + 0x100);
    w64(&mut d, o(cd1) + 48, cd2);
    w64(&mut d, o(cd1) + 152, fld);
    w64(&mut d, o(cd1) + 264, cd2);
    w64(&mut d, o(cd2) + 72, names + 0x180);
    w64(&mut d, o(cd2) + 152, fld);
    w64(&mut d, o(cd2) + 208, rti);
    wi32(&mut d, o(cd2) + 92, 5);
    w32(&mut d, o(cd2) + 256, 1);
    w64(&mut d, o(cd2) + 264, 0);

    // one field: "mana" at 0x44
    w64(&mut d, o(fld) + 8, names + 0x200);
    wi32(&mut d, o(fld) + 24, 0x44);

    // runtime info: the first domain VTable; the static region's address
    // sits one pointer short of the VTable's end, indexed by 5 slots
    w64(&mut d, o(rti) + 8, dv);
    w64(&mut d, o(dv) + 64 + 5 * 8, 0xDE_AD00);

    p.add_region(D64, d);
    p
}

#[test]
fn mono_x64_traversal() {
    let p = mono_x64_target();
    let mgr = UnityManager::attach(&p, MonoVersion::MonoV2_x64).unwrap();
    assert!(matches!(mgr, UnityManager::MonoV2_x64(_)));
    let img = mgr.get_default_image().unwrap();
    let cls = img.get_class("Enemy").unwrap();
    assert_eq!(cls.get_field("mana"), Some(0x44));
    // static storage = domain_vtables + (sizeof(VTable) - 8) + vtable_size * 8
    assert_eq!(cls.get_static_table(), Some(0xDE_AD00));
}

#[test]
fn mono_x64_misses() {
    let p = mono_x64_target();
    let mgr = UnityManager::attach(&p, MonoVersion::MonoV2_x64).unwrap();
    assert!(mgr.get_image("Assembly-CSharp2").is_none());
    let img = mgr.get_default_image().unwrap();
    assert!(img.get_class("Player").is_none());
    let cls = img.get_class("Enemy").unwrap();
    assert_eq!(cls.get_field("hp"), None);
    // the chain head "Other" is passed over even though its name is readable
    assert!(img.get_class("Other").is_some());
}

const M32: u64 = 0x50_0000;
const D32: u64 = 0x60_0000;

/// A Mono era 2 32-bit target with a one-node assemblies list, class `Hero`
/// and field `hp` at 0x10.  With `push_pattern` the root load is the
/// preferred `FF 35` form, otherwise the `8B 0D` fallback.
fn mono_x86_target(push_pattern: bool) -> ProcessMemory {
    let mut p = ProcessMemory::new();

    let mut m = mono_module_bytes(0x78);
    if push_pattern {
        m[0x410] = 0xFF;
        m[0x411] = 0x35;
    } else {
        m[0x410] = 0x8B;
        m[0x411] = 0x0D;
    }
    w32(&mut m, 0x412, D32 as u32);
    p.add_region(M32, m);
    p.add_module("mono-2.0-bdwgc.dll", M32, 0x1000);

    let root = D32;
    let node = D32 + 0x100;
    let asmx = D32 + 0x1000;
    let names = D32 + 0x4000;
    let img = D32 + 0x8000;
    let tbl = D32 + 0x9000;
    let cd = D32 + 0xA000;
    let fld = D32 + 0xB000;
    let rti = D32 + 0xC000;
    let dv = D32 + 0xD000;

    let mut d = vec![0u8; 0x10000];
    let o = |a: u64| (a - D32) as usize;
    w32(&mut d, o(root), node as u32);
    w32(&mut d, o(node), asmx as u32);
    w32(&mut d, o(node) + 4, 0);

    w32(&mut d, o(asmx) + 8, names as u32);
    w32(&mut d, o(asmx) + 68, img as u32);
    wstr(&mut d, o(names), "Assembly-CSharp");
    wstr(&mut d, o(names) + 0x80, "Hero");
    wstr(&mut d, o(names) + 0x100, "hp");

    wi32(&mut d, o(img) + 860, 1);
    w32(&mut d, o(img) + 868, tbl as u32);
    w32(&mut d, o(tbl), cd as u32);

    w32(&mut d, o(cd) + 44, (names + 0x80) as u32);
    w32(&mut d, o(cd) + 96, fld as u32);
    w32(&mut d, o(cd) + 132, rti as u32);
    wi32(&mut d, o(cd) + 56, 2);
    w32(&mut d, o(cd) + 164, 1);
    w32(&mut d, o(cd) + 168, 0);

    w32(&mut d, o(fld) + 4, (names + 0x100) as u32);
    wi32(&mut d, o(fld) + 12, 0x10);

    // static storage = domain_vtables + (sizeof(VTable) - 4) + vtable_size * 4
    w32(&mut d, o(rti) + 4, dv as u32);
    w32(&mut d, o(dv) + 40 + 2 * 4, 0x77_7700);

    p.add_region(D32, d);
    p
}

#[test]
fn mono_x86_traversal() {
    let p = mono_x86_target(true);
    let mgr = UnityManager::attach(&p, MonoVersion::MonoV2_x86).unwrap();
    assert!(matches!(mgr, UnityManager::MonoV2_x86(_)));
    let img = mgr.get_default_image().unwrap();
    let cls = img.get_class("Hero").unwrap();
    assert_eq!(cls.get_field("hp"), Some(0x10));
    assert_eq!(cls.get_static_table(), Some(0x77_7700));
}

#[test]
fn mono_x86_fallback_pattern() {
    let p = mono_x86_target(false);
    let mgr = UnityManager::attach(&p, MonoVersion::MonoV2_x86).unwrap();
    let img = mgr.get_default_image().unwrap();
    assert!(img.get_class("Hero").is_some());
}

#[test]
fn mono_class_and_field_enumeration() {
    let p = mono_x64_target();
    let mgr = UnityManager::attach(&p, MonoVersion::MonoV2_x64).unwrap();
    let img = mgr.get_default_image().unwrap();
    if let MonoImage::MonoV2_x64(ic) = &img {
        // the empty bucket yields nothing; the chain yields both classes
        let cs = ic.classes().unwrap();
        assert_eq!(cs.len(), 2);
    } else {
        unreachable!();
    }
    let cls = img.get_class("Enemy").unwrap();
    if let MonoClass::MonoV2_x64(cc) = &cls {
        let fs = cc.fields();
        assert_eq!(fs.len(), 1);
        assert_eq!(fs[0].offset, 0x44);
    } else {
        unreachable!();
    }
}

#[test]
fn mono_parent_walk() {
    let mut p = mono_x64_target();
    // a readable span at address 0 must not turn a null parent into a class
    p.add_region(0, vec![0u8; 272]);
    let mgr = UnityManager::attach(&p, MonoVersion::MonoV2_x64).unwrap();
    let img = mgr.get_default_image().unwrap();
    // "Other" declares "Enemy" as its parent; "Enemy" has a null parent
    let other = img.get_class("Other").unwrap();
    let parent = other.get_parent().unwrap();
    assert_eq!(parent.get_field("mana"), Some(0x44));
    assert!(parent.get_parent().is_none());
}

#[test]
fn mono_attach_needs_the_export() {
    // a module without the export table yields no attachment
    let mut p = ProcessMemory::new();
    p.add_region(M64, vec![0u8; 0x1000]);
    p.add_module("mono-2.0-bdwgc.dll", M64, 0x1000);
    assert!(UnityManager::attach(&p, MonoVersion::MonoV2_x64).is_none());
    assert!(UnityManager::attach(&p, MonoVersion::MonoV2_x86).is_none());
}

#[test]
fn mono_repeated_lookup_agrees() {
    let p = mono_x64_target();
    let mgr = UnityManager::attach(&p, MonoVersion::MonoV2_x64).unwrap();
    let a = mgr
        .get_default_image()
        .unwrap()
        .get_class("Enemy")
        .unwrap()
        .get_field("mana");
    let b = mgr
        .get_default_image()
        .unwrap()
        .get_class("Enemy")
        .unwrap()
        .get_field("mana");
    assert_eq!(a, b);
    assert_eq!(a, Some(0x44));
}

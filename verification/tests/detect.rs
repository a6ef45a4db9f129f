//! Tests of runtime-variant detection over synthetic targets.

use unity_mono::mem::ProcessMemory;
use unity_mono::pe::{find_export, machine_type, MachineKind};
use unity_mono::version::{detect_version, MonoVersion};

const UP: u64 = 0x2000_0000;
const GA: u64 = 0x1000_0000;

fn w16(v: &mut Vec<u8>, off: usize, x: u16) {
    v[off..off + 2].copy_from_slice(&x.to_le_bytes());
}

fn w32(v: &mut Vec<u8>, off: usize, x: u32) {
    v[off..off + 4].copy_from_slice(&x.to_le_bytes());
}

fn wi32(v: &mut Vec<u8>, off: usize, x: i32) {
    v[off..off + 4].copy_from_slice(&x.to_le_bytes());
}

const UNITY_SIG: [u8; 25] = [
    0x55, 0x00, 0x6E, 0x00, 0x69, 0x00, 0x74, 0x00, 0x79, 0x00, 0x20, 0x00, 0x56, 0x00, 0x65,
    0x00, 0x72, 0x00, 0x73, 0x00, 0x69, 0x00, 0x6F, 0x00, 0x6E,
];

/// Registers `UnityPlayer.dll` with the given COFF machine value and the six
/// version characters as UTF-16 text behind the version signature.
fn add_unity_player(p: &mut ProcessMemory, machine: u16, ver6: &str) {
    assert_eq!(ver6.len(), 6);
    let mut bytes = vec![0u8; 0x400];
    w32(&mut bytes, 0x3C, 0x80);
    w16(&mut bytes, 0x84, machine);
    bytes[0x200..0x219].copy_from_slice(&UNITY_SIG);
    for (i, c) in ver6.bytes().enumerate() {
        bytes[0x21E + 2 * i] = c;
        bytes[0x21F + 2 * i] = 0;
    }
    p.add_region(UP, bytes);
    p.add_module("UnityPlayer.dll", UP, 0x400);
}

/// Registers `GameAssembly.dll`; with `meta`, its region holds the metadata
/// signature whose RIP-relative target carries that version value.
fn add_game_assembly(p: &mut ProcessMemory, meta: Option<i32>) {
    let mut bytes = vec![0u8; 0x1000];
    if let Some(mv) = meta {
        // pattern at GA+0x300; target at GA+0x800 holds the version at +4
        bytes[0x300] = 0x4C;
        bytes[0x301] = 0x8B;
        bytes[0x302] = 0x05;
        let disp = (GA + 0x800) as i64 - (GA + 0x307) as i64;
        wi32(&mut bytes, 0x303, disp as i32);
        bytes[0x307] = 0x49;
        bytes[0x308] = 0x63;
        wi32(&mut bytes, 0x804, mv);
    }
    p.add_region(GA, bytes);
    p.add_module("GameAssembly.dll", GA, 0x1000);
}

#[test]
fn machine_type_decodes_coff_header() {
    let mut p = ProcessMemory::new();
    let mut bytes = vec![0u8; 0x100];
    w32(&mut bytes, 0x3C, 0x40);
    w16(&mut bytes, 0x44, 0x8664);
    p.add_region(0x7000, bytes);
    assert_eq!(machine_type(&p, 0x7000), Some(MachineKind::X86_64));
    assert_eq!(machine_type(&p, 0x9000), None);
    let mut p2 = ProcessMemory::new();
    let mut b2 = vec![0u8; 0x100];
    w32(&mut b2, 0x3C, 0x40);
    w16(&mut b2, 0x44, 0x014C);
    p2.add_region(0x7000, b2);
    assert_eq!(machine_type(&p2, 0x7000), Some(MachineKind::X86));
}

#[test]
fn export_lookup_walks_the_name_table() {
    let mut p = ProcessMemory::new();
    let mut m = vec![0u8; 0x1000];
    w32(&mut m, 0x3C, 0x80);
    w32(&mut m, 0x80 + 0x88, 0x200); // export directory
    w32(&mut m, 0x214, 2); // two exports
    w32(&mut m, 0x21C, 0x240); // address table
    w32(&mut m, 0x220, 0x280); // name table
    w32(&mut m, 0x280, 0x2A0);
    w32(&mut m, 0x284, 0x2C0);
    m[0x2A0..0x2A0 + 21].copy_from_slice(b"mono_assembly_fourth\0");
    m[0x2C0..0x2C0 + 21].copy_from_slice(b"mono_assembly_foreach");
    w32(&mut m, 0x240, 0x500);
    w32(&mut m, 0x244, 0x600);
    p.add_region(0x4000_0000, m);
    assert_eq!(
        find_export(&p, 0x4000_0000, true, "mono_assembly_foreach"),
        Some(0x4000_0600)
    );
    assert_eq!(find_export(&p, 0x4000_0000, true, "mono_get_root_domain_"), None);
}

#[test]
fn il2cpp_2020_by_metadata_version() {
    let mut p = ProcessMemory::new();
    add_game_assembly(&mut p, Some(29));
    add_unity_player(&mut p, 0x8664, "2021.3");
    assert_eq!(detect_version(&p), Some(MonoVersion::Il2Cpp_2020_x64));
}

#[test]
fn il2cpp_2019_by_low_metadata_version() {
    let mut p = ProcessMemory::new();
    add_game_assembly(&mut p, Some(26));
    add_unity_player(&mut p, 0x8664, "2021.3");
    assert_eq!(detect_version(&p), Some(MonoVersion::Il2Cpp_2019_x64));
}

#[test]
fn missing_metadata_signature_ties_to_older() {
    let mut p = ProcessMemory::new();
    add_game_assembly(&mut p, None);
    add_unity_player(&mut p, 0x8664, "2021.3");
    assert_eq!(detect_version(&p), Some(MonoVersion::Il2Cpp_2019_x64));
}

#[test]
fn il2cpp_2019_by_unity_major() {
    let mut p = ProcessMemory::new();
    add_game_assembly(&mut p, Some(29));
    add_unity_player(&mut p, 0x8664, "2019.4");
    assert_eq!(detect_version(&p), Some(MonoVersion::Il2Cpp_2019_x64));
}

#[test]
fn il2cpp_base_selected_by_unity_version() {
    let mut p = ProcessMemory::new();
    add_game_assembly(&mut p, None);
    add_unity_player(&mut p, 0x8664, "2018.4");
    assert_eq!(detect_version(&p), Some(MonoVersion::Il2Cpp_base_x64));
}

#[test]
fn thirty_two_bit_il2cpp_rejected() {
    let mut p = ProcessMemory::new();
    add_game_assembly(&mut p, Some(29));
    add_unity_player(&mut p, 0x014C, "2021.3");
    assert_eq!(detect_version(&p), None);
    assert!(unity_mono::unity::UnityManager::try_attach(&p).is_none());
}

#[test]
fn mono_v1_by_machine() {
    let mut p = ProcessMemory::new();
    let mut m = vec![0u8; 0x100];
    w32(&mut m, 0x3C, 0x40);
    w16(&mut m, 0x44, 0x014C);
    p.add_region(0x30_0000, m);
    p.add_module("mono.dll", 0x30_0000, 0x100);
    assert_eq!(detect_version(&p), Some(MonoVersion::MonoV1_x86));
    let mut p2 = ProcessMemory::new();
    let mut m2 = vec![0u8; 0x100];
    w32(&mut m2, 0x3C, 0x40);
    w16(&mut m2, 0x44, 0x8664);
    p2.add_region(0x30_0000, m2);
    p2.add_module("mono.dll", 0x30_0000, 0x100);
    assert_eq!(detect_version(&p2), Some(MonoVersion::MonoV1_x64));
}

#[test]
fn mono_v3_upgrade_boundary() {
    let mut p = ProcessMemory::new();
    p.add_module("mono-2.0-bdwgc.dll", 0x40_0000, 0x100);
    add_unity_player(&mut p, 0x8664, "2021.2");
    assert_eq!(detect_version(&p), Some(MonoVersion::MonoV3_x64));
    let mut p2 = ProcessMemory::new();
    p2.add_module("mono-2.0-bdwgc.dll", 0x40_0000, 0x100);
    add_unity_player(&mut p2, 0x8664, "2021.1");
    assert_eq!(detect_version(&p2), Some(MonoVersion::MonoV2_x64));
}

#[test]
fn mono_v2_x86_by_machine() {
    let mut p = ProcessMemory::new();
    p.add_module("mono-2.0-bdwgc.dll", 0x40_0000, 0x100);
    add_unity_player(&mut p, 0x014C, "2020.3");
    assert_eq!(detect_version(&p), Some(MonoVersion::MonoV2_x86));
}

#[test]
fn mono_later_major_is_v3() {
    let mut p = ProcessMemory::new();
    p.add_module("mono-2.0-bdwgc.dll", 0x40_0000, 0x100);
    add_unity_player(&mut p, 0x8664, "2022.1");
    assert_eq!(detect_version(&p), Some(MonoVersion::MonoV3_x64));
}

#[test]
fn version_parse_stops_at_non_digit() {
    // a stray letter ends the major number: "20a1.3" parses as major 20
    let mut p = ProcessMemory::new();
    add_game_assembly(&mut p, None);
    add_unity_player(&mut p, 0x8664, "20a1.3");
    assert_eq!(detect_version(&p), Some(MonoVersion::Il2Cpp_base_x64));
}

#[test]
fn mono_branch_needs_a_dot() {
    // without a dot among the six characters the minor segment is missing
    let mut p = ProcessMemory::new();
    p.add_module("mono-2.0-bdwgc.dll", 0x40_0000, 0x100);
    add_unity_player(&mut p, 0x8664, "202113");
    assert_eq!(detect_version(&p), None);
}

#[test]
fn unknown_target_detects_nothing() {
    let p = ProcessMemory::new();
    assert_eq!(detect_version(&p), None);
    let mut p2 = ProcessMemory::new();
    p2.add_module("GameAssembly.dll", GA, 0x1000);
    // UnityPlayer.dll is missing
    assert_eq!(detect_version(&p2), None);
}

#[test]
fn detection_is_deterministic() {
    let mut p = ProcessMemory::new();
    add_game_assembly(&mut p, Some(29));
    add_unity_player(&mut p, 0x8664, "2021.3");
    let first = detect_version(&p);
    let second = detect_version(&p);
    assert_eq!(first, second);
    assert_eq!(first, Some(MonoVersion::Il2Cpp_2020_x64));
}

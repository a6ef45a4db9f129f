//! Tests of the snapshot primitives: reads, typed pointers, name windows,
//! and the pattern scanner.

use unity_mono::cname::name_matches;
use unity_mono::mem::ProcessMemory;
use unity_mono::ptr::{MonoPtr32, MonoPtr64};
use unity_mono::sig::Signature;

#[test]
fn read_single_bytes() {
    let mut p = ProcessMemory::new();
    p.add_region(0x1000, vec![0xAA, 0xBB, 0xCC]);
    assert_eq!(p.read_u8(0x1000), Some(0xAA));
    assert_eq!(p.read_u8(0x1002), Some(0xCC));
    assert_eq!(p.read_u8(0x1003), None);
    assert_eq!(p.read_u8(0xFFF), None);
}

#[test]
fn read_little_endian_values() {
    let mut p = ProcessMemory::new();
    p.add_region(0x2000, vec![0x78, 0x56, 0x34, 0x12, 0xFF, 0xFF, 0xFF, 0xFF]);
    assert_eq!(p.read_u16(0x2000), Some(0x5678));
    assert_eq!(p.read_u32(0x2000), Some(0x12345678));
    assert_eq!(p.read_u64(0x2000), Some(0xFFFFFFFF_12345678));
    assert_eq!(p.read_i32(0x2004), Some(-1));
    assert_eq!(p.read_u64(0x2001), None);
}

#[test]
fn read_across_region_boundary_fails() {
    let mut p = ProcessMemory::new();
    p.add_region(0x3000, vec![1, 2, 3, 4]);
    p.add_region(0x3005, vec![5, 6, 7, 8]);
    assert_eq!(p.read_u32(0x3000), Some(0x04030201));
    // the byte at 0x3004 is unmapped, so a spanning read fails
    assert_eq!(p.read_u64(0x3000), None);
}

#[test]
fn earlier_region_shadows_overlap() {
    let mut p = ProcessMemory::new();
    p.add_region(0x4000, vec![0x11, 0x22]);
    p.add_region(0x4000, vec![0x99, 0x88, 0x77]);
    assert_eq!(p.read_u8(0x4000), Some(0x11));
    assert_eq!(p.read_u8(0x4001), Some(0x22));
    assert_eq!(p.read_u8(0x4002), Some(0x77));
}

#[test]
fn module_lookup_first_match() {
    let mut p = ProcessMemory::new();
    p.add_module("GameAssembly.dll", 0x1000_0000, 0x4000);
    p.add_module("GameAssembly.dll", 0x9000_0000, 0x1);
    p.add_module("UnityPlayer.dll", 0x2000_0000, 0x8000);
    assert_eq!(p.get_module_range("GameAssembly.dll"), Some((0x1000_0000, 0x4000)));
    assert_eq!(p.get_module_address("UnityPlayer.dll"), Some(0x2000_0000));
    assert_eq!(p.get_module_range("mono.dll"), None);
}

#[test]
fn pointer_index_equals_offset_then_read() {
    let mut p = ProcessMemory::new();
    let mut bytes = vec![0u8; 64];
    for (i, b) in bytes.iter_mut().enumerate() {
        *b = i as u8;
    }
    p.add_region(0x5000, bytes);
    let ptr = MonoPtr64::new(0x5000, 8);
    for i in 0..8u64 {
        let via_index = ptr.index(&p, i);
        let via_offset = ptr.offset(i).read(&p);
        assert_eq!(via_index, via_offset);
    }
    assert_eq!(ptr.index(&p, 1), Some(vec![8, 9, 10, 11, 12, 13, 14, 15]));
    // past the region both ways of reading fail alike
    assert_eq!(ptr.index(&p, 8), ptr.offset(8).read(&p));
    assert_eq!(ptr.index(&p, 8), None);
}

#[test]
fn pointer_basics() {
    let p64 = MonoPtr64::new(0x1000, 4);
    assert_eq!(p64.get(), 0x1000);
    assert!(!p64.is_null());
    assert!(MonoPtr64::new(0, 4).is_null());
    assert_eq!(p64.byte_offset(0x10).get(), 0x1010);
    assert_eq!(p64.cast(16).offset(2).get(), 0x1020);
    let p32 = MonoPtr32::new(0xFFFF_FFF0, 4);
    assert_eq!(p32.byte_offset(0x20).get(), 0x10); // wraps at 32 bits
    assert_eq!(p32.get(), 0xFFFF_FFF0);
}

#[test]
fn pointer_read_str_window() {
    let mut p = ProcessMemory::new();
    let mut bytes = vec![0x41u8; 300];
    bytes[5] = 0;
    p.add_region(0x6000, bytes);
    let ptr = MonoPtr64::new(0x6000, 1);
    let w = ptr.read_str(&p, 128).unwrap();
    assert_eq!(w.len(), 128);
    assert_eq!(&w[..6], &[0x41, 0x41, 0x41, 0x41, 0x41, 0]);
}

#[test]
fn nul_at_zero_matches_only_empty_query() {
    let mut w = vec![0x7Au8; 128];
    w[0] = 0;
    assert!(name_matches(&w, b""));
    assert!(!name_matches(&w, b"z"));
    assert!(!name_matches(&w, b"zz"));
}

#[test]
fn name_without_nul_compares_over_window_only() {
    // a target name longer than the window: the window holds its first 128
    // bytes and no NUL, so only a 128-byte query can match
    let w: Vec<u8> = (0..128u32).map(|i| 0x21 + (i % 0x5E) as u8).collect();
    let full: Vec<u8> = w.clone();
    assert!(name_matches(&w, &full));
    let mut longer = full.clone();
    longer.push(0x21);
    assert!(!name_matches(&w, &longer));
    assert!(!name_matches(&w, &full[..127]));
}

#[test]
fn name_matches_truncates_at_first_nul() {
    let mut w = vec![0u8; 128];
    w[..6].copy_from_slice(b"Player");
    assert!(name_matches(&w, b"Player"));
    assert!(!name_matches(&w, b"Play"));
    assert!(!name_matches(&w, b"Players"));
}

#[test]
fn scan_finds_first_occurrence() {
    let mut p = ProcessMemory::new();
    let mut bytes = vec![0u8; 256];
    bytes[40..43].copy_from_slice(&[0x48, 0x8B, 0x0D]);
    bytes[100..103].copy_from_slice(&[0x48, 0x8B, 0x0D]);
    p.add_region(0x7000, bytes);
    let sig = Signature::new(vec![0x48, 0x8B, 0x0D], vec![0xFF, 0xFF, 0xFF]);
    assert_eq!(sig.scan(&p, 0x7000, 256), Some(0x7028));
    assert_eq!(sig.scan(&p, 0x702B, 256 - 0x2B), Some(0x7064));
    assert_eq!(sig.scan(&p, 0x7000, 40), None);
}

#[test]
fn scan_honors_byte_and_nibble_wildcards() {
    let mut p = ProcessMemory::new();
    p.add_region(0x8000, vec![0x8B, 0xB5, 0xE8, 0x00, 0x8B, 0xC7, 0xE8, 0x00]);
    // 8B C? E8: high nibble fixed, low nibble free
    let sig = Signature::new(vec![0x8B, 0xC0, 0xE8], vec![0xFF, 0xF0, 0xFF]);
    assert_eq!(sig.scan(&p, 0x8000, 8), Some(0x8004));
    // a full wildcard position accepts anything
    let sig2 = Signature::new(vec![0x8B, 0x00, 0xE8], vec![0xFF, 0x00, 0xFF]);
    assert_eq!(sig2.scan(&p, 0x8000, 8), Some(0x8000));
}

#[test]
fn scan_needs_readable_bytes() {
    let mut p = ProcessMemory::new();
    p.add_region(0x9000, vec![0x48, 0x8B]);
    let sig = Signature::new(vec![0x48, 0x8B, 0x0D], vec![0xFF, 0xFF, 0xFF]);
    // the third byte of the only candidate position is unmapped
    assert_eq!(sig.scan(&p, 0x9000, 3), None);
}

#[test]
fn pointer_arithmetic_wraps_like_the_target() {
    let ptr = MonoPtr64::new(u64::MAX - 7, 8);
    assert_eq!(ptr.offset(1).get(), 0);
    let mut p = ProcessMemory::new();
    p.add_region(0, (0..16u8).collect::<Vec<u8>>());
    assert_eq!(ptr.offset(1).read(&p), Some(vec![0, 1, 2, 3, 4, 5, 6, 7]));
}

//! Byte-pattern signatures and the forward scanner.
//!
//! A signature is a byte pattern with per-nibble wildcards, stored as value
//! bytes plus mask bytes: position `i` matches a memory byte `b` when
//! `b & mask[i] == value[i] & mask[i]`.  A full-wildcard position has mask
//! `0x00`; a half-wildcard such as a `C?` opcode has mask `0xF0`.  The scan
//! walks a range forward and returns the first matching position.

use vstd::prelude::*;
use crate::mem::{sread8, ProcessMemory, TargetView};

verus! {

/// A byte pattern with wildcards: `bytes` holds the values, `masks` the
/// significant bits of each position.
pub struct Signature {
    bytes: Vec<u8>,
    masks: Vec<u8>,
}

impl View for Signature {
    type V = (Seq<u8>, Seq<u8>);

    closed spec fn view(&self) -> (Seq<u8>, Seq<u8>) {
        (self.bytes@, self.masks@)
    }
}

/// A well-formed pattern: one mask per byte, at least one position.
pub open spec fn sig_wf(sig: (Seq<u8>, Seq<u8>)) -> bool {
    &&& sig.0.len() == sig.1.len()
    &&& sig.0.len() >= 1
}

/// Position `i` of the pattern agrees with the target byte at `pos + i`:
/// the address is in range, readable, and mask-equal.
pub open spec fn sig_pos_ok(v: TargetView, sig: (Seq<u8>, Seq<u8>), pos: int, i: int) -> bool {
    &&& 0 <= pos + i <= u64::MAX
    &&& match sread8(v, (pos + i) as u64) {
        Some(b) => b & sig.1[i] == sig.0[i] & sig.1[i],
        None => false,
    }
}

/// The pattern matches the target at (possibly out-of-range) position `pos`:
/// every position's byte is readable and agrees on the mask's bits.
pub open spec fn sig_matches_at(v: TargetView, sig: (Seq<u8>, Seq<u8>), pos: int) -> bool {
    forall|i: int| 0 <= i < sig.0.len() ==> #[trigger] sig_pos_ok(v, sig, pos, i)
}

/// First match of `sig` at or after position `start + k`, among the `count`
/// candidate positions `start + 0 .. start + count`.
pub open spec fn spec_scan_from(
    v: TargetView,
    sig: (Seq<u8>, Seq<u8>),
    start: u64,
    count: u64,
    k: u64,
) -> Option<u64>
    decreases count - k,
{
    if k >= count {
        None
    } else if start + k <= u64::MAX && sig_matches_at(v, sig, start + k) {
        Some((start + k) as u64)
    } else {
        spec_scan_from(v, sig, start, count, (k + 1) as u64)
    }
}

/// First match of `sig` inside the range of `len` bytes starting at `start`:
/// the earliest position whose whole pattern lies within the range and whose
/// every byte is readable and mask-equal.
pub open spec fn spec_scan(v: TargetView, sig: (Seq<u8>, Seq<u8>), start: u64, len: u64) -> Option<
    u64,
> {
    if len < sig.0.len() {
        None
    } else {
        spec_scan_from(v, sig, start, (len - sig.0.len() + 1) as u64, 0)
    }
}

proof fn lemma_scan_from_overflow(
    v: TargetView,
    sig: (Seq<u8>, Seq<u8>),
    start: u64,
    count: u64,
    k: u64,
)
    requires
        sig_wf(sig),
        start + k > u64::MAX,
    ensures
        spec_scan_from(v, sig, start, count, k) is None,
    decreases count - k,
{
    if k < count {
        assert(!sig_matches_at(v, sig, start + k)) by {
            assert(!sig_pos_ok(v, sig, start + k, 0));
        }
        lemma_scan_from_overflow(v, sig, start, count, (k + 1) as u64);
    }
}

impl Signature {
    /// A pattern from parallel value and mask vectors.
    pub fn new(bytes: Vec<u8>, masks: Vec<u8>) -> (r: Signature)
        ensures
            r@ == (bytes@, masks@),
    {
        Signature { bytes, masks }
    }

    /// Number of positions in the pattern.
    pub fn len(&self) -> (r: usize)
        ensures
            r == self@.0.len(),
    {
        self.bytes.len()
    }

    /// Whether the pattern matches the target at position `pos`.
    fn check_at(&self, p: &ProcessMemory, pos: u64) -> (r: bool)
        requires
            sig_wf(self@),
        ensures
            r == sig_matches_at(p@, self@, pos as int),
    {
        let n = self.bytes.len();
        let mut i: usize = 0;
        while i < n
            invariant
                i <= n,
                n == self@.0.len() == self@.1.len(),
                forall|k: int| 0 <= k < i ==> #[trigger] sig_pos_ok(p@, self@, pos as int, k),
            decreases n - i,
        {
            match pos.checked_add(i as u64) {
                Some(addr) => {
                    match p.read_u8(addr) {
                        Some(b) => {
                            if b & self.masks[i] != self.bytes[i] & self.masks[i] {
                                proof {
                                    assert(addr == (pos + i) as u64);
                                    assert(!sig_pos_ok(p@, self@, pos as int, i as int)) by {
                                        assert(sread8(p@, (pos + i as int) as u64) == Some(b));
                                    }
                                    assert(!sig_matches_at(p@, self@, pos as int));
                                }
                                return false;
                            }
                            proof {
                                assert(addr == (pos + i) as u64);
                                assert(sread8(p@, (pos + i as int) as u64) == Some(b));
                                assert(sig_pos_ok(p@, self@, pos as int, i as int));
                            }
                        },
                        None => {
                            proof {
                                assert(addr == (pos + i) as u64);
                                assert(!sig_pos_ok(p@, self@, pos as int, i as int)) by {
                                    assert(sread8(p@, (pos + i as int) as u64) is None);
                                }
                                assert(!sig_matches_at(p@, self@, pos as int));
                            }
                            return false;
                        },
                    }
                },
                None => {
                    proof {
                        assert(!sig_pos_ok(p@, self@, pos as int, i as int)) by {
                            assert(!(pos + i as int <= u64::MAX));
                        }
                        assert(!sig_matches_at(p@, self@, pos as int));
                    }
                    return false;
                },
            }
            i += 1;
        }
        proof {
            assert(sig_matches_at(p@, self@, pos as int));
        }
        true
    }

    /// First match of this pattern inside the `len` bytes at `start`, the
    /// scan walking forward from the range's start.
    pub fn scan(&self, p: &ProcessMemory, start: u64, len: u64) -> (r: Option<u64>)
        requires
            sig_wf(self@),
        ensures
            r == spec_scan(p@, self@, start, len),
    {
        let sl = self.bytes.len() as u64;
        if len < sl {
            return None;
        }
        let count = len - sl + 1;
        let mut k: u64 = 0;
        while k < count
            invariant
                k <= count,
                sig_wf(self@),
                count == len - self@.0.len() + 1,
                len >= self@.0.len(),
                spec_scan(p@, self@, start, len) == spec_scan_from(p@, self@, start, count, k),
            decreases count - k,
        {
            match start.checked_add(k) {
                Some(pos) => {
                    if self.check_at(p, pos) {
                        return Some(pos);
                    }
                },
                None => {
                    proof {
                        lemma_scan_from_overflow(p@, self@, start, count, k);
                    }
                    return None;
                },
            }
            k += 1;
        }
        None
    }
}


/// Loader-loop tail that references the IL2CPP assemblies table; the RIP-relative operand follows 12 bytes in.
pub open spec fn sig_il2cpp_assemblies_spec() -> (Seq<u8>, Seq<u8>) {
    (seq![0x48u8, 0xFF, 0xC5, 0x80, 0x3C, 0x00, 0x00, 0x75, 0x00, 0x48, 0x8B, 0x1D], seq![0xFFu8, 0xFF, 0xFF, 0xFF, 0xFF, 0x00, 0xFF, 0xFF, 0x00, 0xFF, 0xFF, 0xFF])
}

/// Loader-loop tail that references the IL2CPP assemblies table; the RIP-relative operand follows 12 bytes in.
pub fn sig_il2cpp_assemblies() -> (r: Signature)
    ensures
        r@ == sig_il2cpp_assemblies_spec(),
        sig_wf(r@),
{
    let bytes: Vec<u8> = vec![0x48u8, 0xFF, 0xC5, 0x80, 0x3C, 0x00, 0x00, 0x75, 0x00, 0x48, 0x8B, 0x1D];
    let masks: Vec<u8> = vec![0xFFu8, 0xFF, 0xFF, 0xFF, 0xFF, 0x00, 0xFF, 0xFF, 0x00, 0xFF, 0xFF, 0xFF];
    proof {
        assert(bytes@ =~= sig_il2cpp_assemblies_spec().0);
        assert(masks@ =~= sig_il2cpp_assemblies_spec().1);
    }
    Signature::new(bytes, masks)
}

/// Null-slot test over the IL2CPP type-info definition table; the RIP-relative operand sits 4 bytes before the match end.
pub open spec fn sig_il2cpp_type_table_spec() -> (Seq<u8>, Seq<u8>) {
    (seq![0x48u8, 0x83, 0x3C, 0x00, 0x00, 0x75, 0x00, 0x8B, 0xC0, 0xE8], seq![0xFFu8, 0xFF, 0xFF, 0x00, 0xFF, 0xFF, 0x00, 0xFF, 0xF0, 0xFF])
}

/// Null-slot test over the IL2CPP type-info definition table; the RIP-relative operand sits 4 bytes before the match end.
pub fn sig_il2cpp_type_table() -> (r: Signature)
    ensures
        r@ == sig_il2cpp_type_table_spec(),
        sig_wf(r@),
{
    let bytes: Vec<u8> = vec![0x48u8, 0x83, 0x3C, 0x00, 0x00, 0x75, 0x00, 0x8B, 0xC0, 0xE8];
    let masks: Vec<u8> = vec![0xFFu8, 0xFF, 0xFF, 0x00, 0xFF, 0xFF, 0x00, 0xFF, 0xF0, 0xFF];
    proof {
        assert(bytes@ =~= sig_il2cpp_type_table_spec().0);
        assert(masks@ =~= sig_il2cpp_type_table_spec().1);
    }
    Signature::new(bytes, masks)
}

/// Load of the IL2CPP global metadata header, whose version field tells the 2020 era apart.
pub open spec fn sig_il2cpp_metadata_spec() -> (Seq<u8>, Seq<u8>) {
    (seq![0x4Cu8, 0x8B, 0x05, 0x00, 0x00, 0x00, 0x00, 0x49, 0x63], seq![0xFFu8, 0xFF, 0xFF, 0x00, 0x00, 0x00, 0x00, 0xFF, 0xFF])
}

/// Load of the IL2CPP global metadata header, whose version field tells the 2020 era apart.
pub fn sig_il2cpp_metadata() -> (r: Signature)
    ensures
        r@ == sig_il2cpp_metadata_spec(),
        sig_wf(r@),
{
    let bytes: Vec<u8> = vec![0x4Cu8, 0x8B, 0x05, 0x00, 0x00, 0x00, 0x00, 0x49, 0x63];
    let masks: Vec<u8> = vec![0xFFu8, 0xFF, 0xFF, 0x00, 0x00, 0x00, 0x00, 0xFF, 0xFF];
    proof {
        assert(bytes@ =~= sig_il2cpp_metadata_spec().0);
        assert(masks@ =~= sig_il2cpp_metadata_spec().1);
    }
    Signature::new(bytes, masks)
}

/// 64-bit rcx load of the Mono loaded-assemblies global; the RIP-relative operand follows the 3 opcode bytes.
pub open spec fn sig_mono_64_spec() -> (Seq<u8>, Seq<u8>) {
    (seq![0x48u8, 0x8B, 0x0D], seq![0xFFu8, 0xFF, 0xFF])
}

/// 64-bit rcx load of the Mono loaded-assemblies global; the RIP-relative operand follows the 3 opcode bytes.
pub fn sig_mono_64() -> (r: Signature)
    ensures
        r@ == sig_mono_64_spec(),
        sig_wf(r@),
{
    let bytes: Vec<u8> = vec![0x48u8, 0x8B, 0x0D];
    let masks: Vec<u8> = vec![0xFFu8, 0xFF, 0xFF];
    proof {
        assert(bytes@ =~= sig_mono_64_spec().0);
        assert(masks@ =~= sig_mono_64_spec().1);
    }
    Signature::new(bytes, masks)
}

/// 32-bit push of the Mono loaded-assemblies global, absolute operand 2 bytes in.
pub open spec fn sig_mono_32_1_spec() -> (Seq<u8>, Seq<u8>) {
    (seq![0xFFu8, 0x35], seq![0xFFu8, 0xFF])
}

/// 32-bit push of the Mono loaded-assemblies global, absolute operand 2 bytes in.
pub fn sig_mono_32_1() -> (r: Signature)
    ensures
        r@ == sig_mono_32_1_spec(),
        sig_wf(r@),
{
    let bytes: Vec<u8> = vec![0xFFu8, 0x35];
    let masks: Vec<u8> = vec![0xFFu8, 0xFF];
    proof {
        assert(bytes@ =~= sig_mono_32_1_spec().0);
        assert(masks@ =~= sig_mono_32_1_spec().1);
    }
    Signature::new(bytes, masks)
}

/// 32-bit ecx load of the Mono loaded-assemblies global, absolute operand 2 bytes in.
pub open spec fn sig_mono_32_2_spec() -> (Seq<u8>, Seq<u8>) {
    (seq![0x8Bu8, 0x0D], seq![0xFFu8, 0xFF])
}

/// 32-bit ecx load of the Mono loaded-assemblies global, absolute operand 2 bytes in.
pub fn sig_mono_32_2() -> (r: Signature)
    ensures
        r@ == sig_mono_32_2_spec(),
        sig_wf(r@),
{
    let bytes: Vec<u8> = vec![0x8Bu8, 0x0D];
    let masks: Vec<u8> = vec![0xFFu8, 0xFF];
    proof {
        assert(bytes@ =~= sig_mono_32_2_spec().0);
        assert(masks@ =~= sig_mono_32_2_spec().1);
    }
    Signature::new(bytes, masks)
}

/// UTF-16 text "Unity Version" inside the player module; the version digits follow 0x1E bytes past the match.
pub open spec fn sig_unity_version_spec() -> (Seq<u8>, Seq<u8>) {
    (seq![0x55u8, 0x00, 0x6E, 0x00, 0x69, 0x00, 0x74, 0x00, 0x79, 0x00, 0x20, 0x00, 0x56, 0x00, 0x65, 0x00, 0x72, 0x00, 0x73, 0x00, 0x69, 0x00, 0x6F, 0x00, 0x6E], seq![0xFFu8, 0xFF, 0xFF, 0xFF, 0xFF, 0xFF, 0xFF, 0xFF, 0xFF, 0xFF, 0xFF, 0xFF, 0xFF, 0xFF, 0xFF, 0xFF, 0xFF, 0xFF, 0xFF, 0xFF, 0xFF, 0xFF, 0xFF, 0xFF, 0xFF])
}

/// UTF-16 text "Unity Version" inside the player module; the version digits follow 0x1E bytes past the match.
pub fn sig_unity_version() -> (r: Signature)
    ensures
        r@ == sig_unity_version_spec(),
        sig_wf(r@),
{
    let bytes: Vec<u8> = vec![0x55u8, 0x00, 0x6E, 0x00, 0x69, 0x00, 0x74, 0x00, 0x79, 0x00, 0x20, 0x00, 0x56, 0x00, 0x65, 0x00, 0x72, 0x00, 0x73, 0x00, 0x69, 0x00, 0x6F, 0x00, 0x6E];
    let masks: Vec<u8> = vec![0xFFu8, 0xFF, 0xFF, 0xFF, 0xFF, 0xFF, 0xFF, 0xFF, 0xFF, 0xFF, 0xFF, 0xFF, 0xFF, 0xFF, 0xFF, 0xFF, 0xFF, 0xFF, 0xFF, 0xFF, 0xFF, 0xFF, 0xFF, 0xFF, 0xFF];
    proof {
        assert(bytes@ =~= sig_unity_version_spec().0);
        assert(masks@ =~= sig_unity_version_spec().1);
    }
    Signature::new(bytes, masks)
}

} // verus!

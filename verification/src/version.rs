//! Runtime-variant detection.
//!
//! The detector classifies the target into one of eight managed-runtime
//! flavours from the set of loaded modules, the player module's machine type
//! and Unity version text, and — for the newest IL2CPP split — the global
//! metadata header's version field.  The whole classification is a pure
//! function of the snapshot, so detection is deterministic for a fixed set
//! of loaded modules and module contents.

use vstd::prelude::*;
use vstd::string::StringSliceAdditionalSpecFns;
use crate::mem::{
    module_span, sread_bytes, sread_i32, wadd, wadds, ProcessMemory, TargetView,
};
use crate::pe::{machine_type, spec_machine_type, MachineKind};
use crate::sig::{sig_il2cpp_metadata, sig_il2cpp_metadata_spec, sig_unity_version,
    sig_unity_version_spec, spec_scan};

verus! {

/// The eight supported managed-runtime flavours.
#[derive(Clone, Copy, Debug, Hash, PartialEq, Eq, Structural)]
#[allow(non_camel_case_types)]
pub enum MonoVersion {
    /// Mono era 1, 32-bit (`mono.dll`).
    MonoV1_x86,
    /// Mono era 1, 64-bit (`mono.dll`).
    MonoV1_x64,
    /// Mono era 2, 32-bit (`mono-2.0-bdwgc.dll`).
    MonoV2_x86,
    /// Mono era 2, 64-bit (`mono-2.0-bdwgc.dll`).
    MonoV2_x64,
    /// Mono era 3, 64-bit (Unity 2021.2 and later).
    MonoV3_x64,
    /// IL2CPP before Unity 2019.
    Il2Cpp_base_x64,
    /// IL2CPP of the Unity 2019 era.
    Il2Cpp_2019_x64,
    /// IL2CPP of the Unity 2020 era and later (metadata version 27 up).
    Il2Cpp_2020_x64,
}

/// Decimal value of the digits of `s[i..end]` before the first non-digit,
/// folded onto `acc`.
pub open spec fn spec_version_no(s: Seq<u8>, i: int, end: int, acc: nat) -> nat
    decreases end - i,
{
    if !(0 <= i && i < end && end <= s.len()) {
        acc
    } else if 0x30 <= s[i] && s[i] <= 0x39 {
        spec_version_no(s, i + 1, end, (acc * 10 + (s[i] - 0x30)) as nat)
    } else {
        acc
    }
}

/// First index at or past `from` holding an ASCII dot, or `s.len()`.
pub open spec fn dot_pos(s: Seq<u8>, from: int) -> int
    decreases s.len() - from,
{
    if !(0 <= from && from < s.len()) {
        s.len() as int
    } else if s[from] == 0x2E {
        from
    } else {
        dot_pos(s, from + 1)
    }
}

/// The six version characters read past a Unity version-text match: six
/// UTF-16 code units narrowed to their low bytes.
pub open spec fn spec_unity_bytes(v: TargetView, ubase: u64, ulen: u64) -> Option<Seq<u8>> {
    match spec_scan(v, sig_unity_version_spec(), ubase, ulen) {
        None => None,
        Some(m) => match sread_bytes(v, wadd(m, 0x1E), 12) {
            None => None,
            Some(s) => Some(Seq::new(6, |i: int| s[2 * i])),
        },
    }
}

/// The variant that the snapshot's loaded modules and contents classify to,
/// or `None` when the target is not a supported Unity process.
pub open spec fn spec_detect_version(v: TargetView) -> Option<MonoVersion> {
    if module_span(v.modules, ("GameAssembly.dll").spec_bytes()) is Some {
        let (gbase, gsize) = module_span(v.modules, ("GameAssembly.dll").spec_bytes())->Some_0;
        match module_span(v.modules, ("UnityPlayer.dll").spec_bytes()) {
            None => None,
            Some((ubase, ulen)) => match spec_machine_type(v, ubase) {
                None => None,
                Some(MachineKind::X86) => None,
                Some(_) => match spec_unity_bytes(v, ubase, ulen) {
                    None => None,
                    Some(vb) => {
                        let major = spec_version_no(vb, 0, dot_pos(vb, 0), 0);
                        if major < 2019 {
                            Some(MonoVersion::Il2Cpp_base_x64)
                        } else if major == 2019 {
                            Some(MonoVersion::Il2Cpp_2019_x64)
                        } else {
                            match spec_scan(v, sig_il2cpp_metadata_spec(), gbase, gsize) {
                                None => Some(MonoVersion::Il2Cpp_2019_x64),
                                Some(m) => match sread_i32(v, wadd(m, 3)) {
                                    None => None,
                                    Some(disp) => match sread_i32(
                                        v,
                                        wadd(wadds(wadd(wadd(m, 3), 4), disp as i64), 4),
                                    ) {
                                        None => None,
                                        Some(mv) => if mv < 27 {
                                            Some(MonoVersion::Il2Cpp_2019_x64)
                                        } else {
                                            Some(MonoVersion::Il2Cpp_2020_x64)
                                        },
                                    },
                                },
                            }
                        }
                    },
                },
            },
        }
    } else if module_span(v.modules, ("mono.dll").spec_bytes()) is Some {
        let mbase = module_span(v.modules, ("mono.dll").spec_bytes())->Some_0.0;
        match spec_machine_type(v, mbase) {
            None => None,
            Some(MachineKind::X86) => Some(MonoVersion::MonoV1_x86),
            Some(_) => Some(MonoVersion::MonoV1_x64),
        }
    } else if module_span(v.modules, ("mono-2.0-bdwgc.dll").spec_bytes()) is Some {
        match module_span(v.modules, ("UnityPlayer.dll").spec_bytes()) {
            None => None,
            Some((ubase, ulen)) => match spec_unity_bytes(v, ubase, ulen) {
                None => None,
                Some(vb) => {
                    let d1 = dot_pos(vb, 0);
                    if d1 >= vb.len() {
                        None
                    } else {
                        let major = spec_version_no(vb, 0, d1, 0);
                        let minor = spec_version_no(vb, d1 + 1, dot_pos(vb, d1 + 1), 0);
                        match spec_machine_type(v, ubase) {
                            None => None,
                            Some(mk) => if (major == 2021 && minor >= 2) || major > 2021 {
                                Some(MonoVersion::MonoV3_x64)
                            } else if mk == MachineKind::X86_64 {
                                Some(MonoVersion::MonoV2_x64)
                            } else {
                                Some(MonoVersion::MonoV2_x86)
                            },
                        }
                    }
                },
            },
        }
    } else {
        None
    }
}

/// Powers of ten, bounding the version accumulator.
pub open spec fn pow10(n: nat) -> nat
    decreases n,
{
    if n == 0 {
        1
    } else {
        10 * pow10((n - 1) as nat)
    }
}

proof fn lemma_pow10_mono(a: nat, b: nat)
    requires
        a <= b,
    ensures
        pow10(a) <= pow10(b),
    decreases b,
{
    if a < b {
        lemma_pow10_mono(a, (b - 1) as nat);
        assert(pow10(b) == 10 * pow10((b - 1) as nat));
    }
}

/// Parses the decimal digits of `s[from..to]`, stopping at the first
/// non-digit; spans of at most nine digits cannot overflow.
fn get_version_no(s: &Vec<u8>, from: usize, to: usize) -> (r: u32)
    requires
        from <= to <= s@.len(),
        to - from <= 9,
    ensures
        r == spec_version_no(s@, from as int, to as int, 0),
{
    let mut acc: u32 = 0;
    let mut i: usize = from;
    proof {
        lemma_pow10_mono(0, (i - from) as nat);
    }
    while i < to
        invariant
            from <= i <= to <= s@.len(),
            to - from <= 9,
            acc < pow10((i - from) as nat),
            spec_version_no(s@, from as int, to as int, 0) == spec_version_no(
                s@,
                i as int,
                to as int,
                acc as nat,
            ),
        decreases to - i,
    {
        let b = s[i];
        if b < 0x30 || b > 0x39 {
            return acc;
        }
        proof {
            lemma_pow10_mono((i - from + 1) as nat, 9);
            assert(pow10(9) == 1000000000) by {
                reveal_with_fuel(pow10, 10);
            }
            assert(acc * 10 + (b - 0x30) < pow10((i - from + 1) as nat)) by {
                assert(pow10((i - from + 1) as nat) == 10 * pow10((i - from) as nat));
            }
        }
        acc = acc * 10 + (b - 0x30) as u32;
        i += 1;
    }
    acc
}

/// First index at or past `from` holding an ASCII dot, or the length.
fn find_dot(s: &Vec<u8>, from: usize) -> (r: usize)
    requires
        from <= s@.len(),
    ensures
        r == dot_pos(s@, from as int),
        from <= r <= s@.len(),
{
    let n = s.len();
    let mut i: usize = from;
    while i < n
        invariant
            from <= i <= n == s@.len(),
            dot_pos(s@, from as int) == dot_pos(s@, i as int),
        decreases n - i,
    {
        if s[i] == 0x2E {
            return i;
        }
        i += 1;
    }
    n
}

/// Reads the six Unity version characters out of the player module's range.
fn unity_version_bytes(p: &ProcessMemory, ubase: u64, ulen: u64) -> (r: Option<Vec<u8>>)
    ensures
        match r {
            Some(b) => spec_unity_bytes(p@, ubase, ulen) == Some(b@),
            None => spec_unity_bytes(p@, ubase, ulen) is None,
        },
{
    let sig = sig_unity_version();
    let m = match sig.scan(p, ubase, ulen) {
        Some(m) => m,
        None => {
            return None;
        },
    };
    let raw = match p.read_bytes(m.wrapping_add(0x1E), 12) {
        Some(raw) => raw,
        None => {
            return None;
        },
    };
    let mut out: Vec<u8> = Vec::new();
    let mut i: usize = 0;
    while i < 6
        invariant
            i <= 6,
            raw@.len() == 12,
            out@.len() == i,
            forall|k: int| 0 <= k < i ==> #[trigger] out@[k] == raw@[2 * k],
        decreases 6 - i,
    {
        out.push(raw[2 * i]);
        i += 1;
    }
    proof {
        assert(out@ =~= Seq::new(6, |k: int| raw@[2 * k]));
    }
    Some(out)
}

/// Classifies the target into its runtime flavour, or `None` when it is not
/// a supported Unity process.
pub fn detect_version(p: &ProcessMemory) -> (r: Option<MonoVersion>)
    ensures
        r == spec_detect_version(p@),
{
    if let Some((gbase, gsize)) = p.get_module_range("GameAssembly.dll") {
        let (ubase, ulen) = match p.get_module_range("UnityPlayer.dll") {
            Some(x) => x,
            None => {
                return None;
            },
        };
        let mk = match machine_type(p, ubase) {
            Some(mk) => mk,
            None => {
                return None;
            },
        };
        if mk == MachineKind::X86 {
            return None;
        }
        let vb = match unity_version_bytes(p, ubase, ulen) {
            Some(vb) => vb,
            None => {
                return None;
            },
        };
        let d1 = find_dot(&vb, 0);
        let major = get_version_no(&vb, 0, d1);
        if major < 2019 {
            Some(MonoVersion::Il2Cpp_base_x64)
        } else if major == 2019 {
            Some(MonoVersion::Il2Cpp_2019_x64)
        } else {
            let sig = sig_il2cpp_metadata();
            let m = match sig.scan(p, gbase, gsize) {
                Some(m) => m,
                None => {
                    return Some(MonoVersion::Il2Cpp_2019_x64);
                },
            };
            let a = m.wrapping_add(3);
            let disp = match p.read_i32(a) {
                Some(d) => d,
                None => {
                    return None;
                },
            };
            let t = a.wrapping_add(4).wrapping_add_signed(disp as i64);
            let mv = match p.read_i32(t.wrapping_add(4)) {
                Some(mv) => mv,
                None => {
                    return None;
                },
            };
            if mv < 27 {
                Some(MonoVersion::Il2Cpp_2019_x64)
            } else {
                Some(MonoVersion::Il2Cpp_2020_x64)
            }
        }
    } else if let Some(mbase) = p.get_module_address("mono.dll") {
        match machine_type(p, mbase) {
            None => None,
            Some(MachineKind::X86) => Some(MonoVersion::MonoV1_x86),
            Some(_) => Some(MonoVersion::MonoV1_x64),
        }
    } else if p.get_module_address("mono-2.0-bdwgc.dll").is_some() {
        let (ubase, ulen) = match p.get_module_range("UnityPlayer.dll") {
            Some(x) => x,
            None => {
                return None;
            },
        };
        let vb = match unity_version_bytes(p, ubase, ulen) {
            Some(vb) => vb,
            None => {
                return None;
            },
        };
        let d1 = find_dot(&vb, 0);
        if d1 >= vb.len() {
            return None;
        }
        let d2 = find_dot(&vb, d1 + 1);
        let major = get_version_no(&vb, 0, d1);
        let minor = get_version_no(&vb, d1 + 1, d2);
        let mk = match machine_type(p, ubase) {
            Some(mk) => mk,
            None => {
                return None;
            },
        };
        if (major == 2021 && minor >= 2) || major > 2021 {
            Some(MonoVersion::MonoV3_x64)
        } else if mk == MachineKind::X86_64 {
            Some(MonoVersion::MonoV2_x64)
        } else {
            Some(MonoVersion::MonoV2_x86)
        }
    } else {
        None
    }
}

/// Version detection is deterministic: targets whose memories and module
/// tables agree classify to the same variant.
pub proof fn lemma_detect_version_deterministic(v1: TargetView, v2: TargetView)
    requires
        v1.mem == v2.mem,
        v1.modules == v2.modules,
    ensures
        spec_detect_version(v1) == spec_detect_version(v2),
{
    assert(v1 == v2);
}

} // verus!

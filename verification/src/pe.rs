//! PE header utilities: machine-type decoding and export-table lookup.
//!
//! The export lookup walks the DOS header to the export directory and scans
//! the name table for one exported function, returning its absolute address.
//! Every read goes through the snapshot; a failed read anywhere aborts the
//! whole lookup, mirroring how a racing target is handled.

use vstd::prelude::*;
use vstd::string::StringSliceAdditionalSpecFns;
use crate::mem::{
    sread_bytes, sread_u16, sread_u32, wadd, ProcessMemory, TargetView, vec_slice_eq,
};

verus! {

/// Offsets inside the PE headers used by the export lookup.
pub struct MonoPEOffsets {
    /// Offset of the PE-start field in the DOS header.
    pub signature: u32,
    /// Offset of the export-directory RVA past the PE start.
    pub export_directory_index_pe: u32,
    /// Offset of the function count inside the export directory.
    pub number_of_functions: u32,
    /// Offset of the address-table RVA inside the export directory.
    pub function_address_array_index: u32,
    /// Offset of the name-table RVA inside the export directory.
    pub function_name_array_index: u32,
}

impl MonoPEOffsets {
    /// The header offsets for a 64-bit or a 32-bit module.
    pub fn new(is_64_bit: bool) -> (r: MonoPEOffsets)
        ensures
            r.signature == 0x3C,
            r.export_directory_index_pe == if is_64_bit {
                0x88int
            } else {
                0x78int
            },
            r.number_of_functions == 0x14,
            r.function_address_array_index == 0x1C,
            r.function_name_array_index == 0x20,
    {
        MonoPEOffsets {
            signature: 0x3C,
            export_directory_index_pe: if is_64_bit {
                0x88
            } else {
                0x78
            },
            number_of_functions: 0x14,
            function_address_array_index: 0x1C,
            function_name_array_index: 0x20,
        }
    }
}

/// Architecture of a loaded module, read from its COFF header.
#[derive(Clone, Copy, Debug, PartialEq, Eq, Structural)]
pub enum MachineKind {
    /// 32-bit x86.
    X86,
    /// 64-bit x86.
    X86_64,
    /// Any other machine value.
    Other,
}

/// The machine kind that the COFF header at `base` declares: the 16-bit
/// machine field sits 4 bytes past the PE signature, whose offset is the
/// 32-bit value at `base + 0x3C`.
pub open spec fn spec_machine_type(v: TargetView, base: u64) -> Option<MachineKind> {
    match sread_u32(v, wadd(base, 0x3C)) {
        None => None,
        Some(lfanew) => match sread_u16(v, wadd(base, (lfanew + 4) as u64)) {
            None => None,
            Some(m) => Some(
                if m == 0x014C {
                    MachineKind::X86
                } else if m == 0x8664 {
                    MachineKind::X86_64
                } else {
                    MachineKind::Other
                },
            ),
        },
    }
}

/// Reads the machine kind of the module based at `base`.
pub fn machine_type(p: &ProcessMemory, base: u64) -> (r: Option<MachineKind>)
    ensures
        r == spec_machine_type(p@, base),
{
    match p.read_u32(base.wrapping_add(0x3C)) {
        None => None,
        Some(lfanew) => {
            match p.read_u16(base.wrapping_add(lfanew as u64 + 4)) {
                None => None,
                Some(m) => {
                    Some(
                        if m == 0x014C {
                            MachineKind::X86
                        } else if m == 0x8664 {
                            MachineKind::X86_64
                        } else {
                            MachineKind::Other
                        },
                    )
                },
            }
        },
    }
}

/// Outcome of one slot of the export-name scan, folded over the table.
pub enum ExportFind {
    /// The named export was found at this absolute address.
    Found(u64),
    /// The table was exhausted without a match.
    NotFound,
    /// A read failed before the scan could settle.
    Fail,
}

/// Scan of the export name table from slot `val` up to `nof`: the first slot
/// whose 21-byte name equals `name` yields `base` plus the matching
/// address-table entry.  Any failed read aborts the scan.
pub open spec fn spec_export_scan(
    v: TargetView,
    base: u64,
    name_arr: u32,
    addr_arr: u32,
    name: Seq<u8>,
    nof: u32,
    val: u32,
) -> ExportFind
    decreases nof - val,
{
    if val >= nof {
        ExportFind::NotFound
    } else {
        let off = vstd::wrapping::u32_specs::wrapping_mul(val, 4) as u64;
        match sread_u32(v, wadd(base, (name_arr + off) as u64)) {
            None => ExportFind::Fail,
            Some(ni) => match sread_bytes(v, wadd(base, ni as u64), 21) {
                None => ExportFind::Fail,
                Some(nm) => if nm == name {
                    match sread_u32(v, wadd(base, (addr_arr + off) as u64)) {
                        None => ExportFind::Fail,
                        Some(rva) => ExportFind::Found(wadd(base, rva as u64)),
                    }
                } else {
                    spec_export_scan(v, base, name_arr, addr_arr, name, nof, (val + 1) as u32)
                },
            },
        }
    }
}

/// Absolute address of the export named `name` in the module based at
/// `base`: the DOS header leads to the export directory, whose name table is
/// scanned in order; `None` when any read fails, when no slot matches, or
/// when the resolved address is null.
pub open spec fn spec_find_export(v: TargetView, base: u64, is64: bool, name: Seq<u8>) -> Option<
    u64,
> {
    let dir_off: u64 = if is64 {
        0x88
    } else {
        0x78
    };
    match sread_u32(v, wadd(base, 0x3C)) {
        None => None,
        Some(start) => match sread_u32(v, wadd(base, (start + dir_off) as u64)) {
            None => None,
            Some(dir) => match sread_u32(v, wadd(base, (dir + 0x14) as u64)) {
                None => None,
                Some(nof) => match sread_u32(v, wadd(base, (dir + 0x1C) as u64)) {
                    None => None,
                    Some(addr_arr) => match sread_u32(v, wadd(base, (dir + 0x20) as u64)) {
                        None => None,
                        Some(name_arr) => match spec_export_scan(
                            v,
                            base,
                            name_arr,
                            addr_arr,
                            name,
                            nof,
                            0,
                        ) {
                            ExportFind::Found(a) => if a == 0 {
                                None
                            } else {
                                Some(a)
                            },
                            ExportFind::NotFound => None,
                            ExportFind::Fail => None,
                        },
                    },
                },
            },
        },
    }
}

/// Looks the export named `name` up in the module based at `base`.
#[verifier::loop_isolation(false)]
pub fn find_export(p: &ProcessMemory, base: u64, is_64_bit: bool, name: &str) -> (r: Option<u64>)
    ensures
        r == spec_find_export(p@, base, is_64_bit, name.spec_bytes()),
{
    let offsets = MonoPEOffsets::new(is_64_bit);
    let start = match p.read_u32(base.wrapping_add(offsets.signature as u64)) {
        Some(x) => x,
        None => {
            return None;
        },
    };
    let dir = match p.read_u32(
        base.wrapping_add(start as u64 + offsets.export_directory_index_pe as u64),
    ) {
        Some(x) => x,
        None => {
            return None;
        },
    };
    let nof = match p.read_u32(
        base.wrapping_add(dir as u64 + offsets.number_of_functions as u64),
    ) {
        Some(x) => x,
        None => {
            return None;
        },
    };
    let addr_arr = match p.read_u32(
        base.wrapping_add(dir as u64 + offsets.function_address_array_index as u64),
    ) {
        Some(x) => x,
        None => {
            return None;
        },
    };
    let name_arr = match p.read_u32(
        base.wrapping_add(dir as u64 + offsets.function_name_array_index as u64),
    ) {
        Some(x) => x,
        None => {
            return None;
        },
    };
    let nb = name.as_bytes();
    let mut val: u32 = 0;
    loop
        invariant
            val <= nof,
            nb@ == name.spec_bytes(),
            spec_export_scan(p@, base, name_arr, addr_arr, name.spec_bytes(), nof, val)
                == spec_export_scan(p@, base, name_arr, addr_arr, name.spec_bytes(), nof, 0),
        decreases nof - val,
    {
        if val >= nof {
            return None;
        }
        let off = val.wrapping_mul(4) as u64;
        let ni = match p.read_u32(base.wrapping_add(name_arr as u64 + off)) {
            Some(x) => x,
            None => {
                return None;
            },
        };
        let nm = match p.read_bytes(base.wrapping_add(ni as u64), 21) {
            Some(x) => x,
            None => {
                return None;
            },
        };
        if vec_slice_eq(&nm, nb) {
            let rva = match p.read_u32(base.wrapping_add(addr_arr as u64 + off)) {
                Some(x) => x,
                None => {
                    return None;
                },
            };
            let a = base.wrapping_add(rva as u64);
            if a == 0 {
                return None;
            }
            return Some(a);
        }
        val = val + 1;
    }
}

} // verus!

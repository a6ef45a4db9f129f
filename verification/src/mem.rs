//! Snapshot model of the target process.
//!
//! A `ProcessMemory` value holds the target's readable byte regions and its
//! loaded-module table.  Its specification-level view is a `TargetView`: a
//! partial map from address to byte plus the module table, and every read
//! primitive is pinned to a spec function over that view, so that each lookup
//! built on top of the primitives is a pure function of the snapshot.

use vstd::prelude::*;
use vstd::string::StringSliceAdditionalSpecFns;

verus! {

/// Specification-level model of the target process.
pub struct TargetView {
    /// Partial byte memory: an address is readable iff it is in the domain.
    pub mem: Map<u64, u8>,
    /// Loaded modules in load order: (name bytes, base address, byte size).
    pub modules: Seq<(Seq<u8>, u64, u64)>,
}

/// Wrapping 64-bit address addition.
pub open spec fn wadd(a: u64, b: u64) -> u64 {
    vstd::wrapping::u64_specs::wrapping_add(a, b)
}

/// Wrapping 64-bit multiplication, used to scale element indices.
pub open spec fn wmul(a: u64, b: u64) -> u64 {
    vstd::wrapping::u64_specs::wrapping_mul(a, b)
}

/// Wrapping addition of a signed displacement to a 64-bit address.
pub open spec fn wadds(a: u64, d: i64) -> u64 {
    vstd::wrapping::u64_specs::wrapping_add_signed(a, d)
}

/// The value of a 32-bit signed field when widened to a 64-bit index,
/// as two's-complement sign extension.
pub open spec fn sext32(x: i32) -> u64 {
    if x >= 0 {
        x as u64
    } else {
        (x + 0x1_0000_0000_0000_0000) as u64
    }
}

/// One readable byte of the target, `None` when the address is unmapped.
pub open spec fn sread8(v: TargetView, a: u64) -> Option<u8> {
    if v.mem.dom().contains(a) {
        Some(v.mem[a])
    } else {
        None
    }
}

/// `n` bytes starting at `a`.  The read fails when any byte is unmapped or
/// when the range would run past the end of the address space.
pub open spec fn sread_bytes(v: TargetView, a: u64, n: nat) -> Option<Seq<u8>> {
    if a + n > 0x1_0000_0000_0000_0000 {
        None
    } else if forall|i: int| 0 <= i < n ==> #[trigger] v.mem.dom().contains((a + i) as u64) {
        Some(Seq::new(n, |i: int| v.mem[(a + i) as u64]))
    } else {
        None
    }
}

/// Little-endian 16-bit value at byte index `i` of `s`.
pub open spec fn su16(s: Seq<u8>, i: int) -> u16 {
    (s[i] + s[i + 1] * 0x100) as u16
}

/// Little-endian 32-bit value at byte index `i` of `s`.
pub open spec fn su32(s: Seq<u8>, i: int) -> u32 {
    (s[i] + s[i + 1] * 0x100 + s[i + 2] * 0x1_0000 + s[i + 3] * 0x100_0000) as u32
}

/// Little-endian 64-bit value at byte index `i` of `s`.
pub open spec fn su64(s: Seq<u8>, i: int) -> u64 {
    (s[i] + s[i + 1] * 0x100 + s[i + 2] * 0x1_0000 + s[i + 3] * 0x100_0000 + s[i + 4]
        * 0x1_0000_0000 + s[i + 5] * 0x100_0000_0000 + s[i + 6] * 0x1_0000_0000_0000 + s[i + 7]
        * 0x100_0000_0000_0000) as u64
}

/// Little-endian 32-bit signed value at byte index `i` of `s`.
pub open spec fn si32(s: Seq<u8>, i: int) -> i32 {
    if su32(s, i) >= 0x8000_0000 {
        (su32(s, i) - 0x1_0000_0000) as i32
    } else {
        su32(s, i) as i32
    }
}

/// Target pointer at byte index `i` of `s`: 8 bytes when `w == 8`, else a
/// 32-bit pointer widened with zeroes.
pub open spec fn sptr(s: Seq<u8>, i: int, w: u64) -> u64 {
    if w == 8 {
        su64(s, i)
    } else {
        su32(s, i) as u64
    }
}

/// Little-endian 16-bit read from memory.
pub open spec fn sread_u16(v: TargetView, a: u64) -> Option<u16> {
    match sread_bytes(v, a, 2) {
        Some(s) => Some(su16(s, 0)),
        None => None,
    }
}

/// Little-endian 32-bit read from memory.
pub open spec fn sread_u32(v: TargetView, a: u64) -> Option<u32> {
    match sread_bytes(v, a, 4) {
        Some(s) => Some(su32(s, 0)),
        None => None,
    }
}

/// Little-endian 64-bit read from memory.
pub open spec fn sread_u64(v: TargetView, a: u64) -> Option<u64> {
    match sread_bytes(v, a, 8) {
        Some(s) => Some(su64(s, 0)),
        None => None,
    }
}

/// Little-endian 32-bit signed read from memory.
pub open spec fn sread_i32(v: TargetView, a: u64) -> Option<i32> {
    match sread_bytes(v, a, 4) {
        Some(s) => Some(si32(s, 0)),
        None => None,
    }
}

/// Target-pointer read: 64-bit wide when `w == 8`, else 32-bit zero-extended.
pub open spec fn sread_ptr(v: TargetView, a: u64, w: u64) -> Option<u64> {
    if w == 8 {
        sread_u64(v, a)
    } else {
        match sread_u32(v, a) {
            Some(x) => Some(x as u64),
            None => None,
        }
    }
}

/// Every byte of `out` mirrors the target byte at the corresponding offset
/// from `a`.
pub open spec fn bytes_from(v: TargetView, a: u64, out: Seq<u8>) -> bool {
    forall|k: int| 0 <= k < out.len() ==> sread8(v, (a + k) as u64) == Some(#[trigger] out[k])
}

proof fn lemma_bytes_from_read(v: TargetView, a: u64, out: Seq<u8>)
    requires
        a + out.len() <= 0x1_0000_0000_0000_0000,
        bytes_from(v, a, out),
    ensures
        sread_bytes(v, a, out.len()) == Some(out),
{
    assert forall|i: int| 0 <= i < out.len() implies #[trigger] v.mem.dom().contains((a
        + i) as u64) by {
        assert(sread8(v, (a + i) as u64) == Some(out[i]));
    }
    assert(out =~= Seq::new(out.len(), |i: int| v.mem[(a + i) as u64]));
}

/// Step bound of every traversal of linked target structures.  It exceeds
/// the number of distinct pointer-aligned nodes the address space can hold,
/// so only a cyclic (and hence never-ending) structure can exhaust it; such
/// a walk is abandoned as not found.
pub const WALK_CAP: u64 = 0x2000_0000_0000_0000;

/// Outcome of a fuel-bounded walk over target memory: settled with a value,
/// or cut short because the step bound ran out.
pub enum WalkOut<A> {
    /// The walk settled on this value.
    Done(A),
    /// The step bound ran out before the walk settled.
    Short,
}

/// First module entry whose name equals `nm`, as (base, size).
pub open spec fn module_span(ms: Seq<(Seq<u8>, u64, u64)>, nm: Seq<u8>) -> Option<(u64, u64)>
    decreases ms.len(),
{
    if ms.len() == 0 {
        None
    } else if ms[0].0 == nm {
        Some((ms[0].1, ms[0].2))
    } else {
        module_span(ms.drop_first(), nm)
    }
}

struct MemRegion {
    base: u64,
    bytes: Vec<u8>,
}

struct ModuleEntry {
    name: Vec<u8>,
    base: u64,
    size: u64,
}

spec fn region_has(r: MemRegion, a: u64) -> bool {
    &&& r.base <= a
    &&& a - r.base < r.bytes@.len()
}

spec fn any_region_has(rs: Seq<MemRegion>, a: u64) -> bool {
    exists|j: int| 0 <= j < rs.len() && region_has(rs[j], a)
}

spec fn first_byte(rs: Seq<MemRegion>, a: u64) -> u8
    decreases rs.len(),
{
    if rs.len() == 0 {
        0
    } else if region_has(rs[0], a) {
        rs[0].bytes@[a - rs[0].base]
    } else {
        first_byte(rs.drop_first(), a)
    }
}

proof fn lemma_first_byte_at(rs: Seq<MemRegion>, a: u64, j: int)
    requires
        0 <= j < rs.len(),
        region_has(rs[j], a),
        forall|k: int| 0 <= k < j ==> !region_has(rs[k], a),
    ensures
        first_byte(rs, a) == rs[j].bytes@[a - rs[j].base],
    decreases j,
{
    if j > 0 {
        assert(rs.drop_first()[j - 1] == rs[j]);
        assert(forall|k: int| 0 <= k < j - 1 ==> rs.drop_first()[k] == rs[k + 1]);
        lemma_first_byte_at(rs.drop_first(), a, j - 1);
    }
}

proof fn lemma_any_region_unfold(rs: Seq<MemRegion>, a: u64)
    requires
        rs.len() > 0,
    ensures
        any_region_has(rs, a) == (region_has(rs[0], a) || any_region_has(rs.drop_first(), a)),
{
    if any_region_has(rs, a) {
        let j = choose|j: int| 0 <= j < rs.len() && region_has(rs[j], a);
        if j > 0 {
            assert(rs.drop_first()[j - 1] == rs[j]);
            assert(region_has(rs.drop_first()[j - 1], a));
        }
    }
    if any_region_has(rs.drop_first(), a) {
        let j = choose|j: int|
            0 <= j < rs.drop_first().len() && region_has(rs.drop_first()[j], a);
        assert(rs[j + 1] == rs.drop_first()[j]);
        assert(region_has(rs[j + 1], a));
    }
}

proof fn lemma_first_byte_push(rs: Seq<MemRegion>, x: MemRegion, a: u64)
    ensures
        any_region_has(rs.push(x), a) == (any_region_has(rs, a) || region_has(x, a)),
        any_region_has(rs, a) ==> first_byte(rs.push(x), a) == first_byte(rs, a),
        !any_region_has(rs, a) && region_has(x, a) ==> first_byte(rs.push(x), a) == x.bytes@[a
            - x.base],
    decreases rs.len(),
{
    if any_region_has(rs.push(x), a) {
        let j = choose|j: int| 0 <= j < rs.push(x).len() && region_has(rs.push(x)[j], a);
        if j < rs.len() {
            assert(rs.push(x)[j] == rs[j]);
            assert(any_region_has(rs, a) || region_has(x, a));
        } else {
            assert(rs.push(x)[j] == x);
            assert(any_region_has(rs, a) || region_has(x, a));
        }
    }
    if any_region_has(rs, a) {
        let j = choose|j: int| 0 <= j < rs.len() && region_has(rs[j], a);
        assert(rs.push(x)[j] == rs[j]);
        assert(region_has(rs.push(x)[j], a));
    }
    if region_has(x, a) {
        assert(rs.push(x)[rs.len() as int] == x);
        assert(any_region_has(rs.push(x), a));
    }
    if rs.len() == 0 {
        assert(rs.push(x).drop_first() =~= Seq::<MemRegion>::empty());
    } else {
        assert(rs.push(x)[0] == rs[0]);
        assert(rs.push(x).drop_first() =~= rs.drop_first().push(x));
        lemma_first_byte_push(rs.drop_first(), x, a);
        lemma_any_region_unfold(rs, a);
        if !region_has(rs[0], a) {
            assert(first_byte(rs.push(x), a) == first_byte(rs.drop_first().push(x), a));
            assert(first_byte(rs, a) == first_byte(rs.drop_first(), a));
        }
    }
}

/// The snapshot of a target process: its readable byte regions plus the
/// loaded-module table.  Regions added earlier take precedence where two
/// overlap; module names found earlier shadow later duplicates.
pub struct ProcessMemory {
    regions: Vec<MemRegion>,
    modules: Vec<ModuleEntry>,
}

impl View for ProcessMemory {
    type V = TargetView;

    closed spec fn view(&self) -> TargetView {
        TargetView {
            mem: Map::new(
                |a: u64| any_region_has(self.regions@, a),
                |a: u64| first_byte(self.regions@, a),
            ),
            modules: self.modules@.map(|i: int, m: ModuleEntry| (m.name@, m.base, m.size)),
        }
    }
}

/// Byte equality of a vector against a slice.
pub fn vec_slice_eq(a: &Vec<u8>, b: &[u8]) -> (r: bool)
    ensures
        r == (a@ == b@),
{
    if a.len() != b.len() {
        proof {
            assert(a@.len() != b@.len());
        }
        return false;
    }
    let n = a.len();
    let mut i: usize = 0;
    while i < n
        invariant
            i <= n,
            n == a@.len() == b@.len(),
            forall|k: int| 0 <= k < i ==> a@[k] == b@[k],
        decreases n - i,
    {
        if a[i] != b[i] {
            return false;
        }
        i += 1;
    }
    proof {
        assert(a@ =~= b@);
    }
    true
}

impl ProcessMemory {
    /// An empty snapshot: nothing readable, no modules.
    pub fn new() -> (r: ProcessMemory)
        ensures
            r@.mem =~= Map::<u64, u8>::empty(),
            r@.modules =~= Seq::<(Seq<u8>, u64, u64)>::empty(),
    {
        ProcessMemory { regions: Vec::new(), modules: Vec::new() }
    }

    /// Adds a readable region.  Where it overlaps an earlier region the
    /// earlier bytes stay visible.
    pub fn add_region(&mut self, base: u64, bytes: Vec<u8>)
        ensures
            final(self)@.modules == old(self)@.modules,
            forall|a: u64|
                old(self)@.mem.dom().contains(a) ==> final(self)@.mem.dom().contains(a)
                    && final(self)@.mem[a] == old(self)@.mem[a],
            forall|a: u64|
                !old(self)@.mem.dom().contains(a) && base <= a && a - base < bytes@.len()
                    ==> final(self)@.mem.dom().contains(a) && final(self)@.mem[a] == bytes@[a
                    - base],
            forall|a: u64|
                !old(self)@.mem.dom().contains(a) && !(base <= a && a - base < bytes@.len())
                    ==> !final(self)@.mem.dom().contains(a),
    {
        let ghost old_rs = self.regions@;
        let ghost x = MemRegion { base, bytes: bytes };
        let reg = MemRegion { base, bytes };
        self.regions.push(reg);
        proof {
            assert(self.regions@ =~= old_rs.push(x));
            assert forall|a: u64| true implies {
                &&& (any_region_has(old_rs.push(x), a) == (any_region_has(old_rs, a)
                    || region_has(x, a)))
                &&& (any_region_has(old_rs, a) ==> first_byte(old_rs.push(x), a) == first_byte(
                    old_rs,
                    a,
                ))
                &&& (!any_region_has(old_rs, a) && region_has(x, a) ==> first_byte(
                    old_rs.push(x),
                    a,
                ) == x.bytes@[a - x.base])
            } by {
                lemma_first_byte_push(old_rs, x, a);
            }
        }
    }

    /// Registers a loaded module under `name`.
    pub fn add_module(&mut self, name: &str, base: u64, size: u64)
        ensures
            final(self)@.mem == old(self)@.mem,
            final(self)@.modules =~= old(self)@.modules.push((name.spec_bytes(), base, size)),
    {
        let name_bytes = vstd::slice::slice_to_vec(name.as_bytes());
        self.modules.push(ModuleEntry { name: name_bytes, base, size });
        proof {
            assert(self@.modules =~= old(self)@.modules.push((name.spec_bytes(), base, size)));
        }
    }

    /// Reads one byte.
    pub fn read_u8(&self, a: u64) -> (r: Option<u8>)
        ensures
            r == sread8(self@, a),
    {
        let n = self.regions.len();
        let mut j: usize = 0;
        while j < n
            invariant
                j <= n,
                n == self.regions@.len(),
                forall|k: int| 0 <= k < j ==> !region_has(self.regions@[k], a),
            decreases n - j,
        {
            let reg = &self.regions[j];
            if reg.base <= a {
                let off = a - reg.base;
                if off < reg.bytes.len() as u64 {
                    let b = reg.bytes[off as usize];
                    proof {
                        lemma_first_byte_at(self.regions@, a, j as int);
                        assert(self@.mem.dom().contains(a));
                    }
                    return Some(b);
                }
            }
            j += 1;
        }
        proof {
            assert(!any_region_has(self.regions@, a));
        }
        None
    }

    /// Reads `n` consecutive bytes; fails when any byte is unmapped or the
    /// range would run past the end of the address space.
    pub fn read_bytes(&self, a: u64, n: usize) -> (r: Option<Vec<u8>>)
        ensures
            match r {
                Some(b) => sread_bytes(self@, a, n as nat) == Some(b@),
                None => sread_bytes(self@, a, n as nat) is None,
            },
    {
        if n == 0 {
            let out: Vec<u8> = Vec::new();
            proof {
                lemma_bytes_from_read(self@, a, out@);
            }
            return Some(out);
        }
        if a.checked_add((n - 1) as u64).is_none() {
            return None;
        }
        let mut out: Vec<u8> = Vec::new();
        let mut i: usize = 0;
        while i < n
            invariant
                i <= n,
                a + n <= 0x1_0000_0000_0000_0000,
                out@.len() == i,
                bytes_from(self@, a, out@),
            decreases n - i,
        {
            let addr = a + i as u64;
            match self.read_u8(addr) {
                Some(b) => {
                    let ghost o0 = out@;
                    out.push(b);
                    i += 1;
                    proof {
                        assert forall|k: int|
                            0 <= k < out@.len() implies sread8(self@, (a + k) as u64) == Some(
                            #[trigger] out@[k],
                        ) by {
                            if k == out@.len() - 1 {
                                assert(addr == (a + k) as u64);
                                assert(out@[k] == b);
                            } else {
                                assert(out@[k] == o0[k]);
                                assert(sread8(self@, (a + k) as u64) == Some(o0[k]));
                            }
                        }
                    }
                },
                None => {
                    proof {
                        assert(addr == (a + i) as u64);
                        assert(!self@.mem.dom().contains((a + i) as u64));
                    }
                    return None;
                },
            }
        }
        proof {
            lemma_bytes_from_read(self@, a, out@);
        }
        Some(out)
    }

    /// Little-endian 16-bit read.
    pub fn read_u16(&self, a: u64) -> (r: Option<u16>)
        ensures
            r == sread_u16(self@, a),
    {
        match self.read_bytes(a, 2) {
            Some(b) => Some(du16(&b, 0)),
            None => None,
        }
    }

    /// Little-endian 32-bit read.
    pub fn read_u32(&self, a: u64) -> (r: Option<u32>)
        ensures
            r == sread_u32(self@, a),
    {
        match self.read_bytes(a, 4) {
            Some(b) => Some(du32(&b, 0)),
            None => None,
        }
    }

    /// Little-endian 64-bit read.
    pub fn read_u64(&self, a: u64) -> (r: Option<u64>)
        ensures
            r == sread_u64(self@, a),
    {
        match self.read_bytes(a, 8) {
            Some(b) => Some(du64(&b, 0)),
            None => None,
        }
    }

    /// Little-endian 32-bit signed read.
    pub fn read_i32(&self, a: u64) -> (r: Option<i32>)
        ensures
            r == sread_i32(self@, a),
    {
        match self.read_bytes(a, 4) {
            Some(b) => Some(di32(&b, 0)),
            None => None,
        }
    }

    /// Target-pointer read of the given byte width (4 or 8).
    pub fn read_ptr(&self, a: u64, w: u64) -> (r: Option<u64>)
        requires
            w == 4 || w == 8,
        ensures
            r == sread_ptr(self@, a, w),
    {
        if w == 8 {
            self.read_u64(a)
        } else {
            match self.read_u32(a) {
                Some(x) => Some(x as u64),
                None => None,
            }
        }
    }

    /// Base and size of the first module loaded under `name`.
    pub fn get_module_range(&self, name: &str) -> (r: Option<(u64, u64)>)
        ensures
            r == module_span(self@.modules, name.spec_bytes()),
    {
        let nb = name.as_bytes();
        let n = self.modules.len();
        let mut j: usize = 0;
        while j < n
            invariant
                j <= n,
                n == self.modules@.len(),
                nb@ == name.spec_bytes(),
                forall|k: int| 0 <= k < j ==> self@.modules[k].0 != name.spec_bytes(),
            decreases n - j,
        {
            let m = &self.modules[j];
            if vec_slice_eq(&m.name, nb) {
                proof {
                    lemma_module_span_at(self@.modules, name.spec_bytes(), j as int);
                }
                return Some((m.base, m.size));
            }
            j += 1;
        }
        proof {
            lemma_module_span_none(self@.modules, name.spec_bytes());
        }
        None
    }

    /// Base address of the first module loaded under `name`.
    pub fn get_module_address(&self, name: &str) -> (r: Option<u64>)
        ensures
            r == match module_span(self@.modules, name.spec_bytes()) {
                Some((b, _)) => Some(b),
                None => None,
            },
    {
        match self.get_module_range(name) {
            Some((b, _)) => Some(b),
            None => None,
        }
    }
}

proof fn lemma_module_span_at(ms: Seq<(Seq<u8>, u64, u64)>, nm: Seq<u8>, j: int)
    requires
        0 <= j < ms.len(),
        ms[j].0 == nm,
        forall|k: int| 0 <= k < j ==> ms[k].0 != nm,
    ensures
        module_span(ms, nm) == Some((ms[j].1, ms[j].2)),
    decreases j,
{
    if j > 0 {
        assert(ms.drop_first()[j - 1] == ms[j]);
        assert(forall|k: int| 0 <= k < j - 1 ==> ms.drop_first()[k] == ms[k + 1]);
        lemma_module_span_at(ms.drop_first(), nm, j - 1);
    }
}

proof fn lemma_module_span_none(ms: Seq<(Seq<u8>, u64, u64)>, nm: Seq<u8>)
    requires
        forall|k: int| 0 <= k < ms.len() ==> ms[k].0 != nm,
    ensures
        module_span(ms, nm) is None,
    decreases ms.len(),
{
    if ms.len() > 0 {
        assert(forall|k: int| 0 <= k < ms.len() - 1 ==> ms.drop_first()[k] == ms[k + 1]);
        lemma_module_span_none(ms.drop_first(), nm);
    }
}

/// Little-endian 16-bit decode from a byte vector.
pub fn du16(b: &Vec<u8>, i: usize) -> (r: u16)
    requires
        i + 2 <= b@.len(),
    ensures
        r == su16(b@, i as int),
{
    let n = b.len();
    b[i] as u16 + b[i + 1] as u16 * 0x100
}

/// Little-endian 32-bit decode from a byte vector.
pub fn du32(b: &Vec<u8>, i: usize) -> (r: u32)
    requires
        i + 4 <= b@.len(),
    ensures
        r == su32(b@, i as int),
{
    let n = b.len();
    b[i] as u32 + b[i + 1] as u32 * 0x100 + b[i + 2] as u32 * 0x1_0000 + b[i + 3] as u32
        * 0x100_0000
}

/// Little-endian 64-bit decode from a byte vector.
pub fn du64(b: &Vec<u8>, i: usize) -> (r: u64)
    requires
        i + 8 <= b@.len(),
    ensures
        r == su64(b@, i as int),
{
    let n = b.len();
    b[i] as u64 + b[i + 1] as u64 * 0x100 + b[i + 2] as u64 * 0x1_0000 + b[i + 3] as u64
        * 0x100_0000 + b[i + 4] as u64 * 0x1_0000_0000 + b[i + 5] as u64 * 0x100_0000_0000 + b[i
        + 6] as u64 * 0x1_0000_0000_0000 + b[i + 7] as u64 * 0x100_0000_0000_0000
}

/// Little-endian 32-bit signed decode from a byte vector.
pub fn di32(b: &Vec<u8>, i: usize) -> (r: i32)
    requires
        i + 4 <= b@.len(),
    ensures
        r == si32(b@, i as int),
{
    let x = du32(b, i);
    if x >= 0x8000_0000 {
        (x as i64 - 0x1_0000_0000) as i32
    } else {
        x as i32
    }
}

/// Little-endian pointer decode of width `w` (4 or 8) from a byte vector.
pub fn dptr(b: &Vec<u8>, i: usize, w: u64) -> (r: u64)
    requires
        w == 4 || w == 8,
        i + w <= b@.len(),
    ensures
        r == sptr(b@, i as int, w),
{
    if w == 8 {
        du64(b, i)
    } else {
        du32(b, i) as u64
    }
}

/// Sign extension of a 32-bit signed field to a 64-bit index.
pub fn sext(x: i32) -> (r: u64)
    ensures
        r == sext32(x),
{
    if x >= 0 {
        x as u64
    } else {
        let wide: i64 = x as i64;
        let mag: u64 = (-wide) as u64;
        0u64.wrapping_sub(mag)
    }
}

} // verus!

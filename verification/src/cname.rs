//! NUL-truncated name windows.
//!
//! Names in the target are C strings read through a fixed 128-byte window.
//! A window is truncated at its first NUL byte before any comparison; a name
//! whose NUL lies at or past the window's end is compared over the window
//! alone, an accepted truncation.

use vstd::prelude::*;
use crate::mem::{sread8, sread_bytes, TargetView};

verus! {

/// Fixed byte width of every C-string read window.
pub const NAME_WINDOW: usize = 128;

/// Index of the first NUL byte of `s`, or `s.len()` when none occurs.
pub open spec fn nul_pos(s: Seq<u8>) -> int
    decreases s.len(),
{
    if s.len() == 0 {
        0
    } else if s[0] == 0 {
        0
    } else {
        1 + nul_pos(s.drop_first())
    }
}

/// The name carried by a window: its bytes before the first NUL.
pub open spec fn trunc_nul(s: Seq<u8>) -> Seq<u8> {
    s.take(nul_pos(s))
}

/// `nul_pos` is a position in `s`, everything before it is non-NUL, and it
/// lands on a NUL whenever one occurs.
pub proof fn lemma_nul_pos(s: Seq<u8>)
    ensures
        0 <= nul_pos(s) <= s.len(),
        forall|k: int| 0 <= k < nul_pos(s) ==> s[k] != 0,
        nul_pos(s) < s.len() ==> s[nul_pos(s)] == 0,
    decreases s.len(),
{
    if s.len() > 0 && s[0] != 0 {
        lemma_nul_pos(s.drop_first());
        assert forall|k: int| 0 <= k < nul_pos(s) implies s[k] != 0 by {
            if k > 0 {
                assert(s.drop_first()[k - 1] == s[k]);
            }
        }
    }
}

/// A NUL at index 0 produces the empty name, which matches the empty query
/// and only the empty query.
pub proof fn lemma_nul_at_zero(s: Seq<u8>, q: Seq<u8>)
    requires
        s.len() > 0,
        s[0] == 0,
    ensures
        trunc_nul(s) =~= Seq::<u8>::empty(),
        (trunc_nul(s) == q) <==> (q.len() == 0),
{
    assert(nul_pos(s) == 0);
    if q.len() == 0 {
        assert(trunc_nul(s) =~= q);
    }
}

/// A window without any NUL byte compares as the window itself: a name at
/// least as long as the window is cut down to the window's bytes.
pub proof fn lemma_no_nul_full_window(s: Seq<u8>)
    requires
        forall|k: int| 0 <= k < s.len() ==> s[k] != 0,
    ensures
        trunc_nul(s) =~= s,
    decreases s.len(),
{
    lemma_nul_pos(s);
    if s.len() > 0 {
        assert forall|k: int| 0 <= k < s.drop_first().len() implies s.drop_first()[k] != 0 by {
            assert(s.drop_first()[k] == s[k + 1]);
        }
        lemma_no_nul_full_window(s.drop_first());
    }
}

/// The two targets read the same byte at offset `i` past `a`.
pub open spec fn agree_at(v1: TargetView, v2: TargetView, a: u64, i: int) -> bool {
    sread8(v1, (a + i) as u64) == sread8(v2, (a + i) as u64)
}

/// A name read depends only on the bytes inside its window: two targets that
/// agree on the window's span read the same window.
pub proof fn lemma_window_local(v1: TargetView, v2: TargetView, a: u64, n: nat)
    requires
        forall|i: int| 0 <= i < n ==> #[trigger] agree_at(v1, v2, a, i),
    ensures
        sread_bytes(v1, a, n) == sread_bytes(v2, a, n),
{
    if a + n <= 0x1_0000_0000_0000_0000 {
        assert forall|i: int| 0 <= i < n implies #[trigger] v1.mem.dom().contains((a + i) as u64)
            == v2.mem.dom().contains((a + i) as u64) by {
            assert(agree_at(v1, v2, a, i));
            assert(sread8(v1, (a + i) as u64) == sread8(v2, (a + i) as u64));
        }
        if forall|i: int| 0 <= i < n ==> #[trigger] v1.mem.dom().contains((a + i) as u64) {
            assert forall|i: int| 0 <= i < n implies #[trigger] v2.mem.dom().contains((a
                + i) as u64) by {
                assert(v1.mem.dom().contains((a + i) as u64));
            }
            assert forall|i: int| 0 <= i < n implies #[trigger] v1.mem[(a + i) as u64] == v2.mem[(a
                + i) as u64] by {
                assert(agree_at(v1, v2, a, i));
                assert(sread8(v1, (a + i) as u64) == sread8(v2, (a + i) as u64));
            }
            assert(Seq::new(n, |i: int| v1.mem[(a + i) as u64]) =~= Seq::new(
                n,
                |i: int| v2.mem[(a + i) as u64],
            ));
        } else {
            let i = choose|i: int| 0 <= i < n && !#[trigger] v1.mem.dom().contains((a + i) as u64);
            assert(agree_at(v1, v2, a, i));
            assert(!v2.mem.dom().contains((a + i) as u64));
        }
    }
}

/// Whether the NUL-truncated window `w` equals the query bytes `q`.
pub fn name_matches(w: &Vec<u8>, q: &[u8]) -> (r: bool)
    ensures
        r == (trunc_nul(w@) == q@),
{
    proof {
        lemma_nul_pos(w@);
    }
    let n = w.len();
    let mut p: usize = 0;
    while p < n && w[p] != 0
        invariant
            p <= n,
            n == w@.len(),
            forall|k: int| 0 <= k < p ==> w@[k] != 0,
        decreases n - p,
    {
        p += 1;
    }
    proof {
        assert(nul_pos(w@) == p) by {
            lemma_nul_pos(w@);
            if nul_pos(w@) < p {
                assert(w@[nul_pos(w@)] != 0);
            }
            if p < nul_pos(w@) {
                assert(w@[p as int] != 0);
            }
        }
    }
    if p != q.len() {
        proof {
            assert(trunc_nul(w@).len() == p);
        }
        return false;
    }
    let mut i: usize = 0;
    while i < p
        invariant
            i <= p,
            p == nul_pos(w@) <= w@.len(),
            p == q@.len(),
            forall|k: int| 0 <= k < i ==> w@[k] == q@[k],
        decreases p - i,
    {
        if w[i] != q[i] {
            proof {
                assert(trunc_nul(w@)[i as int] == w@[i as int]);
            }
            return false;
        }
        i += 1;
    }
    proof {
        assert(trunc_nul(w@) =~= q@);
    }
    true
}

} // verus!

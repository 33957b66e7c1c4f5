//! The exception-fixup table: a sorted array of (faulting address, recovery
//! address) pairs that lets selected privileged memory accesses fail soft.
//!
//! The table is built once, before traps are enabled, by
//! [`init_exception_table`], which sorts the linker-provided entries in
//! ascending order of faulting address; it is read-only thereafter.

use vstd::prelude::*;
use vstd::seq_lib::*;
use crate::addr::VirtAddr;
use crate::trap::PageFaultFlags;

pub use crate::aarch64::uctx::{ExceptionInfo, UserContext};

verus! {

/// Why control returned from a user-mode execution session. Exactly one is
/// produced per entry into user mode.
#[derive(Debug, Clone, Copy, PartialEq, Eq, Structural)]
pub enum ReturnReason {
    /// None of the kinds below; not normally observed.
    Unknown,
    /// An interrupt arrived during user-mode execution.
    Interrupt,
    /// The system-call instruction was executed.
    Syscall,
    /// A handleable memory abort at the given address, with the access that
    /// faulted.
    PageFault(VirtAddr, PageFaultFlags),
    /// Any other exception, with its raw syndrome kept for diagnostics.
    Exception(ExceptionInfo),
}

/// Portable classification of a user-space exception.
#[derive(Debug, Clone, Copy, PartialEq, Eq, Structural)]
pub enum ExceptionKind {
    Other,
    Breakpoint,
    IllegalInstruction,
    Misaligned,
}

/// One protected instruction: the address at which it may fault and the
/// address at which execution recovers.
#[derive(Debug, Clone, Copy, PartialEq, Eq, Structural)]
pub struct ExceptionTableEntry {
    pub from: usize,
    pub to: usize,
}

/// The faulting addresses appear in ascending order.
pub open spec fn entries_sorted(s: Seq<ExceptionTableEntry>) -> bool {
    forall|i: int, j: int| 0 <= i <= j < s.len() ==> #[trigger] s[i].from <= #[trigger] s[j].from
}

/// The faulting addresses appear in strictly ascending order.
pub open spec fn entries_strictly_sorted(s: Seq<ExceptionTableEntry>) -> bool {
    forall|i: int, j: int| 0 <= i < j < s.len() ==> #[trigger] s[i].from < #[trigger] s[j].from
}

/// No two entries share a faulting address.
pub open spec fn froms_distinct(s: Seq<ExceptionTableEntry>) -> bool {
    forall|i: int, j: int| 0 <= i < j < s.len() ==> #[trigger] s[i].from != #[trigger] s[j].from
}

/// Some entry faults at `ip`.
pub open spec fn contains_from(s: Seq<ExceptionTableEntry>, ip: usize) -> bool {
    exists|i: int| 0 <= i < s.len() && #[trigger] s[i].from == ip
}

/// Sorts the entries in place, ascending by faulting address, keeping exactly
/// the same entries.
fn sort_entries(v: &mut Vec<ExceptionTableEntry>)
    ensures
        entries_sorted(final(v)@),
        final(v)@.to_multiset() == old(v)@.to_multiset(),
{
    if v.len() <= 1 {
        return ;
    }
    let mut i: usize = 1;
    while i < v.len()
        invariant
            1 <= i <= v@.len(),
            v@.len() == old(v)@.len(),
            entries_sorted(v@.subrange(0, i as int)),
            v@.to_multiset() == old(v)@.to_multiset(),
        decreases v@.len() - i,
    {
        let key = v[i];
        let ghost u = v@;
        let mut pos: usize = i;
        while pos > 0 && v[pos - 1].from > key.from
            invariant
                pos <= i < v@.len(),
                v@ == u,
                key == u[i as int],
                forall|k: int| pos <= k < i ==> (#[trigger] u[k].from) > key.from,
            decreases pos,
        {
            pos = pos - 1;
        }
        let e = v.remove(i);
        v.insert(pos, e);
        proof {
            broadcast use vstd::seq_lib::group_to_multiset_ensures;
            broadcast use vstd::seq_lib::to_multiset_insert;
            broadcast use vstd::multiset::group_multiset_axioms;

            let w = u.remove(i as int);
            let x = w.insert(pos as int, e);
            assert(v@ == x);
            u.remove_ensures(i as int);
            w.insert_ensures(pos as int, e);

            // The sorted prefix of `u`, indexed directly.
            assert forall|m: int, n: int|
                0 <= m <= n < i implies (#[trigger] u[m].from) <= (#[trigger] u[n].from) by {
                assert(u.subrange(0, i as int)[m] == u[m]);
                assert(u.subrange(0, i as int)[n] == u[n]);
            }

            // The same entries: removing u[i] and inserting it back.
            assert(u.contains(u[i as int]));
            assert(u.to_multiset().count(u[i as int]) > 0);
            assert(x.to_multiset() =~= u.to_multiset());

            // The grown prefix is sorted.
            assert forall|a: int, b: int|
                0 <= a <= b < i + 1 implies (#[trigger] x[a].from) <= (#[trigger] x[b].from) by {
                if a < pos {
                    assert(x[a] == u[a]);
                }
                if b < pos {
                    assert(x[b] == u[b]);
                }
                if pos < a {
                    assert(x[a] == u[a - 1]);
                }
                if pos < b {
                    assert(x[b] == u[b - 1]);
                }
                if a < pos && b == pos {
                    assert(u[a].from <= u[pos - 1].from);
                    assert(u[pos - 1].from <= key.from);
                }
                if a == pos && pos < b {
                    assert(u[b - 1].from > key.from);
                }
                if a < pos && pos < b {
                    assert(u[a].from <= u[pos - 1].from);
                    assert(u[b - 1].from > key.from);
                }
            }
            assert(entries_sorted(x.subrange(0, i as int + 1)));
        }
        i = i + 1;
    }
    proof {
        assert(v@.subrange(0, i as int) =~= v@);
    }
}

/// Distinct faulting addresses survive any reordering of the entries.
proof fn lemma_distinct_froms_permutation(x: Seq<ExceptionTableEntry>, y: Seq<ExceptionTableEntry>)
    requires
        froms_distinct(x),
        x.to_multiset() == y.to_multiset(),
    ensures
        froms_distinct(y),
{
    broadcast use vstd::seq_lib::group_to_multiset_ensures;
    broadcast use vstd::multiset::group_multiset_axioms;

    assert(x.no_duplicates()) by {
        assert forall|i: int, j: int|
            0 <= i < x.len() && 0 <= j < x.len() && i != j implies x[i] != x[j] by {
            if i < j {
                assert(x[i].from != x[j].from);
            } else {
                assert(x[j].from != x[i].from);
            }
        }
    }
    x.lemma_multiset_has_no_duplicates();
    y.lemma_multiset_has_no_duplicates_conv();
    assert forall|i: int, j: int|
        0 <= i < j < y.len() implies (#[trigger] y[i].from) != (#[trigger] y[j].from) by {
        assert(y[i] != y[j]);
        assert(y.contains(y[i]));
        assert(y.contains(y[j]));
        assert(x.to_multiset().count(y[i]) > 0);
        assert(x.to_multiset().count(y[j]) > 0);
        let a = choose|a: int| 0 <= a < x.len() && x[a] == y[i];
        let b = choose|b: int| 0 <= b < x.len() && x[b] == y[j];
        if y[i].from == y[j].from {
            assert(a != b);
            if a < b {
                assert(x[a].from != x[b].from);
            } else {
                assert(x[b].from != x[a].from);
            }
        }
    }
}

/// Law: a table sorted by faulting address with no duplicate faulting
/// addresses is the only such arrangement of its entries. Hence sorting is
/// deterministic, and re-sorting an already-sorted table changes nothing.
pub proof fn lemma_sorted_distinct_unique(x: Seq<ExceptionTableEntry>, y: Seq<ExceptionTableEntry>)
    requires
        entries_sorted(x),
        entries_sorted(y),
        froms_distinct(x),
        x.to_multiset() == y.to_multiset(),
    ensures
        x == y,
    decreases x.len(),
{
    broadcast use vstd::seq_lib::group_to_multiset_ensures;
    broadcast use vstd::multiset::group_multiset_axioms;

    if x.len() == 0 {
        assert(y.to_multiset().len() == 0);
        assert(x =~= y);
    } else if y.len() == 0 {
        assert(x.to_multiset().len() == 0);
        assert(x =~= y);
    } else {
        // Both first elements carry the minimal faulting address, so they agree.
        assert(x.contains(x[0]));
        assert(y.to_multiset().count(x[0]) > 0);
        let b = choose|b: int| 0 <= b < y.len() && y[b] == x[0];
        assert(y[0].from <= y[b].from);
        assert(y.contains(y[0]));
        assert(x.to_multiset().count(y[0]) > 0);
        let a = choose|a: int| 0 <= a < x.len() && x[a] == y[0];
        assert(x[0].from <= x[a].from);
        assert(x[0].from == x[a].from);
        if a != 0 {
            assert(x[0].from != x[a].from);
        }
        assert(x[0] == y[0]);

        let xt = x.drop_first();
        let yt = y.drop_first();
        assert(x.remove(0) =~= xt);
        assert(y.remove(0) =~= yt);
        assert(xt.to_multiset() =~= x.to_multiset().remove(x[0]));
        assert(yt.to_multiset() =~= y.to_multiset().remove(y[0]));
        assert(entries_sorted(xt)) by {
            assert forall|i: int, j: int|
                0 <= i <= j < xt.len() implies (#[trigger] xt[i].from) <= (#[trigger] xt[j].from) by {
                assert(x[i + 1].from <= x[j + 1].from);
            }
        }
        assert(entries_sorted(yt)) by {
            assert forall|i: int, j: int|
                0 <= i <= j < yt.len() implies (#[trigger] yt[i].from) <= (#[trigger] yt[j].from) by {
                assert(y[i + 1].from <= y[j + 1].from);
            }
        }
        assert(froms_distinct(xt)) by {
            assert forall|i: int, j: int|
                0 <= i < j < xt.len() implies (#[trigger] xt[i].from) != (#[trigger] xt[j].from) by {
                assert(x[i + 1].from != x[j + 1].from);
            }
        }
        lemma_sorted_distinct_unique(xt, yt);
        assert(x =~= y) by {
            assert forall|k: int| 0 <= k < x.len() implies x[k] == y[k] by {
                if k > 0 {
                    assert(xt[k - 1] == yt[k - 1]);
                }
            }
        }
    }
}

/// Law: build the table from entries given in arbitrary order, with distinct
/// faulting addresses. Then each given entry's faulting address is found in
/// the table, and every table entry carrying that address is the given entry
/// itself — so a fixup at that address rewrites the instruction pointer to
/// exactly that entry's recovery address.
pub proof fn lemma_init_finds_every_entry(
    input: Seq<ExceptionTableEntry>,
    t: Seq<ExceptionTableEntry>,
    k: int,
)
    requires
        froms_distinct(input),
        forall|e: ExceptionTableEntry| #[trigger] t.contains(e) <==> input.contains(e),
        0 <= k < input.len(),
    ensures
        contains_from(t, input[k].from),
        forall|i: int|
            0 <= i < t.len() && (#[trigger] t[i]).from == input[k].from ==> t[i] == input[k],
{
    assert(input.contains(input[k]));
    assert(t.contains(input[k]));
    let w = choose|w: int| 0 <= w < t.len() && t[w] == input[k];
    assert(t[w].from == input[k].from);
    assert forall|i: int|
        0 <= i < t.len() && (#[trigger] t[i]).from == input[k].from implies t[i] == input[k] by {
        assert(t.contains(t[i]));
        assert(input.contains(t[i]));
        let j = choose|j: int| 0 <= j < input.len() && input[j] == t[i];
        if j != k {
            if j < k {
                assert(input[j].from != input[k].from);
            } else {
                assert(input[k].from != input[j].from);
            }
        }
    }
}

/// The exception-fixup table, sorted ascending by faulting address.
pub struct ExceptionTable {
    entries: Vec<ExceptionTableEntry>,
}

impl View for ExceptionTable {
    type V = Seq<ExceptionTableEntry>;

    closed spec fn view(&self) -> Seq<ExceptionTableEntry> {
        self.entries@
    }
}

impl ExceptionTable {
    /// The entries of every table are sorted; established once by
    /// [`init_exception_table`] and kept by the table being read-only.
    #[verifier::type_invariant]
    spec fn inv(self) -> bool {
        entries_sorted(self.entries@)
    }

    /// How many entries the table holds.
    pub fn len(&self) -> (r: usize)
        ensures
            r == self@.len(),
    {
        self.entries.len()
    }

    /// The entry at the given position.
    pub fn entry_at(&self, i: usize) -> (r: ExceptionTableEntry)
        requires
            i < self@.len(),
        ensures
            r == self@[i as int],
    {
        self.entries[i]
    }

    /// Binary search for the entry faulting at `ip`: its recovery address on
    /// an exact match, nothing otherwise.
    pub fn lookup(&self, ip: usize) -> (r: Option<usize>)
        ensures
            match r {
                Some(to) => exists|i: int|
                    0 <= i < self@.len() && (#[trigger] self@[i]).from == ip && self@[i].to == to,
                None => !contains_from(self@, ip),
            },
    {
        proof {
            use_type_invariant(self);
        }
        let mut lo: usize = 0;
        let mut hi: usize = self.entries.len();
        while lo < hi
            invariant
                lo <= hi <= self@.len(),
                entries_sorted(self@),
                forall|k: int| 0 <= k < lo ==> (#[trigger] self@[k].from) < ip,
                forall|k: int| hi <= k < self@.len() ==> (#[trigger] self@[k].from) > ip,
            decreases hi - lo,
        {
            let mid = lo + (hi - lo) / 2;
            let e = self.entries[mid];
            if e.from == ip {
                return Some(e.to);
            } else if e.from < ip {
                lo = mid + 1;
            } else {
                hi = mid;
            }
        }
        None
    }
}

/// Builds the exception-fixup table from the entries as the linker emitted
/// them, in arbitrary order: sorts them ascending by faulting address, in
/// place, keeping exactly the given entries.
///
/// With distinct faulting addresses the order is strictly ascending, and
/// sorting an already-sorted array leaves it exactly as it was.
pub fn init_exception_table(entries: Vec<ExceptionTableEntry>) -> (t: ExceptionTable)
    ensures
        entries_sorted(t@),
        t@.to_multiset() == entries@.to_multiset(),
        t@.len() == entries@.len(),
        forall|e: ExceptionTableEntry| #[trigger] t@.contains(e) <==> entries@.contains(e),
        froms_distinct(entries@) ==> entries_strictly_sorted(t@),
        entries_sorted(entries@) && froms_distinct(entries@) ==> t@ == entries@,
{
    let ghost orig = entries@;
    let mut v = entries;
    sort_entries(&mut v);
    proof {
        broadcast use vstd::seq_lib::group_to_multiset_ensures;

        assert(v@.len() == orig.len()) by {
            assert(v@.to_multiset().len() == orig.to_multiset().len());
        }
        assert forall|e: ExceptionTableEntry| #[trigger] v@.contains(e) <==> orig.contains(e) by {
            assert(v@.contains(e) <==> v@.to_multiset().count(e) > 0);
            assert(orig.contains(e) <==> orig.to_multiset().count(e) > 0);
        }
        if froms_distinct(orig) {
            lemma_distinct_froms_permutation(orig, v@);
            assert(entries_strictly_sorted(v@)) by {
                assert forall|i: int, j: int|
                    0 <= i < j < v@.len() implies (#[trigger] v@[i].from) < (#[trigger] v@[j].from) by {
                    assert(v@[i].from <= v@[j].from);
                    assert(v@[i].from != v@[j].from);
                }
            }
            if entries_sorted(orig) {
                lemma_sorted_distinct_unique(orig, v@);
            }
        }
    }
    ExceptionTable { entries: v }
}

} // verus!

//! Static jump-destination analysis of EVM-style bytecode.
//!
//! A single left-to-right scan classifies every byte offset: an offset is a
//! valid jump target exactly when it holds the JUMPDEST opcode and is reached
//! as an instruction boundary, never as a byte inside the immediate operand of
//! a preceding PUSH instruction.

use vstd::prelude::*;

verus! {

/// Opcode marking a legal jump target.
pub const JUMPDEST: u8 = 0x5b;

/// First opcode of the PUSH family (pushes 1 immediate byte).
pub const PUSH1: u8 = 0x60;

/// Last opcode of the PUSH family (pushes 32 immediate bytes).
pub const PUSH32: u8 = 0x7f;

/// True when `op` is one of PUSH1..PUSH32.
pub open spec fn is_push(op: u8) -> bool {
    PUSH1 <= op && op <= PUSH32
}

/// Number of immediate operand bytes that a PUSH opcode consumes (1..32).
pub open spec fn push_data_len(op: u8) -> nat
    recommends
        is_push(op),
{
    (op - PUSH1 + 1) as nat
}

/// The instruction boundary that follows the instruction starting at `i`:
/// a PUSH skips its opcode byte and all its immediate bytes, every other
/// opcode occupies a single byte.
pub open spec fn next_boundary(code: Seq<u8>, i: nat) -> nat {
    if i < code.len() && is_push(code[i as int]) {
        i + push_data_len(code[i as int]) + 1
    } else {
        i + 1
    }
}

/// True when the scan that stands at instruction boundary `i` reaches `o`
/// as an instruction boundary.
pub open spec fn reaches(code: Seq<u8>, i: nat, o: nat) -> bool
    decreases o - i,
{
    if i >= o {
        i == o
    } else if next_boundary(code, i) > o {
        false
    } else {
        reaches(code, next_boundary(code, i), o)
    }
}

/// The specification of the analysis: offset `o` is a valid jump destination
/// of `code` iff it holds JUMPDEST and the scan from offset 0 reaches it as
/// an instruction boundary.
pub open spec fn is_jumpdest(code: Seq<u8>, o: nat) -> bool {
    o < code.len() && code[o as int] == JUMPDEST && reaches(code, 0, o)
}

/// The scan path is a chain: reaching two boundaries from a common start
/// means the earlier one reaches the later one.
pub proof fn lemma_reaches_connect(code: Seq<u8>, s: nat, a: nat, b: nat)
    requires
        reaches(code, s, a),
        reaches(code, s, b),
        a <= b,
    ensures
        reaches(code, a, b),
    decreases a - s,
{
    if s < a {
        lemma_reaches_connect(code, next_boundary(code, s), a, b);
    }
}

/// Reaching a boundary extends one step to the boundary that follows it.
pub proof fn lemma_reaches_step(code: Seq<u8>, i: nat)
    requires
        reaches(code, 0, i),
    ensures
        reaches(code, 0, next_boundary(code, i)),
    decreases i,
{
    lemma_reaches_append(code, 0, i);
}

/// Appending one scan step to a reachable boundary keeps it reachable.
proof fn lemma_reaches_append(code: Seq<u8>, s: nat, i: nat)
    requires
        reaches(code, s, i),
    ensures
        reaches(code, s, next_boundary(code, i)),
    decreases i - s,
{
    if s < i {
        lemma_reaches_append(code, next_boundary(code, s), i);
    } else {
        let n = next_boundary(code, i);
        assert(reaches(code, n, n));
        assert(reaches(code, i, n));
    }
}

/// No offset strictly inside the immediate range of the instruction at
/// reachable boundary `i` is itself reachable from 0.
pub proof fn lemma_gap_not_reached(code: Seq<u8>, i: nat, o: nat)
    requires
        reaches(code, 0, i),
        i < o < next_boundary(code, i),
    ensures
        !reaches(code, 0, o),
{
    if reaches(code, 0, o) {
        lemma_reaches_connect(code, 0, i, o);
    }
}

/// A contract's code together with its jump-destination validity table.
///
/// The table is computed once, when the value is built, and never mutated
/// afterwards; it may therefore be shared read-only across any number of
/// interpretations of the same code.
pub struct Bytecode<'c> {
    code: &'c [u8],
    jmpdest: Vec<bool>,
}

impl<'c> Bytecode<'c> {
    /// The code bytes this value was built over.
    pub closed spec fn code_view(self) -> Seq<u8> {
        self.code@
    }

    /// The per-offset validity table.
    pub closed spec fn table_view(self) -> Seq<bool> {
        self.jmpdest@
    }

    /// The table classifies exactly the offsets of the code.
    pub open spec fn wf(self) -> bool {
        self.table_view().len() == self.code_view().len()
    }

    /// Builds the pair of a code view and its validity table from the list
    /// of valid destination offsets that [`Bytecode::compute_jmpdest`]
    /// produced for the same code.
    pub fn new(bytecode: &'c [u8], jmpdest: &Vec<u16>) -> (r: Self)
        requires
            forall|j: int|
                0 <= j < jmpdest@.len() ==> (jmpdest@[j] as nat) < bytecode@.len(),
        ensures
            r.code_view() == bytecode@,
            r.wf(),
            forall|o: int|
                0 <= o < bytecode@.len()
                    ==> (r.table_view()[o] <==> exists|j: int|
                    0 <= j < jmpdest@.len() && jmpdest@[j] as int == o),
    {
        let n = bytecode.len();
        let mut jmpdest_tab: Vec<bool> = Vec::with_capacity(n);
        jmpdest_tab.resize(n, false);
        let mut k: usize = 0;
        while k < jmpdest.len()
            invariant
                jmpdest_tab@.len() == bytecode@.len(),
                k <= jmpdest@.len(),
                forall|j: int|
                    0 <= j < jmpdest@.len() ==> (jmpdest@[j] as nat) < bytecode@.len(),
                forall|o: int|
                    0 <= o < bytecode@.len()
                        ==> (jmpdest_tab@[o] <==> exists|j: int|
                        0 <= j < k && jmpdest@[j] as int == o),
            decreases jmpdest@.len() - k,
        {
            let i = jmpdest[k];
            jmpdest_tab[i as usize] = true;
            k += 1;
        }
        Self { code: bytecode, jmpdest: jmpdest_tab }
    }

    /// Scans the code once, left to right, and returns the strictly
    /// increasing list of all valid jump-destination offsets: exactly the
    /// offsets that hold JUMPDEST at a reached instruction boundary, never
    /// a JUMPDEST-valued byte inside a PUSH's immediate operand.
    pub fn compute_jmpdest(bytecode: &[u8]) -> (r: Vec<u16>)
        requires
            bytecode@.len() <= 0x10000,
        ensures
            forall|j: int| 0 <= j < r@.len() ==> is_jumpdest(bytecode@, r@[j] as nat),
            forall|o: nat|
                is_jumpdest(bytecode@, o) ==> exists|j: int|
                    0 <= j < r@.len() && r@[j] as nat == o,
            forall|j1: int, j2: int| 0 <= j1 < j2 < r@.len() ==> r@[j1] < r@[j2],
    {
        let ghost code = bytecode@;
        let n = bytecode.len();
        let mut jmpdest: Vec<u16> = Vec::new();
        let mut i: usize = 0;
        while i < n
            invariant
                n == code.len() <= 0x10000,
                code == bytecode@,
                i <= n,
                i < n ==> reaches(code, 0, i as nat),
                forall|j: int|
                    0 <= j < jmpdest@.len()
                        ==> is_jumpdest(code, jmpdest@[j] as nat) && (jmpdest@[j] as nat) < i,
                forall|o: nat|
                    o < i && is_jumpdest(code, o) ==> exists|j: int|
                        0 <= j < jmpdest@.len() && jmpdest@[j] as nat == o,
                forall|j1: int, j2: int|
                    0 <= j1 < j2 < jmpdest@.len() ==> jmpdest@[j1] < jmpdest@[j2],
            decreases n - i,
        {
            let op = bytecode[i];
            let ghost pre = jmpdest@;
            proof {
                lemma_reaches_step(code, i as nat);
            }
            if op == JUMPDEST {
                assert(is_jumpdest(code, i as nat));
                jmpdest.push(i as u16);
                proof {
                    assert forall|o: nat| o < i + 1 && is_jumpdest(code, o) implies exists|j: int|
                        0 <= j < jmpdest@.len() && jmpdest@[j] as nat == o by {
                        if o < i {
                            let j = choose|j: int| 0 <= j < pre.len() && pre[j] as nat == o;
                            assert(jmpdest@[j] as nat == o);
                        } else {
                            assert(jmpdest@[pre.len() as int] as nat == i as nat);
                        }
                    }
                }
                i = i + 1;
            } else if op >= PUSH1 && op <= PUSH32 {
                let skip = (op - PUSH1) as usize + 2;
                proof {
                    assert(next_boundary(code, i as nat) == i + skip);
                    assert forall|o: nat| i <= o < i + skip implies !is_jumpdest(code, o) by {
                        if i < o {
                            lemma_gap_not_reached(code, i as nat, o);
                        }
                    }
                }
                if skip < n - i {
                    i = i + skip;
                } else {
                    i = n;
                }
            } else {
                assert(!is_jumpdest(code, i as nat));
                i = i + 1;
            }
        }
        jmpdest
    }

    /// Checks if the interpreter is allowed to jump to this location.
    ///
    /// This location must begin with a JUMPDEST opcode that marks a valid
    /// jump destination. Returns `false` for every offset at or past the end
    /// of the table; it never panics, however often it is queried.
    pub fn valid_jmpdest(&self, offset: usize) -> (r: bool)
        ensures
            r == (offset < self.table_view().len() && self.table_view()[offset as int]),
    {
        offset < self.jmpdest.len() && self.jmpdest[offset]
    }

    /// Read-only view of the code bytes, for instruction fetch.
    pub fn as_bytes(&self) -> (r: &'c [u8])
        ensures
            r@ == self.code_view(),
    {
        self.code
    }
}

/// A table built by [`Bytecode::new`] from the offsets that
/// [`Bytecode::compute_jmpdest`] produced for the same code marks an offset
/// `true` exactly when that offset holds JUMPDEST and is reached as an
/// instruction boundary of the scan, never as a byte inside a preceding
/// PUSH's immediate operand.
pub proof fn lemma_table_characterizes_jumpdests(code: Seq<u8>, ds: Seq<u16>, table: Seq<bool>)
    requires
        forall|j: int| 0 <= j < ds.len() ==> is_jumpdest(code, ds[j] as nat),
        forall|o: nat|
            is_jumpdest(code, o) ==> exists|j: int| 0 <= j < ds.len() && ds[j] as nat == o,
        table.len() == code.len(),
        forall|o: int|
            0 <= o < code.len()
                ==> (table[o] <==> exists|j: int| 0 <= j < ds.len() && ds[j] as int == o),
    ensures
        forall|o: int| 0 <= o < table.len() ==> table[o] == is_jumpdest(code, o as nat),
{
    assert forall|o: int| 0 <= o < table.len() implies table[o] == is_jumpdest(
        code,
        o as nat,
    ) by {
        if table[o] {
            let j = choose|j: int| 0 <= j < ds.len() && ds[j] as int == o;
            assert(is_jumpdest(code, ds[j] as nat));
        }
        if is_jumpdest(code, o as nat) {
            let j = choose|j: int| 0 <= j < ds.len() && ds[j] as nat == o as nat;
            assert(ds[j] as int == o);
        }
    }
}

/// The analysis is a pure function of the code bytes: any two offset lists
/// that satisfy the contract of [`Bytecode::compute_jmpdest`] for the same
/// code are bit-identical.
pub proof fn lemma_scan_deterministic(code: Seq<u8>, r1: Seq<u16>, r2: Seq<u16>)
    requires
        forall|j: int| 0 <= j < r1.len() ==> is_jumpdest(code, r1[j] as nat),
        forall|o: nat|
            is_jumpdest(code, o) ==> exists|j: int| 0 <= j < r1.len() && r1[j] as nat == o,
        forall|j1: int, j2: int| 0 <= j1 < j2 < r1.len() ==> r1[j1] < r1[j2],
        forall|j: int| 0 <= j < r2.len() ==> is_jumpdest(code, r2[j] as nat),
        forall|o: nat|
            is_jumpdest(code, o) ==> exists|j: int| 0 <= j < r2.len() && r2[j] as nat == o,
        forall|j1: int, j2: int| 0 <= j1 < j2 < r2.len() ==> r2[j1] < r2[j2],
    ensures
        r1 == r2,
{
    assert forall|v: u16| #![trigger r1.contains(v)] #![trigger r2.contains(v)] r1.contains(v) <==> r2.contains(v) by {
        if r1.contains(v) {
            let j = choose|j: int| 0 <= j < r1.len() && r1[j] == v;
            assert(is_jumpdest(code, r1[j] as nat));
            let k = choose|k: int| 0 <= k < r2.len() && r2[k] as nat == v as nat;
            assert(r2[k] == v);
        }
        if r2.contains(v) {
            let j = choose|j: int| 0 <= j < r2.len() && r2[j] == v;
            assert(is_jumpdest(code, r2[j] as nat));
            let k = choose|k: int| 0 <= k < r1.len() && r1[k] as nat == v as nat;
            assert(r1[k] == v);
        }
    }
    lemma_strictly_sorted_same_elems(r1, r2);
    assert(r1 =~= r2);
}

/// Two strictly increasing sequences that hold the same values are equal.
proof fn lemma_strictly_sorted_same_elems(r1: Seq<u16>, r2: Seq<u16>)
    requires
        forall|j1: int, j2: int| 0 <= j1 < j2 < r1.len() ==> r1[j1] < r1[j2],
        forall|j1: int, j2: int| 0 <= j1 < j2 < r2.len() ==> r2[j1] < r2[j2],
        forall|v: u16| #![trigger r1.contains(v)] #![trigger r2.contains(v)] r1.contains(v) <==> r2.contains(v),
    ensures
        r1 =~= r2,
    decreases r1.len(),
{
    if r1.len() == 0 {
        if r2.len() > 0 {
            assert(r2.contains(r2[0]));
        }
    } else if r2.len() == 0 {
        assert(r1.contains(r1[0]));
    } else {
        assert(r1.contains(r1[0]));
        assert(r2.contains(r2[0]));
        assert(r2.contains(r1[0]));
        assert(r1.contains(r2[0]));
        let j = choose|j: int| 0 <= j < r2.len() && r2[j] == r1[0];
        let k = choose|k: int| 0 <= k < r1.len() && r1[k] == r2[0];
        if j > 0 {
            assert(r2[0] < r2[j]);
        }
        if k > 0 {
            assert(r1[0] < r1[k]);
        }
        assert(r1[0] == r2[0]);
        let t1 = r1.subrange(1, r1.len() as int);
        let t2 = r2.subrange(1, r2.len() as int);
        assert forall|j1: int, j2: int| 0 <= j1 < j2 < t1.len() implies t1[j1] < t1[j2] by {
            assert(r1[j1 + 1] < r1[j2 + 1]);
        }
        assert forall|j1: int, j2: int| 0 <= j1 < j2 < t2.len() implies t2[j1] < t2[j2] by {
            assert(r2[j1 + 1] < r2[j2 + 1]);
        }
        assert forall|v: u16| #![trigger t1.contains(v)] #![trigger t2.contains(v)] t1.contains(v) <==> t2.contains(v) by {
            if t1.contains(v) {
                let a = choose|a: int| 0 <= a < t1.len() && t1[a] == v;
                assert(r1[a + 1] == v);
                assert(r1.contains(v));
                let b = choose|b: int| 0 <= b < r2.len() && r2[b] == v;
                assert(r1[0] < v);
                assert(b > 0);
                assert(t2[b - 1] == v);
                assert(t2.contains(v));
            }
            if t2.contains(v) {
                let a = choose|a: int| 0 <= a < t2.len() && t2[a] == v;
                assert(r2[a + 1] == v);
                assert(r2.contains(v));
                let b = choose|b: int| 0 <= b < r1.len() && r1[b] == v;
                assert(r2[0] < v);
                assert(b > 0);
                assert(t1[b - 1] == v);
                assert(t1.contains(v));
            }
        }
        lemma_strictly_sorted_same_elems(t1, t2);
        assert forall|i: int| 0 <= i < r1.len() implies r1[i] == r2[i] by {
            if i > 0 {
                assert(t1[i - 1] == t2[i - 1]);
            }
        }
    }
}

} // verus!

//! Ordering of the memory access log and the scan that checks it: sorted by
//! address then timestamp, every real read must see the value last read or
//! written at its address, or the initial one.

use vstd::prelude::*;

use crate::memory::{sort_key, MemoryAddress, MemoryOp, MemoryOpKind, MemoryState};
use crate::word::Word;

verus! {

/// `a` sorts no later than `b`: lexicographic order of the sort keys.
pub open spec fn key_le(a: MemoryOp, b: MemoryOp) -> bool {
    let (ka, kb) = (sort_key(a), sort_key(b));
    ka.0 < kb.0 || (ka.0 == kb.0 && (ka.1 < kb.1 || (ka.1 == kb.1 && (ka.2 < kb.2 || (ka.2 == kb.2
        && ka.3 <= kb.3)))))
}

/// The log is sorted by key.
pub open spec fn sorted_by_key(ops: Seq<MemoryOp>) -> bool {
    forall|i: int, j: int| 0 <= i < j < ops.len() ==> #[trigger] key_le(ops[i], ops[j])
}

/// Operations of the log with equal keys are identical: no two distinct
/// operations race on one address at one timestamp.
pub open spec fn keys_determine_ops(ops: Seq<MemoryOp>) -> bool {
    forall|i: int, j: int|
        0 <= i < ops.len() && 0 <= j < ops.len() && sort_key(#[trigger] ops[i]) == sort_key(
            #[trigger] ops[j],
        ) ==> ops[i] == ops[j]
}

/// The value that address `a` holds before position `i` of the log: that of
/// the last real operation there, or the initial one.
pub open spec fn value_before(ops: Seq<MemoryOp>, i: int, a: MemoryAddress, init: MemoryState) -> Word
    decreases i,
{
    if i <= 0 {
        init.spec_get(a)
    } else if ops[i - 1].filter && ops[i - 1].address == a {
        ops[i - 1].value
    } else {
        value_before(ops, i - 1, a, init)
    }
}

/// Every real read sees the value its address holds at that point of the log.
pub open spec fn is_consistent(ops: Seq<MemoryOp>, init: MemoryState) -> bool {
    forall|i: int|
        0 <= i < ops.len() && (#[trigger] ops[i]).filter && ops[i].kind == MemoryOpKind::Read
            ==> ops[i].value == value_before(ops, i, ops[i].address, init)
}

/// The position of the last real operation before position `i`.
pub open spec fn last_real(ops: Seq<MemoryOp>, i: int) -> Option<int>
    decreases i,
{
    if i <= 0 {
        None
    } else if ops[i - 1].filter {
        Some(i - 1)
    } else {
        last_real(ops, i - 1)
    }
}

/// The key order is total, antisymmetric up to equal keys, and transitive.
pub proof fn lemma_key_order_total(a: MemoryOp, b: MemoryOp, c: MemoryOp)
    ensures
        key_le(a, b) || key_le(b, a),
        key_le(a, b) && key_le(b, a) ==> sort_key(a) == sort_key(b),
        key_le(a, b) && key_le(b, c) ==> key_le(a, c),
{
}

/// Two sorted logs with the same operations, in which equal keys mean equal
/// operations, are the same log.
pub proof fn lemma_sorted_logs_equal(x: Seq<MemoryOp>, y: Seq<MemoryOp>)
    requires
        sorted_by_key(x),
        sorted_by_key(y),
        x.to_multiset() == y.to_multiset(),
        keys_determine_ops(x),
    ensures
        x == y,
    decreases x.len(),
{
    broadcast use vstd::multiset::group_multiset_axioms;
    broadcast use vstd::seq_lib::group_to_multiset_ensures;

    if x.len() == 0 || y.len() == 0 {
        assert(x.len() == y.len());
        assert(x =~= y);
    } else {
        assert(x.to_multiset().contains(x[0]));
        assert(x.to_multiset().contains(y[0]));
        assert(y.contains(x[0]));
        assert(x.contains(y[0]));
        let i = choose|i: int| 0 <= i < x.len() && x[i] == y[0];
        let j = choose|j: int| 0 <= j < y.len() && y[j] == x[0];
        assert(key_le(x[0], x[i]) || i == 0);
        assert(key_le(y[0], y[j]) || j == 0);
        lemma_key_order_total(x[0], x[i], y[j]);
        assert(sort_key(x[0]) == sort_key(x[i]));
        assert(x[0] == y[0]);
        assert(x.drop_first().to_multiset() =~= x.to_multiset().remove(x[0])) by {
            assert(x.drop_first() =~= x.remove(0));
        }
        assert(y.drop_first().to_multiset() =~= y.to_multiset().remove(y[0])) by {
            assert(y.drop_first() =~= y.remove(0));
        }
        assert forall|a: int, b: int|
            0 <= a < x.drop_first().len() && 0 <= b < x.drop_first().len() && sort_key(
                #[trigger] x.drop_first()[a],
            ) == sort_key(#[trigger] x.drop_first()[b]) implies x.drop_first()[a]
            == x.drop_first()[b] by {
            assert(x.drop_first()[a] == x[a + 1]);
            assert(x.drop_first()[b] == x[b + 1]);
        }
        assert forall|a: int, b: int| 0 <= a < b < x.drop_first().len() implies #[trigger] key_le(
            x.drop_first()[a],
            x.drop_first()[b],
        ) by {
            assert(key_le(x[a + 1], x[b + 1]));
        }
        assert forall|a: int, b: int| 0 <= a < b < y.drop_first().len() implies #[trigger] key_le(
            y.drop_first()[a],
            y.drop_first()[b],
        ) by {
            assert(key_le(y[a + 1], y[b + 1]));
        }
        lemma_sorted_logs_equal(x.drop_first(), y.drop_first());
        assert(x =~= y) by {
            assert forall|k: int| 0 <= k < x.len() implies x[k] == y[k] by {
                if k > 0 {
                    assert(x[k] == x.drop_first()[k - 1]);
                    assert(y[k] == y.drop_first()[k - 1]);
                }
            }
        }
    }
}

/// The value before position `i` is that of the last real operation if it is
/// at the same address, and otherwise what the address held before it.
proof fn lemma_value_before_last_real(ops: Seq<MemoryOp>, i: int, a: MemoryAddress, init: MemoryState)
    requires
        0 <= i <= ops.len(),
    ensures
        match last_real(ops, i) {
            Some(m) => 0 <= m < i && ops[m].filter && value_before(ops, i, a, init) == if ops[m].address
                == a {
                ops[m].value
            } else {
                value_before(ops, m, a, init)
            },
            None => value_before(ops, i, a, init) == init.spec_get(a),
        },
    decreases i,
{
    if i > 0 && !ops[i - 1].filter {
        lemma_value_before_last_real(ops, i - 1, a, init);
    }
}

/// Where no real operation before position `m` is at address `a`, the value
/// before `m` is the initial one.
proof fn lemma_value_before_untouched(ops: Seq<MemoryOp>, m: int, a: MemoryAddress, init: MemoryState)
    requires
        0 <= m <= ops.len(),
        forall|j: int| 0 <= j < m && (#[trigger] ops[j]).filter ==> ops[j].address != a,
    ensures
        value_before(ops, m, a, init) == init.spec_get(a),
    decreases m,
{
    if m > 0 {
        lemma_value_before_untouched(ops, m - 1, a, init);
    }
}

/// In a sorted log the value that a real operation's address holds before
/// it is that of the last real operation if it is at the same address, and
/// the initial value otherwise.
proof fn lemma_sorted_value_before(ops: Seq<MemoryOp>, i: int, init: MemoryState)
    requires
        sorted_by_key(ops),
        0 <= i < ops.len(),
    ensures
        value_before(ops, i, ops[i].address, init) == match last_real(ops, i) {
            Some(m) => if ops[m].address == ops[i].address {
                ops[m].value
            } else {
                init.spec_get(ops[i].address)
            },
            None => init.spec_get(ops[i].address),
        },
{
    let a = ops[i].address;
    lemma_value_before_last_real(ops, i, a, init);
    match last_real(ops, i) {
        Some(m) => {
            if ops[m].address != a {
                assert forall|j: int| 0 <= j < m && (#[trigger] ops[j]).filter implies ops[j].address
                    != a by {
                    assert(key_le(ops[j], ops[m]));
                    assert(key_le(ops[m], ops[i]));
                }
                lemma_value_before_untouched(ops, m, a, init);
            }
        },
        None => {},
    }
}

/// Whether every real read of a sorted log sees the value that its address
/// holds at that point, starting from the memory image `init`.
pub fn scan_is_consistent(ops: &Vec<MemoryOp>, init: &MemoryState) -> (r: bool)
    requires
        sorted_by_key(ops@),
        init.wf(),
        forall|i: int| 0 <= i < ops@.len() ==> (#[trigger] ops@[i]).address.is_valid(),
    ensures
        r == is_consistent(ops@, *init),
{
    let mut last: Option<usize> = None;
    let mut i: usize = 0;
    while i < ops.len()
        invariant
            sorted_by_key(ops@),
            init.wf(),
            forall|k: int| 0 <= k < ops@.len() ==> (#[trigger] ops@[k]).address.is_valid(),
            i <= ops@.len(),
            last_real(ops@, i as int) == match last {
                Some(m) => Some(m as int),
                None => None::<int>,
            },
            forall|k: int|
                0 <= k < i && (#[trigger] ops@[k]).filter && ops@[k].kind == MemoryOpKind::Read
                    ==> ops@[k].value == value_before(ops@, k, ops@[k].address, *init),
        decreases ops@.len() - i,
    {
        let op = ops[i];
        if op.filter {
            if op.kind == MemoryOpKind::Read {
                proof {
                    lemma_value_before_last_real(ops@, i as int, op.address, *init);
                }
                let current = match last {
                    Some(m) => if ops[m].address == op.address {
                        ops[m].value
                    } else {
                        init.get(op.address)
                    },
                    None => init.get(op.address),
                };
                proof {
                    lemma_sorted_value_before(ops@, i as int, *init);
                }
                if current != op.value {
                    return false;
                }
            }
            last = Some(i);
        }
        i = i + 1;
    }
    true
}

/// The operations of a log whose key is `k`, in log order.
pub open spec fn key_class(ops: Seq<MemoryOp>, k: (usize, usize, usize, usize)) -> Seq<MemoryOp> {
    ops.filter(|o: MemoryOp| sort_key(o) == k)
}

/// A log with no operation of key `k` has an empty class for `k`.
proof fn lemma_key_class_empty(ops: Seq<MemoryOp>, k: (usize, usize, usize, usize))
    requires
        forall|j: int| 0 <= j < ops.len() ==> sort_key(#[trigger] ops[j]) != k,
    ensures
        key_class(ops, k) == Seq::<MemoryOp>::empty(),
    decreases ops.len(),
{
    reveal(Seq::filter);
    if ops.len() > 0 {
        assert forall|j: int| 0 <= j < ops.drop_last().len() implies sort_key(
            #[trigger] ops.drop_last()[j],
        ) != k by {
            assert(ops.drop_last()[j] == ops[j]);
        }
        lemma_key_class_empty(ops.drop_last(), k);
    }
}

/// The class of a one-operation log.
proof fn lemma_key_class_single(op: MemoryOp, k: (usize, usize, usize, usize))
    ensures
        key_class(seq![op], k) == if sort_key(op) == k {
            seq![op]
        } else {
            Seq::<MemoryOp>::empty()
        },
{
    reveal_with_fuel(Seq::filter, 2);
    assert(seq![op].drop_last() =~= Seq::<MemoryOp>::empty());
    assert(Seq::<MemoryOp>::empty().push(op) =~= seq![op]);
}

/// Classes of a concatenation are the concatenations of the classes.
proof fn lemma_key_class_add(a: Seq<MemoryOp>, b: Seq<MemoryOp>, k: (usize, usize, usize, usize))
    ensures
        key_class(a + b, k) == key_class(a, k) + key_class(b, k),
{
    Seq::filter_distributes_over_add(a, b, |o: MemoryOp| sort_key(o) == k);
}

/// Returns the log sorted by key; operations with equal keys keep their order.
pub fn sort_ops(ops: &Vec<MemoryOp>) -> (r: Vec<MemoryOp>)
    ensures
        sorted_by_key(r@),
        r@.to_multiset() == ops@.to_multiset(),
        forall|k: (usize, usize, usize, usize)| #[trigger] key_class(r@, k) == key_class(ops@, k),
{
    broadcast use vstd::multiset::group_multiset_axioms;
    broadcast use vstd::seq_lib::group_to_multiset_ensures;

    let mut sorted: Vec<MemoryOp> = Vec::new();
    let mut i: usize = 0;
    while i < ops.len()
        invariant
            i <= ops@.len(),
            sorted_by_key(sorted@),
            sorted@.to_multiset() == ops@.subrange(0, i as int).to_multiset(),
            forall|c: (usize, usize, usize, usize)|
                #[trigger] key_class(sorted@, c) == key_class(ops@.subrange(0, i as int), c),
        decreases ops@.len() - i,
    {
        let op = ops[i];
        let mut k: usize = 0;
        let mut found = false;
        while !found && k < sorted.len()
            invariant
                k <= sorted@.len(),
                forall|j: int| 0 <= j < k ==> key_le(#[trigger] sorted@[j], op),
                found ==> k < sorted@.len() && !key_le(sorted@[k as int], op),
            decreases sorted@.len() - k + if found {
                0int
            } else {
                1int
            },
        {
            if sorted[k].key_le(&op) {
                k = k + 1;
            } else {
                found = true;
            }
        }
        let ghost before = sorted@;
        proof {
            if k < sorted@.len() {
                lemma_key_order_total(op, sorted@[k as int], op);
            }
        }
        sorted.insert(k, op);
        proof {
            assert forall|a: int, b: int| 0 <= a < b < sorted@.len() implies #[trigger] key_le(
                sorted@[a],
                sorted@[b],
            ) by {
                if b < k {
                    assert(key_le(before[a], before[b]));
                } else if b == k {
                    assert(key_le(before[a], op));
                } else if a == k {
                    assert(key_le(op, before[k as int]));
                    if b - 1 > k {
                        assert(key_le(before[k as int], before[b - 1]));
                        lemma_key_order_total(op, before[k as int], before[b - 1]);
                    }
                } else if a < k {
                    assert(key_le(before[a], before[b - 1]));
                } else {
                    assert(key_le(before[a - 1], before[b - 1]));
                }
            }
            assert(sorted@.remove(k as int) =~= before);
            assert(sorted@[k as int] == op);
            sorted@.to_multiset_ensures();
            assert(sorted@.remove(k as int).to_multiset() =~= sorted@.to_multiset().remove(op));
            assert(sorted@.contains(op));
            assert(sorted@.to_multiset().count(op) > 0);
            assert(ops@.subrange(0, i + 1) =~= ops@.subrange(0, i as int).push(op));
            ops@.subrange(0, i as int).to_multiset_ensures();
            assert(sorted@.to_multiset() =~= before.to_multiset().insert(op));
            let pre = before.subrange(0, k as int);
            let post = before.subrange(k as int, before.len() as int);
            assert(before =~= pre + post);
            assert(sorted@ =~= pre + seq![op] + post);
            assert forall|j: int| 0 <= j < post.len() implies sort_key(#[trigger] post[j])
                != sort_key(op) by {
                assert(found);
                assert(post[j] == before[k + j]);
                if j > 0 {
                    assert(key_le(before[k as int], before[k + j]));
                }
                lemma_key_order_total(before[k as int], before[k + j], op);
            }
            assert forall|c: (usize, usize, usize, usize)|
                #[trigger] key_class(sorted@, c) == key_class(ops@.subrange(0, i + 1), c) by {
                assert(ops@.subrange(0, i + 1) =~= ops@.subrange(0, i as int) + seq![op]);
                lemma_key_class_add(pre + seq![op], post, c);
                lemma_key_class_add(pre, seq![op], c);
                lemma_key_class_add(pre, post, c);
                lemma_key_class_add(ops@.subrange(0, i as int), seq![op], c);
                lemma_key_class_single(op, c);
                if c == sort_key(op) {
                    lemma_key_class_empty(post, c);
                    assert(key_class(before, c) =~= key_class(pre, c));
                    assert(key_class(sorted@, c) =~= key_class(pre, c) + seq![op]);
                } else {
                    assert(key_class(sorted@, c) =~= key_class(pre, c) + key_class(post, c));
                }
            }
        }
        i = i + 1;
    }
    assert(ops@.subrange(0, ops@.len() as int) =~= ops@);
    sorted
}

/// Sorting makes the scan independent of the order in which the log was
/// recorded: two logs with the same operations, in which equal keys mean
/// equal operations, sort to the same log and so pass or fail the scan
/// together.
pub proof fn lemma_scan_independent_of_order(
    xs: Seq<MemoryOp>,
    ys: Seq<MemoryOp>,
    sorted_xs: Seq<MemoryOp>,
    sorted_ys: Seq<MemoryOp>,
    init: MemoryState,
)
    requires
        xs.to_multiset() == ys.to_multiset(),
        keys_determine_ops(xs),
        sorted_by_key(sorted_xs),
        sorted_xs.to_multiset() == xs.to_multiset(),
        sorted_by_key(sorted_ys),
        sorted_ys.to_multiset() == ys.to_multiset(),
    ensures
        sorted_xs == sorted_ys,
        is_consistent(sorted_xs, init) == is_consistent(sorted_ys, init),
{
    broadcast use vstd::multiset::group_multiset_axioms;
    broadcast use vstd::seq_lib::group_to_multiset_ensures;

    assert forall|i: int, j: int|
        0 <= i < sorted_xs.len() && 0 <= j < sorted_xs.len() && sort_key(#[trigger] sorted_xs[i])
            == sort_key(#[trigger] sorted_xs[j]) implies sorted_xs[i] == sorted_xs[j] by {
        assert(sorted_xs.to_multiset().contains(sorted_xs[i]));
        assert(sorted_xs.to_multiset().contains(sorted_xs[j]));
        assert(xs.contains(sorted_xs[i]));
        assert(xs.contains(sorted_xs[j]));
        let a = choose|a: int| 0 <= a < xs.len() && xs[a] == sorted_xs[i];
        let b = choose|b: int| 0 <= b < xs.len() && xs[b] == sorted_xs[j];
        assert(sort_key(xs[a]) == sort_key(xs[b]));
    }
    lemma_sorted_logs_equal(sorted_xs, sorted_ys);
}

impl MemoryOp {
    /// Whether `self` sorts no later than `other`.
    pub fn key_le(&self, other: &MemoryOp) -> (r: bool)
        ensures
            r == key_le(*self, *other),
    {
        let a = self.sorting_key();
        let b = other.sorting_key();
        a.0 < b.0 || (a.0 == b.0 && (a.1 < b.1 || (a.1 == b.1 && (a.2 < b.2 || (a.2 == b.2 && a.3
            <= b.3)))))
    }
}

} // verus!

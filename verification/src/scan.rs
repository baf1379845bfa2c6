//! The shared shape of both projectors.
//!
//! A projector walks the block's transactions in order, walks each
//! transaction's entries (logs or calls) in order, and selects a source for
//! every entry that a signature kind accepts.  `block_srcs` is the
//! specification of that scan: the ordered sequence of selected sources.
//! The lemmas here relate it to a flat `filter_map` over the full traversal,
//! from which the filtering, counting and ordering facts of the library
//! follow.

use vstd::prelude::*;

use crate::model::Call;
use vstd::multiset::Multiset;
use crate::model::Log;
use crate::model::Transaction;
use crate::model::Block;

verus! {

/// The receipt logs of a transaction.
pub open spec fn logs_of() -> spec_fn(Transaction) -> Seq<Log> {
    |t: Transaction| t.logs@
}

/// The trace calls of a transaction.
pub open spec fn calls_of() -> spec_fn(Transaction) -> Seq<Call> {
    |t: Transaction| t.calls@
}

/// Selects the entries that a kind's predicate accepts, paired with their
/// transaction.
pub open spec fn src_opt<E>(q: spec_fn(E) -> bool) -> spec_fn(Transaction, E) -> Option<
    (Transaction, E),
> {
    |t: Transaction, e: E|
        if q(e) {
            Some((t, e))
        } else {
            None
        }
}

/// Selects every entry, paired with its transaction.
pub open spec fn pair_all<E>() -> spec_fn(Transaction, E) -> Option<(Transaction, E)> {
    |t: Transaction, e: E| Some((t, e))
}

/// A two-argument selector as a function on pairs.
pub open spec fn lift<E, R>(f: spec_fn(Transaction, E) -> Option<R>) -> spec_fn(
    (Transaction, E),
) -> Option<R> {
    |p: (Transaction, E)| f(p.0, p.1)
}

/// Sources selected from the first `j` entries of one transaction.
pub open spec fn tx_srcs_upto<E, R>(
    t: Transaction,
    es: Seq<E>,
    f: spec_fn(Transaction, E) -> Option<R>,
    j: int,
) -> Seq<R>
    decreases j,
{
    if j <= 0 {
        Seq::empty()
    } else {
        tx_srcs_upto(t, es, f, j - 1) + match f(t, es[j - 1]) {
            Some(r) => seq![r],
            None => Seq::<R>::empty(),
        }
    }
}

/// Sources selected from all entries of one transaction.
pub open spec fn tx_srcs<E, R>(
    t: Transaction,
    g: spec_fn(Transaction) -> Seq<E>,
    f: spec_fn(Transaction, E) -> Option<R>,
) -> Seq<R> {
    tx_srcs_upto(t, g(t), f, g(t).len() as int)
}

/// Sources selected from the first `i` transactions of a block, in traversal
/// order: transaction order first, entry order within a transaction second.
pub open spec fn block_srcs_upto<E, R>(
    b: Block,
    g: spec_fn(Transaction) -> Seq<E>,
    f: spec_fn(Transaction, E) -> Option<R>,
    i: int,
) -> Seq<R>
    decreases i,
{
    if i <= 0 {
        Seq::empty()
    } else {
        block_srcs_upto(b, g, f, i - 1) + tx_srcs(b.transactions@[i - 1], g, f)
    }
}

/// Sources selected from the whole block.
pub open spec fn block_srcs<E, R>(
    b: Block,
    g: spec_fn(Transaction) -> Seq<E>,
    f: spec_fn(Transaction, E) -> Option<R>,
) -> Seq<R> {
    block_srcs_upto(b, g, f, b.transactions@.len() as int)
}

/// The full traversal of a block: every (transaction, entry) pair in order.
pub open spec fn block_entries<E>(b: Block, g: spec_fn(Transaction) -> Seq<E>) -> Seq<
    (Transaction, E),
> {
    block_srcs(b, g, pair_all())
}

/// `filter_map` distributes over concatenation.
pub proof fn lemma_filter_map_distributes<A, B>(s1: Seq<A>, s2: Seq<A>, f: spec_fn(A) -> Option<B>)
    ensures
        (s1 + s2).filter_map(f) == s1.filter_map(f) + s2.filter_map(f),
    decreases s2.len(),
{
    if s2.len() == 0 {
        assert(s1 + s2 =~= s1);
        assert((s1 + s2).filter_map(f) =~= s1.filter_map(f) + s2.filter_map(f));
    } else {
        let s2p = s2.drop_last();
        lemma_filter_map_distributes(s1, s2p, f);
        assert((s1 + s2).drop_last() =~= s1 + s2p);
        assert((s1 + s2).last() == s2.last());
        match f(s2.last()) {
            Some(r) => {
                assert((s1 + s2).filter_map(f) =~= s1.filter_map(f) + s2.filter_map(f));
            },
            None => {
                assert((s1 + s2).filter_map(f) =~= s1.filter_map(f) + s2.filter_map(f));
            },
        }
    }
}

/// Within one transaction, the selected sources are the `filter_map` of the
/// traversed pairs.
pub proof fn lemma_tx_srcs_filter_map<E, R>(
    t: Transaction,
    es: Seq<E>,
    f: spec_fn(Transaction, E) -> Option<R>,
    j: int,
)
    requires
        0 <= j <= es.len(),
    ensures
        tx_srcs_upto(t, es, f, j) == tx_srcs_upto(t, es, pair_all(), j).filter_map(lift(f)),
    decreases j,
{
    if j <= 0 {
        assert(tx_srcs_upto(t, es, pair_all(), j).filter_map(lift(f)) =~= Seq::<R>::empty());
    } else {
        lemma_tx_srcs_filter_map(t, es, f, j - 1);
        let e = es[j - 1];
        let prev = tx_srcs_upto(t, es, pair_all(), j - 1);
        assert(pair_all::<E>()(t, e) == Some((t, e)));
        assert(tx_srcs_upto(t, es, pair_all(), j) =~= prev + seq![(t, e)]);
        lemma_filter_map_distributes(prev, seq![(t, e)], lift(f));
        assert(seq![(t, e)].drop_last() =~= Seq::<(Transaction, E)>::empty());
        assert(seq![(t, e)].last() == (t, e));
        assert(lift(f)((t, e)) == f(t, e));
        Seq::<(Transaction, E)>::lemma_filter_map_singleton((t, e), lift(f));
        match f(t, e) {
            Some(r) => {
                assert(seq![(t, e)].filter_map(lift(f)) =~= seq![r]);
                assert(tx_srcs_upto(t, es, f, j) =~= tx_srcs_upto(t, es, pair_all(), j).filter_map(
                    lift(f),
                ));
            },
            None => {
                assert(seq![(t, e)].filter_map(lift(f)) =~= Seq::<R>::empty());
                assert(tx_srcs_upto(t, es, f, j) =~= tx_srcs_upto(t, es, pair_all(), j).filter_map(
                    lift(f),
                ));
            },
        }
    }
}

/// Over the whole block, the selected sources are the `filter_map` of the
/// full traversal.
pub proof fn lemma_block_srcs_filter_map<E, R>(
    b: Block,
    g: spec_fn(Transaction) -> Seq<E>,
    f: spec_fn(Transaction, E) -> Option<R>,
    i: int,
)
    requires
        0 <= i <= b.transactions@.len(),
    ensures
        block_srcs_upto(b, g, f, i) == block_srcs_upto(b, g, pair_all(), i).filter_map(lift(f)),
    decreases i,
{
    if i <= 0 {
        assert(block_srcs_upto(b, g, pair_all(), i).filter_map(lift(f)) =~= Seq::<R>::empty());
    } else {
        lemma_block_srcs_filter_map(b, g, f, i - 1);
        let t = b.transactions@[i - 1];
        lemma_tx_srcs_filter_map(t, g(t), f, g(t).len() as int);
        lemma_filter_map_distributes(
            block_srcs_upto(b, g, pair_all(), i - 1),
            tx_srcs(t, g, pair_all()),
            lift(f),
        );
    }
}

/// The selected sources of a block, as a `filter_map` of its traversal.
pub proof fn lemma_block_srcs_as_filter_map<E, R>(
    b: Block,
    g: spec_fn(Transaction) -> Seq<E>,
    f: spec_fn(Transaction, E) -> Option<R>,
)
    ensures
        block_srcs(b, g, f) == block_entries(b, g).filter_map(lift(f)),
{
    lemma_block_srcs_filter_map(b, g, f, b.transactions@.len() as int);
}

/// Every source that a kind selects comes from an entry that its predicate
/// accepts: the scan never invents a source.
pub proof fn lemma_srcs_only_matching<E>(
    b: Block,
    g: spec_fn(Transaction) -> Seq<E>,
    q: spec_fn(E) -> bool,
    t: Transaction,
    e: E,
)
    requires
        block_srcs(b, g, src_opt(q)).contains((t, e)),
    ensures
        q(e),
        block_entries(b, g).contains((t, e)),
{
    lemma_block_srcs_as_filter_map(b, g, src_opt(q));
    broadcast use vstd::seq_lib::group_filter_ensures;

    let entries = block_entries(b, g);
    assert(entries.filter_map(lift(src_opt(q))).contains((t, e)));
    entries.lemma_filter_map_contains(lift(src_opt(q)), (t, e));
    let p = choose|p: (Transaction, E)|
        #[trigger] entries.contains(p) && lift(src_opt(q))(p) == Some((t, e));
    assert(src_opt(q)(p.0, p.1) == Some((t, e)));
    assert(q(p.1));
    assert(p == (t, e));
}

/// How many elements of a sequence satisfy a predicate.
pub open spec fn count_matching<A>(s: Seq<A>, p: spec_fn(A) -> bool) -> nat
    decreases s.len(),
{
    if s.len() == 0 {
        0
    } else {
        count_matching(s.drop_last(), p) + (if p(s.last()) {
            1nat
        } else {
            0nat
        })
    }
}

/// The entries that a selector maps to one given result.
pub open spec fn yields_result<A, B>(f: spec_fn(A) -> Option<B>, r: B) -> spec_fn(A) -> bool {
    |a: A| f(a) == Some(r)
}

/// The entries equal to one given value.
pub open spec fn eq_to<A>(x: A) -> spec_fn(A) -> bool {
    |a: A| a == x
}

/// Predicates that agree on a sequence's elements count alike.
pub proof fn lemma_count_matching_congruent<A>(s: Seq<A>, p1: spec_fn(A) -> bool, p2: spec_fn(
    A,
) -> bool)
    requires
        forall|i: int| 0 <= i < s.len() ==> p1(#[trigger] s[i]) == p2(s[i]),
    ensures
        count_matching(s, p1) == count_matching(s, p2),
    decreases s.len(),
{
    if s.len() > 0 {
        lemma_count_matching_congruent(s.drop_last(), p1, p2);
        assert(s.last() == s[s.len() - 1]);
    }
}

/// A predicate that no element satisfies counts zero.
pub proof fn lemma_count_matching_zero<A>(s: Seq<A>, p: spec_fn(A) -> bool)
    requires
        forall|i: int| 0 <= i < s.len() ==> !p(#[trigger] s[i]),
    ensures
        count_matching(s, p) == 0,
    decreases s.len(),
{
    if s.len() > 0 {
        lemma_count_matching_zero(s.drop_last(), p);
        assert(s.last() == s[s.len() - 1]);
    }
}

/// Each result occurs in a `filter_map` exactly as often as an entry maps to
/// it.
pub proof fn lemma_filter_map_count<A, B>(s: Seq<A>, f: spec_fn(A) -> Option<B>, r: B)
    ensures
        s.filter_map(f).to_multiset().count(r) == count_matching(s, yields_result(f, r)),
    decreases s.len(),
{
    broadcast use vstd::seq_lib::lemma_multiset_commutative;
    broadcast use vstd::multiset::group_multiset_axioms;
    broadcast use Seq::to_multiset_ensures;

    let emp = Seq::<B>::empty();
    emp.to_multiset_ensures();
    assert(!emp.contains(r));
    assert(emp.to_multiset().count(r) == 0);
    if s.len() == 0 {
        assert(s.filter_map(f) =~= emp);
    } else {
        let sp = s.drop_last();
        lemma_filter_map_count(sp, f, r);
        assert(s.last() == s[s.len() - 1]);
        match f(s.last()) {
            Some(x) => {
                assert(s.filter_map(f) == sp.filter_map(f) + seq![x]);
                assert(emp.push(x).to_multiset() =~= emp.to_multiset().insert(x));
                assert(seq![x] =~= emp.push(x));
                assert(seq![x].to_multiset() == emp.push(x).to_multiset());
                vstd::seq_lib::lemma_multiset_commutative(sp.filter_map(f), seq![x]);
                assert(s.filter_map(f).to_multiset().count(r) == sp.filter_map(f)
                    .to_multiset()
                    .count(r) + seq![x].to_multiset().count(r));
                if x == r {
                    assert(yields_result(f, r)(s.last()));
                    assert(seq![x].to_multiset().count(r) == 1);
                } else {
                    assert(!yields_result(f, r)(s.last()));
                    assert(seq![x].to_multiset().count(r) == 0);
                }
            },
            None => {
                assert(s.filter_map(f) == sp.filter_map(f));
                assert(!yields_result(f, r)(s.last()));
            },
        }
    }
}

/// A `filter_map` keeps a strictly increasing key strictly increasing, and
/// every produced key is the key of some entry.
pub proof fn lemma_filter_map_sorted<A, B>(
    s: Seq<A>,
    f: spec_fn(A) -> Option<B>,
    ka: spec_fn(A) -> int,
    kb: spec_fn(B) -> int,
)
    requires
        forall|a: A| (#[trigger] f(a)) is Some ==> kb(f(a)->Some_0) == ka(a),
        forall|i: int, j: int| 0 <= i < j < s.len() ==> ka(#[trigger] s[i]) < ka(#[trigger] s[j]),
    ensures
        forall|i: int, j: int|
            0 <= i < j < s.filter_map(f).len() ==> kb(#[trigger] s.filter_map(f)[i]) < kb(
                #[trigger] s.filter_map(f)[j],
            ),
        forall|k: int|
            0 <= k < s.filter_map(f).len() ==> exists|i: int|
                0 <= i < s.len() && kb(#[trigger] s.filter_map(f)[k]) == ka(s[i]),
    decreases s.len(),
{
    if s.len() == 0 {
    } else {
        let sp = s.drop_last();
        lemma_filter_map_sorted(sp, f, ka, kb);
        let out = s.filter_map(f);
        let pre = sp.filter_map(f);
        assert(forall|i: int| 0 <= i < sp.len() ==> sp[i] == s[i]);
        match f(s.last()) {
            Some(x) => {
                assert(out == pre + seq![x]);
                assert(kb(x) == ka(s.last()));
                assert(s.last() == s[s.len() - 1]);
                assert forall|k: int| 0 <= k < out.len() implies exists|i: int|
                    0 <= i < s.len() && kb(#[trigger] out[k]) == ka(s[i]) by {
                    if k < pre.len() {
                        assert(out[k] == pre[k]);
                        let i = choose|i: int| 0 <= i < sp.len() && kb(pre[k]) == ka(sp[i]);
                        assert(kb(out[k]) == ka(s[i]));
                    } else {
                        assert(out[k] == x);
                        assert(kb(out[k]) == ka(s[s.len() - 1]));
                    }
                }
                assert forall|i: int, j: int| 0 <= i < j < out.len() implies kb(
                    #[trigger] out[i],
                ) < kb(#[trigger] out[j]) by {
                    if j < pre.len() {
                        assert(out[i] == pre[i] && out[j] == pre[j]);
                    } else {
                        assert(out[j] == x);
                        assert(out[i] == pre[i]);
                        let ii = choose|ii: int| 0 <= ii < sp.len() && kb(pre[i]) == ka(sp[ii]);
                        assert(ka(s[ii]) < ka(s[s.len() - 1]));
                    }
                }
            },
            None => {
                assert(out == pre);
            },
        }
    }
}

} // verus!

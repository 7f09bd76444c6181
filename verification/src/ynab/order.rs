//! Ordering transactions by date, most recent first.

use vstd::prelude::*;
use crate::text::{compare_str, lemma_order_antisym, lemma_order_trans, seq_le, seq_order};
use super::types::{Transaction, TransactionView, tx_views};

verus! {

broadcast use vstd::seq_lib::group_seq_properties;

/// Most recent first: each transaction's date is no earlier than the next's.
pub open spec fn newest_first(s: Seq<TransactionView>) -> bool {
    forall|i: int, j: int| 0 <= i < j < s.len() ==> seq_le(s[j].date, s[i].date)
}

/// The transactions of `s` dated `d`, in their order in `s`.
pub open spec fn dated(s: Seq<TransactionView>, d: Seq<char>) -> Seq<TransactionView> {
    s.filter(|t: TransactionView| t.date == d)
}

/// `out` orders the transactions of `input` newest first, keeping the order of
/// `input` among transactions of the same date (a stable sort).
pub open spec fn sorted_newest_first(out: Seq<TransactionView>, input: Seq<TransactionView>) -> bool {
    &&& newest_first(out)
    &&& forall|d: Seq<char>| #[trigger] dated(out, d) == dated(input, d)
}

proof fn lemma_dated_insert(old_out: Seq<TransactionView>, p: int, x: TransactionView, d: Seq<char>)
    requires
        0 <= p <= old_out.len(),
        forall|q: int| p <= q < old_out.len() ==> seq_order(old_out[q].date, x.date) < 0,
    ensures
        dated(old_out.insert(p, x), d) == if x.date == d {
            dated(old_out, d).push(x)
        } else {
            dated(old_out, d)
        },
{
    let pred = |t: TransactionView| t.date == d;
    let a = old_out.take(p);
    let b = old_out.skip(p);
    assert(old_out == a + b);
    assert(old_out.insert(p, x) == a + seq![x] + b);
    assert((a + seq![x]).filter(pred) == a.filter(pred) + seq![x].filter(pred));
    assert((a + seq![x] + b).filter(pred) == (a + seq![x]).filter(pred) + b.filter(pred));
    assert((a + b).filter(pred) == a.filter(pred) + b.filter(pred));
    reveal_with_fuel(Seq::filter, 2);
    if x.date == d {
        assert forall|q: int| 0 <= q < b.len() implies !pred(b[q]) by {
            assert(b[q] == old_out[p + q]);
            lemma_order_antisym(old_out[p + q].date, x.date);
        }
        assert(b.all(|t: TransactionView| !pred(t)));
        b.lemma_all_neg_filter_empty(pred);
        assert(b.filter(pred) =~= Seq::<TransactionView>::empty());
        assert(seq![x].filter(pred) =~= seq![x]);
    } else {
        assert(seq![x].filter(pred) =~= Seq::<TransactionView>::empty());
    }
}

/// Sort transactions by date, most recent first; transactions of the same
/// date keep their relative order (`sort_by(|a, b| b.date.cmp(&a.date))`).
pub fn sort_newest_first(txs: Vec<Transaction>) -> (r: Vec<Transaction>)
    ensures
        sorted_newest_first(tx_views(r@), tx_views(txs@)),
        r@.len() == txs@.len(),
{
    let ghost orig = tx_views(txs@);
    let mut input = txs;
    let mut out: Vec<Transaction> = Vec::new();
    let mut k: usize = 0;
    let n = input.len();
    assert(orig.skip(0) == orig);
    while input.len() > 0
        invariant
            k + input@.len() == n,
            n == orig.len(),
            out@.len() == k,
            tx_views(input@) == orig.skip(k as int),
            newest_first(tx_views(out@)),
            forall|d: Seq<char>| #[trigger] dated(tx_views(out@), d) == dated(orig.take(k as int), d),
        decreases input@.len(),
    {
        let x = input.remove(0);
        assert(tx_views(input@) == orig.skip(k + 1));
        assert(x@ == orig[k as int]);
        let ghost ov = tx_views(out@);
        let m = out.len();
        let mut p: usize = 0;
        while p < m && compare_str(out[p].date.as_str(), x.date.as_str()) >= 0
            invariant
                p <= m,
                m == out@.len(),
                ov == tx_views(out@),
                forall|q: int| 0 <= q < p ==> seq_order(#[trigger] ov[q].date, x@.date) >= 0,
            decreases m - p,
        {
            p = p + 1;
        }
        proof {
            if p < m {
                assert(seq_order(ov[p as int].date, x@.date) < 0);
            }
            assert forall|q: int| p <= q < ov.len() implies seq_order(ov[q].date, x@.date) < 0 by {
                if q > p {
                    assert(newest_first(ov));
                    assert(seq_le(ov[q].date, ov[p as int].date));
                    lemma_order_trans(ov[q].date, ov[p as int].date, x@.date);
                }
            }
        }
        let ghost xv = x@;
        out.insert(p, x);
        proof {
            let nv = tx_views(out@);
            assert(nv == ov.insert(p as int, xv));
            assert forall|i: int, j: int| 0 <= i < j < nv.len() implies seq_le(nv[j].date, nv[i].date) by {
                if j < p {
                    assert(nv[i] == ov[i] && nv[j] == ov[j]);
                } else if j == p {
                    assert(nv[i] == ov[i]);
                    lemma_order_antisym(ov[i].date, xv.date);
                } else if i < p {
                    assert(nv[i] == ov[i] && nv[j] == ov[j - 1]);
                } else if i == p {
                    assert(nv[j] == ov[j - 1]);
                } else {
                    assert(nv[i] == ov[i - 1] && nv[j] == ov[j - 1]);
                }
            }
            assert(orig.take(k + 1) == orig.take(k as int).push(xv));
            assert forall|d: Seq<char>| #[trigger] dated(nv, d) == dated(orig.take(k + 1), d) by {
                lemma_dated_insert(ov, p as int, xv, d);
                orig.take(k as int).lemma_filter_push(xv, |t: TransactionView| t.date == d);
            }
        }
        k = k + 1;
    }
    assert(orig.take(k as int) == orig);
    out
}

/// The effective length limit: a negative limit converts to a length past any
/// list (`limit as usize`), so it keeps everything.
pub open spec fn limited_len(len: nat, limit: i64) -> nat {
    if limit < 0 || limit as int >= len {
        len
    } else {
        limit as nat
    }
}

/// The most recent transactions: all of them sorted newest first, then cut to
/// `limit` (100 when no limit is given).
pub fn recent_transactions(txs: Vec<Transaction>, limit: Option<i64>) -> (r: Vec<Transaction>)
    ensures
        ({
            let lim = match limit {
                Some(l) => l,
                None => 100,
            };
            exists|all: Seq<TransactionView>|
                sorted_newest_first(all, tx_views(txs@)) && tx_views(r@) == all.take(
                    limited_len(all.len(), lim) as int,
                )
        }),
        tx_views(r@).len() == limited_len(txs@.len(), match limit {
            Some(l) => l,
            None => 100,
        }),
{
    let ghost n = txs@.len();
    let mut sorted = sort_newest_first(txs);
    let ghost all = tx_views(sorted@);
    let lim: i64 = match limit {
        Some(l) => l,
        None => 100,
    };
    if lim >= 0 && (lim as u64) < (sorted.len() as u64) {
        sorted.truncate(lim as usize);
    }
    assert(tx_views(sorted@) == all.take(limited_len(all.len(), lim) as int));
    sorted
}

/// The transactions of all lists, list after list.
pub open spec fn concat_all(lists: Seq<Vec<Transaction>>) -> Seq<TransactionView>
    decreases lists.len(),
{
    if lists.len() == 0 {
        seq![]
    } else {
        concat_all(lists.drop_last()) + tx_views(lists.last()@)
    }
}

/// The transactions of several lists together, newest first; those of the
/// same date keep the order of the lists and within each list.
pub fn merge_newest_first(lists: Vec<Vec<Transaction>>) -> (r: Vec<Transaction>)
    ensures
        sorted_newest_first(tx_views(r@), concat_all(lists@)),
{
    let ghost ls = lists@;
    let mut all: Vec<Transaction> = Vec::new();
    let mut rest = lists;
    let mut k: usize = 0;
    assert(ls.skip(0) == ls);
    assert(ls.len() == rest.len());
    while rest.len() > 0
        invariant
            k + rest@.len() == ls.len(),
            ls.len() <= usize::MAX,
            rest@ == ls.skip(k as int),
            tx_views(all@) == concat_all(ls.take(k as int)),
        decreases rest@.len(),
    {
        let mut list = rest.remove(0);
        assert(list == ls[k as int]);
        assert(rest@ == ls.skip(k + 1));
        assert(ls.take(k + 1).drop_last() == ls.take(k as int));
        let ghost before = tx_views(all@);
        let ghost lv = tx_views(list@);
        all.append(&mut list);
        assert(tx_views(all@) == before + lv);
        k = k + 1;
    }
    assert(ls.take(k as int) == ls);
    sort_newest_first(all)
}

} // verus!

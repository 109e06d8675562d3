//! Cursor-driven pagination over ordered table slices.
//!
//! `paginate` drives a fetch-convert-persist loop over a single-key table:
//! each fetch returns the page of selected rows whose local key is strictly
//! greater than the cursor, the page is converted and appended to the log,
//! and the cursor advances to the last row's local key, so every selected
//! row is visited exactly once, in ascending key order. `paginate_relation`
//! is the same loop for two-key join tables under a lexicographic composite
//! cursor. Page size is bounded where a limit is given, to cap peak memory;
//! a table without a limit is processed as one page.

use vstd::prelude::*;

use crate::convert::ToOperation;
use crate::ops::{log_view, OperationRecord, OpView, SyncManager};
use crate::rows::{pair_lt, relation_sorted, table_sorted, DeviceScoped, RelationRow, SyncRow};

verus! {

/// Whether a row passes the device filter of a query: with no filter every
/// row passes, with a filter only rows of that device pass.
pub open spec fn row_selected<T: DeviceScoped>(r: T, device_filter: Option<i32>) -> bool {
    match device_filter {
        None => true,
        Some(d) => r.device() == Some(d),
    }
}

/// The rows of a table slice that a device-scoped query returns, in order.
pub open spec fn selected_rows<T: DeviceScoped>(rows: Seq<T>, device_filter: Option<i32>) -> Seq<
    T,
> {
    rows.filter(|r: T| row_selected(r, device_filter))
}

/// The rows standing at a sequence of indices, in that order.
pub open spec fn gather<T>(rows: Seq<T>, idx: Seq<usize>) -> Seq<T> {
    idx.map_values(|i: usize| rows[i as int])
}

/// A well-formed result set over a table slice: indices in bounds and
/// strictly ascending, so the selection is an in-order subsequence.
pub open spec fn result_set_wf<T>(rows: Seq<T>, idx: Seq<usize>) -> bool {
    &&& forall|k: int| 0 <= k < idx.len() ==> #[trigger] idx[k] < rows.len()
    &&& forall|k1: int, k2: int| 0 <= k1 < k2 < idx.len() ==> #[trigger] idx[k1] < #[trigger] idx[k2]
}

/// The operations a sequence of rows converts to, in row order.
pub open spec fn table_ops_view<T: ToOperation>(
    rows: Seq<T>,
    device: Seq<u8>,
    timestamp: u64,
) -> Seq<OpView> {
    rows.map_values(|r: T| r.op_spec(device, timestamp))
}

/// How many pages a query of `n` selected rows yields under a page-size
/// limit: full pages followed by one final partial page, or one unbounded
/// page.
pub open spec fn num_pages(n: int, limit: Option<usize>) -> int
    decreases n,
{
    if n <= 0 {
        0
    } else {
        match limit {
            None => 1,
            Some(l) => if l == 0 {
                0
            } else if n <= l {
                1
            } else {
                1 + num_pages(n - l, limit)
            },
        }
    }
}

/// Appending one more row to a slice extends its selection by that row when
/// it passes the filter, and leaves the selection unchanged otherwise.
proof fn lemma_selected_push<T: DeviceScoped>(s: Seq<T>, f: Option<i32>)
    requires
        s.len() > 0,
    ensures
        selected_rows(s, f) == selected_rows(s.drop_last(), f) + (if row_selected(s.last(), f) {
            seq![s.last()]
        } else {
            Seq::<T>::empty()
        }),
{
    reveal(Seq::filter);
}

/// With no device filter, the query returns the whole table.
pub proof fn lemma_selected_all<T: DeviceScoped>(s: Seq<T>)
    ensures
        selected_rows(s, None) == s,
    decreases s.len(),
{
    if s.len() == 0 {
        reveal(Seq::filter);
        assert(selected_rows(s, None) =~= s);
    } else {
        lemma_selected_push(s, None);
        lemma_selected_all(s.drop_last());
        assert(selected_rows(s, None) =~= s);
    }
}

/// The rows standing at the indices of a well-formed result set over a
/// key-sorted table are themselves key-sorted.
proof fn lemma_gather_table_sorted<T: SyncRow>(rows: Seq<T>, idx: Seq<usize>)
    requires
        table_sorted(rows),
        result_set_wf(rows, idx),
    ensures
        table_sorted(gather(rows, idx)),
{
    let srows = gather(rows, idx);
    assert forall|k: int| 0 <= k < srows.len() implies #[trigger] srows[k].lkey() >= 0 by {
        assert(srows[k] == rows[idx[k] as int]);
        assert(rows[idx[k] as int].lkey() >= 0);
    }
    assert forall|k1: int, k2: int| 0 <= k1 < k2 < srows.len() implies #[trigger] srows[k1].lkey()
        < #[trigger] srows[k2].lkey() by {
        assert(srows[k1] == rows[idx[k1] as int]);
        assert(srows[k2] == rows[idx[k2] as int]);
        assert(idx[k1] < idx[k2]);
        assert(rows[idx[k1] as int].lkey() < rows[idx[k2] as int].lkey());
    }
}

/// The relation twin of `lemma_gather_table_sorted`, for lexicographic
/// composite keys.
proof fn lemma_gather_relation_sorted<T: RelationRow>(rows: Seq<T>, idx: Seq<usize>)
    requires
        relation_sorted(rows),
        result_set_wf(rows, idx),
    ensures
        relation_sorted(gather(rows, idx)),
{
    let srows = gather(rows, idx);
    assert forall|k: int| 0 <= k < srows.len() implies #[trigger] srows[k].gkey() >= 0 by {
        assert(srows[k] == rows[idx[k] as int]);
        assert(rows[idx[k] as int].gkey() >= 0);
    }
    assert forall|k: int| 0 <= k < srows.len() implies #[trigger] srows[k].ikey() >= 0 by {
        assert(srows[k] == rows[idx[k] as int]);
        assert(rows[idx[k] as int].ikey() >= 0);
    }
    assert forall|k1: int, k2: int| 0 <= k1 < k2 < srows.len() implies pair_lt(
        #[trigger] srows[k1].gkey(),
        srows[k1].ikey(),
        #[trigger] srows[k2].gkey(),
        srows[k2].ikey(),
    ) by {
        assert(srows[k1] == rows[idx[k1] as int]);
        assert(srows[k2] == rows[idx[k2] as int]);
        assert(idx[k1] < idx[k2]);
        assert(pair_lt(
            rows[idx[k1] as int].gkey(),
            rows[idx[k1] as int].ikey(),
            rows[idx[k2] as int].gkey(),
            rows[idx[k2] as int].ikey(),
        ));
    }
    assert(relation_sorted(srows));
}

/// Appending the operation of row `k` to a log that carries the operations
/// of the first `k` rows yields the log of the first `k + 1` rows.
proof fn lemma_log_push<T: ToOperation>(
    prev: Seq<OperationRecord>,
    base: Seq<OperationRecord>,
    srows: Seq<T>,
    k: int,
    op: OperationRecord,
    dev: Seq<u8>,
    ts: u64,
)
    requires
        0 <= k < srows.len(),
        log_view(prev) == log_view(base) + table_ops_view(srows.take(k), dev, ts),
        op@ == srows[k].op_spec(dev, ts),
    ensures
        log_view(prev.push(op)) == log_view(base) + table_ops_view(srows.take(k + 1), dev, ts),
{
    let b = base.len() as int;
    let lhs = log_view(prev.push(op));
    let rhs = log_view(base) + table_ops_view(srows.take(k + 1), dev, ts);
    assert(log_view(prev).len() == prev.len());
    assert(log_view(base).len() == base.len());
    assert(table_ops_view(srows.take(k), dev, ts).len() == k);
    assert(prev.len() == b + k);
    assert(lhs.len() == prev.len() + 1);
    assert(table_ops_view(srows.take(k + 1), dev, ts).len() == k + 1);
    assert(rhs.len() == b + k + 1);
    assert forall|i: int| 0 <= i < lhs.len() implies lhs[i] == rhs[i] by {
        assert(lhs[i] == prev.push(op)[i]@);
        if i < b {
            assert(prev.push(op)[i] == prev[i]);
            assert(log_view(prev)[i] == prev[i]@);
            assert((log_view(base) + table_ops_view(srows.take(k), dev, ts))[i] == log_view(
                base,
            )[i]);
            assert(rhs[i] == log_view(base)[i]);
        } else if i < b + k {
            assert(prev.push(op)[i] == prev[i]);
            assert(log_view(prev)[i] == prev[i]@);
            assert((log_view(base) + table_ops_view(srows.take(k), dev, ts))[i] == table_ops_view(
                srows.take(k),
                dev,
                ts,
            )[i - b]);
            assert(table_ops_view(srows.take(k), dev, ts)[i - b] == srows.take(k)[i
                - b].op_spec(dev, ts));
            assert(srows.take(k)[i - b] == srows[i - b]);
            assert(rhs[i] == table_ops_view(srows.take(k + 1), dev, ts)[i - b]);
            assert(table_ops_view(srows.take(k + 1), dev, ts)[i - b] == srows.take(k + 1)[i
                - b].op_spec(dev, ts));
            assert(srows.take(k + 1)[i - b] == srows[i - b]);
        } else {
            assert(i == b + k);
            assert(prev.push(op)[i] == op);
            assert(rhs[i] == table_ops_view(srows.take(k + 1), dev, ts)[k]);
            assert(table_ops_view(srows.take(k + 1), dev, ts)[k] == srows.take(k + 1)[k].op_spec(
                dev,
                ts,
            ));
            assert(srows.take(k + 1)[k] == srows[k]);
        }
    }
    assert(lhs =~= rhs);
}

/// Every selected row is a row of the slice.
proof fn lemma_selected_elems<T: DeviceScoped>(s: Seq<T>, f: Option<i32>)
    ensures
        forall|k: int|
            0 <= k < selected_rows(s, f).len() ==> exists|a: int|
                0 <= a < s.len() && s[a] == #[trigger] selected_rows(s, f)[k],
    decreases s.len(),
{
    if s.len() > 0 {
        lemma_selected_push(s, f);
        lemma_selected_elems(s.drop_last(), f);
        let sel = selected_rows(s, f);
        let seld = selected_rows(s.drop_last(), f);
        assert forall|k: int| 0 <= k < sel.len() implies exists|a: int|
            0 <= a < s.len() && s[a] == #[trigger] sel[k] by {
            if k < seld.len() {
                assert(sel[k] == seld[k]);
                let a = choose|a: int|
                    0 <= a < s.drop_last().len() && s.drop_last()[a] == seld[k];
                assert(s[a] == sel[k]);
            } else {
                assert(sel[k] == s.last());
                assert(s[s.len() - 1] == sel[k]);
            }
        }
    }
}

/// Filtering a key-sorted slice keeps its keys strictly ascending: the
/// selection is an in-order subsequence.
proof fn lemma_selected_sorted<T: SyncRow>(s: Seq<T>, f: Option<i32>)
    requires
        table_sorted(s),
    ensures
        table_sorted(selected_rows(s, f)),
    decreases s.len(),
{
    if s.len() == 0 {
        reveal(Seq::filter);
    } else {
        lemma_selected_push(s, f);
        assert(table_sorted(s.drop_last()));
        lemma_selected_sorted(s.drop_last(), f);
        lemma_selected_elems(s.drop_last(), f);
        let sel = selected_rows(s, f);
        let seld = selected_rows(s.drop_last(), f);
        assert forall|k: int| 0 <= k < seld.len() implies #[trigger] seld[k].lkey()
            < s.last().lkey() by {
            let a = choose|a: int| 0 <= a < s.drop_last().len() && s.drop_last()[a] == seld[k];
            assert(s[a] == seld[k]);
            assert(s[a].lkey() < s[s.len() - 1].lkey());
        }
        assert forall|k: int| 0 <= k < sel.len() implies #[trigger] sel[k].lkey() >= 0 by {
            if k < seld.len() {
                assert(sel[k] == seld[k]);
            } else {
                assert(sel[k] == s.last());
                assert(s[s.len() - 1].lkey() >= 0);
            }
        }
        assert forall|k1: int, k2: int| 0 <= k1 < k2 < sel.len() implies #[trigger] sel[k1].lkey()
            < #[trigger] sel[k2].lkey() by {
            if k2 < seld.len() {
                assert(sel[k1] == seld[k1] && sel[k2] == seld[k2]);
            } else {
                assert(sel[k2] == s.last());
                assert(sel[k1] == seld[k1]);
            }
        }
    }
}

/// Two distinct positions of a selection come from two distinct positions of
/// the slice, in the same order.
pub proof fn lemma_selected_distinct<T: SyncRow>(rows: Seq<T>, f: Option<i32>, k1: int, k2: int)
    requires
        table_sorted(rows),
        0 <= k1 < k2 < selected_rows(rows, f).len(),
    ensures
        exists|a: int, b: int|
            0 <= a < b < rows.len() && rows[a] == selected_rows(rows, f)[k1] && rows[b]
                == selected_rows(rows, f)[k2],
{
    lemma_selected_elems(rows, f);
    lemma_selected_sorted(rows, f);
    let sel = selected_rows(rows, f);
    let a = choose|a: int| 0 <= a < rows.len() && rows[a] == sel[k1];
    let b = choose|b: int| 0 <= b < rows.len() && rows[b] == sel[k2];
    assert(sel[k1].lkey() < sel[k2].lkey());
    assert(a < b) by {
        if a == b {
            assert(rows[a].lkey() == rows[b].lkey());
        }
        if a > b {
            assert(rows[b].lkey() < rows[a].lkey());
        }
    }
    assert(rows[a] == sel[k1] && rows[b] == sel[k2]);
}

/// Runs the device-scoped query of a table slice: the indices of the rows it
/// returns, in table order.
pub fn select_rows<T: DeviceScoped>(rows: &Vec<T>, device_filter: Option<i32>) -> (idx: Vec<usize>)
    ensures
        gather(rows@, idx@) == selected_rows(rows@, device_filter),
        result_set_wf(rows@, idx@),
{
    let mut idx: Vec<usize> = Vec::new();
    let mut i: usize = 0;
    while i < rows.len()
        invariant
            i <= rows@.len(),
            gather(rows@, idx@) == selected_rows(rows@.take(i as int), device_filter),
            forall|k: int| 0 <= k < idx@.len() ==> #[trigger] idx@[k] < i,
            forall|k1: int, k2: int|
                0 <= k1 < k2 < idx@.len() ==> #[trigger] idx@[k1] < #[trigger] idx@[k2],
        decreases rows@.len() - i,
    {
        let keep = match device_filter {
            None => true,
            Some(d) => match rows[i].device_id() {
                Some(x) => x == d,
                None => false,
            },
        };
        if keep {
            idx.push(i);
        }
        proof {
            let t1 = rows@.take(i as int + 1);
            assert(t1.drop_last() =~= rows@.take(i as int));
            assert(t1.last() == rows@[i as int]);
            lemma_selected_push(t1, device_filter);
            assert(gather(rows@, idx@) =~= selected_rows(t1, device_filter));
        }
        i += 1;
    }
    proof {
        assert(rows@.take(rows@.len() as int) =~= rows@);
    }
    idx
}

/// One fetch of the cursor paginator: the bounds, within the query's result
/// set, of the page of rows whose local key is strictly greater than the
/// cursor, ascending, capped by the page-size limit. The page is
/// `idx[r.0 .. r.1]`; it is empty exactly when every selected key past the
/// cursor is exhausted.
pub fn fetch_page<T: SyncRow>(
    rows: &Vec<T>,
    idx: &Vec<usize>,
    cursor: i32,
    limit: Option<usize>,
) -> (r: (usize, usize))
    requires
        result_set_wf(rows@, idx@),
        table_sorted(gather(rows@, idx@)),
    ensures
        r.0 <= r.1 <= idx@.len(),
        forall|k: int|
            0 <= k < r.0 ==> #[trigger] gather(rows@, idx@)[k].lkey() <= cursor as int,
        forall|k: int|
            r.0 <= k < idx@.len() ==> #[trigger] gather(rows@, idx@)[k].lkey() > cursor as int,
        r.1 == match limit {
            Some(l) => if idx@.len() - r.0 <= l {
                idx@.len() as int
            } else {
                r.0 + l
            },
            None => idx@.len() as int,
        },
{
    let ghost srows = gather(rows@, idx@);
    let n = idx.len();
    let mut s: usize = 0;
    while s < n
        invariant_except_break
            s <= n,
            n == idx@.len(),
            result_set_wf(rows@, idx@),
            table_sorted(srows),
            srows == gather(rows@, idx@),
            forall|k: int| 0 <= k < s ==> #[trigger] srows[k].lkey() <= cursor as int,
        ensures
            s <= n,
            n == idx@.len(),
            forall|k: int| 0 <= k < s ==> #[trigger] srows[k].lkey() <= cursor as int,
            s < n ==> srows[s as int].lkey() > cursor as int,
        decreases n - s,
    {
        if rows[idx[s]].local_key() > cursor {
            proof {
                assert(srows[s as int] == rows@[idx@[s as int] as int]);
            }
            break ;
        }
        proof {
            assert(srows[s as int] == rows@[idx@[s as int] as int]);
        }
        s += 1;
    }
    proof {
        assert forall|k: int| s <= k < idx@.len() implies #[trigger] srows[k].lkey()
            > cursor as int by {
            assert(srows[s as int].lkey() > cursor as int);
            if k > s {
                assert(srows[s as int].lkey() < srows[k].lkey());
            }
        }
    }
    let e = match limit {
        Some(l) => if n - s <= l {
            n
        } else {
            s + l
        },
        None => n,
    };
    (s, e)
}

/// One fetch of the relation paginator: the page of rows whose composite
/// key is strictly greater than the cursor pair in lexicographic order.
pub fn fetch_page_relation<T: RelationRow>(
    rows: &Vec<T>,
    idx: &Vec<usize>,
    cursor: (i32, i32),
    limit: Option<usize>,
) -> (r: (usize, usize))
    requires
        result_set_wf(rows@, idx@),
        relation_sorted(gather(rows@, idx@)),
    ensures
        r.0 <= r.1 <= idx@.len(),
        forall|k: int|
            0 <= k < r.0 ==> !pair_lt(
                cursor.0 as int,
                cursor.1 as int,
                #[trigger] gather(rows@, idx@)[k].gkey(),
                gather(rows@, idx@)[k].ikey(),
            ),
        forall|k: int|
            r.0 <= k < idx@.len() ==> pair_lt(
                cursor.0 as int,
                cursor.1 as int,
                #[trigger] gather(rows@, idx@)[k].gkey(),
                gather(rows@, idx@)[k].ikey(),
            ),
        r.1 == match limit {
            Some(l) => if idx@.len() - r.0 <= l {
                idx@.len() as int
            } else {
                r.0 + l
            },
            None => idx@.len() as int,
        },
{
    let ghost srows = gather(rows@, idx@);
    let n = idx.len();
    let mut s: usize = 0;
    while s < n
        invariant_except_break
            s <= n,
            n == idx@.len(),
            result_set_wf(rows@, idx@),
            relation_sorted(srows),
            srows == gather(rows@, idx@),
            forall|k: int|
                0 <= k < s ==> !pair_lt(
                    cursor.0 as int,
                    cursor.1 as int,
                    #[trigger] srows[k].gkey(),
                    srows[k].ikey(),
                ),
        ensures
            s <= n,
            n == idx@.len(),
            forall|k: int|
                0 <= k < s ==> !pair_lt(
                    cursor.0 as int,
                    cursor.1 as int,
                    #[trigger] srows[k].gkey(),
                    srows[k].ikey(),
                ),
            s < n ==> pair_lt(
                cursor.0 as int,
                cursor.1 as int,
                srows[s as int].gkey(),
                srows[s as int].ikey(),
            ),
        decreases n - s,
    {
        let g = rows[idx[s]].group_key();
        let k = rows[idx[s]].item_key();
        proof {
            assert(srows[s as int] == rows@[idx@[s as int] as int]);
        }
        if g > cursor.0 || (g == cursor.0 && k > cursor.1) {
            break ;
        }
        s += 1;
    }
    proof {
        assert forall|k: int| s <= k < idx@.len() implies pair_lt(
            cursor.0 as int,
            cursor.1 as int,
            #[trigger] srows[k].gkey(),
            srows[k].ikey(),
        ) by {
            assert(pair_lt(
                cursor.0 as int,
                cursor.1 as int,
                srows[s as int].gkey(),
                srows[s as int].ikey(),
            ));
            if k > s {
                assert(pair_lt(
                    srows[s as int].gkey(),
                    srows[s as int].ikey(),
                    srows[k].gkey(),
                    srows[k].ikey(),
                ));
            }
        }
    }
    let e = match limit {
        Some(l) => if n - s <= l {
            n
        } else {
            s + l
        },
        None => n,
    };
    (s, e)
}

/// The cursor paginator. Runs the device-scoped query, then repeatedly
/// fetches the page of rows past the cursor, converts each row of the page
/// to its create operation, appends the page's operations to the log, and
/// advances the cursor to the page's last local key, until a fetch comes
/// back empty. Appends exactly one operation per selected row, in ascending
/// key order, and returns how many non-empty pages were written.
pub fn paginate<T: SyncRow + ToOperation>(
    rows: &Vec<T>,
    device_filter: Option<i32>,
    limit: Option<usize>,
    sync: &SyncManager,
    log: &mut Vec<OperationRecord>,
) -> (pages: usize)
    requires
        table_sorted(rows@),
        limit matches Some(l) ==> l >= 1,
    ensures
        log_view(final(log)@) == log_view(old(log)@) + table_ops_view(
            selected_rows(rows@, device_filter),
            sync.device_pub_id@,
            sync.timestamp,
        ),
        final(log)@.len() == old(log)@.len() + selected_rows(rows@, device_filter).len(),
        pages as int == num_pages(selected_rows(rows@, device_filter).len() as int, limit),
{
    let idx = select_rows(rows, device_filter);
    let ghost srows = gather(rows@, idx@);
    let ghost dev = sync.device_pub_id@;
    let ghost ts = sync.timestamp;
    proof {
        lemma_gather_table_sorted(rows@, idx@);
    }
    let flen = idx.len();
    let mut cursor: i32 = -1;
    let mut done: usize = 0;
    let mut pages: usize = 0;
    while done < flen
        invariant
            done <= flen,
            pages <= done,
            flen == idx@.len(),
            idx@.len() == srows.len(),
            result_set_wf(rows@, idx@),
            table_sorted(srows),
            srows == gather(rows@, idx@),
            srows == selected_rows(rows@, device_filter),
            limit matches Some(l) ==> l >= 1,
            done == 0 ==> cursor as int == -1,
            done > 0 ==> cursor as int == srows[done - 1].lkey(),
            forall|k: int| 0 <= k < done ==> #[trigger] srows[k].lkey() <= cursor as int,
            forall|k: int| done <= k < srows.len() ==> #[trigger] srows[k].lkey() > cursor as int,
            log_view(log@) == log_view(old(log)@) + table_ops_view(
                srows.take(done as int),
                dev,
                ts,
            ),
            log@.len() == old(log)@.len() + done,
            pages as int + num_pages(flen - done, limit) == num_pages(flen as int, limit),
            dev == sync.device_pub_id@,
            ts == sync.timestamp,
        decreases flen - done,
    {
        let (s, e) = fetch_page(rows, &idx, cursor, limit);
        proof {
            assert(s == done) by {
                if s < done {
                    assert(srows[s as int].lkey() <= cursor as int);
                    assert(srows[s as int].lkey() > cursor as int);
                }
                if s > done {
                    assert(srows[done as int].lkey() > cursor as int);
                    assert(srows[done as int].lkey() <= cursor as int);
                }
            }
            assert(e > done);
            assert(num_pages(flen - done, limit) == 1 + num_pages(flen - e, limit));
        }
        let mut k = s;
        while k < e
            invariant
                s <= k <= e <= flen,
                flen == idx@.len(),
                idx@.len() == srows.len(),
                result_set_wf(rows@, idx@),
                srows == gather(rows@, idx@),
                log_view(log@) == log_view(old(log)@) + table_ops_view(
                    srows.take(k as int),
                    dev,
                    ts,
                ),
                log@.len() == old(log)@.len() + k,
                dev == sync.device_pub_id@,
                ts == sync.timestamp,
            decreases e - k,
        {
            let op = rows[idx[k]].to_operation(sync);
            proof {
                assert(srows[k as int] == rows@[idx@[k as int] as int]);
                lemma_log_push(log@, old(log)@, srows, k as int, op, dev, ts);
            }
            log.push(op);
            k += 1;
        }
        cursor = rows[idx[e - 1]].local_key();
        proof {
            assert(srows[e - 1] == rows@[idx@[e - 1] as int]);
        }
        done = e;
        pages += 1;
    }
    proof {
        assert(srows.take(flen as int) =~= srows);
    }
    pages
}

/// The relation paginator: the same fetch-convert-persist loop for two-key
/// join tables, with a composite `(group, item)` cursor advanced in
/// lexicographic order. Lexicographic ascent guarantees forward progress
/// without revisiting a row whose group key repeats across pages.
pub fn paginate_relation<T: RelationRow + ToOperation>(
    rows: &Vec<T>,
    device_filter: Option<i32>,
    limit: Option<usize>,
    sync: &SyncManager,
    log: &mut Vec<OperationRecord>,
) -> (pages: usize)
    requires
        relation_sorted(rows@),
        limit matches Some(l) ==> l >= 1,
    ensures
        log_view(final(log)@) == log_view(old(log)@) + table_ops_view(
            selected_rows(rows@, device_filter),
            sync.device_pub_id@,
            sync.timestamp,
        ),
        final(log)@.len() == old(log)@.len() + selected_rows(rows@, device_filter).len(),
        pages as int == num_pages(selected_rows(rows@, device_filter).len() as int, limit),
{
    let idx = select_rows(rows, device_filter);
    let ghost srows = gather(rows@, idx@);
    let ghost dev = sync.device_pub_id@;
    let ghost ts = sync.timestamp;
    proof {
        lemma_gather_relation_sorted(rows@, idx@);
    }
    let flen = idx.len();
    let mut cursor: (i32, i32) = (-1, -1);
    let mut done: usize = 0;
    let mut pages: usize = 0;
    while done < flen
        invariant
            done <= flen,
            pages <= done,
            flen == idx@.len(),
            idx@.len() == srows.len(),
            result_set_wf(rows@, idx@),
            relation_sorted(srows),
            srows == gather(rows@, idx@),
            srows == selected_rows(rows@, device_filter),
            limit matches Some(l) ==> l >= 1,
            done == 0 ==> cursor.0 as int == -1 && cursor.1 as int == -1,
            done > 0 ==> cursor.0 as int == srows[done - 1].gkey() && cursor.1 as int == srows[
                done - 1].ikey(),
            forall|k: int|
                0 <= k < done ==> !pair_lt(
                    cursor.0 as int,
                    cursor.1 as int,
                    #[trigger] srows[k].gkey(),
                    srows[k].ikey(),
                ),
            forall|k: int|
                done <= k < srows.len() ==> pair_lt(
                    cursor.0 as int,
                    cursor.1 as int,
                    #[trigger] srows[k].gkey(),
                    srows[k].ikey(),
                ),
            log_view(log@) == log_view(old(log)@) + table_ops_view(
                srows.take(done as int),
                dev,
                ts,
            ),
            log@.len() == old(log)@.len() + done,
            pages as int + num_pages(flen - done, limit) == num_pages(flen as int, limit),
            dev == sync.device_pub_id@,
            ts == sync.timestamp,
        decreases flen - done,
    {
        let (s, e) = fetch_page_relation(rows, &idx, cursor, limit);
        proof {
            assert(s == done) by {
                if s < done {
                    assert(!pair_lt(
                        cursor.0 as int,
                        cursor.1 as int,
                        srows[s as int].gkey(),
                        srows[s as int].ikey(),
                    ));
                    assert(pair_lt(
                        cursor.0 as int,
                        cursor.1 as int,
                        srows[s as int].gkey(),
                        srows[s as int].ikey(),
                    ));
                }
                if s > done {
                    assert(pair_lt(
                        cursor.0 as int,
                        cursor.1 as int,
                        srows[done as int].gkey(),
                        srows[done as int].ikey(),
                    ));
                    assert(!pair_lt(
                        cursor.0 as int,
                        cursor.1 as int,
                        srows[done as int].gkey(),
                        srows[done as int].ikey(),
                    ));
                }
            }
            assert(e > done);
            assert(num_pages(flen - done, limit) == 1 + num_pages(flen - e, limit));
        }
        let mut k = s;
        while k < e
            invariant
                s <= k <= e <= flen,
                flen == idx@.len(),
                idx@.len() == srows.len(),
                result_set_wf(rows@, idx@),
                srows == gather(rows@, idx@),
                log_view(log@) == log_view(old(log)@) + table_ops_view(
                    srows.take(k as int),
                    dev,
                    ts,
                ),
                log@.len() == old(log)@.len() + k,
                dev == sync.device_pub_id@,
                ts == sync.timestamp,
            decreases e - k,
        {
            let op = rows[idx[k]].to_operation(sync);
            proof {
                assert(srows[k as int] == rows@[idx@[k as int] as int]);
                lemma_log_push(log@, old(log)@, srows, k as int, op, dev, ts);
            }
            log.push(op);
            k += 1;
        }
        cursor = (rows[idx[e - 1]].group_key(), rows[idx[e - 1]].item_key());
        proof {
            assert(srows[e - 1] == rows@[idx@[e - 1] as int]);
        }
        done = e;
        pages += 1;
    }
    proof {
        assert(srows.take(flen as int) =~= srows);
    }
    pages
}

} // verus!

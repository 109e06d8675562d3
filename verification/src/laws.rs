//! Laws of the backfill engine: properties that hold of every run, stated
//! once over the ghost model and proved for all inputs.

use vstd::prelude::*;

use crate::backfill::{backfill_ops, find_device, find_stats, stats_ops, wiped_ops};
use crate::convert::ToOperation;
use crate::ops::{EntryView, FieldName, OperationKind, OpView, SyncIdView, ValueView};
use crate::paginate::{lemma_selected_distinct, num_pages, selected_rows, table_ops_view};
use crate::rows::DeviceRow;
use crate::rows::FilePathRow;
use crate::rows::StorageStatisticsRow;
use crate::rows::Store;

verus! {

/// Each operation of a table segment carries its row's target and kind, and
/// the device identity and timestamp of the run.
proof fn lemma_table_ops_fields<T: ToOperation>(rows: Seq<T>, device: Seq<u8>, ts: u64)
    ensures
        table_ops_view(rows, device, ts).len() == rows.len(),
        forall|i: int|
            0 <= i < rows.len() ==> (#[trigger] table_ops_view(rows, device, ts)[i]).device
                == device,
        forall|i: int|
            0 <= i < rows.len() ==> (#[trigger] table_ops_view(rows, device, ts)[i]).timestamp
                == ts,
        forall|i: int|
            0 <= i < rows.len() ==> (#[trigger] table_ops_view(rows, device, ts)[i]).target
                == rows[i].target_spec(),
        forall|i: int|
            0 <= i < rows.len() ==> (#[trigger] table_ops_view(rows, device, ts)[i]).kind
                == rows[i].kind_spec(),
{
    assert forall|i: int| 0 <= i < rows.len() implies {
        let op = #[trigger] table_ops_view(rows, device, ts)[i];
        op.device == device && op.timestamp == ts && op.target == rows[i].target_spec() && op.kind
            == rows[i].kind_spec()
    } by {
        assert(table_ops_view(rows, device, ts)[i] == rows[i].op_spec(device, ts));
        rows[i].lemma_op_spec(device, ts);
    }
}

/// Every operation a backfill run generates is tagged with the local
/// device's identity.
proof fn lemma_backfill_ops_local(store: Store, device: Seq<u8>, ts: u64)
    ensures
        forall|i: int|
            0 <= i < backfill_ops(store, device, ts).len() ==> (#[trigger] backfill_ops(
                store,
                device,
                ts,
            )[i]).device == device,
{
    let local = find_device(store.devices@, device)->0;
    let did = local.id;
    let m = backfill_ops(store, device, ts);
    lemma_table_ops_fields(store.tags@, device, ts);
    lemma_table_ops_fields(selected_rows(store.locations@, Some(did)), device, ts);
    lemma_table_ops_fields(selected_rows(store.objects@, Some(did)), device, ts);
    lemma_table_ops_fields(store.labels@, device, ts);
    lemma_table_ops_fields(selected_rows(store.exif_datas@, Some(did)), device, ts);
    lemma_table_ops_fields(selected_rows(store.file_paths@, Some(did)), device, ts);
    lemma_table_ops_fields(selected_rows(store.tag_on_objects@, Some(did)), device, ts);
    lemma_table_ops_fields(selected_rows(store.label_on_objects@, Some(did)), device, ts);
    local.lemma_op_spec(device, ts);
    match find_stats(store.storage_statistics@, did) {
        Some(r) => r.lemma_op_spec(device, ts),
        None => (),
    }
    assert forall|i: int| 0 <= i < m.len() implies (#[trigger] m[i]).device == device by {}
}

/// A log whose records all carry the given device identity is wiped away
/// entirely.
proof fn lemma_wiped_none_survive(m: Seq<OpView>, device: Seq<u8>)
    requires
        forall|i: int| 0 <= i < m.len() ==> (#[trigger] m[i]).device == device,
    ensures
        wiped_ops(m, device) == Seq::<OpView>::empty(),
    decreases m.len(),
{
    reveal(Seq::filter);
    if m.len() > 0 {
        lemma_wiped_none_survive(m.drop_last(), device);
        assert(m[m.len() - 1].device == device);
        assert(wiped_ops(m, device) =~= Seq::<OpView>::empty());
    }
}

/// A log whose records all carry other device identities survives a wipe
/// unchanged.
proof fn lemma_wiped_all_survive(m: Seq<OpView>, device: Seq<u8>)
    requires
        forall|i: int| 0 <= i < m.len() ==> (#[trigger] m[i]).device != device,
    ensures
        wiped_ops(m, device) == m,
    decreases m.len(),
{
    reveal(Seq::filter);
    if m.len() == 0 {
        assert(wiped_ops(m, device) =~= m);
    } else {
        lemma_wiped_all_survive(m.drop_last(), device);
        assert(m[m.len() - 1].device != device);
        assert(wiped_ops(m, device) =~= m);
    }
}

/// A wipe distributes over concatenation.
proof fn lemma_wiped_distributes(a: Seq<OpView>, b: Seq<OpView>, device: Seq<u8>)
    ensures
        wiped_ops(a + b, device) == wiped_ops(a, device) + wiped_ops(b, device),
    decreases b.len(),
{
    reveal(Seq::filter);
    if b.len() == 0 {
        assert(a + b =~= a);
        assert(wiped_ops(b, device) =~= Seq::<OpView>::empty());
        assert(wiped_ops(a, device) + wiped_ops(b, device) =~= wiped_ops(a, device));
    } else {
        lemma_wiped_distributes(a, b.drop_last(), device);
        assert((a + b).drop_last() =~= a + b.drop_last());
        assert((a + b).last() == b.last());
        if b.last().device != device {
            assert(wiped_ops(a + b, device) =~= wiped_ops(a, device) + wiped_ops(b, device));
        } else {
            assert(wiped_ops(a + b, device) =~= wiped_ops(a, device) + wiped_ops(b, device));
        }
    }
}

/// Every record that survives a wipe carries another device's identity.
proof fn lemma_wiped_pred(m: Seq<OpView>, device: Seq<u8>)
    ensures
        forall|i: int|
            0 <= i < wiped_ops(m, device).len() ==> (#[trigger] wiped_ops(m, device)[i]).device
                != device,
    decreases m.len(),
{
    reveal(Seq::filter);
    if m.len() > 0 {
        lemma_wiped_pred(m.drop_last(), device);
        let w = wiped_ops(m, device);
        let wd = wiped_ops(m.drop_last(), device);
        assert forall|i: int| 0 <= i < w.len() implies (#[trigger] w[i]).device != device by {
            if i < wd.len() {
                assert(w[i] == wd[i]);
            } else {
                assert(w[i] == m.last());
            }
        }
    }
}

/// Idempotence: running backfill twice in succession with no intervening
/// data mutation produces the same operation log, because the second run's
/// wipe removes exactly what the first run generated and nothing else.
pub proof fn lemma_backfill_idempotent(store: Store, device: Seq<u8>, ts: u64, log: Seq<OpView>)
    ensures
        ({
            let once = wiped_ops(log, device) + backfill_ops(store, device, ts);
            let twice = wiped_ops(once, device) + backfill_ops(store, device, ts);
            twice == once
        }),
{
    let m = backfill_ops(store, device, ts);
    let w = wiped_ops(log, device);
    lemma_backfill_ops_local(store, device, ts);
    lemma_wiped_distributes(w, m, device);
    lemma_wiped_none_survive(m, device);
    lemma_wiped_pred(log, device);
    lemma_wiped_all_survive(w, device);
    assert(wiped_ops(w + m, device) =~= w);
}

/// The page-count law of the cursor paginator: pagination over `n` rows with
/// page size `l` writes exactly the ceiling of `n / l` pages, so every row is
/// visited and none twice.
pub proof fn lemma_num_pages_is_ceil(n: int, l: usize)
    requires
        n >= 0,
        l >= 1,
    ensures
        num_pages(n, Some(l)) == (n + l - 1) / (l as int),
    decreases n,
{
    let li = l as int;
    if n == 0 {
        assert((li - 1) / li == 0) by (nonlinear_arith)
            requires
                li >= 1,
        ;
    } else if n <= li {
        assert((n + li - 1) / li == 1) by (nonlinear_arith)
            requires
                1 <= n <= li,
        ;
    } else {
        lemma_num_pages_is_ceil(n - li, l);
        assert((n - li + li - 1) / li + 1 == (n + li - 1) / li) by (nonlinear_arith)
            requires
                li >= 1,
                n > li,
        ;
    }
}

/// Optional-field omission, shown on the device converter's name column: a
/// null name contributes no entry at all, a present name contributes exactly
/// one entry holding its text. The other converters build their entry sets
/// from the same conditional segments.
pub proof fn lemma_optional_field_omission(d: DeviceRow)
    ensures
        d.name is None ==> forall|i: int|
            0 <= i < d.entries_spec().len() ==> (#[trigger] d.entries_spec()[i]).field
                != FieldName::Name,
        d.name matches Some(n) ==> d.entries_spec()[0] == (EntryView {
            field: FieldName::Name,
            value: ValueView::Text(n@),
        }) && forall|j: int|
            1 <= j < d.entries_spec().len() ==> (#[trigger] d.entries_spec()[j]).field
                != FieldName::Name,
{
    let e = d.entries_spec();
    if d.name is None {
        assert forall|i: int| 0 <= i < e.len() implies (#[trigger] e[i]).field
            != FieldName::Name by {}
    } else {
        assert forall|j: int| 1 <= j < e.len() implies (#[trigger] e[j]).field
            != FieldName::Name by {}
    }
}

/// The operations of a log that create standalone entities.
pub open spec fn shared_ops(m: Seq<OpView>) -> Seq<OpView> {
    m.filter(|o: OpView| o.kind == OperationKind::SharedCreate)
}

/// The target identities of a log's operations, in order.
pub open spec fn targets_of(m: Seq<OpView>) -> Seq<SyncIdView> {
    m.map_values(|o: OpView| o.target)
}

/// The target identities of a log's `SharedCreate` operations, in order.
pub open spec fn shared_create_targets(m: Seq<OpView>) -> Seq<SyncIdView> {
    targets_of(shared_ops(m))
}

/// The target identities of a table segment, in row order.
pub open spec fn table_targets<T: ToOperation>(rows: Seq<T>) -> Seq<SyncIdView> {
    rows.map_values(|r: T| r.target_spec())
}

/// The target identity of the storage-statistics step, if the device has a
/// row.
pub open spec fn stats_targets(rows: Seq<StorageStatisticsRow>, did: i32) -> Seq<SyncIdView> {
    match find_stats(rows, did) {
        Some(r) => seq![r.target_spec()],
        None => Seq::empty(),
    }
}

/// The identities a backfill run creates with kind `SharedCreate`, in
/// generation order: the local device, its storage statistics if any, then
/// every tag, location, object, label, EXIF datum and file path the run
/// selects. Meaningful when the local device row exists.
pub open spec fn shared_targets(store: Store, device: Seq<u8>) -> Seq<SyncIdView> {
    let local = find_device(store.devices@, device)->0;
    let did = local.id;
    seq![SyncIdView::Device(local.pub_id@)] + stats_targets(store.storage_statistics@, did)
        + table_targets(store.tags@) + table_targets(selected_rows(store.locations@, Some(did)))
        + table_targets(selected_rows(store.objects@, Some(did))) + table_targets(store.labels@)
        + table_targets(selected_rows(store.exif_datas@, Some(did))) + table_targets(
        selected_rows(store.file_paths@, Some(did)),
    )
}

/// Filtering for shared creates distributes over concatenation.
proof fn lemma_shared_ops_distributes(a: Seq<OpView>, b: Seq<OpView>)
    ensures
        shared_ops(a + b) == shared_ops(a) + shared_ops(b),
    decreases b.len(),
{
    reveal(Seq::filter);
    if b.len() == 0 {
        assert(a + b =~= a);
        assert(shared_ops(b) =~= Seq::<OpView>::empty());
        assert(shared_ops(a) + shared_ops(b) =~= shared_ops(a));
    } else {
        lemma_shared_ops_distributes(a, b.drop_last());
        assert((a + b).drop_last() =~= a + b.drop_last());
        assert((a + b).last() == b.last());
        assert(shared_ops(a + b) =~= shared_ops(a) + shared_ops(b));
    }
}

/// A segment of shared creates passes the filter whole.
proof fn lemma_shared_ops_all(m: Seq<OpView>)
    requires
        forall|i: int| 0 <= i < m.len() ==> (#[trigger] m[i]).kind == OperationKind::SharedCreate,
    ensures
        shared_ops(m) == m,
    decreases m.len(),
{
    reveal(Seq::filter);
    if m.len() == 0 {
        assert(shared_ops(m) =~= m);
    } else {
        lemma_shared_ops_all(m.drop_last());
        assert(m[m.len() - 1].kind == OperationKind::SharedCreate);
        assert(shared_ops(m) =~= m);
    }
}

/// A segment of relation creates is filtered away whole.
proof fn lemma_shared_ops_none(m: Seq<OpView>)
    requires
        forall|i: int| 0 <= i < m.len() ==> (#[trigger] m[i]).kind == OperationKind::RelationCreate,
    ensures
        shared_ops(m) == Seq::<OpView>::empty(),
    decreases m.len(),
{
    reveal(Seq::filter);
    if m.len() > 0 {
        lemma_shared_ops_none(m.drop_last());
        assert(m[m.len() - 1].kind == OperationKind::RelationCreate);
        assert(shared_ops(m) =~= Seq::<OpView>::empty());
    }
}

/// Taking targets distributes over concatenation.
proof fn lemma_targets_distributes(a: Seq<OpView>, b: Seq<OpView>)
    ensures
        targets_of(a + b) == targets_of(a) + targets_of(b),
{
    assert forall|i: int| 0 <= i < a.len() + b.len() implies #[trigger] targets_of(a + b)[i] == (
    targets_of(a) + targets_of(b))[i] by {
        if i < a.len() {
            assert((a + b)[i] == a[i]);
        } else {
            assert((a + b)[i] == b[i - a.len()]);
        }
    }
    assert(targets_of(a + b) =~= targets_of(a) + targets_of(b));
}

/// The targets of a table segment's operations are its rows' targets.
proof fn lemma_table_segment_targets<T: ToOperation>(rows: Seq<T>, device: Seq<u8>, ts: u64)
    ensures
        targets_of(table_ops_view(rows, device, ts)) == table_targets(rows),
{
    lemma_table_ops_fields(rows, device, ts);
    assert forall|i: int| 0 <= i < rows.len() implies #[trigger] targets_of(
        table_ops_view(rows, device, ts),
    )[i] == table_targets(rows)[i] by {
        assert(table_ops_view(rows, device, ts)[i].target == rows[i].target_spec());
    }
    assert(targets_of(table_ops_view(rows, device, ts)) =~= table_targets(rows));
}

/// The bridge: the `SharedCreate` operations of one backfill run target
/// exactly `shared_targets`, in order. The membership tables contribute only
/// `RelationCreate` operations.
pub proof fn lemma_backfill_shared_targets(store: Store, device: Seq<u8>, ts: u64)
    ensures
        shared_create_targets(backfill_ops(store, device, ts)) == shared_targets(store, device),
{
    let local = find_device(store.devices@, device)->0;
    let did = local.id;
    let s0 = seq![local.op_spec(device, ts)];
    let s1 = stats_ops(store.storage_statistics@, did, device, ts);
    let s2 = table_ops_view(store.tags@, device, ts);
    let s3 = table_ops_view(selected_rows(store.locations@, Some(did)), device, ts);
    let s4 = table_ops_view(selected_rows(store.objects@, Some(did)), device, ts);
    let s5 = table_ops_view(store.labels@, device, ts);
    let s6 = table_ops_view(selected_rows(store.exif_datas@, Some(did)), device, ts);
    let s7 = table_ops_view(selected_rows(store.file_paths@, Some(did)), device, ts);
    let s8 = table_ops_view(selected_rows(store.tag_on_objects@, Some(did)), device, ts);
    let s9 = table_ops_view(selected_rows(store.label_on_objects@, Some(did)), device, ts);
    let m = backfill_ops(store, device, ts);
    assert(m == s0 + s1 + s2 + s3 + s4 + s5 + s6 + s7 + s8 + s9);

    lemma_table_ops_fields(store.tags@, device, ts);
    lemma_table_ops_fields(selected_rows(store.locations@, Some(did)), device, ts);
    lemma_table_ops_fields(selected_rows(store.objects@, Some(did)), device, ts);
    lemma_table_ops_fields(store.labels@, device, ts);
    lemma_table_ops_fields(selected_rows(store.exif_datas@, Some(did)), device, ts);
    lemma_table_ops_fields(selected_rows(store.file_paths@, Some(did)), device, ts);
    lemma_table_ops_fields(selected_rows(store.tag_on_objects@, Some(did)), device, ts);
    lemma_table_ops_fields(selected_rows(store.label_on_objects@, Some(did)), device, ts);
    local.lemma_op_spec(device, ts);

    lemma_shared_ops_distributes(s0 + s1 + s2 + s3 + s4 + s5 + s6 + s7 + s8, s9);
    lemma_shared_ops_distributes(s0 + s1 + s2 + s3 + s4 + s5 + s6 + s7, s8);
    lemma_shared_ops_distributes(s0 + s1 + s2 + s3 + s4 + s5 + s6, s7);
    lemma_shared_ops_distributes(s0 + s1 + s2 + s3 + s4 + s5, s6);
    lemma_shared_ops_distributes(s0 + s1 + s2 + s3 + s4, s5);
    lemma_shared_ops_distributes(s0 + s1 + s2 + s3, s4);
    lemma_shared_ops_distributes(s0 + s1 + s2, s3);
    lemma_shared_ops_distributes(s0 + s1, s2);
    lemma_shared_ops_distributes(s0, s1);

    lemma_shared_ops_all(s0);
    match find_stats(store.storage_statistics@, did) {
        Some(r) => {
            r.lemma_op_spec(device, ts);
            assert(s1 == seq![r.op_spec(device, ts)]);
            assert(s1[0].kind == OperationKind::SharedCreate);
            lemma_shared_ops_all(s1);
        },
        None => {
            lemma_shared_ops_all(s1);
        },
    }
    lemma_shared_ops_all(s2);
    lemma_shared_ops_all(s3);
    lemma_shared_ops_all(s4);
    lemma_shared_ops_all(s5);
    lemma_shared_ops_all(s6);
    lemma_shared_ops_all(s7);
    lemma_shared_ops_none(s8);
    lemma_shared_ops_none(s9);
    assert(shared_ops(m) =~= s0 + s1 + s2 + s3 + s4 + s5 + s6 + s7);

    lemma_targets_distributes(s0 + s1 + s2 + s3 + s4 + s5 + s6, s7);
    lemma_targets_distributes(s0 + s1 + s2 + s3 + s4 + s5, s6);
    lemma_targets_distributes(s0 + s1 + s2 + s3 + s4, s5);
    lemma_targets_distributes(s0 + s1 + s2 + s3, s4);
    lemma_targets_distributes(s0 + s1 + s2, s3);
    lemma_targets_distributes(s0 + s1, s2);
    lemma_targets_distributes(s0, s1);

    lemma_table_segment_targets(store.tags@, device, ts);
    lemma_table_segment_targets(selected_rows(store.locations@, Some(did)), device, ts);
    lemma_table_segment_targets(selected_rows(store.objects@, Some(did)), device, ts);
    lemma_table_segment_targets(store.labels@, device, ts);
    lemma_table_segment_targets(selected_rows(store.exif_datas@, Some(did)), device, ts);
    lemma_table_segment_targets(selected_rows(store.file_paths@, Some(did)), device, ts);

    assert(targets_of(s0) =~= seq![SyncIdView::Device(local.pub_id@)]);
    match find_stats(store.storage_statistics@, did) {
        Some(r) => {
            assert(targets_of(s1) =~= stats_targets(store.storage_statistics@, did));
        },
        None => {
            assert(targets_of(s1) =~= stats_targets(store.storage_statistics@, did));
        },
    }
    assert(shared_create_targets(m) =~= shared_targets(store, device));
}

/// The store's unique-identity constraints: within each entity table, no two
/// rows share a sync identity. The storage engine's unique indexes guarantee
/// this of any real snapshot.
pub open spec fn sync_ids_unique(store: Store) -> bool {
    &&& forall|i: int, j: int|
        0 <= i < j < store.devices@.len() ==> (#[trigger] store.devices@[i]).pub_id@ != (
        #[trigger] store.devices@[j]).pub_id@
    &&& forall|i: int, j: int|
        0 <= i < j < store.storage_statistics@.len() ==> (
        #[trigger] store.storage_statistics@[i]).pub_id@ != (
        #[trigger] store.storage_statistics@[j]).pub_id@
    &&& forall|i: int, j: int|
        0 <= i < j < store.tags@.len() ==> (#[trigger] store.tags@[i]).pub_id@ != (
        #[trigger] store.tags@[j]).pub_id@
    &&& forall|i: int, j: int|
        0 <= i < j < store.locations@.len() ==> (#[trigger] store.locations@[i]).pub_id@ != (
        #[trigger] store.locations@[j]).pub_id@
    &&& forall|i: int, j: int|
        0 <= i < j < store.objects@.len() ==> (#[trigger] store.objects@[i]).pub_id@ != (
        #[trigger] store.objects@[j]).pub_id@
    &&& forall|i: int, j: int|
        0 <= i < j < store.labels@.len() ==> (#[trigger] store.labels@[i]).name@ != (
        #[trigger] store.labels@[j]).name@
    &&& forall|i: int, j: int|
        0 <= i < j < store.exif_datas@.len() ==> (#[trigger] store.exif_datas@[i]).object_pub_id@
            != (#[trigger] store.exif_datas@[j]).object_pub_id@
    &&& forall|i: int, j: int|
        0 <= i < j < store.file_paths@.len() ==> (#[trigger] store.file_paths@[i]).pub_id@ != (
        #[trigger] store.file_paths@[j]).pub_id@
}

/// How many `SharedCreate` identities the first wave (and the device step
/// before it) contributes: everything up to and including the labels.
pub open spec fn wave_one_target_count(store: Store, device: Seq<u8>) -> int {
    let local = find_device(store.devices@, device)->0;
    let did = local.id;
    1int + stats_targets(store.storage_statistics@, did).len() + store.tags@.len()
        + selected_rows(store.locations@, Some(did)).len() + selected_rows(
        store.objects@,
        Some(did),
    ).len() + store.labels@.len()
}

/// Pins each position of `shared_targets` to the row it came from.
proof fn lemma_shared_targets_at(store: Store, device: Seq<u8>)
    ensures
        ({
            let local = find_device(store.devices@, device)->0;
            let did = local.id;
            let t = shared_targets(store, device);
            let st = stats_targets(store.storage_statistics@, did);
            let tg = store.tags@;
            let lo = selected_rows(store.locations@, Some(did));
            let ob = selected_rows(store.objects@, Some(did));
            let lb = store.labels@;
            let ex = selected_rows(store.exif_datas@, Some(did));
            let fp = selected_rows(store.file_paths@, Some(did));
            let o1 = 1int;
            let o2 = o1 + st.len();
            let o3 = o2 + tg.len();
            let o4 = o3 + lo.len();
            let o5 = o4 + ob.len();
            let o6 = o5 + lb.len();
            let o7 = o6 + ex.len();
            let o8 = o7 + fp.len();
            &&& t.len() == o8
            &&& t[0] == SyncIdView::Device(local.pub_id@)
            &&& (match find_stats(store.storage_statistics@, did) {
                Some(r) => st.len() == 1 && t[1] == SyncIdView::StorageStatistics(r.pub_id@),
                None => st.len() == 0,
            })
            &&& forall|k: int| 0 <= k < tg.len() ==> t[o2 + k] == SyncIdView::Tag((#[trigger] tg[k]).pub_id@)
            &&& forall|k: int| 0 <= k < lo.len() ==> t[o3 + k] == SyncIdView::Location((#[trigger] lo[k]).pub_id@)
            &&& forall|k: int| 0 <= k < ob.len() ==> t[o4 + k] == SyncIdView::Object((#[trigger] ob[k]).pub_id@)
            &&& forall|k: int| 0 <= k < lb.len() ==> t[o5 + k] == SyncIdView::Label((#[trigger] lb[k]).name@)
            &&& forall|k: int| 0 <= k < ex.len() ==> t[o6 + k] == SyncIdView::ExifData((#[trigger] ex[k]).object_pub_id@)
            &&& forall|k: int| 0 <= k < fp.len() ==> t[o7 + k] == SyncIdView::FilePath((#[trigger] fp[k]).pub_id@)
        }),
{
    let local = find_device(store.devices@, device)->0;
    let did = local.id;
    let t = shared_targets(store, device);
    let tg = store.tags@;
    let lo = selected_rows(store.locations@, Some(did));
    let ob = selected_rows(store.objects@, Some(did));
    let lb = store.labels@;
    let ex = selected_rows(store.exif_datas@, Some(did));
    let fp = selected_rows(store.file_paths@, Some(did));
    assert forall|k: int| 0 <= k < tg.len() implies table_targets(tg)[k] == SyncIdView::Tag(
        (#[trigger] tg[k]).pub_id@,
    ) by {}
    assert forall|k: int| 0 <= k < lo.len() implies table_targets(lo)[k] == SyncIdView::Location(
        (#[trigger] lo[k]).pub_id@,
    ) by {}
    assert forall|k: int| 0 <= k < ob.len() implies table_targets(ob)[k] == SyncIdView::Object(
        (#[trigger] ob[k]).pub_id@,
    ) by {}
    assert forall|k: int| 0 <= k < lb.len() implies table_targets(lb)[k] == SyncIdView::Label(
        (#[trigger] lb[k]).name@,
    ) by {}
    assert forall|k: int| 0 <= k < ex.len() implies table_targets(ex)[k] == SyncIdView::ExifData(
        (#[trigger] ex[k]).object_pub_id@,
    ) by {}
    assert forall|k: int| 0 <= k < fp.len() implies table_targets(fp)[k] == SyncIdView::FilePath(
        (#[trigger] fp[k]).pub_id@,
    ) by {}
}

/// Completeness: after one backfill run, every selected row of every entity
/// table has a `SharedCreate` operation targeting its sync identity (exactly
/// one, by `lemma_no_duplicate_shared_creates`).
pub proof fn lemma_backfill_complete(store: Store, device: Seq<u8>, ts: u64)
    ensures
        ({
            let t = shared_create_targets(backfill_ops(store, device, ts));
            let local = find_device(store.devices@, device)->0;
            let did = local.id;
            &&& t.contains(SyncIdView::Device(local.pub_id@))
            &&& (match find_stats(store.storage_statistics@, did) {
                Some(r) => t.contains(SyncIdView::StorageStatistics(r.pub_id@)),
                None => true,
            })
            &&& forall|k: int|
                0 <= k < store.tags@.len() ==> t.contains(
                    SyncIdView::Tag((#[trigger] store.tags@[k]).pub_id@),
                )
            &&& forall|k: int|
                0 <= k < selected_rows(store.locations@, Some(did)).len() ==> t.contains(
                    SyncIdView::Location(
                        (#[trigger] selected_rows(store.locations@, Some(did))[k]).pub_id@,
                    ),
                )
            &&& forall|k: int|
                0 <= k < selected_rows(store.objects@, Some(did)).len() ==> t.contains(
                    SyncIdView::Object(
                        (#[trigger] selected_rows(store.objects@, Some(did))[k]).pub_id@,
                    ),
                )
            &&& forall|k: int|
                0 <= k < store.labels@.len() ==> t.contains(
                    SyncIdView::Label((#[trigger] store.labels@[k]).name@),
                )
            &&& forall|k: int|
                0 <= k < selected_rows(store.exif_datas@, Some(did)).len() ==> t.contains(
                    SyncIdView::ExifData(
                        (#[trigger] selected_rows(store.exif_datas@, Some(did))[k]).object_pub_id@,
                    ),
                )
            &&& forall|k: int|
                0 <= k < selected_rows(store.file_paths@, Some(did)).len() ==> t.contains(
                    SyncIdView::FilePath(
                        (#[trigger] selected_rows(store.file_paths@, Some(did))[k]).pub_id@,
                    ),
                )
        }),
{
    lemma_backfill_shared_targets(store, device, ts);
    lemma_shared_targets_at(store, device);
    let local = find_device(store.devices@, device)->0;
    let did = local.id;
    let t = shared_targets(store, device);
    let st = stats_targets(store.storage_statistics@, did);
    let tg = store.tags@;
    let lo = selected_rows(store.locations@, Some(did));
    let ob = selected_rows(store.objects@, Some(did));
    let lb = store.labels@;
    let ex = selected_rows(store.exif_datas@, Some(did));
    let fp = selected_rows(store.file_paths@, Some(did));
    let o2 = 1 + st.len() as int;
    let o3 = o2 + tg.len();
    let o4 = o3 + lo.len();
    let o5 = o4 + ob.len();
    let o6 = o5 + lb.len();
    let o7 = o6 + ex.len();
    assert(t[0] == SyncIdView::Device(local.pub_id@));
    assert(t.contains(SyncIdView::Device(local.pub_id@)));
    match find_stats(store.storage_statistics@, did) {
        Some(r) => {
            assert(t[1] == SyncIdView::StorageStatistics(r.pub_id@));
            assert(t.contains(SyncIdView::StorageStatistics(r.pub_id@)));
        },
        None => (),
    }
    assert forall|k: int| 0 <= k < tg.len() implies t.contains(
        SyncIdView::Tag((#[trigger] tg[k]).pub_id@),
    ) by {
        assert(t[o2 + k] == SyncIdView::Tag(tg[k].pub_id@));
    }
    assert forall|k: int| 0 <= k < lo.len() implies t.contains(
        SyncIdView::Location((#[trigger] lo[k]).pub_id@),
    ) by {
        assert(t[o3 + k] == SyncIdView::Location(lo[k].pub_id@));
    }
    assert forall|k: int| 0 <= k < ob.len() implies t.contains(
        SyncIdView::Object((#[trigger] ob[k]).pub_id@),
    ) by {
        assert(t[o4 + k] == SyncIdView::Object(ob[k].pub_id@));
    }
    assert forall|k: int| 0 <= k < lb.len() implies t.contains(
        SyncIdView::Label((#[trigger] lb[k]).name@),
    ) by {
        assert(t[o5 + k] == SyncIdView::Label(lb[k].name@));
    }
    assert forall|k: int| 0 <= k < ex.len() implies t.contains(
        SyncIdView::ExifData((#[trigger] ex[k]).object_pub_id@),
    ) by {
        assert(t[o6 + k] == SyncIdView::ExifData(ex[k].object_pub_id@));
    }
    assert forall|k: int| 0 <= k < fp.len() implies t.contains(
        SyncIdView::FilePath((#[trigger] fp[k]).pub_id@),
    ) by {
        assert(t[o7 + k] == SyncIdView::FilePath(fp[k].pub_id@));
    }
}

/// No duplication: after a single backfill run, no two `SharedCreate`
/// operations target the same sync identity.
pub proof fn lemma_no_duplicate_shared_creates(
    store: Store,
    device: Seq<u8>,
    ts: u64,
    i: int,
    j: int,
)
    requires
        store.wf(),
        sync_ids_unique(store),
        0 <= i < j < shared_create_targets(backfill_ops(store, device, ts)).len(),
    ensures
        shared_create_targets(backfill_ops(store, device, ts))[i] != shared_create_targets(
            backfill_ops(store, device, ts),
        )[j],
{
    lemma_backfill_shared_targets(store, device, ts);
    lemma_shared_targets_at(store, device);
    let local = find_device(store.devices@, device)->0;
    let did = local.id;
    let t = shared_targets(store, device);
    let st = stats_targets(store.storage_statistics@, did);
    let tg = store.tags@;
    let lo = selected_rows(store.locations@, Some(did));
    let ob = selected_rows(store.objects@, Some(did));
    let lb = store.labels@;
    let ex = selected_rows(store.exif_datas@, Some(did));
    let fp = selected_rows(store.file_paths@, Some(did));
    let o2 = 1 + st.len() as int;
    let o3 = o2 + tg.len();
    let o4 = o3 + lo.len();
    let o5 = o4 + ob.len();
    let o6 = o5 + lb.len();
    let o7 = o6 + ex.len();
    if o3 <= i && j < o4 {
        lemma_selected_distinct(store.locations@, Some(did), i - o3, j - o3);
        let (a, b) = choose|a: int, b: int|
            0 <= a < b < store.locations@.len() && store.locations@[a] == lo[i - o3]
                && store.locations@[b] == lo[j - o3];
        assert(store.locations@[a].pub_id@ != store.locations@[b].pub_id@);
    }
    if o4 <= i && j < o5 {
        lemma_selected_distinct(store.objects@, Some(did), i - o4, j - o4);
        let (a, b) = choose|a: int, b: int|
            0 <= a < b < store.objects@.len() && store.objects@[a] == ob[i - o4]
                && store.objects@[b] == ob[j - o4];
        assert(store.objects@[a].pub_id@ != store.objects@[b].pub_id@);
    }
    if o6 <= i && j < o7 {
        lemma_selected_distinct(store.exif_datas@, Some(did), i - o6, j - o6);
        let (a, b) = choose|a: int, b: int|
            0 <= a < b < store.exif_datas@.len() && store.exif_datas@[a] == ex[i - o6]
                && store.exif_datas@[b] == ex[j - o6];
        assert(store.exif_datas@[a].object_pub_id@ != store.exif_datas@[b].object_pub_id@);
    }
    if o7 <= i {
        lemma_selected_distinct(store.file_paths@, Some(did), i - o7, j - o7);
        let (a, b) = choose|a: int, b: int|
            0 <= a < b < store.file_paths@.len() && store.file_paths@[a] == fp[i - o7]
                && store.file_paths@[b] == fp[j - o7];
        assert(store.file_paths@[a].pub_id@ != store.file_paths@[b].pub_id@);
    }
    assert(t[i] != t[j]);
}

/// The referential premise of dependency ordering: every resolved location
/// or object reference of a selected file path names a row the same run
/// selects. The eager join that resolves references guarantees this of any
/// real snapshot.
pub open spec fn file_path_refs_resolved(store: Store, did: i32) -> bool {
    let fps = selected_rows(store.file_paths@, Some(did));
    let locs = selected_rows(store.locations@, Some(did));
    let objs = selected_rows(store.objects@, Some(did));
    &&& forall|k: int|
        0 <= k < fps.len() && (#[trigger] fps[k]).location is Some ==> exists|m: int|
            0 <= m < locs.len() && (#[trigger] locs[m]).pub_id@ == (fps[k].location->0)@
    &&& forall|k: int|
        0 <= k < fps.len() && (#[trigger] fps[k]).object is Some ==> exists|m: int|
            0 <= m < objs.len() && (#[trigger] objs[m]).pub_id@ == (fps[k].object->0)@
}

/// Dependency ordering: every location or object identity a file-path row
/// references is created by a `SharedCreate` operation that stands in wave
/// one, before any wave-two operation is generated.
pub proof fn lemma_dependency_ordering(store: Store, device: Seq<u8>, ts: u64)
    requires
        file_path_refs_resolved(store, find_device(store.devices@, device)->0.id),
    ensures
        ({
            let t = shared_create_targets(backfill_ops(store, device, ts));
            let did = find_device(store.devices@, device)->0.id;
            let fps = selected_rows(store.file_paths@, Some(did));
            let w1 = wave_one_target_count(store, device);
            &&& forall|k: int|
                0 <= k < fps.len() && (#[trigger] fps[k]).location is Some ==> exists|n: int|
                    0 <= n < w1 && t[n] == SyncIdView::Location((fps[k].location->0)@)
            &&& forall|k: int|
                0 <= k < fps.len() && (#[trigger] fps[k]).object is Some ==> exists|n: int|
                    0 <= n < w1 && t[n] == SyncIdView::Object((fps[k].object->0)@)
        }),
{
    lemma_backfill_shared_targets(store, device, ts);
    lemma_shared_targets_at(store, device);
    let local = find_device(store.devices@, device)->0;
    let did = local.id;
    let t = shared_targets(store, device);
    let st = stats_targets(store.storage_statistics@, did);
    let tg = store.tags@;
    let lo = selected_rows(store.locations@, Some(did));
    let ob = selected_rows(store.objects@, Some(did));
    let fps = selected_rows(store.file_paths@, Some(did));
    let w1 = wave_one_target_count(store, device);
    let o2 = 1 + st.len() as int;
    let o3 = o2 + tg.len();
    let o4 = o3 + lo.len();
    assert forall|k: int|
        0 <= k < fps.len() && (#[trigger] fps[k]).location is Some implies exists|n: int|
            0 <= n < w1 && t[n] == SyncIdView::Location((fps[k].location->0)@) by {
        let m = choose|m: int| 0 <= m < lo.len() && (#[trigger] lo[m]).pub_id@ == (
        fps[k].location->0)@;
        assert(t[o3 + m] == SyncIdView::Location(lo[m].pub_id@));
        assert(0 <= o3 + m < w1);
    }
    assert forall|k: int|
        0 <= k < fps.len() && (#[trigger] fps[k]).object is Some implies exists|n: int|
            0 <= n < w1 && t[n] == SyncIdView::Object((fps[k].object->0)@) by {
        let m = choose|m: int| 0 <= m < ob.len() && (#[trigger] ob[m]).pub_id@ == (
        fps[k].object->0)@;
        assert(t[o4 + m] == SyncIdView::Object(ob[m].pub_id@));
        assert(0 <= o4 + m < w1);
    }
}

/// Optional-field omission on the richest converter, the file-path table's
/// content-hash column: a null hash contributes no entry, a present one
/// contributes exactly one entry holding its text.
pub proof fn lemma_optional_field_omission_file_path(r: FilePathRow)
    ensures
        r.cas_id is None ==> forall|i: int|
            0 <= i < r.entries_spec().len() ==> (#[trigger] r.entries_spec()[i]).field
                != FieldName::CasId,
        r.cas_id matches Some(c) ==> exists|i: int|
            0 <= i < r.entries_spec().len() && r.entries_spec()[i] == (EntryView {
                field: FieldName::CasId,
                value: ValueView::Text(c@),
            }) && (forall|j: int|
                0 <= j < r.entries_spec().len() && j != i ==> (#[trigger] r.entries_spec()[j]).field
                    != FieldName::CasId),
{
    let e = r.entries_spec();
    if r.cas_id is None {
        assert forall|i: int| 0 <= i < e.len() implies (#[trigger] e[i]).field
            != FieldName::CasId by {}
    } else {
        let c = r.cas_id->0;
        let i = if r.is_dir is Some {
            1int
        } else {
            0int
        };
        assert(e[i] == (EntryView { field: FieldName::CasId, value: ValueView::Text(c@) }));
        assert forall|j: int| 0 <= j < e.len() && j != i implies (#[trigger] e[j]).field
            != FieldName::CasId by {}
    }
}

} // verus!

//! The backfill orchestrator.
//!
//! `backfill_operations` takes all the syncable data in a store snapshot and
//! regenerates the local device's operation log from it: it wipes every
//! operation record tagged with the local device's identity, re-materializes
//! the device's own row first, then runs the per-table converters in two
//! dependency-ordered waves — independent entities (storage statistics, tags,
//! locations, objects, labels) before dependent ones (EXIF data, file paths,
//! tag and label memberships). The whole step is all-or-nothing: on the one
//! possible error, a missing local device row, the log is left untouched.
//! Because the wipe precedes regeneration, the step is idempotent: re-running
//! it produces the same log again.

use vstd::prelude::*;

use crate::convert::ToOperation;
use crate::ops::{clone_bytes, log_view, OperationRecord, OpView, SyncManager};
use crate::paginate::{
    num_pages, paginate, paginate_relation, selected_rows, table_ops_view,
};
use crate::rows::{
    relation_sorted, table_sorted, DeviceRow, ExifDataRow, FilePathRow, LabelOnObjectRow,
    LabelRow, LocationRow, ObjectRow, StorageStatisticsRow, Store, TagOnObjectRow, TagRow,
};

verus! {

/// The page-size bound applied to the large paginated tables, capping peak
/// memory and transaction lock duration.
pub const PAGE_SIZE: usize = 1000;

/// What can go wrong around a backfill run. The library itself raises only
/// `DeviceNotFound`; the storage boundary that drives I/O around it maps its
/// failures onto the remaining kinds.
#[derive(PartialEq, Eq, Debug)]
pub enum Error {
    /// The local device's row is missing from the store: a hard precondition
    /// failure, raised before anything is written.
    DeviceNotFound(Vec<u8>),
    /// A read from the storage layer failed.
    StorageRead(String),
    /// A write to the storage layer failed.
    StorageWrite(String),
    /// An operation record could not be serialized for storage.
    Serialization(String),
}

/// The operations of a log that survive a wipe of one device: every record
/// whose originating device differs.
pub open spec fn wiped_ops(log: Seq<OpView>, device: Seq<u8>) -> Seq<OpView> {
    log.filter(|o: OpView| o.device != device)
}

/// The first device row carrying the given identity, if any.
pub open spec fn find_device(devices: Seq<DeviceRow>, pub_id: Seq<u8>) -> Option<DeviceRow>
    decreases devices.len(),
{
    if devices.len() == 0 {
        None
    } else if devices[0].pub_id@ == pub_id {
        Some(devices[0])
    } else {
        find_device(devices.skip(1), pub_id)
    }
}

/// The first storage-statistics row of the given device, if any: the
/// singleton-per-device lookup.
pub open spec fn find_stats(
    rows: Seq<StorageStatisticsRow>,
    device_id: i32,
) -> Option<StorageStatisticsRow>
    decreases rows.len(),
{
    if rows.len() == 0 {
        None
    } else if rows[0].device_id == Some(device_id) {
        Some(rows[0])
    } else {
        find_stats(rows.skip(1), device_id)
    }
}

/// The operations the storage-statistics step emits: one for the device's
/// row, or none at all when the device has no row — a no-op, not an error.
pub open spec fn stats_ops(
    rows: Seq<StorageStatisticsRow>,
    device_id: i32,
    device: Seq<u8>,
    ts: u64,
) -> Seq<OpView> {
    match find_stats(rows, device_id) {
        Some(r) => seq![r.op_spec(device, ts)],
        None => Seq::empty(),
    }
}

/// The full operation sequence one backfill run generates from a store
/// snapshot, in generation order: the local device's own row first, then
/// wave one (storage statistics, tags, locations, objects, labels), then
/// wave two (EXIF data, file paths, tag memberships, label memberships).
/// Meaningful when the local device row exists.
pub open spec fn backfill_ops(store: Store, device: Seq<u8>, ts: u64) -> Seq<OpView> {
    let local = find_device(store.devices@, device)->0;
    let did = local.id;
    seq![local.op_spec(device, ts)] + stats_ops(store.storage_statistics@, did, device, ts)
        + table_ops_view(store.tags@, device, ts) + table_ops_view(
        selected_rows(store.locations@, Some(did)),
        device,
        ts,
    ) + table_ops_view(selected_rows(store.objects@, Some(did)), device, ts) + table_ops_view(
        store.labels@,
        device,
        ts,
    ) + table_ops_view(selected_rows(store.exif_datas@, Some(did)), device, ts) + table_ops_view(
        selected_rows(store.file_paths@, Some(did)),
        device,
        ts,
    ) + table_ops_view(selected_rows(store.tag_on_objects@, Some(did)), device, ts)
        + table_ops_view(selected_rows(store.label_on_objects@, Some(did)), device, ts)
}

/// Compares two byte strings by content.
pub fn bytes_eq(a: &Vec<u8>, b: &Vec<u8>) -> (r: bool)
    ensures
        r == (a@ == b@),
{
    if a.len() != b.len() {
        return false;
    }
    let n = a.len();
    let mut i: usize = 0;
    while i < n
        invariant
            i <= n,
            n == a@.len(),
            n == b@.len(),
            forall|k: int| 0 <= k < i ==> a@[k] == b@[k],
        decreases n - i,
    {
        if a[i] != b[i] {
            return false;
        }
        i += 1;
    }
    proof {
        assert(a@ =~= b@);
    }
    true
}

/// Appending one more record to a log extends its wiped form by that
/// record's view when the record belongs to another device, and leaves it
/// unchanged otherwise.
proof fn lemma_wiped_push(log: Seq<OpView>, device: Seq<u8>)
    requires
        log.len() > 0,
    ensures
        wiped_ops(log, device) == wiped_ops(log.drop_last(), device) + (if log.last().device
            != device {
            seq![log.last()]
        } else {
            Seq::<OpView>::empty()
        }),
{
    reveal(Seq::filter);
}

/// Deletes every operation record tagged with the given device's identity,
/// keeping all other devices' records in order: the wipe that makes backfill
/// idempotent and repeatable.
fn wipe_device_operations(log: &mut Vec<OperationRecord>, device_pub_id: &Vec<u8>)
    ensures
        log_view(final(log)@) == wiped_ops(log_view(old(log)@), device_pub_id@),
{
    let mut rest: Vec<OperationRecord> = Vec::new();
    core::mem::swap(log, &mut rest);
    let ghost all = rest@;
    let ghost dev = device_pub_id@;
    proof {
        assert(log_view(log@) =~= wiped_ops(log_view(all).take(0), dev)) by {
            reveal(Seq::filter);
        }
    }
    let ghost mut i: int = 0;
    while rest.len() > 0
        invariant
            0 <= i <= all.len(),
            rest@ == all.skip(i),
            log_view(log@) == wiped_ops(log_view(all).take(i), dev),
            dev == device_pub_id@,
        decreases all.len() - i,
    {
        let op = rest.remove(0);
        proof {
            assert(all.skip(i)[0] == all[i]);
            assert(all.skip(i).remove(0) =~= all.skip(i + 1));
        }
        let keep = !bytes_eq(&op.device_pub_id, device_pub_id);
        if keep {
            log.push(op);
        }
        proof {
            let lv = log_view(all);
            assert(lv.take(i + 1).drop_last() =~= lv.take(i));
            assert(lv.take(i + 1).last() == lv[i]);
            assert(lv[i] == all[i]@);
            lemma_wiped_push(lv.take(i + 1), dev);
            assert(log_view(log@) =~= wiped_ops(lv.take(i + 1), dev));
            i = i + 1;
        }
    }
    proof {
        assert(all.skip(i).len() == 0);
        assert(i == all.len());
        assert(log_view(all).take(i) =~= log_view(all));
    }
}

/// Re-materializes the local device's own row: one `SharedCreate` operation
/// appended to the log.
pub fn backfill_device(
    local_device: &DeviceRow,
    sync: &SyncManager,
    log: &mut Vec<OperationRecord>,
)
    ensures
        log_view(final(log)@) == log_view(old(log)@) + seq![
            local_device.op_spec(sync.device_pub_id@, sync.timestamp),
        ],
{
    let op = local_device.to_operation(sync);
    log.push(op);
    proof {
        assert(log_view(log@) =~= log_view(old(log)@) + seq![
            local_device.op_spec(sync.device_pub_id@, sync.timestamp),
        ]);
    }
}

/// Converts the device's storage-statistics row, if it has one: a
/// singleton-per-device lookup, not a paginated table. A missing row is a
/// no-op, not an error.
pub fn backfill_storage_statistics(
    rows: &Vec<StorageStatisticsRow>,
    device_id: i32,
    sync: &SyncManager,
    log: &mut Vec<OperationRecord>,
)
    ensures
        log_view(final(log)@) == log_view(old(log)@) + stats_ops(
            rows@,
            device_id,
            sync.device_pub_id@,
            sync.timestamp,
        ),
{
    let n = rows.len();
    let mut i: usize = 0;
    proof {
        assert(rows@.skip(0) =~= rows@);
    }
    while i < n
        invariant
            i <= n,
            n == rows@.len(),
            log@ == old(log)@,
            find_stats(rows@, device_id) == find_stats(rows@.skip(i as int), device_id),
        decreases n - i,
    {
        let matches_device = match rows[i].device_id {
            Some(x) => x == device_id,
            None => false,
        };
        proof {
            assert(rows@.skip(i as int)[0] == rows@[i as int]);
        }
        if matches_device {
            let op = rows[i].to_operation(sync);
            log.push(op);
            proof {
                assert(find_stats(rows@.skip(i as int), device_id) == Some(rows@[i as int]));
                assert(log_view(log@) =~= log_view(old(log)@) + stats_ops(
                    rows@,
                    device_id,
                    sync.device_pub_id@,
                    sync.timestamp,
                ));
            }
            return ;
        }
        proof {
            assert(rows@.skip(i as int).skip(1) =~= rows@.skip(i as int + 1));
        }
        i += 1;
    }
    proof {
        assert(rows@.skip(n as int).len() == 0);
        assert(find_stats(rows@, device_id) is None);
        assert(log_view(log@) =~= log_view(old(log)@) + stats_ops(
            rows@,
            device_id,
            sync.device_pub_id@,
            sync.timestamp,
        ));
    }
}

/// Converts every tag row: tags are not device-scoped and the table is
/// expected to be small, so it is processed without a page-size bound.
pub fn paginate_tags(
    tags: &Vec<TagRow>,
    sync: &SyncManager,
    log: &mut Vec<OperationRecord>,
) -> (pages: usize)
    requires
        table_sorted(tags@),
    ensures
        log_view(final(log)@) == log_view(old(log)@) + table_ops_view(
            tags@,
            sync.device_pub_id@,
            sync.timestamp,
        ),
        final(log)@.len() == old(log)@.len() + tags@.len(),
        pages as int == num_pages(tags@.len() as int, None),
{
    proof {
        crate::paginate::lemma_selected_all(tags@);
    }
    paginate(tags, None, None, sync, log)
}

/// Converts the device's location rows, in pages of `PAGE_SIZE`.
pub fn paginate_locations(
    locations: &Vec<LocationRow>,
    device_id: i32,
    sync: &SyncManager,
    log: &mut Vec<OperationRecord>,
) -> (pages: usize)
    requires
        table_sorted(locations@),
    ensures
        log_view(final(log)@) == log_view(old(log)@) + table_ops_view(
            selected_rows(locations@, Some(device_id)),
            sync.device_pub_id@,
            sync.timestamp,
        ),
        final(log)@.len() == old(log)@.len() + selected_rows(locations@, Some(device_id)).len(),
        pages as int == num_pages(
            selected_rows(locations@, Some(device_id)).len() as int,
            Some(PAGE_SIZE),
        ),
{
    paginate(locations, Some(device_id), Some(PAGE_SIZE), sync, log)
}

/// Converts the device's object rows, in pages of `PAGE_SIZE`.
pub fn paginate_objects(
    objects: &Vec<ObjectRow>,
    device_id: i32,
    sync: &SyncManager,
    log: &mut Vec<OperationRecord>,
) -> (pages: usize)
    requires
        table_sorted(objects@),
    ensures
        log_view(final(log)@) == log_view(old(log)@) + table_ops_view(
            selected_rows(objects@, Some(device_id)),
            sync.device_pub_id@,
            sync.timestamp,
        ),
        final(log)@.len() == old(log)@.len() + selected_rows(objects@, Some(device_id)).len(),
        pages as int == num_pages(
            selected_rows(objects@, Some(device_id)).len() as int,
            Some(PAGE_SIZE),
        ),
{
    paginate(objects, Some(device_id), Some(PAGE_SIZE), sync, log)
}

/// Converts every label row: labels are not device-scoped and the table is
/// expected to be small, so it is processed without a page-size bound.
pub fn paginate_labels(
    labels: &Vec<LabelRow>,
    sync: &SyncManager,
    log: &mut Vec<OperationRecord>,
) -> (pages: usize)
    requires
        table_sorted(labels@),
    ensures
        log_view(final(log)@) == log_view(old(log)@) + table_ops_view(
            labels@,
            sync.device_pub_id@,
            sync.timestamp,
        ),
        final(log)@.len() == old(log)@.len() + labels@.len(),
        pages as int == num_pages(labels@.len() as int, None),
{
    proof {
        crate::paginate::lemma_selected_all(labels@);
    }
    paginate(labels, None, None, sync, log)
}

/// Converts the device's EXIF rows, in pages of `PAGE_SIZE`.
pub fn paginate_exif_datas(
    exif_datas: &Vec<ExifDataRow>,
    device_id: i32,
    sync: &SyncManager,
    log: &mut Vec<OperationRecord>,
) -> (pages: usize)
    requires
        table_sorted(exif_datas@),
    ensures
        log_view(final(log)@) == log_view(old(log)@) + table_ops_view(
            selected_rows(exif_datas@, Some(device_id)),
            sync.device_pub_id@,
            sync.timestamp,
        ),
        final(log)@.len() == old(log)@.len() + selected_rows(exif_datas@, Some(device_id)).len(),
        pages as int == num_pages(
            selected_rows(exif_datas@, Some(device_id)).len() as int,
            Some(PAGE_SIZE),
        ),
{
    paginate(exif_datas, Some(device_id), Some(PAGE_SIZE), sync, log)
}

/// Converts the device's file-path rows. No page-size bound is applied here,
/// unlike locations, objects and EXIF data — a latent risk on very large
/// directory trees, preserved as the storage layer has it.
pub fn paginate_file_paths(
    file_paths: &Vec<FilePathRow>,
    device_id: i32,
    sync: &SyncManager,
    log: &mut Vec<OperationRecord>,
) -> (pages: usize)
    requires
        table_sorted(file_paths@),
    ensures
        log_view(final(log)@) == log_view(old(log)@) + table_ops_view(
            selected_rows(file_paths@, Some(device_id)),
            sync.device_pub_id@,
            sync.timestamp,
        ),
        final(log)@.len() == old(log)@.len() + selected_rows(file_paths@, Some(device_id)).len(),
        pages as int == num_pages(selected_rows(file_paths@, Some(device_id)).len() as int, None),
{
    paginate(file_paths, Some(device_id), None, sync, log)
}

/// Converts the device's tag-membership rows under the composite
/// `(tag, object)` cursor.
pub fn paginate_tags_on_objects(
    tag_on_objects: &Vec<TagOnObjectRow>,
    device_id: i32,
    sync: &SyncManager,
    log: &mut Vec<OperationRecord>,
) -> (pages: usize)
    requires
        relation_sorted(tag_on_objects@),
    ensures
        log_view(final(log)@) == log_view(old(log)@) + table_ops_view(
            selected_rows(tag_on_objects@, Some(device_id)),
            sync.device_pub_id@,
            sync.timestamp,
        ),
        final(log)@.len() == old(log)@.len() + selected_rows(
            tag_on_objects@,
            Some(device_id),
        ).len(),
        pages as int == num_pages(
            selected_rows(tag_on_objects@, Some(device_id)).len() as int,
            None,
        ),
{
    paginate_relation(tag_on_objects, Some(device_id), None, sync, log)
}

/// Converts the device's label-membership rows under the composite
/// `(label, object)` cursor.
pub fn paginate_labels_on_objects(
    label_on_objects: &Vec<LabelOnObjectRow>,
    device_id: i32,
    sync: &SyncManager,
    log: &mut Vec<OperationRecord>,
) -> (pages: usize)
    requires
        relation_sorted(label_on_objects@),
    ensures
        log_view(final(log)@) == log_view(old(log)@) + table_ops_view(
            selected_rows(label_on_objects@, Some(device_id)),
            sync.device_pub_id@,
            sync.timestamp,
        ),
        final(log)@.len() == old(log)@.len() + selected_rows(
            label_on_objects@,
            Some(device_id),
        ).len(),
        pages as int == num_pages(
            selected_rows(label_on_objects@, Some(device_id)).len() as int,
            None,
        ),
{
    paginate_relation(label_on_objects, Some(device_id), None, sync, log)
}

/// Takes all the syncable data in the store and generates create operations
/// for it, wiping the local device's previous operations first. All-or-
/// nothing: on `Ok` the log holds every other device's records followed by
/// the freshly generated sequence; on `Err` — the local device row is
/// missing — the log is exactly what it was.
pub fn backfill_operations(
    store: &Store,
    sync: &SyncManager,
    log: &mut Vec<OperationRecord>,
) -> (r: Result<(), Error>)
    requires
        store.wf(),
    ensures
        r is Ok <==> find_device(store.devices@, sync.device_pub_id@) is Some,
        r is Ok ==> log_view(final(log)@) == wiped_ops(
            log_view(old(log)@),
            sync.device_pub_id@,
        ) + backfill_ops(*store, sync.device_pub_id@, sync.timestamp),
        r matches Err(e) ==> final(log)@ == old(log)@ && (e matches Error::DeviceNotFound(d)
            && d@ == sync.device_pub_id@),
{
    let ghost pid = sync.device_pub_id@;
    let n = store.devices.len();
    let mut i: usize = 0;
    proof {
        assert(store.devices@.skip(0) =~= store.devices@);
    }
    while i < n
        invariant_except_break
            i <= n,
            n == store.devices@.len(),
            pid == sync.device_pub_id@,
            find_device(store.devices@, pid) == find_device(store.devices@.skip(i as int), pid),
        ensures
            i <= n,
            n == store.devices@.len(),
            pid == sync.device_pub_id@,
            find_device(store.devices@, pid) == find_device(store.devices@.skip(i as int), pid),
            i < n ==> store.devices@[i as int].pub_id@ == pid,
        decreases n - i,
    {
        proof {
            assert(store.devices@.skip(i as int)[0] == store.devices@[i as int]);
        }
        if bytes_eq(&store.devices[i].pub_id, &sync.device_pub_id) {
            break ;
        }
        proof {
            assert(store.devices@.skip(i as int).skip(1) =~= store.devices@.skip(i as int + 1));
        }
        i += 1;
    }
    if i == n {
        proof {
            assert(store.devices@.skip(n as int).len() == 0);
            assert(find_device(store.devices@, pid) is None);
        }
        return Err(Error::DeviceNotFound(clone_bytes(&sync.device_pub_id)));
    }
    let local_device = &store.devices[i];
    proof {
        assert(store.devices@.skip(i as int)[0] == store.devices@[i as int]);
        assert(find_device(store.devices@, pid) == Some(store.devices@[i as int]));
    }
    let local_device_id = local_device.id;

    wipe_device_operations(log, &sync.device_pub_id);
    backfill_device(local_device, sync, log);

    backfill_storage_statistics(&store.storage_statistics, local_device_id, sync, log);
    paginate_tags(&store.tags, sync, log);
    paginate_locations(&store.locations, local_device_id, sync, log);
    paginate_objects(&store.objects, local_device_id, sync, log);
    paginate_labels(&store.labels, sync, log);

    paginate_exif_datas(&store.exif_datas, local_device_id, sync, log);
    paginate_file_paths(&store.file_paths, local_device_id, sync, log);
    paginate_tags_on_objects(&store.tag_on_objects, local_device_id, sync, log);
    paginate_labels_on_objects(&store.label_on_objects, local_device_id, sync, log);

    proof {
        assert(log_view(log@) =~= wiped_ops(log_view(old(log)@), pid) + backfill_ops(
            *store,
            pid,
            sync.timestamp,
        ));
    }
    Ok(())
}

} // verus!

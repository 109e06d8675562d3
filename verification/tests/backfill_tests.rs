use sync_backfill::backfill::{backfill_operations, Error};
use sync_backfill::ops::{FieldName, OperationKind, OperationRecord, SyncId, SyncManager, Value};
use sync_backfill::rows::{
    DeviceRow, ExifDataRow, FilePathRow, LabelOnObjectRow, LabelRow, LocationRow, ObjectRow,
    StorageStatisticsRow, Store, TagOnObjectRow, TagRow,
};

fn empty_store() -> Store {
    Store {
        devices: Vec::new(),
        storage_statistics: Vec::new(),
        tags: Vec::new(),
        locations: Vec::new(),
        objects: Vec::new(),
        labels: Vec::new(),
        exif_datas: Vec::new(),
        file_paths: Vec::new(),
        tag_on_objects: Vec::new(),
        label_on_objects: Vec::new(),
    }
}

fn device_row(id: i32, pub_id: Vec<u8>) -> DeviceRow {
    DeviceRow {
        id,
        pub_id,
        name: Some("laptop".to_string()),
        os: Some(1),
        hardware_model: None,
        timestamp: None,
        date_created: Some(1_000),
        date_deleted: None,
    }
}

fn tag_row(id: i32, pub_id: Vec<u8>, name: Option<String>) -> TagRow {
    TagRow { id, pub_id, name, color: None, date_created: None, date_modified: None }
}

fn object_row(id: i32, device_id: Option<i32>, pub_id: Vec<u8>) -> ObjectRow {
    ObjectRow {
        id,
        device_id,
        pub_id,
        kind: Some(5),
        hidden: None,
        favorite: Some(true),
        important: None,
        note: None,
        date_created: None,
        date_accessed: None,
        device: None,
    }
}

fn location_row(id: i32, device_id: Option<i32>, pub_id: Vec<u8>) -> LocationRow {
    LocationRow {
        id,
        device_id,
        pub_id,
        name: Some("home".to_string()),
        path: Some("/home".to_string()),
        total_capacity: None,
        available_capacity: None,
        size_in_bytes: None,
        is_archived: None,
        generate_preview_media: None,
        sync_preview_media: None,
        hidden: None,
        date_created: None,
        instance: None,
        device: Some(vec![1]),
    }
}

fn small_store() -> Store {
    let mut store = empty_store();
    store.devices.push(device_row(7, vec![1]));
    store.storage_statistics.push(StorageStatisticsRow {
        id: 1,
        device_id: Some(7),
        pub_id: vec![9],
        total_capacity: 1000,
        available_capacity: 400,
        device: Some(vec![1]),
    });
    store.tags.push(tag_row(1, vec![10], Some("red".to_string())));
    store.tags.push(tag_row(2, vec![11], None));
    store.locations.push(location_row(1, Some(7), vec![20]));
    store.objects.push(object_row(1, Some(7), vec![30]));
    store.objects.push(object_row(2, Some(7), vec![31]));
    store.labels.push(LabelRow {
        id: 1,
        name: "holiday".to_string(),
        date_created: Some(5),
        date_modified: None,
    });
    store.exif_datas.push(ExifDataRow {
        id: 1,
        device_id: Some(7),
        object_pub_id: vec![30],
        resolution: None,
        media_date: None,
        media_location: None,
        camera_data: None,
        artist: Some("someone".to_string()),
        description: None,
        copyright: None,
        exif_version: None,
        epoch_time: None,
        device: None,
    });
    store.file_paths.push(FilePathRow {
        id: 1,
        device_id: Some(7),
        pub_id: vec![40],
        is_dir: Some(false),
        cas_id: None,
        integrity_checksum: None,
        location: Some(vec![20]),
        object: Some(vec![30]),
        materialized_path: Some("/".to_string()),
        name: Some("photo".to_string()),
        extension: Some("jpg".to_string()),
        hidden: None,
        size_in_bytes_bytes: None,
        inode: None,
        date_created: None,
        date_modified: None,
        date_indexed: None,
        device: Some(vec![1]),
    });
    store.tag_on_objects.push(TagOnObjectRow {
        tag_id: 1,
        object_id: 1,
        device_id: Some(7),
        tag_pub_id: vec![10],
        object_pub_id: vec![30],
        date_created: None,
        device: None,
    });
    store.label_on_objects.push(LabelOnObjectRow {
        label_id: 1,
        object_id: 2,
        device_id: Some(7),
        label_name: "holiday".to_string(),
        object_pub_id: vec![31],
        date_created: 77,
        device: None,
    });
    store
}

#[test]
fn backfill_generates_one_operation_per_row() {
    let store = small_store();
    let sync = SyncManager::with_timestamp(vec![1], 42);
    let mut log: Vec<OperationRecord> = Vec::new();
    let r = backfill_operations(&store, &sync, &mut log);
    assert!(r.is_ok());
    // device + stats + 2 tags + 1 location + 2 objects + 1 label + 1 exif
    // + 1 file path + 1 tag membership + 1 label membership
    assert_eq!(log.len(), 12);
    for op in &log {
        assert_eq!(op.device_pub_id, vec![1]);
        assert_eq!(op.timestamp, 42);
    }
}

#[test]
fn backfill_orders_waves_and_assigns_kinds() {
    let store = small_store();
    let sync = SyncManager::with_timestamp(vec![1], 42);
    let mut log: Vec<OperationRecord> = Vec::new();
    backfill_operations(&store, &sync, &mut log).unwrap();
    assert_eq!(log[0].target, SyncId::Device { pub_id: vec![1] });
    assert_eq!(log[1].target, SyncId::StorageStatistics { pub_id: vec![9] });
    assert_eq!(log[2].target, SyncId::Tag { pub_id: vec![10] });
    assert_eq!(log[3].target, SyncId::Tag { pub_id: vec![11] });
    assert_eq!(log[4].target, SyncId::Location { pub_id: vec![20] });
    assert_eq!(log[5].target, SyncId::Object { pub_id: vec![30] });
    assert_eq!(log[6].target, SyncId::Object { pub_id: vec![31] });
    assert_eq!(log[7].target, SyncId::Label { name: "holiday".to_string() });
    assert_eq!(log[8].target, SyncId::ExifData { object_pub_id: vec![30] });
    assert_eq!(log[9].target, SyncId::FilePath { pub_id: vec![40] });
    assert_eq!(
        log[10].target,
        SyncId::TagOnObject { tag_pub_id: vec![10], object_pub_id: vec![30] }
    );
    assert_eq!(log[10].kind, OperationKind::RelationCreate);
    assert_eq!(log[11].kind, OperationKind::RelationCreate);
    for op in &log[0..10] {
        assert_eq!(op.kind, OperationKind::SharedCreate);
    }
    // the label membership comes last
    assert_eq!(
        log.last().unwrap().target,
        SyncId::LabelOnObject { label_name: "holiday".to_string(), object_pub_id: vec![31] }
    );
}

#[test]
fn backfill_reports_missing_device() {
    let mut store = small_store();
    store.devices.clear();
    let sync = SyncManager::with_timestamp(vec![1], 42);
    let mut log: Vec<OperationRecord> = Vec::new();
    let before = vec![];
    let r = backfill_operations(&store, &sync, &mut log);
    assert_eq!(r, Err(Error::DeviceNotFound(vec![1])));
    assert_eq!(log, before);
}

#[test]
fn backfill_is_idempotent() {
    let store = small_store();
    let sync = SyncManager::with_timestamp(vec![1], 42);
    let mut log1: Vec<OperationRecord> = Vec::new();
    backfill_operations(&store, &sync, &mut log1).unwrap();
    let mut log2: Vec<OperationRecord> = Vec::new();
    backfill_operations(&store, &sync, &mut log2).unwrap();
    // re-running over the already-backfilled log changes nothing
    let mut log3 = log1;
    backfill_operations(&store, &sync, &mut log3).unwrap();
    assert_eq!(log2, log3);
}

#[test]
fn backfill_wipes_only_the_local_device() {
    let store = small_store();
    let sync = SyncManager::with_timestamp(vec![1], 42);
    let other = SyncManager::with_timestamp(vec![2], 9);
    let mut log: Vec<OperationRecord> = Vec::new();
    // a foreign record and a stale local record both sit in the log
    log.push(other.shared_create(SyncId::Tag { pub_id: vec![99] }, Vec::new()));
    log.push(sync.shared_create(SyncId::Tag { pub_id: vec![98] }, Vec::new()));
    backfill_operations(&store, &sync, &mut log).unwrap();
    assert_eq!(log.len(), 13);
    // the other device's record survives, in front
    assert_eq!(log[0].device_pub_id, vec![2]);
    assert_eq!(log[0].target, SyncId::Tag { pub_id: vec![99] });
    // the stale local record is gone
    assert!(log.iter().all(|op| op.target != SyncId::Tag { pub_id: vec![98] }));
}

#[test]
fn missing_storage_statistics_is_a_noop() {
    let mut store = small_store();
    store.storage_statistics.clear();
    let sync = SyncManager::with_timestamp(vec![1], 42);
    let mut log: Vec<OperationRecord> = Vec::new();
    backfill_operations(&store, &sync, &mut log).unwrap();
    assert_eq!(log.len(), 11);
    assert!(log.iter().all(|op| !matches!(op.target, SyncId::StorageStatistics { .. })));
}

#[test]
fn null_optional_column_emits_no_entry() {
    let sync = SyncManager::with_timestamp(vec![1], 0);
    let bare = tag_row(1, vec![10], None);
    let op = {
        let mut log: Vec<OperationRecord> = Vec::new();
        sync_backfill::backfill::paginate_tags(&vec![bare], &sync, &mut log);
        log.pop().unwrap()
    };
    assert!(op.entries.iter().all(|e| e.field != FieldName::Name));
    assert!(op.entries.is_empty());
}

#[test]
fn present_optional_column_emits_exactly_one_entry() {
    let sync = SyncManager::with_timestamp(vec![1], 0);
    let named = tag_row(1, vec![10], Some("red".to_string()));
    let mut log: Vec<OperationRecord> = Vec::new();
    sync_backfill::backfill::paginate_tags(&vec![named], &sync, &mut log);
    let op = log.pop().unwrap();
    let names: Vec<&Value> = op
        .entries
        .iter()
        .filter(|e| e.field == FieldName::Name)
        .map(|e| &e.value)
        .collect();
    assert_eq!(names.len(), 1);
    assert_eq!(*names[0], Value::Text("red".to_string()));
}

#[test]
fn label_membership_always_emits_its_timestamp() {
    let store = small_store();
    let sync = SyncManager::with_timestamp(vec![1], 42);
    let mut log: Vec<OperationRecord> = Vec::new();
    backfill_operations(&store, &sync, &mut log).unwrap();
    // the tag membership has no creation-timestamp column set, so no entry
    let tag_op = &log[10];
    assert!(tag_op.entries.iter().all(|e| e.field != FieldName::DateCreated));
    // the label membership carries it unconditionally
    let label_op = log.last().unwrap();
    let stamps: Vec<&Value> = label_op
        .entries
        .iter()
        .filter(|e| e.field == FieldName::DateCreated)
        .map(|e| &e.value)
        .collect();
    assert_eq!(stamps.len(), 1);
    assert_eq!(*stamps[0], Value::Int(77));
}

#[test]
fn file_path_references_wave_one_identities() {
    let store = small_store();
    let sync = SyncManager::with_timestamp(vec![1], 42);
    let mut log: Vec<OperationRecord> = Vec::new();
    backfill_operations(&store, &sync, &mut log).unwrap();
    let fp_op = &log[9];
    assert_eq!(fp_op.target, SyncId::FilePath { pub_id: vec![40] });
    let mut saw_location = false;
    let mut saw_object = false;
    for e in &fp_op.entries {
        if let Value::Ref(id) = &e.value {
            match id {
                SyncId::Location { pub_id } => {
                    saw_location = true;
                    // the referenced location was created earlier, in wave one
                    let pos = log
                        .iter()
                        .position(|op| op.target == SyncId::Location { pub_id: pub_id.clone() })
                        .unwrap();
                    assert!(pos < 9);
                }
                SyncId::Object { pub_id } => {
                    saw_object = true;
                    let pos = log
                        .iter()
                        .position(|op| op.target == SyncId::Object { pub_id: pub_id.clone() })
                        .unwrap();
                    assert!(pos < 9);
                }
                _ => {}
            }
        }
    }
    assert!(saw_location && saw_object);
}

#[test]
fn no_two_shared_creates_share_an_identity() {
    let store = small_store();
    let sync = SyncManager::with_timestamp(vec![1], 42);
    let mut log: Vec<OperationRecord> = Vec::new();
    backfill_operations(&store, &sync, &mut log).unwrap();
    let shared: Vec<&SyncId> = log
        .iter()
        .filter(|op| op.kind == OperationKind::SharedCreate)
        .map(|op| &op.target)
        .collect();
    for a in 0..shared.len() {
        for b in (a + 1)..shared.len() {
            assert_ne!(shared[a], shared[b]);
        }
    }
}

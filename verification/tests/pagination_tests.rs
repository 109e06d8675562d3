use sync_backfill::backfill::PAGE_SIZE;
use sync_backfill::ops::{OperationRecord, SyncManager};
use sync_backfill::paginate::{fetch_page, fetch_page_relation, paginate, paginate_relation, select_rows};
use sync_backfill::rows::{FilePathRow, TagOnObjectRow, TagRow};

fn fp_row(id: i32, device_id: Option<i32>) -> FilePathRow {
    FilePathRow {
        id,
        device_id,
        pub_id: id.to_le_bytes().to_vec(),
        is_dir: None,
        cas_id: None,
        integrity_checksum: None,
        location: None,
        object: None,
        materialized_path: None,
        name: None,
        extension: None,
        hidden: None,
        size_in_bytes_bytes: None,
        inode: None,
        date_created: None,
        date_modified: None,
        date_indexed: None,
        device: None,
    }
}

fn tag_row(id: i32) -> TagRow {
    TagRow {
        id,
        pub_id: id.to_le_bytes().to_vec(),
        name: None,
        color: None,
        date_created: None,
        date_modified: None,
    }
}

fn membership(tag_id: i32, object_id: i32) -> TagOnObjectRow {
    TagOnObjectRow {
        tag_id,
        object_id,
        device_id: Some(1),
        tag_pub_id: vec![tag_id as u8],
        object_pub_id: vec![object_id as u8],
        date_created: None,
        device: None,
    }
}

#[test]
fn two_and_a_half_thousand_rows_take_three_pages() {
    let mut rows: Vec<FilePathRow> = Vec::new();
    for id in 1..=2500 {
        rows.push(fp_row(id, Some(1)));
    }
    let idx = select_rows(&rows, None);

    // three fetches: 1000, 1000, 500 rows
    let p1 = fetch_page(&rows, &idx, -1, Some(PAGE_SIZE));
    assert_eq!(p1, (0, 1000));
    let c1 = rows[idx[p1.1 - 1]].id;
    let p2 = fetch_page(&rows, &idx, c1, Some(PAGE_SIZE));
    assert_eq!(p2, (1000, 2000));
    let c2 = rows[idx[p2.1 - 1]].id;
    let p3 = fetch_page(&rows, &idx, c2, Some(PAGE_SIZE));
    assert_eq!(p3, (2000, 2500));

    // the next fetch is empty only once row 2500's key is the cursor
    let c3 = rows[idx[p3.1 - 1]].id;
    assert_eq!(c3, 2500);
    let p4 = fetch_page(&rows, &idx, c3, Some(PAGE_SIZE));
    assert_eq!(p4.0, p4.1);

    // the full loop writes three pages and exactly 2500 operations
    let sync = SyncManager::with_timestamp(vec![1], 0);
    let mut log: Vec<OperationRecord> = Vec::new();
    let pages = paginate(&rows, None, Some(PAGE_SIZE), &sync, &mut log);
    assert_eq!(pages, 3);
    assert_eq!(log.len(), 2500);
}

#[test]
fn pagination_visits_each_row_once_in_key_order() {
    let mut rows: Vec<TagRow> = Vec::new();
    for id in [2, 3, 5, 8, 13, 21] {
        rows.push(tag_row(id));
    }
    let sync = SyncManager::with_timestamp(vec![1], 0);
    let mut log: Vec<OperationRecord> = Vec::new();
    let pages = paginate(&rows, None, Some(2), &sync, &mut log);
    assert_eq!(pages, 3);
    assert_eq!(log.len(), 6);
    for (op, id) in log.iter().zip([2, 3, 5, 8, 13, 21]) {
        let want: Vec<u8> = (id as i32).to_le_bytes().to_vec();
        assert_eq!(
            op.target,
            sync_backfill::ops::SyncId::Tag { pub_id: want }
        );
    }
}

#[test]
fn pagination_respects_the_device_filter() {
    let mut rows: Vec<FilePathRow> = Vec::new();
    rows.push(fp_row(1, Some(1)));
    rows.push(fp_row(2, Some(2)));
    rows.push(fp_row(3, Some(1)));
    rows.push(fp_row(4, None));
    let sync = SyncManager::with_timestamp(vec![1], 0);
    let mut log: Vec<OperationRecord> = Vec::new();
    paginate(&rows, Some(1), None, &sync, &mut log);
    assert_eq!(log.len(), 2);
}

#[test]
fn empty_table_writes_no_page() {
    let rows: Vec<TagRow> = Vec::new();
    let sync = SyncManager::with_timestamp(vec![1], 0);
    let mut log: Vec<OperationRecord> = Vec::new();
    let pages = paginate(&rows, None, Some(1000), &sync, &mut log);
    assert_eq!(pages, 0);
    assert!(log.is_empty());
}

#[test]
fn relation_pagination_advances_lexicographically() {
    let rows = vec![membership(1, 1), membership(1, 2), membership(2, 1)];
    let idx = select_rows(&rows, Some(1));

    // a cursor of (1, 1) must still reach (1, 2): the pair is compared
    // lexicographically, not column by column
    let p = fetch_page_relation(&rows, &idx, (1, 1), None);
    assert_eq!(p, (1, 3));

    let sync = SyncManager::with_timestamp(vec![1], 0);
    let mut log: Vec<OperationRecord> = Vec::new();
    let pages = paginate_relation(&rows, Some(1), Some(1), &sync, &mut log);
    assert_eq!(pages, 3);
    assert_eq!(log.len(), 3);
    assert_eq!(
        log[1].target,
        sync_backfill::ops::SyncId::TagOnObject { tag_pub_id: vec![1], object_pub_id: vec![2] }
    );
}

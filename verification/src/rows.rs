//! The relational snapshot that backfill reads.
//!
//! Each synchronizable table is a vector of rows, ordered ascending by local
//! key. A row carries plain values only: local keys are `i32` (auto-increment
//! integers, used solely as pagination cursors and never transmitted), sync
//! identities are byte strings or names, timestamps are epoch milliseconds,
//! and every foreign sync reference arrives already resolved to the related
//! row's sync identity, never its local key.

use vstd::prelude::*;

verus! {

/// A row of a table whose queries may be scoped to one device.
pub trait DeviceScoped: Sized {
    /// The row's device column, if its table has one.
    spec fn device(self) -> Option<i32>;

    /// The row's device column, if its table has one.
    fn device_id(&self) -> (d: Option<i32>)
        ensures
            d == self.device(),
    ;
}

/// A row of a table driven by the single-key cursor paginator.
pub trait SyncRow: DeviceScoped {
    /// The row's local key, as a mathematical integer.
    spec fn lkey(self) -> int;

    /// The row's local key.
    fn local_key(&self) -> (k: i32)
        ensures
            k as int == self.lkey(),
    ;
}

/// A row of a join table driven by the composite-key relation paginator.
pub trait RelationRow: DeviceScoped {
    /// The group half of the composite key.
    spec fn gkey(self) -> int;

    /// The item half of the composite key.
    spec fn ikey(self) -> int;

    /// The group half of the composite key.
    fn group_key(&self) -> (k: i32)
        ensures
            k as int == self.gkey(),
    ;

    /// The item half of the composite key.
    fn item_key(&self) -> (k: i32)
        ensures
            k as int == self.ikey(),
    ;
}

/// A device row: the entity that owns everything else on this machine.
pub struct DeviceRow {
    pub id: i32,
    pub pub_id: Vec<u8>,
    pub name: Option<String>,
    pub os: Option<i64>,
    pub hardware_model: Option<i64>,
    pub timestamp: Option<i64>,
    pub date_created: Option<i64>,
    pub date_deleted: Option<i64>,
}

/// The per-device storage statistics row: at most one per device.
pub struct StorageStatisticsRow {
    pub id: i32,
    pub device_id: Option<i32>,
    pub pub_id: Vec<u8>,
    pub total_capacity: i64,
    pub available_capacity: i64,
    /// The owning device's sync identity, resolved at read time.
    pub device: Option<Vec<u8>>,
}

/// A tag row.
pub struct TagRow {
    pub id: i32,
    pub pub_id: Vec<u8>,
    pub name: Option<String>,
    pub color: Option<String>,
    pub date_created: Option<i64>,
    pub date_modified: Option<i64>,
}

/// A location row.
pub struct LocationRow {
    pub id: i32,
    pub device_id: Option<i32>,
    pub pub_id: Vec<u8>,
    pub name: Option<String>,
    pub path: Option<String>,
    pub total_capacity: Option<i64>,
    pub available_capacity: Option<i64>,
    pub size_in_bytes: Option<Vec<u8>>,
    pub is_archived: Option<bool>,
    pub generate_preview_media: Option<bool>,
    pub sync_preview_media: Option<bool>,
    pub hidden: Option<bool>,
    pub date_created: Option<i64>,
    /// The owning instance's sync identity, resolved at read time.
    pub instance: Option<Vec<u8>>,
    /// The owning device's sync identity, resolved at read time.
    pub device: Option<Vec<u8>>,
}

/// An object row.
pub struct ObjectRow {
    pub id: i32,
    pub device_id: Option<i32>,
    pub pub_id: Vec<u8>,
    pub kind: Option<i64>,
    pub hidden: Option<bool>,
    pub favorite: Option<bool>,
    pub important: Option<bool>,
    pub note: Option<String>,
    pub date_created: Option<i64>,
    pub date_accessed: Option<i64>,
    /// The owning device's sync identity, resolved at read time.
    pub device: Option<Vec<u8>>,
}

/// An EXIF metadata row. Its sync identity is the owning object's, so the
/// object's identity is mandatory here.
pub struct ExifDataRow {
    pub id: i32,
    pub device_id: Option<i32>,
    /// The owning object's sync identity, resolved at read time.
    pub object_pub_id: Vec<u8>,
    pub resolution: Option<Vec<u8>>,
    pub media_date: Option<Vec<u8>>,
    pub media_location: Option<Vec<u8>>,
    pub camera_data: Option<Vec<u8>>,
    pub artist: Option<String>,
    pub description: Option<String>,
    pub copyright: Option<String>,
    pub exif_version: Option<String>,
    pub epoch_time: Option<i64>,
    /// The owning device's sync identity, resolved at read time.
    pub device: Option<Vec<u8>>,
}

/// A file path row: the richest entity.
pub struct FilePathRow {
    pub id: i32,
    pub device_id: Option<i32>,
    pub pub_id: Vec<u8>,
    pub is_dir: Option<bool>,
    pub cas_id: Option<String>,
    pub integrity_checksum: Option<String>,
    /// The containing location's sync identity, resolved at read time.
    pub location: Option<Vec<u8>>,
    /// The described object's sync identity, resolved at read time.
    pub object: Option<Vec<u8>>,
    pub materialized_path: Option<String>,
    pub name: Option<String>,
    pub extension: Option<String>,
    pub hidden: Option<bool>,
    pub size_in_bytes_bytes: Option<Vec<u8>>,
    pub inode: Option<Vec<u8>>,
    pub date_created: Option<i64>,
    pub date_modified: Option<i64>,
    pub date_indexed: Option<i64>,
    /// The owning device's sync identity, resolved at read time.
    pub device: Option<Vec<u8>>,
}

/// A label row. Labels are identified by their unique, stable name.
pub struct LabelRow {
    pub id: i32,
    pub name: String,
    pub date_created: Option<i64>,
    pub date_modified: Option<i64>,
}

/// A tag-membership row: one object carrying one tag.
pub struct TagOnObjectRow {
    pub tag_id: i32,
    pub object_id: i32,
    pub device_id: Option<i32>,
    /// The tag's sync identity, resolved at read time.
    pub tag_pub_id: Vec<u8>,
    /// The object's sync identity, resolved at read time.
    pub object_pub_id: Vec<u8>,
    pub date_created: Option<i64>,
    /// The owning device's sync identity, resolved at read time.
    pub device: Option<Vec<u8>>,
}

/// A label-membership row: one object carrying one label. Unlike tag
/// membership, its creation timestamp is mandatory and is always emitted.
pub struct LabelOnObjectRow {
    pub label_id: i32,
    pub object_id: i32,
    pub device_id: Option<i32>,
    /// The label's sync identity (its name), resolved at read time.
    pub label_name: String,
    /// The object's sync identity, resolved at read time.
    pub object_pub_id: Vec<u8>,
    pub date_created: i64,
    /// The owning device's sync identity, resolved at read time.
    pub device: Option<Vec<u8>>,
}

impl DeviceScoped for TagRow {
    open spec fn device(self) -> Option<i32> {
        None
    }

    fn device_id(&self) -> Option<i32> {
        None
    }
}

impl SyncRow for TagRow {
    open spec fn lkey(self) -> int {
        self.id as int
    }

    fn local_key(&self) -> i32 {
        self.id
    }
}

impl DeviceScoped for LocationRow {
    open spec fn device(self) -> Option<i32> {
        self.device_id
    }

    fn device_id(&self) -> Option<i32> {
        self.device_id
    }
}

impl SyncRow for LocationRow {
    open spec fn lkey(self) -> int {
        self.id as int
    }

    fn local_key(&self) -> i32 {
        self.id
    }
}

impl DeviceScoped for ObjectRow {
    open spec fn device(self) -> Option<i32> {
        self.device_id
    }

    fn device_id(&self) -> Option<i32> {
        self.device_id
    }
}

impl SyncRow for ObjectRow {
    open spec fn lkey(self) -> int {
        self.id as int
    }

    fn local_key(&self) -> i32 {
        self.id
    }
}

impl DeviceScoped for ExifDataRow {
    open spec fn device(self) -> Option<i32> {
        self.device_id
    }

    fn device_id(&self) -> Option<i32> {
        self.device_id
    }
}

impl SyncRow for ExifDataRow {
    open spec fn lkey(self) -> int {
        self.id as int
    }

    fn local_key(&self) -> i32 {
        self.id
    }
}

impl DeviceScoped for FilePathRow {
    open spec fn device(self) -> Option<i32> {
        self.device_id
    }

    fn device_id(&self) -> Option<i32> {
        self.device_id
    }
}

impl SyncRow for FilePathRow {
    open spec fn lkey(self) -> int {
        self.id as int
    }

    fn local_key(&self) -> i32 {
        self.id
    }
}

impl DeviceScoped for LabelRow {
    open spec fn device(self) -> Option<i32> {
        None
    }

    fn device_id(&self) -> Option<i32> {
        None
    }
}

impl SyncRow for LabelRow {
    open spec fn lkey(self) -> int {
        self.id as int
    }

    fn local_key(&self) -> i32 {
        self.id
    }
}

impl DeviceScoped for TagOnObjectRow {
    open spec fn device(self) -> Option<i32> {
        self.device_id
    }

    fn device_id(&self) -> Option<i32> {
        self.device_id
    }
}

impl RelationRow for TagOnObjectRow {
    open spec fn gkey(self) -> int {
        self.tag_id as int
    }

    open spec fn ikey(self) -> int {
        self.object_id as int
    }

    fn group_key(&self) -> i32 {
        self.tag_id
    }

    fn item_key(&self) -> i32 {
        self.object_id
    }
}

impl DeviceScoped for LabelOnObjectRow {
    open spec fn device(self) -> Option<i32> {
        self.device_id
    }

    fn device_id(&self) -> Option<i32> {
        self.device_id
    }
}

impl RelationRow for LabelOnObjectRow {
    open spec fn gkey(self) -> int {
        self.label_id as int
    }

    open spec fn ikey(self) -> int {
        self.object_id as int
    }

    fn group_key(&self) -> i32 {
        self.label_id
    }

    fn item_key(&self) -> i32 {
        self.object_id
    }
}

/// An in-memory snapshot of every synchronizable table, each ordered
/// ascending by local key(s).
pub struct Store {
    pub devices: Vec<DeviceRow>,
    pub storage_statistics: Vec<StorageStatisticsRow>,
    pub tags: Vec<TagRow>,
    pub locations: Vec<LocationRow>,
    pub objects: Vec<ObjectRow>,
    pub labels: Vec<LabelRow>,
    pub exif_datas: Vec<ExifDataRow>,
    pub file_paths: Vec<FilePathRow>,
    pub tag_on_objects: Vec<TagOnObjectRow>,
    pub label_on_objects: Vec<LabelOnObjectRow>,
}

/// A table slice is well formed when its local keys are non-negative and
/// strictly ascending: auto-increment keys are unique, and pagination leans
/// on this order.
pub open spec fn table_sorted<T: SyncRow>(rows: Seq<T>) -> bool {
    &&& forall|i: int| 0 <= i < rows.len() ==> #[trigger] rows[i].lkey() >= 0
    &&& forall|i: int, j: int|
        0 <= i < j < rows.len() ==> #[trigger] rows[i].lkey() < #[trigger] rows[j].lkey()
}

/// A join-table slice is well formed when its composite keys are
/// non-negative and strictly ascending in lexicographic order.
pub open spec fn relation_sorted<T: RelationRow>(rows: Seq<T>) -> bool {
    &&& forall|i: int| 0 <= i < rows.len() ==> #[trigger] rows[i].gkey() >= 0
    &&& forall|i: int| 0 <= i < rows.len() ==> #[trigger] rows[i].ikey() >= 0
    &&& forall|i: int, j: int|
        0 <= i < j < rows.len() ==> pair_lt(
            #[trigger] rows[i].gkey(),
            rows[i].ikey(),
            #[trigger] rows[j].gkey(),
            rows[j].ikey(),
        )
}

/// Strict lexicographic order on composite keys.
pub open spec fn pair_lt(g1: int, i1: int, g2: int, i2: int) -> bool {
    g1 < g2 || (g1 == g2 && i1 < i2)
}

impl Store {
    /// Every table of the snapshot is ordered as the paginators require.
    pub open spec fn wf(self) -> bool {
        &&& table_sorted(self.tags@)
        &&& table_sorted(self.locations@)
        &&& table_sorted(self.objects@)
        &&& table_sorted(self.labels@)
        &&& table_sorted(self.exif_datas@)
        &&& table_sorted(self.file_paths@)
        &&& relation_sorted(self.tag_on_objects@)
        &&& relation_sorted(self.label_on_objects@)
    }
}

} // verus!

//! Entity-to-operation converters: one per synchronizable table.
//!
//! A converter turns a fetched row, with its foreign sync references already
//! resolved, into a create operation. The entry set contains one entry per
//! *present* field: an absent optional column produces no entry rather than
//! an explicit null, so merges with concurrent edits on other devices never
//! see spurious overwrites. Every converter's contract states the exact entry
//! sequence it builds.

use vstd::prelude::*;

use crate::ops::{
    entries_view, clone_bytes, Entry, EntryView, FieldName, OperationKind, OperationRecord,
    OpView, SyncId, SyncIdView, SyncManager, Value, ValueView,
};
use crate::rows::{
    DeviceRow, ExifDataRow, FilePathRow, LabelOnObjectRow, LabelRow, LocationRow, ObjectRow,
    StorageStatisticsRow, TagOnObjectRow, TagRow,
};

verus! {

/// The entry a field contributes: one entry when the value is present,
/// nothing when it is absent.
pub open spec fn opt_entry(f: FieldName, v: Option<ValueView>) -> Seq<EntryView> {
    match v {
        Some(x) => seq![EntryView { field: f, value: x }],
        None => Seq::empty(),
    }
}

/// Ghost view of an optional entry value.
pub open spec fn opt_value_view(v: Option<Value>) -> Option<ValueView> {
    match v {
        Some(x) => Some(x@),
        None => None,
    }
}

/// View of an optional text column.
pub open spec fn text_of(o: Option<String>) -> Option<ValueView> {
    match o {
        Some(s) => Some(ValueView::Text(s@)),
        None => None,
    }
}

/// View of an optional byte-string column.
pub open spec fn bytes_of(o: Option<Vec<u8>>) -> Option<ValueView> {
    match o {
        Some(b) => Some(ValueView::Bytes(b@)),
        None => None,
    }
}

/// View of an optional integer column.
pub open spec fn int_of(o: Option<i64>) -> Option<ValueView> {
    match o {
        Some(i) => Some(ValueView::Int(i)),
        None => None,
    }
}

/// View of an optional boolean column.
pub open spec fn bool_of(o: Option<bool>) -> Option<ValueView> {
    match o {
        Some(b) => Some(ValueView::Bool(b)),
        None => None,
    }
}

/// View of an optional reference to a device's sync identity.
pub open spec fn device_ref_of(o: Option<Vec<u8>>) -> Option<ValueView> {
    match o {
        Some(p) => Some(ValueView::Ref(SyncIdView::Device(p@))),
        None => None,
    }
}

/// View of an optional reference to an instance's sync identity.
pub open spec fn instance_ref_of(o: Option<Vec<u8>>) -> Option<ValueView> {
    match o {
        Some(p) => Some(ValueView::Ref(SyncIdView::Instance(p@))),
        None => None,
    }
}

/// View of an optional reference to a location's sync identity.
pub open spec fn location_ref_of(o: Option<Vec<u8>>) -> Option<ValueView> {
    match o {
        Some(p) => Some(ValueView::Ref(SyncIdView::Location(p@))),
        None => None,
    }
}

/// View of an optional reference to an object's sync identity.
pub open spec fn object_ref_of(o: Option<Vec<u8>>) -> Option<ValueView> {
    match o {
        Some(p) => Some(ValueView::Ref(SyncIdView::Object(p@))),
        None => None,
    }
}

/// Appends the entry a field contributes: one entry when the value is
/// present, nothing when it is absent.
fn push_entry(entries: &mut Vec<Entry>, f: FieldName, v: Option<Value>)
    ensures
        entries_view(final(entries)@) == entries_view(old(entries)@) + opt_entry(
            f,
            opt_value_view(v),
        ),
{
    let ghost gv = v;
    match v {
        Some(x) => {
            entries.push(Entry { field: f, value: x });
            proof {
                assert(entries_view(entries@) =~= entries_view(old(entries)@) + opt_entry(
                    f,
                    opt_value_view(gv),
                ));
            }
        },
        None => {
            proof {
                assert(entries_view(entries@) =~= entries_view(old(entries)@) + opt_entry(
                    f,
                    opt_value_view(gv),
                ));
            }
        },
    }
}

/// Copies an optional text column into an entry value.
fn text_val(o: &Option<String>) -> (r: Option<Value>)
    ensures
        opt_value_view(r) == text_of(*o),
{
    match o {
        Some(s) => Some(Value::Text(s.clone())),
        None => None,
    }
}

/// Copies an optional byte-string column into an entry value.
fn bytes_val(o: &Option<Vec<u8>>) -> (r: Option<Value>)
    ensures
        opt_value_view(r) == bytes_of(*o),
{
    match o {
        Some(b) => Some(Value::Bytes(clone_bytes(b))),
        None => None,
    }
}

/// Copies an optional integer column into an entry value.
fn int_val(o: &Option<i64>) -> (r: Option<Value>)
    ensures
        opt_value_view(r) == int_of(*o),
{
    match *o {
        Some(i) => Some(Value::Int(i)),
        None => None,
    }
}

/// Copies an optional boolean column into an entry value.
fn bool_val(o: &Option<bool>) -> (r: Option<Value>)
    ensures
        opt_value_view(r) == bool_of(*o),
{
    match *o {
        Some(b) => Some(Value::Bool(b)),
        None => None,
    }
}

/// Copies an optional device reference into an entry value.
fn device_ref_val(o: &Option<Vec<u8>>) -> (r: Option<Value>)
    ensures
        opt_value_view(r) == device_ref_of(*o),
{
    match o {
        Some(p) => Some(Value::Ref(SyncId::Device { pub_id: clone_bytes(p) })),
        None => None,
    }
}

/// Copies an optional instance reference into an entry value.
fn instance_ref_val(o: &Option<Vec<u8>>) -> (r: Option<Value>)
    ensures
        opt_value_view(r) == instance_ref_of(*o),
{
    match o {
        Some(p) => Some(Value::Ref(SyncId::Instance { pub_id: clone_bytes(p) })),
        None => None,
    }
}

/// Copies an optional location reference into an entry value.
fn location_ref_val(o: &Option<Vec<u8>>) -> (r: Option<Value>)
    ensures
        opt_value_view(r) == location_ref_of(*o),
{
    match o {
        Some(p) => Some(Value::Ref(SyncId::Location { pub_id: clone_bytes(p) })),
        None => None,
    }
}

/// Copies an optional object reference into an entry value.
fn object_ref_val(o: &Option<Vec<u8>>) -> (r: Option<Value>)
    ensures
        opt_value_view(r) == object_ref_of(*o),
{
    match o {
        Some(p) => Some(Value::Ref(SyncId::Object { pub_id: clone_bytes(p) })),
        None => None,
    }
}

/// A row that converts into exactly one create operation.
pub trait ToOperation: Sized {
    /// The operation the row becomes, for a given originating device and
    /// logical timestamp.
    spec fn op_spec(self, device: Seq<u8>, timestamp: u64) -> OpView;

    /// The sync identity the row's operation targets.
    spec fn target_spec(self) -> SyncIdView;

    /// The kind of the row's operation: `SharedCreate` for an entity table,
    /// `RelationCreate` for a join table.
    spec fn kind_spec(self) -> OperationKind;

    /// The operation is stamped with the given device and timestamp, targets
    /// `target_spec`, and has kind `kind_spec`.
    proof fn lemma_op_spec(self, device: Seq<u8>, timestamp: u64)
        ensures
            self.op_spec(device, timestamp).device == device,
            self.op_spec(device, timestamp).timestamp == timestamp,
            self.op_spec(device, timestamp).target == self.target_spec(),
            self.op_spec(device, timestamp).kind == self.kind_spec(),
    ;

    /// Builds the operation, exactly as `op_spec` describes it.
    fn to_operation(&self, sync: &SyncManager) -> (op: OperationRecord)
        ensures
            op@ == self.op_spec(sync.device_pub_id@, sync.timestamp),
    ;
}

impl DeviceRow {
    /// The device entry set: descriptive attributes only, each present field
    /// contributing exactly one entry.
    pub open spec fn entries_spec(self) -> Seq<EntryView> {
        opt_entry(FieldName::Name, text_of(self.name)) + opt_entry(FieldName::Os, int_of(self.os))
            + opt_entry(FieldName::HardwareModel, int_of(self.hardware_model)) + opt_entry(
            FieldName::Timestamp,
            int_of(self.timestamp),
        ) + opt_entry(FieldName::DateCreated, int_of(self.date_created)) + opt_entry(
            FieldName::DateDeleted,
            int_of(self.date_deleted),
        )
    }

    /// Builds the device entry set.
    pub fn build_entries(&self) -> (r: Vec<Entry>)
        ensures
            entries_view(r@) == self.entries_spec(),
    {
        let mut entries: Vec<Entry> = Vec::new();
        push_entry(&mut entries, FieldName::Name, text_val(&self.name));
        push_entry(&mut entries, FieldName::Os, int_val(&self.os));
        push_entry(&mut entries, FieldName::HardwareModel, int_val(&self.hardware_model));
        push_entry(&mut entries, FieldName::Timestamp, int_val(&self.timestamp));
        push_entry(&mut entries, FieldName::DateCreated, int_val(&self.date_created));
        push_entry(&mut entries, FieldName::DateDeleted, int_val(&self.date_deleted));
        proof {
            assert(entries_view(entries@) =~= self.entries_spec());
        }
        entries
    }
}

impl ToOperation for DeviceRow {
    open spec fn target_spec(self) -> SyncIdView {
        SyncIdView::Device(self.pub_id@)
    }

    open spec fn kind_spec(self) -> OperationKind {
        OperationKind::SharedCreate
    }

    proof fn lemma_op_spec(self, device: Seq<u8>, timestamp: u64) {
        let o = self.op_spec(device, timestamp);
        assert(o.device == device);
        assert(o.timestamp == timestamp);
        assert(o.target == self.target_spec());
        assert(o.kind == self.kind_spec());
    }

    open spec fn op_spec(self, device: Seq<u8>, timestamp: u64) -> OpView {
        OpView {
            kind: OperationKind::SharedCreate,
            target: SyncIdView::Device(self.pub_id@),
            entries: self.entries_spec(),
            device,
            timestamp,
        }
    }

    fn to_operation(&self, sync: &SyncManager) -> (op: OperationRecord) {
        sync.shared_create(
            SyncId::Device { pub_id: clone_bytes(&self.pub_id) },
            self.build_entries(),
        )
    }
}

impl StorageStatisticsRow {
    /// The storage-statistics entry set: both capacities are mandatory, the
    /// device reference is optional.
    pub open spec fn entries_spec(self) -> Seq<EntryView> {
        opt_entry(FieldName::TotalCapacity, Some(ValueView::Int(self.total_capacity)))
            + opt_entry(FieldName::AvailableCapacity, Some(ValueView::Int(self.available_capacity)))
            + opt_entry(FieldName::Device, device_ref_of(self.device))
    }

    /// Builds the storage-statistics entry set.
    pub fn build_entries(&self) -> (r: Vec<Entry>)
        ensures
            entries_view(r@) == self.entries_spec(),
    {
        let mut entries: Vec<Entry> = Vec::new();
        push_entry(&mut entries, FieldName::TotalCapacity, Some(Value::Int(self.total_capacity)));
        push_entry(
            &mut entries,
            FieldName::AvailableCapacity,
            Some(Value::Int(self.available_capacity)),
        );
        push_entry(&mut entries, FieldName::Device, device_ref_val(&self.device));
        proof {
            assert(entries_view(entries@) =~= self.entries_spec());
        }
        entries
    }
}

impl ToOperation for StorageStatisticsRow {
    open spec fn target_spec(self) -> SyncIdView {
        SyncIdView::StorageStatistics(self.pub_id@)
    }

    open spec fn kind_spec(self) -> OperationKind {
        OperationKind::SharedCreate
    }

    proof fn lemma_op_spec(self, device: Seq<u8>, timestamp: u64) {
        let o = self.op_spec(device, timestamp);
        assert(o.device == device);
        assert(o.timestamp == timestamp);
        assert(o.target == self.target_spec());
        assert(o.kind == self.kind_spec());
    }

    open spec fn op_spec(self, device: Seq<u8>, timestamp: u64) -> OpView {
        OpView {
            kind: OperationKind::SharedCreate,
            target: SyncIdView::StorageStatistics(self.pub_id@),
            entries: self.entries_spec(),
            device,
            timestamp,
        }
    }

    fn to_operation(&self, sync: &SyncManager) -> (op: OperationRecord) {
        sync.shared_create(
            SyncId::StorageStatistics { pub_id: clone_bytes(&self.pub_id) },
            self.build_entries(),
        )
    }
}

impl TagRow {
    /// The tag entry set.
    pub open spec fn entries_spec(self) -> Seq<EntryView> {
        opt_entry(FieldName::Name, text_of(self.name)) + opt_entry(
            FieldName::Color,
            text_of(self.color),
        ) + opt_entry(FieldName::DateCreated, int_of(self.date_created)) + opt_entry(
            FieldName::DateModified,
            int_of(self.date_modified),
        )
    }

    /// Builds the tag entry set.
    pub fn build_entries(&self) -> (r: Vec<Entry>)
        ensures
            entries_view(r@) == self.entries_spec(),
    {
        let mut entries: Vec<Entry> = Vec::new();
        push_entry(&mut entries, FieldName::Name, text_val(&self.name));
        push_entry(&mut entries, FieldName::Color, text_val(&self.color));
        push_entry(&mut entries, FieldName::DateCreated, int_val(&self.date_created));
        push_entry(&mut entries, FieldName::DateModified, int_val(&self.date_modified));
        proof {
            assert(entries_view(entries@) =~= self.entries_spec());
        }
        entries
    }
}

impl ToOperation for TagRow {
    open spec fn target_spec(self) -> SyncIdView {
        SyncIdView::Tag(self.pub_id@)
    }

    open spec fn kind_spec(self) -> OperationKind {
        OperationKind::SharedCreate
    }

    proof fn lemma_op_spec(self, device: Seq<u8>, timestamp: u64) {
        let o = self.op_spec(device, timestamp);
        assert(o.device == device);
        assert(o.timestamp == timestamp);
        assert(o.target == self.target_spec());
        assert(o.kind == self.kind_spec());
    }

    open spec fn op_spec(self, device: Seq<u8>, timestamp: u64) -> OpView {
        OpView {
            kind: OperationKind::SharedCreate,
            target: SyncIdView::Tag(self.pub_id@),
            entries: self.entries_spec(),
            device,
            timestamp,
        }
    }

    fn to_operation(&self, sync: &SyncManager) -> (op: OperationRecord) {
        sync.shared_create(SyncId::Tag { pub_id: clone_bytes(&self.pub_id) }, self.build_entries())
    }
}

impl LocationRow {
    /// The location entry set: capacity, path and visibility attributes, plus
    /// optional references to the owning instance and device.
    pub open spec fn entries_spec(self) -> Seq<EntryView> {
        opt_entry(FieldName::Name, text_of(self.name)) + opt_entry(
            FieldName::Path,
            text_of(self.path),
        ) + opt_entry(FieldName::TotalCapacity, int_of(self.total_capacity)) + opt_entry(
            FieldName::AvailableCapacity,
            int_of(self.available_capacity),
        ) + opt_entry(FieldName::SizeInBytes, bytes_of(self.size_in_bytes)) + opt_entry(
            FieldName::IsArchived,
            bool_of(self.is_archived),
        ) + opt_entry(FieldName::GeneratePreviewMedia, bool_of(self.generate_preview_media))
            + opt_entry(FieldName::SyncPreviewMedia, bool_of(self.sync_preview_media)) + opt_entry(
            FieldName::Hidden,
            bool_of(self.hidden),
        ) + opt_entry(FieldName::DateCreated, int_of(self.date_created)) + opt_entry(
            FieldName::Instance,
            instance_ref_of(self.instance),
        ) + opt_entry(FieldName::Device, device_ref_of(self.device))
    }

    /// Builds the location entry set.
    pub fn build_entries(&self) -> (r: Vec<Entry>)
        ensures
            entries_view(r@) == self.entries_spec(),
    {
        let mut entries: Vec<Entry> = Vec::new();
        push_entry(&mut entries, FieldName::Name, text_val(&self.name));
        push_entry(&mut entries, FieldName::Path, text_val(&self.path));
        push_entry(&mut entries, FieldName::TotalCapacity, int_val(&self.total_capacity));
        push_entry(&mut entries, FieldName::AvailableCapacity, int_val(&self.available_capacity));
        push_entry(&mut entries, FieldName::SizeInBytes, bytes_val(&self.size_in_bytes));
        push_entry(&mut entries, FieldName::IsArchived, bool_val(&self.is_archived));
        push_entry(
            &mut entries,
            FieldName::GeneratePreviewMedia,
            bool_val(&self.generate_preview_media),
        );
        push_entry(&mut entries, FieldName::SyncPreviewMedia, bool_val(&self.sync_preview_media));
        push_entry(&mut entries, FieldName::Hidden, bool_val(&self.hidden));
        push_entry(&mut entries, FieldName::DateCreated, int_val(&self.date_created));
        push_entry(&mut entries, FieldName::Instance, instance_ref_val(&self.instance));
        push_entry(&mut entries, FieldName::Device, device_ref_val(&self.device));
        proof {
            assert(entries_view(entries@) =~= self.entries_spec());
        }
        entries
    }
}

impl ToOperation for LocationRow {
    open spec fn target_spec(self) -> SyncIdView {
        SyncIdView::Location(self.pub_id@)
    }

    open spec fn kind_spec(self) -> OperationKind {
        OperationKind::SharedCreate
    }

    proof fn lemma_op_spec(self, device: Seq<u8>, timestamp: u64) {
        let o = self.op_spec(device, timestamp);
        assert(o.device == device);
        assert(o.timestamp == timestamp);
        assert(o.target == self.target_spec());
        assert(o.kind == self.kind_spec());
    }

    open spec fn op_spec(self, device: Seq<u8>, timestamp: u64) -> OpView {
        OpView {
            kind: OperationKind::SharedCreate,
            target: SyncIdView::Location(self.pub_id@),
            entries: self.entries_spec(),
            device,
            timestamp,
        }
    }

    fn to_operation(&self, sync: &SyncManager) -> (op: OperationRecord) {
        sync.shared_create(
            SyncId::Location { pub_id: clone_bytes(&self.pub_id) },
            self.build_entries(),
        )
    }
}

impl ObjectRow {
    /// The object entry set: classification, visibility, favorite and
    /// timestamp attributes, plus the optional owning-device reference.
    pub open spec fn entries_spec(self) -> Seq<EntryView> {
        opt_entry(FieldName::Kind, int_of(self.kind)) + opt_entry(
            FieldName::Hidden,
            bool_of(self.hidden),
        ) + opt_entry(FieldName::Favorite, bool_of(self.favorite)) + opt_entry(
            FieldName::Important,
            bool_of(self.important),
        ) + opt_entry(FieldName::Note, text_of(self.note)) + opt_entry(
            FieldName::DateCreated,
            int_of(self.date_created),
        ) + opt_entry(FieldName::DateAccessed, int_of(self.date_accessed)) + opt_entry(
            FieldName::Device,
            device_ref_of(self.device),
        )
    }

    /// Builds the object entry set.
    pub fn build_entries(&self) -> (r: Vec<Entry>)
        ensures
            entries_view(r@) == self.entries_spec(),
    {
        let mut entries: Vec<Entry> = Vec::new();
        push_entry(&mut entries, FieldName::Kind, int_val(&self.kind));
        push_entry(&mut entries, FieldName::Hidden, bool_val(&self.hidden));
        push_entry(&mut entries, FieldName::Favorite, bool_val(&self.favorite));
        push_entry(&mut entries, FieldName::Important, bool_val(&self.important));
        push_entry(&mut entries, FieldName::Note, text_val(&self.note));
        push_entry(&mut entries, FieldName::DateCreated, int_val(&self.date_created));
        push_entry(&mut entries, FieldName::DateAccessed, int_val(&self.date_accessed));
        push_entry(&mut entries, FieldName::Device, device_ref_val(&self.device));
        proof {
            assert(entries_view(entries@) =~= self.entries_spec());
        }
        entries
    }
}

impl ToOperation for ObjectRow {
    open spec fn target_spec(self) -> SyncIdView {
        SyncIdView::Object(self.pub_id@)
    }

    open spec fn kind_spec(self) -> OperationKind {
        OperationKind::SharedCreate
    }

    proof fn lemma_op_spec(self, device: Seq<u8>, timestamp: u64) {
        let o = self.op_spec(device, timestamp);
        assert(o.device == device);
        assert(o.timestamp == timestamp);
        assert(o.target == self.target_spec());
        assert(o.kind == self.kind_spec());
    }

    open spec fn op_spec(self, device: Seq<u8>, timestamp: u64) -> OpView {
        OpView {
            kind: OperationKind::SharedCreate,
            target: SyncIdView::Object(self.pub_id@),
            entries: self.entries_spec(),
            device,
            timestamp,
        }
    }

    fn to_operation(&self, sync: &SyncManager) -> (op: OperationRecord) {
        sync.shared_create(
            SyncId::Object { pub_id: clone_bytes(&self.pub_id) },
            self.build_entries(),
        )
    }
}

impl ExifDataRow {
    /// The EXIF entry set. The operation's identity is the owning object's
    /// sync identity, so no identity of the row's own appears here.
    pub open spec fn entries_spec(self) -> Seq<EntryView> {
        opt_entry(FieldName::Resolution, bytes_of(self.resolution)) + opt_entry(
            FieldName::MediaDate,
            bytes_of(self.media_date),
        ) + opt_entry(FieldName::MediaLocation, bytes_of(self.media_location)) + opt_entry(
            FieldName::CameraData,
            bytes_of(self.camera_data),
        ) + opt_entry(FieldName::Artist, text_of(self.artist)) + opt_entry(
            FieldName::Description,
            text_of(self.description),
        ) + opt_entry(FieldName::Copyright, text_of(self.copyright)) + opt_entry(
            FieldName::ExifVersion,
            text_of(self.exif_version),
        ) + opt_entry(FieldName::EpochTime, int_of(self.epoch_time)) + opt_entry(
            FieldName::Device,
            device_ref_of(self.device),
        )
    }

    /// Builds the EXIF entry set.
    pub fn build_entries(&self) -> (r: Vec<Entry>)
        ensures
            entries_view(r@) == self.entries_spec(),
    {
        let mut entries: Vec<Entry> = Vec::new();
        push_entry(&mut entries, FieldName::Resolution, bytes_val(&self.resolution));
        push_entry(&mut entries, FieldName::MediaDate, bytes_val(&self.media_date));
        push_entry(&mut entries, FieldName::MediaLocation, bytes_val(&self.media_location));
        push_entry(&mut entries, FieldName::CameraData, bytes_val(&self.camera_data));
        push_entry(&mut entries, FieldName::Artist, text_val(&self.artist));
        push_entry(&mut entries, FieldName::Description, text_val(&self.description));
        push_entry(&mut entries, FieldName::Copyright, text_val(&self.copyright));
        push_entry(&mut entries, FieldName::ExifVersion, text_val(&self.exif_version));
        push_entry(&mut entries, FieldName::EpochTime, int_val(&self.epoch_time));
        push_entry(&mut entries, FieldName::Device, device_ref_val(&self.device));
        proof {
            assert(entries_view(entries@) =~= self.entries_spec());
        }
        entries
    }
}

impl ToOperation for ExifDataRow {
    open spec fn target_spec(self) -> SyncIdView {
        SyncIdView::ExifData(self.object_pub_id@)
    }

    open spec fn kind_spec(self) -> OperationKind {
        OperationKind::SharedCreate
    }

    proof fn lemma_op_spec(self, device: Seq<u8>, timestamp: u64) {
        let o = self.op_spec(device, timestamp);
        assert(o.device == device);
        assert(o.timestamp == timestamp);
        assert(o.target == self.target_spec());
        assert(o.kind == self.kind_spec());
    }

    open spec fn op_spec(self, device: Seq<u8>, timestamp: u64) -> OpView {
        OpView {
            kind: OperationKind::SharedCreate,
            target: SyncIdView::ExifData(self.object_pub_id@),
            entries: self.entries_spec(),
            device,
            timestamp,
        }
    }

    fn to_operation(&self, sync: &SyncManager) -> (op: OperationRecord) {
        sync.shared_create(
            SyncId::ExifData { object_pub_id: clone_bytes(&self.object_pub_id) },
            self.build_entries(),
        )
    }
}

impl FilePathRow {
    /// The file-path entry set: filesystem attributes plus optional
    /// references to the containing location, the described object, and the
    /// owning device.
    pub open spec fn entries_spec(self) -> Seq<EntryView> {
        opt_entry(FieldName::IsDir, bool_of(self.is_dir)) + opt_entry(
            FieldName::CasId,
            text_of(self.cas_id),
        ) + opt_entry(FieldName::IntegrityChecksum, text_of(self.integrity_checksum)) + opt_entry(
            FieldName::Location,
            location_ref_of(self.location),
        ) + opt_entry(FieldName::Object, object_ref_of(self.object)) + opt_entry(
            FieldName::MaterializedPath,
            text_of(self.materialized_path),
        ) + opt_entry(FieldName::Name, text_of(self.name)) + opt_entry(
            FieldName::Extension,
            text_of(self.extension),
        ) + opt_entry(FieldName::Hidden, bool_of(self.hidden)) + opt_entry(
            FieldName::SizeInBytesBytes,
            bytes_of(self.size_in_bytes_bytes),
        ) + opt_entry(FieldName::Inode, bytes_of(self.inode)) + opt_entry(
            FieldName::DateCreated,
            int_of(self.date_created),
        ) + opt_entry(FieldName::DateModified, int_of(self.date_modified)) + opt_entry(
            FieldName::DateIndexed,
            int_of(self.date_indexed),
        ) + opt_entry(FieldName::Device, device_ref_of(self.device))
    }

    /// Builds the file-path entry set.
    pub fn build_entries(&self) -> (r: Vec<Entry>)
        ensures
            entries_view(r@) == self.entries_spec(),
    {
        let mut entries: Vec<Entry> = Vec::new();
        push_entry(&mut entries, FieldName::IsDir, bool_val(&self.is_dir));
        push_entry(&mut entries, FieldName::CasId, text_val(&self.cas_id));
        push_entry(&mut entries, FieldName::IntegrityChecksum, text_val(&self.integrity_checksum));
        push_entry(&mut entries, FieldName::Location, location_ref_val(&self.location));
        push_entry(&mut entries, FieldName::Object, object_ref_val(&self.object));
        push_entry(&mut entries, FieldName::MaterializedPath, text_val(&self.materialized_path));
        push_entry(&mut entries, FieldName::Name, text_val(&self.name));
        push_entry(&mut entries, FieldName::Extension, text_val(&self.extension));
        push_entry(&mut entries, FieldName::Hidden, bool_val(&self.hidden));
        push_entry(&mut entries, FieldName::SizeInBytesBytes, bytes_val(&self.size_in_bytes_bytes));
        push_entry(&mut entries, FieldName::Inode, bytes_val(&self.inode));
        push_entry(&mut entries, FieldName::DateCreated, int_val(&self.date_created));
        push_entry(&mut entries, FieldName::DateModified, int_val(&self.date_modified));
        push_entry(&mut entries, FieldName::DateIndexed, int_val(&self.date_indexed));
        push_entry(&mut entries, FieldName::Device, device_ref_val(&self.device));
        proof {
            assert(entries_view(entries@) =~= self.entries_spec());
        }
        entries
    }
}

impl ToOperation for FilePathRow {
    open spec fn target_spec(self) -> SyncIdView {
        SyncIdView::FilePath(self.pub_id@)
    }

    open spec fn kind_spec(self) -> OperationKind {
        OperationKind::SharedCreate
    }

    proof fn lemma_op_spec(self, device: Seq<u8>, timestamp: u64) {
        let o = self.op_spec(device, timestamp);
        assert(o.device == device);
        assert(o.timestamp == timestamp);
        assert(o.target == self.target_spec());
        assert(o.kind == self.kind_spec());
    }

    open spec fn op_spec(self, device: Seq<u8>, timestamp: u64) -> OpView {
        OpView {
            kind: OperationKind::SharedCreate,
            target: SyncIdView::FilePath(self.pub_id@),
            entries: self.entries_spec(),
            device,
            timestamp,
        }
    }

    fn to_operation(&self, sync: &SyncManager) -> (op: OperationRecord) {
        sync.shared_create(
            SyncId::FilePath { pub_id: clone_bytes(&self.pub_id) },
            self.build_entries(),
        )
    }
}

impl LabelRow {
    /// The label entry set: timestamps only; the name is the identity itself.
    pub open spec fn entries_spec(self) -> Seq<EntryView> {
        opt_entry(FieldName::DateCreated, int_of(self.date_created)) + opt_entry(
            FieldName::DateModified,
            int_of(self.date_modified),
        )
    }

    /// Builds the label entry set.
    pub fn build_entries(&self) -> (r: Vec<Entry>)
        ensures
            entries_view(r@) == self.entries_spec(),
    {
        let mut entries: Vec<Entry> = Vec::new();
        push_entry(&mut entries, FieldName::DateCreated, int_val(&self.date_created));
        push_entry(&mut entries, FieldName::DateModified, int_val(&self.date_modified));
        proof {
            assert(entries_view(entries@) =~= self.entries_spec());
        }
        entries
    }
}

impl ToOperation for LabelRow {
    open spec fn target_spec(self) -> SyncIdView {
        SyncIdView::Label(self.name@)
    }

    open spec fn kind_spec(self) -> OperationKind {
        OperationKind::SharedCreate
    }

    proof fn lemma_op_spec(self, device: Seq<u8>, timestamp: u64) {
        let o = self.op_spec(device, timestamp);
        assert(o.device == device);
        assert(o.timestamp == timestamp);
        assert(o.target == self.target_spec());
        assert(o.kind == self.kind_spec());
    }

    open spec fn op_spec(self, device: Seq<u8>, timestamp: u64) -> OpView {
        OpView {
            kind: OperationKind::SharedCreate,
            target: SyncIdView::Label(self.name@),
            entries: self.entries_spec(),
            device,
            timestamp,
        }
    }

    fn to_operation(&self, sync: &SyncManager) -> (op: OperationRecord) {
        sync.shared_create(SyncId::Label { name: self.name.clone() }, self.build_entries())
    }
}

impl TagOnObjectRow {
    /// The tag-membership entry set: the creation timestamp is optional here,
    /// unlike label membership.
    pub open spec fn entries_spec(self) -> Seq<EntryView> {
        opt_entry(FieldName::DateCreated, int_of(self.date_created)) + opt_entry(
            FieldName::Device,
            device_ref_of(self.device),
        )
    }

    /// Builds the tag-membership entry set.
    pub fn build_entries(&self) -> (r: Vec<Entry>)
        ensures
            entries_view(r@) == self.entries_spec(),
    {
        let mut entries: Vec<Entry> = Vec::new();
        push_entry(&mut entries, FieldName::DateCreated, int_val(&self.date_created));
        push_entry(&mut entries, FieldName::Device, device_ref_val(&self.device));
        proof {
            assert(entries_view(entries@) =~= self.entries_spec());
        }
        entries
    }
}

impl ToOperation for TagOnObjectRow {
    open spec fn target_spec(self) -> SyncIdView {
        SyncIdView::TagOnObject(self.tag_pub_id@, self.object_pub_id@)
    }

    open spec fn kind_spec(self) -> OperationKind {
        OperationKind::RelationCreate
    }

    proof fn lemma_op_spec(self, device: Seq<u8>, timestamp: u64) {
        let o = self.op_spec(device, timestamp);
        assert(o.device == device);
        assert(o.timestamp == timestamp);
        assert(o.target == self.target_spec());
        assert(o.kind == self.kind_spec());
    }

    open spec fn op_spec(self, device: Seq<u8>, timestamp: u64) -> OpView {
        OpView {
            kind: OperationKind::RelationCreate,
            target: SyncIdView::TagOnObject(self.tag_pub_id@, self.object_pub_id@),
            entries: self.entries_spec(),
            device,
            timestamp,
        }
    }

    fn to_operation(&self, sync: &SyncManager) -> (op: OperationRecord) {
        sync.relation_create(
            SyncId::TagOnObject {
                tag_pub_id: clone_bytes(&self.tag_pub_id),
                object_pub_id: clone_bytes(&self.object_pub_id),
            },
            self.build_entries(),
        )
    }
}

impl LabelOnObjectRow {
    /// The label-membership entry set. The creation timestamp is always
    /// emitted — a deliberate asymmetry with tag membership, preserved as the
    /// storage layer has it.
    pub open spec fn entries_spec(self) -> Seq<EntryView> {
        opt_entry(FieldName::DateCreated, Some(ValueView::Int(self.date_created))) + opt_entry(
            FieldName::Device,
            device_ref_of(self.device),
        )
    }

    /// Builds the label-membership entry set.
    pub fn build_entries(&self) -> (r: Vec<Entry>)
        ensures
            entries_view(r@) == self.entries_spec(),
    {
        let mut entries: Vec<Entry> = Vec::new();
        push_entry(&mut entries, FieldName::DateCreated, Some(Value::Int(self.date_created)));
        push_entry(&mut entries, FieldName::Device, device_ref_val(&self.device));
        proof {
            assert(entries_view(entries@) =~= self.entries_spec());
        }
        entries
    }
}

impl ToOperation for LabelOnObjectRow {
    open spec fn target_spec(self) -> SyncIdView {
        SyncIdView::LabelOnObject(self.label_name@, self.object_pub_id@)
    }

    open spec fn kind_spec(self) -> OperationKind {
        OperationKind::RelationCreate
    }

    proof fn lemma_op_spec(self, device: Seq<u8>, timestamp: u64) {
        let o = self.op_spec(device, timestamp);
        assert(o.device == device);
        assert(o.timestamp == timestamp);
        assert(o.target == self.target_spec());
        assert(o.kind == self.kind_spec());
    }

    open spec fn op_spec(self, device: Seq<u8>, timestamp: u64) -> OpView {
        OpView {
            kind: OperationKind::RelationCreate,
            target: SyncIdView::LabelOnObject(self.label_name@, self.object_pub_id@),
            entries: self.entries_spec(),
            device,
            timestamp,
        }
    }

    fn to_operation(&self, sync: &SyncManager) -> (op: OperationRecord) {
        sync.relation_create(
            SyncId::LabelOnObject {
                label_name: self.label_name.clone(),
                object_pub_id: clone_bytes(&self.object_pub_id),
            },
            self.build_entries(),
        )
    }
}

} // verus!

//! Operation records: the immutable log entries that backfill produces.
//!
//! An operation describes the creation of one entity (`SharedCreate`) or one
//! join-table membership (`RelationCreate`). It carries the target's sync
//! identity, an ordered entry set of field values, the originating device's
//! identity, and a logical timestamp. Each executable type has a ghost view
//! over mathematical sequences, and every contract in this crate speaks of
//! those views.

use vstd::prelude::*;

use crate::clock;

verus! {

/// The kind of an operation record.
#[derive(Clone, Copy, PartialEq, Eq, Structural, Debug)]
pub enum OperationKind {
    /// Creation of a standalone entity.
    SharedCreate,
    /// Creation of a join-table membership.
    RelationCreate,
}

/// The name of one field of an entry set. The storage layer owns the wire
/// spelling of each name; the library only needs the names to be distinct.
#[derive(Clone, Copy, PartialEq, Eq, Structural, Debug)]
pub enum FieldName {
    Name,
    Os,
    HardwareModel,
    Timestamp,
    DateCreated,
    DateDeleted,
    TotalCapacity,
    AvailableCapacity,
    Device,
    Color,
    DateModified,
    Path,
    SizeInBytes,
    IsArchived,
    GeneratePreviewMedia,
    SyncPreviewMedia,
    Hidden,
    Instance,
    Kind,
    Favorite,
    Important,
    Note,
    DateAccessed,
    Resolution,
    MediaDate,
    MediaLocation,
    CameraData,
    Artist,
    Description,
    Copyright,
    ExifVersion,
    EpochTime,
    IsDir,
    CasId,
    IntegrityChecksum,
    Location,
    Object,
    MaterializedPath,
    Extension,
    SizeInBytesBytes,
    Inode,
    DateIndexed,
}

/// The sync identity of an entity: the only identifier ever embedded in an
/// operation, stable across devices. Each synchronizable table has its own
/// variant, so identities of different tables never collide.
#[derive(PartialEq, Eq, Debug)]
pub enum SyncId {
    Device { pub_id: Vec<u8> },
    StorageStatistics { pub_id: Vec<u8> },
    Tag { pub_id: Vec<u8> },
    Location { pub_id: Vec<u8> },
    Object { pub_id: Vec<u8> },
    /// A label is identified by its unique name, not a generated id.
    Label { name: String },
    /// EXIF data is identified by the object it describes (one-to-one).
    ExifData { object_pub_id: Vec<u8> },
    FilePath { pub_id: Vec<u8> },
    Instance { pub_id: Vec<u8> },
    TagOnObject { tag_pub_id: Vec<u8>, object_pub_id: Vec<u8> },
    LabelOnObject { label_name: String, object_pub_id: Vec<u8> },
}

/// Ghost view of a sync identity.
pub enum SyncIdView {
    Device(Seq<u8>),
    StorageStatistics(Seq<u8>),
    Tag(Seq<u8>),
    Location(Seq<u8>),
    Object(Seq<u8>),
    Label(Seq<char>),
    ExifData(Seq<u8>),
    FilePath(Seq<u8>),
    Instance(Seq<u8>),
    TagOnObject(Seq<u8>, Seq<u8>),
    LabelOnObject(Seq<char>, Seq<u8>),
}

impl View for SyncId {
    type V = SyncIdView;

    open spec fn view(&self) -> SyncIdView {
        match self {
            SyncId::Device { pub_id } => SyncIdView::Device(pub_id@),
            SyncId::StorageStatistics { pub_id } => SyncIdView::StorageStatistics(pub_id@),
            SyncId::Tag { pub_id } => SyncIdView::Tag(pub_id@),
            SyncId::Location { pub_id } => SyncIdView::Location(pub_id@),
            SyncId::Object { pub_id } => SyncIdView::Object(pub_id@),
            SyncId::Label { name } => SyncIdView::Label(name@),
            SyncId::ExifData { object_pub_id } => SyncIdView::ExifData(object_pub_id@),
            SyncId::FilePath { pub_id } => SyncIdView::FilePath(pub_id@),
            SyncId::Instance { pub_id } => SyncIdView::Instance(pub_id@),
            SyncId::TagOnObject { tag_pub_id, object_pub_id } => SyncIdView::TagOnObject(
                tag_pub_id@,
                object_pub_id@,
            ),
            SyncId::LabelOnObject { label_name, object_pub_id } => SyncIdView::LabelOnObject(
                label_name@,
                object_pub_id@,
            ),
        }
    }
}

/// The value of one entry: a plain scalar, text, bytes, or a reference to
/// another entity's sync identity.
#[derive(PartialEq, Eq, Debug)]
pub enum Value {
    Bytes(Vec<u8>),
    Text(String),
    Int(i64),
    Bool(bool),
    Ref(SyncId),
}

/// Ghost view of an entry value.
pub enum ValueView {
    Bytes(Seq<u8>),
    Text(Seq<char>),
    Int(i64),
    Bool(bool),
    Ref(SyncIdView),
}

impl View for Value {
    type V = ValueView;

    open spec fn view(&self) -> ValueView {
        match self {
            Value::Bytes(b) => ValueView::Bytes(b@),
            Value::Text(s) => ValueView::Text(s@),
            Value::Int(i) => ValueView::Int(*i),
            Value::Bool(b) => ValueView::Bool(*b),
            Value::Ref(id) => ValueView::Ref(id@),
        }
    }
}

/// One (field name, value) pair of an entry set.
#[derive(PartialEq, Eq, Debug)]
pub struct Entry {
    pub field: FieldName,
    pub value: Value,
}

/// Ghost view of an entry.
pub struct EntryView {
    pub field: FieldName,
    pub value: ValueView,
}

impl View for Entry {
    type V = EntryView;

    open spec fn view(&self) -> EntryView {
        EntryView { field: self.field, value: self.value@ }
    }
}

/// An immutable, append-only log entry: the durable artifact other devices
/// consume to reconstruct entity state.
#[derive(PartialEq, Eq, Debug)]
pub struct OperationRecord {
    /// `SharedCreate` or `RelationCreate`.
    pub kind: OperationKind,
    /// The sync identity of the created entity or membership.
    pub target: SyncId,
    /// The ordered entry set: one entry per present field.
    pub entries: Vec<Entry>,
    /// The identity of the device that generated the operation.
    pub device_pub_id: Vec<u8>,
    /// Logical clock value establishing causal order.
    pub timestamp: u64,
}

/// Ghost view of an operation record.
pub struct OpView {
    pub kind: OperationKind,
    pub target: SyncIdView,
    pub entries: Seq<EntryView>,
    pub device: Seq<u8>,
    pub timestamp: u64,
}

impl View for OperationRecord {
    type V = OpView;

    open spec fn view(&self) -> OpView {
        OpView {
            kind: self.kind,
            target: self.target@,
            entries: entries_view(self.entries@),
            device: self.device_pub_id@,
            timestamp: self.timestamp,
        }
    }
}

/// The entry-set view of a sequence of entries.
pub open spec fn entries_view(s: Seq<Entry>) -> Seq<EntryView> {
    s.map_values(|e: Entry| e@)
}

/// The log view of a sequence of operation records.
pub open spec fn log_view(s: Seq<OperationRecord>) -> Seq<OpView> {
    s.map_values(|o: OperationRecord| o@)
}

/// Copies a byte string. Every operation embeds the identities it mentions by
/// value, so the converters copy them out of the rows.
pub fn clone_bytes(v: &Vec<u8>) -> (r: Vec<u8>)
    ensures
        r@ == v@,
{
    let r = v.clone();
    proof {
        assert(r@ =~= v@);
    }
    r
}

/// The sync identity facade: knows the local device's stable identity and the
/// logical timestamp of the current backfill run, and builds operation
/// payloads from entry sets.
pub struct SyncManager {
    /// The local device's stable identity.
    pub device_pub_id: Vec<u8>,
    /// Logical clock value stamped on every operation this manager builds.
    pub timestamp: u64,
}

impl SyncManager {
    /// A manager for the given device, stamped with the wall clock at the
    /// moment of construction. The clock value is machine-dependent, so only
    /// the device identity is pinned; `with_timestamp` pins both.
    pub fn new(device_pub_id: Vec<u8>) -> (s: SyncManager)
        ensures
            s.device_pub_id == device_pub_id,
    {
        let now = clock::current_timestamp_millis();
        let timestamp: u64 = if now < 0 {
            0
        } else {
            now as u64
        };
        SyncManager { device_pub_id, timestamp }
    }

    /// A manager for the given device with an explicit logical timestamp.
    pub fn with_timestamp(device_pub_id: Vec<u8>, timestamp: u64) -> (s: SyncManager)
        ensures
            s.device_pub_id == device_pub_id,
            s.timestamp == timestamp,
    {
        SyncManager { device_pub_id, timestamp }
    }

    /// Builds a `SharedCreate` operation for one standalone entity.
    pub fn shared_create(&self, target: SyncId, entries: Vec<Entry>) -> (op: OperationRecord)
        ensures
            op@ == (OpView {
                kind: OperationKind::SharedCreate,
                target: target@,
                entries: entries_view(entries@),
                device: self.device_pub_id@,
                timestamp: self.timestamp,
            }),
    {
        OperationRecord {
            kind: OperationKind::SharedCreate,
            target,
            entries,
            device_pub_id: clone_bytes(&self.device_pub_id),
            timestamp: self.timestamp,
        }
    }

    /// Builds a `RelationCreate` operation for one join-table membership.
    pub fn relation_create(&self, target: SyncId, entries: Vec<Entry>) -> (op: OperationRecord)
        ensures
            op@ == (OpView {
                kind: OperationKind::RelationCreate,
                target: target@,
                entries: entries_view(entries@),
                device: self.device_pub_id@,
                timestamp: self.timestamp,
            }),
    {
        OperationRecord {
            kind: OperationKind::RelationCreate,
            target,
            entries,
            device_pub_id: clone_bytes(&self.device_pub_id),
            timestamp: self.timestamp,
        }
    }
}

} // verus!

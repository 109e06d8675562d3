//! The per-location metadata ledger.
//!
//! Every location directory carries a small metadata file recording, for each
//! library that indexed it, the location's stable identity, display name,
//! root path, and timestamps. This module holds the ledger itself and every
//! decision about it — lookups, relinking, renames, library membership, and
//! pruning of stale libraries — as verified code over plain values. Reading,
//! parsing, serializing and writing the file belong to the I/O layer around
//! the library, which hands outcomes in and carries actions out.

use vstd::prelude::*;

verus! {

/// A library's stable identity: a 128-bit universally unique identifier.
pub type LibraryId = u128;

/// What one library recorded about the location.
#[derive(PartialEq, Eq, Debug)]
pub struct LocationMetadata {
    /// The location's stable identity within that library.
    pub pub_id: u128,
    /// The location's display name.
    pub name: String,
    /// The location's root path.
    pub path: String,
    /// When the entry was created, in epoch milliseconds.
    pub created_at: i64,
    /// When the entry last changed, in epoch milliseconds.
    pub updated_at: i64,
}

/// The ledger: one entry per library that indexed the location, keyed by
/// library identity, plus file-level timestamps.
#[derive(PartialEq, Eq, Debug)]
pub struct SpacedriveLocationMetadata {
    /// The per-library entries. Keys are unique: see `wf`.
    pub libraries: Vec<(LibraryId, LocationMetadata)>,
    pub created_at: i64,
    pub updated_at: i64,
}

/// A loaded metadata file: the ledger together with the path the
/// surrounding I/O layer read it from (and will write it back to).
#[derive(PartialEq, Eq, Debug)]
pub struct SpacedriveLocationMetadataFile {
    /// Where the file lives, as the I/O layer spells it.
    pub path: String,
    /// The ledger itself.
    pub metadata: SpacedriveLocationMetadata,
}

/// What can go wrong around the metadata file. The ledger itself raises only
/// `LibraryNotFound` and `RelinkSamePath`; the I/O layer maps its read,
/// write, delete and (de)serialization failures onto the remaining kinds,
/// each carrying the file path concerned.
#[derive(PartialEq, Eq, Debug)]
pub enum LocationMetadataError {
    LibraryNotFound(LibraryId),
    Read(String),
    Delete(String),
    Serialize(String),
    Write(String),
    Deserialize(String),
    RelinkSamePath(String),
}

/// What reading the metadata file produced, as the I/O layer reports it.
#[derive(PartialEq, Eq, Debug)]
pub enum MetadataSource {
    /// No metadata file exists at the location.
    Missing,
    /// The file exists but could not be read.
    ReadFailed,
    /// The file was read and parsed into a ledger.
    Parsed(SpacedriveLocationMetadata),
    /// The file was read but its contents did not parse.
    Corrupt,
}

/// How to treat a corrupt metadata file: refuse it, or heal by discarding
/// it and starting over. Both are legitimate operational modes.
#[derive(PartialEq, Eq, Debug, Clone, Copy)]
pub enum RecoveryMode {
    Strict,
    SelfHeal,
}

/// What the caller should do after trying to load the metadata file.
#[derive(PartialEq, Eq, Debug)]
pub enum LoadOutcome {
    /// The location carries no metadata.
    Absent,
    /// The loaded file.
    Loaded(SpacedriveLocationMetadataFile),
    /// Delete the corrupt file, then treat the location as carrying none.
    DiscardCorrupt,
}

/// No two entries share a library key.
pub open spec fn lib_keys_unique(libs: Seq<(LibraryId, LocationMetadata)>) -> bool {
    forall|i: int, j: int| 0 <= i < j < libs.len() ==> (#[trigger] libs[i]).0 != (#[trigger] libs[j]).0
}

/// Whether some entry carries the given library key.
pub open spec fn has_lib(libs: Seq<(LibraryId, LocationMetadata)>, id: LibraryId) -> bool {
    exists|k: int| 0 <= k < libs.len() && (#[trigger] libs[k]).0 == id
}

/// The index of the entry carrying the given library key; meaningful when
/// `has_lib` holds, and unique by `lib_keys_unique`.
pub open spec fn lib_index(libs: Seq<(LibraryId, LocationMetadata)>, id: LibraryId) -> int {
    choose|k: int| 0 <= k < libs.len() && (#[trigger] libs[k]).0 == id
}

/// The entries that survive pruning: those whose library is still among the
/// existing ones.
pub open spec fn retained(
    libs: Seq<(LibraryId, LocationMetadata)>,
    keep: Seq<LibraryId>,
) -> Seq<(LibraryId, LocationMetadata)> {
    libs.filter(|e: (LibraryId, LocationMetadata)| keep.contains(e.0))
}

/// Appending one more entry to a ledger extends its pruned form by that
/// entry when its library survives, and leaves it unchanged otherwise.
proof fn lemma_retained_push(libs: Seq<(LibraryId, LocationMetadata)>, keep: Seq<LibraryId>)
    requires
        libs.len() > 0,
    ensures
        retained(libs, keep) == retained(libs.drop_last(), keep) + (if keep.contains(
            libs.last().0,
        ) {
            seq![libs.last()]
        } else {
            Seq::<(LibraryId, LocationMetadata)>::empty()
        }),
{
    reveal(Seq::filter);
}

/// Whether a library identity occurs in a list of identities.
fn contains_id(ids: &Vec<LibraryId>, id: LibraryId) -> (r: bool)
    ensures
        r == ids@.contains(id),
{
    let n = ids.len();
    let mut i: usize = 0;
    while i < n
        invariant
            i <= n,
            n == ids@.len(),
            forall|k: int| 0 <= k < i ==> ids@[k] != id,
        decreases n - i,
    {
        if ids[i] == id {
            assert(ids@.contains(id));
            return true;
        }
        i += 1;
    }
    assert(!ids@.contains(id));
    false
}

impl SpacedriveLocationMetadata {
    /// The ledger's invariant: library keys are unique.
    pub open spec fn wf(self) -> bool {
        lib_keys_unique(self.libraries@)
    }
}

impl SpacedriveLocationMetadataFile {
    /// The file's invariant: its ledger is well formed.
    pub open spec fn wf(self) -> bool {
        self.metadata.wf()
    }

    /// Decides what loading the metadata file yields, given what reading it
    /// produced: a missing file means no metadata; a read failure is an
    /// error; a parsed ledger is the loaded file; a corrupt file is healed
    /// by discarding it, or refused, by mode.
    pub fn try_load(
        metadata_file_path: String,
        source: MetadataSource,
        mode: RecoveryMode,
    ) -> (r: Result<LoadOutcome, LocationMetadataError>)
        requires
            source matches MetadataSource::Parsed(m) ==> m.wf(),
        ensures
            source is Missing ==> r == Ok::<LoadOutcome, LocationMetadataError>(
                LoadOutcome::Absent,
            ),
            source is ReadFailed ==> r == Err::<LoadOutcome, LocationMetadataError>(
                LocationMetadataError::Read(metadata_file_path),
            ),
            source matches MetadataSource::Parsed(m) ==> r == Ok::<
                LoadOutcome,
                LocationMetadataError,
            >(
                LoadOutcome::Loaded(
                    SpacedriveLocationMetadataFile { path: metadata_file_path, metadata: m },
                ),
            ),
            source is Corrupt ==> r == match mode {
                RecoveryMode::SelfHeal => Ok::<LoadOutcome, LocationMetadataError>(
                    LoadOutcome::DiscardCorrupt,
                ),
                RecoveryMode::Strict => Err::<LoadOutcome, LocationMetadataError>(
                    LocationMetadataError::Deserialize(metadata_file_path),
                ),
            },
    {
        match source {
            MetadataSource::Missing => Ok(LoadOutcome::Absent),
            MetadataSource::ReadFailed => Err(LocationMetadataError::Read(metadata_file_path)),
            MetadataSource::Parsed(metadata) => Ok(
                LoadOutcome::Loaded(
                    SpacedriveLocationMetadataFile { path: metadata_file_path, metadata },
                ),
            ),
            MetadataSource::Corrupt => match mode {
                RecoveryMode::SelfHeal => Ok(LoadOutcome::DiscardCorrupt),
                RecoveryMode::Strict => Err(
                    LocationMetadataError::Deserialize(metadata_file_path),
                ),
            },
        }
    }

    /// A fresh file holding one library's entry, ready for its first write.
    pub fn create(
        library_id: LibraryId,
        location_pub_id: u128,
        metadata_file_path: String,
        location_path: String,
        location_name: String,
        now: i64,
    ) -> (f: SpacedriveLocationMetadataFile)
        ensures
            f.wf(),
            f.path == metadata_file_path,
            f.metadata.libraries@ == seq![
                (
                    library_id,
                    LocationMetadata {
                        pub_id: location_pub_id,
                        name: location_name,
                        path: location_path,
                        created_at: now,
                        updated_at: now,
                    },
                ),
            ],
            f.metadata.created_at == now,
            f.metadata.updated_at == now,
    {
        let mut libraries: Vec<(LibraryId, LocationMetadata)> = Vec::new();
        libraries.push(
            (
                library_id,
                LocationMetadata {
                    pub_id: location_pub_id,
                    name: location_name,
                    path: location_path,
                    created_at: now,
                    updated_at: now,
                },
            ),
        );
        proof {
            assert(libraries@ =~= seq![libraries@[0]]);
        }
        SpacedriveLocationMetadataFile {
            path: metadata_file_path,
            metadata: SpacedriveLocationMetadata { libraries, created_at: now, updated_at: now },
        }
    }

    /// The index of the given library's entry, if it has one.
    fn find_library(&self, library_id: LibraryId) -> (r: Option<usize>)
        requires
            self.wf(),
        ensures
            r matches Some(k) ==> k < self.metadata.libraries@.len()
                && self.metadata.libraries@[k as int].0 == library_id && k as int == lib_index(
                self.metadata.libraries@,
                library_id,
            ),
            r is None ==> !has_lib(self.metadata.libraries@, library_id),
            (r is Some) == has_lib(self.metadata.libraries@, library_id),
    {
        let libs = &self.metadata.libraries;
        let n = libs.len();
        let mut i: usize = 0;
        while i < n
            invariant
                i <= n,
                n == libs@.len(),
                libs@ == self.metadata.libraries@,
                lib_keys_unique(libs@),
                forall|k: int| 0 <= k < i ==> (#[trigger] libs@[k]).0 != library_id,
            decreases n - i,
        {
            if libs[i].0 == library_id {
                proof {
                    assert((libs@[i as int]).0 == library_id);
                    assert(has_lib(libs@, library_id));
                    let j = lib_index(libs@, library_id);
                    assert(0 <= j < libs@.len() && (libs@[j]).0 == library_id);
                    assert(j == i as int) by {
                        if j < i as int {
                            assert((libs@[j]).0 != (libs@[i as int]).0);
                        }
                        if j > i as int {
                            assert((libs@[i as int]).0 != (libs@[j]).0);
                        }
                    }
                }
                return Some(i);
            }
            i += 1;
        }
        proof {
            assert(!has_lib(libs@, library_id));
        }
        None
    }

    /// Whether the given library has an entry here.
    pub fn has_library(&self, library_id: LibraryId) -> (r: bool)
        requires
            self.wf(),
        ensures
            r == has_lib(self.metadata.libraries@, library_id),
    {
        self.find_library(library_id).is_some()
    }

    /// The location's root path as the given library recorded it.
    pub fn location_path(&self, library_id: LibraryId) -> (r: Option<&String>)
        requires
            self.wf(),
        ensures
            (r is Some) == has_lib(self.metadata.libraries@, library_id),
            r matches Some(p) ==> *p == self.metadata.libraries@[lib_index(
                self.metadata.libraries@,
                library_id,
            )].1.path,
    {
        match self.find_library(library_id) {
            Some(k) => Some(&self.metadata.libraries[k].1.path),
            None => None,
        }
    }

    /// Whether no library has an entry here; the I/O layer deletes the file
    /// instead of writing an empty ledger.
    pub fn is_empty(&self) -> (r: bool)
        ensures
            r == (self.metadata.libraries@.len() == 0),
    {
        self.metadata.libraries.len() == 0
    }

    /// The location's stable identity as the given library recorded it.
    pub fn location_pub_id(&self, library_id: LibraryId) -> (r: Result<
        u128,
        LocationMetadataError,
    >)
        requires
            self.wf(),
        ensures
            (r is Ok) == has_lib(self.metadata.libraries@, library_id),
            r matches Ok(p) ==> p == self.metadata.libraries@[lib_index(
                self.metadata.libraries@,
                library_id,
            )].1.pub_id,
            r matches Err(e) ==> e == LocationMetadataError::LibraryNotFound(library_id),
    {
        match self.find_library(library_id) {
            Some(k) => Ok(self.metadata.libraries[k].1.pub_id),
            None => Err(LocationMetadataError::LibraryNotFound(library_id)),
        }
    }

    /// Renames the location in the given library's entry and touches its
    /// update time. Fails, changing nothing, when the library has no entry.
    pub fn update(&mut self, library_id: LibraryId, location_name: String, now: i64) -> (r: Result<
        (),
        LocationMetadataError,
    >)
        requires
            old(self).wf(),
        ensures
            final(self).wf(),
            (r is Ok) == has_lib(old(self).metadata.libraries@, library_id),
            r is Ok ==> ({
                let libs = old(self).metadata.libraries@;
                let k = lib_index(libs, library_id);
                let base = libs[k].1;
                final(self).metadata.libraries@ == libs.update(
                    k,
                    (library_id, (LocationMetadata { name: location_name, updated_at: now, ..base })),
                ) && final(self).metadata.created_at == old(self).metadata.created_at && final(self).metadata.updated_at == old(self).metadata.updated_at && final(self).path == old(self).path
            }),
            r matches Err(e) ==> e == LocationMetadataError::LibraryNotFound(library_id) && *final(self) == *old(self),
    {
        match self.find_library(library_id) {
            Some(k) => {
                self.metadata.libraries[k].1.name = location_name;
                self.metadata.libraries[k].1.updated_at = now;
                proof {
                    let libs = old(self).metadata.libraries@;
                    let j = lib_index(libs, library_id);
                    let base = libs[j].1;
                    assert(self.metadata.libraries@ =~= libs.update(
                        j,
                        (library_id, (LocationMetadata { name: location_name, updated_at: now, ..base })),
                    ));
                }
                Ok(())
            },
            None => Err(LocationMetadataError::LibraryNotFound(library_id)),
        }
    }

    /// Points the given library's entry at a new root path and touches its
    /// update time. Fails, changing nothing, when the library has no entry
    /// or when the new path equals the recorded one.
    pub fn relink(&mut self, library_id: LibraryId, location_path: String, now: i64) -> (r: Result<
        (),
        LocationMetadataError,
    >)
        requires
            old(self).wf(),
        ensures
            final(self).wf(),
            r is Ok ==> ({
                let libs = old(self).metadata.libraries@;
                let k = lib_index(libs, library_id);
                let base = libs[k].1;
                has_lib(libs, library_id) && libs[k].1.path@ != location_path@ && final(self).metadata.libraries@ == libs.update(
                    k,
                    (library_id, (LocationMetadata { path: location_path, updated_at: now, ..base })),
                ) && final(self).metadata.created_at == old(self).metadata.created_at && final(self).metadata.updated_at == old(self).metadata.updated_at && final(self).path == old(self).path
            }),
            r matches Err(e) ==> *final(self) == *old(self) && ({
                let libs = old(self).metadata.libraries@;
                if !has_lib(libs, library_id) {
                    e == LocationMetadataError::LibraryNotFound(library_id)
                } else {
                    libs[lib_index(libs, library_id)].1.path@ == location_path@ && e
                        == LocationMetadataError::RelinkSamePath(location_path)
                }
            }),
            (r is Ok) == (has_lib(old(self).metadata.libraries@, library_id) && old(
                self,
            ).metadata.libraries@[lib_index(old(self).metadata.libraries@, library_id)].1.path@
                != location_path@),
    {
        match self.find_library(library_id) {
            Some(k) => {
                if self.metadata.libraries[k].1.path == location_path {
                    return Err(LocationMetadataError::RelinkSamePath(location_path));
                }
                self.metadata.libraries[k].1.path = location_path;
                self.metadata.libraries[k].1.updated_at = now;
                proof {
                    let libs = old(self).metadata.libraries@;
                    let j = lib_index(libs, library_id);
                    let base = libs[j].1;
                    assert(self.metadata.libraries@ =~= libs.update(
                        j,
                        (library_id, (LocationMetadata { path: location_path, updated_at: now, ..base })),
                    ));
                }
                Ok(())
            },
            None => Err(LocationMetadataError::LibraryNotFound(library_id)),
        }
    }

    /// Records (or replaces) the given library's entry and touches the
    /// ledger's update time.
    pub fn add_library(
        &mut self,
        library_id: LibraryId,
        location_pub_id: u128,
        location_path: String,
        location_name: String,
        now: i64,
    )
        requires
            old(self).wf(),
        ensures
            final(self).wf(),
            ({
                let libs = old(self).metadata.libraries@;
                let entry = (
                    library_id,
                    LocationMetadata {
                        pub_id: location_pub_id,
                        name: location_name,
                        path: location_path,
                        created_at: now,
                        updated_at: now,
                    },
                );
                if has_lib(libs, library_id) {
                    final(self).metadata.libraries@ == libs.update(
                        lib_index(libs, library_id),
                        entry,
                    )
                } else {
                    final(self).metadata.libraries@ == libs.push(entry)
                }
            }),
            final(self).metadata.updated_at == now,
            final(self).metadata.created_at == old(self).metadata.created_at,
            final(self).path == old(self).path,
    {
        let entry = LocationMetadata {
            pub_id: location_pub_id,
            name: location_name,
            path: location_path,
            created_at: now,
            updated_at: now,
        };
        match self.find_library(library_id) {
            Some(k) => {
                self.metadata.libraries[k] = (library_id, entry);
                proof {
                    let libs = old(self).metadata.libraries@;
                    let j = lib_index(libs, library_id);
                    assert(self.metadata.libraries@ =~= libs.update(
                        j,
                        self.metadata.libraries@[j],
                    ));
                }
            },
            None => {
                self.metadata.libraries.push((library_id, entry));
                proof {
                    let libs = old(self).metadata.libraries@;
                    assert forall|i: int, j: int|
                        0 <= i < j < self.metadata.libraries@.len() implies (
                    #[trigger] self.metadata.libraries@[i]).0 != (
                    #[trigger] self.metadata.libraries@[j]).0 by {
                        if j < libs.len() {
                            assert(libs[i].0 != libs[j].0);
                        } else {
                            assert(!has_lib(libs, library_id));
                            assert(libs[i].0 != library_id);
                        }
                    }
                }
            },
        }
        self.metadata.updated_at = now;
    }

    /// Removes the given library's entry and touches the ledger's update
    /// time. Fails, changing nothing, when the library has no entry. When
    /// the last entry goes, the caller deletes the file rather than writing
    /// an empty ledger: see `is_empty`.
    pub fn remove_library(&mut self, library_id: LibraryId, now: i64) -> (r: Result<
        (),
        LocationMetadataError,
    >)
        requires
            old(self).wf(),
        ensures
            final(self).wf(),
            (r is Ok) == has_lib(old(self).metadata.libraries@, library_id),
            r is Ok ==> ({
                let libs = old(self).metadata.libraries@;
                final(self).metadata.libraries@ == libs.remove(lib_index(libs, library_id))
                    && final(self).metadata.updated_at == now && final(self).metadata.created_at
                    == old(self).metadata.created_at && final(self).path == old(self).path
            }),
            r matches Err(e) ==> e == LocationMetadataError::LibraryNotFound(library_id) && *final(self) == *old(self),
    {
        match self.find_library(library_id) {
            Some(k) => {
                self.metadata.libraries.remove(k);
                self.metadata.updated_at = now;
                proof {
                    let libs = old(self).metadata.libraries@;
                    let j = lib_index(libs, library_id);
                    assert forall|i1: int, j1: int|
                        0 <= i1 < j1 < self.metadata.libraries@.len() implies (
                    #[trigger] self.metadata.libraries@[i1]).0 != (
                    #[trigger] self.metadata.libraries@[j1]).0 by {
                        let a = if i1 < j { i1 } else { i1 + 1 };
                        let b = if j1 < j { j1 } else { j1 + 1 };
                        assert(self.metadata.libraries@[i1] == libs[a]);
                        assert(self.metadata.libraries@[j1] == libs[b]);
                        assert(libs[a].0 != libs[b].0);
                    }
                }
                Ok(())
            },
            None => Err(LocationMetadataError::LibraryNotFound(library_id)),
        }
    }

    /// Prunes entries of libraries that no longer exist, touching the
    /// ledger's update time when anything was removed. Returns whether the
    /// ledger changed: the caller then rewrites the file, or deletes it when
    /// the ledger emptied (see `is_empty`); an unchanged ledger needs no
    /// write at all.
    pub fn clean_stale_libraries(
        &mut self,
        existing_library_ids: &Vec<LibraryId>,
        now: i64,
    ) -> (changed: bool)
        requires
            old(self).wf(),
        ensures
            final(self).wf(),
            final(self).metadata.libraries@ == retained(
                old(self).metadata.libraries@,
                existing_library_ids@,
            ),
            changed == (final(self).metadata.libraries@.len()
                != old(self).metadata.libraries@.len()),
            final(self).metadata.updated_at == if changed {
                now
            } else {
                old(self).metadata.updated_at
            },
            final(self).metadata.created_at == old(self).metadata.created_at,
            final(self).path == old(self).path,
    {
        let prev_len = self.metadata.libraries.len();
        let mut rest: Vec<(LibraryId, LocationMetadata)> = Vec::new();
        core::mem::swap(&mut self.metadata.libraries, &mut rest);
        let ghost all = rest@;
        let ghost keep = existing_library_ids@;
        proof {
            assert(self.metadata.libraries@ =~= retained(all.take(0), keep)) by {
                reveal(Seq::filter);
            }
        }
        let ghost mut i: int = 0;
        while rest.len() > 0
            invariant
                0 <= i <= all.len(),
                rest@ == all.skip(i),
                lib_keys_unique(all),
                keep == existing_library_ids@,
                self.metadata.libraries@ == retained(all.take(i), keep),
                lib_keys_unique(self.metadata.libraries@),
                forall|k: int, m: int|
                    0 <= k < self.metadata.libraries@.len() && i <= m < all.len() ==> (
                    #[trigger] self.metadata.libraries@[k]).0 != (#[trigger] all[m]).0,
                self.path == old(self).path,
                self.metadata.created_at == old(self).metadata.created_at,
                self.metadata.updated_at == old(self).metadata.updated_at,
            decreases all.len() - i,
        {
            let entry = rest.remove(0);
            proof {
                assert(all.skip(i)[0] == all[i]);
                assert(all.skip(i).remove(0) =~= all.skip(i + 1));
            }
            let stays = contains_id(existing_library_ids, entry.0);
            if stays {
                self.metadata.libraries.push(entry);
            }
            proof {
                let t1 = all.take(i + 1);
                assert(t1.drop_last() =~= all.take(i));
                assert(t1.last() == all[i]);
                lemma_retained_push(t1, keep);
                assert(self.metadata.libraries@ =~= retained(t1, keep));
                assert forall|k: int, m: int|
                    0 <= k < self.metadata.libraries@.len() && i + 1 <= m < all.len() implies (
                #[trigger] self.metadata.libraries@[k]).0 != (#[trigger] all[m]).0 by {
                    if k + 1 == self.metadata.libraries@.len() && stays {
                        assert((all[i]).0 != (all[m]).0);
                    }
                }
                i = i + 1;
            }
        }
        proof {
            assert(all.skip(i).len() == 0);
            assert(i == all.len());
            assert(all.take(i) =~= all);
        }
        let changed = self.metadata.libraries.len() != prev_len;
        if changed {
            self.metadata.updated_at = now;
        }
        changed
    }
}

} // verus!

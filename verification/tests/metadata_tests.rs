use sync_backfill::location_metadata::{
    LoadOutcome, LocationMetadataError, MetadataSource, RecoveryMode, SpacedriveLocationMetadata,
    SpacedriveLocationMetadataFile,
};

fn fresh() -> SpacedriveLocationMetadataFile {
    SpacedriveLocationMetadataFile::create(
        11,
        71,
        "/space/.metadata".to_string(),
        "/space".to_string(),
        "Space".to_string(),
        100,
    )
}

#[test]
fn create_records_the_first_library() {
    let f = fresh();
    assert_eq!(f.path, "/space/.metadata".to_string());
    assert!(f.has_library(11));
    assert!(!f.has_library(12));
    assert!(!f.is_empty());
    assert_eq!(f.location_pub_id(11), Ok(71));
    assert_eq!(f.location_path(11), Some(&"/space".to_string()));
    assert_eq!(f.metadata.created_at, 100);
}

#[test]
fn try_load_missing_file_means_no_metadata() {
    let r = SpacedriveLocationMetadataFile::try_load(
        "/space/.metadata".to_string(),
        MetadataSource::Missing,
        RecoveryMode::Strict,
    );
    assert_eq!(r, Ok(LoadOutcome::Absent));
}

#[test]
fn try_load_read_failure_is_an_error() {
    let r = SpacedriveLocationMetadataFile::try_load(
        "/space/.metadata".to_string(),
        MetadataSource::ReadFailed,
        RecoveryMode::Strict,
    );
    assert_eq!(r, Err(LocationMetadataError::Read("/space/.metadata".to_string())));
}

#[test]
fn try_load_parsed_contents_load() {
    let ledger = SpacedriveLocationMetadata { libraries: Vec::new(), created_at: 1, updated_at: 2 };
    let r = SpacedriveLocationMetadataFile::try_load(
        "/space/.metadata".to_string(),
        MetadataSource::Parsed(ledger),
        RecoveryMode::Strict,
    );
    match r {
        Ok(LoadOutcome::Loaded(f)) => {
            assert_eq!(f.path, "/space/.metadata".to_string());
            assert_eq!(f.metadata.created_at, 1);
        }
        other => panic!("unexpected outcome: {:?}", other),
    }
}

#[test]
fn try_load_corrupt_contents_follow_the_recovery_mode() {
    let healed = SpacedriveLocationMetadataFile::try_load(
        "/space/.metadata".to_string(),
        MetadataSource::Corrupt,
        RecoveryMode::SelfHeal,
    );
    assert_eq!(healed, Ok(LoadOutcome::DiscardCorrupt));
    let strict = SpacedriveLocationMetadataFile::try_load(
        "/space/.metadata".to_string(),
        MetadataSource::Corrupt,
        RecoveryMode::Strict,
    );
    assert_eq!(strict, Err(LocationMetadataError::Deserialize("/space/.metadata".to_string())));
}

#[test]
fn add_library_and_remove_library_round_trip() {
    let mut f = fresh();
    f.add_library(12, 72, "/space".to_string(), "Other".to_string(), 200);
    assert!(f.has_library(12));
    assert_eq!(f.location_pub_id(12), Ok(72));
    assert_eq!(f.metadata.updated_at, 200);
    assert_eq!(f.remove_library(12, 300), Ok(()));
    assert!(!f.has_library(12));
    assert_eq!(f.metadata.updated_at, 300);
    assert_eq!(
        f.remove_library(12, 400),
        Err(LocationMetadataError::LibraryNotFound(12))
    );
}

#[test]
fn add_library_replaces_an_existing_entry() {
    let mut f = fresh();
    f.add_library(11, 99, "/elsewhere".to_string(), "Renamed".to_string(), 500);
    assert_eq!(f.location_pub_id(11), Ok(99));
    assert_eq!(f.location_path(11), Some(&"/elsewhere".to_string()));
    assert_eq!(f.metadata.libraries.len(), 1);
}

#[test]
fn removing_the_last_library_empties_the_ledger() {
    let mut f = fresh();
    assert_eq!(f.remove_library(11, 300), Ok(()));
    assert!(f.is_empty());
}

#[test]
fn update_renames_only_the_named_library() {
    let mut f = fresh();
    f.add_library(12, 72, "/space".to_string(), "Other".to_string(), 150);
    assert_eq!(f.update(11, "Renamed".to_string(), 200), Ok(()));
    assert_eq!(f.metadata.libraries[0].1.name, "Renamed".to_string());
    assert_eq!(f.metadata.libraries[0].1.updated_at, 200);
    assert_eq!(f.metadata.libraries[1].1.name, "Other".to_string());
    assert_eq!(
        f.update(13, "Nobody".to_string(), 300),
        Err(LocationMetadataError::LibraryNotFound(13))
    );
}

#[test]
fn relink_rejects_the_same_path() {
    let mut f = fresh();
    assert_eq!(
        f.relink(11, "/space".to_string(), 200),
        Err(LocationMetadataError::RelinkSamePath("/space".to_string()))
    );
    assert_eq!(f.location_path(11), Some(&"/space".to_string()));
}

#[test]
fn relink_moves_the_location() {
    let mut f = fresh();
    assert_eq!(f.relink(11, "/mnt/space".to_string(), 200), Ok(()));
    assert_eq!(f.location_path(11), Some(&"/mnt/space".to_string()));
    assert_eq!(f.metadata.libraries[0].1.updated_at, 200);
    assert_eq!(
        f.relink(13, "/elsewhere".to_string(), 300),
        Err(LocationMetadataError::LibraryNotFound(13))
    );
}

#[test]
fn clean_stale_libraries_prunes_missing_ones() {
    let mut f = fresh();
    f.add_library(12, 72, "/space".to_string(), "Other".to_string(), 150);
    f.add_library(13, 73, "/space".to_string(), "Third".to_string(), 160);
    let changed = f.clean_stale_libraries(&vec![11, 13], 200);
    assert!(changed);
    assert!(f.has_library(11));
    assert!(!f.has_library(12));
    assert!(f.has_library(13));
    assert_eq!(f.metadata.updated_at, 200);
}

#[test]
fn clean_stale_libraries_with_nothing_stale_changes_nothing() {
    let mut f = fresh();
    let changed = f.clean_stale_libraries(&vec![11], 999);
    assert!(!changed);
    assert_eq!(f.metadata.updated_at, 100);
}

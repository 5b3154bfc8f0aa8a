use ota_server::checksum::calculate_file_checksum;
use ota_server::clock::Timestamp;
use ota_server::metadata::ClientKernelInfo;
use ota_server::metadata::KernelInfo;
use ota_server::metadata::VersionHistory;
use ota_server::metadata::VersionResponse;
use ota_server::metadata_manager::CatalogError;
use ota_server::metadata_manager::ImageProbe;
use ota_server::metadata_manager::MetadataManager;
use ota_server::metadata_manager::StoredHistory;

fn at(secs: i64) -> Timestamp {
    Timestamp::new(secs, 0).unwrap()
}

fn entry(version: &str, file: &str, size: u64, description: &str, secs: i64) -> KernelInfo {
    KernelInfo::released_at(
        String::from(version),
        String::from(file),
        size,
        format!("sha256:{:064x}", size),
        String::from(description),
        at(secs),
    )
}

fn manager() -> MetadataManager {
    MetadataManager::new(String::from("./kernels"), String::from("./metadata"))
}

fn found(bytes: &[u8]) -> ImageProbe {
    ImageProbe::Found { file_size: bytes.len() as u64, checksum: calculate_file_checksum(bytes) }
}

#[test]
fn released_at_fills_every_field() {
    let info = KernelInfo::released_at(
        String::from("1.0.0"),
        String::from("zImage"),
        10,
        String::from("sha256:abc"),
        String::from("initial release"),
        at(1_700_000_000),
    );
    assert_eq!(info.version, "1.0.0");
    assert_eq!(info.kernel_file, "zImage");
    assert_eq!(info.file_size, 10);
    assert_eq!(info.checksum, "sha256:abc");
    assert_eq!(info.description, "initial release");
    assert_eq!(info.release_date, at(1_700_000_000));
    assert_eq!(info.download_url, "/kernels/zImage");
}

#[test]
fn new_is_released_now() {
    let before = Timestamp::now().unwrap();
    let info = KernelInfo::new(
        String::from("2.0.0"),
        String::from("bzImage"),
        5,
        String::from("sha256:00"),
        String::from("second"),
    )
    .unwrap();
    let after = Timestamp::now().unwrap();
    assert_eq!(info.version, "2.0.0");
    assert_eq!(info.kernel_file, "bzImage");
    assert_eq!(info.file_size, 5);
    assert_eq!(info.checksum, "sha256:00");
    assert_eq!(info.description, "second");
    assert_eq!(info.download_url, "/kernels/bzImage");
    assert!(before.secs() <= info.release_date.secs());
    assert!(info.release_date.secs() <= after.secs());
}

#[test]
fn client_format_renames_the_version_and_writes_the_date() {
    let info = entry("1.0.0", "zImage", 10, "initial release", 1_700_000_000);
    let client = info.to_client_format();
    assert_eq!(
        client,
        ClientKernelInfo {
            latest_version: String::from("1.0.0"),
            kernel_file: String::from("zImage"),
            file_size: 10,
            checksum: info.checksum.clone(),
            release_date: String::from("2023-11-14T22:13:20+00:00"),
            description: String::from("initial release"),
            download_url: String::from("/kernels/zImage"),
        }
    );
}

#[test]
fn client_format_with_a_given_date_text() {
    let info = entry("1.0.0", "zImage", 10, "initial release", 0);
    let client = info.to_client_format_dated(String::from("some day"));
    assert_eq!(client.latest_version, "1.0.0");
    assert_eq!(client.release_date, "some day");
    assert_eq!(client.download_url, "/kernels/zImage");
    assert_eq!(client.clone(), client);
}

#[test]
fn client_format_keeps_a_stored_download_url() {
    let mut info = entry("1.0.0", "zImage", 10, "initial release", 0);
    info.download_url = String::from("/elsewhere/zImage");
    assert_eq!(info.to_client_format().download_url, "/elsewhere/zImage");
}

#[test]
fn version_response_holds_the_record() {
    let info = entry("1.0.0", "zImage", 10, "initial release", 0);
    let response = VersionResponse { latest_version: info.version.clone(), kernel_info: info.clone() };
    assert_eq!(response.latest_version, "1.0.0");
    assert_eq!(response.kernel_info, info);
}

#[test]
fn new_history_is_empty_with_latest_none() {
    let history = VersionHistory::new();
    assert!(history.versions.is_empty());
    assert_eq!(history.latest, "none");
    assert!(history.is_consistent());
}

#[test]
fn listing_what_was_never_stored_is_empty_and_no_error() {
    let listed = manager().list_versions(StoredHistory::Absent);
    assert_eq!(listed, Ok(VersionHistory { versions: vec![], latest: String::from("none") }));
}

#[test]
fn listing_gives_back_what_is_stored() {
    let mut history = VersionHistory::new();
    history.record(&entry("1.0.0", "zImage", 10, "first", 1));
    history.record(&entry("1.1.0", "zImage2", 20, "second", 2));
    let listed = manager().list_versions(StoredHistory::Parsed(history.clone()));
    assert_eq!(listed, Ok(history));
}

#[test]
fn listing_a_corrupt_history_is_invalid_state() {
    assert_eq!(manager().list_versions(StoredHistory::Corrupt), Err(CatalogError::InvalidState));
}

#[test]
fn listing_an_unreadable_history_is_an_io_failure() {
    assert_eq!(manager().list_versions(StoredHistory::Unreadable), Err(CatalogError::IoFailure));
}

#[test]
fn two_versions_are_both_kept_and_the_second_is_latest() {
    let first = entry("1.0.0", "zImage", 10, "first", 1);
    let second = entry("0.9.0", "zImage-old", 20, "older number, newer ingestion", 2);
    let mut history = VersionHistory::new();
    history.record(&first);
    history.record(&second);
    assert_eq!(history.versions.len(), 2);
    assert_eq!(history.find("1.0.0"), Some(&first));
    assert_eq!(history.find("0.9.0"), Some(&second));
    assert_eq!(history.latest, "0.9.0");
    assert_eq!(history.versions, vec![first, second]);
    assert!(history.is_consistent());
}

#[test]
fn the_same_version_twice_leaves_one_entry_with_the_later_attributes() {
    let first = entry("1.0.0", "zImage", 10, "first try", 1);
    let second = entry("1.0.0", "zImage-fixed", 12, "second try", 2);
    let mut history = VersionHistory::new();
    history.record(&first);
    history.record(&second);
    assert_eq!(history.versions.len(), 1);
    assert_eq!(history.versions[0], second);
    assert_eq!(history.versions[0].description, "second try");
    assert_eq!(history.versions[0].release_date, at(2));
    assert_eq!(history.latest, "1.0.0");
    assert_eq!(history.versions.iter().filter(|v| v.version == "1.0.0").count(), 1);
}

#[test]
fn a_replaced_entry_keeps_its_place() {
    let mut history = VersionHistory::new();
    history.record(&entry("a", "fa", 1, "", 1));
    history.record(&entry("b", "fb", 2, "", 2));
    history.record(&entry("c", "fc", 3, "", 3));
    let again = entry("b", "fb2", 22, "again", 4);
    history.record(&again);
    let order: Vec<&str> = history.versions.iter().map(|v| v.version.as_str()).collect();
    assert_eq!(order, vec!["a", "b", "c"]);
    assert_eq!(history.versions[1], again);
    assert_eq!(history.latest, "b");
    assert_eq!(history.position("b"), Some(1));
    assert_eq!(history.position("c"), Some(2));
    assert_eq!(history.position("d"), None);
    assert_eq!(history.find("d"), None);
}

#[test]
fn only_the_first_of_two_equal_versions_is_replaced() {
    let old_a = entry("a", "f1", 1, "", 1);
    let old_b = entry("a", "f2", 2, "", 2);
    let mut history =
        VersionHistory { versions: vec![old_a, old_b.clone()], latest: String::from("a") };
    assert!(!history.is_consistent());
    let new = entry("a", "f3", 3, "", 3);
    history.record(&new);
    assert_eq!(history.versions, vec![new, old_b]);
}

#[test]
fn consistency_asks_for_a_known_latest() {
    let one = entry("1.0.0", "zImage", 10, "", 1);
    let good = VersionHistory { versions: vec![one.clone()], latest: String::from("1.0.0") };
    assert!(good.is_consistent());
    let sentinel = VersionHistory { versions: vec![one.clone()], latest: String::from("none") };
    assert!(sentinel.is_consistent());
    let dangling = VersionHistory { versions: vec![one], latest: String::from("2.0.0") };
    assert!(!dangling.is_consistent());
    let empty_named = VersionHistory { versions: vec![], latest: String::from("1.0.0") };
    assert!(!empty_named.is_consistent());
}

#[test]
fn history_clones_equal() {
    let mut history = VersionHistory::new();
    history.record(&entry("a", "fa", 1, "x", 1));
    history.record(&entry("b", "fb", 2, "y", 2));
    assert_eq!(history.clone(), history);
}

#[test]
fn ingesting_a_missing_image_is_not_found_and_changes_nothing() {
    let result = manager().add_kernel(
        String::from("1.0.0"),
        String::from("zImage"),
        String::from("initial release"),
        ImageProbe::Missing,
        StoredHistory::Absent,
    );
    assert_eq!(result, Err(CatalogError::NotFound(String::from("zImage"))));
    assert_eq!(result.unwrap_err().message(), "Kernel file not found: zImage");
}

#[test]
fn ingesting_under_a_name_outside_the_directory_is_not_found() {
    let result = manager().add_kernel(
        String::from("1.0.0"),
        String::from("../zImage"),
        String::from("escape"),
        found(b"0123456789"),
        StoredHistory::Absent,
    );
    assert_eq!(result, Err(CatalogError::NotFound(String::from("../zImage"))));
}

#[test]
fn ingesting_an_unreadable_image_is_an_io_failure() {
    let result = manager().add_kernel(
        String::from("1.0.0"),
        String::from("zImage"),
        String::from("x"),
        ImageProbe::Unreadable,
        StoredHistory::Absent,
    );
    assert_eq!(result, Err(CatalogError::IoFailure));
}

#[test]
fn ingesting_over_an_unreadable_history_is_an_io_failure() {
    let result = manager().add_kernel(
        String::from("1.0.0"),
        String::from("zImage"),
        String::from("x"),
        found(b"0123456789"),
        StoredHistory::Unreadable,
    );
    assert_eq!(result, Err(CatalogError::IoFailure));
}

#[test]
fn a_missing_image_comes_before_an_unreadable_history() {
    let result = manager().add_kernel(
        String::from("1.0.0"),
        String::from("zImage"),
        String::from("x"),
        ImageProbe::Missing,
        StoredHistory::Unreadable,
    );
    assert_eq!(result, Err(CatalogError::NotFound(String::from("zImage"))));
}

#[test]
fn ingesting_over_a_corrupt_history_is_invalid_state() {
    let at_a_time = manager().add_kernel_at(
        String::from("1.0.0"),
        String::from("zImage"),
        String::from("x"),
        found(b"0123456789"),
        StoredHistory::Corrupt,
        at(5),
    );
    assert_eq!(at_a_time, Err(CatalogError::InvalidState));
    let now = manager().add_kernel(
        String::from("1.0.0"),
        String::from("zImage"),
        String::from("x"),
        found(b"0123456789"),
        StoredHistory::Corrupt,
    );
    assert_eq!(now, Err(CatalogError::InvalidState));
}

#[test]
fn a_missing_image_comes_before_a_corrupt_history() {
    let result = manager().add_kernel(
        String::from("1.0.0"),
        String::from("zImage"),
        String::from("x"),
        ImageProbe::Missing,
        StoredHistory::Corrupt,
    );
    assert_eq!(result, Err(CatalogError::NotFound(String::from("zImage"))));
}

#[test]
fn ingestion_with_a_time_is_the_ingestion_at_that_time() {
    let with = manager().add_kernel_with(
        String::from("1.0.0"),
        String::from("zImage"),
        String::from("x"),
        found(b"0123456789"),
        StoredHistory::Absent,
        Some(at(7)),
    );
    let at_seven = manager().add_kernel_at(
        String::from("1.0.0"),
        String::from("zImage"),
        String::from("x"),
        found(b"0123456789"),
        StoredHistory::Absent,
        at(7),
    );
    assert!(with.is_ok());
    assert_eq!(with, at_seven);
}

#[test]
fn ingestion_without_a_time_is_an_io_failure() {
    let result = manager().add_kernel_with(
        String::from("1.0.0"),
        String::from("zImage"),
        String::from("x"),
        found(b"0123456789"),
        StoredHistory::Absent,
        None,
    );
    assert_eq!(result, Err(CatalogError::IoFailure));
    let mut stored = VersionHistory::new();
    stored.record(&entry("0.1.0", "old", 3, "old", 1));
    let result = manager().add_kernel_with(
        String::from("1.0.0"),
        String::from("zImage"),
        String::from("x"),
        found(b"0123456789"),
        StoredHistory::Parsed(stored),
        None,
    );
    assert_eq!(result, Err(CatalogError::IoFailure));
}

#[test]
fn ingestion_without_a_time_still_names_what_else_is_wrong() {
    let m = manager();
    let missing = m.add_kernel_with(
        String::from("1.0.0"),
        String::from("zImage"),
        String::from("x"),
        ImageProbe::Missing,
        StoredHistory::Absent,
        None,
    );
    assert_eq!(missing, Err(CatalogError::NotFound(String::from("zImage"))));
    let outside = m.add_kernel_with(
        String::from("1.0.0"),
        String::from("../zImage"),
        String::from("x"),
        found(b"0123456789"),
        StoredHistory::Absent,
        None,
    );
    assert_eq!(outside, Err(CatalogError::NotFound(String::from("../zImage"))));
    let unreadable = m.add_kernel_with(
        String::from("1.0.0"),
        String::from("zImage"),
        String::from("x"),
        ImageProbe::Unreadable,
        StoredHistory::Absent,
        None,
    );
    assert_eq!(unreadable, Err(CatalogError::IoFailure));
    let corrupt = m.add_kernel_with(
        String::from("1.0.0"),
        String::from("zImage"),
        String::from("x"),
        found(b"0123456789"),
        StoredHistory::Corrupt,
        None,
    );
    assert_eq!(corrupt, Err(CatalogError::InvalidState));
}

#[test]
fn ingestion_at_a_given_time_is_exact() {
    let mut stored = VersionHistory::new();
    stored.record(&entry("0.1.0", "old", 3, "old", 1));
    let update = manager()
        .add_kernel_at(
            String::from("1.0.0"),
            String::from("zImage"),
            String::from("initial release"),
            ImageProbe::Found { file_size: 10, checksum: String::from("sha256:ff") },
            StoredHistory::Parsed(stored.clone()),
            at(1_700_000_000),
        )
        .unwrap();
    let expected = KernelInfo {
        version: String::from("1.0.0"),
        kernel_file: String::from("zImage"),
        file_size: 10,
        checksum: String::from("sha256:ff"),
        release_date: at(1_700_000_000),
        description: String::from("initial release"),
        download_url: String::from("/kernels/zImage"),
    };
    assert_eq!(update.latest, expected);
    assert_eq!(update.history.latest, "1.0.0");
    assert_eq!(update.history.versions, vec![stored.versions[0].clone(), expected]);
}

#[test]
fn ingesting_two_versions_through_the_manager() {
    let m = manager();
    let first = m
        .add_kernel(
            String::from("1.0.0"),
            String::from("zImage"),
            String::from("one"),
            found(b"first image"),
            StoredHistory::Absent,
        )
        .unwrap();
    let second = m
        .add_kernel(
            String::from("1.1.0"),
            String::from("zImage-1.1"),
            String::from("two"),
            found(b"second image"),
            StoredHistory::Parsed(first.history.clone()),
        )
        .unwrap();
    assert_eq!(second.history.latest, "1.1.0");
    assert_eq!(second.history.find("1.0.0"), Some(&first.latest));
    assert_eq!(second.history.find("1.1.0"), Some(&second.latest));
    assert_eq!(second.history.versions.len(), 2);
}

#[test]
fn reingesting_a_version_with_another_description() {
    let m = manager();
    let first = m
        .add_kernel(
            String::from("1.0.0"),
            String::from("zImage"),
            String::from("one"),
            found(b"image"),
            StoredHistory::Absent,
        )
        .unwrap();
    let second = m
        .add_kernel(
            String::from("1.0.0"),
            String::from("zImage"),
            String::from("one, described again"),
            found(b"image"),
            StoredHistory::Parsed(first.history),
        )
        .unwrap();
    assert_eq!(second.history.versions.len(), 1);
    assert_eq!(second.history.versions[0].description, "one, described again");
    assert_eq!(second.history.versions[0], second.latest);
    assert_eq!(second.history.latest, "1.0.0");
}

#[test]
fn update_history_records_in_what_is_stored() {
    let m = manager();
    let info = entry("3.0.0", "k3", 30, "three", 3);
    let fresh = m.update_history(StoredHistory::Absent, &info).unwrap();
    assert_eq!(fresh.versions, vec![info.clone()]);
    assert_eq!(fresh.latest, "3.0.0");
    assert_eq!(m.update_history(StoredHistory::Corrupt, &info), Err(CatalogError::InvalidState));
    assert_eq!(m.update_history(StoredHistory::Unreadable, &info), Err(CatalogError::IoFailure));
    let next = entry("4.0.0", "k4", 40, "four", 4);
    let grown = m.update_history(StoredHistory::Parsed(fresh), &next).unwrap();
    assert_eq!(grown.versions, vec![info, next]);
    assert_eq!(grown.latest, "4.0.0");
}

#[test]
fn error_messages() {
    assert_eq!(
        CatalogError::NotFound(String::from("zImage")).message(),
        "Kernel file not found: zImage"
    );
    assert_eq!(CatalogError::InvalidState.message(), "Stored metadata is invalid");
    assert_eq!(CatalogError::IoFailure.message(), "Reading or writing failed");
}

#[test]
fn manager_paths() {
    let m = MetadataManager::new(String::from("/srv/kernels"), String::from("/srv/meta/"));
    assert_eq!(m.kernel_path("zImage"), Some(String::from("/srv/kernels/zImage")));
    assert_eq!(m.kernel_path("../meta/latest.json"), None);
    assert_eq!(m.latest_path(), "/srv/meta/latest.json");
    assert_eq!(m.history_path(), "/srv/meta/version-history.json");
    assert_eq!(m.paths().kernels_dir, "/srv/kernels");
    assert_eq!(m.paths().metadata_dir, "/srv/meta/");
    assert_eq!(m, MetadataManager::new(String::from("/srv/kernels"), String::from("/srv/meta/")));
}

#[test]
fn an_ingestion_succeeds_only_with_both_records_written() {
    let m = manager();
    assert_eq!(m.store_outcome(true, true), Ok(()));
    assert_eq!(m.store_outcome(false, false), Err(CatalogError::IoFailure));
    assert_eq!(m.store_outcome(true, false), Err(CatalogError::InvalidState));
    assert_eq!(m.store_outcome(false, true), Err(CatalogError::InvalidState));
}

#[test]
fn probe_of_an_image_read_whole() {
    assert_eq!(
        ImageProbe::from_contents(b"0123456789"),
        ImageProbe::Found {
            file_size: 10,
            checksum: String::from(
                "sha256:84d89877f0d4041efb6bf91a16f0248f2fd573e6af05c19f96bedb9f882f7882"
            ),
        }
    );
    assert_eq!(
        ImageProbe::from_contents(b""),
        ImageProbe::Found {
            file_size: 0,
            checksum: String::from(
                "sha256:e3b0c44298fc1c149afbf4c8996fb92427ae41e4649b934ca495991b7852b855"
            ),
        }
    );
}

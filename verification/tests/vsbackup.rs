use volume_shadow_copy::vsbackup::{
    delete_snapshots, get_file_counts, get_version, writer_failure, DeleteSnapshotsInfo,
    GetFileCountsInfo, VersionInfo,
};
use volume_shadow_copy::S_OK;

#[test]
fn file_counts_come_with_success_only() {
    assert_eq!(
        get_file_counts(S_OK, 3, 12),
        Ok(GetFileCountsInfo { excluded_files: 3, total_components: 12 })
    );
    assert_eq!(get_file_counts(-2147024809, 3, 12), Err(-2147024809));
    assert_eq!(get_file_counts(1, 0, 0), Err(1));
}

#[test]
fn version_comes_with_success_only() {
    assert_eq!(get_version(S_OK, 10, 2), Ok(VersionInfo { major: 10, minor: 2 }));
    assert_eq!(get_version(-1, 10, 2), Err(-1));
}

#[test]
fn delete_snapshots_reports_the_culprit_only_on_failure() {
    assert_eq!(
        delete_snapshots(S_OK, 4, 0xABCD),
        DeleteSnapshotsInfo { deleted_snapshots: 4, nondeleted_snapshot_id: None, error: None }
    );
    assert_eq!(
        delete_snapshots(-2147212536, 1, 0xABCD),
        DeleteSnapshotsInfo {
            deleted_snapshots: 1,
            nondeleted_snapshot_id: Some(0xABCD),
            error: Some(-2147212536),
        }
    );
}

#[test]
fn deleted_count_is_read_as_unsigned() {
    assert_eq!(delete_snapshots(S_OK, 0, 0).deleted_snapshots, 0);
    assert_eq!(delete_snapshots(S_OK, i32::MAX, 0).deleted_snapshots, 0x7FFF_FFFF);
    assert_eq!(delete_snapshots(S_OK, -1, 0).deleted_snapshots, 0xFFFF_FFFF);
    assert_eq!(delete_snapshots(S_OK, i32::MIN, 0).deleted_snapshots, 0x8000_0000);
    assert_eq!(delete_snapshots(S_OK, -2, 0).deleted_snapshots, (-2i32) as u32);
}

#[test]
fn writer_failure_is_none_for_a_writer_that_is_well() {
    assert_eq!(writer_failure(S_OK), None);
    assert_eq!(writer_failure(-2147212300), Some(-2147212300));
    assert_eq!(writer_failure(1), Some(1));
}

use volume_shadow_copy::vss::{
    ObjectUnionKind, BackupType, ObjectType, ProviderType, RestoreType, RollForwardType, SnapshotContext, SnapshotState, WriterState,
};
use volume_shadow_copy::vswriter::{
    FileRestoreStatus, RestoreMethod, SourceType, UsageType, VssComponentType, WriterRestore,
};

#[test]
fn snapshot_context_reads_and_writes_its_foreign_values() {
    assert_eq!(SnapshotContext::try_from(0), Ok(SnapshotContext::Backup));
    assert_eq!(u32::from(SnapshotContext::Backup), 0);
    assert_eq!(SnapshotContext::try_from(0x10), Ok(SnapshotContext::FileShareBackup));
    assert_eq!(u32::from(SnapshotContext::FileShareBackup), 0x10);
    assert_eq!(SnapshotContext::try_from(0x19), Ok(SnapshotContext::NasRollback));
    assert_eq!(u32::from(SnapshotContext::NasRollback), 0x19);
    assert_eq!(SnapshotContext::try_from(9), Ok(SnapshotContext::AppRollback));
    assert_eq!(u32::from(SnapshotContext::AppRollback), 9);
    assert_eq!(SnapshotContext::try_from(0x1d), Ok(SnapshotContext::ClientAccessible));
    assert_eq!(u32::from(SnapshotContext::ClientAccessible), 0x1d);
    assert_eq!(SnapshotContext::try_from(0xd), Ok(SnapshotContext::ClientAccessibleWriters));
    assert_eq!(u32::from(SnapshotContext::ClientAccessibleWriters), 0xd);
    assert_eq!(SnapshotContext::try_from(0xffffffff), Ok(SnapshotContext::All));
    assert_eq!(u32::from(SnapshotContext::All), 0xffffffff);
    assert_eq!(SnapshotContext::try_from(0x1e), Err(()));
    assert_eq!(SnapshotContext::try_from(0x7ffffff0), Err(()));
    assert_eq!(SnapshotContext::try_from(0xfffffffe), Err(()));
    assert_eq!(SnapshotContext::default(), SnapshotContext::Backup);
}

#[test]
fn backup_type_reads_and_writes_its_foreign_values() {
    assert_eq!(BackupType::from(0), BackupType::Undefined);
    assert_eq!(u32::from(BackupType::Undefined), 0);
    assert_eq!(BackupType::from(1), BackupType::Full);
    assert_eq!(u32::from(BackupType::Full), 1);
    assert_eq!(BackupType::from(2), BackupType::Incremental);
    assert_eq!(u32::from(BackupType::Incremental), 2);
    assert_eq!(BackupType::from(3), BackupType::Differential);
    assert_eq!(u32::from(BackupType::Differential), 3);
    assert_eq!(BackupType::from(4), BackupType::Log);
    assert_eq!(u32::from(BackupType::Log), 4);
    assert_eq!(BackupType::from(5), BackupType::Copy);
    assert_eq!(u32::from(BackupType::Copy), 5);
    assert_eq!(BackupType::from(6), BackupType::Other);
    assert_eq!(u32::from(BackupType::Other), 6);
    assert_eq!(BackupType::from(0x7), BackupType::Undefined);
    assert_eq!(BackupType::from(0x7ffffff0), BackupType::Undefined);
    assert_eq!(BackupType::from(0xfffffffe), BackupType::Undefined);
}

#[test]
fn object_type_reads_and_writes_its_foreign_values() {
    assert_eq!(ObjectType::from(0), ObjectType::Unknown);
    assert_eq!(u32::from(ObjectType::Unknown), 0);
    assert_eq!(ObjectType::from(1), ObjectType::NoObject);
    assert_eq!(u32::from(ObjectType::NoObject), 1);
    assert_eq!(ObjectType::from(2), ObjectType::SnapshotSet);
    assert_eq!(u32::from(ObjectType::SnapshotSet), 2);
    assert_eq!(ObjectType::from(3), ObjectType::Snapshot);
    assert_eq!(u32::from(ObjectType::Snapshot), 3);
    assert_eq!(ObjectType::from(4), ObjectType::Provider);
    assert_eq!(u32::from(ObjectType::Provider), 4);
    assert_eq!(ObjectType::from(5), ObjectType::TypeCount);
    assert_eq!(u32::from(ObjectType::TypeCount), 5);
    assert_eq!(ObjectType::from(0x6), ObjectType::Unknown);
    assert_eq!(ObjectType::from(0x7ffffff0), ObjectType::Unknown);
    assert_eq!(ObjectType::from(0xfffffffe), ObjectType::Unknown);
}

#[test]
fn writer_state_reads_and_writes_its_foreign_values() {
    assert_eq!(WriterState::from(0), WriterState::Unknown);
    assert_eq!(u32::from(WriterState::Unknown), 0);
    assert_eq!(WriterState::from(1), WriterState::Stable);
    assert_eq!(u32::from(WriterState::Stable), 1);
    assert_eq!(WriterState::from(2), WriterState::WaitingForFreeze);
    assert_eq!(u32::from(WriterState::WaitingForFreeze), 2);
    assert_eq!(WriterState::from(3), WriterState::WaitingForThaw);
    assert_eq!(u32::from(WriterState::WaitingForThaw), 3);
    assert_eq!(WriterState::from(4), WriterState::WaitingForPostSnapshot);
    assert_eq!(u32::from(WriterState::WaitingForPostSnapshot), 4);
    assert_eq!(WriterState::from(5), WriterState::WaitingForBackupComplete);
    assert_eq!(u32::from(WriterState::WaitingForBackupComplete), 5);
    assert_eq!(WriterState::from(6), WriterState::FailedAtIdentify);
    assert_eq!(u32::from(WriterState::FailedAtIdentify), 6);
    assert_eq!(WriterState::from(7), WriterState::FailedAtPrepareBackup);
    assert_eq!(u32::from(WriterState::FailedAtPrepareBackup), 7);
    assert_eq!(WriterState::from(8), WriterState::FailedAtPrepareSnapshot);
    assert_eq!(u32::from(WriterState::FailedAtPrepareSnapshot), 8);
    assert_eq!(WriterState::from(9), WriterState::FailedAtFreeze);
    assert_eq!(u32::from(WriterState::FailedAtFreeze), 9);
    assert_eq!(WriterState::from(0xa), WriterState::FailedAtThaw);
    assert_eq!(u32::from(WriterState::FailedAtThaw), 0xa);
    assert_eq!(WriterState::from(0xb), WriterState::FailedAtPostSnapshot);
    assert_eq!(u32::from(WriterState::FailedAtPostSnapshot), 0xb);
    assert_eq!(WriterState::from(0xc), WriterState::FailedAtBackupComplete);
    assert_eq!(u32::from(WriterState::FailedAtBackupComplete), 0xc);
    assert_eq!(WriterState::from(0xd), WriterState::FailedAtPreRestore);
    assert_eq!(u32::from(WriterState::FailedAtPreRestore), 0xd);
    assert_eq!(WriterState::from(0xe), WriterState::FailedAtPostRestore);
    assert_eq!(u32::from(WriterState::FailedAtPostRestore), 0xe);
    assert_eq!(WriterState::from(0xf), WriterState::FailedAtBackupShutdown);
    assert_eq!(u32::from(WriterState::FailedAtBackupShutdown), 0xf);
    assert_eq!(WriterState::from(0x10), WriterState::COUNT);
    assert_eq!(u32::from(WriterState::COUNT), 0x10);
    assert_eq!(WriterState::from(0x11), WriterState::Unknown);
    assert_eq!(WriterState::from(0x7ffffff0), WriterState::Unknown);
    assert_eq!(WriterState::from(0xfffffffe), WriterState::Unknown);
}

#[test]
fn roll_forward_type_reads_and_writes_its_foreign_values() {
    assert_eq!(RollForwardType::from(0), RollForwardType::Undefined);
    assert_eq!(u32::from(RollForwardType::Undefined), 0);
    assert_eq!(RollForwardType::from(1), RollForwardType::NoRollForward);
    assert_eq!(u32::from(RollForwardType::NoRollForward), 1);
    assert_eq!(RollForwardType::from(2), RollForwardType::All);
    assert_eq!(u32::from(RollForwardType::All), 2);
    assert_eq!(RollForwardType::from(3), RollForwardType::Partial);
    assert_eq!(u32::from(RollForwardType::Partial), 3);
    assert_eq!(RollForwardType::from(0x4), RollForwardType::Undefined);
    assert_eq!(RollForwardType::from(0x7ffffff0), RollForwardType::Undefined);
    assert_eq!(RollForwardType::from(0xfffffffe), RollForwardType::Undefined);
}

#[test]
fn provider_type_reads_and_writes_its_foreign_values() {
    assert_eq!(ProviderType::from(0), ProviderType::Unknown);
    assert_eq!(u32::from(ProviderType::Unknown), 0);
    assert_eq!(ProviderType::from(1), ProviderType::System);
    assert_eq!(u32::from(ProviderType::System), 1);
    assert_eq!(ProviderType::from(2), ProviderType::Software);
    assert_eq!(u32::from(ProviderType::Software), 2);
    assert_eq!(ProviderType::from(3), ProviderType::Hardware);
    assert_eq!(u32::from(ProviderType::Hardware), 3);
    assert_eq!(ProviderType::from(4), ProviderType::FileShare);
    assert_eq!(u32::from(ProviderType::FileShare), 4);
    assert_eq!(ProviderType::from(0x5), ProviderType::Unknown);
    assert_eq!(ProviderType::from(0x7ffffff0), ProviderType::Unknown);
    assert_eq!(ProviderType::from(0xfffffffe), ProviderType::Unknown);
}

#[test]
fn snapshot_state_reads_and_writes_its_foreign_values() {
    assert_eq!(SnapshotState::from(0), SnapshotState::Unknown);
    assert_eq!(u32::from(SnapshotState::Unknown), 0);
    assert_eq!(SnapshotState::from(1), SnapshotState::Preparing);
    assert_eq!(u32::from(SnapshotState::Preparing), 1);
    assert_eq!(SnapshotState::from(2), SnapshotState::ProcessingPrepare);
    assert_eq!(u32::from(SnapshotState::ProcessingPrepare), 2);
    assert_eq!(SnapshotState::from(3), SnapshotState::Prepared);
    assert_eq!(u32::from(SnapshotState::Prepared), 3);
    assert_eq!(SnapshotState::from(4), SnapshotState::ProcessingPreCommit);
    assert_eq!(u32::from(SnapshotState::ProcessingPreCommit), 4);
    assert_eq!(SnapshotState::from(5), SnapshotState::PreCommitted);
    assert_eq!(u32::from(SnapshotState::PreCommitted), 5);
    assert_eq!(SnapshotState::from(6), SnapshotState::ProcessingCommit);
    assert_eq!(u32::from(SnapshotState::ProcessingCommit), 6);
    assert_eq!(SnapshotState::from(7), SnapshotState::Committed);
    assert_eq!(u32::from(SnapshotState::Committed), 7);
    assert_eq!(SnapshotState::from(8), SnapshotState::ProcessingPostCommit);
    assert_eq!(u32::from(SnapshotState::ProcessingPostCommit), 8);
    assert_eq!(SnapshotState::from(9), SnapshotState::ProcessingPreFinalCommit);
    assert_eq!(u32::from(SnapshotState::ProcessingPreFinalCommit), 9);
    assert_eq!(SnapshotState::from(0xa), SnapshotState::PreFinalCommitted);
    assert_eq!(u32::from(SnapshotState::PreFinalCommitted), 0xa);
    assert_eq!(SnapshotState::from(0xb), SnapshotState::ProcessingPostFinalCommit);
    assert_eq!(u32::from(SnapshotState::ProcessingPostFinalCommit), 0xb);
    assert_eq!(SnapshotState::from(0xc), SnapshotState::Created);
    assert_eq!(u32::from(SnapshotState::Created), 0xc);
    assert_eq!(SnapshotState::from(0xd), SnapshotState::Aborted);
    assert_eq!(u32::from(SnapshotState::Aborted), 0xd);
    assert_eq!(SnapshotState::from(0xe), SnapshotState::Deleted);
    assert_eq!(u32::from(SnapshotState::Deleted), 0xe);
    assert_eq!(SnapshotState::from(0xf), SnapshotState::PostCommitted);
    assert_eq!(u32::from(SnapshotState::PostCommitted), 0xf);
    assert_eq!(SnapshotState::from(0x10), SnapshotState::Count);
    assert_eq!(u32::from(SnapshotState::Count), 0x10);
    assert_eq!(SnapshotState::from(0x11), SnapshotState::Unknown);
    assert_eq!(SnapshotState::from(0x7ffffff0), SnapshotState::Unknown);
    assert_eq!(SnapshotState::from(0xfffffffe), SnapshotState::Unknown);
}

#[test]
fn restore_type_reads_and_writes_its_foreign_values() {
    assert_eq!(RestoreType::from(0), RestoreType::Undefined);
    assert_eq!(u32::from(RestoreType::Undefined), 0);
    assert_eq!(RestoreType::from(1), RestoreType::ByCopy);
    assert_eq!(u32::from(RestoreType::ByCopy), 1);
    assert_eq!(RestoreType::from(2), RestoreType::Import);
    assert_eq!(u32::from(RestoreType::Import), 2);
    assert_eq!(RestoreType::from(3), RestoreType::Other);
    assert_eq!(u32::from(RestoreType::Other), 3);
    assert_eq!(RestoreType::from(0x4), RestoreType::Undefined);
    assert_eq!(RestoreType::from(0x7ffffff0), RestoreType::Undefined);
    assert_eq!(RestoreType::from(0xfffffffe), RestoreType::Undefined);
    assert_eq!(RestoreType::default(), RestoreType::Undefined);
}

#[test]
fn vss_component_type_reads_and_writes_its_foreign_values() {
    assert_eq!(VssComponentType::from(0), VssComponentType::Undefined);
    assert_eq!(u32::from(VssComponentType::Undefined), 0);
    assert_eq!(VssComponentType::from(1), VssComponentType::Database);
    assert_eq!(u32::from(VssComponentType::Database), 1);
    assert_eq!(VssComponentType::from(2), VssComponentType::FileGroup);
    assert_eq!(u32::from(VssComponentType::FileGroup), 2);
    assert_eq!(VssComponentType::from(0x3), VssComponentType::Undefined);
    assert_eq!(VssComponentType::from(0x7ffffff0), VssComponentType::Undefined);
    assert_eq!(VssComponentType::from(0xfffffffe), VssComponentType::Undefined);
}

#[test]
fn file_restore_status_reads_and_writes_its_foreign_values() {
    assert_eq!(FileRestoreStatus::from(0), FileRestoreStatus::Undefined);
    assert_eq!(u32::from(FileRestoreStatus::Undefined), 0);
    assert_eq!(FileRestoreStatus::from(1), FileRestoreStatus::NotRestored);
    assert_eq!(u32::from(FileRestoreStatus::NotRestored), 1);
    assert_eq!(FileRestoreStatus::from(2), FileRestoreStatus::All);
    assert_eq!(u32::from(FileRestoreStatus::All), 2);
    assert_eq!(FileRestoreStatus::from(3), FileRestoreStatus::Failed);
    assert_eq!(u32::from(FileRestoreStatus::Failed), 3);
    assert_eq!(FileRestoreStatus::from(0x4), FileRestoreStatus::Undefined);
    assert_eq!(FileRestoreStatus::from(0x7ffffff0), FileRestoreStatus::Undefined);
    assert_eq!(FileRestoreStatus::from(0xfffffffe), FileRestoreStatus::Undefined);
}

#[test]
fn usage_type_reads_and_writes_its_foreign_values() {
    assert_eq!(UsageType::from(0), UsageType::Undefined);
    assert_eq!(u32::from(UsageType::Undefined), 0);
    assert_eq!(UsageType::from(1), UsageType::BootableSystemState);
    assert_eq!(u32::from(UsageType::BootableSystemState), 1);
    assert_eq!(UsageType::from(2), UsageType::SystemService);
    assert_eq!(u32::from(UsageType::SystemService), 2);
    assert_eq!(UsageType::from(3), UsageType::UserData);
    assert_eq!(u32::from(UsageType::UserData), 3);
    assert_eq!(UsageType::from(4), UsageType::Other);
    assert_eq!(u32::from(UsageType::Other), 4);
    assert_eq!(UsageType::from(0x5), UsageType::Undefined);
    assert_eq!(UsageType::from(0x7ffffff0), UsageType::Undefined);
    assert_eq!(UsageType::from(0xfffffffe), UsageType::Undefined);
}

#[test]
fn source_type_reads_and_writes_its_foreign_values() {
    assert_eq!(SourceType::from(0), SourceType::Undefined);
    assert_eq!(u32::from(SourceType::Undefined), 0);
    assert_eq!(SourceType::from(1), SourceType::TransactedDb);
    assert_eq!(u32::from(SourceType::TransactedDb), 1);
    assert_eq!(SourceType::from(2), SourceType::NonTransactedDb);
    assert_eq!(u32::from(SourceType::NonTransactedDb), 2);
    assert_eq!(SourceType::from(3), SourceType::Other);
    assert_eq!(u32::from(SourceType::Other), 3);
    assert_eq!(SourceType::from(0x4), SourceType::Undefined);
    assert_eq!(SourceType::from(0x7ffffff0), SourceType::Undefined);
    assert_eq!(SourceType::from(0xfffffffe), SourceType::Undefined);
}

#[test]
fn restore_method_reads_and_writes_its_foreign_values() {
    assert_eq!(RestoreMethod::from(0), RestoreMethod::Undefined);
    assert_eq!(u32::from(RestoreMethod::Undefined), 0);
    assert_eq!(RestoreMethod::from(1), RestoreMethod::RestoreIfNotThere);
    assert_eq!(u32::from(RestoreMethod::RestoreIfNotThere), 1);
    assert_eq!(RestoreMethod::from(2), RestoreMethod::RestoreIfCanReplace);
    assert_eq!(u32::from(RestoreMethod::RestoreIfCanReplace), 2);
    assert_eq!(RestoreMethod::from(3), RestoreMethod::StopRestoreStart);
    assert_eq!(u32::from(RestoreMethod::StopRestoreStart), 3);
    assert_eq!(RestoreMethod::from(4), RestoreMethod::RestoreToAlternateLocation);
    assert_eq!(u32::from(RestoreMethod::RestoreToAlternateLocation), 4);
    assert_eq!(RestoreMethod::from(5), RestoreMethod::RestoreAtReboot);
    assert_eq!(u32::from(RestoreMethod::RestoreAtReboot), 5);
    assert_eq!(RestoreMethod::from(6), RestoreMethod::RestoreAtRebootIfCannotReplace);
    assert_eq!(u32::from(RestoreMethod::RestoreAtRebootIfCannotReplace), 6);
    assert_eq!(RestoreMethod::from(7), RestoreMethod::Custom);
    assert_eq!(u32::from(RestoreMethod::Custom), 7);
    assert_eq!(RestoreMethod::from(8), RestoreMethod::RestoreStopStart);
    assert_eq!(u32::from(RestoreMethod::RestoreStopStart), 8);
    assert_eq!(RestoreMethod::from(0x9), RestoreMethod::Undefined);
    assert_eq!(RestoreMethod::from(0x7ffffff0), RestoreMethod::Undefined);
    assert_eq!(RestoreMethod::from(0xfffffffe), RestoreMethod::Undefined);
}

#[test]
fn writer_restore_reads_and_writes_its_foreign_values() {
    assert_eq!(WriterRestore::from(0), WriterRestore::Undefined);
    assert_eq!(u32::from(WriterRestore::Undefined), 0);
    assert_eq!(WriterRestore::from(1), WriterRestore::Never);
    assert_eq!(u32::from(WriterRestore::Never), 1);
    assert_eq!(WriterRestore::from(2), WriterRestore::IfReplaceFails);
    assert_eq!(u32::from(WriterRestore::IfReplaceFails), 2);
    assert_eq!(WriterRestore::from(3), WriterRestore::Always);
    assert_eq!(u32::from(WriterRestore::Always), 3);
    assert_eq!(WriterRestore::from(0x4), WriterRestore::Undefined);
    assert_eq!(WriterRestore::from(0x7ffffff0), WriterRestore::Undefined);
    assert_eq!(WriterRestore::from(0xfffffffe), WriterRestore::Undefined);
}

#[test]
fn object_type_selects_the_union_member() {
    assert_eq!(ObjectType::Snapshot.union_member(), Some(ObjectUnionKind::Snapshot));
    assert_eq!(ObjectType::Provider.union_member(), Some(ObjectUnionKind::Provider));
    assert_eq!(ObjectType::Unknown.union_member(), None);
    assert_eq!(ObjectType::NoObject.union_member(), None);
    assert_eq!(ObjectType::SnapshotSet.union_member(), None);
    assert_eq!(ObjectType::TypeCount.union_member(), None);
}

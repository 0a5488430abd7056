//! What the requester's calls bring back: the values that a foreign call
//! wrote, read in the light of the status code it returned.

use crate::{HRESULT, S_OK};
use vstd::prelude::*;

verus! {

/// A 128-bit identifier of a shadow copy, a shadow copy set, a writer or a
/// provider.
#[allow(non_camel_case_types)]
pub type VSS_ID = u128;

/// The counts that `GetFileCounts` reports for a writer.
#[derive(Clone, Copy, Debug, PartialEq, Eq, PartialOrd, Ord, Hash, Structural)]
pub struct GetFileCountsInfo {
    /// The number of file sets that are explicitly excluded from the backup.
    pub excluded_files: u32,
    /// The total number of components that are managed by the writer.
    pub total_components: u32,
}

/// Version of a writer application, as `GetVersion` reports it.
#[derive(Clone, Copy, Debug, PartialEq, Eq, Structural)]
pub struct VersionInfo {
    /// The major version of the writer application.
    pub major: u32,
    /// The minor version of the writer application.
    pub minor: u32,
}

/// What `DeleteSnapshots` did.
#[derive(Clone, Copy, Debug, PartialEq, Eq, Structural)]
pub struct DeleteSnapshotsInfo {
    /// Number of deleted shadow copies.
    pub deleted_snapshots: u32,
    /// If the call failed, the identifier of the first shadow copy that could
    /// not be deleted.
    pub nondeleted_snapshot_id: Option<VSS_ID>,
    /// The status code of the call if it failed.
    pub error: Option<HRESULT>,
}

/// The 32 bits of `value`, read as an unsigned number.
pub open spec fn unsigned(value: i32) -> int {
    if value >= 0 {
        value as int
    } else {
        value + 0x1_0000_0000
    }
}

/// What the answer of `DeleteSnapshots` means: `hr` is what the call
/// returned, `deleted` the count and `nondeleted` the identifier it wrote.
/// The count is reported in any case. The identifier and the error are
/// reported exactly when the call failed.
pub open spec fn delete_snapshots_spec(
    hr: HRESULT,
    deleted: i32,
    nondeleted: VSS_ID,
) -> DeleteSnapshotsInfo {
    DeleteSnapshotsInfo {
        deleted_snapshots: unsigned(deleted) as u32,
        nondeleted_snapshot_id: if hr == S_OK {
            None
        } else {
            Some(nondeleted)
        },
        error: if hr == S_OK {
            None
        } else {
            Some(hr)
        },
    }
}

/// Reads the answer of `GetFileCounts`: the two counts if the call
/// succeeded, else its status code.
pub fn get_file_counts(hr: HRESULT, excluded_files: u32, total_components: u32) -> (r: Result<
    GetFileCountsInfo,
    HRESULT,
>)
    ensures
        r == if hr == S_OK {
            Ok::<GetFileCountsInfo, HRESULT>(GetFileCountsInfo { excluded_files, total_components })
        } else {
            Err::<GetFileCountsInfo, HRESULT>(hr)
        },
{
    if hr == S_OK {
        Ok(GetFileCountsInfo { excluded_files, total_components })
    } else {
        Err(hr)
    }
}

/// Reads the answer of `GetVersion`: the version if the call succeeded,
/// else its status code.
pub fn get_version(hr: HRESULT, major: u32, minor: u32) -> (r: Result<VersionInfo, HRESULT>)
    ensures
        r == if hr == S_OK {
            Ok::<VersionInfo, HRESULT>(VersionInfo { major, minor })
        } else {
            Err::<VersionInfo, HRESULT>(hr)
        },
{
    if hr == S_OK {
        Ok(VersionInfo { major, minor })
    } else {
        Err(hr)
    }
}

/// Reads the answer of `DeleteSnapshots`.
pub fn delete_snapshots(hr: HRESULT, deleted: i32, nondeleted: VSS_ID) -> (r: DeleteSnapshotsInfo)
    ensures
        r == delete_snapshots_spec(hr, deleted, nondeleted),
        r.deleted_snapshots == unsigned(deleted),
{
    let deleted_snapshots: u32 = if deleted >= 0 {
        deleted as u32
    } else {
        let low: u32 = (deleted + 0x7FFF_FFFF + 1) as u32;
        low + 0x8000_0000
    };
    let failed = hr != S_OK;
    DeleteSnapshotsInfo {
        deleted_snapshots,
        nondeleted_snapshot_id: if failed {
            Some(nondeleted)
        } else {
            None
        },
        error: if failed {
            Some(hr)
        } else {
            None
        },
    }
}

/// The failure that a writer reported about itself, if any: a writer that
/// is well reports [`S_OK`].
pub fn writer_failure(code: HRESULT) -> (r: Option<HRESULT>)
    ensures
        r == if code == S_OK {
            None::<HRESULT>
        } else {
            Some(code)
        },
{
    if code != S_OK {
        Some(code)
    } else {
        None
    }
}

} // verus!

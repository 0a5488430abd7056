//! The enumerations that describe the components of a writer.

use vstd::prelude::*;
use vstd::std_specs::convert::FromSpecImpl;

verus! {

/// Used by both the requester and the writer to specify the type of component
/// being used with a shadow copy backup operation.
///
/// # Remarks
///
/// A writer sets a component's type when it adds the component to its Writer
/// Metadata Document using `IVssCreateWriterMetadata::AddComponent`.
///
/// Writers and requesters can find the type information of components selected
/// for inclusion in a Backup Components Document through calls to
/// `IVssComponent::GetComponentType` to return a component type directly.
///
/// A requester can obtain the type of any component in a given writer's Writer
/// Metadata Document by doing the following:
///
/// 1. Using [`IVssExamineWriterMetadata::GetComponent`] to obtain a [`IVssWMComponent`] interface
/// 2. Using [`IVssWMComponent::GetComponentInfo`] to return a [`VSS_COMPONENTINFO`] structure
/// 3. Examining the [`Type`] member of the [`VSS_COMPONENTINFO`] object
///
#[derive(Clone, Copy, Debug, PartialEq, Eq, PartialOrd, Ord, Structural)]
pub enum VssComponentType {
    /// Undefined component type.
    ///
    /// This value indicates an application error.
    ///
    /// The foreign value `VSS_CT_UNDEFINED`.
    Undefined,
    /// Database component.
    ///
    /// The foreign value `VSS_CT_DATABASE`.
    Database,
    /// File group component. This is any component other than a database.
    ///
    /// The foreign value `VSS_CT_FILEGROUP`.
    FileGroup,
}

impl VssComponentType {
    /// The foreign value that stands for the variant.
    pub open spec fn raw(self) -> u32 {
        match self {
            VssComponentType::Undefined => 0,
            VssComponentType::Database => 1,
            VssComponentType::FileGroup => 2,
        }
    }

    /// The variant that a foreign value stands for, if it stands for one.
    pub open spec fn of_raw(value: u32) -> Option<VssComponentType> {
        if value == 0 {
            Some(VssComponentType::Undefined)
        } else if value == 1 {
            Some(VssComponentType::Database)
        } else if value == 2 {
            Some(VssComponentType::FileGroup)
        } else {
            None
        }
    }
}

impl From<u32> for VssComponentType {
    /// Reads a foreign value; one that stands for no variant reads as
    /// [`VssComponentType::Undefined`].
    fn from(value: u32) -> (r: VssComponentType) {
        if value == 0 {
            VssComponentType::Undefined
        } else if value == 1 {
            VssComponentType::Database
        } else if value == 2 {
            VssComponentType::FileGroup
        } else {
            VssComponentType::Undefined
        }
    }
}

impl FromSpecImpl<u32> for VssComponentType {
    open spec fn obeys_from_spec() -> bool {
        true
    }

    open spec fn from_spec(value: u32) -> VssComponentType {
        match VssComponentType::of_raw(value) {
            Some(variant) => variant,
            None => VssComponentType::Undefined,
        }
    }
}

impl From<VssComponentType> for u32 {
    fn from(value: VssComponentType) -> (r: u32) {
        match value {
            VssComponentType::Undefined => 0,
            VssComponentType::Database => 1,
            VssComponentType::FileGroup => 2,
        }
    }
}

impl FromSpecImpl<VssComponentType> for u32 {
    open spec fn obeys_from_spec() -> bool {
        true
    }

    open spec fn from_spec(value: VssComponentType) -> u32 {
        value.raw()
    }
}

/// Every variant of [`VssComponentType`] reads back from its foreign value, and a
/// foreign value that stands for a variant is the value of that variant.
pub proof fn lemma_vss_component_type_round_trip(variant: VssComponentType, value: u32)
    ensures
        VssComponentType::of_raw(variant.raw()) == Some(variant),
        VssComponentType::of_raw(value) matches Some(v) ==> v.raw() == value,
{
}

/// This enumeration defines the set of statuses of a file restore operation
/// performed on the files managed by a selected component or component set
/// (see [Working with Selectability and Logical Paths] for information on selecting components).
///
#[derive(Clone, Copy, Debug, PartialEq, Eq, PartialOrd, Ord, Structural)]
pub enum FileRestoreStatus {
    /// The foreign value `VSS_RS_UNDEFINED`.
    Undefined,
    /// The foreign value `VSS_RS_NONE`.
    NotRestored,
    /// The foreign value `VSS_RS_ALL`.
    All,
    /// The foreign value `VSS_RS_FAILED`.
    Failed,
}

impl FileRestoreStatus {
    /// The foreign value that stands for the variant.
    pub open spec fn raw(self) -> u32 {
        match self {
            FileRestoreStatus::Undefined => 0,
            FileRestoreStatus::NotRestored => 1,
            FileRestoreStatus::All => 2,
            FileRestoreStatus::Failed => 3,
        }
    }

    /// The variant that a foreign value stands for, if it stands for one.
    pub open spec fn of_raw(value: u32) -> Option<FileRestoreStatus> {
        if value == 0 {
            Some(FileRestoreStatus::Undefined)
        } else if value == 1 {
            Some(FileRestoreStatus::NotRestored)
        } else if value == 2 {
            Some(FileRestoreStatus::All)
        } else if value == 3 {
            Some(FileRestoreStatus::Failed)
        } else {
            None
        }
    }
}

impl From<u32> for FileRestoreStatus {
    /// Reads a foreign value; one that stands for no variant reads as
    /// [`FileRestoreStatus::Undefined`].
    fn from(value: u32) -> (r: FileRestoreStatus) {
        if value == 0 {
            FileRestoreStatus::Undefined
        } else if value == 1 {
            FileRestoreStatus::NotRestored
        } else if value == 2 {
            FileRestoreStatus::All
        } else if value == 3 {
            FileRestoreStatus::Failed
        } else {
            FileRestoreStatus::Undefined
        }
    }
}

impl FromSpecImpl<u32> for FileRestoreStatus {
    open spec fn obeys_from_spec() -> bool {
        true
    }

    open spec fn from_spec(value: u32) -> FileRestoreStatus {
        match FileRestoreStatus::of_raw(value) {
            Some(variant) => variant,
            None => FileRestoreStatus::Undefined,
        }
    }
}

impl From<FileRestoreStatus> for u32 {
    fn from(value: FileRestoreStatus) -> (r: u32) {
        match value {
            FileRestoreStatus::Undefined => 0,
            FileRestoreStatus::NotRestored => 1,
            FileRestoreStatus::All => 2,
            FileRestoreStatus::Failed => 3,
        }
    }
}

impl FromSpecImpl<FileRestoreStatus> for u32 {
    open spec fn obeys_from_spec() -> bool {
        true
    }

    open spec fn from_spec(value: FileRestoreStatus) -> u32 {
        value.raw()
    }
}

/// Every variant of [`FileRestoreStatus`] reads back from its foreign value, and a
/// foreign value that stands for a variant is the value of that variant.
pub proof fn lemma_file_restore_status_round_trip(variant: FileRestoreStatus, value: u32)
    ensures
        FileRestoreStatus::of_raw(variant.raw()) == Some(variant),
        FileRestoreStatus::of_raw(value) matches Some(v) ==> v.raw() == value,
{
}

/// Specifies how the host system uses the data managed by a writer involved
/// in a VSS operation.
#[derive(Clone, Copy, Debug, PartialEq, Eq, PartialOrd, Ord, Structural)]
pub enum UsageType {
    /// The usage type is not known.
    ///
    /// This indicates an error on the part of the writer.
    ///
    /// The foreign value `VSS_UT_UNDEFINED`.
    Undefined,
    /// The data stored by the writer is part of the bootable system state.
    ///
    /// The foreign value `VSS_UT_BOOTABLESYSTEMSTATE`.
    BootableSystemState,
    /// The writer either stores data used by a system service or is a system
    /// service itself.
    ///
    /// The foreign value `VSS_UT_SYSTEMSERVICE`.
    SystemService,
    /// The data is user data.
    ///
    /// The foreign value `VSS_UT_USERDATA`.
    UserData,
    /// Unclassified data.
    ///
    /// The foreign value `VSS_UT_OTHER`.
    Other,
}

impl UsageType {
    /// The foreign value that stands for the variant.
    pub open spec fn raw(self) -> u32 {
        match self {
            UsageType::Undefined => 0,
            UsageType::BootableSystemState => 1,
            UsageType::SystemService => 2,
            UsageType::UserData => 3,
            UsageType::Other => 4,
        }
    }

    /// The variant that a foreign value stands for, if it stands for one.
    pub open spec fn of_raw(value: u32) -> Option<UsageType> {
        if value == 0 {
            Some(UsageType::Undefined)
        } else if value == 1 {
            Some(UsageType::BootableSystemState)
        } else if value == 2 {
            Some(UsageType::SystemService)
        } else if value == 3 {
            Some(UsageType::UserData)
        } else if value == 4 {
            Some(UsageType::Other)
        } else {
            None
        }
    }
}

impl From<u32> for UsageType {
    /// Reads a foreign value; one that stands for no variant reads as
    /// [`UsageType::Undefined`].
    fn from(value: u32) -> (r: UsageType) {
        if value == 0 {
            UsageType::Undefined
        } else if value == 1 {
            UsageType::BootableSystemState
        } else if value == 2 {
            UsageType::SystemService
        } else if value == 3 {
            UsageType::UserData
        } else if value == 4 {
            UsageType::Other
        } else {
            UsageType::Undefined
        }
    }
}

impl FromSpecImpl<u32> for UsageType {
    open spec fn obeys_from_spec() -> bool {
        true
    }

    open spec fn from_spec(value: u32) -> UsageType {
        match UsageType::of_raw(value) {
            Some(variant) => variant,
            None => UsageType::Undefined,
        }
    }
}

impl From<UsageType> for u32 {
    fn from(value: UsageType) -> (r: u32) {
        match value {
            UsageType::Undefined => 0,
            UsageType::BootableSystemState => 1,
            UsageType::SystemService => 2,
            UsageType::UserData => 3,
            UsageType::Other => 4,
        }
    }
}

impl FromSpecImpl<UsageType> for u32 {
    open spec fn obeys_from_spec() -> bool {
        true
    }

    open spec fn from_spec(value: UsageType) -> u32 {
        value.raw()
    }
}

/// Every variant of [`UsageType`] reads back from its foreign value, and a
/// foreign value that stands for a variant is the value of that variant.
pub proof fn lemma_usage_type_round_trip(variant: UsageType, value: u32)
    ensures
        UsageType::of_raw(variant.raw()) == Some(variant),
        UsageType::of_raw(value) matches Some(v) ==> v.raw() == value,
{
}

/// Specifies the type of data that a writer manages.
#[derive(Clone, Copy, Debug, PartialEq, Eq, PartialOrd, Ord, Structural)]
pub enum SourceType {
    /// The source of the data is not known.
    ///
    /// This indicates a writer error, and the requester should report it.
    ///
    /// The foreign value `VSS_ST_UNDEFINED`.
    Undefined,
    /// The source of the data is a database that supports transactions, such
    /// as Microsoft SQL Server.
    ///
    /// The foreign value `VSS_ST_TRANSACTEDDB`.
    TransactedDb,
    /// The source of the data is a database that does not support transactions.
    ///
    /// The foreign value `VSS_ST_NONTRANSACTEDDB`.
    NonTransactedDb,
    /// Unclassified source typeâ€”data will be in a file group.
    ///
    /// This is the default source type.
    ///
    /// The foreign value `VSS_ST_OTHER`.
    Other,
}

impl SourceType {
    /// The foreign value that stands for the variant.
    pub open spec fn raw(self) -> u32 {
        match self {
            SourceType::Undefined => 0,
            SourceType::TransactedDb => 1,
            SourceType::NonTransactedDb => 2,
            SourceType::Other => 3,
        }
    }

    /// The variant that a foreign value stands for, if it stands for one.
    pub open spec fn of_raw(value: u32) -> Option<SourceType> {
        if value == 0 {
            Some(SourceType::Undefined)
        } else if value == 1 {
            Some(SourceType::TransactedDb)
        } else if value == 2 {
            Some(SourceType::NonTransactedDb)
        } else if value == 3 {
            Some(SourceType::Other)
        } else {
            None
        }
    }
}

impl From<u32> for SourceType {
    /// Reads a foreign value; one that stands for no variant reads as
    /// [`SourceType::Undefined`].
    fn from(value: u32) -> (r: SourceType) {
        if value == 0 {
            SourceType::Undefined
        } else if value == 1 {
            SourceType::TransactedDb
        } else if value == 2 {
            SourceType::NonTransactedDb
        } else if value == 3 {
            SourceType::Other
        } else {
            SourceType::Undefined
        }
    }
}

impl FromSpecImpl<u32> for SourceType {
    open spec fn obeys_from_spec() -> bool {
        true
    }

    open spec fn from_spec(value: u32) -> SourceType {
        match SourceType::of_raw(value) {
            Some(variant) => variant,
            None => SourceType::Undefined,
        }
    }
}

impl From<SourceType> for u32 {
    fn from(value: SourceType) -> (r: u32) {
        match value {
            SourceType::Undefined => 0,
            SourceType::TransactedDb => 1,
            SourceType::NonTransactedDb => 2,
            SourceType::Other => 3,
        }
    }
}

impl FromSpecImpl<SourceType> for u32 {
    open spec fn obeys_from_spec() -> bool {
        true
    }

    open spec fn from_spec(value: SourceType) -> u32 {
        value.raw()
    }
}

/// Every variant of [`SourceType`] reads back from its foreign value, and a
/// foreign value that stands for a variant is the value of that variant.
pub proof fn lemma_source_type_round_trip(variant: SourceType, value: u32)
    ensures
        SourceType::of_raw(variant.raw()) == Some(variant),
        SourceType::of_raw(value) matches Some(v) ==> v.raw() == value,
{
}

/// Used by a writer at backup time to specify through its Writer Metadata
/// Document the default file restore method to be used with all the files
/// in all the components it manages.
#[derive(Clone, Copy, Debug, PartialEq, Eq, PartialOrd, Ord, Structural)]
pub enum RestoreMethod {
    /// The foreign value `VSS_RME_UNDEFINED`.
    Undefined,
    /// The foreign value `VSS_RME_RESTORE_IF_NOT_THERE`.
    RestoreIfNotThere,
    /// The foreign value `VSS_RME_RESTORE_IF_CAN_REPLACE`.
    RestoreIfCanReplace,
    /// The foreign value `VSS_RME_STOP_RESTORE_START`.
    StopRestoreStart,
    /// The foreign value `VSS_RME_RESTORE_TO_ALTERNATE_LOCATION`.
    RestoreToAlternateLocation,
    /// The foreign value `VSS_RME_RESTORE_AT_REBOOT`.
    RestoreAtReboot,
    /// The foreign value `VSS_RME_RESTORE_AT_REBOOT_IF_CANNOT_REPLACE`.
    RestoreAtRebootIfCannotReplace,
    /// The foreign value `VSS_RME_CUSTOM`.
    Custom,
    /// The foreign value `VSS_RME_RESTORE_STOP_START`.
    RestoreStopStart,
}

impl RestoreMethod {
    /// The foreign value that stands for the variant.
    pub open spec fn raw(self) -> u32 {
        match self {
            RestoreMethod::Undefined => 0,
            RestoreMethod::RestoreIfNotThere => 1,
            RestoreMethod::RestoreIfCanReplace => 2,
            RestoreMethod::StopRestoreStart => 3,
            RestoreMethod::RestoreToAlternateLocation => 4,
            RestoreMethod::RestoreAtReboot => 5,
            RestoreMethod::RestoreAtRebootIfCannotReplace => 6,
            RestoreMethod::Custom => 7,
            RestoreMethod::RestoreStopStart => 8,
        }
    }

    /// The variant that a foreign value stands for, if it stands for one.
    pub open spec fn of_raw(value: u32) -> Option<RestoreMethod> {
        if value == 0 {
            Some(RestoreMethod::Undefined)
        } else if value == 1 {
            Some(RestoreMethod::RestoreIfNotThere)
        } else if value == 2 {
            Some(RestoreMethod::RestoreIfCanReplace)
        } else if value == 3 {
            Some(RestoreMethod::StopRestoreStart)
        } else if value == 4 {
            Some(RestoreMethod::RestoreToAlternateLocation)
        } else if value == 5 {
            Some(RestoreMethod::RestoreAtReboot)
        } else if value == 6 {
            Some(RestoreMethod::RestoreAtRebootIfCannotReplace)
        } else if value == 7 {
            Some(RestoreMethod::Custom)
        } else if value == 8 {
            Some(RestoreMethod::RestoreStopStart)
        } else {
            None
        }
    }
}

impl From<u32> for RestoreMethod {
    /// Reads a foreign value; one that stands for no variant reads as
    /// [`RestoreMethod::Undefined`].
    fn from(value: u32) -> (r: RestoreMethod) {
        if value == 0 {
            RestoreMethod::Undefined
        } else if value == 1 {
            RestoreMethod::RestoreIfNotThere
        } else if value == 2 {
            RestoreMethod::RestoreIfCanReplace
        } else if value == 3 {
            RestoreMethod::StopRestoreStart
        } else if value == 4 {
            RestoreMethod::RestoreToAlternateLocation
        } else if value == 5 {
            RestoreMethod::RestoreAtReboot
        } else if value == 6 {
            RestoreMethod::RestoreAtRebootIfCannotReplace
        } else if value == 7 {
            RestoreMethod::Custom
        } else if value == 8 {
            RestoreMethod::RestoreStopStart
        } else {
            RestoreMethod::Undefined
        }
    }
}

impl FromSpecImpl<u32> for RestoreMethod {
    open spec fn obeys_from_spec() -> bool {
        true
    }

    open spec fn from_spec(value: u32) -> RestoreMethod {
        match RestoreMethod::of_raw(value) {
            Some(variant) => variant,
            None => RestoreMethod::Undefined,
        }
    }
}

impl From<RestoreMethod> for u32 {
    fn from(value: RestoreMethod) -> (r: u32) {
        match value {
            RestoreMethod::Undefined => 0,
            RestoreMethod::RestoreIfNotThere => 1,
            RestoreMethod::RestoreIfCanReplace => 2,
            RestoreMethod::StopRestoreStart => 3,
            RestoreMethod::RestoreToAlternateLocation => 4,
            RestoreMethod::RestoreAtReboot => 5,
            RestoreMethod::RestoreAtRebootIfCannotReplace => 6,
            RestoreMethod::Custom => 7,
            RestoreMethod::RestoreStopStart => 8,
        }
    }
}

impl FromSpecImpl<RestoreMethod> for u32 {
    open spec fn obeys_from_spec() -> bool {
        true
    }

    open spec fn from_spec(value: RestoreMethod) -> u32 {
        value.raw()
    }
}

/// Every variant of [`RestoreMethod`] reads back from its foreign value, and a
/// foreign value that stands for a variant is the value of that variant.
pub proof fn lemma_restore_method_round_trip(variant: RestoreMethod, value: u32)
    ensures
        RestoreMethod::of_raw(variant.raw()) == Some(variant),
        RestoreMethod::of_raw(value) matches Some(v) ==> v.raw() == value,
{
}

/// Used by a writer to indicate to a requester the conditions under which it
/// will handle events generated during a restore operation.
#[derive(Clone, Copy, Debug, PartialEq, Eq, PartialOrd, Ord, Structural)]
pub enum WriterRestore {
    /// The foreign value `VSS_WRE_UNDEFINED`.
    Undefined,
    /// The foreign value `VSS_WRE_NEVER`.
    Never,
    /// The foreign value `VSS_WRE_IF_REPLACE_FAILS`.
    IfReplaceFails,
    /// The foreign value `VSS_WRE_ALWAYS`.
    Always,
}

impl WriterRestore {
    /// The foreign value that stands for the variant.
    pub open spec fn raw(self) -> u32 {
        match self {
            WriterRestore::Undefined => 0,
            WriterRestore::Never => 1,
            WriterRestore::IfReplaceFails => 2,
            WriterRestore::Always => 3,
        }
    }

    /// The variant that a foreign value stands for, if it stands for one.
    pub open spec fn of_raw(value: u32) -> Option<WriterRestore> {
        if value == 0 {
            Some(WriterRestore::Undefined)
        } else if value == 1 {
            Some(WriterRestore::Never)
        } else if value == 2 {
            Some(WriterRestore::IfReplaceFails)
        } else if value == 3 {
            Some(WriterRestore::Always)
        } else {
            None
        }
    }
}

impl From<u32> for WriterRestore {
    /// Reads a foreign value; one that stands for no variant reads as
    /// [`WriterRestore::Undefined`].
    fn from(value: u32) -> (r: WriterRestore) {
        if value == 0 {
            WriterRestore::Undefined
        } else if value == 1 {
            WriterRestore::Never
        } else if value == 2 {
            WriterRestore::IfReplaceFails
        } else if value == 3 {
            WriterRestore::Always
        } else {
            WriterRestore::Undefined
        }
    }
}

impl FromSpecImpl<u32> for WriterRestore {
    open spec fn obeys_from_spec() -> bool {
        true
    }

    open spec fn from_spec(value: u32) -> WriterRestore {
        match WriterRestore::of_raw(value) {
            Some(variant) => variant,
            None => WriterRestore::Undefined,
        }
    }
}

impl From<WriterRestore> for u32 {
    fn from(value: WriterRestore) -> (r: u32) {
        match value {
            WriterRestore::Undefined => 0,
            WriterRestore::Never => 1,
            WriterRestore::IfReplaceFails => 2,
            WriterRestore::Always => 3,
        }
    }
}

impl FromSpecImpl<WriterRestore> for u32 {
    open spec fn obeys_from_spec() -> bool {
        true
    }

    open spec fn from_spec(value: WriterRestore) -> u32 {
        value.raw()
    }
}

/// Every variant of [`WriterRestore`] reads back from its foreign value, and a
/// foreign value that stands for a variant is the value of that variant.
pub proof fn lemma_writer_restore_round_trip(variant: WriterRestore, value: u32)
    ensures
        WriterRestore::of_raw(variant.raw()) == Some(variant),
        WriterRestore::of_raw(value) matches Some(v) ==> v.raw() == value,
{
}

} // verus!

//! Where the database lives and whether an older one is taken over.
//!
//! The database sits in a directory next to the executable. A database
//! left in the former place, the configuration directory, is copied over
//! once, and only while the new place holds none.

use vstd::prelude::*;
use vstd::string::StringExecFns;

verus! {

/// What was found on disk before anything is touched.
#[derive(Clone, Copy, Debug, PartialEq, Eq, Structural)]
pub struct StorageProbe {
    /// The data directory next to the executable exists.
    pub data_dir_exists: bool,
    /// The data directory holds a database.
    pub database_exists: bool,
    /// The former place is known and holds a database.
    pub legacy_database_exists: bool,
}

/// What is to be done on disk.
#[derive(Clone, Copy, Debug, PartialEq, Eq, Structural)]
pub struct StoragePlan {
    /// Create the data directory. A failure ends the preparation.
    pub create_data_dir: bool,
    /// Copy the former database to the new place, leaving the former one
    /// where it is. A failure is noted and otherwise ignored.
    pub copy_legacy_database: bool,
}

/// Why no database path could be given.
#[derive(Clone, Debug, PartialEq, Eq)]
pub enum StorageError {
    /// The path of the executable is not to be had; with the reason.
    ExecutableUnknown(String),
    /// The executable has no directory above it.
    NoExecutableDir,
    /// The data directory could not be created; with the reason.
    CreateDataDirFailed(String),
    /// The path of the database is not valid text.
    PathNotText,
}

/// The directory is created when it is missing; the former database is
/// copied when there is one and the new place holds none.
pub open spec fn planned(probe: StorageProbe) -> StoragePlan {
    StoragePlan {
        create_data_dir: !probe.data_dir_exists,
        copy_legacy_database: !probe.database_exists && probe.legacy_database_exists,
    }
}

/// Name of the data directory next to the executable.
pub fn data_dir_name() -> (name: &'static str)
    ensures
        name@ == "userdata"@,
{
    "userdata"
}

/// File name of the database, in the new place and in the former one.
pub fn database_file_name() -> (name: &'static str)
    ensures
        name@ == "efgacha.db"@,
{
    "efgacha.db"
}

/// Decides what is to be done on disk.
pub fn plan_storage(probe: StorageProbe) -> (plan: StoragePlan)
    ensures
        plan == planned(probe),
{
    StoragePlan {
        create_data_dir: !probe.data_dir_exists,
        copy_legacy_database: !probe.database_exists && probe.legacy_database_exists,
    }
}

/// The connection string for the database at `path`.
pub fn connection_string(path: &str) -> (url: String)
    ensures
        url@ == "sqlite:"@ + path@,
{
    String::from_str("sqlite:").concat(path)
}

impl StorageError {
    /// The text shown for the error.
    pub open spec fn message_of(self) -> Seq<char> {
        match self {
            StorageError::ExecutableUnknown(reason) => "获取 exe 路径失败: "@ + reason@,
            StorageError::NoExecutableDir => "无法获取 exe 所在目录"@,
            StorageError::CreateDataDirFailed(reason) => "创建 userdata 目录失败: "@ + reason@,
            StorageError::PathNotText => "数据库路径编码无效"@,
        }
    }

    pub fn message(&self) -> (text: String)
        ensures
            text@ == self.message_of(),
    {
        match self {
            StorageError::ExecutableUnknown(reason) => String::from_str(
                "获取 exe 路径失败: ",
            ).concat(reason.as_str()),
            StorageError::NoExecutableDir => String::from_str("无法获取 exe 所在目录"),
            StorageError::CreateDataDirFailed(reason) => String::from_str(
                "创建 userdata 目录失败: ",
            ).concat(reason.as_str()),
            StorageError::PathNotText => String::from_str("数据库路径编码无效"),
        }
    }
}

/// A database that is already in the new place is never overwritten, and
/// nothing is copied that is not there.
pub proof fn lemma_copy_only_into_empty_place(probe: StorageProbe)
    ensures
        probe.database_exists ==> !planned(probe).copy_legacy_database,
        !probe.legacy_database_exists ==> !planned(probe).copy_legacy_database,
{
}

} // verus!

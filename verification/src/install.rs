//! Whether the application runs from an installation or as a portable
//! copy.

use vstd::prelude::*;

verus! {

/// What the lookup of the uninstall entry gave.
#[derive(Clone, Copy, Debug, PartialEq, Eq, Structural)]
pub enum UninstallEntry {
    /// The installer has left its entry.
    Found,
    /// There is no entry, or it cannot be opened.
    Missing,
    /// The platform keeps no such entries.
    Unsupported,
}

/// A copy is portable unless an installer has left its entry.
pub open spec fn portable(entry: UninstallEntry) -> bool {
    entry != UninstallEntry::Found
}

/// Key, under the current user's registry hive, of the uninstall entry
/// that the installer writes.
pub fn uninstall_key() -> (key: &'static str)
    ensures
        key@ == "Software\\Microsoft\\Windows\\CurrentVersion\\Uninstall\\com.efgachahelper.dev"@,
{
    "Software\\Microsoft\\Windows\\CurrentVersion\\Uninstall\\com.efgachahelper.dev"
}

/// Tells whether the running copy is portable.
pub fn is_portable(entry: UninstallEntry) -> (answer: bool)
    ensures
        answer == portable(entry),
{
    match entry {
        UninstallEntry::Found => false,
        _ => true,
    }
}

} // verus!

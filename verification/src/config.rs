//! Configuration and the files the tool keeps: where each lives relative to
//! the directories the operating system assigns.

use vstd::prelude::*;

use crate::paths::{child_spec, FsPath, PathModel};

verus! {

/// The configuration file's content.
#[derive(Debug)]
pub struct MyConfig {
    pub version: u8,
}

/// `MyConfig` implements `Default`
impl Default for MyConfig {
    fn default() -> (r: Self)
        ensures
            r.version == 0,
    {
        Self { version: 0 }
    }
}

/// Directory of ephemeral files, such as the daemon's TCP port, inside the
/// system's temporary directory.
pub open spec fn temp_dir_spec(system_temp: PathModel) -> PathModel {
    child_spec(system_temp, "dekharen-cli-daemon"@)
}

// Temp directory: for ephemeral files like the TCP port
pub fn temp_dir(system_temp: &FsPath) -> (r: FsPath)
    ensures
        r@ == temp_dir_spec(system_temp@),
{
    system_temp.child("dekharen-cli-daemon")
}

/// File holding the daemon's TCP port.
pub fn port_file_path(system_temp: &FsPath) -> (r: FsPath)
    ensures
        r@ == child_spec(temp_dir_spec(system_temp@), "port"@),
{
    temp_dir(system_temp).child("port")
}

/// The SQLite database, in the data directory.
pub fn db_path(data_dir: &FsPath) -> (r: FsPath)
    ensures
        r@ == child_spec(data_dir@, "database.sqlite"@),
{
    data_dir.child("database.sqlite")
}

/// The PowerShell shims, in the configuration directory.
pub fn shims_ps_path(config_dir: &FsPath) -> (r: FsPath)
    ensures
        r@ == child_spec(config_dir@, "shims.psm1"@),
{
    config_dir.child("shims.psm1")
}

/// The shell shims, in the configuration directory.
pub fn shims_sh_path(config_dir: &FsPath) -> (r: FsPath)
    ensures
        r@ == child_spec(config_dir@, "shims.sh"@),
{
    config_dir.child("shims.sh")
}

/// The shims are in place when both the PowerShell and the shell file exist.
pub fn shims_exist(has_ps1: bool, has_sh: bool) -> (r: bool)
    ensures
        r == (has_ps1 && has_sh),
{
    has_ps1 && has_sh
}

} // verus!

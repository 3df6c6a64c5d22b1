use vstd::prelude::*;

verus! {

/// What the Linux flow reports about the system it runs on.
#[derive(Debug, Clone)]
pub struct LinuxSystemInfo {
    pub platform_label: &'static str,
    pub fstab_mount_point: &'static str,
}

/// The facts the Linux flow starts from.
pub fn inspect() -> (info: LinuxSystemInfo)
    ensures
        info.platform_label@ == "linux"@,
        info.fstab_mount_point@ == mountpoint_path(),
{
    LinuxSystemInfo { platform_label: "linux", fstab_mount_point: default_mountpoint() }
}

/// The mountpoint the wizard adopts for the shared partition.
pub open spec fn mountpoint_path() -> Seq<char> {
    "/media/gamedisk"@
}

/// The Steam library folder the wizard adopts inside the mountpoint.
pub open spec fn steam_library_path() -> Seq<char> {
    "/media/gamedisk/SteamLibrary"@
}

/// The mountpoint the wizard adopts for the shared partition.
pub fn default_mountpoint() -> (p: &'static str)
    ensures
        p@ == mountpoint_path(),
{
    "/media/gamedisk"
}

/// The Steam library folder the wizard adopts inside the mountpoint.
pub fn default_steam_library_path() -> (p: &'static str)
    ensures
        p@ == steam_library_path(),
{
    "/media/gamedisk/SteamLibrary"
}

/// An NTFS partition chosen for sharing, known by its filesystem UUID.
#[derive(Debug, Clone)]
pub struct NtfsPartition {
    pub uuid: String,
}

/// The mount options of the adopted `/etc/fstab` entry.
pub open spec fn fstab_options() -> Seq<char> {
    "uid=1000,gid=1000,rw,noatime,user,exec,umask=022,nofail"@
}

/// The `/etc/fstab` line for a partition with the given UUID:
/// `UUID=<uuid> /media/gamedisk ntfs-3g <options> 0 0`.
pub open spec fn fstab_entry(uuid: Seq<char>) -> Seq<char> {
    "UUID="@ + uuid + " "@ + mountpoint_path() + " ntfs-3g "@ + fstab_options() + " 0 0"@
}

/// The `/etc/fstab` line that mounts `partition` at the adopted mountpoint with `ntfs-3g`.
pub fn generate_fstab_entry(partition: &NtfsPartition) -> (line: String)
    ensures
        line@ == fstab_entry(partition.uuid@),
{
    let mut line = "UUID=".to_owned();
    line.append(partition.uuid.as_str());
    line.append(" ");
    line.append(default_mountpoint());
    line.append(" ntfs-3g ");
    line.append("uid=1000,gid=1000,rw,noatime,user,exec,umask=022,nofail");
    line.append(" 0 0");
    line
}

/// Whether the process runs with root privileges, and a sentence that says so.
#[derive(Debug, Clone)]
pub struct PrivilegeStatus {
    pub is_root: bool,
    pub summary: String,
}

/// What the filesystem shows of a path the wizard may create.
#[derive(Debug, Clone, Copy)]
pub struct PathValidation {
    pub exists: bool,
    pub is_directory: bool,
    pub is_symlink: bool,
    pub can_create: bool,
}


/// A failed filesystem or process operation, as the flows see it: whether the system
/// refused it for lack of permission, and the system's own description of the error.
#[derive(Debug, Clone)]
pub struct IoFailure {
    pub permission_denied: bool,
    pub message: String,
}

} // verus!

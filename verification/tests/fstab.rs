use ntfs_share_wizard::linux::fstab::contains_uuid_entry;

#[test]
fn detects_existing_uuid_without_matching_comments() {
    let contents = "\
# UUID=OLD-COMMENT /tmp ntfs-3g defaults 0 0
UUID=REAL-UUID /media/gamedisk ntfs-3g uid=1000,gid=1000,rw,noatime,user,exec,umask=022,nofail 0 0
";

    assert!(contains_uuid_entry(contents, "REAL-UUID"));
    assert!(!contains_uuid_entry(contents, "OLD-COMMENT"));
}

use ntfs_share_wizard::linux::fstab::{
    after_backup, after_fstab_read, after_fstab_write, after_mountpoint, append_entry,
    backup_path, failure_report, friendly_io_error, fstab_path, write_entry,
    write_entry_unsupported, FstabWriteStep,
};
use ntfs_share_wizard::linux::system::{generate_fstab_entry, IoFailure, NtfsPartition};

fn partition(uuid: &str) -> NtfsPartition {
    NtfsPartition { uuid: uuid.to_owned() }
}

fn denied() -> IoFailure {
    IoFailure { permission_denied: true, message: "Permission denied (os error 13)".to_owned() }
}

fn missing() -> IoFailure {
    IoFailure { permission_denied: false, message: "No such file or directory (os error 2)".to_owned() }
}

const ENTRY: &str = "UUID=ABCD-1234 /media/gamedisk ntfs-3g uid=1000,gid=1000,rw,noatime,user,exec,umask=022,nofail 0 0";

#[test]
fn uuid_entry_needs_an_active_line() {
    assert!(!contains_uuid_entry("", "X"));
    assert!(!contains_uuid_entry("   \n\t\n", "X"));
    assert!(!contains_uuid_entry("   # UUID=X /mnt ntfs-3g defaults 0 0\n", "X"));
    assert!(contains_uuid_entry("  UUID=X /mnt ntfs-3g defaults 0 0  \r\n", "X"));
    assert!(contains_uuid_entry("proc /proc proc defaults 0 0\nUUID=X /mnt", "X"));
    assert!(!contains_uuid_entry("UUID=Y /mnt ntfs-3g defaults 0 0\n", "X"));
    // the search is for the text `UUID=<uuid>` anywhere on an active line
    assert!(contains_uuid_entry("LABEL=a UUID=XY /mnt\n", "X"));
}

#[test]
fn generated_entry_matches_the_adopted_format() {
    assert_eq!(generate_fstab_entry(&partition("ABCD-1234")), ENTRY);
    assert_eq!(fstab_path(), "/etc/fstab");
}

#[test]
fn appended_entry_ends_the_old_text_first() {
    assert_eq!(append_entry("a\n".to_owned(), "L"), "a\nL\n");
    assert_eq!(append_entry("a".to_owned(), "L"), "a\nL\n");
    assert_eq!(append_entry(String::new(), "L"), "\nL\n");
}

#[test]
fn written_entry_is_found_again() {
    let updated = append_entry("# nothing yet".to_owned(), ENTRY);
    assert!(contains_uuid_entry(&updated, "ABCD-1234"));
    assert!(!contains_uuid_entry("# nothing yet", "ABCD-1234"));
}

#[test]
fn existing_entries_stay_after_appending() {
    let old = "UUID=OLD /x ntfs-3g defaults 0 0\r";
    assert!(contains_uuid_entry(old, "OLD"));
    let updated = append_entry(old.to_owned(), ENTRY);
    assert!(contains_uuid_entry(&updated, "OLD"));
    assert!(contains_uuid_entry(&updated, "ABCD-1234"));
}

#[test]
fn backup_path_names_the_time() {
    assert_eq!(backup_path(1700000000), "/etc/fstab.backup.1700000000");
    assert_eq!(backup_path(0), "/etc/fstab.backup.0");
}

#[test]
fn friendly_errors() {
    assert_eq!(
        friendly_io_error(&denied()),
        "permission denied. Re-run the app with sufficient privileges."
    );
    assert_eq!(friendly_io_error(&missing()), "No such file or directory (os error 2)");
}

#[test]
fn failure_report_keeps_its_parts() {
    let r = failure_report("L".to_owned(), Some("B".to_owned()), true, "S".to_owned());
    assert!(!r.success);
    assert_eq!(r.backup_path.as_deref(), Some("B"));
    assert_eq!(r.written_line, "L");
    assert!(r.entry_already_exists);
    assert_eq!(r.summary, "S");
}

fn read_due(uuid: &str) -> ntfs_share_wizard::linux::fstab::FstabReadDue {
    match write_entry(&partition(uuid)) {
        FstabWriteStep::ReadFstab(due) => due,
        _ => panic!("the flow starts by reading /etc/fstab"),
    }
}

#[test]
fn full_write_flow() {
    let due = read_due("ABCD-1234");
    assert_eq!(due.written_line(), ENTRY);
    let due = match after_fstab_read(due, Ok("proc /proc proc defaults 0 0".to_owned())) {
        FstabWriteStep::EnsureMountpoint(due) => due,
        _ => panic!("the mountpoint comes next"),
    };
    let due = match after_mountpoint(due, Ok(()), 42) {
        FstabWriteStep::BackupFstab(due) => due,
        _ => panic!("the backup comes next"),
    };
    assert_eq!(due.backup_path(), "/etc/fstab.backup.42");
    let due = match after_backup(due, Ok(())) {
        FstabWriteStep::WriteFstab(due) => due,
        _ => panic!("the write comes next"),
    };
    assert_eq!(due.updated(), format!("proc /proc proc defaults 0 0\n{ENTRY}\n"));
    let report = after_fstab_write(due, Ok(()));
    assert!(report.success);
    assert!(!report.entry_already_exists);
    assert_eq!(report.backup_path.as_deref(), Some("/etc/fstab.backup.42"));
    assert_eq!(report.written_line, ENTRY);
    assert_eq!(
        report.summary,
        "The new NTFS entry was appended to /etc/fstab after creating a backup."
    );
}

#[test]
fn existing_uuid_is_not_written_twice() {
    let due = read_due("ABCD-1234");
    match after_fstab_read(due, Ok(format!("{ENTRY}\n"))) {
        FstabWriteStep::Finished(report) => {
            assert!(report.success);
            assert!(report.entry_already_exists);
            assert_eq!(report.backup_path, None);
            assert_eq!(
                report.summary,
                "An entry for this UUID already exists in /etc/fstab. No duplicate was written."
            );
        }
        _ => panic!("nothing more is done"),
    }
}

#[test]
fn read_failure_is_reported() {
    match after_fstab_read(read_due("U"), Err(denied())) {
        FstabWriteStep::Finished(report) => {
            assert!(!report.success);
            assert_eq!(
                report.summary,
                "Could not read /etc/fstab: permission denied. Re-run the app with sufficient privileges."
            );
        }
        _ => panic!("the flow stops"),
    }
}

#[test]
fn mountpoint_backup_and_write_failures_are_reported() {
    let due = match after_fstab_read(read_due("U"), Ok(String::new())) {
        FstabWriteStep::EnsureMountpoint(due) => due,
        _ => panic!(),
    };
    match after_mountpoint(due, Err(missing()), 1) {
        FstabWriteStep::Finished(r) => assert_eq!(
            r.summary,
            "Could not ensure the mountpoint exists: No such file or directory (os error 2)"
        ),
        _ => panic!(),
    }
    let due = match after_fstab_read(read_due("U"), Ok(String::new())) {
        FstabWriteStep::EnsureMountpoint(due) => due,
        _ => panic!(),
    };
    let due = match after_mountpoint(due, Ok(()), 7) {
        FstabWriteStep::BackupFstab(due) => due,
        _ => panic!(),
    };
    match after_backup(due, Err(denied())) {
        FstabWriteStep::Finished(r) => {
            assert_eq!(r.backup_path, None);
            assert_eq!(
                r.summary,
                "Could not create the /etc/fstab backup: permission denied. Re-run the app with sufficient privileges."
            );
        }
        _ => panic!(),
    }
    let due = match after_fstab_read(read_due("U"), Ok(String::new())) {
        FstabWriteStep::EnsureMountpoint(due) => due,
        _ => panic!(),
    };
    let due = match after_mountpoint(due, Ok(()), 7) {
        FstabWriteStep::BackupFstab(due) => due,
        _ => panic!(),
    };
    let due = match after_backup(due, Ok(())) {
        FstabWriteStep::WriteFstab(due) => due,
        _ => panic!(),
    };
    let r = after_fstab_write(due, Err(missing()));
    assert!(!r.success);
    assert_eq!(r.backup_path.as_deref(), Some("/etc/fstab.backup.7"));
    assert_eq!(r.summary, "Could not write /etc/fstab: No such file or directory (os error 2)");
}

#[test]
fn unsupported_system_writes_nothing() {
    let r = write_entry_unsupported(&partition("ABCD-1234"));
    assert!(!r.success);
    assert_eq!(r.written_line, ENTRY);
    assert_eq!(r.summary, "Safe fstab writing is only available on Linux.");
}

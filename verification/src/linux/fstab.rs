use vstd::prelude::*;

use crate::linux::system::{
    fstab_entry, fstab_options, generate_fstab_entry, mountpoint_path,
    IoFailure, NtfsPartition,
};
use crate::text::{
    chars_of, concat_str, contains, decimal, decimal_string, contains_chars, ends_with_line_feed,
    lemma_lines_concat, lemma_single_line, lemma_terminate_lines, lemma_trim_strip_cr, lines,
    no_line_feed, occurs_at, push_char, split_lines, strip_cr, trim, trim_end, trim_start,
    trimmed, views,
};

verus! {

/// What `/etc/fstab` must hold, on some line, to declare a partition by its UUID.
pub open spec fn uuid_needle(uuid: Seq<char>) -> Seq<char> {
    "UUID="@ + uuid
}

/// A line declares the partition with `uuid`: once trimmed it is not empty, is not a
/// comment and holds `UUID=<uuid>`.
pub open spec fn declares_uuid(line: Seq<char>, uuid: Seq<char>) -> bool {
    let t = trim(line);
    &&& t.len() > 0
    &&& t[0] != '#'
    &&& contains(t, uuid_needle(uuid))
}

/// Some line of `contents` declares the partition with `uuid`.
pub open spec fn has_uuid_entry(contents: Seq<char>, uuid: Seq<char>) -> bool {
    exists|i: int| 0 <= i < lines(contents).len() && declares_uuid(#[trigger] lines(contents)[i], uuid)
}

fn line_declares(line: &Vec<char>, needle: &Vec<char>, uuid: Ghost<Seq<char>>) -> (r: bool)
    requires
        needle@ == uuid_needle(uuid@),
    ensures
        r == declares_uuid(line@, uuid@),
{
    let t = trimmed(line);
    t.len() > 0 && t[0] != '#' && contains_chars(&t, needle)
}

/// An entry, in plain terms: some line, once trimmed, is not empty, does not start
/// with `#`, and holds the text `UUID=` followed by the UUID.
pub open spec fn has_active_uuid_line(contents: Seq<char>, uuid: Seq<char>) -> bool {
    exists|i: int| 0 <= i < lines(contents).len() && {
        let t = trim(#[trigger] lines(contents)[i]);
        &&& t.len() > 0
        &&& t[0] != '#'
        &&& exists|k: int| 0 <= k && k + 5 + uuid.len() <= t.len()
            && #[trigger] t.subrange(k, k + 5 + uuid.len()) == "UUID="@ + uuid
    }
}

/// `has_uuid_entry` is exactly an active line holding `UUID=<uuid>`.
pub proof fn lemma_entry_is_active_uuid_line(contents: Seq<char>, uuid: Seq<char>)
    ensures
        has_uuid_entry(contents, uuid) <==> has_active_uuid_line(contents, uuid),
{
    reveal_strlit("UUID=");
    let n = uuid_needle(uuid);
    assert(n.len() == 5 + uuid.len());
    if has_uuid_entry(contents, uuid) {
        let i = choose|i: int| 0 <= i < lines(contents).len() && declares_uuid(#[trigger] lines(contents)[i], uuid);
        let t = trim(lines(contents)[i]);
        let k = choose|k: int| occurs_at(t, n, k);
        assert(t.subrange(k, k + 5 + uuid.len()) == "UUID="@ + uuid);
    }
    if has_active_uuid_line(contents, uuid) {
        let i = choose|i: int| 0 <= i < lines(contents).len() && {
            let t = trim(#[trigger] lines(contents)[i]);
            &&& t.len() > 0
            &&& t[0] != '#'
            &&& exists|k: int| 0 <= k && k + 5 + uuid.len() <= t.len()
                && #[trigger] t.subrange(k, k + 5 + uuid.len()) == "UUID="@ + uuid
        };
        let t = trim(lines(contents)[i]);
        let k = choose|k: int| 0 <= k && k + 5 + uuid.len() <= t.len()
            && #[trigger] t.subrange(k, k + 5 + uuid.len()) == "UUID="@ + uuid;
        assert(occurs_at(t, n, k));
        assert(declares_uuid(lines(contents)[i], uuid));
    }
}

/// Whether `contents`, the text of an fstab file, already has an entry for the
/// partition with `uuid`; commented-out and blank lines do not count.
pub fn contains_uuid_entry(contents: &str, uuid: &str) -> (r: bool)
    ensures
        r == has_uuid_entry(contents@, uuid@),
        r == has_active_uuid_line(contents@, uuid@),
{
    proof {
        lemma_entry_is_active_uuid_line(contents@, uuid@);
    }
    scan_for_uuid_entry(contents, uuid)
}

fn scan_for_uuid_entry(contents: &str, uuid: &str) -> (r: bool)
    ensures
        r == has_uuid_entry(contents@, uuid@),
{
    let needle = chars_of(concat_str("UUID=".to_owned(), uuid).as_str());
    let all = split_lines(&chars_of(contents));
    let ghost ls = lines(contents@);
    let mut i: usize = 0;
    while i < all.len()
        invariant
            views(all@) == ls,
            ls == lines(contents@),
            needle@ == uuid_needle(uuid@),
            i <= all.len(),
            forall|j: int| 0 <= j < i ==> !declares_uuid(#[trigger] ls[j], uuid@),
        decreases all.len() - i,
    {
        assert(ls[i as int] == all@[i as int]@);
        if line_declares(&all[i], &needle, Ghost(uuid@)) {
            return true;
        }
        i += 1;
    }
    false
}


/// A commented-out line never declares a partition, whatever it holds after the `#`.
pub proof fn lemma_comment_never_declares(line: Seq<char>, uuid: Seq<char>)
    requires
        trim(line).len() > 0,
        trim(line)[0] == '#',
    ensures
        !declares_uuid(line, uuid),
{
}

/// A blank line never declares a partition.
pub proof fn lemma_blank_never_declares(line: Seq<char>, uuid: Seq<char>)
    requires
        trim(line).len() == 0,
    ensures
        !declares_uuid(line, uuid),
{
}

/// A file whose lines are all blank or commented out has no entry for any partition.
pub proof fn lemma_commented_file_has_no_entry(contents: Seq<char>, uuid: Seq<char>)
    requires
        forall|i: int| 0 <= i < lines(contents).len() ==> trim(#[trigger] lines(contents)[i]).len() == 0
            || trim(lines(contents)[i])[0] == '#',
    ensures
        !has_uuid_entry(contents, uuid),
{
    assert forall|i: int| 0 <= i < lines(contents).len() implies !declares_uuid(#[trigger] lines(contents)[i], uuid) by {
        if trim(lines(contents)[i]).len() == 0 {
            lemma_blank_never_declares(lines(contents)[i], uuid);
        } else {
            lemma_comment_never_declares(lines(contents)[i], uuid);
        }
    }
}

/// `contents` ended by a line feed: unchanged when it already ends with one, otherwise
/// (an empty file too) with one added.
pub open spec fn terminated(contents: Seq<char>) -> Seq<char> {
    if ends_with_line_feed(contents) {
        contents
    } else {
        contents.push('\n')
    }
}

/// `contents` with `line` appended as a line of its own, followed by a line feed.
pub open spec fn appended_entry(contents: Seq<char>, line: Seq<char>) -> Seq<char> {
    terminated(contents) + line.push('\n')
}

/// The new text of an fstab file: the old text, ended by a line feed if it was not, then
/// `line` and a line feed.
pub fn append_entry(contents: String, line: &str) -> (updated: String)
    ensures
        updated@ == appended_entry(contents@, line@),
        contents@.is_prefix_of(updated@),
        ends_with_line_feed(contents@) ==> updated@ == contents@ + line@ + seq!['\n'],
        !ends_with_line_feed(contents@) ==> updated@ == contents@ + seq!['\n'] + line@ + seq!['\n'],
{
    let chars = chars_of(contents.as_str());
    let mut updated = contents;
    if chars.len() == 0 || chars[chars.len() - 1] != '\n' {
        push_char(&mut updated, '\n');
    }
    updated.append(line);
    push_char(&mut updated, '\n');
    assert(updated@ =~= appended_entry(chars@, line@));
    assert(chars@.is_prefix_of(updated@)) by {
        assert forall|i: int| 0 <= i < chars@.len() implies updated@[i] == chars@[i] by {
            assert(updated@ =~= terminated(chars@) + line@.push('\n'));
        }
    }
    updated
}

/// The lines of a file once an entry is appended: those of the old text (with its last
/// line ended), then the entry.
pub proof fn lemma_appended_lines(contents: Seq<char>, line: Seq<char>)
    requires
        no_line_feed(line),
    ensures
        lines(appended_entry(contents, line)) == lines(terminated(contents)) + seq![strip_cr(line)],
{
    let t = terminated(contents);
    assert(ends_with_line_feed(t));
    lemma_lines_concat(t, line.push('\n'), Seq::empty());
    lemma_single_line(line, Seq::empty());
    assert(Seq::<char>::empty() + line =~= line);
}

/// A partition's entry, once appended to any fstab text, is found there: writing the
/// entry a second time is never needed, so the wizard does not duplicate it.
/// (A UUID with a line feed in it would split the entry over two lines.)
pub proof fn lemma_written_entry_is_found(contents: Seq<char>, uuid: Seq<char>)
    requires
        no_line_feed(uuid),
    ensures
        has_uuid_entry(appended_entry(contents, fstab_entry(uuid)), uuid),
{
    reveal_strlit("UUID=");
    reveal_strlit(" ");
    reveal_strlit("/media/gamedisk");
    reveal_strlit(" ntfs-3g ");
    reveal_strlit("uid=1000,gid=1000,rw,noatime,user,exec,umask=022,nofail");
    reveal_strlit(" 0 0");
    let line = fstab_entry(uuid);
    let head = "UUID="@;
    let tail = " "@ + mountpoint_path() + " ntfs-3g "@ + fstab_options() + " 0 0"@;
    assert(line =~= head + uuid + tail);
    assert(no_line_feed(line)) by {
        assert forall|i: int| 0 <= i < line.len() implies line[i] != '\n' by {
            if i < head.len() {
            } else if i < head.len() + uuid.len() {
                assert(line[i] == uuid[i - head.len()]);
            } else {
                assert(line[i] == tail[i - head.len() - uuid.len()]);
            }
        }
    }
    lemma_appended_lines(contents, line);
    let ls = lines(appended_entry(contents, line));
    let k = lines(terminated(contents)).len() as int;
    assert(line.last() == '0');
    assert(strip_cr(line) == line);
    assert(ls[k] == line);
    assert(line[0] == 'U');
    assert(trim_start(line) == line);
    assert(trim_end(line) == line);
    assert(trim(line) == line);
    assert(occurs_at(line, uuid_needle(uuid), 0)) by {
        assert(line.subrange(0, uuid_needle(uuid).len() as int) =~= uuid_needle(uuid));
    }
    assert(declares_uuid(ls[k], uuid));
}

/// Appending a line never hides an entry that the file already had.
pub proof fn lemma_existing_entries_kept(contents: Seq<char>, line: Seq<char>, uuid: Seq<char>)
    requires
        has_uuid_entry(contents, uuid),
    ensures
        has_uuid_entry(appended_entry(contents, line), uuid),
{
    let i = choose|i: int| 0 <= i < lines(contents).len() && declares_uuid(#[trigger] lines(contents)[i], uuid);
    let t = terminated(contents);
    lemma_lines_concat(t, line.push('\n'), Seq::empty());
    let ls = lines(appended_entry(contents, line));
    if ends_with_line_feed(contents) {
        assert(ls[i] == lines(contents)[i]);
    } else {
        lemma_terminate_lines(contents, Seq::empty());
        let old_lines = lines(contents);
        assert(lines(t) == old_lines.drop_last().push(strip_cr(old_lines.last())));
        if i < old_lines.len() - 1 {
            assert(ls[i] == old_lines[i]);
        } else {
            assert(ls[i] == strip_cr(old_lines[i]));
            lemma_trim_strip_cr(old_lines[i]);
        }
    }
    assert(declares_uuid(ls[i], uuid));
}

// ---------------------------------------------------------------------------
// Writing the entry
// ---------------------------------------------------------------------------

/// The fstab file the wizard edits.
pub open spec fn fstab_file() -> Seq<char> {
    "/etc/fstab"@
}

/// The fstab file the wizard edits.
pub fn fstab_path() -> (p: &'static str)
    ensures
        p@ == fstab_file(),
{
    "/etc/fstab"
}

/// What an attempt to add the partition's entry to `/etc/fstab` came to.
#[derive(Debug, Clone, PartialEq, Eq)]
pub struct FstabWriteReport {
    pub success: bool,
    pub backup_path: Option<String>,
    pub written_line: String,
    pub entry_already_exists: bool,
    pub summary: String,
}

/// A report as plain values.
pub struct FstabWriteReportView {
    pub success: bool,
    pub backup_path: Option<Seq<char>>,
    pub written_line: Seq<char>,
    pub entry_already_exists: bool,
    pub summary: Seq<char>,
}

impl View for FstabWriteReport {
    type V = FstabWriteReportView;

    open spec fn view(&self) -> FstabWriteReportView {
        FstabWriteReportView {
            success: self.success,
            backup_path: match self.backup_path {
                Some(p) => Some(p@),
                None => None,
            },
            written_line: self.written_line@,
            entry_already_exists: self.entry_already_exists,
            summary: self.summary@,
        }
    }
}

/// The sentence shown for a failed operation: a fixed hint when permission was denied,
/// the system's description otherwise.
pub open spec fn friendly_message(error: IoFailure) -> Seq<char> {
    if error.permission_denied {
        "permission denied. Re-run the app with sufficient privileges."@
    } else {
        error.message@
    }
}

/// The sentence shown for a failed operation.
pub fn friendly_io_error(error: &IoFailure) -> (message: String)
    ensures
        message@ == friendly_message(*error),
{
    if error.permission_denied {
        "permission denied. Re-run the app with sufficient privileges.".to_owned()
    } else {
        error.message.clone()
    }
}

/// A report of failure.
pub fn failure_report(
    written_line: String,
    backup_path: Option<String>,
    entry_already_exists: bool,
    summary: String,
) -> (report: FstabWriteReport)
    ensures
        report.success == false,
        report.backup_path == backup_path,
        report.written_line == written_line,
        report.entry_already_exists == entry_already_exists,
        report.summary == summary,
{
    FstabWriteReport { success: false, backup_path, written_line, entry_already_exists, summary }
}

/// The name of the backup copy made at `timestamp` (seconds since the Unix epoch).
pub open spec fn backup_file(timestamp: nat) -> Seq<char> {
    "/etc/fstab.backup."@ + decimal(timestamp)
}

/// The name of the backup copy made at `timestamp` (seconds since the Unix epoch).
pub fn backup_path(timestamp: u64) -> (path: String)
    ensures
        path@ == backup_file(timestamp as nat),
{
    concat_str("/etc/fstab.backup.".to_owned(), decimal_string(timestamp).as_str())
}

/// The partition's entry is due; `/etc/fstab` must be read first. Only `write_entry`
/// makes one.
pub struct FstabReadDue {
    uuid: String,
    written_line: String,
}

/// `/etc/fstab` was read and lacks the entry; the mountpoint must exist before it is
/// added. Only `after_fstab_read` makes one.
pub struct FstabMountpointDue {
    written_line: String,
    contents: String,
}

/// The mountpoint exists; `/etc/fstab` must be copied to the backup path. Only
/// `after_mountpoint` makes one.
pub struct FstabBackupDue {
    written_line: String,
    contents: String,
    backup_path: String,
}

/// The backup exists; the updated text must be written to `/etc/fstab`. Only
/// `after_backup`, once the backup was made, makes one: the file is never written
/// before it was copied.
pub struct FstabWriteDue {
    written_line: String,
    backup_path: String,
    updated: String,
}

impl FstabReadDue {
    /// The UUID of the partition.
    pub closed spec fn uuid_view(&self) -> Seq<char> {
        self.uuid@
    }

    /// The entry to add.
    pub closed spec fn line_view(&self) -> Seq<char> {
        self.written_line@
    }

    /// The entry to add.
    pub fn written_line(&self) -> (line: &str)
        ensures
            line@ == self.line_view(),
    {
        self.written_line.as_str()
    }
}

impl FstabMountpointDue {
    /// The entry to add.
    pub closed spec fn line_view(&self) -> Seq<char> {
        self.written_line@
    }

    /// The text read from `/etc/fstab`.
    pub closed spec fn contents_view(&self) -> Seq<char> {
        self.contents@
    }
}

impl FstabBackupDue {
    /// The entry to add.
    pub closed spec fn line_view(&self) -> Seq<char> {
        self.written_line@
    }

    /// The text read from `/etc/fstab`.
    pub closed spec fn contents_view(&self) -> Seq<char> {
        self.contents@
    }

    /// Where the backup copy goes.
    pub closed spec fn backup_view(&self) -> Seq<char> {
        self.backup_path@
    }

    /// Where the backup copy goes.
    pub fn backup_path(&self) -> (path: &str)
        ensures
            path@ == self.backup_view(),
    {
        self.backup_path.as_str()
    }
}

impl FstabWriteDue {
    /// The entry to add.
    pub closed spec fn line_view(&self) -> Seq<char> {
        self.written_line@
    }

    /// Where the backup copy went.
    pub closed spec fn backup_view(&self) -> Seq<char> {
        self.backup_path@
    }

    /// The new text of `/etc/fstab`.
    pub closed spec fn updated_view(&self) -> Seq<char> {
        self.updated@
    }

    /// The new text of `/etc/fstab`.
    pub fn updated(&self) -> (text: &str)
        ensures
            text@ == self.updated_view(),
    {
        self.updated.as_str()
    }
}

/// Where the addition of an fstab entry stands: the operation it waits for, or its report.
pub enum FstabWriteStep {
    ReadFstab(FstabReadDue),
    EnsureMountpoint(FstabMountpointDue),
    BackupFstab(FstabBackupDue),
    WriteFstab(FstabWriteDue),
    Finished(FstabWriteReport),
}

/// Starts adding the entry for `partition` to `/etc/fstab`: the file is read first.
pub fn write_entry(partition: &NtfsPartition) -> (step: FstabWriteStep)
    ensures
        step matches FstabWriteStep::ReadFstab(due) && due.uuid_view() == partition.uuid@
            && due.line_view() == fstab_entry(partition.uuid@),
{
    FstabWriteStep::ReadFstab(
        FstabReadDue { uuid: partition.uuid.clone(), written_line: generate_fstab_entry(partition) },
    )
}

/// The report where `/etc/fstab` cannot be edited on this system.
pub fn write_entry_unsupported(partition: &NtfsPartition) -> (report: FstabWriteReport)
    ensures
        report@ == (FstabWriteReportView {
            success: false,
            backup_path: None,
            written_line: fstab_entry(partition.uuid@),
            entry_already_exists: false,
            summary: "Safe fstab writing is only available on Linux."@,
        }),
{
    FstabWriteReport {
        success: false,
        backup_path: None,
        written_line: generate_fstab_entry(partition),
        entry_already_exists: false,
        summary: "Safe fstab writing is only available on Linux.".to_owned(),
    }
}

/// What follows the reading of `/etc/fstab`: a failure report when it could not be read;
/// success with nothing written when it already declares the partition; otherwise the
/// mountpoint is made sure of next.
pub fn after_fstab_read(due: FstabReadDue, read: Result<String, IoFailure>) -> (step: FstabWriteStep)
    ensures
        match read {
            Err(e) => step matches FstabWriteStep::Finished(r) && r@ == (FstabWriteReportView {
                success: false,
                backup_path: None,
                written_line: due.line_view(),
                entry_already_exists: false,
                summary: "Could not read /etc/fstab: "@ + friendly_message(e),
            }),
            Ok(contents) => if has_uuid_entry(contents@, due.uuid_view()) {
                step matches FstabWriteStep::Finished(r) && r@ == (FstabWriteReportView {
                    success: true,
                    backup_path: None,
                    written_line: due.line_view(),
                    entry_already_exists: true,
                    summary: "An entry for this UUID already exists in /etc/fstab. No duplicate was written."@,
                })
            } else {
                step matches FstabWriteStep::EnsureMountpoint(next) && next.line_view()
                    == due.line_view() && next.contents_view() == contents@
            },
        },
{
    match read {
        Err(e) => {
            let summary = concat_str("Could not read /etc/fstab: ".to_owned(), friendly_io_error(&e).as_str());
            FstabWriteStep::Finished(failure_report(due.written_line, None, false, summary))
        },
        Ok(contents) => {
            if contains_uuid_entry(contents.as_str(), due.uuid.as_str()) {
                FstabWriteStep::Finished(
                    FstabWriteReport {
                        success: true,
                        backup_path: None,
                        written_line: due.written_line,
                        entry_already_exists: true,
                        summary: "An entry for this UUID already exists in /etc/fstab. No duplicate was written.".to_owned(),
                    },
                )
            } else {
                FstabWriteStep::EnsureMountpoint(FstabMountpointDue { written_line: due.written_line, contents })
            }
        },
    }
}

/// What follows the creation of the mountpoint, at `now_secs` seconds since the Unix
/// epoch: a failure report when it could not be made sure of; otherwise `/etc/fstab` is
/// copied to a backup named after the time.
pub fn after_mountpoint(due: FstabMountpointDue, created: Result<(), IoFailure>, now_secs: u64) -> (step: FstabWriteStep)
    ensures
        match created {
            Err(e) => step matches FstabWriteStep::Finished(r) && r@ == (FstabWriteReportView {
                success: false,
                backup_path: None,
                written_line: due.line_view(),
                entry_already_exists: false,
                summary: "Could not ensure the mountpoint exists: "@ + friendly_message(e),
            }),
            Ok(_) => step matches FstabWriteStep::BackupFstab(next) && next.line_view()
                == due.line_view() && next.contents_view() == due.contents_view()
                && next.backup_view() == backup_file(now_secs as nat),
        },
{
    match created {
        Err(e) => {
            let summary = concat_str("Could not ensure the mountpoint exists: ".to_owned(), friendly_io_error(&e).as_str());
            FstabWriteStep::Finished(failure_report(due.written_line, None, false, summary))
        },
        Ok(_) => FstabWriteStep::BackupFstab(
            FstabBackupDue {
                written_line: due.written_line,
                contents: due.contents,
                backup_path: backup_path(now_secs),
            },
        ),
    }
}

/// What follows the backup copy: a failure report when it could not be made; otherwise
/// the old text with the entry appended is written to `/etc/fstab`.
pub fn after_backup(due: FstabBackupDue, copied: Result<(), IoFailure>) -> (step: FstabWriteStep)
    ensures
        match copied {
            Err(e) => step matches FstabWriteStep::Finished(r) && r@ == (FstabWriteReportView {
                success: false,
                backup_path: None,
                written_line: due.line_view(),
                entry_already_exists: false,
                summary: "Could not create the /etc/fstab backup: "@ + friendly_message(e),
            }),
            Ok(_) => step matches FstabWriteStep::WriteFstab(next) && next.line_view()
                == due.line_view() && next.backup_view() == due.backup_view()
                && next.updated_view() == appended_entry(due.contents_view(), due.line_view()),
        },
{
    match copied {
        Err(e) => {
            let summary = concat_str("Could not create the /etc/fstab backup: ".to_owned(), friendly_io_error(&e).as_str());
            FstabWriteStep::Finished(failure_report(due.written_line, None, false, summary))
        },
        Ok(_) => {
            let updated = append_entry(due.contents, due.written_line.as_str());
            FstabWriteStep::WriteFstab(
                FstabWriteDue { written_line: due.written_line, backup_path: due.backup_path, updated },
            )
        },
    }
}

/// The report once the new text was written, or failed to be, to `/etc/fstab`; either
/// way it names the backup that was made before.
pub fn after_fstab_write(due: FstabWriteDue, written: Result<(), IoFailure>) -> (report: FstabWriteReport)
    ensures
        match written {
            Err(e) => report@ == (FstabWriteReportView {
                success: false,
                backup_path: Some(due.backup_view()),
                written_line: due.line_view(),
                entry_already_exists: false,
                summary: "Could not write /etc/fstab: "@ + friendly_message(e),
            }),
            Ok(_) => report@ == (FstabWriteReportView {
                success: true,
                backup_path: Some(due.backup_view()),
                written_line: due.line_view(),
                entry_already_exists: false,
                summary: "The new NTFS entry was appended to /etc/fstab after creating a backup."@,
            }),
        },
{
    match written {
        Err(e) => {
            let summary = concat_str("Could not write /etc/fstab: ".to_owned(), friendly_io_error(&e).as_str());
            failure_report(due.written_line, Some(due.backup_path), false, summary)
        },
        Ok(_) => FstabWriteReport {
            success: true,
            backup_path: Some(due.backup_path),
            written_line: due.written_line,
            entry_already_exists: false,
            summary: "The new NTFS entry was appended to /etc/fstab after creating a backup.".to_owned(),
        },
    }
}

} // verus!

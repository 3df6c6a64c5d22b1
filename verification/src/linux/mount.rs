use vstd::prelude::*;

use crate::linux::system::{
    default_mountpoint, mountpoint_path, IoFailure, PathValidation, PrivilegeStatus,
};
use crate::text::{
    ascii_lowercase, ascii_uppercase, chars_of, lemma_contains_in_concat, lemma_lowercase_ignores_case, concat_str, contains, contains_chars, decimal, decimal_string, lines,
    lowercased, pieces, pieces_from, same_chars, split_lines, split_on, split_words, trim, trimmed, views,
    words, string_of, push_char,
};

verus! {

/// What `mount -a` and the checks after it came to.
#[derive(Debug, Clone, PartialEq, Eq)]
pub struct MountApplyReport {
    pub success: bool,
    pub mount_command_stdout: String,
    pub mount_command_stderr: String,
    pub mountpoint_mounted: bool,
    pub read_write: bool,
    pub write_test_succeeded: bool,
    pub readonly_diagnostic: Option<String>,
    pub fast_startup_warning: Option<String>,
    pub steam_library_exists: bool,
    pub steam_library_can_create: bool,
    pub summary: String,
}

/// A mount report as plain values.
pub struct MountApplyReportView {
    pub success: bool,
    pub mount_command_stdout: Seq<char>,
    pub mount_command_stderr: Seq<char>,
    pub mountpoint_mounted: bool,
    pub read_write: bool,
    pub write_test_succeeded: bool,
    pub readonly_diagnostic: Option<Seq<char>>,
    pub fast_startup_warning: Option<Seq<char>>,
    pub steam_library_exists: bool,
    pub steam_library_can_create: bool,
    pub summary: Seq<char>,
}

/// The view of an optional string.
pub open spec fn opt_view(s: Option<String>) -> Option<Seq<char>> {
    match s {
        Some(t) => Some(t@),
        None => None,
    }
}

impl View for MountApplyReport {
    type V = MountApplyReportView;

    open spec fn view(&self) -> MountApplyReportView {
        MountApplyReportView {
            success: self.success,
            mount_command_stdout: self.mount_command_stdout@,
            mount_command_stderr: self.mount_command_stderr@,
            mountpoint_mounted: self.mountpoint_mounted,
            read_write: self.read_write,
            write_test_succeeded: self.write_test_succeeded,
            readonly_diagnostic: opt_view(self.readonly_diagnostic),
            fast_startup_warning: opt_view(self.fast_startup_warning),
            steam_library_exists: self.steam_library_exists,
            steam_library_can_create: self.steam_library_can_create,
            summary: self.summary@,
        }
    }
}

/// What creating the Steam library folder came to.
#[derive(Debug, Clone, PartialEq, Eq)]
pub struct SteamLibraryCreateReport {
    pub success: bool,
    pub summary: String,
    pub steam_library_exists: bool,
}

/// The sentence shown for a failed operation: a fixed hint when permission was denied,
/// the system's description otherwise.
pub open spec fn friendly_message(error: IoFailure) -> Seq<char> {
    if error.permission_denied {
        "permissao negada. Execute o app novamente com privilegios suficientes."@
    } else {
        error.message@
    }
}

/// The sentence shown for a failed operation.
pub fn friendly_io_error(error: &IoFailure) -> (message: String)
    ensures
        message@ == friendly_message(*error),
{
    if error.permission_denied {
        "permissao negada. Execute o app novamente com privilegios suficientes.".to_owned()
    } else {
        error.message.clone()
    }
}

// ---------------------------------------------------------------------------
// Reading /proc/mounts
// ---------------------------------------------------------------------------

/// Whether the mountpoint is mounted, and then whether read-only.
#[derive(Debug, Clone, Copy, PartialEq, Eq)]
pub struct MountInspectResult {
    pub mounted: bool,
    pub readonly: bool,
}

/// A comma-separated option list holds the option `ro`.
pub open spec fn has_ro_option(options: Seq<char>) -> bool {
    exists|i: int| 0 <= i < pieces(options, ',').len() && #[trigger] pieces(options, ',')[i] == "ro"@
}

/// The option `ro` stands at position `i` of a comma-separated option list: the two
/// letters, with a comma or the end of the list on either side.
pub open spec fn ro_at(options: Seq<char>, i: int) -> bool {
    &&& 0 <= i
    &&& i + 2 <= options.len()
    &&& options[i] == 'r'
    &&& options[i + 1] == 'o'
    &&& (i == 0 || options[i - 1] == ',')
    &&& (i + 2 == options.len() || options[i + 2] == ',')
}

proof fn lemma_ro_pieces(s: Seq<char>, cur: Seq<char>)
    requires
        forall|j: int| 0 <= j < cur.len() ==> cur[j] != ',',
    ensures
        (exists|k: int| 0 <= k < pieces_from(s, ',', cur).len() && #[trigger] pieces_from(s, ',', cur)[k]
            == seq!['r', 'o']) <==> exists|i: int| #[trigger] ro_at(cur + s, i),
    decreases s.len(),
{
    let t = cur + s;
    let ps = pieces_from(s, ',', cur);
    let ro = seq!['r', 'o'];
    if s.len() == 0 {
        assert(t =~= cur);
        assert(ps == seq![cur]);
        if cur == ro {
            assert(ro_at(t, 0));
        }
        if exists|i: int| #[trigger] ro_at(t, i) {
            let i = choose|i: int| #[trigger] ro_at(t, i);
            assert(i == 0);
            assert(cur =~= ro);
            assert(ps[0] == ro);
        }
    } else if s[0] == ',' {
        let rest = s.drop_first();
        lemma_ro_pieces(rest, Seq::empty());
        let tail = pieces_from(rest, ',', Seq::empty());
        assert(ps == seq![cur] + tail);
        assert(Seq::<char>::empty() + rest =~= rest);
        let n = cur.len() as int;
        assert(t[n] == ',');
        // an occurrence in `rest` is one in `t`, one comma further
        assert forall|i: int| #[trigger] ro_at(rest, i) implies ro_at(t, i + n + 1) by {
            assert(t[i + n + 1] == rest[i]);
            assert(t[i + n + 2] == rest[i + 1]);
            if i > 0 {
                assert(t[i + n] == rest[i - 1]);
            }
            if i + 2 < rest.len() {
                assert(t[i + n + 3] == rest[i + 2]);
            }
        }
        if exists|k: int| 0 <= k < ps.len() && #[trigger] ps[k] == ro {
            let k = choose|k: int| 0 <= k < ps.len() && #[trigger] ps[k] == ro;
            if k == 0 {
                assert(cur == ro);
                assert(t[0] == 'r' && t[1] == 'o');
                assert(ro_at(t, 0));
            } else {
                assert(tail[k - 1] == ro);
                let i = choose|i: int| #[trigger] ro_at(rest, i);
                assert(ro_at(t, i + n + 1));
            }
        }
        if exists|i: int| #[trigger] ro_at(t, i) {
            let i = choose|i: int| #[trigger] ro_at(t, i);
            if i < n {
                assert(i == 0);
                assert(i + 2 == n) by {
                    if i + 2 < n {
                        assert(cur[i + 2] == t[i + 2]);
                    }
                }
                assert(cur =~= ro);
                assert(ps[0] == ro);
            } else {
                assert(i != n);
                let j = i - n - 1;
                assert(rest[j] == t[i]);
                assert(rest[j + 1] == t[i + 1]);
                if j > 0 {
                    assert(rest[j - 1] == t[i - 1]);
                }
                if j + 2 < rest.len() {
                    assert(rest[j + 2] == t[i + 2]);
                }
                assert(ro_at(rest, j));
                let k = choose|k: int| 0 <= k < tail.len() && #[trigger] tail[k] == ro;
                assert(ps[k + 1] == tail[k]);
            }
        }
    } else {
        let rest = s.drop_first();
        lemma_ro_pieces(rest, cur.push(s[0]));
        assert(cur.push(s[0]) + rest =~= t);
    }
}

/// The option `ro` is read exactly where the list holds the two letters between commas
/// (or the ends of the list): `rw`, `errors=remount-ro` or `rox` are not read-only.
pub proof fn lemma_ro_option_in_plain_terms(options: Seq<char>)
    ensures
        has_ro_option(options) <==> exists|i: int| #[trigger] ro_at(options, i),
{
    reveal_strlit("ro");
    assert("ro"@ =~= seq!['r', 'o']);
    lemma_ro_pieces(options, Seq::empty());
    let t = Seq::<char>::empty() + options;
    assert(t =~= options);
    let ps = pieces(options, ',');
    if has_ro_option(options) {
        let k = choose|k: int| 0 <= k < ps.len() && #[trigger] ps[k] == "ro"@;
        assert(pieces_from(options, ',', Seq::empty())[k] == seq!['r', 'o']);
        let i = choose|i: int| #[trigger] ro_at(t, i);
        assert(ro_at(options, i));
    }
    if exists|i: int| #[trigger] ro_at(options, i) {
        let i = choose|i: int| #[trigger] ro_at(options, i);
        assert(ro_at(t, i));
        let k = choose|k: int| 0 <= k < pieces_from(options, ',', Seq::empty()).len()
            && #[trigger] pieces_from(options, ',', Seq::empty())[k] == seq!['r', 'o'];
        assert(ps[k] == "ro"@);
    }
}

/// The fourth field of a mount table line (its options), or nothing.
pub open spec fn options_field(fields: Seq<Seq<char>>) -> Seq<char> {
    if fields.len() >= 4 {
        fields[3]
    } else {
        Seq::empty()
    }
}

/// Whether a mount table line mounts something at `mountpoint` (its second field).
pub open spec fn mounts_at(line: Seq<char>, mountpoint: Seq<char>) -> bool {
    words(line).len() >= 2 && words(line)[1] == mountpoint
}

/// What the first of `ls` that mounts something at `mountpoint` says of it.
pub open spec fn status_in_lines(ls: Seq<Seq<char>>, mountpoint: Seq<char>) -> MountInspectResult
    decreases ls.len(),
{
    if ls.len() == 0 {
        MountInspectResult { mounted: false, readonly: false }
    } else if mounts_at(ls[0], mountpoint) {
        MountInspectResult { mounted: true, readonly: has_ro_option(options_field(words(ls[0]))) }
    } else {
        status_in_lines(ls.drop_first(), mountpoint)
    }
}

/// What a mount table (`/proc/mounts`) says of the adopted mountpoint: its first entry
/// there decides, and the entry is read-only when its options hold `ro`.
pub open spec fn mount_status(table: Seq<char>) -> MountInspectResult {
    status_in_lines(lines(table), mountpoint_path())
}

fn options_hold_ro(options: &Vec<char>) -> (r: bool)
    ensures
        r == has_ro_option(options@),
{
    let ps = split_on(options, ',');
    let ro = chars_of("ro");
    let mut i: usize = 0;
    while i < ps.len()
        invariant
            views(ps@) == pieces(options@, ','),
            ro@ == "ro"@,
            i <= ps.len(),
            forall|j: int| 0 <= j < i ==> #[trigger] pieces(options@, ',')[j] != "ro"@,
        decreases ps.len() - i,
    {
        assert(pieces(options@, ',')[i as int] == ps@[i as int]@);
        if same_chars(&ps[i], &ro) {
            return true;
        }
        i += 1;
    }
    false
}

/// `k` is the first of `ls` that mounts something at `mountpoint`.
pub open spec fn first_mount_line(ls: Seq<Seq<char>>, mountpoint: Seq<char>, k: int) -> bool {
    &&& 0 <= k < ls.len()
    &&& words(ls[k]).len() >= 2 && words(ls[k])[1] == mountpoint
    &&& forall|j: int| 0 <= j < k ==> !(words(#[trigger] ls[j]).len() >= 2 && words(ls[j])[1] == mountpoint)
}

/// What a mount table says of a mountpoint is decided by its first entry there alone:
/// it is mounted exactly when some line has the mountpoint as its second field, and
/// then read-only exactly when that first line's options hold `ro`, whatever the other
/// lines hold; with no such line it is neither mounted nor read-only.
pub proof fn lemma_first_entry_decides(ls: Seq<Seq<char>>, mountpoint: Seq<char>)
    ensures
        status_in_lines(ls, mountpoint).mounted <==> exists|i: int|
            0 <= i < ls.len() && words(#[trigger] ls[i]).len() >= 2 && words(ls[i])[1] == mountpoint,
        forall|k: int| #[trigger] first_mount_line(ls, mountpoint, k) ==> status_in_lines(ls, mountpoint).readonly
            == has_ro_option(options_field(words(ls[k]))),
        !status_in_lines(ls, mountpoint).mounted ==> !status_in_lines(ls, mountpoint).readonly,
    decreases ls.len(),
{
    if ls.len() == 0 {
    } else {
        let rest = ls.drop_first();
        lemma_first_entry_decides(rest, mountpoint);
        assert forall|j: int| 0 <= j < rest.len() implies #[trigger] rest[j] == ls[j + 1] by {}
        if words(ls[0]).len() >= 2 && words(ls[0])[1] == mountpoint {
            assert(words(ls[0]).len() >= 2 && words(ls[0])[1] == mountpoint);
            assert forall|k: int| #[trigger] first_mount_line(ls, mountpoint, k) implies k == 0 by {
                if k > 0 {
                    assert(!(words(ls[0]).len() >= 2 && words(ls[0])[1] == mountpoint));
                }
            }
        } else {
            if exists|i: int| 0 <= i < ls.len() && words(#[trigger] ls[i]).len() >= 2 && words(ls[i])[1] == mountpoint {
                let i = choose|i: int| 0 <= i < ls.len() && words(#[trigger] ls[i]).len() >= 2 && words(ls[i])[1] == mountpoint;
                assert(i > 0);
                assert(rest[i - 1] == ls[i]);
            }
            if exists|i: int| 0 <= i < rest.len() && words(#[trigger] rest[i]).len() >= 2 && words(rest[i])[1] == mountpoint {
                let i = choose|i: int| 0 <= i < rest.len() && words(#[trigger] rest[i]).len() >= 2 && words(rest[i])[1] == mountpoint;
                assert(ls[i + 1] == rest[i]);
            }
            assert forall|k: int| #[trigger] first_mount_line(ls, mountpoint, k) implies status_in_lines(ls, mountpoint).readonly
                == has_ro_option(options_field(words(ls[k]))) by {
                assert(k > 0);
                assert(rest[k - 1] == ls[k]);
                assert forall|j: int| 0 <= j < k - 1 implies !(words(#[trigger] rest[j]).len() >= 2 && words(rest[j])[1] == mountpoint) by {
                    assert(rest[j] == ls[j + 1]);
                }
                assert(first_mount_line(rest, mountpoint, k - 1));
            }
        }
    }
}

/// A line that mounts nothing at the mountpoint changes nothing, whatever its options.
pub proof fn lemma_other_lines_ignored(line: Seq<char>, rest: Seq<Seq<char>>, mountpoint: Seq<char>)
    requires
        !(words(line).len() >= 2 && words(line)[1] == mountpoint),
    ensures
        status_in_lines(seq![line] + rest, mountpoint) == status_in_lines(rest, mountpoint),
{
    let ls = seq![line] + rest;
    assert(ls[0] == line);
    assert(ls.drop_first() =~= rest);
}

/// Reads a mount table (the text of `/proc/mounts`) for the adopted mountpoint.
pub fn inspect_mountpoint(table: &str) -> (status: MountInspectResult)
    ensures
        status == mount_status(table@),
        status.mounted <==> exists|i: int|
            0 <= i < lines(table@).len() && words(#[trigger] lines(table@)[i]).len() >= 2
                && words(lines(table@)[i])[1] == mountpoint_path(),
        forall|k: int| #[trigger] first_mount_line(lines(table@), mountpoint_path(), k)
            ==> status.readonly == has_ro_option(options_field(words(lines(table@)[k]))),
        !status.mounted ==> !status.readonly,
        forall|k: int| #[trigger] first_mount_line(lines(table@), mountpoint_path(), k)
            ==> (status.readonly <==> exists|i: int| ro_at(options_field(words(lines(table@)[k])), i)),
{
    proof {
        lemma_first_entry_decides(lines(table@), mountpoint_path());
        assert forall|k: int| #[trigger] first_mount_line(lines(table@), mountpoint_path(), k)
            implies (has_ro_option(options_field(words(lines(table@)[k]))) <==> exists|i: int|
            ro_at(options_field(words(lines(table@)[k])), i)) by {
            lemma_ro_option_in_plain_terms(options_field(words(lines(table@)[k])));
        }
    }
    scan_mount_table(table)
}

fn scan_mount_table(table: &str) -> (status: MountInspectResult)
    ensures
        status == mount_status(table@),
{
    let all = split_lines(&chars_of(table));
    let mountpoint = chars_of(default_mountpoint());
    let ghost ls = lines(table@);
    let mut i: usize = 0;
    assert(ls.skip(0) =~= ls);
    while i < all.len()
        invariant
            views(all@) == ls,
            ls == lines(table@),
            mountpoint@ == mountpoint_path(),
            i <= all.len(),
            mount_status(table@) == status_in_lines(ls.skip(i as int), mountpoint_path()),
        decreases all.len() - i,
    {
        let ghost rest = ls.skip(i as int);
        assert(rest[0] == ls[i as int]);
        assert(rest.drop_first() =~= ls.skip(i + 1));
        assert(ls[i as int] == all@[i as int]@);
        let fields = split_words(&all[i]);
        if fields.len() >= 2 && same_chars(&fields[1], &mountpoint) {
            assert(views(fields@)[1] == fields@[1]@);
            let readonly = if fields.len() >= 4 {
                assert(views(fields@)[3] == fields@[3]@);
                options_hold_ro(&fields[3])
            } else {
                options_hold_ro(&Vec::new())
            };
            return MountInspectResult { mounted: true, readonly };
        }
        proof {
            if views(fields@).len() >= 2 {
                assert(views(fields@)[1] == fields@[1]@);
            }
        }
        i += 1;
    }
    assert(ls.skip(i as int) =~= Seq::<Seq<char>>::empty());
    MountInspectResult { mounted: false, readonly: false }
}


// ---------------------------------------------------------------------------
// Fast Startup hints
// ---------------------------------------------------------------------------

/// The text searched for hints of a volume left unsafe by Windows: the command output
/// and the diagnostic, lower-cased, with a space between them.
pub open spec fn combined_text(output: Seq<char>, diagnostic: Option<Seq<char>>) -> Seq<char> {
    ascii_lowercase(output) + seq![' '] + ascii_lowercase(
        match diagnostic {
            Some(d) => d,
            None => Seq::empty(),
        },
    )
}

/// The text holds one of the phrases that mount tools print for a volume that Windows
/// left hibernated or dirty.
pub open spec fn suggests_unsafe_volume(text: Seq<char>) -> bool {
    ||| contains(text, "hibernat"@)
    ||| contains(text, "unsafe state"@)
    ||| contains(text, "fast startup"@)
    ||| contains(text, "windows is hibernated"@)
    ||| contains(text, "metadata kept in windows cache"@)
    ||| contains(text, "volume is dirty"@)
}

/// The warning shown when the volume looks unsafe.
pub open spec fn fast_startup_warning_text() -> Seq<char> {
    "A particao NTFS pode estar em um estado inseguro vindo do Windows. Verifique se o Fast Startup ainda esta ativo e faca um desligamento completo do Windows antes de tentar novamente."@
}

/// The warning shown when the volume looks unsafe.
pub fn fast_startup_warning_message() -> (warning: String)
    ensures
        warning@ == fast_startup_warning_text(),
{
    "A particao NTFS pode estar em um estado inseguro vindo do Windows. Verifique se o Fast Startup ainda esta ativo e faca um desligamento completo do Windows antes de tentar novamente.".to_owned()
}

/// The warning for `output` and `diagnostic`, when they suggest an unsafe volume.
pub open spec fn fast_startup_warning_for(output: Seq<char>, diagnostic: Option<Seq<char>>) -> Option<Seq<char>> {
    if suggests_unsafe_volume(combined_text(output, diagnostic)) {
        Some(fast_startup_warning_text())
    } else {
        None
    }
}

/// The phrases that mount tools print for a volume that Windows left hibernated or dirty.
pub open spec fn is_hint_phrase(p: Seq<char>) -> bool {
    ||| p == "hibernat"@
    ||| p == "unsafe state"@
    ||| p == "fast startup"@
    ||| p == "windows is hibernated"@
    ||| p == "metadata kept in windows cache"@
    ||| p == "volume is dirty"@
}

/// Each hint phrase, in any letter case, in the output or in the diagnostic, is enough
/// for the warning; and there is no other warning than the Fast Startup one.
pub proof fn lemma_each_hint_warns(output: Seq<char>, diagnostic: Option<Seq<char>>, phrase: Seq<char>)
    requires
        is_hint_phrase(phrase),
        contains(ascii_lowercase(output), phrase) || (diagnostic matches Some(d) && contains(
            ascii_lowercase(d),
            phrase,
        )),
    ensures
        fast_startup_warning_for(output, diagnostic) == Some(fast_startup_warning_text()),
{
    let d = match diagnostic {
        Some(d) => d,
        None => Seq::empty(),
    };
    let head = ascii_lowercase(output) + seq![' '];
    lemma_contains_in_concat(ascii_lowercase(output), seq![' '], phrase);
    lemma_contains_in_concat(head, ascii_lowercase(d), phrase);
    assert(contains(combined_text(output, diagnostic), phrase));
}

/// A warning, when there is one, is the Fast Startup warning; a read-only mount always
/// gets it, and so does every hint phrase in the output of `mount -a`.
pub proof fn lemma_mount_warning(status: MountInspectResult, output: Seq<char>, diagnostic: Option<Seq<char>>, phrase: Seq<char>)
    ensures
        mount_warning_for(status, output, diagnostic) is None || mount_warning_for(status, output, diagnostic)
            == Some(fast_startup_warning_text()),
        status.mounted && status.readonly ==> mount_warning_for(status, output, diagnostic) == Some(
            fast_startup_warning_text(),
        ),
        is_hint_phrase(phrase) && contains(ascii_lowercase(output), phrase) ==> mount_warning_for(
            status,
            output,
            diagnostic,
        ) == Some(fast_startup_warning_text()),
{
    if is_hint_phrase(phrase) && contains(ascii_lowercase(output), phrase) {
        lemma_each_hint_warns(output, diagnostic, phrase);
    }
}

/// The hints are found whatever the ASCII letter case of the output and diagnostic.
pub proof fn lemma_warning_ignores_case(output: Seq<char>, diagnostic: Option<Seq<char>>)
    ensures
        fast_startup_warning_for(
            ascii_uppercase(output),
            match diagnostic {
                Some(d) => Some(ascii_uppercase(d)),
                None => None,
            },
        ) == fast_startup_warning_for(output, diagnostic),
{
    lemma_lowercase_ignores_case(output);
    match diagnostic {
        Some(d) => lemma_lowercase_ignores_case(d),
        None => {},
    }
}

/// A warning about Fast Startup when the output of `mount -a` or the diagnostic
/// suggests that Windows left the volume in an unsafe state (letter case aside).
pub fn detect_fast_startup_warning(output: &str, diagnostic: Option<&str>) -> (warning: Option<String>)
    ensures
        opt_view(warning) == fast_startup_warning_for(
            output@,
            match diagnostic {
                Some(d) => Some(d@),
                None => None,
            },
        ),
        warning is None || opt_view(warning) == Some(fast_startup_warning_text()),
        forall|p: Seq<char>| #[trigger] is_hint_phrase(p) && (contains(ascii_lowercase(output@), p) || (
        diagnostic matches Some(d) && contains(ascii_lowercase(d@), p))) ==> opt_view(warning) == Some(
            fast_startup_warning_text(),
        ),
{
    proof {
        let dv = match diagnostic {
            Some(d) => Some(d@),
            None => None,
        };
        assert forall|p: Seq<char>| #[trigger] is_hint_phrase(p) && (contains(ascii_lowercase(output@), p) || (
        diagnostic matches Some(d) && contains(ascii_lowercase(d@), p))) implies fast_startup_warning_for(output@, dv)
            == Some(fast_startup_warning_text()) by {
            lemma_each_hint_warns(output@, dv, p);
        }
    }
    let mut combined = lowercased(&chars_of(output));
    combined.push(' ');
    let mut rest = match diagnostic {
        Some(d) => lowercased(&chars_of(d)),
        None => lowercased(&Vec::new()),
    };
    combined.append(&mut rest);
    let ghost d = match diagnostic {
        Some(d) => Some(d@),
        None => None,
    };
    assert(combined@ =~= combined_text(output@, d));
    let suspicious = contains_chars(&combined, &chars_of("hibernat"))
        || contains_chars(&combined, &chars_of("unsafe state"))
        || contains_chars(&combined, &chars_of("fast startup"))
        || contains_chars(&combined, &chars_of("windows is hibernated"))
        || contains_chars(&combined, &chars_of("metadata kept in windows cache"))
        || contains_chars(&combined, &chars_of("volume is dirty"));
    if suspicious {
        Some(fast_startup_warning_message())
    } else {
        None
    }
}

// ---------------------------------------------------------------------------
// Applying the mount
// ---------------------------------------------------------------------------

/// Whether the write test on the mountpoint succeeded, and what went wrong if not.
pub struct WriteTestResult {
    pub succeeded: bool,
    pub diagnostic: Option<String>,
}

/// What `mount -a` printed, as text.
pub struct MountCommandOutput {
    pub stdout: String,
    pub stderr: String,
}

/// `mount -a` ran; the mount table must be read. Only `after_mount_command` makes one.
pub struct MountInspectDue {
    stdout: String,
    stderr: String,
}

/// The mountpoint is mounted read-write; a file must be written to it as a test. Only
/// `after_mount_inspection` makes one, for a read-write mount.
pub struct MountWriteTestDue {
    stdout: String,
    stderr: String,
    status: MountInspectResult,
}

/// The Steam library folder must be looked at. Only `after_mount_inspection` (with the
/// write test skipped) and `after_write_test` make one.
pub struct MountValidationDue {
    stdout: String,
    stderr: String,
    status: MountInspectResult,
    write_test: WriteTestResult,
}

impl MountInspectDue {
    /// The trimmed standard output of `mount -a`.
    pub closed spec fn stdout_view(&self) -> Seq<char> {
        self.stdout@
    }

    /// The trimmed error output of `mount -a`.
    pub closed spec fn stderr_view(&self) -> Seq<char> {
        self.stderr@
    }
}

impl MountWriteTestDue {
    /// A write test is due only on a read-write mount.
    #[verifier::type_invariant]
    closed spec fn read_write_mount(&self) -> bool {
        self.status.mounted && !self.status.readonly
    }

    /// The trimmed standard output of `mount -a`.
    pub closed spec fn stdout_view(&self) -> Seq<char> {
        self.stdout@
    }

    /// The trimmed error output of `mount -a`.
    pub closed spec fn stderr_view(&self) -> Seq<char> {
        self.stderr@
    }

    /// What the mount table said.
    pub closed spec fn status_view(&self) -> MountInspectResult {
        self.status
    }
}

impl MountValidationDue {
    /// A write test succeeds only on a read-write mount.
    #[verifier::type_invariant]
    closed spec fn test_on_read_write_mount(&self) -> bool {
        self.write_test.succeeded ==> self.status.mounted && !self.status.readonly
    }

    /// The trimmed standard output of `mount -a`.
    pub closed spec fn stdout_view(&self) -> Seq<char> {
        self.stdout@
    }

    /// The trimmed error output of `mount -a`.
    pub closed spec fn stderr_view(&self) -> Seq<char> {
        self.stderr@
    }

    /// What the mount table said.
    pub closed spec fn status_view(&self) -> MountInspectResult {
        self.status
    }

    /// Whether the write test succeeded.
    pub closed spec fn test_succeeded(&self) -> bool {
        self.write_test.succeeded
    }

    /// What went wrong in the write test.
    pub closed spec fn test_diagnostic(&self) -> Option<Seq<char>> {
        opt_view(self.write_test.diagnostic)
    }
}

/// Where applying the mount stands: the operation it waits for, or its report.
pub enum MountStep {
    CheckPrivilege,
    RunMount,
    InspectMountpoint(MountInspectDue),
    WriteTest(MountWriteTestDue),
    ValidateSteamLibrary(MountValidationDue),
    Finished(MountApplyReport),
}

/// A report of a run that stopped before the mountpoint was looked at.
pub open spec fn early_report(stderr: Seq<char>, summary: Seq<char>) -> MountApplyReportView {
    MountApplyReportView {
        success: false,
        mount_command_stdout: Seq::empty(),
        mount_command_stderr: stderr,
        mountpoint_mounted: false,
        read_write: false,
        write_test_succeeded: false,
        readonly_diagnostic: None,
        fast_startup_warning: None,
        steam_library_exists: false,
        steam_library_can_create: false,
        summary: summary,
    }
}

fn early_mount_report(stderr: String, summary: String) -> (report: MountApplyReport)
    ensures
        report@ == early_report(stderr@, summary@),
{
    MountApplyReport {
        success: false,
        mount_command_stdout: String::new(),
        mount_command_stderr: stderr,
        mountpoint_mounted: false,
        read_write: false,
        write_test_succeeded: false,
        readonly_diagnostic: None,
        fast_startup_warning: None,
        steam_library_exists: false,
        steam_library_can_create: false,
        summary,
    }
}

/// Starts applying `mount -a`: privileges are checked first.
pub fn apply_mount_and_validate() -> (step: MountStep)
    ensures
        step is CheckPrivilege,
{
    MountStep::CheckPrivilege
}

/// The report where mounting cannot be checked on this system.
pub fn apply_mount_and_validate_unsupported() -> (report: MountApplyReport)
    ensures
        report@ == early_report(Seq::empty(), "A validacao de montagem esta disponivel apenas no Linux."@),
{
    early_mount_report(String::new(), "A validacao de montagem esta disponivel apenas no Linux.".to_owned())
}

/// What follows the privilege check: without root, a report that says so; with it,
/// `mount -a` is run.
pub fn after_mount_privilege(privilege: &PrivilegeStatus) -> (step: MountStep)
    ensures
        privilege.is_root ==> step is RunMount,
        !privilege.is_root ==> (step matches MountStep::Finished(r) && r@ == early_report(
            Seq::empty(),
            "A aplicacao de `mount -a` e a validacao final exigem privilegios de root. "@
                + privilege.summary@,
        )),
{
    if !privilege.is_root {
        let summary = concat_str(
            "A aplicacao de `mount -a` e a validacao final exigem privilegios de root. ".to_owned(),
            privilege.summary.as_str(),
        );
        return MountStep::Finished(early_mount_report(String::new(), summary));
    }
    MountStep::RunMount
}

/// What follows running `mount -a`: when it could not run, a report whose error output
/// and summary say why; otherwise the mount table is read, with the trimmed output kept.
pub fn after_mount_command(outcome: Result<MountCommandOutput, IoFailure>) -> (step: MountStep)
    ensures
        match outcome {
            Err(e) => step matches MountStep::Finished(r) && r@ == early_report(
                friendly_message(e),
                "Nao foi possivel executar `mount -a`: "@ + friendly_message(e),
            ),
            Ok(out) => step matches MountStep::InspectMountpoint(due) && due.stdout_view() == trim(
                out.stdout@,
            ) && due.stderr_view() == trim(out.stderr@),
        },
{
    match outcome {
        Err(e) => {
            let message = friendly_io_error(&e);
            let summary = concat_str("Nao foi possivel executar `mount -a`: ".to_owned(), message.as_str());
            MountStep::Finished(early_mount_report(message, summary))
        },
        Ok(out) => {
            let stdout = string_of(&trimmed(&chars_of(out.stdout.as_str())));
            let stderr = string_of(&trimmed(&chars_of(out.stderr.as_str())));
            MountStep::InspectMountpoint(MountInspectDue { stdout, stderr })
        },
    }
}

/// What follows reading the mount table: when the mountpoint is mounted read-write a
/// write test is due; otherwise the test is skipped as failed, with no diagnostic.
pub fn after_mount_inspection(due: MountInspectDue, table: &str) -> (step: MountStep)
    ensures
        ({
            let status = mount_status(table@);
            if status.mounted && !status.readonly {
                step matches MountStep::WriteTest(next) && next.stdout_view() == due.stdout_view()
                    && next.stderr_view() == due.stderr_view() && next.status_view() == status
            } else {
                step matches MountStep::ValidateSteamLibrary(next) && next.stdout_view()
                    == due.stdout_view() && next.stderr_view() == due.stderr_view()
                    && next.status_view() == status && !next.test_succeeded()
                    && next.test_diagnostic() is None
            }
        }),
{
    let status = inspect_mountpoint(table);
    if status.mounted && !status.readonly {
        MountStep::WriteTest(MountWriteTestDue { stdout: due.stdout, stderr: due.stderr, status })
    } else {
        MountStep::ValidateSteamLibrary(
            MountValidationDue {
                stdout: due.stdout,
                stderr: due.stderr,
                status,
                write_test: WriteTestResult { succeeded: false, diagnostic: None },
            },
        )
    }
}

/// The file written, at `timestamp` seconds since the Unix epoch, to test the mountpoint.
pub open spec fn write_test_file(timestamp: nat) -> Seq<char> {
    mountpoint_path() + "/.ntfs-share-wizard-write-test-"@ + decimal(timestamp)
}

/// The file written, at `timestamp` seconds since the Unix epoch, to test the mountpoint.
pub fn write_test_path(timestamp: u64) -> (path: String)
    ensures
        path@ == write_test_file(timestamp as nat),
{
    let path = concat_str(default_mountpoint().to_owned(), "/.ntfs-share-wizard-write-test-");
    concat_str(path, decimal_string(timestamp).as_str())
}

/// What follows the write test: its result is kept, with a diagnostic when it failed,
/// and the Steam library folder is looked at next.
pub fn after_write_test(due: MountWriteTestDue, outcome: Result<(), IoFailure>) -> (step: MountStep)
    ensures
        step matches MountStep::ValidateSteamLibrary(next) && next.stdout_view()
            == due.stdout_view() && next.stderr_view() == due.stderr_view()
            && next.status_view() == due.status_view() && match outcome {
            Ok(_) => next.test_succeeded() && next.test_diagnostic() is None,
            Err(e) => !next.test_succeeded() && next.test_diagnostic() == Some(
                "O teste de escrita falhou: "@ + friendly_message(e),
            ),
        },
{
    proof {
        use_type_invariant(&due);
    }
    let write_test = match outcome {
        Ok(_) => WriteTestResult { succeeded: true, diagnostic: None },
        Err(e) => WriteTestResult {
            succeeded: false,
            diagnostic: Some(concat_str("O teste de escrita falhou: ".to_owned(), friendly_io_error(&e).as_str())),
        },
    };
    MountStep::ValidateSteamLibrary(
        MountValidationDue { stdout: due.stdout, stderr: due.stderr, status: due.status, write_test },
    )
}

/// The diagnostic a report carries: read-only mounts are named as such, otherwise the
/// write test's diagnostic stands.
pub open spec fn readonly_diagnostic_for(status: MountInspectResult, test_diagnostic: Option<Seq<char>>) -> Option<Seq<char>> {
    if status.mounted && status.readonly {
        Some("O mountpoint esta montado, mas atualmente esta em modo somente leitura."@)
    } else {
        test_diagnostic
    }
}

/// The summary of a run that got as far as the mountpoint.
pub open spec fn mount_summary(status: MountInspectResult, test_succeeded: bool) -> Seq<char> {
    if status.mounted && test_succeeded {
        "O `mount -a` funcionou, o mountpoint esta com escrita liberada e a particao esta pronta para validacao."@
    } else if !status.mounted {
        "O `mount -a` nao deixou `/media/gamedisk` montado. Revise a saida do comando e a entrada do fstab."@
    } else if status.readonly {
        "A particao esta montada, mas apenas em modo somente leitura."@
    } else {
        "O mountpoint foi encontrado, mas o teste de escrita falhou."@
    }
}

/// The warning a report carries: a read-only mount is itself a sign that Windows left
/// the volume unsafe, and so are the hint phrases in the output or the diagnostic.
pub open spec fn mount_warning_for(
    status: MountInspectResult,
    output: Seq<char>,
    diagnostic: Option<Seq<char>>,
) -> Option<Seq<char>> {
    if status.mounted && status.readonly {
        Some(fast_startup_warning_text())
    } else {
        fast_startup_warning_for(output, diagnostic)
    }
}

/// The report of a run that got as far as the Steam library folder.
pub open spec fn validated_report(
    stdout: Seq<char>,
    stderr: Seq<char>,
    status: MountInspectResult,
    test_succeeded: bool,
    test_diagnostic: Option<Seq<char>>,
    library: PathValidation,
) -> MountApplyReportView {
    let diagnostic = readonly_diagnostic_for(status, test_diagnostic);
    MountApplyReportView {
        success: status.mounted && test_succeeded,
        mount_command_stdout: stdout,
        mount_command_stderr: stderr,
        mountpoint_mounted: status.mounted,
        read_write: status.mounted && !status.readonly && test_succeeded,
        write_test_succeeded: test_succeeded,
        readonly_diagnostic: diagnostic,
        fast_startup_warning: mount_warning_for(status, stdout + seq!['\n'] + stderr, diagnostic),
        steam_library_exists: library.exists && library.is_directory && !library.is_symlink,
        steam_library_can_create: !library.exists && library.can_create,
        summary: mount_summary(status, test_succeeded),
    }
}

/// The report says the Steam library exists only for a real folder, never for a symlink
/// or a file; it offers to create it only where nothing is there.
pub proof fn lemma_library_reported_faithfully(
    stdout: Seq<char>,
    stderr: Seq<char>,
    status: MountInspectResult,
    test_succeeded: bool,
    test_diagnostic: Option<Seq<char>>,
    library: PathValidation,
)
    ensures
        ({
            let r = validated_report(stdout, stderr, status, test_succeeded, test_diagnostic, library);
            &&& library.is_symlink ==> !r.steam_library_exists
            &&& r.steam_library_exists <==> library.exists && library.is_directory && !library.is_symlink
            &&& r.steam_library_can_create ==> !library.exists
            &&& !(r.steam_library_exists && r.steam_library_can_create)
        }),
{
}

/// The final report, once the Steam library folder was looked at.
pub fn after_steam_library_validation(due: MountValidationDue, library: &PathValidation) -> (report: MountApplyReport)
    ensures
        report@ == validated_report(
            due.stdout_view(),
            due.stderr_view(),
            due.status_view(),
            due.test_succeeded(),
            due.test_diagnostic(),
            *library,
        ),
        report.success ==> report.read_write,
        report.steam_library_exists <==> library.exists && library.is_directory && !library.is_symlink,
        report.steam_library_can_create <==> !library.exists && library.can_create,
        report.success <==> due.status_view().mounted && due.test_succeeded(),
{
    proof {
        use_type_invariant(&due);
    }
    let status = due.status;
    let succeeded = due.write_test.succeeded;
    let readonly_diagnostic = if status.mounted && status.readonly {
        Some("O mountpoint esta montado, mas atualmente esta em modo somente leitura.".to_owned())
    } else {
        due.write_test.diagnostic
    };
    let mut combined = due.stdout.clone();
    push_char(&mut combined, '\n');
    combined.append(due.stderr.as_str());
    assert(combined@ =~= due.stdout@ + seq!['\n'] + due.stderr@);
    let fast_startup_warning = if status.mounted && status.readonly {
        Some(fast_startup_warning_message())
    } else {
        match &readonly_diagnostic {
            Some(d) => detect_fast_startup_warning(combined.as_str(), Some(d.as_str())),
            None => detect_fast_startup_warning(combined.as_str(), None),
        }
    };
    let summary = if status.mounted && succeeded {
        "O `mount -a` funcionou, o mountpoint esta com escrita liberada e a particao esta pronta para validacao.".to_owned()
    } else if !status.mounted {
        "O `mount -a` nao deixou `/media/gamedisk` montado. Revise a saida do comando e a entrada do fstab.".to_owned()
    } else if status.readonly {
        "A particao esta montada, mas apenas em modo somente leitura.".to_owned()
    } else {
        "O mountpoint foi encontrado, mas o teste de escrita falhou.".to_owned()
    };
    assert(opt_view(readonly_diagnostic) == readonly_diagnostic_for(status, opt_view(due.write_test.diagnostic)));
    assert(opt_view(fast_startup_warning) == mount_warning_for(
        status,
        due.stdout@ + seq!['\n'] + due.stderr@,
        opt_view(readonly_diagnostic),
    ));
    assert(summary@ == mount_summary(status, succeeded));
    MountApplyReport {
        success: status.mounted && succeeded,
        mount_command_stdout: due.stdout,
        mount_command_stderr: due.stderr,
        mountpoint_mounted: status.mounted,
        read_write: status.mounted && !status.readonly && succeeded,
        write_test_succeeded: succeeded,
        readonly_diagnostic,
        fast_startup_warning,
        steam_library_exists: library.exists && library.is_directory && !library.is_symlink,
        steam_library_can_create: !library.exists && library.can_create,
        summary,
    }
}


// ---------------------------------------------------------------------------
// Creating the Steam library folder
// ---------------------------------------------------------------------------

/// A Steam library report as plain values.
pub struct SteamLibraryCreateReportView {
    pub success: bool,
    pub summary: Seq<char>,
    pub steam_library_exists: bool,
}

impl View for SteamLibraryCreateReport {
    type V = SteamLibraryCreateReportView;

    open spec fn view(&self) -> SteamLibraryCreateReportView {
        SteamLibraryCreateReportView {
            success: self.success,
            summary: self.summary@,
            steam_library_exists: self.steam_library_exists,
        }
    }
}

/// A report of failure with the given summary.
pub open spec fn library_failure(summary: Seq<char>) -> SteamLibraryCreateReportView {
    SteamLibraryCreateReportView { success: false, summary, steam_library_exists: false }
}

/// Where creating the Steam library folder stands: the operation it waits for, or its report.
pub enum SteamLibraryCreateStep {
    CheckPrivilege,
    ValidatePath,
    CreateDirectory,
    Finished(SteamLibraryCreateReport),
}

/// Starts creating the Steam library folder: privileges are checked first.
pub fn create_steam_library_directory() -> (step: SteamLibraryCreateStep)
    ensures
        step is CheckPrivilege,
{
    SteamLibraryCreateStep::CheckPrivilege
}

/// The report where the folder cannot be created on this system.
pub fn create_steam_library_directory_unsupported() -> (report: SteamLibraryCreateReport)
    ensures
        report@ == library_failure("A criacao da SteamLibrary esta disponivel apenas no Linux."@),
{
    SteamLibraryCreateReport {
        success: false,
        summary: "A criacao da SteamLibrary esta disponivel apenas no Linux.".to_owned(),
        steam_library_exists: false,
    }
}

/// What follows the privilege check: without root, a report that says so; with it, the
/// folder's path is looked at.
pub fn after_library_privilege(privilege: &PrivilegeStatus) -> (step: SteamLibraryCreateStep)
    ensures
        privilege.is_root ==> step is ValidatePath,
        !privilege.is_root ==> (step matches SteamLibraryCreateStep::Finished(r) && r@
            == library_failure(
            "A criacao da SteamLibrary exige privilegios de root. "@ + privilege.summary@,
        )),
{
    if !privilege.is_root {
        return SteamLibraryCreateStep::Finished(
            SteamLibraryCreateReport {
                success: false,
                summary: concat_str(
                    "A criacao da SteamLibrary exige privilegios de root. ".to_owned(),
                    privilege.summary.as_str(),
                ),
                steam_library_exists: false,
            },
        );
    }
    SteamLibraryCreateStep::ValidatePath
}

/// The report that looking at the path ends the flow with, or nothing when the folder
/// is to be created: a symlink is never replaced, and something there that is not a
/// folder stops the flow.
pub open spec fn library_validation_report(validation: PathValidation) -> Option<SteamLibraryCreateReportView> {
    if validation.is_symlink {
        Some(library_failure("A SteamLibrary existe como symlink, e o wizard nao substitui symlinks."@))
    } else if validation.exists && !validation.is_directory {
        Some(library_failure("A SteamLibrary existe, mas nao e um diretorio."@))
    } else {
        None
    }
}

/// A symlink is never accepted, whatever it points to: the flow stops with a failure
/// that names the symlink; and the folder is created only where nothing is in the way
/// or a real folder is already there.
pub proof fn lemma_symlink_never_accepted(validation: PathValidation)
    ensures
        validation.is_symlink ==> library_validation_report(validation) == Some(
            SteamLibraryCreateReportView {
                success: false,
                summary: "A SteamLibrary existe como symlink, e o wizard nao substitui symlinks."@,
                steam_library_exists: false,
            },
        ),
        library_validation_report(validation) is None ==> !validation.is_symlink && (
        !validation.exists || validation.is_directory),
        library_validation_report(validation) matches Some(r) ==> !r.success && !r.steam_library_exists,
{
}

/// A folder that is already there (and is not a symlink) is accepted: the flow goes on
/// to create it, which leaves it as it is, so a second run reports what the first did.
pub proof fn lemma_existing_folder_is_accepted(validation: PathValidation)
    requires
        validation.exists,
        validation.is_directory,
        !validation.is_symlink,
    ensures
        library_validation_report(validation) is None,
{
}

/// What follows looking at the path: the report that ends the flow, or the creation of
/// the folder.
pub fn after_library_validation(validation: &PathValidation) -> (step: SteamLibraryCreateStep)
    ensures
        match library_validation_report(*validation) {
            Some(r) => step matches SteamLibraryCreateStep::Finished(report) && report@ == r,
            None => step is CreateDirectory,
        },
        validation.is_symlink ==> (step matches SteamLibraryCreateStep::Finished(report)
            && !report.success && !report.steam_library_exists && report.summary@
            == "A SteamLibrary existe como symlink, e o wizard nao substitui symlinks."@),
        step is CreateDirectory ==> !validation.is_symlink && (!validation.exists
            || validation.is_directory),
{
    if validation.is_symlink {
        return SteamLibraryCreateStep::Finished(
            SteamLibraryCreateReport {
                success: false,
                summary: "A SteamLibrary existe como symlink, e o wizard nao substitui symlinks.".to_owned(),
                steam_library_exists: false,
            },
        );
    }
    if validation.exists && !validation.is_directory {
        return SteamLibraryCreateStep::Finished(
            SteamLibraryCreateReport {
                success: false,
                summary: "A SteamLibrary existe, mas nao e um diretorio.".to_owned(),
                steam_library_exists: false,
            },
        );
    }
    SteamLibraryCreateStep::CreateDirectory
}

/// The report once the folder was created, or failed to be.
pub fn after_library_creation(created: Result<(), IoFailure>) -> (report: SteamLibraryCreateReport)
    ensures
        match created {
            Ok(_) => report@ == (SteamLibraryCreateReportView {
                success: true,
                summary: "O diretorio SteamLibrary esta pronto."@,
                steam_library_exists: true,
            }),
            Err(e) => report@ == library_failure(
                "Nao foi possivel criar o diretorio SteamLibrary: "@ + friendly_message(e),
            ),
        },
{
    match created {
        Ok(_) => SteamLibraryCreateReport {
            success: true,
            summary: "O diretorio SteamLibrary esta pronto.".to_owned(),
            steam_library_exists: true,
        },
        Err(e) => SteamLibraryCreateReport {
            success: false,
            summary: concat_str(
                "Nao foi possivel criar o diretorio SteamLibrary: ".to_owned(),
                friendly_io_error(&e).as_str(),
            ),
            steam_library_exists: false,
        },
    }
}

} // verus!

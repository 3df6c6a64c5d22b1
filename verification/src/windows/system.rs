use vstd::prelude::*;

use crate::text::{
    ascii_lowercase, ascii_uppercase, chars_of, lemma_lowercase_ignores_case, concat_str, lowercased, same_chars, string_of, trim, trimmed,
};

verus! {

/// What the Windows flow reports about the system it runs on.
#[derive(Debug, Clone)]
pub struct WindowsSystemInfo {
    pub platform_label: &'static str,
}

/// The facts the Windows flow starts from.
pub fn inspect() -> (info: WindowsSystemInfo)
    ensures
        info.platform_label@ == "windows"@,
{
    WindowsSystemInfo { platform_label: "windows" }
}

/// Whether the terminal runs elevated, and a sentence that says so.
#[derive(Debug, Clone, PartialEq, Eq)]
pub struct WindowsAdminStatus {
    pub is_elevated: bool,
    pub summary: String,
}

/// What asking PowerShell whether the current user is an administrator came to, as text.
pub enum AdminProbe {
    /// The question cannot be asked on this system.
    Unsupported,
    /// PowerShell could not be started; the error as text.
    Failed(String),
    /// PowerShell ran: whether it exited successfully, and what it printed.
    Finished { success: bool, stdout: String, stderr: String },
}

/// Text that reads `true` in any letter case, as PowerShell prints a boolean.
pub open spec fn reads_true(s: Seq<char>) -> bool {
    ascii_lowercase(s) == seq!['t', 'r', 'u', 'e']
}

/// PowerShell's answer is read as `true` in any letter case, and nothing longer or
/// shorter than the four letters is.
pub proof fn lemma_true_in_any_case(s: Seq<char>)
    ensures
        reads_true(ascii_uppercase(s)) == reads_true(s),
        reads_true(s) ==> s.len() == 4 && (s[0] == 't' || s[0] == 'T') && (s[3] == 'e' || s[3]
            == 'E'),
{
    lemma_lowercase_ignores_case(s);
    if reads_true(s) {
        assert(ascii_lowercase(s).len() == 4);
        assert(ascii_lowercase(s)[0] == 't');
        assert(ascii_lowercase(s)[3] == 'e');
    }
}

/// Whether trimmed output reads `true`.
fn answer_is_true(output: &str) -> (r: bool)
    ensures
        r == reads_true(trim(output@)),
{
    let answer = lowercased(&trimmed(&chars_of(output)));
    let mut expected: Vec<char> = Vec::new();
    expected.push('t');
    expected.push('r');
    expected.push('u');
    expected.push('e');
    assert(expected@ =~= seq!['t', 'r', 'u', 'e']);
    same_chars(&answer, &expected)
}

/// The summaries of an admin check.
pub open spec fn elevated_summary() -> Seq<char> {
    "O terminal atual esta rodando com privilegios administrativos."@
}

/// The summary when the terminal is not elevated.
pub open spec fn not_elevated_summary() -> Seq<char> {
    "O terminal atual nao esta elevado. Abra o app como administrador para alterar o Fast Startup."@
}

/// The admin status that a probe shows: elevated only when PowerShell exited
/// successfully and printed `true`; every other outcome is reported as not elevated,
/// with a summary that says why.
pub fn admin_status(probe: AdminProbe) -> (status: WindowsAdminStatus)
    ensures
        match probe {
            AdminProbe::Unsupported => !status.is_elevated && status.summary@
                == "A verificacao de privilegios administrativos esta disponivel apenas no Windows."@,
            AdminProbe::Failed(error) => !status.is_elevated && status.summary@
                == "Nao foi possivel verificar privilegios administrativos: "@ + error@,
            AdminProbe::Finished { success, stdout, stderr } => if success {
                &&& status.is_elevated == reads_true(trim(stdout@))
                &&& status.summary@ == (if status.is_elevated {
                    elevated_summary()
                } else {
                    not_elevated_summary()
                })
            } else {
                !status.is_elevated && status.summary@
                    == "Nao foi possivel confirmar privilegios administrativos. Saida: "@ + trim(
                    stderr@,
                )
            },
        },
{
    match probe {
        AdminProbe::Unsupported => WindowsAdminStatus {
            is_elevated: false,
            summary: "A verificacao de privilegios administrativos esta disponivel apenas no Windows.".to_owned(),
        },
        AdminProbe::Failed(error) => WindowsAdminStatus {
            is_elevated: false,
            summary: concat_str(
                "Nao foi possivel verificar privilegios administrativos: ".to_owned(),
                error.as_str(),
            ),
        },
        AdminProbe::Finished { success, stdout, stderr } => {
            if success {
                let is_elevated = answer_is_true(stdout.as_str());
                WindowsAdminStatus {
                    is_elevated,
                    summary: if is_elevated {
                        "O terminal atual esta rodando com privilegios administrativos.".to_owned()
                    } else {
                        "O terminal atual nao esta elevado. Abra o app como administrador para alterar o Fast Startup.".to_owned()
                    },
                }
            } else {
                let err = string_of(&trimmed(&chars_of(stderr.as_str())));
                WindowsAdminStatus {
                    is_elevated: false,
                    summary: concat_str(
                        "Nao foi possivel confirmar privilegios administrativos. Saida: ".to_owned(),
                        err.as_str(),
                    ),
                }
            }
        },
    }
}

/// What running `powercfg /h off` printed and returned.
#[derive(Debug, Clone)]
pub struct CommandReport {
    pub success: bool,
    pub exit_code: Option<i32>,
    pub stdout: String,
    pub stderr: String,
}

/// What an attempt to run `powercfg /h off` came to, as text.
pub enum PowercfgOutcome {
    /// The command does not exist on this system.
    Unsupported,
    /// The command could not be started.
    SpawnFailed,
    /// The command ran: whether it exited successfully, its exit code, and what it printed.
    Finished { success: bool, exit_code: Option<i32>, stdout: String, stderr: String },
}

/// Why `powercfg /h off` gave no report.
#[derive(Debug, Clone, Copy, PartialEq, Eq)]
pub enum FastStartupError {
    Unsupported,
    SpawnFailed,
}

/// The message of an error.
pub open spec fn error_message(error: FastStartupError) -> Seq<char> {
    match error {
        FastStartupError::Unsupported => "powercfg /h off is only available on Windows"@,
        FastStartupError::SpawnFailed => "failed to execute powercfg /h off"@,
    }
}

impl FastStartupError {
    /// The message of the error.
    pub fn message(&self) -> (m: String)
        ensures
            m@ == error_message(*self),
    {
        match self {
            FastStartupError::Unsupported => "powercfg /h off is only available on Windows".to_owned(),
            FastStartupError::SpawnFailed => "failed to execute powercfg /h off".to_owned(),
        }
    }
}

/// The report of running `powercfg /h off`, with its output trimmed; an error when it
/// could not run.
pub fn disable_fast_startup(outcome: PowercfgOutcome) -> (report: Result<CommandReport, FastStartupError>)
    ensures
        match outcome {
            PowercfgOutcome::Unsupported => report == Err::<CommandReport, _>(FastStartupError::Unsupported),
            PowercfgOutcome::SpawnFailed => report == Err::<CommandReport, _>(FastStartupError::SpawnFailed),
            PowercfgOutcome::Finished { success, exit_code, stdout, stderr } => report matches Ok(r)
                && r.success == success && r.exit_code == exit_code && r.stdout@ == trim(stdout@)
                && r.stderr@ == trim(stderr@),
        },
{
    match outcome {
        PowercfgOutcome::Unsupported => Err(FastStartupError::Unsupported),
        PowercfgOutcome::SpawnFailed => Err(FastStartupError::SpawnFailed),
        PowercfgOutcome::Finished { success, exit_code, stdout, stderr } => Ok(
            CommandReport {
                success,
                exit_code,
                stdout: string_of(&trimmed(&chars_of(stdout.as_str()))),
                stderr: string_of(&trimmed(&chars_of(stderr.as_str()))),
            },
        ),
    }
}

} // verus!

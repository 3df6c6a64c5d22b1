use vstd::prelude::*;

use crate::app::App;
use crate::os::display_name_of;
use crate::text::{concat_str, signed_decimal, signed_decimal_string};
use crate::tui;
use crate::windows::system::{
    error_message, CommandReport, FastStartupError, WindowsAdminStatus, inspect,
};

verus! {

/// The text of the detected-system screen on Windows.
pub open spec fn detected_details_text(os_name: Seq<char>, admin_summary: Seq<char>) -> Seq<char> {
    "[INFO] Fluxo detectado: "@ + os_name + ".\nSystem module: "@ + "windows"@ + "\nAdmin: "@
        + admin_summary + "\n\nPressione Enter para abrir o assistente de Fast Startup."@
}

/// What the detected-system screen says on Windows, given the current admin status.
pub fn detected_system_details(app: &App, admin: &WindowsAdminStatus) -> (details: String)
    ensures
        details@ == detected_details_text(display_name_of(app.os()), admin.summary@),
{
    let system_info = inspect();
    let mut details = "[INFO] Fluxo detectado: ".to_owned();
    details.append(app.operating_system().display_name());
    details.append(".\nSystem module: ");
    details.append(system_info.platform_label);
    details.append("\nAdmin: ");
    details.append(admin.summary.as_str());
    details.append("\n\nPressione Enter para abrir o assistente de Fast Startup.");
    details
}

/// The screens of the Fast Startup wizard, in order.
#[derive(Debug, Clone, Copy, PartialEq, Eq)]
pub enum WindowsScreen {
    Explanation,
    Confirmation,
    Execution,
    Result,
}

/// What the wizard shows of a run of `powercfg /h off`.
#[derive(Debug, Clone)]
pub struct WindowsCommandResult {
    pub success: bool,
    pub summary: String,
    pub stdout: String,
    pub stderr: String,
    pub exit_code: Option<i32>,
}

/// The Fast Startup wizard: the screen it shows and the last command result.
#[derive(Debug, Clone)]
pub struct WindowsWizardState {
    current_screen: WindowsScreen,
    last_result: Option<WindowsCommandResult>,
}

/// The screen after `screen` when the user confirms.
pub open spec fn next_screen(screen: WindowsScreen) -> WindowsScreen {
    match screen {
        WindowsScreen::Explanation => WindowsScreen::Confirmation,
        WindowsScreen::Confirmation => WindowsScreen::Execution,
        WindowsScreen::Execution => WindowsScreen::Result,
        WindowsScreen::Result => WindowsScreen::Result,
    }
}

/// The screen before `screen` when the user goes back; from the first screen the user
/// leaves the wizard instead.
pub open spec fn previous_screen(screen: WindowsScreen) -> WindowsScreen {
    match screen {
        WindowsScreen::Explanation => WindowsScreen::Explanation,
        WindowsScreen::Confirmation => WindowsScreen::Explanation,
        WindowsScreen::Execution => WindowsScreen::Confirmation,
        WindowsScreen::Result => WindowsScreen::Execution,
    }
}

impl WindowsWizardState {
    /// The screen shown.
    pub closed spec fn screen(&self) -> WindowsScreen {
        self.current_screen
    }

    /// The last command result.
    pub closed spec fn result(&self) -> Option<WindowsCommandResult> {
        self.last_result
    }

    /// The result screen is shown only once a result exists.
    pub open spec fn well_formed(&self) -> bool {
        self.screen() is Result ==> self.result() is Some
    }

    /// The wizard at its first screen, with no result yet.
    pub fn new() -> (state: Self)
        ensures
            state.screen() is Explanation,
            state.result() is None,
            state.well_formed(),
    {
        Self { current_screen: WindowsScreen::Explanation, last_result: None }
    }

    /// The screen shown.
    pub fn current_screen(&self) -> (screen: WindowsScreen)
        ensures
            screen == self.screen(),
    {
        self.current_screen
    }

    /// The last command result.
    pub fn last_result(&self) -> (result: Option<&WindowsCommandResult>)
        ensures
            match self.result() {
                Some(r) => result == Some(&r),
                None => result is None,
            },
    {
        self.last_result.as_ref()
    }
}

/// Moves the wizard forward. On the execution screen `powercfg /h off` is due: the
/// state is left as it is and `true` is returned, and the result is handed to
/// `record_execution`. The result screen is the last one.
pub fn advance(state: &mut WindowsWizardState) -> (execution_due: bool)
    ensures
        execution_due == (old(state).screen() is Execution),
        execution_due ==> final(state).screen() == old(state).screen(),
        !execution_due ==> final(state).screen() == next_screen(old(state).screen()),
        final(state).result() == old(state).result(),
        old(state).well_formed() ==> final(state).well_formed(),
{
    match state.current_screen {
        WindowsScreen::Explanation => {
            state.current_screen = WindowsScreen::Confirmation;
            false
        },
        WindowsScreen::Confirmation => {
            state.current_screen = WindowsScreen::Execution;
            false
        },
        WindowsScreen::Execution => true,
        WindowsScreen::Result => false,
    }
}

/// Records the result of the command run on the execution screen and shows it; on any
/// other screen nothing changes.
pub fn record_execution(state: &mut WindowsWizardState, result: WindowsCommandResult)
    ensures
        old(state).screen() is Execution ==> final(state).screen() is Result && final(state).result()
            == Some(result),
        !(old(state).screen() is Execution) ==> final(state).screen() == old(state).screen()
            && final(state).result() == old(state).result(),
        old(state).well_formed() ==> final(state).well_formed(),
{
    if let WindowsScreen::Execution = state.current_screen {
        state.last_result = Some(result);
        state.current_screen = WindowsScreen::Result;
    }
}

/// Moves the wizard back one screen; on the first screen it returns `true`, for the
/// user to leave the wizard, and changes nothing.
pub fn go_back(state: &mut WindowsWizardState) -> (leave: bool)
    ensures
        leave == (old(state).screen() is Explanation),
        final(state).screen() == previous_screen(old(state).screen()),
        final(state).result() == old(state).result(),
        old(state).well_formed() ==> final(state).well_formed(),
{
    match state.current_screen {
        WindowsScreen::Explanation => true,
        WindowsScreen::Confirmation => {
            state.current_screen = WindowsScreen::Explanation;
            false
        },
        WindowsScreen::Execution => {
            state.current_screen = WindowsScreen::Confirmation;
            false
        },
        WindowsScreen::Result => {
            state.current_screen = WindowsScreen::Execution;
            false
        },
    }
}

/// Going back undoes moving forward, and moving forward undoes going back, everywhere
/// but at the two ends of the wizard.
pub proof fn lemma_back_undoes_forward(screen: WindowsScreen)
    ensures
        !(screen is Result) ==> previous_screen(next_screen(screen)) == screen,
        !(screen is Explanation) ==> next_screen(previous_screen(screen)) == screen,
{
}


// ---------------------------------------------------------------------------
// Running the command
// ---------------------------------------------------------------------------

/// What disabling Fast Startup needs next: nothing, with the result decided already, or
/// a run of `powercfg /h off`.
pub enum FastStartupRun {
    Decided(WindowsCommandResult),
    RunPowercfg,
}

/// The result view of a command result as plain values.
pub open spec fn command_result_is(
    r: WindowsCommandResult,
    success: bool,
    summary: Seq<char>,
    stdout: Seq<char>,
    stderr: Seq<char>,
    exit_code: Option<i32>,
) -> bool {
    &&& r.success == success
    &&& r.summary@ == summary
    &&& r.stdout@ == stdout
    &&& r.stderr@ == stderr
    &&& r.exit_code == exit_code
}

/// Decides, from the admin status, whether `powercfg /h off` may run: without an
/// elevated terminal the result is a failure that carries the admin summary.
pub fn run_disable_fast_startup(admin: WindowsAdminStatus) -> (run: FastStartupRun)
    ensures
        admin.is_elevated ==> run is RunPowercfg,
        !admin.is_elevated ==> (run matches FastStartupRun::Decided(r) && command_result_is(
            r,
            false,
            admin.summary@,
            Seq::empty(),
            Seq::empty(),
            None,
        )),
{
    if !admin.is_elevated {
        return FastStartupRun::Decided(
            WindowsCommandResult {
                success: false,
                summary: admin.summary,
                stdout: String::new(),
                stderr: String::new(),
                exit_code: None,
            },
        );
    }
    FastStartupRun::RunPowercfg
}

/// The summary when Windows accepted the change.
pub open spec fn disabled_summary() -> Seq<char> {
    "O Fast Startup foi desabilitado com sucesso."@
}

/// The summary when Windows refused the change.
pub open spec fn refused_summary() -> Seq<char> {
    "O Windows reportou falha ao desabilitar o Fast Startup. Em muitos casos isso significa que o terminal nao esta elevado."@
}

/// The result of a run of `powercfg /h off`: success only when the command succeeded;
/// the command's output and exit code are kept; a command that could not run is a
/// failure that says why.
pub fn fast_startup_result(outcome: Result<CommandReport, FastStartupError>) -> (result: WindowsCommandResult)
    ensures
        match outcome {
            Ok(report) => command_result_is(
                result,
                report.success,
                if report.success {
                    disabled_summary()
                } else {
                    refused_summary()
                },
                report.stdout@,
                report.stderr@,
                report.exit_code,
            ),
            Err(e) => command_result_is(
                result,
                false,
                "Nao foi possivel executar `powercfg /h off`: "@ + error_message(e),
                Seq::empty(),
                Seq::empty(),
                None,
            ),
        },
{
    match outcome {
        Ok(report) => {
            if report.success {
                WindowsCommandResult {
                    success: true,
                    summary: "O Fast Startup foi desabilitado com sucesso.".to_owned(),
                    stdout: report.stdout,
                    stderr: report.stderr,
                    exit_code: report.exit_code,
                }
            } else {
                WindowsCommandResult {
                    success: false,
                    summary: "O Windows reportou falha ao desabilitar o Fast Startup. Em muitos casos isso significa que o terminal nao esta elevado.".to_owned(),
                    stdout: report.stdout,
                    stderr: report.stderr,
                    exit_code: report.exit_code,
                }
            }
        },
        Err(error) => WindowsCommandResult {
            success: false,
            summary: concat_str("Nao foi possivel executar `powercfg /h off`: ".to_owned(), error.message().as_str()),
            stdout: String::new(),
            stderr: String::new(),
            exit_code: None,
        },
    }
}

// ---------------------------------------------------------------------------
// Views
// ---------------------------------------------------------------------------

/// A line of command output: the label, then the output or `<empty>`.
pub open spec fn output_line(label: Seq<char>, value: Seq<char>) -> Seq<char> {
    if value.len() == 0 {
        label + ": <empty>"@
    } else {
        label + ": "@ + value
    }
}

/// A line of command output: the label, then the output or `<empty>`.
pub fn present_output(label: &str, value: &str) -> (line: String)
    ensures
        line@ == output_line(label@, value@),
{
    if value.is_empty() {
        concat_str(label.to_owned(), ": <empty>")
    } else {
        let line = concat_str(label.to_owned(), ": ");
        concat_str(line, value)
    }
}

/// A message tagged as a success or an error.
pub open spec fn tagged(success: bool, message: Seq<char>) -> Seq<char> {
    if success {
        "[SUCCESS] "@ + message
    } else {
        "[ERROR] "@ + message
    }
}

/// A message tagged as a success or an error.
pub fn status_tag(success: bool, message: &str) -> (line: String)
    ensures
        line@ == tagged(success, message@),
{
    if success {
        concat_str("[SUCCESS] ".to_owned(), message)
    } else {
        concat_str("[ERROR] ".to_owned(), message)
    }
}

/// The exit code as shown: its number, or `desconhecido`.
pub open spec fn exit_code_text(code: Option<i32>) -> Seq<char> {
    match code {
        Some(c) => signed_decimal(c as int),
        None => "desconhecido"@,
    }
}

/// The body of the result screen for a result.
pub open spec fn result_body(r: WindowsCommandResult) -> Seq<char> {
    tagged(r.success, r.summary@) + "\n\n"@ + output_line("stdout"@, r.stdout@) + "\n"@
        + output_line("stderr"@, r.stderr@) + "\nExit code: "@ + exit_code_text(r.exit_code)
        + "\n\n[INFO] Proximo passo recomendado:\nshutdown /s /t 0"@
}

/// The body of the result screen before any result exists.
pub open spec fn no_result_body() -> Seq<char> {
    "[WARNING] Nenhum resultado de comando esta disponivel ainda.\n\n[INFO] Proximo passo recomendado apos uma execucao bem-sucedida:\nshutdown /s /t 0"@
}

/// The result screen: the last result with its output, or a note that there is none,
/// and the advice to shut Windows down fully.
pub fn result_view(state: &WindowsWizardState) -> (view: tui::View<'static>)
    ensures
        view.title@ == "Result"@,
        view.body@ == match state.result() {
            Some(r) => result_body(r),
            None => no_result_body(),
        },
{
    let body = match state.last_result() {
        Some(result) => {
            let mut body = status_tag(result.success, result.summary.as_str());
            body.append("\n\n");
            body.append(present_output("stdout", result.stdout.as_str()).as_str());
            body.append("\n");
            body.append(present_output("stderr", result.stderr.as_str()).as_str());
            body.append("\nExit code: ");
            let code = match result.exit_code {
                Some(c) => signed_decimal_string(c),
                None => "desconhecido".to_owned(),
            };
            body.append(code.as_str());
            body.append("\n\n[INFO] Proximo passo recomendado:\nshutdown /s /t 0");
            body
        },
        None => "[WARNING] Nenhum resultado de comando esta disponivel ainda.\n\n[INFO] Proximo passo recomendado apos uma execucao bem-sucedida:\nshutdown /s /t 0".to_owned(),
    };
    tui::View { title: "Result", body }
}

/// The body of the explanation screen.
pub open spec fn explanation_body() -> Seq<char> {
    "[INFO] Fast Startup combina hibernacao parcial com desligamento para acelerar o boot.\n\n[WARNING] Em compartilhamento de particao NTFS entre Windows e Linux, isso pode deixar o volume em estado hibrido.\n\n[SUCCESS] Desabilitar o Fast Startup ajuda a garantir que o NTFS seja fechado corretamente antes de montar no Linux."@
}

/// The body of the confirmation screen, given the admin summary.
pub open spec fn confirmation_body(admin_summary: Seq<char>) -> Seq<char> {
    "[INFO] O wizard esta pronto para desabilitar o Fast Startup com o comando:\npowercfg /h off\n\n[WARNING] Isso pode exigir privilegios administrativos. Se falhar, abra o app em um terminal elevado e tente novamente.\n\nAdmin: "@
        + admin_summary + "\n\nPressione Enter para confirmar."@
}

/// The body of the execution screen, given the admin summary.
pub open spec fn execution_body(admin_summary: Seq<char>) -> Seq<char> {
    "[INFO] Tela de execucao pronta.\nPressione Enter para executar:\npowercfg /h off\n\n[INFO] Esta etapa roda apenas no fluxo Windows.\n[WARNING] Privilegios administrativos podem ser necessarios.\nAdmin: "@
        + admin_summary + "\n\nLoading: o comando sera executado logo apos a confirmacao."@
}

/// The title and body the wizard shows, given the admin summary.
pub open spec fn wizard_view(state: Option<&WindowsWizardState>, admin_summary: Seq<char>) -> (Seq<char>, Seq<char>) {
    match state {
        None => ("Windows Wizard"@, "[ERROR] O estado do wizard Windows nao esta disponivel."@),
        Some(s) => match s.screen() {
            WindowsScreen::Explanation => ("Windows | Fast Startup"@, explanation_body()),
            WindowsScreen::Confirmation => ("Windows | Confirmar Alteracao"@, confirmation_body(admin_summary)),
            WindowsScreen::Execution => ("Windows | Executar Comando"@, execution_body(admin_summary)),
            WindowsScreen::Result => ("Result"@, match s.result() {
                Some(r) => result_body(r),
                None => no_result_body(),
            }),
        },
    }
}

/// What the wizard shows on its current screen, given the current admin status; a
/// missing wizard state is reported as an error.
pub fn current_view(state: Option<&WindowsWizardState>, admin: &WindowsAdminStatus) -> (view: tui::View<'static>)
    ensures
        (view.title@, view.body@) == wizard_view(state, admin.summary@),
{
    let state = match state {
        Some(s) => s,
        None => {
            return tui::View {
                title: "Windows Wizard",
                body: "[ERROR] O estado do wizard Windows nao esta disponivel.".to_owned(),
            };
        },
    };
    match state.current_screen() {
        WindowsScreen::Explanation => tui::View {
            title: "Windows | Fast Startup",
            body: "[INFO] Fast Startup combina hibernacao parcial com desligamento para acelerar o boot.\n\n[WARNING] Em compartilhamento de particao NTFS entre Windows e Linux, isso pode deixar o volume em estado hibrido.\n\n[SUCCESS] Desabilitar o Fast Startup ajuda a garantir que o NTFS seja fechado corretamente antes de montar no Linux.".to_owned(),
        },
        WindowsScreen::Confirmation => {
            let mut body = "[INFO] O wizard esta pronto para desabilitar o Fast Startup com o comando:\npowercfg /h off\n\n[WARNING] Isso pode exigir privilegios administrativos. Se falhar, abra o app em um terminal elevado e tente novamente.\n\nAdmin: ".to_owned();
            body.append(admin.summary.as_str());
            body.append("\n\nPressione Enter para confirmar.");
            tui::View { title: "Windows | Confirmar Alteracao", body }
        },
        WindowsScreen::Execution => {
            let mut body = "[INFO] Tela de execucao pronta.\nPressione Enter para executar:\npowercfg /h off\n\n[INFO] Esta etapa roda apenas no fluxo Windows.\n[WARNING] Privilegios administrativos podem ser necessarios.\nAdmin: ".to_owned();
            body.append(admin.summary.as_str());
            body.append("\n\nLoading: o comando sera executado logo apos a confirmacao.");
            tui::View { title: "Windows | Executar Comando", body }
        },
        WindowsScreen::Result => result_view(state),
    }
}

/// The key hints of the wizard.
pub open spec fn wizard_hints(state: Option<&WindowsWizardState>) -> Seq<char> {
    match state {
        None => "q sair"@,
        Some(s) => match s.screen() {
            WindowsScreen::Result => "Esc voltar | q sair"@,
            _ => "Enter confirmar | Esc voltar | q sair"@,
        },
    }
}

/// The key hints for the wizard's current screen.
pub fn key_hints(state: Option<&WindowsWizardState>) -> (hints: &'static str)
    ensures
        hints@ == wizard_hints(state),
{
    match state {
        None => "q sair",
        Some(s) => match s.current_screen() {
            WindowsScreen::Explanation => "Enter confirmar | Esc voltar | q sair",
            WindowsScreen::Confirmation => "Enter confirmar | Esc voltar | q sair",
            WindowsScreen::Execution => "Enter confirmar | Esc voltar | q sair",
            WindowsScreen::Result => "Esc voltar | q sair",
        },
    }
}

} // verus!

use ntfs_share_wizard::app::App;
use ntfs_share_wizard::os::OperatingSystem;
use ntfs_share_wizard::windows::system::{
    admin_status, disable_fast_startup, inspect, AdminProbe, CommandReport, FastStartupError,
    PowercfgOutcome, WindowsAdminStatus,
};
use ntfs_share_wizard::windows::wizard::{
    advance, current_view, detected_system_details, fast_startup_result, go_back, key_hints,
    present_output, record_execution, result_view, run_disable_fast_startup, status_tag,
    FastStartupRun, WindowsCommandResult, WindowsScreen, WindowsWizardState,
};

fn admin(is_elevated: bool) -> WindowsAdminStatus {
    WindowsAdminStatus { is_elevated, summary: "ADMIN".to_owned() }
}

fn result(success: bool, exit_code: Option<i32>) -> WindowsCommandResult {
    WindowsCommandResult {
        success,
        summary: "done".to_owned(),
        stdout: String::new(),
        stderr: "warn".to_owned(),
        exit_code,
    }
}

fn finished(success: bool, stdout: &str, stderr: &str) -> AdminProbe {
    AdminProbe::Finished { success, stdout: stdout.to_owned(), stderr: stderr.to_owned() }
}

#[test]
fn windows_facts() {
    assert_eq!(inspect().platform_label, "windows");
}

#[test]
fn admin_status_reads_powershell() {
    let s = admin_status(finished(true, "True\r\n", ""));
    assert!(s.is_elevated);
    assert_eq!(s.summary, "O terminal atual esta rodando com privilegios administrativos.");
    let s = admin_status(finished(true, " false ", ""));
    assert!(!s.is_elevated);
    assert_eq!(
        s.summary,
        "O terminal atual nao esta elevado. Abra o app como administrador para alterar o Fast Startup."
    );
    assert!(!admin_status(finished(true, "truer", "")).is_elevated);
    let s = admin_status(finished(false, "True", "  access denied \n"));
    assert!(!s.is_elevated);
    assert_eq!(s.summary, "Nao foi possivel confirmar privilegios administrativos. Saida: access denied");
    let s = admin_status(AdminProbe::Failed("program not found".to_owned()));
    assert!(!s.is_elevated);
    assert_eq!(s.summary, "Nao foi possivel verificar privilegios administrativos: program not found");
    let s = admin_status(AdminProbe::Unsupported);
    assert_eq!(
        s.summary,
        "A verificacao de privilegios administrativos esta disponivel apenas no Windows."
    );
}

#[test]
fn powercfg_report() {
    let r = disable_fast_startup(PowercfgOutcome::Finished {
        success: true,
        exit_code: Some(0),
        stdout: " ok \n".to_owned(),
        stderr: "".to_owned(),
    })
    .unwrap();
    assert!(r.success);
    assert_eq!(r.exit_code, Some(0));
    assert_eq!(r.stdout, "ok");
    assert_eq!(r.stderr, "");
    let e = disable_fast_startup(PowercfgOutcome::Unsupported).err().unwrap();
    assert_eq!(e, FastStartupError::Unsupported);
    assert_eq!(e.message(), "powercfg /h off is only available on Windows");
    let e = disable_fast_startup(PowercfgOutcome::SpawnFailed).err().unwrap();
    assert_eq!(e.message(), "failed to execute powercfg /h off");
}

#[test]
fn fast_startup_needs_an_elevated_terminal() {
    assert!(matches!(run_disable_fast_startup(admin(true)), FastStartupRun::RunPowercfg));
    match run_disable_fast_startup(admin(false)) {
        FastStartupRun::Decided(r) => {
            assert!(!r.success);
            assert_eq!(r.summary, "ADMIN");
            assert_eq!(r.exit_code, None);
        }
        _ => panic!(),
    }
}

#[test]
fn fast_startup_results() {
    let report = |success| CommandReport {
        success,
        exit_code: Some(if success { 0 } else { 1 }),
        stdout: "out".to_owned(),
        stderr: "err".to_owned(),
    };
    let r = fast_startup_result(Ok(report(true)));
    assert!(r.success);
    assert_eq!(r.summary, "O Fast Startup foi desabilitado com sucesso.");
    assert_eq!(r.stdout, "out");
    assert_eq!(r.exit_code, Some(0));
    let r = fast_startup_result(Ok(report(false)));
    assert!(!r.success);
    assert_eq!(r.stderr, "err");
    assert_eq!(r.summary, "O Windows reportou falha ao desabilitar o Fast Startup. Em muitos casos isso significa que o terminal nao esta elevado.");
    let r = fast_startup_result(Err(FastStartupError::SpawnFailed));
    assert!(!r.success);
    assert_eq!(
        r.summary,
        "Nao foi possivel executar `powercfg /h off`: failed to execute powercfg /h off"
    );
}

#[test]
fn wizard_moves_forward_and_back() {
    let mut s = WindowsWizardState::new();
    assert_eq!(s.current_screen(), WindowsScreen::Explanation);
    assert!(s.last_result().is_none());
    assert!(go_back(&mut s));
    assert_eq!(s.current_screen(), WindowsScreen::Explanation);
    assert!(!advance(&mut s));
    assert_eq!(s.current_screen(), WindowsScreen::Confirmation);
    assert!(!go_back(&mut s));
    assert_eq!(s.current_screen(), WindowsScreen::Explanation);
    assert!(!advance(&mut s));
    assert!(!advance(&mut s));
    assert_eq!(s.current_screen(), WindowsScreen::Execution);
    // the command is due; nothing moves until its result is recorded
    assert!(advance(&mut s));
    assert_eq!(s.current_screen(), WindowsScreen::Execution);
    record_execution(&mut s, result(true, Some(0)));
    assert_eq!(s.current_screen(), WindowsScreen::Result);
    assert_eq!(s.last_result().unwrap().summary, "done");
    assert!(!advance(&mut s));
    assert_eq!(s.current_screen(), WindowsScreen::Result);
    assert!(!go_back(&mut s));
    assert_eq!(s.current_screen(), WindowsScreen::Execution);
    assert!(s.last_result().is_some());
    assert!(!go_back(&mut s));
    assert_eq!(s.current_screen(), WindowsScreen::Confirmation);
    // recording outside the execution screen changes nothing
    record_execution(&mut s, result(false, None));
    assert_eq!(s.current_screen(), WindowsScreen::Confirmation);
    assert!(s.last_result().unwrap().success);
}

#[test]
fn output_lines_and_tags() {
    assert_eq!(present_output("stdout", ""), "stdout: <empty>");
    assert_eq!(present_output("stderr", "x"), "stderr: x");
    assert_eq!(status_tag(true, "m"), "[SUCCESS] m");
    assert_eq!(status_tag(false, "m"), "[ERROR] m");
}

fn at_result(r: WindowsCommandResult) -> WindowsWizardState {
    let mut s = WindowsWizardState::new();
    advance(&mut s);
    advance(&mut s);
    record_execution(&mut s, r);
    s
}

#[test]
fn result_screen_text() {
    let v = result_view(&at_result(result(true, Some(-1))));
    assert_eq!(v.title, "Result");
    assert_eq!(
        v.body,
        "[SUCCESS] done\n\nstdout: <empty>\nstderr: warn\nExit code: -1\n\n[INFO] Proximo passo recomendado:\nshutdown /s /t 0"
    );
    let v = result_view(&at_result(result(false, None)));
    assert_eq!(
        v.body,
        "[ERROR] done\n\nstdout: <empty>\nstderr: warn\nExit code: desconhecido\n\n[INFO] Proximo passo recomendado:\nshutdown /s /t 0"
    );
}

#[test]
fn wizard_screens_text() {
    let a = admin(false);
    let v = current_view(None, &a);
    assert_eq!(v.title, "Windows Wizard");
    assert_eq!(v.body, "[ERROR] O estado do wizard Windows nao esta disponivel.");
    let mut s = WindowsWizardState::new();
    let v = current_view(Some(&s), &a);
    assert_eq!(v.title, "Windows | Fast Startup");
    assert_eq!(v.body, [
        "[INFO] Fast Startup combina hibernacao parcial com desligamento para acelerar o boot.",
        "",
        "[WARNING] Em compartilhamento de particao NTFS entre Windows e Linux, isso pode deixar o volume em estado hibrido.",
        "",
        "[SUCCESS] Desabilitar o Fast Startup ajuda a garantir que o NTFS seja fechado corretamente antes de montar no Linux.",
    ].join("\n"));
    advance(&mut s);
    let v = current_view(Some(&s), &a);
    assert_eq!(v.title, "Windows | Confirmar Alteracao");
    assert_eq!(v.body, [
        "[INFO] O wizard esta pronto para desabilitar o Fast Startup com o comando:",
        "powercfg /h off",
        "",
        "[WARNING] Isso pode exigir privilegios administrativos. Se falhar, abra o app em um terminal elevado e tente novamente.",
        "",
        "Admin: ADMIN",
        "",
        "Pressione Enter para confirmar.",
    ].join("\n"));
    advance(&mut s);
    let v = current_view(Some(&s), &a);
    assert_eq!(v.title, "Windows | Executar Comando");
    assert_eq!(v.body, [
        "[INFO] Tela de execucao pronta.",
        "Pressione Enter para executar:",
        "powercfg /h off",
        "",
        "[INFO] Esta etapa roda apenas no fluxo Windows.",
        "[WARNING] Privilegios administrativos podem ser necessarios.",
        "Admin: ADMIN",
        "",
        "Loading: o comando sera executado logo apos a confirmacao.",
    ].join("\n"));
    assert_eq!(key_hints(Some(&s)), "Enter confirmar | Esc voltar | q sair");
    record_execution(&mut s, result(true, Some(0)));
    assert_eq!(current_view(Some(&s), &a).title, "Result");
    assert_eq!(key_hints(Some(&s)), "Esc voltar | q sair");
    assert_eq!(key_hints(None), "q sair");
}

#[test]
fn windows_detected_details() {
    let app = App::new(OperatingSystem::Windows);
    assert_eq!(
        detected_system_details(&app, &admin(true)),
        "[INFO] Fluxo detectado: Windows.\nSystem module: windows\nAdmin: ADMIN\n\nPressione Enter para abrir o assistente de Fast Startup."
    );
}

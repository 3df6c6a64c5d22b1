use ntfs_share_wizard::linux::mount::{
    after_library_creation, after_library_privilege, after_library_validation,
    after_mount_command, after_mount_inspection, after_mount_privilege,
    after_steam_library_validation, after_write_test, apply_mount_and_validate,
    apply_mount_and_validate_unsupported, create_steam_library_directory,
    create_steam_library_directory_unsupported, detect_fast_startup_warning, friendly_io_error,
    inspect_mountpoint, write_test_path, MountCommandOutput, MountInspectDue, MountStep,
    SteamLibraryCreateStep,
};
use ntfs_share_wizard::linux::system::{
    default_mountpoint, default_steam_library_path, inspect, IoFailure, PathValidation,
    PrivilegeStatus,
};

const WARNING: &str = "A particao NTFS pode estar em um estado inseguro vindo do Windows. Verifique se o Fast Startup ainda esta ativo e faca um desligamento completo do Windows antes de tentar novamente.";

fn root() -> PrivilegeStatus {
    PrivilegeStatus { is_root: true, summary: "root".to_owned() }
}

fn user() -> PrivilegeStatus {
    PrivilegeStatus { is_root: false, summary: "Execute com sudo.".to_owned() }
}

fn library(exists: bool, is_directory: bool, is_symlink: bool, can_create: bool) -> PathValidation {
    PathValidation { exists, is_directory, is_symlink, can_create }
}

#[test]
fn linux_facts() {
    let info = inspect();
    assert_eq!(info.platform_label, "linux");
    assert_eq!(info.fstab_mount_point, "/media/gamedisk");
    assert_eq!(default_mountpoint(), "/media/gamedisk");
    assert_eq!(default_steam_library_path(), "/media/gamedisk/SteamLibrary");
}

#[test]
fn mount_table_is_read_for_the_mountpoint() {
    let table = "sysfs /sys sysfs rw,nosuid 0 0\n/dev/sdb1 /media/gamedisk fuseblk rw,user_id=0 0 0\n";
    let s = inspect_mountpoint(table);
    assert!(s.mounted && !s.readonly);
    let s = inspect_mountpoint("/dev/sdb1 /media/gamedisk fuseblk ro,relatime 0 0");
    assert!(s.mounted && s.readonly);
    // `ro` must be a whole option
    let s = inspect_mountpoint("/dev/sdb1 /media/gamedisk fuseblk rw,errors=remount-ro 0 0");
    assert!(s.mounted && !s.readonly);
    // the first entry for the mountpoint decides
    let s = inspect_mountpoint("a /media/gamedisk x rw 0 0\nb /media/gamedisk x ro 0 0\n");
    assert!(s.mounted && !s.readonly);
    // an entry without options is not read-only
    let s = inspect_mountpoint("a   /media/gamedisk\tx\n");
    assert!(s.mounted && !s.readonly);
    let s = inspect_mountpoint("a /media/gamedisk/SteamLibrary x ro 0 0\n/media/gamedisk\n");
    assert!(!s.mounted && !s.readonly);
    let s = inspect_mountpoint("");
    assert!(!s.mounted);
}

#[test]
fn fast_startup_hints() {
    assert_eq!(detect_fast_startup_warning("", None), None);
    assert_eq!(
        detect_fast_startup_warning("Windows is HIBERNATED, refused to mount.", None).as_deref(),
        Some(WARNING)
    );
    assert_eq!(
        detect_fast_startup_warning("ok", Some("The Volume Is Dirty")).as_deref(),
        Some(WARNING)
    );
    // the two texts are joined by a space before the search
    assert_eq!(detect_fast_startup_warning("fast", Some("startup")).as_deref(), Some(WARNING));
    assert_eq!(detect_fast_startup_warning("fast", None), None);
    assert_eq!(detect_fast_startup_warning("UNSAFE STATE", None).as_deref(), Some(WARNING));
    assert_eq!(
        detect_fast_startup_warning("Metadata kept in Windows cache", None).as_deref(),
        Some(WARNING)
    );
}

#[test]
fn write_test_path_names_the_time() {
    assert_eq!(write_test_path(12), "/media/gamedisk/.ntfs-share-wizard-write-test-12");
}

#[test]
fn friendly_errors_in_portuguese() {
    let e = IoFailure { permission_denied: true, message: "x".to_owned() };
    assert_eq!(
        friendly_io_error(&e),
        "permissao negada. Execute o app novamente com privilegios suficientes."
    );
    let e = IoFailure { permission_denied: false, message: "x".to_owned() };
    assert_eq!(friendly_io_error(&e), "x");
}

#[test]
fn mount_needs_root() {
    assert!(matches!(apply_mount_and_validate(), MountStep::CheckPrivilege));
    assert!(matches!(after_mount_privilege(&root()), MountStep::RunMount));
    match after_mount_privilege(&user()) {
        MountStep::Finished(r) => {
            assert!(!r.success);
            assert_eq!(
                r.summary,
                "A aplicacao de `mount -a` e a validacao final exigem privilegios de root. Execute com sudo."
            );
        }
        _ => panic!(),
    }
}

#[test]
fn mount_command_failure_is_reported() {
    let e = IoFailure { permission_denied: false, message: "not found".to_owned() };
    match after_mount_command(Err(e)) {
        MountStep::Finished(r) => {
            assert_eq!(r.mount_command_stderr, "not found");
            assert_eq!(r.summary, "Nao foi possivel executar `mount -a`: not found");
            assert!(!r.mountpoint_mounted);
        }
        _ => panic!(),
    }
}

fn inspected(stdout: &str, stderr: &str) -> MountInspectDue {
    match after_mount_command(Ok(MountCommandOutput {
        stdout: stdout.to_owned(),
        stderr: stderr.to_owned(),
    })) {
        MountStep::InspectMountpoint(due) => due,
        _ => panic!("the mount table comes next"),
    }
}

#[test]
fn writable_mount_succeeds() {
    let due = inspected("  mounted \n", "\t");
    let due = match after_mount_inspection(due, "/dev/sdb1 /media/gamedisk fuseblk rw 0 0\n") {
        MountStep::WriteTest(due) => due,
        _ => panic!("a write test comes next"),
    };
    let due = match after_write_test(due, Ok(())) {
        MountStep::ValidateSteamLibrary(due) => due,
        _ => panic!(),
    };
    let r = after_steam_library_validation(due, &library(true, true, false, false));
    assert!(r.success && r.mountpoint_mounted && r.read_write && r.write_test_succeeded);
    assert_eq!(r.mount_command_stdout, "mounted");
    assert_eq!(r.mount_command_stderr, "");
    assert!(r.steam_library_exists && !r.steam_library_can_create);
    assert_eq!(r.readonly_diagnostic, None);
    assert_eq!(r.fast_startup_warning, None);
    assert_eq!(
        r.summary,
        "O `mount -a` funcionou, o mountpoint esta com escrita liberada e a particao esta pronta para validacao."
    );
}

#[test]
fn readonly_mount_skips_the_write_test() {
    let due = inspected("", "");
    let due = match after_mount_inspection(due, "/dev/sdb1 /media/gamedisk fuseblk ro 0 0\n") {
        MountStep::ValidateSteamLibrary(due) => due,
        _ => panic!("no write test on a read-only mount"),
    };
    let r = after_steam_library_validation(due, &library(false, false, false, true));
    assert!(!r.success && r.mountpoint_mounted && !r.read_write && !r.write_test_succeeded);
    assert_eq!(
        r.readonly_diagnostic.as_deref(),
        Some("O mountpoint esta montado, mas atualmente esta em modo somente leitura.")
    );
    // a read-only mount is itself a sign of a volume left unsafe by Windows
    assert_eq!(r.fast_startup_warning.as_deref(), Some(WARNING));
    assert!(!r.steam_library_exists && r.steam_library_can_create);
    assert_eq!(r.summary, "A particao esta montada, mas apenas em modo somente leitura.");
}

#[test]
fn unmounted_and_failed_write_test() {
    let due = inspected("", "The disk contains an unclean file system. Windows is hibernated");
    let due = match after_mount_inspection(due, "") {
        MountStep::ValidateSteamLibrary(due) => due,
        _ => panic!(),
    };
    let r = after_steam_library_validation(due, &library(false, false, false, false));
    assert!(!r.success && !r.mountpoint_mounted);
    assert_eq!(r.fast_startup_warning.as_deref(), Some(WARNING));
    assert_eq!(
        r.summary,
        "O `mount -a` nao deixou `/media/gamedisk` montado. Revise a saida do comando e a entrada do fstab."
    );

    let due = inspected("", "");
    let due = match after_mount_inspection(due, "x /media/gamedisk y rw 0 0") {
        MountStep::WriteTest(due) => due,
        _ => panic!(),
    };
    let e = IoFailure { permission_denied: true, message: "x".to_owned() };
    let due = match after_write_test(due, Err(e)) {
        MountStep::ValidateSteamLibrary(due) => due,
        _ => panic!(),
    };
    let r = after_steam_library_validation(due, &library(true, false, true, false));
    assert!(!r.success && r.mountpoint_mounted && !r.read_write);
    assert!(!r.steam_library_exists);
    assert_eq!(
        r.readonly_diagnostic.as_deref(),
        Some("O teste de escrita falhou: permissao negada. Execute o app novamente com privilegios suficientes.")
    );
    assert_eq!(r.summary, "O mountpoint foi encontrado, mas o teste de escrita falhou.");
}

#[test]
fn mount_unsupported() {
    let r = apply_mount_and_validate_unsupported();
    assert!(!r.success);
    assert_eq!(r.summary, "A validacao de montagem esta disponivel apenas no Linux.");
}

#[test]
fn steam_library_flow() {
    assert!(matches!(create_steam_library_directory(), SteamLibraryCreateStep::CheckPrivilege));
    match after_library_privilege(&user()) {
        SteamLibraryCreateStep::Finished(r) => assert_eq!(
            r.summary,
            "A criacao da SteamLibrary exige privilegios de root. Execute com sudo."
        ),
        _ => panic!(),
    }
    assert!(matches!(after_library_privilege(&root()), SteamLibraryCreateStep::ValidatePath));
    match after_library_validation(&library(true, true, true, false)) {
        SteamLibraryCreateStep::Finished(r) => {
            assert!(!r.success && !r.steam_library_exists);
            assert_eq!(r.summary, "A SteamLibrary existe como symlink, e o wizard nao substitui symlinks.");
        }
        _ => panic!(),
    }
    match after_library_validation(&library(true, false, false, false)) {
        SteamLibraryCreateStep::Finished(r) => {
            assert_eq!(r.summary, "A SteamLibrary existe, mas nao e um diretorio.")
        }
        _ => panic!(),
    }
    assert!(matches!(
        after_library_validation(&library(true, true, false, false)),
        SteamLibraryCreateStep::CreateDirectory
    ));
    assert!(matches!(
        after_library_validation(&library(false, false, false, true)),
        SteamLibraryCreateStep::CreateDirectory
    ));
    let r = after_library_creation(Ok(()));
    assert!(r.success && r.steam_library_exists);
    assert_eq!(r.summary, "O diretorio SteamLibrary esta pronto.");
    let e = IoFailure { permission_denied: false, message: "disk full".to_owned() };
    let r = after_library_creation(Err(e));
    assert!(!r.success && !r.steam_library_exists);
    assert_eq!(r.summary, "Nao foi possivel criar o diretorio SteamLibrary: disk full");
    let r = create_steam_library_directory_unsupported();
    assert_eq!(r.summary, "A criacao da SteamLibrary esta disponivel apenas no Linux.");
}

#[test]
fn hints_ignore_letter_case() {
    for (o, d) in [("Windows is hibernated", None), ("x", Some("volume is dirty")), ("fine", None)] {
        let upper = d.map(|s: &str| s.to_ascii_uppercase());
        assert_eq!(
            detect_fast_startup_warning(o, d),
            detect_fast_startup_warning(&o.to_ascii_uppercase(), upper.as_deref())
        );
    }
}

#[test]
fn existing_folder_is_accepted_again() {
    let first = after_library_creation(Ok(()));
    assert!(matches!(
        after_library_validation(&library(true, true, false, false)),
        SteamLibraryCreateStep::CreateDirectory
    ));
    let second = after_library_creation(Ok(()));
    assert_eq!(first, second);
}

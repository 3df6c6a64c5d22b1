# ntfs_share_wizard

A wizard that prepares an NTFS partition shared between Windows and Linux (for one
Steam library used by both). The library in `src/` holds the decisions of every flow
and of the screen navigation, with their proofs; the program in `app/` reads the
system, runs the commands, touches the files, reads the keys and draws the terminal.

## Layout

- `src/text.rs`: models of `str::lines`, `str::split_whitespace`, `str::split`,
  `str::trim`, `str::contains` and ASCII lower-casing over character sequences, the
  verified functions that compute them, decimal formatting, and facts about lines.
- `src/linux/system.rs`: the adopted mountpoint, Steam library path and fstab entry
  (`UUID=<uuid> /media/gamedisk ntfs-3g uid=1000,gid=1000,rw,noatime,user,exec,umask=022,nofail 0 0`).
- `src/linux/fstab.rs`: detection of an existing entry, the appended text, and the
  steps of a safe write (read, mountpoint, backup, write), with the laws that a written
  entry is found again and that appending never hides an existing one.
- `src/linux/mount.rs`: reading `/proc/mounts`, the Fast Startup hints, and the steps of
  `mount -a` with its checks and of creating the Steam library folder.
- `src/windows/`: the admin check, the `powercfg /h off` report, and the Fast Startup
  wizard (its screens, moves and views).
- `src/os/`, `src/app.rs`, `src/tui.rs`: the operating system, the app state, the
  screens' text, and what each key does to the screen and the wizard.

Each flow is a sequence of steps: a library function says which operation is due,
`app/` performs it and hands its outcome to the next library function. The event loop
works the same way: `tui::on_key` moves the screens and says when `powercfg /h off`
is due, and `app/` runs it and hands back its result.

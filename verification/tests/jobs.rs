use dev_machine::components::effects::{Action, Awaiting, Effect, Level, Reply};
use dev_machine::components::git::Git;
use dev_machine::components::job::Job;
use dev_machine::components::powershell::PowerShell;
use dev_machine::components::traits::{Exportable, Importable, Upgradable};
use dev_machine::components::vscode::{installed_extensions, ExtensionFolder, ExtensionsConfig, VsCode};
use dev_machine::components::winget::WinGet;
use dev_machine::components::wsl::Wsl;
use dev_machine::error::BootstrapError;
use dev_machine::utils::shell::CommandResult;

/// The kind of reply an effect gets.
fn reply_kind(e: &Effect) -> Awaiting {
    match e {
        Effect::CommandExists(_) | Effect::PathExists(_) => Awaiting::Flag,
        Effect::EnsureDir(_)
        | Effect::CopyFile { .. }
        | Effect::WriteFile { .. }
        | Effect::RemoveFile(_)
        | Effect::SaveExtensions { .. } => Awaiting::Done,
        Effect::TempPath(_) => Awaiting::Path,
        Effect::Run(_) | Effect::RunInteractive(_) => Awaiting::Ran,
        Effect::ReadFile(_) => Awaiting::Text,
        Effect::LoadExtensions(_) => Awaiting::Extensions,
        Effect::ScanExtensions(_) => Awaiting::Folders,
        Effect::Finish(_) => Awaiting::Nothing,
    }
}

/// Runs a job to its end, answering each effect with `answer`; checks at each
/// move that the job waits for the kind of reply its effect gets.  Gives the
/// actions in order.
fn drive(mut job: Job, mut answer: impl FnMut(&Effect) -> Reply) -> Vec<Action> {
    let mut log = Vec::new();
    let mut reply = Reply::Begin;
    for _ in 0..200 {
        assert!(job.accepts(&reply), "the job refused a reply of the kind it waits for");
        let (next, action) = job.step(reply);
        assert_eq!(next.awaits(), reply_kind(&action.effect));
        job = next;
        let finished = matches!(action.effect, Effect::Finish(_));
        reply = if finished { Reply::Begin } else { answer(&action.effect) };
        log.push(action);
        if finished {
            assert!(job.is_over());
            return log;
        }
    }
    panic!("the job did not finish");
}

fn ran(stdout: &str) -> Reply {
    Reply::Ran(Ok(CommandResult { stdout: stdout.to_string(), stderr: String::new(), success: true, exit_code: Some(0) }))
}

fn outcome(log: &[Action]) -> &Result<(), BootstrapError> {
    match &log.last().unwrap().effect {
        Effect::Finish(r) => r,
        _ => panic!("no finish"),
    }
}

fn notes(log: &[Action]) -> Vec<(Level, String)> {
    log.iter().flat_map(|a| a.notes.iter().map(|n| (n.level, n.text.clone()))).collect()
}

/// Every file or directory the actions create or overwrite lies below `root`.
fn assert_inside(log: &[Action], root: &str) {
    for a in log {
        let written = match &a.effect {
            Effect::EnsureDir(p) | Effect::WriteFile { path: p, .. } | Effect::SaveExtensions { path: p, .. } => Some(p),
            Effect::CopyFile { to, .. } => Some(to),
            _ => None,
        };
        if let Some(p) = written {
            assert!(p.starts_with(&format!("{}\\", root)), "{} is not below {}", p, root);
        }
    }
}

fn runs(log: &[Action]) -> Vec<Vec<String>> {
    log.iter()
        .filter_map(|a| match &a.effect {
            Effect::Run(c) | Effect::RunInteractive(c) => {
                let mut v = vec![c.program.clone()];
                v.extend(c.args.iter().cloned());
                Some(v)
            },
            _ => None,
        })
        .collect()
}

#[test]
fn git_import_without_git_runs_nothing() {
    let job = Git::new().import("C:\\cfg");
    let log = drive(job, |e| match e {
        Effect::CommandExists(p) => {
            assert_eq!(p, "git");
            Reply::Flag(false)
        },
        _ => panic!("unexpected effect {:?}", e),
    });
    assert_eq!(log.len(), 2);
    assert!(outcome(&log).is_ok());
    assert_eq!(notes(&log), vec![(Level::Warning, "Git not found. Skipping.".to_string())]);
    assert!(runs(&log).is_empty());
}

#[test]
fn git_import_includes_the_dotfile_then_sets_defaults() {
    let job = Git::new().import("C:\\cfg");
    let log = drive(job, |e| match e {
        Effect::CommandExists(_) | Effect::PathExists(_) => Reply::Flag(true),
        Effect::Run(_) => ran(""),
        _ => panic!("unexpected effect {:?}", e),
    });
    assert!(outcome(&log).is_ok());
    let expected: Vec<Vec<&str>> = vec![
        vec!["git", "config", "--global", "include.path", "C:\\cfg\\dotfiles\\git\\.gitconfig"],
        vec!["git", "config", "--global", "init.defaultBranch", "main"],
        vec!["git", "config", "--global", "fetch.prune", "true"],
        vec!["git", "config", "--global", "pull.rebase", "false"],
        vec!["git", "config", "--global", "core.autocrlf", "false"],
        vec!["git", "config", "--global", "credential.helper", "manager"],
    ];
    assert_eq!(runs(&log), expected);
    let shown = notes(&log);
    assert_eq!(shown[0], (Level::Info, "Applying dotfiles gitconfig include...".to_string()));
    assert_eq!(shown[1], (Level::Success, "Git defaults applied.".to_string()));
}

#[test]
fn git_import_fails_when_the_include_cannot_run() {
    let job = Git::new().import("C:\\cfg");
    let log = drive(job, |e| match e {
        Effect::CommandExists(_) | Effect::PathExists(_) => Reply::Flag(true),
        Effect::Run(_) => Reply::Ran(Err(BootstrapError::command_not_found("git", "Ensure it is installed and in PATH"))),
        _ => panic!("unexpected effect {:?}", e),
    });
    assert_eq!(
        outcome(&log),
        &Err(BootstrapError::command_not_found("git", "Ensure it is installed and in PATH"))
    );
}

#[test]
fn git_export_copies_the_global_config() {
    let job = Git::new().export("C:\\cfg");
    let log = drive(job, |e| match e {
        Effect::EnsureDir(d) => {
            assert_eq!(d, "C:\\cfg\\dotfiles\\git");
            Reply::Done(Ok(()))
        },
        Effect::PathExists(p) => {
            assert!(p.ends_with(".gitconfig"));
            Reply::Flag(true)
        },
        Effect::CopyFile { to, .. } => {
            assert_eq!(to, "C:\\cfg\\dotfiles\\git\\.gitconfig");
            Reply::Done(Ok(()))
        },
        _ => panic!("unexpected effect {:?}", e),
    });
    assert_inside(&log, "C:\\cfg");
    match outcome(&log) {
        Ok(()) => assert_eq!(notes(&log), vec![(Level::Success, "Exported .gitconfig".to_string())]),
        Err(e) => assert_eq!(e, &BootstrapError::Path("Could not determine home directory".to_string())),
    }
}

#[test]
fn git_export_stops_on_a_directory_error() {
    let job = Git::new().export("C:\\cfg");
    let err = BootstrapError::io("C:\\cfg\\dotfiles\\git", "denied");
    let log = drive(job, |_| Reply::Done(Err(BootstrapError::io("C:\\cfg\\dotfiles\\git", "denied"))));
    assert_eq!(outcome(&log), &Err(err));
    assert_eq!(log.len(), 2);
}

#[test]
fn winget_missing_is_an_error() {
    for job in [WinGet::new().export("C:\\cfg"), WinGet::new().import("C:\\cfg"), WinGet::new().upgrade("C:\\cfg")] {
        let log = drive(job, |e| match e {
            Effect::CommandExists(p) => {
                assert_eq!(p, "winget");
                Reply::Flag(false)
            },
            _ => panic!("unexpected effect {:?}", e),
        });
        let expected = BootstrapError::command_not_found("winget", "Install 'App Installer' from Microsoft Store.");
        assert_eq!(outcome(&log), &Err(expected));
        assert!(runs(&log).is_empty());
    }
}

#[test]
fn ensure_available_names_the_missing_tool() {
    assert!(WinGet::new().ensure_available(true).is_ok());
    assert_eq!(
        WinGet::new().ensure_available(false).unwrap_err().message(),
        "Command 'winget' not found. Install 'App Installer' from Microsoft Store."
    );
}

const WINGET_EXPORT: &str = r#"{"$schema":"x","Sources":[{"Packages":[{},{},{},{}]},{"Packages":[1,2,3]},{"Other":[]}]}"#;

#[test]
fn winget_export_writes_the_read_text_and_counts_packages() {
    let job = WinGet::new().export("C:\\cfg");
    let log = drive(job, |e| match e {
        Effect::CommandExists(_) | Effect::PathExists(_) => Reply::Flag(true),
        Effect::EnsureDir(d) => {
            assert_eq!(d, "C:\\cfg\\config");
            Reply::Done(Ok(()))
        },
        Effect::TempPath(name) => {
            assert_eq!(name, "winget-export-temp.json");
            Reply::Path("T:\\winget-export-temp.json".to_string())
        },
        Effect::Run(c) => {
            assert_eq!(c.args, vec!["export", "-o", "T:\\winget-export-temp.json", "--accept-source-agreements"]);
            Reply::Ran(Err(BootstrapError::command_failed("winget", "partial")))
        },
        Effect::ReadFile(p) => {
            assert_eq!(p, "T:\\winget-export-temp.json");
            Reply::Text(Ok(WINGET_EXPORT.to_string()))
        },
        Effect::WriteFile { path, contents } => {
            assert_eq!(path, "C:\\cfg\\config\\winget-packages.json");
            assert_eq!(contents, WINGET_EXPORT);
            Reply::Done(Ok(()))
        },
        Effect::RemoveFile(p) => {
            assert_eq!(p, "T:\\winget-export-temp.json");
            Reply::Done(Ok(()))
        },
        _ => panic!("unexpected effect {:?}", e),
    });
    assert_inside(&log, "C:\\cfg");
    assert!(outcome(&log).is_ok());
    assert_eq!(
        notes(&log),
        vec![
            (Level::Info, "Exporting installed WinGet packages...".to_string()),
            (Level::Warning, "WinGet export warnings: Command 'winget' failed: partial".to_string()),
            (Level::Success, "Exported 7 WinGet packages to: winget-packages.json".to_string()),
        ]
    );
}

#[test]
fn winget_export_without_output_file_warns() {
    let job = WinGet::new().export("C:\\cfg");
    let mut checks = 0;
    let log = drive(job, |e| match e {
        Effect::CommandExists(_) => Reply::Flag(true),
        Effect::PathExists(_) => {
            checks += 1;
            Reply::Flag(false)
        },
        Effect::EnsureDir(_) => Reply::Done(Ok(())),
        Effect::TempPath(_) => Reply::Path("T:\\t.json".to_string()),
        Effect::Run(_) => ran(""),
        _ => panic!("unexpected effect {:?}", e),
    });
    assert_eq!(checks, 1);
    assert!(outcome(&log).is_ok());
    assert_eq!(notes(&log).last().unwrap(), &(Level::Warning, "WinGet export failed - no output file created.".to_string()));
}

#[test]
fn winget_upgrade_ignores_listing_failures_but_not_the_upgrade() {
    let job = WinGet::new().upgrade("C:\\cfg");
    let mut n = 0;
    let log = drive(job, |e| match e {
        Effect::CommandExists(_) => Reply::Flag(true),
        Effect::RunInteractive(_) => {
            n += 1;
            if n < 3 {
                Reply::Ran(Err(BootstrapError::command_failed("winget", "x")))
            } else {
                Reply::Ran(Err(BootstrapError::command_failed("winget", "upgrade failed")))
            }
        },
        _ => panic!("unexpected effect {:?}", e),
    });
    assert_eq!(outcome(&log), &Err(BootstrapError::command_failed("winget", "upgrade failed")));
    assert_eq!(runs(&log)[2], vec!["winget", "upgrade", "--all", "--silent", "--accept-source-agreements", "--accept-package-agreements"]);
}

fn folder(name: Option<&str>, manifest: Option<(&str, &str)>) -> ExtensionFolder {
    ExtensionFolder {
        name: name.map(|n| n.to_string()),
        manifest: manifest.map(|(p, n)| format!("{{\n  \"publisher\": \"{}\",\n  \"name\": \"{}\"\n}}", p, n)),
    }
}

#[test]
fn installed_extensions_are_sorted_and_unique() {
    let folders = vec![
        folder(Some("ms-python.python-2024.1.0"), None),
        folder(Some("whatever"), Some(("esbenp", "prettier-vscode"))),
        folder(Some("ms-python.python-2023.9.1"), None),
        folder(Some("no-version-here"), None),
        folder(Some("rust-lang.rust-analyzer-0.3.1"), Some(("rust-lang", "rust-analyzer"))),
        folder(None, None),
        folder(Some("dash-at-end-"), None),
    ];
    assert_eq!(
        installed_extensions(&folders),
        vec!["esbenp.prettier-vscode", "ms-python.python", "rust-lang.rust-analyzer"]
    );
}

#[test]
fn vscode_export_saves_the_installed_list() {
    let job = VsCode::new().export("C:\\cfg");
    let log = drive(job, |e| match e {
        Effect::EnsureDir(_) => Reply::Done(Ok(())),
        Effect::PathExists(p) => Reply::Flag(p.ends_with("extensions")),
        Effect::ScanExtensions(_) => Reply::Folders(Ok(vec![
            folder(Some("b.two-1.0.0"), None),
            folder(Some("a.one-2.0.0"), None),
        ])),
        Effect::SaveExtensions { path, config } => {
            assert_eq!(path, "C:\\cfg\\config\\vscode-extensions.json");
            assert_eq!(config, &ExtensionsConfig { extensions: vec!["a.one".to_string(), "b.two".to_string()] });
            Reply::Done(Ok(()))
        },
        _ => panic!("unexpected effect {:?}", e),
    });
    assert_inside(&log, "C:\\cfg");
    match outcome(&log) {
        Ok(()) => assert_eq!(
            notes(&log).last().unwrap(),
            &(Level::Success, "Exported 2 VS Code extensions to: vscode-extensions.json".to_string())
        ),
        Err(e) => assert!(e.message().starts_with("Path error: Could not determine")),
    }
}

#[test]
fn vscode_import_without_code_cli_warns() {
    let job = VsCode::new().import("C:\\cfg");
    let log = drive(job, |e| match e {
        Effect::EnsureDir(_) | Effect::CopyFile { .. } => Reply::Done(Ok(())),
        Effect::PathExists(_) => Reply::Flag(true),
        Effect::LoadExtensions(_) => Reply::Extensions(Ok(ExtensionsConfig { extensions: vec!["a.one".to_string()] })),
        Effect::CommandExists(p) => {
            assert_eq!(p, "code");
            Reply::Flag(false)
        },
        _ => panic!("unexpected effect {:?}", e),
    });
    if outcome(&log).is_ok() {
        assert!(runs(&log).is_empty());
        assert_eq!(
            notes(&log).last().unwrap(),
            &(Level::Warning, "VS Code CLI ('code') not found. Install VS Code and add to PATH.".to_string())
        );
    }
}

#[test]
fn vscode_upgrade_reinstalls_each_listed_extension() {
    let job = VsCode::new().upgrade("C:\\cfg");
    let log = drive(job, |e| match e {
        Effect::CommandExists(_) | Effect::PathExists(_) => Reply::Flag(true),
        Effect::LoadExtensions(p) => {
            assert_eq!(p, "C:\\cfg\\config\\vscode-extensions.json");
            Reply::Extensions(Ok(ExtensionsConfig { extensions: vec!["a.one".to_string(), "b.two".to_string()] }))
        },
        Effect::Run(_) => Reply::Ran(Err(BootstrapError::command_failed("code", "offline"))),
        _ => panic!("unexpected effect {:?}", e),
    });
    assert!(outcome(&log).is_ok());
    assert_eq!(
        runs(&log),
        vec![
            vec!["code", "--install-extension", "a.one", "--force"],
            vec!["code", "--install-extension", "b.two", "--force"],
        ]
    );
    assert_eq!(notes(&log).last().unwrap(), &(Level::Success, "VS Code extensions updated.".to_string()));
}

#[test]
fn wsl_checks_for_its_distro() {
    let wsl = Wsl::new("Ubuntu-24.04");
    let listing = |s: &str| Ok(CommandResult { stdout: s.to_string(), stderr: String::new(), success: true, exit_code: Some(0) });
    assert!(wsl.is_available(&listing("U\0b\0u\0n\0t\0u\0-\x002\x004\0.\x000\x004\0\r\0\n\0")));
    assert!(!wsl.is_available(&listing("Debian\r\n")));
    assert!(!Wsl::new("U").is_available(&listing("U-1\r\n")));
    assert!(!wsl.is_available(&listing("Ubuntu-24.04-preview\r\n")));
    assert!(!wsl.is_available(&Err(BootstrapError::command_not_found("wsl", "x"))));
    assert_eq!(wsl.get_wsl_home(listing("/home/dev\n")).unwrap(), "/home/dev");
    assert!(wsl.wsl_file_exists(&listing(" yes\n")));
    assert!(!wsl.wsl_dir_exists(&listing("no\n")));
    assert!(!wsl.wsl_dir_exists(&Err(BootstrapError::Wsl("x".to_string()))));
    assert_eq!(wsl.read_wsl_file(listing("alias ll='ls -l'\n")).unwrap(), "alias ll='ls -l'\n");
    let c = wsl.run_wsl("echo $HOME");
    assert_eq!(c.args, vec!["-d", "Ubuntu-24.04", "--", "bash", "-c", "echo $HOME"]);
}

#[test]
fn wsl_import_without_the_distro_skips() {
    let job = Wsl::default().import("C:\\cfg");
    let log = drive(job, |e| match e {
        Effect::CommandExists(_) => Reply::Flag(true),
        Effect::Run(_) => ran("Debian\r\n"),
        _ => panic!("unexpected effect {:?}", e),
    });
    assert!(outcome(&log).is_ok());
    assert_eq!(
        notes(&log),
        vec![(Level::Warning, "WSL distro 'Ubuntu-24.04' not available. Skipping WSL import.".to_string())]
    );
    assert_eq!(runs(&log), vec![vec!["wsl", "-l", "-q"]]);
}

#[test]
fn wsl_import_backs_up_before_copying() {
    let job = Wsl::default().import("C:\\cfg");
    let log = drive(job, |e| match e {
        Effect::CommandExists(_) => Reply::Flag(true),
        Effect::PathExists(p) => Reply::Flag(p.ends_with("wsl") || p.ends_with(".bashrc") || p.ends_with(".ssh")),
        Effect::Run(c) if c.args == vec!["-l", "-q"] => ran("Ubuntu-24.04\r\n"),
        Effect::Run(c) if c.args.last().unwrap() == "echo $HOME" => ran("/home/dev\n"),
        Effect::Run(_) => ran(""),
        _ => panic!("unexpected effect {:?}", e),
    });
    assert!(outcome(&log).is_ok());
    let commands: Vec<String> = runs(&log).into_iter().skip(2).map(|r| r.last().unwrap().clone()).collect();
    assert_eq!(
        commands,
        vec![
            "if [ -f '/home/dev/.bashrc' ]; then cp '/home/dev/.bashrc' '/home/dev/.bashrc.backup' 2>/dev/null || true; fi".to_string(),
            "cp '/mnt/c/cfg/dotfiles/wsl/.bashrc' '/home/dev/.bashrc'".to_string(),
            "mkdir -p '/home/dev/.ssh'".to_string(),
            "cd '/mnt/c/cfg/dotfiles/wsl/.ssh' && tar cf - . 2>/dev/null | (cd '/home/dev/.ssh' && tar xf -)".to_string(),
            "chmod 700 '/home/dev/.ssh' && chmod 600 '/home/dev/.ssh'/* 2>/dev/null || true && chmod 644 '/home/dev/.ssh'/*.pub 2>/dev/null || true".to_string(),
        ]
    );
    let shown = notes(&log);
    assert_eq!(shown[0], (Level::Info, "WSL Home: /home/dev".to_string()));
    assert!(shown.contains(&(Level::Success, "Imported: .bashrc".to_string())));
    assert!(shown.contains(&(Level::Info, "Setting correct permissions for .ssh...".to_string())));
    assert_eq!(shown.last().unwrap(), &(Level::Success, "WSL dotfiles imported successfully.".to_string()));
}

#[test]
fn wsl_import_stops_when_a_path_cannot_be_converted() {
    let job = Wsl::default().import("cfg");
    let log = drive(job, |e| match e {
        Effect::CommandExists(_) | Effect::PathExists(_) => Reply::Flag(true),
        Effect::Run(c) if c.args == vec!["-l", "-q"] => ran("Ubuntu-24.04"),
        Effect::Run(_) => ran("/home/dev"),
        _ => panic!("unexpected effect {:?}", e),
    });
    assert_eq!(
        outcome(&log),
        &Err(BootstrapError::Path("Cannot convert path to WSL format: cfg\\dotfiles\\wsl\\.bashrc".to_string()))
    );
}

#[test]
fn wsl_export_writes_dotfiles_and_packages() {
    let job = Wsl::default().export("C:\\cfg");
    let mut written: Vec<(String, String)> = Vec::new();
    let log = drive(job, |e| match e {
        Effect::CommandExists(_) => Reply::Flag(true),
        Effect::EnsureDir(_) => Reply::Done(Ok(())),
        Effect::WriteFile { path, contents } => {
            written.push((path.clone(), contents.clone()));
            Reply::Done(Ok(()))
        },
        Effect::Run(c) => {
            let cmd = c.args.last().unwrap().clone();
            if c.args == vec!["-l", "-q"] {
                ran("Ubuntu-24.04")
            } else if cmd == "echo $HOME" {
                ran("/home/dev\n")
            } else if cmd.starts_with("test -f '/home/dev/.vimrc'") || cmd.starts_with("test -d '/home/dev/.ssh'") {
                ran("yes\n")
            } else if cmd.starts_with("test ") {
                ran("no\n")
            } else if cmd.starts_with("cat ") {
                ran("set nu\n")
            } else if cmd.starts_with("apt list") {
                ran("git\nvim\n")
            } else {
                ran("")
            }
        },
        _ => panic!("unexpected effect {:?}", e),
    });
    assert_inside(&log, "C:\\cfg");
    assert!(outcome(&log).is_ok());
    assert_eq!(
        written,
        vec![
            ("C:\\cfg\\dotfiles\\wsl\\.vimrc".to_string(), "set nu\n".to_string()),
            ("C:\\cfg\\dotfiles\\wsl\\installed-packages.txt".to_string(), "git\nvim\n".to_string()),
        ]
    );
    let commands: Vec<String> = runs(&log).into_iter().map(|r| r.last().unwrap().clone()).collect();
    assert!(commands.contains(
        &"cd '/home/dev/.ssh' && tar cf - . 2>/dev/null | (cd '/mnt/c/cfg/dotfiles/wsl/.ssh' && tar xf -)".to_string()
    ));
    assert!(notes(&log).contains(&(
        Level::Warning,
        "Note: .ssh contains sensitive keys. Review before committing to version control.".to_string()
    )));
}

#[test]
fn wsl_upgrade_reports_failure_without_failing() {
    let job = Wsl::default().upgrade("C:\\cfg");
    let log = drive(job, |e| match e {
        Effect::CommandExists(_) => Reply::Flag(true),
        Effect::Run(c) if c.args == vec!["-l", "-q"] => ran("Ubuntu-24.04"),
        Effect::Run(_) => Reply::Ran(Err(BootstrapError::command_failed("wsl", "no network"))),
        _ => panic!("unexpected effect {:?}", e),
    });
    assert!(outcome(&log).is_ok());
    assert_eq!(
        notes(&log).last().unwrap(),
        &(Level::Warning, "WSL upgrade encountered issues: Command 'wsl' failed: no network".to_string())
    );
}

#[test]
fn a_finished_job_takes_no_reply() {
    let job = Git::new().import("C:\\cfg");
    let (job, _) = job.step(Reply::Begin);
    let (job, _) = job.step(Reply::Flag(false));
    assert!(job.is_over());
    assert!(!job.accepts(&Reply::Begin));
    assert!(!job.accepts(&Reply::Flag(true)));
}

#[test]
fn a_job_refuses_a_reply_of_the_wrong_kind() {
    let job = Git::new().export("C:\\cfg");
    assert!(!job.accepts(&Reply::Flag(true)));
    let (job, _) = job.step(Reply::Begin);
    assert!(!job.accepts(&Reply::Begin));
    assert!(job.accepts(&Reply::Done(Ok(()))));
}

#[test]
fn component_names() {
    assert_eq!(Exportable::name(&Git::new()), "Git Config");
    assert_eq!(Importable::name(&WinGet::new()), "WinGet Packages");
    assert_eq!(Upgradable::name(&Wsl::default()), "WSL Packages");
    assert_eq!(Exportable::name(&VsCode::new()), "VS Code");
}

#[test]
fn powershell_import_without_a_dotfile_warns() {
    let job = PowerShell::new().import("C:\\cfg");
    let log = drive(job, |e| match e {
        Effect::PathExists(p) => {
            assert_eq!(p, "C:\\cfg\\dotfiles\\powershell\\Microsoft.PowerShell_profile.ps1");
            Reply::Flag(false)
        },
        _ => panic!("unexpected effect {:?}", e),
    });
    assert!(outcome(&log).is_ok());
    assert_eq!(
        notes(&log),
        vec![(
            Level::Warning,
            "PowerShell profile dotfile not found at C:\\cfg\\dotfiles\\powershell\\Microsoft.PowerShell_profile.ps1"
                .to_string()
        )]
    );
}

#[test]
fn powershell_export_falls_back_to_the_repository_default() {
    let job = PowerShell::with_repo_root("R:\\repo").export("C:\\cfg");
    let mut copied = None;
    let log = drive(job, |e| match e {
        Effect::EnsureDir(d) => {
            assert_eq!(d, "C:\\cfg\\dotfiles\\powershell");
            Reply::Done(Ok(()))
        },
        Effect::PathExists(p) => Reply::Flag(p.starts_with("R:\\repo")),
        Effect::CopyFile { from, to } => {
            copied = Some((from.clone(), to.clone()));
            Reply::Done(Ok(()))
        },
        _ => panic!("unexpected effect {:?}", e),
    });
    assert_inside(&log, "C:\\cfg");
    match outcome(&log) {
        Ok(()) => {
            assert_eq!(
                copied,
                Some((
                    "R:\\repo\\dotfiles\\powershell\\Microsoft.PowerShell_profile.ps1".to_string(),
                    "C:\\cfg\\dotfiles\\powershell\\Microsoft.PowerShell_profile.ps1".to_string()
                ))
            );
            assert_eq!(
                notes(&log),
                vec![(Level::Info, "No user profile found. Exported default profile from repo.".to_string())]
            );
        },
        Err(e) => assert_eq!(e, &BootstrapError::Path("Could not determine Documents directory".to_string())),
    }
}

#[test]
fn winget_import_updates_sources_then_imports() {
    let job = WinGet::new().import("C:\\cfg");
    let log = drive(job, |e| match e {
        Effect::CommandExists(_) | Effect::PathExists(_) => Reply::Flag(true),
        Effect::RunInteractive(_) => ran(""),
        _ => panic!("unexpected effect {:?}", e),
    });
    assert!(outcome(&log).is_ok());
    assert_eq!(
        runs(&log),
        vec![
            vec!["winget", "source", "update"],
            vec![
                "winget",
                "import",
                "-i",
                "C:\\cfg\\config\\winget-packages.json",
                "--accept-source-agreements",
                "--accept-package-agreements",
                "--ignore-unavailable",
            ],
        ]
    );
    assert_eq!(notes(&log).last().unwrap(), &(Level::Success, "WinGet packages installed.".to_string()));
}

#[test]
fn winget_availability_probe() {
    assert_eq!(WinGet::is_available(), Effect::CommandExists("winget".to_string()));
}

#[test]
fn wsl_jobs_need_a_convertible_root_only_to_convert() {
    let root = "\u{20ac}:\\cfg";
    let job = Wsl::default().import(root);
    let log = drive(job, |e| match e {
        Effect::CommandExists(_) => Reply::Flag(false),
        _ => panic!("unexpected effect {:?}", e),
    });
    assert!(outcome(&log).is_ok());
    let job = Wsl::default().import(root);
    let (job, _) = job.step(Reply::Begin);
    let (job, _) = job.step(Reply::Flag(true));
    let (job, _) = job.step(ran("Ubuntu-24.04"));
    let (job, _) = job.step(Reply::Flag(true));
    let (job, _) = job.step(ran("/home/dev"));
    assert!(job.accepts(&Reply::Flag(false)));
    assert!(!job.accepts(&Reply::Flag(true)));
}

#[test]
fn winget_export_refuses_text_that_is_not_json() {
    let job = WinGet::new().export("C:\\cfg");
    let mut written = false;
    let log = drive(job, |e| match e {
        Effect::CommandExists(_) | Effect::PathExists(_) => Reply::Flag(true),
        Effect::EnsureDir(_) => Reply::Done(Ok(())),
        Effect::TempPath(_) => Reply::Path("T:\\t.json".to_string()),
        Effect::Run(_) => ran(""),
        Effect::ReadFile(_) => Reply::Text(Ok("{\"Sources\": [".to_string())),
        Effect::WriteFile { .. } => {
            written = true;
            Reply::Done(Ok(()))
        },
        _ => panic!("unexpected effect {:?}", e),
    });
    assert!(!written);
    match outcome(&log) {
        Err(BootstrapError::Json(m)) => assert!(!m.is_empty()),
        other => panic!("expected a JSON error, got {:?}", other),
    }
}

#[test]
fn extension_ids_come_from_readable_manifests() {
    let broken = ExtensionFolder { name: Some("pub.ext-1.2.3".to_string()), manifest: Some("{ not json".to_string()) };
    let no_name = ExtensionFolder { name: Some("pub.other-1.0.0".to_string()), manifest: Some("{\"publisher\":\"pub\"}".to_string()) };
    let good = folder(Some("x"), Some(("Pub", "Ext")));
    assert_eq!(installed_extensions(&vec![broken, no_name, good]), vec!["Pub.Ext", "pub.ext", "pub.other"]);
}

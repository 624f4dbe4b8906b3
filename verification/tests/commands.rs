use dev_machine::cli::{ExportArgs, SetupArgs, UpgradeArgs};
use dev_machine::commands::plan::{after_create_dir, after_job, failure_text, Flow, Step};
use dev_machine::commands::{export, setup, upgrade};
use dev_machine::components::job::Work;
use dev_machine::error::BootstrapError;

fn setup_args() -> SetupArgs {
    SetupArgs {
        config_root: None,
        minimal: false,
        skip_docker: false,
        skip_wsl: false,
        no_wsl_provision: false,
        dotfiles_repo: None,
        winget: false,
        vscode: false,
        powershell: false,
        git: false,
        wsl: false,
    }
}

fn export_args(force: bool) -> ExportArgs {
    ExportArgs {
        config_root: None,
        skip_wsl: false,
        wsl_distro: "Ubuntu-24.04".to_string(),
        force,
        winget: false,
        vscode: false,
        powershell: false,
        git: false,
        wsl: false,
    }
}

fn upgrade_args() -> UpgradeArgs {
    UpgradeArgs {
        config_root: None,
        skip_wsl: false,
        wsl_distro: "Ubuntu-24.04".to_string(),
        winget: false,
        vscode: false,
        wsl: false,
    }
}

fn labels(steps: &[Step]) -> Vec<String> {
    steps
        .iter()
        .filter_map(|s| match s {
            Step::Run { label, job } => {
                assert_eq!(job.config_root, "C:\\cfg");
                Some(label.clone())
            },
            _ => None,
        })
        .collect()
}

#[test]
fn setup_runs_every_component_when_none_is_named() {
    let steps = setup::execute(&setup_args(), "C:\\cfg");
    assert_eq!(labels(&steps), vec!["WinGet setup", "VS Code setup", "PowerShell setup", "Git setup", "WSL setup"]);
    assert!(matches!(&steps[0], Step::Section(t) if t == "Development Machine Setup"));
    assert!(matches!(&steps[1], Step::KeyValue(k, v) if k == "Config Root" && v == "C:\\cfg"));
    assert!(matches!(steps.last().unwrap(), Step::Success(t) if t == "Development environment configured successfully."));
    assert!(!steps.iter().any(|s| matches!(s, Step::Fail(_))));
}

#[test]
fn setup_runs_only_the_named_components() {
    let mut args = setup_args();
    args.git = true;
    args.winget = true;
    let steps = setup::execute(&args, "C:\\cfg");
    assert_eq!(labels(&steps), vec!["WinGet setup", "Git setup"]);
    assert!(matches!(&steps[4], Step::Section(t) if t == "Git Configuration"));
}

#[test]
fn export_refuses_to_overwrite_without_force() {
    let steps = export::execute(&export_args(false), "C:\\cfg", true, true);
    assert!(labels(&steps).is_empty());
    assert!(matches!(&steps[2], Step::Warning(t) if t == "Export directory is not empty. Existing files may be overwritten."));
    match steps.last().unwrap() {
        Step::Fail(e) => {
            assert_eq!(e, &BootstrapError::Config("Use --force (-f) to overwrite existing configuration files.".to_string()));
            assert_eq!(e.message(), "Configuration error: Use --force (-f) to overwrite existing configuration files.");
        },
        _ => panic!("the export did not stop"),
    }
}

#[test]
fn export_with_force_runs_every_component() {
    let steps = export::execute(&export_args(true), "C:\\cfg", true, true);
    assert_eq!(labels(&steps), vec!["WinGet export", "VS Code export", "PowerShell export", "Git export", "WSL export"]);
    assert!(!steps.iter().any(|s| matches!(s, Step::Fail(_))));
    assert!(matches!(steps.last().unwrap(), Step::Info(t) if t == "Review changes and commit to version control."));
}

#[test]
fn export_creates_a_missing_root() {
    let steps = export::execute(&export_args(false), "C:\\cfg", false, false);
    assert!(matches!(&steps[2], Step::Info(t) if t == "Creating config directory: C:\\cfg"));
    assert!(matches!(&steps[3], Step::CreateDir(p) if p == "C:\\cfg"));
    assert_eq!(labels(&steps).len(), 5);
}

#[test]
fn export_of_one_component() {
    let mut args = export_args(false);
    args.vscode = true;
    let steps = export::execute(&args, "C:\\cfg", true, false);
    assert_eq!(labels(&steps), vec!["VS Code export"]);
}

#[test]
fn upgrade_runs_the_selected_components() {
    let steps = upgrade::execute(&upgrade_args(), "C:\\cfg");
    assert_eq!(labels(&steps), vec!["WinGet upgrade", "VS Code upgrade", "WSL upgrade"]);
    let mut args = upgrade_args();
    args.wsl = true;
    let steps = upgrade::execute(&args, "C:\\cfg");
    assert_eq!(labels(&steps), vec!["WSL upgrade"]);
    assert!(matches!(steps.last().unwrap(), Step::Success(t) if t == "All packages upgraded successfully."));
}

#[test]
fn failures_are_reported_with_their_label() {
    let e = BootstrapError::command_not_found("winget", "Install 'App Installer' from Microsoft Store.");
    assert_eq!(
        failure_text("WinGet setup", &e),
        "WinGet setup failed: Command 'winget' not found. Install 'App Installer' from Microsoft Store."
    );
}

fn runs_of(steps: &[Step]) -> Vec<(String, String)> {
    steps
        .iter()
        .filter_map(|s| match s {
            Step::Run { label, job } => Some((label.clone(), format!("{:?}", job.awaits()))),
            _ => None,
        })
        .collect()
}

#[test]
fn skip_wsl_drops_the_wsl_section() {
    let mut args = setup_args();
    args.skip_wsl = true;
    let steps = setup::execute(&args, "C:\\cfg");
    assert_eq!(labels(&steps), vec!["WinGet setup", "VS Code setup", "PowerShell setup", "Git setup"]);
    args.wsl = true;
    let steps = setup::execute(&args, "C:\\cfg");
    assert!(labels(&steps).is_empty());
    let mut e = export_args(true);
    e.skip_wsl = true;
    assert_eq!(labels(&export::execute(&e, "C:\\cfg", true, true)).len(), 4);
    let mut u = upgrade_args();
    u.skip_wsl = true;
    assert_eq!(labels(&upgrade::execute(&u, "C:\\cfg")), vec!["WinGet upgrade", "VS Code upgrade"]);
    assert_eq!(runs_of(&upgrade::execute(&u, "C:\\cfg")).len(), 2);
}

fn wsl_distro_of(steps: Vec<Step>) -> String {
    for s in steps {
        if let Step::Run { job, .. } = s {
            match job.work {
                Work::WslExport(w, _) | Work::WslUpgrade(w, _) => return w.distro,
                _ => {},
            }
        }
    }
    panic!("no WSL job");
}

#[test]
fn wsl_jobs_use_the_named_distro() {
    let mut e = export_args(true);
    e.wsl_distro = "Debian".to_string();
    assert_eq!(wsl_distro_of(export::execute(&e, "C:\\cfg", true, false)), "Debian");
    let mut u = upgrade_args();
    u.wsl_distro = "Arch".to_string();
    assert_eq!(wsl_distro_of(upgrade::execute(&u, "C:\\cfg")), "Arch");
}

#[test]
fn a_failed_job_is_reported_and_the_command_goes_on() {
    assert!(matches!(after_job("Git setup", Ok(())), Flow::Go));
    match after_job("Git setup", Err(BootstrapError::command_failed("git", "boom"))) {
        Flow::Report(t) => assert_eq!(t, "Git setup failed: Command 'git' failed: boom"),
        _ => panic!("a failed job must be reported"),
    }
}

#[test]
fn a_failed_root_creation_ends_the_command() {
    assert!(matches!(after_create_dir(Ok(())), Flow::Go));
    let e = BootstrapError::io("C:\\cfg", "denied");
    match after_create_dir(Err(BootstrapError::io("C:\\cfg", "denied"))) {
        Flow::Stop(got) => assert_eq!(got, e),
        _ => panic!("the command must stop"),
    }
}

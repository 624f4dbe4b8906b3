//! Setup command: imports configurations from the config root to the local machine.

use crate::cli::SetupArgs;
use crate::commands::plan::{
    component_steps, if_selected, lemma_runs_concat, lemma_runs_messages, lemma_runs_selected, lemma_stops_concat, picked,
    push_component, push_step, runs, steps_view, stops, Step, StepView, lemma_stop_concat, lemma_stop_free,
    lemma_stop_selected, stop_of, every_step, lemma_every_concat, lemma_every_selected,
};
use crate::components::git::{Git, GitImport};
use crate::components::job::WorkView;
use crate::components::powershell::{PowerShell, PowerShellImport};
use crate::components::traits::Importable;
use crate::components::vscode::{VsCode, VsCodeImport};
use crate::components::winget::{WinGet, WinGetImport};
use crate::components::wsl::{Availability, Wsl, WslImport};
use crate::error::ErrorView;
use crate::text::owned;
use vstd::prelude::*;

verus! {

/// No component is named, so all of them run.
pub open spec fn setup_all(a: SetupArgs) -> bool {
    !a.vscode && !a.winget && !a.powershell && !a.git && !a.wsl
}

/// The setup steps: WinGet first (other tools may depend on it), then VS Code,
/// PowerShell, Git and WSL, each when selected; WSL not with `--skip-wsl`.
pub open spec fn setup_plan(a: SetupArgs, root: Seq<char>) -> Seq<StepView> {
    let all = setup_all(a);
    seq![StepView::Section("Development Machine Setup"@), StepView::KeyValue("Config Root"@, root)]
        + if_selected(all || a.winget, component_steps("WinGet Packages"@, "WinGet setup"@, root, WorkView::WinGetImport(WinGetImport::Start)))
        + if_selected(all || a.vscode, component_steps("VS Code Configuration"@, "VS Code setup"@, root, WorkView::VsCodeImport(VsCodeImport::Start)))
        + if_selected(all || a.powershell, component_steps("PowerShell Profile"@, "PowerShell setup"@, root, WorkView::PowerShellImport(PowerShellImport::Start)))
        + if_selected(all || a.git, component_steps("Git Configuration"@, "Git setup"@, root, WorkView::GitImport(GitImport::Start)))
        + if_selected((all || a.wsl) && !a.skip_wsl, component_steps("WSL Dotfiles"@, "WSL setup"@, root, WorkView::WslImport("Ubuntu-24.04"@, WslImport::Checking(Availability::Start))))
        + seq![
            StepView::Section("Setup Complete"@),
            StepView::Success("Development environment configured successfully."@),
        ]
}

/// The steps of the setup command.
pub fn execute(args: &SetupArgs, config_root: &str) -> (steps: Vec<Step>)
    ensures
        steps_view(steps@) =~= setup_plan(*args, config_root@),
{
    let all = !args.vscode && !args.winget && !args.powershell && !args.git && !args.wsl;
    let mut steps: Vec<Step> = Vec::new();
    push_step(&mut steps, Step::Section(owned("Development Machine Setup")));
    push_step(&mut steps, Step::KeyValue(owned("Config Root"), owned(config_root)));
    let ghost mut expect = seq![StepView::Section("Development Machine Setup"@), StepView::KeyValue("Config Root"@, config_root@)];
    assert(steps_view(steps@) =~= expect);
    if all || args.winget {
        push_component(&mut steps, "WinGet Packages", "WinGet setup", WinGet::new().import(config_root));
    }
    proof {
        expect = expect + if_selected(all || args.winget, component_steps("WinGet Packages"@, "WinGet setup"@, config_root@, WorkView::WinGetImport(WinGetImport::Start)));
    }
    assert(steps_view(steps@) =~= expect);
    if all || args.vscode {
        push_component(&mut steps, "VS Code Configuration", "VS Code setup", VsCode::new().import(config_root));
    }
    proof {
        expect = expect + if_selected(all || args.vscode, component_steps("VS Code Configuration"@, "VS Code setup"@, config_root@, WorkView::VsCodeImport(VsCodeImport::Start)));
    }
    assert(steps_view(steps@) =~= expect);
    if all || args.powershell {
        push_component(&mut steps, "PowerShell Profile", "PowerShell setup", PowerShell::new().import(config_root));
    }
    proof {
        expect = expect + if_selected(all || args.powershell, component_steps("PowerShell Profile"@, "PowerShell setup"@, config_root@, WorkView::PowerShellImport(PowerShellImport::Start)));
    }
    assert(steps_view(steps@) =~= expect);
    if all || args.git {
        push_component(&mut steps, "Git Configuration", "Git setup", Git::new().import(config_root));
    }
    proof {
        expect = expect + if_selected(all || args.git, component_steps("Git Configuration"@, "Git setup"@, config_root@, WorkView::GitImport(GitImport::Start)));
    }
    assert(steps_view(steps@) =~= expect);
    if (all || args.wsl) && !args.skip_wsl {
        let wsl = Wsl::default();
        push_component(&mut steps, "WSL Dotfiles", "WSL setup", wsl.import(config_root));
    }
    proof {
        expect = expect + if_selected((all || args.wsl) && !args.skip_wsl, component_steps("WSL Dotfiles"@, "WSL setup"@, config_root@, WorkView::WslImport("Ubuntu-24.04"@, WslImport::Checking(Availability::Start))));
    }
    assert(steps_view(steps@) =~= expect);
    push_step(&mut steps, Step::Section(owned("Setup Complete")));
    push_step(&mut steps, Step::Success(owned("Development environment configured successfully.")));
    steps
}

/// Setup runs exactly the selected components, in the order WinGet, VS Code,
/// PowerShell, Git, WSL (never WSL with `--skip-wsl`); with no component named
/// and WSL not skipped it runs all five.  No step of
/// a setup ends the command with an error: a failed component is reported and
/// the others still run.
pub proof fn lemma_setup_selection(a: SetupArgs, root: Seq<char>)
    ensures
        runs(setup_plan(a, root)) == picked(setup_all(a) || a.winget, "WinGet setup"@) + picked(
            setup_all(a) || a.vscode,
            "VS Code setup"@,
        ) + picked(setup_all(a) || a.powershell, "PowerShell setup"@) + picked(setup_all(a) || a.git, "Git setup"@)
            + picked((setup_all(a) || a.wsl) && !a.skip_wsl, "WSL setup"@),
        setup_all(a) && !a.skip_wsl ==> runs(setup_plan(a, root)) == seq![
            "WinGet setup"@,
            "VS Code setup"@,
            "PowerShell setup"@,
            "Git setup"@,
            "WSL setup"@,
        ],
        !stops(setup_plan(a, root)),
{
    let all = setup_all(a);
    let head = seq![StepView::Section("Development Machine Setup"@), StepView::KeyValue("Config Root"@, root)];
    let s1 = if_selected(all || a.winget, component_steps("WinGet Packages"@, "WinGet setup"@, root, WorkView::WinGetImport(WinGetImport::Start)));
    let s2 = if_selected(all || a.vscode, component_steps("VS Code Configuration"@, "VS Code setup"@, root, WorkView::VsCodeImport(VsCodeImport::Start)));
    let s3 = if_selected(all || a.powershell, component_steps("PowerShell Profile"@, "PowerShell setup"@, root, WorkView::PowerShellImport(PowerShellImport::Start)));
    let s4 = if_selected(all || a.git, component_steps("Git Configuration"@, "Git setup"@, root, WorkView::GitImport(GitImport::Start)));
    let s5 = if_selected((all || a.wsl) && !a.skip_wsl, component_steps("WSL Dotfiles"@, "WSL setup"@, root, WorkView::WslImport("Ubuntu-24.04"@, WslImport::Checking(Availability::Start))));
    let tail = seq![
        StepView::Section("Setup Complete"@),
        StepView::Success("Development environment configured successfully."@),
    ];
    lemma_runs_messages(head);
    lemma_runs_messages(tail);
    lemma_runs_selected(all || a.winget, "WinGet Packages"@, "WinGet setup"@, root, WorkView::WinGetImport(WinGetImport::Start));
    lemma_runs_selected(all || a.vscode, "VS Code Configuration"@, "VS Code setup"@, root, WorkView::VsCodeImport(VsCodeImport::Start));
    lemma_runs_selected(all || a.powershell, "PowerShell Profile"@, "PowerShell setup"@, root, WorkView::PowerShellImport(PowerShellImport::Start));
    lemma_runs_selected(all || a.git, "Git Configuration"@, "Git setup"@, root, WorkView::GitImport(GitImport::Start));
    lemma_runs_selected((all || a.wsl) && !a.skip_wsl, "WSL Dotfiles"@, "WSL setup"@, root, WorkView::WslImport("Ubuntu-24.04"@, WslImport::Checking(Availability::Start)));
    lemma_runs_concat(head, s1);
    lemma_runs_concat(head + s1, s2);
    lemma_runs_concat(head + s1 + s2, s3);
    lemma_runs_concat(head + s1 + s2 + s3, s4);
    lemma_runs_concat(head + s1 + s2 + s3 + s4, s5);
    lemma_runs_concat(head + s1 + s2 + s3 + s4 + s5, tail);
    assert(!stops(head)) by {
        assert forall|i: int| 0 <= i < head.len() implies !(#[trigger] head[i] is Fail) by {}
    }
    assert(!stops(tail)) by {
        assert forall|i: int| 0 <= i < tail.len() implies !(#[trigger] tail[i] is Fail) by {}
    }
    lemma_stops_concat(head, s1);
    lemma_stops_concat(head + s1, s2);
    lemma_stops_concat(head + s1 + s2, s3);
    lemma_stops_concat(head + s1 + s2 + s3, s4);
    lemma_stops_concat(head + s1 + s2 + s3 + s4, s5);
    lemma_stops_concat(head + s1 + s2 + s3 + s4 + s5, tail);
    assert(setup_plan(a, root) == head + s1 + s2 + s3 + s4 + s5 + tail);
    assert(runs(setup_plan(a, root)) =~= picked(all || a.winget, "WinGet setup"@) + picked(all || a.vscode, "VS Code setup"@)
        + picked(all || a.powershell, "PowerShell setup"@) + picked(all || a.git, "Git setup"@) + picked((all || a.wsl) && !a.skip_wsl, "WSL setup"@));
}

/// A setup always ends normally: a failed component is reported and the others
/// still run.
pub proof fn lemma_setup_never_stops(a: SetupArgs, root: Seq<char>, dir_error: Option<ErrorView>)
    ensures
        stop_of(setup_plan(a, root), dir_error) is None,
{
    let all = setup_all(a);
    let head = seq![StepView::Section("Development Machine Setup"@), StepView::KeyValue("Config Root"@, root)];
    let tail = seq![StepView::Section("Setup Complete"@), StepView::Success("Development environment configured successfully."@)];
    let s1 = if_selected(all || a.winget, component_steps("WinGet Packages"@, "WinGet setup"@, root, WorkView::WinGetImport(WinGetImport::Start)));
    let s2 = if_selected(all || a.vscode, component_steps("VS Code Configuration"@, "VS Code setup"@, root, WorkView::VsCodeImport(VsCodeImport::Start)));
    let s3 = if_selected(all || a.powershell, component_steps("PowerShell Profile"@, "PowerShell setup"@, root, WorkView::PowerShellImport(PowerShellImport::Start)));
    let s4 = if_selected(all || a.git, component_steps("Git Configuration"@, "Git setup"@, root, WorkView::GitImport(GitImport::Start)));
    let s5 = if_selected((all || a.wsl) && !a.skip_wsl, component_steps("WSL Dotfiles"@, "WSL setup"@, root, WorkView::WslImport("Ubuntu-24.04"@, WslImport::Checking(Availability::Start))));
    lemma_stop_free(head, dir_error);
    lemma_stop_free(tail, dir_error);
    lemma_stop_selected(all || a.winget, "WinGet Packages"@, "WinGet setup"@, root, WorkView::WinGetImport(WinGetImport::Start), dir_error);
    lemma_stop_selected(all || a.vscode, "VS Code Configuration"@, "VS Code setup"@, root, WorkView::VsCodeImport(VsCodeImport::Start), dir_error);
    lemma_stop_selected(all || a.powershell, "PowerShell Profile"@, "PowerShell setup"@, root, WorkView::PowerShellImport(PowerShellImport::Start), dir_error);
    lemma_stop_selected(all || a.git, "Git Configuration"@, "Git setup"@, root, WorkView::GitImport(GitImport::Start), dir_error);
    lemma_stop_selected((all || a.wsl) && !a.skip_wsl, "WSL Dotfiles"@, "WSL setup"@, root, WorkView::WslImport("Ubuntu-24.04"@, WslImport::Checking(Availability::Start)), dir_error);
    lemma_stop_concat(head, s1, dir_error);
    lemma_stop_concat(head + s1, s2, dir_error);
    lemma_stop_concat(head + s1 + s2, s3, dir_error);
    lemma_stop_concat(head + s1 + s2 + s3, s4, dir_error);
    lemma_stop_concat(head + s1 + s2 + s3 + s4, s5, dir_error);
    lemma_stop_concat(head + s1 + s2 + s3 + s4 + s5, tail, dir_error);
    assert(setup_plan(a, root) == head + s1 + s2 + s3 + s4 + s5 + tail);
}

/// The job a setup step labelled `label` must run on `root`: the import of
/// that component, from its start.
pub open spec fn setup_job(label: Seq<char>, root: Seq<char>, r: Seq<char>, work: WorkView) -> bool {
    &&& r == root
    &&& {
        ||| label == "WinGet setup"@ && work == WorkView::WinGetImport(WinGetImport::Start)
        ||| label == "VS Code setup"@ && work == WorkView::VsCodeImport(VsCodeImport::Start)
        ||| label == "PowerShell setup"@ && work == WorkView::PowerShellImport(PowerShellImport::Start)
        ||| label == "Git setup"@ && work == WorkView::GitImport(GitImport::Start)
        ||| label == "WSL setup"@ && work matches WorkView::WslImport(_, WslImport::Checking(Availability::Start))
    }
}

/// A setup only imports: every job it runs is the import of its component,
/// from its start, on the config root (the Git step imports the Git settings,
/// and so on); it never runs an export or an upgrade.
pub proof fn lemma_setup_only_imports(a: SetupArgs, root: Seq<char>)
    ensures
        every_step(
            setup_plan(a, root),
            |s: StepView| (s matches StepView::Run(label, r, work) ==> setup_job(label, root, r, work)),
        ),
{
    let p = |s: StepView| (s matches StepView::Run(label, r, work) ==> setup_job(label, root, r, work));
    let all = setup_all(a);
    let head = seq![StepView::Section("Development Machine Setup"@), StepView::KeyValue("Config Root"@, root)];
    let tail = seq![StepView::Section("Setup Complete"@), StepView::Success("Development environment configured successfully."@)];
    let s1 = if_selected(all || a.winget, component_steps("WinGet Packages"@, "WinGet setup"@, root, WorkView::WinGetImport(WinGetImport::Start)));
    let s2 = if_selected(all || a.vscode, component_steps("VS Code Configuration"@, "VS Code setup"@, root, WorkView::VsCodeImport(VsCodeImport::Start)));
    let s3 = if_selected(all || a.powershell, component_steps("PowerShell Profile"@, "PowerShell setup"@, root, WorkView::PowerShellImport(PowerShellImport::Start)));
    let s4 = if_selected(all || a.git, component_steps("Git Configuration"@, "Git setup"@, root, WorkView::GitImport(GitImport::Start)));
    let s5 = if_selected((all || a.wsl) && !a.skip_wsl, component_steps("WSL Dotfiles"@, "WSL setup"@, root, WorkView::WslImport("Ubuntu-24.04"@, WslImport::Checking(Availability::Start))));
    assert(every_step(head, p));
    assert(every_step(tail, p));
    lemma_every_selected(all || a.winget, "WinGet Packages"@, "WinGet setup"@, root, WorkView::WinGetImport(WinGetImport::Start), p);
    lemma_every_selected(all || a.vscode, "VS Code Configuration"@, "VS Code setup"@, root, WorkView::VsCodeImport(VsCodeImport::Start), p);
    lemma_every_selected(all || a.powershell, "PowerShell Profile"@, "PowerShell setup"@, root, WorkView::PowerShellImport(PowerShellImport::Start), p);
    lemma_every_selected(all || a.git, "Git Configuration"@, "Git setup"@, root, WorkView::GitImport(GitImport::Start), p);
    lemma_every_selected((all || a.wsl) && !a.skip_wsl, "WSL Dotfiles"@, "WSL setup"@, root, WorkView::WslImport("Ubuntu-24.04"@, WslImport::Checking(Availability::Start)), p);
    lemma_every_concat(head, s1, p);
    lemma_every_concat(head + s1, s2, p);
    lemma_every_concat(head + s1 + s2, s3, p);
    lemma_every_concat(head + s1 + s2 + s3, s4, p);
    lemma_every_concat(head + s1 + s2 + s3 + s4, s5, p);
    lemma_every_concat(head + s1 + s2 + s3 + s4 + s5, tail, p);
    assert(setup_plan(a, root) == head + s1 + s2 + s3 + s4 + s5 + tail);
}

} // verus!

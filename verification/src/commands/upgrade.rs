//! Upgrade command: upgrades installed packages and extensions.

use crate::cli::UpgradeArgs;
use crate::commands::plan::{
    component_steps, if_selected, lemma_runs_concat, lemma_runs_messages, lemma_runs_selected, lemma_stops_concat, picked,
    push_component, push_step, runs, steps_view, stops, Step, StepView, lemma_stop_concat, lemma_stop_free,
    lemma_stop_selected, stop_of, every_step, lemma_every_concat, lemma_every_selected,
};
use crate::components::job::WorkView;
use crate::components::traits::Upgradable;
use crate::components::vscode::{VsCode, VsCodeUpgrade};
use crate::components::winget::{WinGet, WinGetUpgrade};
use crate::components::wsl::{Availability, Wsl, WslUpgrade};
use crate::error::ErrorView;
use crate::text::owned;
use vstd::prelude::*;

verus! {

/// No component is named, so all of them run.
pub open spec fn upgrade_all(a: UpgradeArgs) -> bool {
    !a.vscode && !a.winget && !a.wsl
}

/// The upgrade steps: WinGet packages, VS Code extensions and the WSL packages
/// of the distro `--wsl-distro` names, each when selected; WSL not with
/// `--skip-wsl`.
pub open spec fn upgrade_plan(a: UpgradeArgs, root: Seq<char>) -> Seq<StepView> {
    let all = upgrade_all(a);
    seq![StepView::Section("Upgrading Packages"@)]
        + if_selected(all || a.winget, component_steps("WinGet Packages"@, "WinGet upgrade"@, root, WorkView::WinGetUpgrade(WinGetUpgrade::Start)))
        + if_selected(all || a.vscode, component_steps("VS Code Extensions"@, "VS Code upgrade"@, root, WorkView::VsCodeUpgrade(VsCodeUpgrade::Start)))
        + if_selected((all || a.wsl) && !a.skip_wsl, component_steps("WSL Packages"@, "WSL upgrade"@, root, WorkView::WslUpgrade(a.wsl_distro@, WslUpgrade::Checking(Availability::Start))))
        + seq![StepView::Section("Upgrade Complete"@), StepView::Success("All packages upgraded successfully."@)]
}

/// The steps of the upgrade command.
pub fn execute(args: &UpgradeArgs, config_root: &str) -> (steps: Vec<Step>)
    ensures
        steps_view(steps@) =~= upgrade_plan(*args, config_root@),
{
    let all = !args.vscode && !args.winget && !args.wsl;
    let mut steps: Vec<Step> = Vec::new();
    push_step(&mut steps, Step::Section(owned("Upgrading Packages")));
    let ghost mut expect = seq![StepView::Section("Upgrading Packages"@)];
    assert(steps_view(steps@) =~= expect);
    if all || args.winget {
        push_component(&mut steps, "WinGet Packages", "WinGet upgrade", WinGet::new().upgrade(config_root));
    }
    proof {
        expect = expect + if_selected(all || args.winget, component_steps("WinGet Packages"@, "WinGet upgrade"@, config_root@, WorkView::WinGetUpgrade(WinGetUpgrade::Start)));
    }
    assert(steps_view(steps@) =~= expect);
    if all || args.vscode {
        push_component(&mut steps, "VS Code Extensions", "VS Code upgrade", VsCode::new().upgrade(config_root));
    }
    proof {
        expect = expect + if_selected(all || args.vscode, component_steps("VS Code Extensions"@, "VS Code upgrade"@, config_root@, WorkView::VsCodeUpgrade(VsCodeUpgrade::Start)));
    }
    assert(steps_view(steps@) =~= expect);
    if (all || args.wsl) && !args.skip_wsl {
        let wsl = Wsl::new(args.wsl_distro.as_str());
        push_component(&mut steps, "WSL Packages", "WSL upgrade", wsl.upgrade(config_root));
    }
    proof {
        expect = expect + if_selected((all || args.wsl) && !args.skip_wsl, component_steps("WSL Packages"@, "WSL upgrade"@, config_root@, WorkView::WslUpgrade(args.wsl_distro@, WslUpgrade::Checking(Availability::Start))));
    }
    assert(steps_view(steps@) =~= expect);
    push_step(&mut steps, Step::Section(owned("Upgrade Complete")));
    push_step(&mut steps, Step::Success(owned("All packages upgraded successfully.")));
    steps
}

/// Upgrade runs exactly the selected components, in the order WinGet, VS Code,
/// WSL (WSL never with `--skip-wsl`), and no step ends the command with an
/// error.
pub proof fn lemma_upgrade_selection(a: UpgradeArgs, root: Seq<char>)
    ensures
        runs(upgrade_plan(a, root)) == picked(upgrade_all(a) || a.winget, "WinGet upgrade"@) + picked(
            upgrade_all(a) || a.vscode,
            "VS Code upgrade"@,
        ) + picked((upgrade_all(a) || a.wsl) && !a.skip_wsl, "WSL upgrade"@),
        !stops(upgrade_plan(a, root)),
{
    let all = upgrade_all(a);
    let head = seq![StepView::Section("Upgrading Packages"@)];
    let s1 = if_selected(all || a.winget, component_steps("WinGet Packages"@, "WinGet upgrade"@, root, WorkView::WinGetUpgrade(WinGetUpgrade::Start)));
    let s2 = if_selected(all || a.vscode, component_steps("VS Code Extensions"@, "VS Code upgrade"@, root, WorkView::VsCodeUpgrade(VsCodeUpgrade::Start)));
    let s3 = if_selected((all || a.wsl) && !a.skip_wsl, component_steps("WSL Packages"@, "WSL upgrade"@, root, WorkView::WslUpgrade(a.wsl_distro@, WslUpgrade::Checking(Availability::Start))));
    let tail = seq![StepView::Section("Upgrade Complete"@), StepView::Success("All packages upgraded successfully."@)];
    lemma_runs_messages(head);
    lemma_runs_messages(tail);
    assert(!stops(head)) by {
        assert forall|i: int| 0 <= i < head.len() implies !(#[trigger] head[i] is Fail) by {}
    }
    assert(!stops(tail)) by {
        assert forall|i: int| 0 <= i < tail.len() implies !(#[trigger] tail[i] is Fail) by {}
    }
    lemma_runs_selected(all || a.winget, "WinGet Packages"@, "WinGet upgrade"@, root, WorkView::WinGetUpgrade(WinGetUpgrade::Start));
    lemma_runs_selected(all || a.vscode, "VS Code Extensions"@, "VS Code upgrade"@, root, WorkView::VsCodeUpgrade(VsCodeUpgrade::Start));
    lemma_runs_selected((all || a.wsl) && !a.skip_wsl, "WSL Packages"@, "WSL upgrade"@, root, WorkView::WslUpgrade(a.wsl_distro@, WslUpgrade::Checking(Availability::Start)));
    lemma_runs_concat(head, s1);
    lemma_runs_concat(head + s1, s2);
    lemma_runs_concat(head + s1 + s2, s3);
    lemma_runs_concat(head + s1 + s2 + s3, tail);
    lemma_stops_concat(head, s1);
    lemma_stops_concat(head + s1, s2);
    lemma_stops_concat(head + s1 + s2, s3);
    lemma_stops_concat(head + s1 + s2 + s3, tail);
    assert(upgrade_plan(a, root) == head + s1 + s2 + s3 + tail);
    assert(runs(upgrade_plan(a, root)) =~= picked(all || a.winget, "WinGet upgrade"@) + picked(all || a.vscode, "VS Code upgrade"@)
        + picked((all || a.wsl) && !a.skip_wsl, "WSL upgrade"@));
}

/// An upgrade always ends normally: a failed component is reported and the
/// others still run.
pub proof fn lemma_upgrade_never_stops(a: UpgradeArgs, root: Seq<char>, dir_error: Option<ErrorView>)
    ensures
        stop_of(upgrade_plan(a, root), dir_error) is None,
{
    let all = upgrade_all(a);
    let head = seq![StepView::Section("Upgrading Packages"@)];
    let tail = seq![StepView::Section("Upgrade Complete"@), StepView::Success("All packages upgraded successfully."@)];
    let s1 = if_selected(all || a.winget, component_steps("WinGet Packages"@, "WinGet upgrade"@, root, WorkView::WinGetUpgrade(WinGetUpgrade::Start)));
    let s2 = if_selected(all || a.vscode, component_steps("VS Code Extensions"@, "VS Code upgrade"@, root, WorkView::VsCodeUpgrade(VsCodeUpgrade::Start)));
    let s3 = if_selected((all || a.wsl) && !a.skip_wsl, component_steps("WSL Packages"@, "WSL upgrade"@, root, WorkView::WslUpgrade(a.wsl_distro@, WslUpgrade::Checking(Availability::Start))));
    lemma_stop_free(head, dir_error);
    lemma_stop_free(tail, dir_error);
    lemma_stop_selected(all || a.winget, "WinGet Packages"@, "WinGet upgrade"@, root, WorkView::WinGetUpgrade(WinGetUpgrade::Start), dir_error);
    lemma_stop_selected(all || a.vscode, "VS Code Extensions"@, "VS Code upgrade"@, root, WorkView::VsCodeUpgrade(VsCodeUpgrade::Start), dir_error);
    lemma_stop_selected((all || a.wsl) && !a.skip_wsl, "WSL Packages"@, "WSL upgrade"@, root, WorkView::WslUpgrade(a.wsl_distro@, WslUpgrade::Checking(Availability::Start)), dir_error);
    lemma_stop_concat(head, s1, dir_error);
    lemma_stop_concat(head + s1, s2, dir_error);
    lemma_stop_concat(head + s1 + s2, s3, dir_error);
    lemma_stop_concat(head + s1 + s2 + s3, tail, dir_error);
    assert(upgrade_plan(a, root) == head + s1 + s2 + s3 + tail);
}

/// The job an upgrade step labelled `label` must run: the upgrade of that
/// component, from its start (WSL in the distro `distro`).
pub open spec fn upgrade_job(label: Seq<char>, root: Seq<char>, distro: Seq<char>, r: Seq<char>, work: WorkView) -> bool {
    &&& r == root
    &&& {
        ||| label == "WinGet upgrade"@ && work == WorkView::WinGetUpgrade(WinGetUpgrade::Start)
        ||| label == "VS Code upgrade"@ && work == WorkView::VsCodeUpgrade(VsCodeUpgrade::Start)
        ||| label == "WSL upgrade"@ && work == WorkView::WslUpgrade(distro, WslUpgrade::Checking(Availability::Start))
    }
}

/// An upgrade only upgrades: every job it runs is the upgrade of its
/// component, from its start, WSL in the distro `--wsl-distro` names.
pub proof fn lemma_upgrade_only_upgrades(a: UpgradeArgs, root: Seq<char>)
    ensures
        every_step(
            upgrade_plan(a, root),
            |s: StepView| (s matches StepView::Run(label, r, work) ==> upgrade_job(label, root, a.wsl_distro@, r, work)),
        ),
{
    let p = |s: StepView| (s matches StepView::Run(label, r, work) ==> upgrade_job(label, root, a.wsl_distro@, r, work));
    let all = upgrade_all(a);
    let head = seq![StepView::Section("Upgrading Packages"@)];
    let tail = seq![StepView::Section("Upgrade Complete"@), StepView::Success("All packages upgraded successfully."@)];
    let s1 = if_selected(all || a.winget, component_steps("WinGet Packages"@, "WinGet upgrade"@, root, WorkView::WinGetUpgrade(WinGetUpgrade::Start)));
    let s2 = if_selected(all || a.vscode, component_steps("VS Code Extensions"@, "VS Code upgrade"@, root, WorkView::VsCodeUpgrade(VsCodeUpgrade::Start)));
    let s3 = if_selected((all || a.wsl) && !a.skip_wsl, component_steps("WSL Packages"@, "WSL upgrade"@, root, WorkView::WslUpgrade(a.wsl_distro@, WslUpgrade::Checking(Availability::Start))));
    assert(every_step(head, p));
    assert(every_step(tail, p));
    lemma_every_selected(all || a.winget, "WinGet Packages"@, "WinGet upgrade"@, root, WorkView::WinGetUpgrade(WinGetUpgrade::Start), p);
    lemma_every_selected(all || a.vscode, "VS Code Extensions"@, "VS Code upgrade"@, root, WorkView::VsCodeUpgrade(VsCodeUpgrade::Start), p);
    lemma_every_selected((all || a.wsl) && !a.skip_wsl, "WSL Packages"@, "WSL upgrade"@, root, WorkView::WslUpgrade(a.wsl_distro@, WslUpgrade::Checking(Availability::Start)), p);
    lemma_every_concat(head, s1, p);
    lemma_every_concat(head + s1, s2, p);
    lemma_every_concat(head + s1 + s2, s3, p);
    lemma_every_concat(head + s1 + s2 + s3, tail, p);
    assert(upgrade_plan(a, root) == head + s1 + s2 + s3 + tail);
}

} // verus!

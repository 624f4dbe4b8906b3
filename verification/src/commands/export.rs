//! Export command: exports the machine configuration to the config root for
//! version control.

use crate::cli::ExportArgs;
use crate::commands::plan::{
    component_steps, if_selected, lemma_runs_concat, lemma_runs_messages, lemma_runs_selected, lemma_stops_concat, picked,
    push_component, push_step, runs, steps_view, stops, Step, StepView, lemma_stop_concat, lemma_stop_free,
    lemma_stop_selected, stop_of, every_step, lemma_every_concat, lemma_every_selected,
};
use crate::components::git::{Git, GitExport};
use crate::components::job::WorkView;
use crate::components::powershell::{PowerShell, PowerShellExport};
use crate::components::traits::Exportable;
use crate::components::vscode::{VsCode, VsCodeExport};
use crate::components::winget::{WinGet, WinGetExport};
use crate::components::wsl::{Availability, Wsl, WslExport};
use crate::error::{BootstrapError, ErrorView};
use crate::text::{concat, owned};
use vstd::prelude::*;

verus! {

/// No component is named, so all of them run.
pub open spec fn export_all(a: ExportArgs) -> bool {
    !a.vscode && !a.winget && !a.powershell && !a.git && !a.wsl
}

/// The export refuses to run: files could be overwritten and `--force` was not given.
pub open spec fn refuses(a: ExportArgs, has_content: bool) -> bool {
    !a.force && has_content
}

/// The export steps.  `root_exists`: the config root exists; `has_content`:
/// its `dotfiles` or `config` directory holds something.  The root is created
/// when missing; without `--force`, existing content ends the command with an
/// error before any component runs; otherwise WinGet, VS Code, PowerShell, Git
/// and WSL are exported, each when selected (WSL not with `--skip-wsl`, and from
/// the distro `--wsl-distro` names).
pub open spec fn export_plan(a: ExportArgs, root: Seq<char>, root_exists: bool, has_content: bool) -> Seq<StepView> {
    seq![StepView::Section("Exporting Configuration"@), StepView::KeyValue("Config Root"@, root)]
        + if_selected(!root_exists, seq![StepView::Info("Creating config directory: "@ + root), StepView::CreateDir(root)])
        + if refuses(a, has_content) {
        seq![
            StepView::Warning("Export directory is not empty. Existing files may be overwritten."@),
            StepView::Fail(ErrorView::Config("Use --force (-f) to overwrite existing configuration files."@)),
        ]
    } else {
        export_components(a, root) + seq![
            StepView::Section("Export Complete"@),
            StepView::Success("Configuration exported successfully."@),
            StepView::Info("Review changes and commit to version control."@),
        ]
    }
}

/// The component sections of an export: WinGet, VS Code, PowerShell, Git and
/// WSL (from the named distro), each when selected; WSL not with `--skip-wsl`.
pub open spec fn export_components(a: ExportArgs, root: Seq<char>) -> Seq<StepView> {
    let all = export_all(a);
    if_selected(all || a.winget, component_steps("WinGet Packages"@, "WinGet export"@, root, WorkView::WinGetExport(WinGetExport::Start)))
        + if_selected(all || a.vscode, component_steps("VS Code Configuration"@, "VS Code export"@, root, WorkView::VsCodeExport(VsCodeExport::Start)))
        + if_selected(all || a.powershell, component_steps("PowerShell Profile"@, "PowerShell export"@, root, WorkView::PowerShellExport(None, PowerShellExport::Start)))
        + if_selected(all || a.git, component_steps("Git Configuration"@, "Git export"@, root, WorkView::GitExport(GitExport::Start)))
        + if_selected((all || a.wsl) && !a.skip_wsl, component_steps("WSL Dotfiles"@, "WSL export"@, root, WorkView::WslExport(a.wsl_distro@, WslExport::Checking(Availability::Start))))
}

/// Appends the component sections of an export.
#[verifier::rlimit(40)]
fn push_export_components(steps: &mut Vec<Step>, args: &ExportArgs, config_root: &str)
    ensures
        steps_view(final(steps)@) =~= steps_view(old(steps)@) + export_components(*args, config_root@),
{
    let all = !args.vscode && !args.winget && !args.powershell && !args.git && !args.wsl;
    let ghost mut expect = steps_view(steps@);
    if all || args.winget {
        push_component(steps, "WinGet Packages", "WinGet export", WinGet::new().export(config_root));
    }
    proof {
        expect = expect + if_selected(all || args.winget, component_steps("WinGet Packages"@, "WinGet export"@, config_root@, WorkView::WinGetExport(WinGetExport::Start)));
    }
    assert(steps_view(steps@) =~= expect);
    if all || args.vscode {
        push_component(steps, "VS Code Configuration", "VS Code export", VsCode::new().export(config_root));
    }
    proof {
        expect = expect + if_selected(all || args.vscode, component_steps("VS Code Configuration"@, "VS Code export"@, config_root@, WorkView::VsCodeExport(VsCodeExport::Start)));
    }
    assert(steps_view(steps@) =~= expect);
    if all || args.powershell {
        push_component(steps, "PowerShell Profile", "PowerShell export", PowerShell::new().export(config_root));
    }
    proof {
        expect = expect + if_selected(all || args.powershell, component_steps("PowerShell Profile"@, "PowerShell export"@, config_root@, WorkView::PowerShellExport(None, PowerShellExport::Start)));
    }
    assert(steps_view(steps@) =~= expect);
    if all || args.git {
        push_component(steps, "Git Configuration", "Git export", Git::new().export(config_root));
    }
    proof {
        expect = expect + if_selected(all || args.git, component_steps("Git Configuration"@, "Git export"@, config_root@, WorkView::GitExport(GitExport::Start)));
    }
    assert(steps_view(steps@) =~= expect);
    if (all || args.wsl) && !args.skip_wsl {
        let wsl = Wsl::new(args.wsl_distro.as_str());
        push_component(steps, "WSL Dotfiles", "WSL export", wsl.export(config_root));
    }
    proof {
        expect = expect + if_selected((all || args.wsl) && !args.skip_wsl, component_steps("WSL Dotfiles"@, "WSL export"@, config_root@, WorkView::WslExport(args.wsl_distro@, WslExport::Checking(Availability::Start))));
    }
    assert(steps_view(steps@) =~= expect);
}

/// The steps of the export command.
pub fn execute(args: &ExportArgs, config_root: &str, root_exists: bool, has_content: bool) -> (steps: Vec<Step>)
    ensures
        steps_view(steps@) =~= export_plan(*args, config_root@, root_exists, has_content),
{
    let mut steps: Vec<Step> = Vec::new();
    push_step(&mut steps, Step::Section(owned("Exporting Configuration")));
    push_step(&mut steps, Step::KeyValue(owned("Config Root"), owned(config_root)));
    if !root_exists {
        push_step(&mut steps, Step::Info(concat("Creating config directory: ", config_root)));
        push_step(&mut steps, Step::CreateDir(owned(config_root)));
    }
    let ghost mut expect = seq![StepView::Section("Exporting Configuration"@), StepView::KeyValue("Config Root"@, config_root@)] + if_selected(!root_exists, seq![StepView::Info("Creating config directory: "@ + config_root@), StepView::CreateDir(config_root@)]);
    assert(steps_view(steps@) =~= expect);
    if !args.force && has_content {
        push_step(
            &mut steps,
            Step::Warning(owned("Export directory is not empty. Existing files may be overwritten.")),
        );
        push_step(
            &mut steps,
            Step::Fail(BootstrapError::Config(owned("Use --force (-f) to overwrite existing configuration files."))),
        );
        assert(steps_view(steps@) =~= expect + seq![
            StepView::Warning("Export directory is not empty. Existing files may be overwritten."@),
            StepView::Fail(ErrorView::Config("Use --force (-f) to overwrite existing configuration files."@)),
        ]);
        return steps;
    }
    push_export_components(&mut steps, args, config_root);
    push_step(&mut steps, Step::Section(owned("Export Complete")));
    push_step(&mut steps, Step::Success(owned("Configuration exported successfully.")));
    push_step(&mut steps, Step::Info(owned("Review changes and commit to version control.")));
    assert(steps_view(steps@) =~= expect + export_components(*args, config_root@) + seq![
        StepView::Section("Export Complete"@),
        StepView::Success("Configuration exported successfully."@),
        StepView::Info("Review changes and commit to version control."@),
    ]);
    steps
}

/// The component sections of an export run exactly the selected components,
/// in order, and none ends the command with an error.
proof fn lemma_export_components(a: ExportArgs, root: Seq<char>)
    ensures
        runs(export_components(a, root)) == picked(export_all(a) || a.winget, "WinGet export"@) + picked(
            export_all(a) || a.vscode,
            "VS Code export"@,
        ) + picked(export_all(a) || a.powershell, "PowerShell export"@) + picked(export_all(a) || a.git, "Git export"@)
            + picked((export_all(a) || a.wsl) && !a.skip_wsl, "WSL export"@),
        !stops(export_components(a, root)),
{
    let all = export_all(a);
    let s1 = if_selected(all || a.winget, component_steps("WinGet Packages"@, "WinGet export"@, root, WorkView::WinGetExport(WinGetExport::Start)));
    let s2 = if_selected(all || a.vscode, component_steps("VS Code Configuration"@, "VS Code export"@, root, WorkView::VsCodeExport(VsCodeExport::Start)));
    let s3 = if_selected(all || a.powershell, component_steps("PowerShell Profile"@, "PowerShell export"@, root, WorkView::PowerShellExport(None, PowerShellExport::Start)));
    let s4 = if_selected(all || a.git, component_steps("Git Configuration"@, "Git export"@, root, WorkView::GitExport(GitExport::Start)));
    let s5 = if_selected((all || a.wsl) && !a.skip_wsl, component_steps("WSL Dotfiles"@, "WSL export"@, root, WorkView::WslExport(a.wsl_distro@, WslExport::Checking(Availability::Start))));
    lemma_runs_selected(all || a.winget, "WinGet Packages"@, "WinGet export"@, root, WorkView::WinGetExport(WinGetExport::Start));
    lemma_runs_selected(all || a.vscode, "VS Code Configuration"@, "VS Code export"@, root, WorkView::VsCodeExport(VsCodeExport::Start));
    lemma_runs_selected(all || a.powershell, "PowerShell Profile"@, "PowerShell export"@, root, WorkView::PowerShellExport(None, PowerShellExport::Start));
    lemma_runs_selected(all || a.git, "Git Configuration"@, "Git export"@, root, WorkView::GitExport(GitExport::Start));
    lemma_runs_selected((all || a.wsl) && !a.skip_wsl, "WSL Dotfiles"@, "WSL export"@, root, WorkView::WslExport(a.wsl_distro@, WslExport::Checking(Availability::Start)));
    lemma_runs_concat(s1, s2);
    lemma_runs_concat(s1 + s2, s3);
    lemma_runs_concat(s1 + s2 + s3, s4);
    lemma_runs_concat(s1 + s2 + s3 + s4, s5);
    lemma_stops_concat(s1, s2);
    lemma_stops_concat(s1 + s2, s3);
    lemma_stops_concat(s1 + s2 + s3, s4);
    lemma_stops_concat(s1 + s2 + s3 + s4, s5);
    assert(export_components(a, root) == s1 + s2 + s3 + s4 + s5);
}

/// Without `--force`, an export into a root whose `dotfiles` or `config`
/// directory holds something runs no component and ends the command with the
/// configuration error.  Otherwise it runs exactly the selected components, in
/// the order WinGet, VS Code, PowerShell, Git, WSL (WSL never with
/// `--skip-wsl`), and no step ends the command with an error.
pub proof fn lemma_export_guard(a: ExportArgs, root: Seq<char>, root_exists: bool, has_content: bool)
    ensures
        refuses(a, has_content) ==> runs(export_plan(a, root, root_exists, has_content)) == Seq::<Seq<char>>::empty()
            && export_plan(a, root, root_exists, has_content).last() == StepView::Fail(
            ErrorView::Config("Use --force (-f) to overwrite existing configuration files."@),
        ),
        !refuses(a, has_content) ==> runs(export_plan(a, root, root_exists, has_content)) == picked(
            export_all(a) || a.winget,
            "WinGet export"@,
        ) + picked(export_all(a) || a.vscode, "VS Code export"@) + picked(
            export_all(a) || a.powershell,
            "PowerShell export"@,
        ) + picked(export_all(a) || a.git, "Git export"@) + picked((export_all(a) || a.wsl) && !a.skip_wsl, "WSL export"@),
        !refuses(a, has_content) ==> !stops(export_plan(a, root, root_exists, has_content)),
{
    let all = export_all(a);
    let head = seq![StepView::Section("Exporting Configuration"@), StepView::KeyValue("Config Root"@, root)]
        + if_selected(!root_exists, seq![StepView::Info("Creating config directory: "@ + root), StepView::CreateDir(root)]);
    lemma_runs_messages(head);
    assert(!stops(head)) by {
        assert forall|i: int| 0 <= i < head.len() implies !(#[trigger] head[i] is Fail) by {}
    }
    if refuses(a, has_content) {
        let stop = seq![
            StepView::Warning("Export directory is not empty. Existing files may be overwritten."@),
            StepView::Fail(ErrorView::Config("Use --force (-f) to overwrite existing configuration files."@)),
        ];
        lemma_runs_messages(stop);
        lemma_runs_concat(head, stop);
        assert(runs(head) + runs(stop) =~= Seq::<Seq<char>>::empty());
    } else {
        let tail = seq![
            StepView::Section("Export Complete"@),
            StepView::Success("Configuration exported successfully."@),
            StepView::Info("Review changes and commit to version control."@),
        ];
        let body = export_components(a, root);
        lemma_export_components(a, root);
        lemma_runs_messages(tail);
        assert(!stops(tail)) by {
            assert forall|i: int| 0 <= i < tail.len() implies !(#[trigger] tail[i] is Fail) by {}
        }
        lemma_runs_concat(head, body);
        lemma_runs_concat(head + body, tail);
        lemma_stops_concat(head, body);
        lemma_stops_concat(head + body, tail);
        assert(export_plan(a, root, root_exists, has_content) == head + body + tail);
        assert(runs(export_plan(a, root, root_exists, has_content)) =~= runs(body));
    }
}

/// How a whole export run ends, when creating the config root gives
/// `dir_error` (`None` when it succeeds): with that error when the root was
/// missing and could not be created; else, without `--force` and with a
/// non-empty `dotfiles` or `config` directory, with the configuration error;
/// else normally, whatever happens to the component exports.
pub proof fn lemma_export_outcome(
    a: ExportArgs,
    root: Seq<char>,
    root_exists: bool,
    has_content: bool,
    dir_error: Option<ErrorView>,
)
    ensures
        stop_of(export_plan(a, root, root_exists, has_content), dir_error) == if !root_exists && dir_error is Some {
            dir_error
        } else if refuses(a, has_content) {
            Some(ErrorView::Config("Use --force (-f) to overwrite existing configuration files."@))
        } else {
            None
        },
{
    let first = seq![StepView::Section("Exporting Configuration"@), StepView::KeyValue("Config Root"@, root)];
    let create = if_selected(!root_exists, seq![StepView::Info("Creating config directory: "@ + root), StepView::CreateDir(root)]);
    lemma_stop_free(first, dir_error);
    let made = seq![StepView::Info("Creating config directory: "@ + root), StepView::CreateDir(root)];
    assert(made.drop_first() =~= seq![StepView::CreateDir(root)]);
    assert(seq![StepView::CreateDir(root)].drop_first() =~= Seq::<StepView>::empty());
    assert(stop_of(Seq::<StepView>::empty(), dir_error) is None);
    assert(stop_of(seq![StepView::CreateDir(root)], dir_error) == dir_error);
    assert(stop_of(made, dir_error) == stop_of(seq![StepView::CreateDir(root)], dir_error));
    if root_exists {
        assert(create =~= Seq::<StepView>::empty());
    }
    lemma_stop_concat(first, create, dir_error);
    let head = first + create;
    if refuses(a, has_content) {
        let stop = seq![
            StepView::Warning("Export directory is not empty. Existing files may be overwritten."@),
            StepView::Fail(ErrorView::Config("Use --force (-f) to overwrite existing configuration files."@)),
        ];
        assert(stop.drop_first() =~= seq![
            StepView::Fail(ErrorView::Config("Use --force (-f) to overwrite existing configuration files."@)),
        ]);
        assert(stop_of(stop.drop_first(), dir_error) == Some(
            ErrorView::Config("Use --force (-f) to overwrite existing configuration files."@),
        ));
        lemma_stop_concat(head, stop, dir_error);
        assert(export_plan(a, root, root_exists, has_content) == head + stop);
    } else {
        let tail = seq![
            StepView::Section("Export Complete"@),
            StepView::Success("Configuration exported successfully."@),
            StepView::Info("Review changes and commit to version control."@),
        ];
        let body = export_components(a, root);
        lemma_export_components_stop(a, root, dir_error);
        lemma_stop_free(tail, dir_error);
        lemma_stop_concat(head, body, dir_error);
        lemma_stop_concat(head + body, tail, dir_error);
        assert(export_plan(a, root, root_exists, has_content) == head + body + tail);
    }
}

/// The component sections of an export never end the command.
proof fn lemma_export_components_stop(a: ExportArgs, root: Seq<char>, dir_error: Option<ErrorView>)
    ensures
        stop_of(export_components(a, root), dir_error) is None,
{
    let all = export_all(a);
    let s1 = if_selected(all || a.winget, component_steps("WinGet Packages"@, "WinGet export"@, root, WorkView::WinGetExport(WinGetExport::Start)));
    let s2 = if_selected(all || a.vscode, component_steps("VS Code Configuration"@, "VS Code export"@, root, WorkView::VsCodeExport(VsCodeExport::Start)));
    let s3 = if_selected(all || a.powershell, component_steps("PowerShell Profile"@, "PowerShell export"@, root, WorkView::PowerShellExport(None, PowerShellExport::Start)));
    let s4 = if_selected(all || a.git, component_steps("Git Configuration"@, "Git export"@, root, WorkView::GitExport(GitExport::Start)));
    let s5 = if_selected((all || a.wsl) && !a.skip_wsl, component_steps("WSL Dotfiles"@, "WSL export"@, root, WorkView::WslExport(a.wsl_distro@, WslExport::Checking(Availability::Start))));
    lemma_stop_selected(all || a.winget, "WinGet Packages"@, "WinGet export"@, root, WorkView::WinGetExport(WinGetExport::Start), dir_error);
    lemma_stop_selected(all || a.vscode, "VS Code Configuration"@, "VS Code export"@, root, WorkView::VsCodeExport(VsCodeExport::Start), dir_error);
    lemma_stop_selected(all || a.powershell, "PowerShell Profile"@, "PowerShell export"@, root, WorkView::PowerShellExport(None, PowerShellExport::Start), dir_error);
    lemma_stop_selected(all || a.git, "Git Configuration"@, "Git export"@, root, WorkView::GitExport(GitExport::Start), dir_error);
    lemma_stop_selected((all || a.wsl) && !a.skip_wsl, "WSL Dotfiles"@, "WSL export"@, root, WorkView::WslExport(a.wsl_distro@, WslExport::Checking(Availability::Start)), dir_error);
    lemma_stop_concat(s1, s2, dir_error);
    lemma_stop_concat(s1 + s2, s3, dir_error);
    lemma_stop_concat(s1 + s2 + s3, s4, dir_error);
    lemma_stop_concat(s1 + s2 + s3 + s4, s5, dir_error);
    assert(export_components(a, root) == s1 + s2 + s3 + s4 + s5);
}

/// The job an export step labelled `label` must run on `root`: the export of
/// that component, from its start (WSL from the distro `distro`).
pub open spec fn export_job(label: Seq<char>, root: Seq<char>, distro: Seq<char>, r: Seq<char>, work: WorkView) -> bool {
    &&& r == root
    &&& {
        ||| label == "WinGet export"@ && work == WorkView::WinGetExport(WinGetExport::Start)
        ||| label == "VS Code export"@ && work == WorkView::VsCodeExport(VsCodeExport::Start)
        ||| label == "PowerShell export"@ && work == WorkView::PowerShellExport(None, PowerShellExport::Start)
        ||| label == "Git export"@ && work == WorkView::GitExport(GitExport::Start)
        ||| label == "WSL export"@ && work == WorkView::WslExport(distro, WslExport::Checking(Availability::Start))
    }
}

/// An export only exports: every job it runs is the export of its component,
/// from its start, on the config root, WSL from the distro `--wsl-distro`
/// names.
pub proof fn lemma_export_only_exports(a: ExportArgs, root: Seq<char>, root_exists: bool, has_content: bool)
    ensures
        every_step(
            export_plan(a, root, root_exists, has_content),
            |s: StepView| (s matches StepView::Run(label, r, work) ==> export_job(label, root, a.wsl_distro@, r, work)),
        ),
{
    let p = |s: StepView| (s matches StepView::Run(label, r, work) ==> export_job(label, root, a.wsl_distro@, r, work));
    let all = export_all(a);
    let head = seq![StepView::Section("Exporting Configuration"@), StepView::KeyValue("Config Root"@, root)]
        + if_selected(!root_exists, seq![StepView::Info("Creating config directory: "@ + root), StepView::CreateDir(root)]);
    assert(every_step(head, p));
    if refuses(a, has_content) {
        let stop = seq![
            StepView::Warning("Export directory is not empty. Existing files may be overwritten."@),
            StepView::Fail(ErrorView::Config("Use --force (-f) to overwrite existing configuration files."@)),
        ];
        assert(every_step(stop, p));
        lemma_every_concat(head, stop, p);
    } else {
        let tail = seq![
            StepView::Section("Export Complete"@),
            StepView::Success("Configuration exported successfully."@),
            StepView::Info("Review changes and commit to version control."@),
        ];
        let body = export_components(a, root);
        lemma_export_components_export(a, root);
        assert(every_step(tail, p));
        lemma_every_concat(head, body, p);
        lemma_every_concat(head + body, tail, p);
        assert(export_plan(a, root, root_exists, has_content) == head + body + tail);
    }
}

/// The component sections of an export run only exports.
proof fn lemma_export_components_export(a: ExportArgs, root: Seq<char>)
    ensures
        every_step(
            export_components(a, root),
            |s: StepView| (s matches StepView::Run(label, r, work) ==> export_job(label, root, a.wsl_distro@, r, work)),
        ),
{
    let p = |s: StepView| (s matches StepView::Run(label, r, work) ==> export_job(label, root, a.wsl_distro@, r, work));
    let all = export_all(a);
    let s1 = if_selected(all || a.winget, component_steps("WinGet Packages"@, "WinGet export"@, root, WorkView::WinGetExport(WinGetExport::Start)));
    let s2 = if_selected(all || a.vscode, component_steps("VS Code Configuration"@, "VS Code export"@, root, WorkView::VsCodeExport(VsCodeExport::Start)));
    let s3 = if_selected(all || a.powershell, component_steps("PowerShell Profile"@, "PowerShell export"@, root, WorkView::PowerShellExport(None, PowerShellExport::Start)));
    let s4 = if_selected(all || a.git, component_steps("Git Configuration"@, "Git export"@, root, WorkView::GitExport(GitExport::Start)));
    let s5 = if_selected((all || a.wsl) && !a.skip_wsl, component_steps("WSL Dotfiles"@, "WSL export"@, root, WorkView::WslExport(a.wsl_distro@, WslExport::Checking(Availability::Start))));
    lemma_every_selected(all || a.winget, "WinGet Packages"@, "WinGet export"@, root, WorkView::WinGetExport(WinGetExport::Start), p);
    lemma_every_selected(all || a.vscode, "VS Code Configuration"@, "VS Code export"@, root, WorkView::VsCodeExport(VsCodeExport::Start), p);
    lemma_every_selected(all || a.powershell, "PowerShell Profile"@, "PowerShell export"@, root, WorkView::PowerShellExport(None, PowerShellExport::Start), p);
    lemma_every_selected(all || a.git, "Git Configuration"@, "Git export"@, root, WorkView::GitExport(GitExport::Start), p);
    lemma_every_selected((all || a.wsl) && !a.skip_wsl, "WSL Dotfiles"@, "WSL export"@, root, WorkView::WslExport(a.wsl_distro@, WslExport::Checking(Availability::Start)), p);
    lemma_every_concat(s1, s2, p);
    lemma_every_concat(s1 + s2, s3, p);
    lemma_every_concat(s1 + s2 + s3, s4, p);
    lemma_every_concat(s1 + s2 + s3 + s4, s5, p);
    assert(export_components(a, root) == s1 + s2 + s3 + s4 + s5);
}

} // verus!

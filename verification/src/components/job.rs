//! A component job: one export, import or upgrade, run one effect at a time.

use crate::components::effects::{answers, reply_answers, reply_to, written, Action, ActionView, Awaiting, Reply};
use crate::components::git::{git_export_moves, git_import_moves, Git, GitExport, GitImport};
use crate::components::powershell::{
    powershell_export_moves, powershell_import_moves, PowerShell, PowerShellExport, PowerShellImport,
};
use crate::components::vscode::{
    vscode_export_moves, vscode_import_moves, vscode_upgrade_moves, VsCode, VsCodeExport, VsCodeImport, VsCodeUpgrade,
};
use crate::components::winget::{
    count_fits, winget_export_moves, winget_import_moves, winget_upgrade_moves, WinGet, WinGetExport, WinGetImport,
    WinGetUpgrade,
};
use crate::components::wsl::{
    export_converts, export_converts_path, import_converts, import_converts_path, wsl_export_moves, wsl_import_moves,
    wsl_upgrade_moves, Wsl, WslExport, WslImport, WslUpgrade,
};
use crate::json::{count_packages, parse_json};
use crate::utils::paths::{is_slicable, slicable, under};
use vstd::prelude::*;

verus! {

/// Which operation a job performs, and how far it has come.
pub enum Work {
    GitExport(GitExport),
    GitImport(GitImport),
    PowerShellExport(PowerShell, PowerShellExport),
    PowerShellImport(PowerShellImport),
    VsCodeExport(VsCodeExport),
    VsCodeImport(VsCodeImport),
    VsCodeUpgrade(VsCodeUpgrade),
    WinGetExport(WinGetExport),
    WinGetImport(WinGetImport),
    WinGetUpgrade(WinGetUpgrade),
    WslExport(Wsl, WslExport),
    WslImport(Wsl, WslImport),
    WslUpgrade(Wsl, WslUpgrade),
}

/// A job's work, with the WSL distro and the PowerShell repository root as
/// character sequences.
pub enum WorkView {
    GitExport(GitExport),
    GitImport(GitImport),
    PowerShellExport(Option<Seq<char>>, PowerShellExport),
    PowerShellImport(PowerShellImport),
    VsCodeExport(VsCodeExport),
    VsCodeImport(VsCodeImport),
    VsCodeUpgrade(VsCodeUpgrade),
    WinGetExport(WinGetExport),
    WinGetImport(WinGetImport),
    WinGetUpgrade(WinGetUpgrade),
    WslExport(Seq<char>, WslExport),
    WslImport(Seq<char>, WslImport),
    WslUpgrade(Seq<char>, WslUpgrade),
}

impl View for Work {
    type V = WorkView;

    open spec fn view(&self) -> WorkView {
        match self {
            Work::GitExport(s) => WorkView::GitExport(*s),
            Work::GitImport(s) => WorkView::GitImport(*s),
            Work::PowerShellExport(p, s) => WorkView::PowerShellExport(
                match p.repo_root {
                    Some(r) => Some(r@),
                    None => None,
                },
                *s,
            ),
            Work::PowerShellImport(s) => WorkView::PowerShellImport(*s),
            Work::VsCodeExport(s) => WorkView::VsCodeExport(*s),
            Work::VsCodeImport(s) => WorkView::VsCodeImport(*s),
            Work::VsCodeUpgrade(s) => WorkView::VsCodeUpgrade(*s),
            Work::WinGetExport(s) => WorkView::WinGetExport(*s),
            Work::WinGetImport(s) => WorkView::WinGetImport(*s),
            Work::WinGetUpgrade(s) => WorkView::WinGetUpgrade(*s),
            Work::WslExport(w, s) => WorkView::WslExport(w.distro@, *s),
            Work::WslImport(w, s) => WorkView::WslImport(w.distro@, *s),
            Work::WslUpgrade(w, s) => WorkView::WslUpgrade(w.distro@, *s),
        }
    }
}

/// One component operation on a configuration root.
pub struct Job {
    pub config_root: String,
    pub work: Work,
}

impl Job {
    /// How far the job is from its end.
    pub open spec fn rank(self) -> (nat, nat) {
        match self.work {
            Work::GitExport(s) => s.rank(),
            Work::GitImport(s) => s.rank(),
            Work::PowerShellExport(_, s) => s.rank(),
            Work::PowerShellImport(s) => s.rank(),
            Work::VsCodeExport(s) => s.rank(),
            Work::VsCodeImport(s) => s.rank(),
            Work::VsCodeUpgrade(s) => s.rank(),
            Work::WinGetExport(s) => s.rank(),
            Work::WinGetImport(s) => s.rank(),
            Work::WinGetUpgrade(s) => s.rank(),
            Work::WslExport(_, s) => s.rank(),
            Work::WslImport(_, s) => s.rank(),
            Work::WslUpgrade(_, s) => s.rank(),
        }
    }

    /// The job exports a component's configuration into its root.
    pub open spec fn is_export(self) -> bool {
        ||| self.work is GitExport
        ||| self.work is PowerShellExport
        ||| self.work is VsCodeExport
        ||| self.work is WinGetExport
        ||| self.work is WslExport
    }

    /// The reply the job waits for.
    pub open spec fn awaiting(self) -> Awaiting {
        match self.work {
            Work::GitExport(s) => s.awaiting(),
            Work::GitImport(s) => s.awaiting(),
            Work::PowerShellExport(_, s) => s.awaiting(),
            Work::PowerShellImport(s) => s.awaiting(),
            Work::VsCodeExport(s) => s.awaiting(),
            Work::VsCodeImport(s) => s.awaiting(),
            Work::VsCodeUpgrade(s) => s.awaiting(),
            Work::WinGetExport(s) => s.awaiting(),
            Work::WinGetImport(s) => s.awaiting(),
            Work::WinGetUpgrade(s) => s.awaiting(),
            Work::WslExport(_, s) => s.awaiting(),
            Work::WslImport(_, s) => s.awaiting(),
            Work::WslUpgrade(_, s) => s.awaiting(),
        }
    }

    /// The reply the job waits for.
    pub fn awaits(&self) -> (w: Awaiting)
        ensures
            w == self.awaiting(),
    {
        match &self.work {
            Work::GitExport(s) => s.awaits(),
            Work::GitImport(s) => s.awaits(),
            Work::PowerShellExport(_, s) => s.awaits(),
            Work::PowerShellImport(s) => s.awaits(),
            Work::VsCodeExport(s) => s.awaits(),
            Work::VsCodeImport(s) => s.awaits(),
            Work::VsCodeUpgrade(s) => s.awaits(),
            Work::WinGetExport(s) => s.awaits(),
            Work::WinGetImport(s) => s.awaits(),
            Work::WinGetUpgrade(s) => s.awaits(),
            Work::WslExport(_, s) => s.awaits(),
            Work::WslImport(_, s) => s.awaits(),
            Work::WslUpgrade(_, s) => s.awaits(),
        }
    }

    /// The job can take this reply: it is of the awaited kind; a WinGet package
    /// count fits a `usize`; a move of a WSL export or import that converts a
    /// path under the root to its WSL form has a root where that can be done
    /// (slicing such a path at byte 2 would panic).
    pub open spec fn ready_for(self, reply: Reply) -> bool {
        &&& answers(self.awaiting(), reply)
        &&& self.work is WinGetExport ==> count_fits(reply)
        &&& (self.work matches Work::WslExport(_, s) && export_converts(s, reply)) ==> slicable(self.config_root@)
        &&& (self.work matches Work::WslImport(_, s) && import_converts(s, reply)) ==> slicable(self.config_root@)
    }

    /// Whether the job can take this reply.
    pub fn accepts(&self, reply: &Reply) -> (b: bool)
        ensures
            b == self.ready_for(*reply),
    {
        if !reply_answers(self.awaits(), reply) {
            return false;
        }
        match &self.work {
            Work::WinGetExport(_) => match reply {
                Reply::Text(Ok(t)) => match parse_json(t.as_str()) {
                    Ok(doc) => count_packages(&doc).is_some(),
                    Err(_) => true,
                },
                _ => true,
            },
            Work::WslExport(_, s) => !export_converts_path(s, reply) || is_slicable(self.config_root.as_str()),
            Work::WslImport(_, s) => !import_converts_path(s, reply) || is_slicable(self.config_root.as_str()),
            _ => true,
        }
    }

    /// The job has ended.
    pub fn is_over(&self) -> (b: bool)
        ensures
            b == (self.awaiting() == Awaiting::Nothing),
    {
        self.awaits() == Awaiting::Nothing
    }

    /// One move of the job: the component operation's move, on the same root.
    pub open spec fn moves(self, reply: Reply, next: Job, a: ActionView) -> bool {
        let root = self.config_root@;
        &&& next.config_root == self.config_root
        &&& match self.work {
            Work::GitExport(s) => next.work matches Work::GitExport(n) && git_export_moves(root, s, reply, n, a),
            Work::GitImport(s) => next.work matches Work::GitImport(n) && git_import_moves(root, s, reply, n, a),
            Work::PowerShellExport(p, s) => next.work matches Work::PowerShellExport(q, n) && q == p
                && powershell_export_moves(p, root, s, reply, n, a),
            Work::PowerShellImport(s) => next.work matches Work::PowerShellImport(n) && powershell_import_moves(
                root,
                s,
                reply,
                n,
                a,
            ),
            Work::VsCodeExport(s) => next.work matches Work::VsCodeExport(n) && vscode_export_moves(root, s, reply, n, a),
            Work::VsCodeImport(s) => next.work matches Work::VsCodeImport(n) && vscode_import_moves(root, s, reply, n, a),
            Work::VsCodeUpgrade(s) => next.work matches Work::VsCodeUpgrade(n) && vscode_upgrade_moves(root, s, reply, n, a),
            Work::WinGetExport(s) => next.work matches Work::WinGetExport(n) && winget_export_moves(root, s, reply, n, a),
            Work::WinGetImport(s) => next.work matches Work::WinGetImport(n) && winget_import_moves(root, s, reply, n, a),
            Work::WinGetUpgrade(s) => next.work matches Work::WinGetUpgrade(n) && winget_upgrade_moves(s, reply, n, a),
            Work::WslExport(w, s) => next.work matches Work::WslExport(v, n) && v == w && wsl_export_moves(
                w.distro@,
                root,
                s,
                reply,
                n,
                a,
            ),
            Work::WslImport(w, s) => next.work matches Work::WslImport(v, n) && v == w && wsl_import_moves(
                w.distro@,
                root,
                s,
                reply,
                n,
                a,
            ),
            Work::WslUpgrade(w, s) => next.work matches Work::WslUpgrade(v, n) && v == w && wsl_upgrade_moves(
                w.distro@,
                s,
                reply,
                n,
                a,
            ),
        }
    }

    /// Hands the job the reply to its last effect; gives the job as it goes on
    /// and the next action.
    pub fn step(self, reply: Reply) -> (r: (Job, Action))
        requires
            self.ready_for(reply),
        ensures
            self.moves(reply, r.0, r.1@),
    {
        let Job { config_root, work } = self;
        let root = config_root.as_str();
        let (work, action) = match work {
            Work::GitExport(s) => {
                let (n, a) = Git.export_step(root, s, reply);
                (Work::GitExport(n), a)
            },
            Work::GitImport(s) => {
                let (n, a) = Git.import_step(root, s, reply);
                (Work::GitImport(n), a)
            },
            Work::PowerShellExport(p, s) => {
                let (n, a) = p.export_step(root, s, reply);
                (Work::PowerShellExport(p, n), a)
            },
            Work::PowerShellImport(s) => {
                let (n, a) = PowerShell::new().import_step(root, s, reply);
                (Work::PowerShellImport(n), a)
            },
            Work::VsCodeExport(s) => {
                let (n, a) = VsCode.export_step(root, s, reply);
                (Work::VsCodeExport(n), a)
            },
            Work::VsCodeImport(s) => {
                let (n, a) = VsCode.import_step(root, s, reply);
                (Work::VsCodeImport(n), a)
            },
            Work::VsCodeUpgrade(s) => {
                let (n, a) = VsCode.upgrade_step(root, s, reply);
                (Work::VsCodeUpgrade(n), a)
            },
            Work::WinGetExport(s) => {
                let (n, a) = WinGet.export_step(root, s, reply);
                (Work::WinGetExport(n), a)
            },
            Work::WinGetImport(s) => {
                let (n, a) = WinGet.import_step(root, s, reply);
                (Work::WinGetImport(n), a)
            },
            Work::WinGetUpgrade(s) => {
                let (n, a) = WinGet.upgrade_step(s, reply);
                (Work::WinGetUpgrade(n), a)
            },
            Work::WslExport(w, s) => {
                let (n, a) = w.export_step(root, s, reply);
                (Work::WslExport(w, n), a)
            },
            Work::WslImport(w, s) => {
                let (n, a) = w.import_step(root, s, reply);
                (Work::WslImport(w, n), a)
            },
            Work::WslUpgrade(w, s) => {
                let (n, a) = w.upgrade_step(s, reply);
                (Work::WslUpgrade(w, n), a)
            },
        };
        (Job { config_root, work }, action)
    }
}

/// After every move the job keeps its root and waits for exactly the kind of
/// reply that the effect it asked for gives; once it has asked to finish, it
/// waits for nothing.
pub proof fn lemma_move_awaits_reply(job: Job, reply: Reply, next: Job, a: ActionView)
    requires
        job.ready_for(reply),
        job.moves(reply, next, a),
    ensures
        next.config_root@ == job.config_root@,
        next.awaiting() == reply_to(a.effect),
{
}

/// A job that has finished takes no reply.
pub proof fn lemma_finished_takes_nothing(job: Job, reply: Reply)
    requires
        job.awaiting() == Awaiting::Nothing,
    ensures
        !job.ready_for(reply),
{
}

/// `a` comes before `b` in the lexicographic order on pairs of naturals.
pub open spec fn below(a: (nat, nat), b: (nat, nat)) -> bool {
    a.0 < b.0 || (a.0 == b.0 && a.1 < b.1)
}

/// Every move lowers the job's rank in the lexicographic order on pairs of
/// naturals, which has no infinite descending chain: every job ends after
/// finitely many moves.
pub proof fn lemma_move_lowers_rank(job: Job, reply: Reply, next: Job, a: ActionView)
    requires
        job.ready_for(reply),
        job.moves(reply, next, a),
    ensures
        below(next.rank(), job.rank()),
{
    match job.work {
        Work::VsCodeImport(s) => {
            crate::components::vscode::lemma_import_lowers_rank(job.config_root@, s, reply, next.work->VsCodeImport_0, a);
        },
        Work::VsCodeUpgrade(s) => {
            crate::components::vscode::lemma_upgrade_lowers_rank(job.config_root@, s, reply, next.work->VsCodeUpgrade_0, a);
        },
        _ => {},
    }
}

/// An export creates and overwrites files only below its config root: every
/// directory it creates and every file it copies or writes lies there.
pub proof fn lemma_export_writes_inside_root(job: Job, reply: Reply, next: Job, a: ActionView)
    requires
        job.is_export(),
        job.moves(reply, next, a),
    ensures
        written(a.effect) is Some ==> under(job.config_root@, written(a.effect)->0),
{
    let root = job.config_root@;
    match job.work {
        Work::GitExport(s) => {
            crate::components::git::lemma_export_inside_root(root, s, reply, next.work->GitExport_0, a);
        },
        Work::PowerShellExport(p, s) => {
            crate::components::powershell::lemma_export_inside_root(p, root, s, reply, next.work->PowerShellExport_1, a);
        },
        Work::VsCodeExport(s) => {
            crate::components::vscode::lemma_export_inside_root(root, s, reply, next.work->VsCodeExport_0, a);
        },
        Work::WinGetExport(s) => {
            crate::components::winget::lemma_export_inside_root(root, s, reply, next.work->WinGetExport_0, a);
        },
        Work::WslExport(w, s) => {
            crate::components::wsl::lemma_export_inside_root(w.distro@, root, s, reply, next.work->WslExport_1, a);
        },
        _ => {},
    }
}

} // verus!

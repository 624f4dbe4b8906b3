//! Steps of a command, and how a step's failure is reported.

use crate::components::job::{Job, WorkView};
use crate::error::{error_text, BootstrapError, ErrorView};
use crate::text::{concat3, owned};
use vstd::prelude::*;

verus! {

/// One step of a command.
pub enum Step {
    /// A section header.
    Section(String),
    /// A key-value line.
    KeyValue(String, String),
    Info(String),
    Success(String),
    Warning(String),
    /// Create a directory and its parents; a failure ends the command with the I/O error.
    CreateDir(String),
    /// Run a component job; a failure is reported with `failure_text(label, error)`
    /// and the command goes on.
    Run { label: String, job: Job },
    /// End the command with this error.
    Fail(BootstrapError),
}

/// A step as character sequences (a job as its root and its work).
pub enum StepView {
    Section(Seq<char>),
    KeyValue(Seq<char>, Seq<char>),
    Info(Seq<char>),
    Success(Seq<char>),
    Warning(Seq<char>),
    CreateDir(Seq<char>),
    Run(Seq<char>, Seq<char>, WorkView),
    Fail(ErrorView),
}

impl View for Step {
    type V = StepView;

    open spec fn view(&self) -> StepView {
        match self {
            Step::Section(t) => StepView::Section(t@),
            Step::KeyValue(k, v) => StepView::KeyValue(k@, v@),
            Step::Info(t) => StepView::Info(t@),
            Step::Success(t) => StepView::Success(t@),
            Step::Warning(t) => StepView::Warning(t@),
            Step::CreateDir(p) => StepView::CreateDir(p@),
            Step::Run { label, job } => StepView::Run(label@, job.config_root@, job.work@),
            Step::Fail(e) => StepView::Fail(e@),
        }
    }
}

/// The steps as character sequences.
pub open spec fn steps_view(steps: Seq<Step>) -> Seq<StepView> {
    steps.map_values(|s: Step| s@)
}

/// The report of a failed job.
pub open spec fn failure_message(label: Seq<char>, e: ErrorView) -> Seq<char> {
    label + " failed: "@ + error_text(e)
}

/// The report of a failed job: `<label> failed: <error>`.
pub fn failure_text(label: &str, error: &BootstrapError) -> (r: String)
    ensures
        r@ == failure_message(label@, error@),
{
    let m = error.message();
    concat3(label, " failed: ", m.as_str())
}

/// What the command does once a step was carried out.
pub enum Flow {
    /// Go on with the next step.
    Go,
    /// Report this failure, then go on with the next step.
    Report(String),
    /// End the command with this error.
    Stop(BootstrapError),
}

/// A flow as character sequences.
pub enum FlowView {
    Go,
    Report(Seq<char>),
    Stop(ErrorView),
}

impl View for Flow {
    type V = FlowView;

    open spec fn view(&self) -> FlowView {
        match self {
            Flow::Go => FlowView::Go,
            Flow::Report(t) => FlowView::Report(t@),
            Flow::Stop(e) => FlowView::Stop(e@),
        }
    }
}

/// What follows the job labelled `label`: a failed job is reported and the
/// command goes on.
pub fn after_job(label: &str, outcome: Result<(), BootstrapError>) -> (f: Flow)
    ensures
        f@ == match outcome {
            Ok(()) => FlowView::Go,
            Err(e) => FlowView::Report(failure_message(label@, e@)),
        },
{
    match outcome {
        Ok(()) => Flow::Go,
        Err(e) => Flow::Report(failure_text(label, &e)),
    }
}

/// What follows the creation of the config root: a failure ends the command
/// with its error.
pub fn after_create_dir(outcome: Result<(), BootstrapError>) -> (f: Flow)
    ensures
        f@ == match outcome {
            Ok(()) => FlowView::Go,
            Err(e) => FlowView::Stop(e@),
        },
{
    match outcome {
        Ok(()) => Flow::Go,
        Err(e) => Flow::Stop(e),
    }
}

/// The steps of one component when it is selected.
pub open spec fn if_selected(selected: bool, steps: Seq<StepView>) -> Seq<StepView> {
    if selected {
        steps
    } else {
        seq![]
    }
}

/// A component section: its header, then its job.
pub open spec fn component_steps(title: Seq<char>, label: Seq<char>, root: Seq<char>, work: WorkView) -> Seq<StepView> {
    seq![StepView::Section(title), StepView::Run(label, root, work)]
}

/// Appends a component section.
pub fn push_component(steps: &mut Vec<Step>, title: &str, label: &str, job: Job)
    ensures
        steps_view(final(steps)@) == steps_view(old(steps)@) + component_steps(title@, label@, job.config_root@, job.work@),
{
    let ghost before = steps_view(steps@);
    let ghost root = job.config_root@;
    let ghost work = job.work@;
    steps.push(Step::Section(owned(title)));
    steps.push(Step::Run { label: owned(label), job });
    assert(steps_view(final(steps)@) =~= before + component_steps(title@, label@, root, work));
}

/// Appends a step.
pub fn push_step(steps: &mut Vec<Step>, step: Step)
    ensures
        steps_view(final(steps)@) == steps_view(old(steps)@).push(step@),
{
    steps.push(step);
    assert(steps_view(final(steps)@) =~= steps_view(old(steps)@).push(step@));
}

/// The labels of the jobs among the steps, in order.
pub open spec fn runs(steps: Seq<StepView>) -> Seq<Seq<char>>
    decreases steps.len(),
{
    if steps.len() == 0 {
        seq![]
    } else {
        let before = runs(steps.drop_last());
        match steps.last() {
            StepView::Run(label, _, _) => before.push(label),
            _ => before,
        }
    }
}

/// Some step ends the command with an error.
pub open spec fn stops(steps: Seq<StepView>) -> bool {
    exists|i: int| 0 <= i < steps.len() && #[trigger] steps[i] is Fail
}

/// The jobs of two step lists run one list after the other.
pub proof fn lemma_runs_concat(a: Seq<StepView>, b: Seq<StepView>)
    ensures
        runs(a + b) == runs(a) + runs(b),
    decreases b.len(),
{
    if b.len() == 0 {
        assert(a + b =~= a);
        assert(runs(a) + runs(b) =~= runs(a));
    } else {
        assert((a + b).drop_last() =~= a + b.drop_last());
        assert((a + b).last() == b.last());
        lemma_runs_concat(a, b.drop_last());
        match b.last() {
            StepView::Run(label, _, _) => {
                assert(runs(a) + runs(b.drop_last()).push(label) =~= (runs(a) + runs(b.drop_last())).push(label));
            },
            _ => {},
        }
    }
}

/// A component section runs its job when selected, and nothing otherwise.
pub proof fn lemma_runs_selected(selected: bool, title: Seq<char>, label: Seq<char>, root: Seq<char>, work: WorkView)
    ensures
        runs(if_selected(selected, component_steps(title, label, root, work))) == if selected {
            seq![label]
        } else {
            Seq::<Seq<char>>::empty()
        },
        !stops(if_selected(selected, component_steps(title, label, root, work))),
{
    let s = component_steps(title, label, root, work);
    let head = seq![StepView::Section(title)];
    assert(s.drop_last() =~= head);
    assert(head.drop_last() =~= Seq::<StepView>::empty());
    assert(runs(head) == runs(Seq::<StepView>::empty()));
    assert(runs(s) == runs(head).push(label));
    assert(runs(s) =~= seq![label]);
    if !selected {
        assert(if_selected(selected, s) =~= Seq::<StepView>::empty());
    }
}

/// Steps that are all messages run no job.
pub proof fn lemma_runs_messages(steps: Seq<StepView>)
    requires
        forall|i: int| 0 <= i < steps.len() ==> !(#[trigger] steps[i] is Run),
    ensures
        runs(steps) == Seq::<Seq<char>>::empty(),
    decreases steps.len(),
{
    if steps.len() > 0 {
        assert(steps.last() == steps[steps.len() - 1]);
        lemma_runs_messages(steps.drop_last());
    }
}

/// The label, when its component is selected.
pub open spec fn picked(selected: bool, label: Seq<char>) -> Seq<Seq<char>> {
    if selected {
        seq![label]
    } else {
        seq![]
    }
}

/// Two step lists together end the command with an error exactly when one of them does.
pub proof fn lemma_stops_concat(a: Seq<StepView>, b: Seq<StepView>)
    ensures
        stops(a + b) == (stops(a) || stops(b)),
{
    if stops(a) {
        let i = choose|i: int| 0 <= i < a.len() && #[trigger] a[i] is Fail;
        assert((a + b)[i] == a[i]);
    }
    if stops(b) {
        let i = choose|i: int| 0 <= i < b.len() && #[trigger] b[i] is Fail;
        assert((a + b)[a.len() + i] == b[i]);
    }
    if stops(a + b) {
        let i = choose|i: int| 0 <= i < (a + b).len() && #[trigger] (a + b)[i] is Fail;
        if i < a.len() {
            assert(a[i] == (a + b)[i]);
        } else {
            assert(b[i - a.len()] == (a + b)[i]);
        }
    }
}

/// The error with which a step ends the command, when creating a directory
/// gives `dir_error` (`None` when it succeeds): a failed directory creation
/// ends it (`after_create_dir`), so does a `Fail` step; a job never does, its
/// failure is only reported (`after_job`).
pub open spec fn step_stop(step: StepView, dir_error: Option<ErrorView>) -> Option<ErrorView> {
    match step {
        StepView::CreateDir(_) => dir_error,
        StepView::Fail(e) => Some(e),
        _ => None,
    }
}

/// The error with which a command whose steps are `steps` ends: that of its
/// first step that ends it; `None` when the command ends normally.
pub open spec fn stop_of(steps: Seq<StepView>, dir_error: Option<ErrorView>) -> Option<ErrorView>
    decreases steps.len(),
{
    if steps.len() == 0 {
        None
    } else if step_stop(steps[0], dir_error) is Some {
        step_stop(steps[0], dir_error)
    } else {
        stop_of(steps.drop_first(), dir_error)
    }
}

/// Two step lists run one after the other end as the first does when it ends
/// the command, else as the second.
pub proof fn lemma_stop_concat(a: Seq<StepView>, b: Seq<StepView>, dir_error: Option<ErrorView>)
    ensures
        stop_of(a + b, dir_error) == if stop_of(a, dir_error) is Some {
            stop_of(a, dir_error)
        } else {
            stop_of(b, dir_error)
        },
    decreases a.len(),
{
    if a.len() == 0 {
        assert(a + b =~= b);
    } else {
        assert((a + b)[0] == a[0]);
        assert((a + b).drop_first() =~= a.drop_first() + b);
        lemma_stop_concat(a.drop_first(), b, dir_error);
    }
}

/// Steps that neither create a directory nor fail never end the command.
pub proof fn lemma_stop_free(steps: Seq<StepView>, dir_error: Option<ErrorView>)
    requires
        forall|i: int| 0 <= i < steps.len() ==> !(#[trigger] steps[i] is Fail) && !(steps[i] is CreateDir),
    ensures
        stop_of(steps, dir_error) is None,
    decreases steps.len(),
{
    if steps.len() > 0 {
        assert(steps[0] == steps[0]);
        assert forall|i: int| 0 <= i < steps.drop_first().len() implies !(#[trigger] steps.drop_first()[i] is Fail)
            && !(steps.drop_first()[i] is CreateDir) by {
            assert(steps.drop_first()[i] == steps[i + 1]);
        }
        lemma_stop_free(steps.drop_first(), dir_error);
    }
}

/// A component section never ends the command.
pub proof fn lemma_stop_selected(
    selected: bool,
    title: Seq<char>,
    label: Seq<char>,
    root: Seq<char>,
    work: WorkView,
    dir_error: Option<ErrorView>,
)
    ensures
        stop_of(if_selected(selected, component_steps(title, label, root, work)), dir_error) is None,
{
    lemma_stop_free(if_selected(selected, component_steps(title, label, root, work)), dir_error);
}

/// Every step satisfies `p`.
pub open spec fn every_step(steps: Seq<StepView>, p: spec_fn(StepView) -> bool) -> bool {
    forall|i: int| 0 <= i < steps.len() ==> p(#[trigger] steps[i])
}

/// Two step lists whose steps all satisfy `p` give such a list.
pub proof fn lemma_every_concat(a: Seq<StepView>, b: Seq<StepView>, p: spec_fn(StepView) -> bool)
    requires
        every_step(a, p),
        every_step(b, p),
    ensures
        every_step(a + b, p),
{
    assert forall|i: int| 0 <= i < (a + b).len() implies p(#[trigger] (a + b)[i]) by {
        if i < a.len() {
            assert((a + b)[i] == a[i]);
        } else {
            assert((a + b)[i] == b[i - a.len()]);
        }
    }
}

/// A component section satisfies `p` when its header and its job do.
pub proof fn lemma_every_selected(
    selected: bool,
    title: Seq<char>,
    label: Seq<char>,
    root: Seq<char>,
    work: WorkView,
    p: spec_fn(StepView) -> bool,
)
    requires
        p(StepView::Section(title)),
        p(StepView::Run(label, root, work)),
    ensures
        every_step(if_selected(selected, component_steps(title, label, root, work)), p),
{
}

} // verus!

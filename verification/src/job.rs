//! One update job as a state machine. A job flows strictly
//! fetch -> unpack -> build -> publish, where the unpack and build stages
//! run only when a build expression is configured; any stage failure ends
//! the job at once, with cleanup as the only remaining action. The
//! unverified shell owns the loop: it performs each action this module
//! hands out and reports the outcome back as the next event.

use vstd::prelude::*;
use vstd::string::*;
use crate::config::{nixexprs_url_spec, get_nixexprs_url, Config};
use crate::errors::{AppError, ExitStatus};

verus! {

/// The job-scoped paths, all under the job's own temporary directory.
pub struct JobPaths {
    /// The temporary directory owned exclusively by this job.
    pub tmp_dir: String,
    /// Where the downloaded archive is written.
    pub archive_path: String,
    /// Where the archive is unpacked, when a build expression is configured.
    pub unpack_dir: String,
}

impl JobPaths {
    /// The archive and unpack paths sit directly under the temporary
    /// directory, with their fixed names.
    pub open spec fn wf(self) -> bool {
        &&& self.archive_path@ == self.tmp_dir@ + "/nixexprs.tar.xz"@
        &&& self.unpack_dir@ == self.tmp_dir@ + "/unpack"@
    }

    /// Lays out the job-scoped paths under the given temporary directory.
    pub fn new(tmp_dir: String) -> (p: JobPaths)
        ensures
            p.wf(),
            p.tmp_dir@ == tmp_dir@,
    {
        let mut archive_path = tmp_dir.clone();
        archive_path.append("/nixexprs.tar.xz");
        let mut unpack_dir = tmp_dir.clone();
        unpack_dir.append("/unpack");
        JobPaths { tmp_dir, archive_path, unpack_dir }
    }
}

/// Where a job stands: which stage it is waiting on, or its terminal result.
pub enum Phase {
    /// Created, nothing run yet.
    Ready,
    /// Waiting for the downloader.
    Fetching,
    /// Waiting for the extractor; carries the configured build expression.
    Unpacking { expression: String },
    /// Waiting for the build tool; carries the unpack root and the expression.
    Building { root: String, expression: String },
    /// Waiting for the atomic replace of the persistent artifact.
    Publishing,
    /// The job is over; only cleanup remains.
    Finished { result: Result<(), AppError> },
}

/// What the shell reports back after performing an action.
#[allow(inconsistent_fields)]
pub enum Event {
    /// The job was started.
    Start,
    /// Outcome of the fetch stage.
    Fetched { result: Result<(), AppError> },
    /// Outcome of the unpack stage: the single top-level entry, or an error.
    Unpacked { result: Result<String, AppError> },
    /// Outcome of the build stage.
    Built { result: Result<(), AppError> },
    /// Outcome of the publish stage.
    Published { result: Result<(), AppError> },
}

/// What the shell is asked to do next.
pub enum Action {
    /// Download the archive at `url` to the file `dest`.
    Fetch { url: String, dest: String },
    /// Create `dest_dir`, extract `archive` into it, and report its single
    /// top-level entry.
    Unpack { archive: String, dest_dir: String },
    /// Pre-build `expression` with `root` as the override source root.
    Build { root: String, expression: String },
    /// Atomically replace the file `dest` with the file `src`.
    Publish { src: String, dest: String },
    /// Remove the job's temporary directory; the job is over.
    Cleanup,
}

/// Whether an event reports on the stage the job is waiting on.
pub open spec fn event_fits(phase: Phase, event: Event) -> bool {
    match (phase, event) {
        (Phase::Ready, Event::Start) => true,
        (Phase::Fetching, Event::Fetched { .. }) => true,
        (Phase::Unpacking { .. }, Event::Unpacked { .. }) => true,
        (Phase::Building { .. }, Event::Built { .. }) => true,
        (Phase::Publishing, Event::Published { .. }) => true,
        _ => false,
    }
}

/// Runtime check of `event_fits`, for the shell that drives the job.
pub fn event_matches_phase(phase: &Phase, event: &Event) -> (r: bool)
    ensures
        r == event_fits(*phase, *event),
{
    match (phase, event) {
        (Phase::Ready, Event::Start) => true,
        (Phase::Fetching, Event::Fetched { .. }) => true,
        (Phase::Unpacking { .. }, Event::Unpacked { .. }) => true,
        (Phase::Building { .. }, Event::Built { .. }) => true,
        (Phase::Publishing, Event::Published { .. }) => true,
        _ => false,
    }
}

/// A failing stage ends the job: the phase becomes terminal with that
/// error, and the only action left is cleanup.
pub open spec fn failed_step(next: Phase, action: Action, e: AppError) -> bool {
    &&& next matches Phase::Finished { result } && result matches Err(e2) && e2 == e
    &&& action is Cleanup
}

/// The job moves on to publishing the downloaded archive onto the
/// persistent artifact path.
pub open spec fn publishes_archive(cfg: Config, paths: JobPaths, next: Phase, action: Action) -> bool {
    &&& next is Publishing
    &&& action matches Action::Publish { src, dest } && src@ == paths.archive_path@ && dest@
        == cfg.persistent_artifact_path@
}

/// The transition relation of one job: for each phase and the event that
/// reports on it, the next phase and the action handed to the shell.
pub open spec fn step_rel(
    cfg: Config,
    paths: JobPaths,
    phase: Phase,
    event: Event,
    next: Phase,
    action: Action,
) -> bool {
    match (phase, event) {
        (Phase::Ready, Event::Start) => {
            &&& next is Fetching
            &&& action matches Action::Fetch { url, dest } && url@ == nixexprs_url_spec(
                cfg.upstream_channel_url@,
            ) && dest@ == paths.archive_path@
        },
        (Phase::Fetching, Event::Fetched { result }) => match result {
            Ok(_) => match cfg.build_expression {
                Some(expr) => {
                    &&& next matches Phase::Unpacking { expression } && expression@ == expr@
                    &&& action matches Action::Unpack { archive, dest_dir } && archive@
                        == paths.archive_path@ && dest_dir@ == paths.unpack_dir@
                },
                None => publishes_archive(cfg, paths, next, action),
            },
            Err(e) => failed_step(next, action, e),
        },
        (Phase::Unpacking { expression: expr0 }, Event::Unpacked { result }) => match result {
            Ok(root0) => {
                &&& next matches Phase::Building { root: r1, expression: e1 } && r1@ == root0@
                    && e1@ == expr0@
                &&& action matches Action::Build { root: r2, expression: e2 } && r2@ == root0@
                    && e2@ == expr0@
            },
            Err(e) => failed_step(next, action, e),
        },
        (Phase::Building { .. }, Event::Built { result }) => match result {
            Ok(_) => publishes_archive(cfg, paths, next, action),
            Err(e) => failed_step(next, action, e),
        },
        (Phase::Publishing, Event::Published { result }) => match result {
            Ok(_) => {
                &&& next matches Phase::Finished { result: r1 } && r1 is Ok
                &&& action is Cleanup
            },
            Err(e) => failed_step(next, action, e),
        },
        _ => false,
    }
}

/// Takes one step of the job: consumes the event for the stage the job is
/// waiting on and decides the next phase and the next action.
pub fn step(cfg: &Config, paths: &JobPaths, phase: Phase, event: Event) -> (r: (Phase, Action))
    requires
        event_fits(phase, event),
    ensures
        step_rel(*cfg, *paths, phase, event, r.0, r.1),
{
    match (phase, event) {
        (Phase::Ready, Event::Start) => {
            let url = get_nixexprs_url(cfg.upstream_channel_url.as_str());
            let dest = paths.archive_path.clone();
            (Phase::Fetching, Action::Fetch { url, dest })
        },
        (Phase::Fetching, Event::Fetched { result }) => match result {
            Ok(_) => match &cfg.build_expression {
                Some(expr) => (
                    Phase::Unpacking { expression: expr.clone() },
                    Action::Unpack {
                        archive: paths.archive_path.clone(),
                        dest_dir: paths.unpack_dir.clone(),
                    },
                ),
                None => (
                    Phase::Publishing,
                    Action::Publish {
                        src: paths.archive_path.clone(),
                        dest: cfg.persistent_artifact_path.clone(),
                    },
                ),
            },
            Err(e) => (Phase::Finished { result: Err(e) }, Action::Cleanup),
        },
        (Phase::Unpacking { expression }, Event::Unpacked { result }) => match result {
            Ok(root) => {
                let action_root = root.clone();
                let action_expression = expression.clone();
                (
                    Phase::Building { root, expression },
                    Action::Build { root: action_root, expression: action_expression },
                )
            },
            Err(e) => (Phase::Finished { result: Err(e) }, Action::Cleanup),
        },
        (Phase::Building { root: _, expression: _ }, Event::Built { result }) => match result {
            Ok(_) => (
                Phase::Publishing,
                Action::Publish {
                    src: paths.archive_path.clone(),
                    dest: cfg.persistent_artifact_path.clone(),
                },
            ),
            Err(e) => (Phase::Finished { result: Err(e) }, Action::Cleanup),
        },
        (Phase::Publishing, Event::Published { result }) => match result {
            Ok(_) => (Phase::Finished { result: Ok(()) }, Action::Cleanup),
            Err(e) => (Phase::Finished { result: Err(e) }, Action::Cleanup),
        },
        _ => vstd::pervasive::unreached(),
    }
}

/// Enforces the single-root validation after extraction: given the
/// immediate children of the unpack directory, zero entries and two or
/// more entries are malformed archives; exactly one entry is its root.
pub fn validate_unpack_listing(dest_dir: &str, entries: &Vec<String>) -> (r: Result<
    String,
    AppError,
>)
    ensures
        entries@.len() == 0 ==> (r matches Err(e) && e matches AppError::TooFewEntries { dir }
            && dir@ == dest_dir@),
        entries@.len() == 1 ==> (r matches Ok(root) && root@ == entries@[0]@),
        entries@.len() >= 2 ==> (r matches Err(e) && e matches AppError::TooManyEntries { dir }
            && dir@ == dest_dir@),
{
    if entries.len() == 0 {
        Err(AppError::TooFewEntries { dir: dest_dir.to_owned() })
    } else if entries.len() == 1 {
        Ok(entries[0].clone())
    } else {
        Err(AppError::TooManyEntries { dir: dest_dir.to_owned() })
    }
}

/// Maps the downloader's exit status to the fetch stage's outcome.
pub fn download_result(url: &str, dest: &str, status: ExitStatus) -> (r: Result<(), AppError>)
    ensures
        status.spec_success() ==> r is Ok,
        !status.spec_success() ==> (r matches Err(e) && e matches AppError::DownloadStatus {
            url: u,
            dest: d,
            status: st,
        } && u@ == url@ && d@ == dest@ && st == status),
{
    if status.success() {
        Ok(())
    } else {
        Err(AppError::DownloadStatus { url: url.to_owned(), dest: dest.to_owned(), status })
    }
}

/// Maps the extractor's exit status to the unpack stage's outcome, ahead
/// of the single-root validation.
pub fn extract_result(file: &str, dir: &str, status: ExitStatus) -> (r: Result<(), AppError>)
    ensures
        status.spec_success() ==> r is Ok,
        !status.spec_success() ==> (r matches Err(e) && e matches AppError::ExtractStatus {
            file: f,
            dir: d,
            status: st,
        } && f@ == file@ && d@ == dir@ && st == status),
{
    if status.success() {
        Ok(())
    } else {
        Err(AppError::ExtractStatus { file: file.to_owned(), dir: dir.to_owned(), status })
    }
}

/// Maps the build tool's exit status to the build stage's outcome.
pub fn build_result(status: ExitStatus) -> (r: Result<(), AppError>)
    ensures
        status.spec_success() ==> r is Ok,
        !status.spec_success() ==> (r matches Err(e) && e matches AppError::BuildStatus {
            status: st,
        } && st == status),
{
    if status.success() {
        Ok(())
    } else {
        Err(AppError::BuildStatus { status })
    }
}

/// Whether an event reports a failed stage.
pub open spec fn event_failed(event: Event) -> bool {
    ||| event matches Event::Fetched { result } && result is Err
    ||| event matches Event::Unpacked { result } && result is Err
    ||| event matches Event::Built { result } && result is Err
    ||| event matches Event::Published { result } && result is Err
}

/// The unpack and build phases carry the configured build expression, so
/// they exist only when one is configured.
pub open spec fn phase_wf(cfg: Config, phase: Phase) -> bool {
    match phase {
        Phase::Unpacking { expression } => cfg.build_expression matches Some(e) && e@
            == expression@,
        Phase::Building { root: _, expression } => cfg.build_expression matches Some(e) && e@
            == expression@,
        _ => true,
    }
}

/// Every transition keeps the phase consistent with the configuration.
pub proof fn lemma_step_preserves_phase_wf(
    cfg: Config,
    paths: JobPaths,
    phase: Phase,
    event: Event,
    next: Phase,
    action: Action,
)
    requires
        step_rel(cfg, paths, phase, event, next, action),
        phase_wf(cfg, phase),
    ensures
        phase_wf(cfg, next),
{
}

/// Failure isolation: when any stage fails, the job ends at once with
/// that failure, and the only action that follows is cleanup — in
/// particular, no publish is issued, so the persistent artifact stays as
/// it was before the job started.
pub proof fn lemma_failure_isolation(
    cfg: Config,
    paths: JobPaths,
    phase: Phase,
    event: Event,
    next: Phase,
    action: Action,
)
    requires
        step_rel(cfg, paths, phase, event, next, action),
        event_failed(event),
    ensures
        action is Cleanup,
        next matches Phase::Finished { result } && result is Err,
{
}

/// A whole run of one job: a sequence of phases, driven step by step by
/// a sequence of events, issuing a sequence of actions.
pub open spec fn trace_ok(
    cfg: Config,
    paths: JobPaths,
    phases: Seq<Phase>,
    events: Seq<Event>,
    actions: Seq<Action>,
) -> bool {
    &&& phases.len() == events.len() + 1
    &&& actions.len() == events.len()
    &&& forall|i: int|
        0 <= i < events.len() ==> step_rel(
            cfg,
            paths,
            phases[i],
            #[trigger] events[i],
            phases[i + 1],
            actions[i],
        )
}

/// A phase at which the job has not yet asked for a publish.
pub open spec fn pre_publish(phase: Phase) -> bool {
    match phase {
        Phase::Ready => true,
        Phase::Fetching => true,
        Phase::Unpacking { .. } => true,
        Phase::Building { .. } => true,
        _ => false,
    }
}

/// A step into a phase that has not yet asked for a publish comes from
/// such a phase, and itself issues no publish.
proof fn lemma_step_back(
    cfg: Config,
    paths: JobPaths,
    phase: Phase,
    event: Event,
    next: Phase,
    action: Action,
)
    requires
        step_rel(cfg, paths, phase, event, next, action),
        pre_publish(next),
    ensures
        pre_publish(phase),
        !(action is Publish),
{
}

proof fn lemma_no_publish_up_to(
    cfg: Config,
    paths: JobPaths,
    phases: Seq<Phase>,
    events: Seq<Event>,
    actions: Seq<Action>,
    k: int,
    i: int,
)
    requires
        trace_ok(cfg, paths, phases, events, actions),
        0 <= k <= i < phases.len(),
        pre_publish(phases[i]),
    ensures
        pre_publish(phases[k]),
        forall|j: int| k <= j < i ==> !((#[trigger] actions[j]) is Publish),
    decreases i - k,
{
    if k < i {
        assert(step_rel(cfg, paths, phases[i - 1], events[i - 1], phases[i], actions[i - 1]));
        lemma_step_back(cfg, paths, phases[i - 1], events[i - 1], phases[i], actions[i - 1]);
        lemma_no_publish_up_to(cfg, paths, phases, events, actions, k, i - 1);
    }
}

/// Failure isolation over a whole run: when the fetch, unpack or build
/// stage fails — a failed download, a malformed archive with too few or
/// too many top-level entries, or a failed pre-build — the failing step
/// is the run's last, and no step of the run ever issued a publish, so
/// the persistent artifact is exactly as it was before the job started.
pub proof fn lemma_failed_stage_ends_run(
    cfg: Config,
    paths: JobPaths,
    phases: Seq<Phase>,
    events: Seq<Event>,
    actions: Seq<Action>,
    i: int,
)
    requires
        trace_ok(cfg, paths, phases, events, actions),
        0 <= i < events.len(),
        event_failed(events[i]),
        !(events[i] matches Event::Published { .. }),
    ensures
        i == events.len() - 1,
        phases[i + 1] matches Phase::Finished { result } && result is Err,
        forall|j: int| 0 <= j < actions.len() ==> !((#[trigger] actions[j]) is Publish),
{
    assert(step_rel(cfg, paths, phases[i], events[i], phases[i + 1], actions[i]));
    lemma_failure_isolation(cfg, paths, phases[i], events[i], phases[i + 1], actions[i]);
    assert(pre_publish(phases[i]));
    lemma_no_publish_up_to(cfg, paths, phases, events, actions, 0, i);
    if i + 1 < events.len() {
        assert(step_rel(cfg, paths, phases[i + 1], events[i + 1], phases[i + 2], actions[i + 1]));
        assert(false);
    }
    assert forall|j: int| 0 <= j < actions.len() implies !((#[trigger] actions[j]) is Publish) by {
        if j < i {
            assert(!(actions[j] is Publish));
        } else {
            assert(j == i);
        }
    }
}

/// Conditional build: with no build expression configured, a job never
/// asks for an unpack or a build (so no unpack directory is ever
/// created), and any publish it asks for installs the downloaded archive
/// onto the persistent artifact path.
pub proof fn lemma_conditional_build(
    cfg: Config,
    paths: JobPaths,
    phase: Phase,
    event: Event,
    next: Phase,
    action: Action,
)
    requires
        step_rel(cfg, paths, phase, event, next, action),
        phase_wf(cfg, phase),
        !cfg.build_enabled(),
    ensures
        !(action is Unpack),
        !(action is Build),
        !(next matches Phase::Unpacking { .. }),
        !(next matches Phase::Building { .. }),
        action matches Action::Publish { src, dest } ==> (src@ == paths.archive_path@ && dest@
            == cfg.persistent_artifact_path@),
{
}

proof fn lemma_phase_wf_along_run(
    cfg: Config,
    paths: JobPaths,
    phases: Seq<Phase>,
    events: Seq<Event>,
    actions: Seq<Action>,
    i: int,
)
    requires
        trace_ok(cfg, paths, phases, events, actions),
        phase_wf(cfg, phases[0]),
        0 <= i < phases.len(),
    ensures
        phase_wf(cfg, phases[i]),
    decreases i,
{
    if i > 0 {
        lemma_phase_wf_along_run(cfg, paths, phases, events, actions, i - 1);
        assert(step_rel(cfg, paths, phases[i - 1], events[i - 1], phases[i], actions[i - 1]));
        let prev = actions[i - 1];
        lemma_step_preserves_phase_wf(cfg, paths, phases[i - 1], events[i - 1], phases[i], prev);
    }
}

/// The actions a run without a build expression may issue: no unpack and
/// no build, and any publish installs the downloaded archive onto the
/// persistent artifact path.
pub open spec fn build_free_action(cfg: Config, paths: JobPaths, action: Action) -> bool {
    &&& !(action is Unpack)
    &&& !(action is Build)
    &&& action matches Action::Publish { src, dest } ==> (src@ == paths.archive_path@ && dest@
        == cfg.persistent_artifact_path@)
}

/// Conditional build over a whole run: with no build expression
/// configured, a job that starts at the beginning never asks for an
/// unpack or a build at any step, and whatever it publishes is the
/// downloaded archive.
pub proof fn lemma_conditional_build_run(
    cfg: Config,
    paths: JobPaths,
    phases: Seq<Phase>,
    events: Seq<Event>,
    actions: Seq<Action>,
)
    requires
        trace_ok(cfg, paths, phases, events, actions),
        phases[0] is Ready,
        !cfg.build_enabled(),
    ensures
        forall|j: int| 0 <= j < actions.len() ==> build_free_action(cfg, paths, #[trigger] actions[j]),
{
    assert forall|j: int|
        0 <= j < actions.len() implies build_free_action(cfg, paths, #[trigger] actions[j]) by {
        lemma_phase_wf_along_run(cfg, paths, phases, events, actions, j);
        assert(step_rel(cfg, paths, phases[j], events[j], phases[j + 1], actions[j]));
        lemma_conditional_build(cfg, paths, phases[j], events[j], phases[j + 1], actions[j]);
    }
}

} // verus!

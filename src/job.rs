use vstd::prelude::*;
use crate::config::GiteaSettings;
use crate::orchestrator::{
    classifiable, classify_wait, random_u32, container_env_of, container_name_of, container_spec, failure_of,
    source_url_of, status_of, success_of, BuildFailure, ContainerSpec, WaitOutcome, BUILD_USER,
    CPU_PERIOD, CPU_QUOTA,
};
use crate::text::copy_strings;
use crate::types::{
    BuildResultTransmissionFormat, BuildTaskTransmissionFormat, BuildTaskView, Timestamp,
    Timestamps,
};

verus! {

/// Where a build task stands.
#[derive(Debug, Clone, Copy, PartialEq, Eq)]
pub enum JobPhase {
    /// Refreshing the build image; done whether or not it succeeds.
    PullingImage,
    Creating,
    Starting,
    /// Running: its log is streamed while the wait for its exit blocks.
    Waiting,
    /// Reading the full log of the exited container.
    CollectingLogs,
    Removing,
    /// The result is being published.
    Publishing,
    /// The result was published and the task acknowledged.
    Acked,
    /// The task was negatively acknowledged, for the broker to redeliver.
    Nacked,
    /// Publishing the result failed: the process cannot go on.
    Halted,
}

/// The kinds of [`JobEvent`].
#[derive(Debug, Clone, Copy, PartialEq, Eq)]
pub enum EventKind {
    ImagePulled,
    Created,
    CreateFailed,
    Started,
    StartFailed,
    WaitEnded,
    LogsCollected,
    Removed,
    RemoveFailed,
    Published,
    PublishFailed,
}

/// The kinds of [`JobAction`].
#[derive(Debug, Clone, Copy, PartialEq, Eq)]
pub enum ActionKind {
    PullImage,
    CreateContainer,
    StartContainer,
    WatchContainer,
    FetchLogs,
    RemoveContainer,
    PublishResult,
    Ack,
    Nack,
    Halt,
    Nothing,
}

/// How a task moves on: from a phase, on an event, to the next phase and the
/// action to perform. `classified` says whether the wait ended in an
/// outcome that gives a build result. Events that a phase does not expect
/// change nothing.
pub open spec fn next_phase(ph: JobPhase, ev: EventKind, classified: bool) -> (JobPhase, ActionKind) {
    match (ph, ev) {
        (JobPhase::PullingImage, EventKind::ImagePulled) => (
            JobPhase::Creating,
            ActionKind::CreateContainer,
        ),
        (JobPhase::Creating, EventKind::Created) => (JobPhase::Starting, ActionKind::StartContainer),
        (JobPhase::Creating, EventKind::CreateFailed) => (JobPhase::Nacked, ActionKind::Nack),
        (JobPhase::Starting, EventKind::Started) => (JobPhase::Waiting, ActionKind::WatchContainer),
        (JobPhase::Starting, EventKind::StartFailed) => (
            JobPhase::Removing,
            ActionKind::RemoveContainer,
        ),
        (JobPhase::Waiting, EventKind::WaitEnded) => (JobPhase::CollectingLogs, ActionKind::FetchLogs),
        (JobPhase::CollectingLogs, EventKind::LogsCollected) => (
            JobPhase::Removing,
            ActionKind::RemoveContainer,
        ),
        (JobPhase::Removing, EventKind::Removed) => if classified {
            (JobPhase::Publishing, ActionKind::PublishResult)
        } else {
            (JobPhase::Nacked, ActionKind::Nack)
        },
        (JobPhase::Removing, EventKind::RemoveFailed) => (JobPhase::Nacked, ActionKind::Nack),
        (JobPhase::Publishing, EventKind::Published) => (JobPhase::Acked, ActionKind::Ack),
        (JobPhase::Publishing, EventKind::PublishFailed) => (JobPhase::Halted, ActionKind::Halt),
        _ => (ph, ActionKind::Nothing),
    }
}

/// What the container runtime and the broker answered to the last action.
#[derive(Debug)]
pub enum JobEvent {
    /// The image refresh ended; `ok` says whether it succeeded.
    ImagePulled { ok: bool },
    Created { container_id: String },
    CreateFailed,
    Started,
    StartFailed,
    WaitEnded { outcome: WaitOutcome },
    /// The full log of the container, one line per output chunk.
    LogsCollected { lines: Vec<String> },
    Removed,
    RemoveFailed,
    Published,
    PublishFailed,
}

impl JobEvent {
    pub open spec fn kind(&self) -> EventKind {
        match self {
            JobEvent::ImagePulled { .. } => EventKind::ImagePulled,
            JobEvent::Created { .. } => EventKind::Created,
            JobEvent::CreateFailed => EventKind::CreateFailed,
            JobEvent::Started => EventKind::Started,
            JobEvent::StartFailed => EventKind::StartFailed,
            JobEvent::WaitEnded { .. } => EventKind::WaitEnded,
            JobEvent::LogsCollected { .. } => EventKind::LogsCollected,
            JobEvent::Removed => EventKind::Removed,
            JobEvent::RemoveFailed => EventKind::RemoveFailed,
            JobEvent::Published => EventKind::Published,
            JobEvent::PublishFailed => EventKind::PublishFailed,
        }
    }
}

/// What to do next for a task.
#[derive(Debug)]
pub enum JobAction {
    /// Refresh the build image.
    PullImage { image: String },
    CreateContainer { spec: ContainerSpec },
    StartContainer { container_id: String },
    /// Stream the container's log in the background and block on its exit.
    WatchContainer { container_id: String },
    /// Read the container's whole log.
    FetchLogs { container_id: String },
    RemoveContainer { container_id: String },
    /// Publish the result to the build-results queue.
    PublishResult { result: BuildResultTransmissionFormat },
    /// Acknowledge the task message.
    Ack,
    /// Negatively acknowledge the task message, for redelivery.
    Nack { failure: BuildFailure },
    /// End the process: the result could not be published.
    Halt,
    /// The event was not expected: nothing to do.
    Nothing,
}

impl JobAction {
    pub open spec fn kind(&self) -> ActionKind {
        match self {
            JobAction::PullImage { .. } => ActionKind::PullImage,
            JobAction::CreateContainer { .. } => ActionKind::CreateContainer,
            JobAction::StartContainer { .. } => ActionKind::StartContainer,
            JobAction::WatchContainer { .. } => ActionKind::WatchContainer,
            JobAction::FetchLogs { .. } => ActionKind::FetchLogs,
            JobAction::RemoveContainer { .. } => ActionKind::RemoveContainer,
            JobAction::PublishResult { .. } => ActionKind::PublishResult,
            JobAction::Ack => ActionKind::Ack,
            JobAction::Nack { .. } => ActionKind::Nack,
            JobAction::Halt => ActionKind::Halt,
            JobAction::Nothing => ActionKind::Nothing,
        }
    }
}

/// The state of a task being built.
pub struct BuildJobView {
    pub phase: JobPhase,
    pub task: BuildTaskView,
    pub image: Seq<char>,
    pub gitea: GiteaSettings,
    pub container_id: Seq<char>,
    pub start: Timestamp,
    pub outcome: Option<WaitOutcome>,
    pub lines: Seq<String>,
}

/// Whether the wait has ended in an outcome that gives a build result.
pub open spec fn is_classified(j: BuildJobView) -> bool {
    j.outcome matches Some(o) && classifiable(o)
}

/// One build task handled by an orchestrator, from receipt to its
/// acknowledgement.
pub struct BuildJob {
    phase: JobPhase,
    task: BuildTaskTransmissionFormat,
    image: String,
    gitea: GiteaSettings,
    container_id: String,
    start: Timestamp,
    outcome: Option<WaitOutcome>,
    lines: Vec<String>,
}

impl View for BuildJob {
    type V = BuildJobView;

    closed spec fn view(&self) -> BuildJobView {
        BuildJobView {
            phase: self.phase,
            task: self.task@,
            image: self.image@,
            gitea: self.gitea,
            container_id: self.container_id@,
            start: self.start,
            outcome: self.outcome,
            lines: self.lines@,
        }
    }
}

/// Relies on `chrono::Utc::now`: the current time, as seconds since the
/// Unix epoch and nanoseconds within the second.
#[verifier::external_body]
fn now() -> (r: Timestamp) {
    let t = chrono::Utc::now();
    Timestamp { secs: t.timestamp(), nanos: t.timestamp_subsec_nanos() }
}

impl BuildJob {
    /// Receives a task to be built with `image`, pushing what it builds as
    /// `gitea` says. The first action refreshes the image.
    pub fn new(task: BuildTaskTransmissionFormat, image: String, gitea: GiteaSettings) -> (r: (
        BuildJob,
        JobAction,
    ))
        ensures
            r.0@.phase == JobPhase::PullingImage,
            r.0@.task == task@,
            r.0@.image == image@,
            r.0@.gitea == gitea,
            r.0@.outcome is None,
            r.1 matches JobAction::PullImage { image: i } && i@ == image@,
    {
        let pull = JobAction::PullImage { image: image.clone() };
        let job = BuildJob {
            phase: JobPhase::PullingImage,
            task,
            image,
            gitea,
            container_id: String::new(),
            start: Timestamp { secs: 0, nanos: 0 },
            outcome: None,
            lines: Vec::new(),
        };
        (job, pull)
    }

    /// The phase the task is in.
    pub fn phase(&self) -> (r: JobPhase)
        ensures
            r == self@.phase,
    {
        self.phase
    }

    /// The task being built.
    pub fn task(&self) -> (r: &BuildTaskTransmissionFormat)
        ensures
            r@ == self@.task,
    {
        &self.task
    }

    /// Takes in the answer to the last action and says what to do next, as
    /// [`next_phase`] says. The container is created from the task as
    /// [`container_spec`] builds it, under a random suffix; the result
    /// carries the classified outcome, the task, the collected log and the
    /// time from the image refresh to the removal of the container.
    pub fn handle(&mut self, event: JobEvent) -> (a: JobAction)
        ensures
            (final(self)@.phase, a.kind()) == next_phase(
                old(self)@.phase,
                event.kind(),
                is_classified(old(self)@),
            ),
            final(self)@.task == old(self)@.task,
            final(self)@.image == old(self)@.image,
            final(self)@.gitea == old(self)@.gitea,
            old(self)@.phase == JobPhase::PullingImage && event is ImagePulled ==> (a matches JobAction::CreateContainer { spec } && {
                &&& exists|suffix: u32| spec.name@ == container_name_of(old(self)@.task.name@, suffix)
                &&& spec.image@ == old(self)@.image
                &&& spec.user@ == BUILD_USER@
                &&& spec.env@.map_values(|s: String| s@) == container_env_of(
                    old(self)@.task,
                    source_url_of(old(self)@.task),
                    old(self)@.gitea,
                )
                &&& spec.cpu_period == CPU_PERIOD
                &&& spec.cpu_quota == CPU_QUOTA
                &&& !spec.auto_remove
            }),
            old(self)@.phase == JobPhase::Creating ==> (event matches JobEvent::Created { container_id }
                ==> final(self)@.container_id == container_id@),
            old(self)@.phase == JobPhase::Waiting ==> (event matches JobEvent::WaitEnded { outcome }
                ==> final(self)@.outcome == Some(outcome)),
            old(self)@.phase == JobPhase::CollectingLogs ==> (event matches JobEvent::LogsCollected { lines }
                ==> final(self)@.lines == lines@),
            a matches JobAction::StartContainer { container_id } ==> container_id@ == final(self)@.container_id,
            a matches JobAction::WatchContainer { container_id } ==> container_id@ == final(self)@.container_id,
            a matches JobAction::FetchLogs { container_id } ==> container_id@ == final(self)@.container_id,
            a matches JobAction::RemoveContainer { container_id } ==> container_id@ == final(self)@.container_id,
            a matches JobAction::PublishResult { result } ==> (old(self)@.outcome matches Some(o) && {
                &&& result.status_code == status_of(o)
                &&& result.success == success_of(o)
                &&& result.task@ == old(self)@.task
                &&& result.log_lines@ == old(self)@.lines
                &&& result.timestamps.start == old(self)@.start
            }),
            a matches JobAction::Nack { failure } ==> {
                &&& old(self)@.phase == JobPhase::Creating ==> failure == BuildFailure::CreateFailed
                &&& event is RemoveFailed ==> failure == BuildFailure::RemoveFailed
                &&& event is Removed ==> (old(self)@.outcome matches Some(o) ==> failure == failure_of(o))
                &&& event is Removed ==> (old(self)@.outcome is None ==> failure == BuildFailure::StartFailed)
            },
    {
        match (self.phase, event) {
            (JobPhase::PullingImage, JobEvent::ImagePulled { .. }) => {
                self.start = now();
                let suffix = random_u32();
                let spec = container_spec(&self.task, &self.image, &self.gitea, suffix);
                self.phase = JobPhase::Creating;
                JobAction::CreateContainer { spec }
            },
            (JobPhase::Creating, JobEvent::Created { container_id }) => {
                self.container_id = container_id;
                self.phase = JobPhase::Starting;
                JobAction::StartContainer { container_id: self.container_id.clone() }
            },
            (JobPhase::Creating, JobEvent::CreateFailed) => {
                self.phase = JobPhase::Nacked;
                JobAction::Nack { failure: BuildFailure::CreateFailed }
            },
            (JobPhase::Starting, JobEvent::Started) => {
                self.phase = JobPhase::Waiting;
                JobAction::WatchContainer { container_id: self.container_id.clone() }
            },
            (JobPhase::Starting, JobEvent::StartFailed) => {
                self.phase = JobPhase::Removing;
                JobAction::RemoveContainer { container_id: self.container_id.clone() }
            },
            (JobPhase::Waiting, JobEvent::WaitEnded { outcome }) => {
                self.outcome = Some(outcome);
                self.phase = JobPhase::CollectingLogs;
                JobAction::FetchLogs { container_id: self.container_id.clone() }
            },
            (JobPhase::CollectingLogs, JobEvent::LogsCollected { lines }) => {
                self.lines = lines;
                self.phase = JobPhase::Removing;
                JobAction::RemoveContainer { container_id: self.container_id.clone() }
            },
            (JobPhase::Removing, JobEvent::Removed) => {
                match self.outcome {
                    None => {
                        self.phase = JobPhase::Nacked;
                        JobAction::Nack { failure: BuildFailure::StartFailed }
                    },
                    Some(outcome) => {
                        let end = now();
                        let timestamps = Timestamps { start: self.start, end };
                        match classify_wait(
                            outcome,
                            self.task.duplicate(),
                            copy_strings(&self.lines),
                            timestamps,
                        ) {
                            Ok(result) => {
                                self.phase = JobPhase::Publishing;
                                JobAction::PublishResult { result }
                            },
                            Err(failure) => {
                                self.phase = JobPhase::Nacked;
                                JobAction::Nack { failure }
                            },
                        }
                    },
                }
            },
            (JobPhase::Removing, JobEvent::RemoveFailed) => {
                self.phase = JobPhase::Nacked;
                JobAction::Nack { failure: BuildFailure::RemoveFailed }
            },
            (JobPhase::Publishing, JobEvent::Published) => {
                self.phase = JobPhase::Acked;
                JobAction::Ack
            },
            (JobPhase::Publishing, JobEvent::PublishFailed) => {
                self.phase = JobPhase::Halted;
                JobAction::Halt
            },
            _ => JobAction::Nothing,
        }
    }
}

/// The phase a task reaches and the actions it performed, from receipt, when
/// the events of `steps` arrive in order; each step also says whether the
/// wait had ended in a classifiable outcome by then.
pub open spec fn run(steps: Seq<(EventKind, bool)>) -> (JobPhase, Seq<ActionKind>)
    decreases steps.len(),
{
    if steps.len() == 0 {
        (JobPhase::PullingImage, seq![ActionKind::PullImage])
    } else {
        let (ph, trace) = run(steps.drop_last());
        let (ev, classified) = steps.last();
        let (next, a) = next_phase(ph, ev, classified);
        (next, trace.push(a))
    }
}

/// How many times `k` occurs in `trace`.
pub open spec fn count(trace: Seq<ActionKind>, k: ActionKind) -> nat
    decreases trace.len(),
{
    if trace.len() == 0 {
        0
    } else {
        count(trace.drop_last(), k) + if trace.last() == k {
            1nat
        } else {
            0nat
        }
    }
}

/// Whether the task is done with: acknowledged, negatively acknowledged, or
/// its process halted.
pub open spec fn is_final(ph: JobPhase) -> bool {
    ph == JobPhase::Acked || ph == JobPhase::Nacked || ph == JobPhase::Halted
}

/// Whatever the runtime and the broker answer, a task is published at most
/// once or negatively acknowledged at most once, never both. A task that is
/// acknowledged had exactly one result published and no nack; one that is
/// negatively acknowledged had exactly one nack and no result. A task that
/// is done with stays so.
pub proof fn lemma_one_outcome_per_task(steps: Seq<(EventKind, bool)>)
    ensures
        ({
            let (ph, trace) = run(steps);
            &&& count(trace, ActionKind::PublishResult) + count(trace, ActionKind::Nack) <= 1
            &&& count(trace, ActionKind::Ack) <= count(trace, ActionKind::PublishResult)
            &&& ph == JobPhase::Acked ==> count(trace, ActionKind::PublishResult) == 1 && count(
                trace,
                ActionKind::Nack,
            ) == 0 && count(trace, ActionKind::Ack) == 1
            &&& ph == JobPhase::Nacked ==> count(trace, ActionKind::Nack) == 1 && count(
                trace,
                ActionKind::PublishResult,
            ) == 0
            &&& forall|ev: EventKind, c: bool|
                is_final(ph) ==> #[trigger] next_phase(ph, ev, c) == (ph, ActionKind::Nothing)
        }),
{
    lemma_counts_follow_phase(steps);
}

/// The publish, nack and ack counts of a run are fixed by the phase it
/// reached.
proof fn lemma_counts_follow_phase(steps: Seq<(EventKind, bool)>)
    ensures
        ({
            let (ph, trace) = run(steps);
            &&& count(trace, ActionKind::PublishResult) == if ph == JobPhase::Publishing || ph
                == JobPhase::Acked || ph == JobPhase::Halted {
                1nat
            } else {
                0nat
            }
            &&& count(trace, ActionKind::Nack) == if ph == JobPhase::Nacked {
                1nat
            } else {
                0nat
            }
            &&& count(trace, ActionKind::Ack) == if ph == JobPhase::Acked {
                1nat
            } else {
                0nat
            }
        }),
    decreases steps.len(),
{
    let trace = run(steps).1;
    if steps.len() == 0 {
        assert(trace.drop_last() =~= Seq::<ActionKind>::empty());
        assert(count(trace.drop_last(), ActionKind::PublishResult) == 0);
        assert(count(trace.drop_last(), ActionKind::Nack) == 0);
        assert(count(trace.drop_last(), ActionKind::Ack) == 0);
    } else {
        lemma_counts_follow_phase(steps.drop_last());
        let trace0 = run(steps.drop_last()).1;
        assert(trace.drop_last() =~= trace0);
    }
}

} // verus!

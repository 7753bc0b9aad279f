//! The mode selector: one lifecycle over two supervisors.
//!
//! When the application starts, the services are run as containers if the
//! container engine can be reached and the containers start. Otherwise they
//! are run as child processes of the host. The mode is chosen once and stays.
//! Restart and shutdown go to the supervisor of the chosen mode.
//!
//! Like the supervisors below it, the selector converses with the host: the
//! methods [`Supervisor::init`], [`Supervisor::restart_all`] and
//! [`Supervisor::shutdown_all`] return a first [`Step`], and
//! [`Supervisor::resume`] takes each reply and returns the next step.

use crate::docker_manager::{
    lemma_reply_advances_operation, replies_left as container_replies_left, DockerManager,
    DockerManagerView,
};
use crate::error::{SupervisorError, SupervisorErrorView};
use crate::host::{Outcome, OutcomeView, Reply, ReplyView, Request, RequestView, Step, StepView};
use crate::layout::{layout_at, locator_probe, resolved_root, resource_probe};
use crate::platform::Platform;
use crate::process_manager::{
    lemma_reply_advances_start, lemma_stop_all_is_idempotent, replies_left as native_replies_left,
    ProcessManager, ProcessManagerView, StatusReport,
};
use vstd::prelude::*;

verus! {

/// How the services are run.
#[derive(Clone, Copy, Debug, PartialEq, Eq, Structural)]
pub enum RunMode {
    /// As containers, all three as one unit.
    Container,
    /// As child processes of the host.
    Native,
}

/// What the selector is waiting for.
#[derive(Clone, Copy, Debug, PartialEq, Eq, Structural)]
pub enum SelectorPhase {
    /// Nothing: no operation is under way.
    Idle,
    /// Whether the engine can be reached, on the way to a mode.
    Availability,
    /// The start of the containers, on the way to a mode.
    Containers,
    /// The files that exist, in order to find the native resources.
    Locate,
    /// The start of the native services, on the way to a mode.
    Native,
    /// The restart of the containers.
    RestartContainers,
    /// The end of the native processes, in order to restart them.
    RestartTerminate,
    /// The start of the native services, after their stop.
    RestartNative,
    /// The stop of the containers, for good.
    ShutdownContainers,
    /// The end of the native processes, for good.
    ShutdownTerminate,
}

/// The whole of what is supervised: both supervisors and the chosen mode.
#[derive(Debug)]
pub struct Supervisor {
    docker: DockerManager,
    native: Option<ProcessManager>,
    mode: Option<RunMode>,
    fallback: Option<SupervisorError>,
    resource_dir: String,
    data_dir: String,
    platform: Platform,
    phase: SelectorPhase,
}

/// The mathematical content of a [`Supervisor`].
pub struct SupervisorView {
    pub docker: DockerManagerView,
    /// The native supervisor, once the selector has fallen back on it.
    pub native: Option<ProcessManagerView>,
    /// The chosen mode; `None` until one is chosen.
    pub mode: Option<RunMode>,
    /// Why the services do not run as containers, if the selector fell back.
    pub fallback: Option<SupervisorErrorView>,
    pub resource_dir: Seq<char>,
    pub data_dir: Seq<char>,
    pub platform: Platform,
    pub phase: SelectorPhase,
}

impl View for Supervisor {
    type V = SupervisorView;

    closed spec fn view(&self) -> SupervisorView {
        SupervisorView {
            docker: self.docker@,
            native: match self.native {
                Some(manager) => Some(manager@),
                None => None,
            },
            mode: self.mode,
            fallback: match self.fallback {
                Some(error) => Some(error@),
                None => None,
            },
            resource_dir: self.resource_dir@,
            data_dir: self.data_dir@,
            platform: self.platform,
            phase: self.phase,
        }
    }
}

/// Why a start of the containers that ended with `step` makes the selector
/// fall back: the failure it ended with.
pub open spec fn fallback_cause(step: StepView) -> SupervisorErrorView {
    match step.error() {
        Some(error) => error,
        None => SupervisorErrorView::EngineUnavailable,
    }
}

/// The request that shows the dashboard: the frontend's address, opened with
/// the user's browser.
pub open spec fn dashboard_request() -> RequestView {
    RequestView::OpenUrl("http://localhost:3000"@)
}

impl SupervisorView {
    /// A selector that has chosen no mode and begun nothing.
    pub open spec fn fresh(
        resource_dir: Seq<char>,
        data_dir: Seq<char>,
        platform: Platform,
    ) -> SupervisorView {
        SupervisorView {
            docker: DockerManagerView::fresh(resource_dir, platform),
            native: None,
            mode: None,
            fallback: None,
            resource_dir,
            data_dir,
            platform,
            phase: SelectorPhase::Idle,
        }
    }

    /// This selector at rest, its operation having ended with `step`.
    pub open spec fn rest(self, step: StepView) -> (SupervisorView, StepView) {
        (SupervisorView { phase: SelectorPhase::Idle, ..self }, step)
    }

    /// This selector with `mode` chosen, unless a mode was chosen before: a
    /// mode, once chosen, stays.
    pub open spec fn chosen(self, mode: RunMode) -> SupervisorView {
        SupervisorView {
            mode: match self.mode {
                Some(earlier) => Some(earlier),
                None => Some(mode),
            },
            ..self
        }
    }

    /// Choosing a mode begins with the question whether the engine can be
    /// reached. Once a mode is chosen there is nothing left to choose.
    pub open spec fn begin_init(self) -> (SupervisorView, StepView) {
        if self.mode is Some {
            self.rest(StepView::Done(OutcomeView::Idle))
        } else {
            let (docker, step) = self.docker.begin_availability();
            (SupervisorView { docker, phase: SelectorPhase::Availability, ..self }, step)
        }
    }

    /// Falling back on the native services, for the reason given, begins
    /// with finding their resources.
    pub open spec fn begin_native(self, cause: SupervisorErrorView) -> (SupervisorView, StepView) {
        (
            SupervisorView { fallback: Some(cause), phase: SelectorPhase::Locate, ..self },
            StepView::Ask(locator_probe(self.resource_dir, self.platform)),
        )
    }

    /// Restarting stops the services of the chosen mode and starts them
    /// again. Without a chosen mode there is nothing to restart.
    pub open spec fn begin_restart(self) -> (SupervisorView, StepView) {
        match self.mode {
            Some(RunMode::Container) => {
                let (docker, step) = self.docker.begin_restart();
                (SupervisorView { docker, phase: SelectorPhase::RestartContainers, ..self }, step)
            },
            Some(RunMode::Native) => match self.native {
                Some(manager) => (
                    SupervisorView {
                        native: Some(manager.stopped()),
                        phase: SelectorPhase::RestartTerminate,
                        ..self
                    },
                    StepView::Ask(RequestView::Terminate(manager.handles_to_stop())),
                ),
                None => self.rest(StepView::Done(OutcomeView::Idle)),
            },
            None => self.rest(StepView::Done(OutcomeView::Idle)),
        }
    }

    /// Shutting down stops whatever may run: the native services if there
    /// is a native supervisor, else the containers if that mode was chosen.
    /// Where no start ever came that far, there is nothing to stop.
    pub open spec fn begin_shutdown(self) -> (SupervisorView, StepView) {
        match self.native {
            Some(manager) => (
                SupervisorView {
                    native: Some(manager.stopped()),
                    phase: SelectorPhase::ShutdownTerminate,
                    ..self
                },
                StepView::Ask(RequestView::Terminate(manager.handles_to_stop())),
            ),
            None => if self.mode == Some(RunMode::Container) {
                let (docker, step) = self.docker.begin_stop();
                (SupervisorView { docker, phase: SelectorPhase::ShutdownContainers, ..self }, step)
            } else {
                self.rest(StepView::Done(OutcomeView::Finished(Ok(()))))
            },
        }
    }

    /// The selector and its next step, once the container supervisor has
    /// taken the host's reply and returned `step`.
    pub open spec fn follow_docker(self, docker: DockerManagerView, step: StepView) -> (
        SupervisorView,
        StepView,
    ) {
        let next = SupervisorView { docker, ..self };
        if step.is_done() {
            next.rest(step)
        } else {
            (next, step)
        }
    }

    /// The selector and its next step, once the native supervisor has taken
    /// the host's reply and returned `step`.
    pub open spec fn follow_native(self, manager: ProcessManagerView, step: StepView) -> (
        SupervisorView,
        StepView,
    ) {
        let next = SupervisorView { native: Some(manager), ..self };
        if step.is_done() {
            next.rest(step)
        } else {
            (next, step)
        }
    }

    /// The selector and its next step, once the host has replied, while a
    /// mode is being chosen.
    pub open spec fn resume_init(self, reply: ReplyView) -> (SupervisorView, StepView) {
        match self.phase {
            SelectorPhase::Availability => {
                let (docker, step) = self.docker.resume(reply);
                if step.is_yes() {
                    let (docker, step) = docker.begin_start();
                    (SupervisorView { docker, phase: SelectorPhase::Containers, ..self }, step)
                } else {
                    SupervisorView { docker, ..self }.begin_native(
                        SupervisorErrorView::EngineUnavailable,
                    )
                }
            },
            SelectorPhase::Containers => {
                let (docker, step) = self.docker.resume(reply);
                let next = SupervisorView { docker, ..self };
                if !step.is_done() {
                    (next, step)
                } else if step.is_success() {
                    next.chosen(RunMode::Container).rest(step)
                } else {
                    next.begin_native(fallback_cause(step))
                }
            },
            SelectorPhase::Locate => {
                let fresh = ProcessManagerView::fresh(
                    layout_at(
                        resolved_root(self.resource_dir, self.platform, reply.files()),
                        self.platform,
                    ),
                    self.data_dir,
                );
                let (manager, step) = fresh.begin_start();
                (
                    SupervisorView {
                        native: Some(manager),
                        phase: SelectorPhase::Native,
                        ..self
                    },
                    step,
                )
            },
            _ => match self.native {
                Some(manager) => {
                    let (manager, step) = manager.resume(reply);
                    let next = SupervisorView { native: Some(manager), ..self };
                    if step.is_done() {
                        next.chosen(RunMode::Native).rest(step)
                    } else {
                        (next, step)
                    }
                },
                None => self.rest(StepView::Done(OutcomeView::Idle)),
            },
        }
    }

    /// The selector and its next step, once the host has replied, during a
    /// restart or a shutdown.
    pub open spec fn resume_cycle(self, reply: ReplyView) -> (SupervisorView, StepView) {
        match self.phase {
            SelectorPhase::RestartContainers | SelectorPhase::ShutdownContainers => {
                let (docker, step) = self.docker.resume(reply);
                self.follow_docker(docker, step)
            },
            SelectorPhase::RestartTerminate => match self.native {
                Some(manager) => {
                    let (manager, step) = manager.begin_start();
                    (
                        SupervisorView {
                            native: Some(manager),
                            phase: SelectorPhase::RestartNative,
                            ..self
                        },
                        step,
                    )
                },
                None => self.rest(StepView::Done(OutcomeView::Idle)),
            },
            SelectorPhase::RestartNative => match self.native {
                Some(manager) => {
                    let (manager, step) = manager.resume(reply);
                    self.follow_native(manager, step)
                },
                None => self.rest(StepView::Done(OutcomeView::Idle)),
            },
            _ => self.rest(StepView::Done(OutcomeView::Finished(Ok(())))),
        }
    }

    /// The selector and its next step, once the host has replied.
    pub open spec fn resume(self, reply: ReplyView) -> (SupervisorView, StepView) {
        match self.phase {
            SelectorPhase::Idle => (self, StepView::Done(OutcomeView::Idle)),
            SelectorPhase::Availability
            | SelectorPhase::Containers
            | SelectorPhase::Locate
            | SelectorPhase::Native => self.resume_init(reply),
            SelectorPhase::RestartContainers
            | SelectorPhase::RestartTerminate
            | SelectorPhase::RestartNative
            | SelectorPhase::ShutdownContainers
            | SelectorPhase::ShutdownTerminate => self.resume_cycle(reply),
        }
    }

    /// Whether the selector has the native supervisor it needs: in native
    /// mode, and whenever it waits for the native supervisor's next step.
    pub open spec fn is_consistent(self) -> bool {
        let needed = self.mode == Some(RunMode::Native) || self.phase == SelectorPhase::Native
            || self.phase == SelectorPhase::RestartTerminate || self.phase
            == SelectorPhase::RestartNative || self.phase == SelectorPhase::ShutdownTerminate;
        needed ==> self.native is Some
    }

    /// The state of the native services, if there is a native supervisor.
    pub open spec fn native_status(self) -> Option<StatusReport> {
        match self.native {
            Some(manager) => Some(manager.status()),
            None => None,
        }
    }
}

/// The selector after a run of replies, beginning with `selector`.
pub open spec fn run(selector: SupervisorView, replies: Seq<ReplyView>) -> SupervisorView
    decreases replies.len(),
{
    if replies.len() == 0 {
        selector
    } else {
        run(selector, replies.drop_last()).resume(replies.last()).0
    }
}

/// How many replies the operation under way may still take, at most, before
/// it ends.
pub open spec fn replies_left(selector: SupervisorView) -> nat {
    let native_left = match selector.native {
        Some(manager) => native_replies_left(manager.phase),
        None => 0,
    };
    match selector.phase {
        SelectorPhase::Idle => 0,
        SelectorPhase::Availability => 22,
        SelectorPhase::Containers => 18 + container_replies_left(selector.docker.phase),
        SelectorPhase::Locate => 17,
        SelectorPhase::Native => 1 + native_left,
        SelectorPhase::RestartContainers => 1 + container_replies_left(selector.docker.phase),
        SelectorPhase::RestartTerminate => 17,
        SelectorPhase::RestartNative => 1 + native_left,
        SelectorPhase::ShutdownContainers => 1 + container_replies_left(selector.docker.phase),
        SelectorPhase::ShutdownTerminate => 1,
    }
}

/// Every reply brings the operation under way nearer to its end, and a step
/// that ends the operation leaves the selector at rest.
pub proof fn lemma_reply_advances_selector(selector: SupervisorView, reply: ReplyView)
    ensures
        selector.phase != SelectorPhase::Idle ==> replies_left(selector.resume(reply).0)
            < replies_left(selector),
        selector.resume(reply).1 is Done ==> selector.resume(reply).0.phase == SelectorPhase::Idle,
{
    lemma_reply_advances_operation(selector.docker, reply);
    if let Some(manager) = selector.native {
        lemma_reply_advances_start(manager, reply);
    }
}

/// No operation goes on for ever: it ends within the replies it has left.
/// Choosing a mode takes twenty-two replies at most.
pub proof fn lemma_operation_ends(selector: SupervisorView, replies: Seq<ReplyView>)
    ensures
        replies_left(run(selector, replies)) + replies.len() <= replies_left(selector) || run(
            selector,
            replies,
        ).phase == SelectorPhase::Idle,
        replies.len() >= replies_left(selector) ==> run(selector, replies).phase
            == SelectorPhase::Idle,
        selector.mode is None ==> replies_left(selector.begin_init().0) == 22,
    decreases replies.len(),
{
    if replies.len() > 0 {
        lemma_operation_ends(selector, replies.drop_last());
        lemma_reply_advances_selector(run(selector, replies.drop_last()), replies.last());
    }
}

/// With the engine in reach, the selector goes on to start the containers
/// and leaves the native supervisor alone.
pub proof fn lemma_available_engine_starts_containers(selector: SupervisorView, reply: ReplyView)
    requires
        selector.phase == SelectorPhase::Availability,
        selector.docker.resume(reply).1.is_yes(),
    ensures
        selector.resume(reply) == (
            SupervisorView {
                docker: selector.docker.resume(reply).0.begin_start().0,
                phase: SelectorPhase::Containers,
                ..selector
            },
            selector.docker.resume(reply).0.begin_start().1,
        ),
        selector.resume(reply).0.native == selector.native,
        selector.resume(reply).0.mode == selector.mode,
{
}

/// Containers that start decide the mode: it is `Container`, and the native
/// supervisor is not touched.
pub proof fn lemma_started_containers_choose_container_mode(
    selector: SupervisorView,
    reply: ReplyView,
)
    requires
        selector.mode is None,
        selector.phase == SelectorPhase::Containers,
        selector.docker.resume(reply).1.is_success(),
    ensures
        selector.resume(reply).0.mode == Some(RunMode::Container),
        selector.resume(reply).0.native == selector.native,
        selector.resume(reply).0.fallback == selector.fallback,
        selector.resume(reply).0.phase == SelectorPhase::Idle,
        selector.resume(reply).1.is_success(),
{
}

/// An engine out of reach makes the selector fall back: its next step looks
/// for the native resources, and no container is started.
pub proof fn lemma_unavailable_engine_falls_back(selector: SupervisorView, reply: ReplyView)
    requires
        selector.phase == SelectorPhase::Availability,
        !selector.docker.resume(reply).1.is_yes(),
    ensures
        selector.resume(reply).0.phase == SelectorPhase::Locate,
        selector.resume(reply).0.mode == selector.mode,
        selector.resume(reply).0.fallback == Some(SupervisorErrorView::EngineUnavailable),
        selector.resume(reply).1 == StepView::Ask(
            locator_probe(selector.resource_dir, selector.platform),
        ),
{
}

/// Containers that fail to start make the selector fall back: its next step
/// looks for the native resources, and the failure is kept as the reason.
pub proof fn lemma_failed_containers_fall_back(selector: SupervisorView, reply: ReplyView)
    requires
        selector.phase == SelectorPhase::Containers,
        selector.docker.resume(reply).1.is_done(),
        !selector.docker.resume(reply).1.is_success(),
    ensures
        selector.resume(reply).0.phase == SelectorPhase::Locate,
        selector.resume(reply).0.mode == selector.mode,
        selector.resume(reply).0.fallback == Some(
            fallback_cause(selector.docker.resume(reply).1),
        ),
        selector.resume(reply).1 == StepView::Ask(
            locator_probe(selector.resource_dir, selector.platform),
        ),
{
}

/// Once the native start has ended, well or not, the mode is `Native`.
pub proof fn lemma_native_start_chooses_native_mode(selector: SupervisorView, reply: ReplyView)
    requires
        selector.mode is None,
        selector.phase == SelectorPhase::Native,
        selector.native is Some,
        selector.native->0.resume(reply).1.is_done(),
    ensures
        selector.resume(reply).0.mode == Some(RunMode::Native),
        selector.resume(reply).0.phase == SelectorPhase::Idle,
        selector.resume(reply).1 == selector.native->0.resume(reply).1,
{
}

/// A selector is consistent when it is made.
pub proof fn lemma_fresh_selector_is_consistent(
    resource_dir: Seq<char>,
    data_dir: Seq<char>,
    platform: Platform,
)
    ensures
        SupervisorView::fresh(resource_dir, data_dir, platform).is_consistent(),
{
}

/// A consistent selector stays so, whatever is begun and whatever the host
/// replies. In native mode a restart therefore always has a supervisor to
/// restart.
pub proof fn lemma_selector_stays_consistent(selector: SupervisorView, reply: ReplyView)
    requires
        selector.is_consistent(),
    ensures
        selector.begin_init().0.is_consistent(),
        selector.begin_restart().0.is_consistent(),
        selector.begin_shutdown().0.is_consistent(),
        selector.resume(reply).0.is_consistent(),
        selector.mode == Some(RunMode::Native) ==> selector.begin_restart().1 is Ask,
{
}

/// The mode is chosen once: whatever is begun and whatever the host
/// replies, a chosen mode stays as it is.
pub proof fn lemma_mode_is_chosen_once(selector: SupervisorView, reply: ReplyView)
    requires
        selector.mode is Some,
    ensures
        selector.begin_init().0.mode == selector.mode,
        selector.begin_restart().0.mode == selector.mode,
        selector.begin_shutdown().0.mode == selector.mode,
        selector.resume(reply).0.mode == selector.mode,
{
}

/// Until a mode is chosen, a restart does nothing, and neither a restart nor
/// a shutdown chooses one.
pub proof fn lemma_no_mode_without_init(selector: SupervisorView)
    requires
        selector.mode is None,
    ensures
        selector.begin_restart().1 == StepView::Done(OutcomeView::Idle),
        selector.begin_restart().0.mode is None,
        selector.begin_shutdown().0.mode is None,
{
}

/// Shutting down is safe at any time: it leaves no handle with the native
/// supervisor, and a selector that never came to run anything ends at once
/// and well.
pub proof fn lemma_shutdown_is_always_safe(selector: SupervisorView)
    ensures
        selector.begin_shutdown().0.native matches Some(manager) ==> manager.handles()
            == Seq::<u32>::empty(),
        selector.native is None && selector.mode != Some(RunMode::Container)
            ==> selector.begin_shutdown().1.is_success(),
{
    if let Some(manager) = selector.native {
        lemma_stop_all_is_idempotent(manager);
    }
}

impl Supervisor {
    /// A selector that has chosen no mode yet.
    pub fn new(resource_dir: String, data_dir: String, platform: Platform) -> (selector: Supervisor)
        ensures
            selector@ == SupervisorView::fresh(resource_dir@, data_dir@, platform),
    {
        let docker = DockerManager::new(resource_dir.clone(), platform);
        Supervisor {
            docker,
            native: None,
            mode: None,
            fallback: None,
            resource_dir,
            data_dir,
            platform,
            phase: SelectorPhase::Idle,
        }
    }

    /// The chosen mode.
    pub fn mode(&self) -> (mode: Option<RunMode>)
        ensures
            mode == self@.mode,
    {
        self.mode
    }

    /// Why the services do not run as containers, if the selector fell back.
    pub fn fallback(&self) -> (cause: &Option<SupervisorError>)
        ensures
            match cause {
                Some(error) => self@.fallback == Some(error@),
                None => self@.fallback is None,
            },
    {
        &self.fallback
    }

    /// What the selector is waiting for.
    pub fn phase(&self) -> (phase: SelectorPhase)
        ensures
            phase == self@.phase,
    {
        self.phase
    }

    /// The state of the native services, if there is a native supervisor.
    pub fn native_status(&self) -> (report: Option<StatusReport>)
        ensures
            report == self@.native_status(),
    {
        match &self.native {
            Some(manager) => Some(manager.get_status()),
            None => None,
        }
    }

    /// The request that shows the dashboard. It is the same at any time,
    /// whatever the selector is doing.
    pub fn open_dashboard(&self) -> (request: Request)
        ensures
            request@ == dashboard_request(),
    {
        Request::OpenUrl("http://localhost:3000".to_owned())
    }

    /// Begins to choose the mode and to start the services in it. The mode
    /// is chosen once: with a mode chosen, this does nothing.
    pub fn init(&mut self) -> (step: Step)
        ensures
            (final(self)@, step@) == old(self)@.begin_init(),
    {
        if self.mode.is_some() {
            self.phase = SelectorPhase::Idle;
            Step::Done(Outcome::Idle)
        } else {
            let step = self.docker.is_docker_available();
            self.phase = SelectorPhase::Availability;
            step
        }
    }

    /// Begins to restart the services of the chosen mode.
    pub fn restart_all(&mut self) -> (step: Step)
        ensures
            (final(self)@, step@) == old(self)@.begin_restart(),
    {
        match self.mode {
            Some(RunMode::Container) => {
                let step = self.docker.restart_containers();
                self.phase = SelectorPhase::RestartContainers;
                step
            },
            Some(RunMode::Native) => {
                match &mut self.native {
                    Some(manager) => {
                        let handles = manager.stop_all();
                        self.phase = SelectorPhase::RestartTerminate;
                        Step::Ask(Request::Terminate(handles))
                    },
                    None => {
                        self.phase = SelectorPhase::Idle;
                        Step::Done(Outcome::Idle)
                    },
                }
            },
            None => {
                self.phase = SelectorPhase::Idle;
                Step::Done(Outcome::Idle)
            },
        }
    }

    /// Begins to stop the services for good. This is safe at any time, also
    /// when no mode was chosen yet.
    pub fn shutdown_all(&mut self) -> (step: Step)
        ensures
            (final(self)@, step@) == old(self)@.begin_shutdown(),
    {
        match &mut self.native {
            Some(manager) => {
                let handles = manager.stop_all();
                self.phase = SelectorPhase::ShutdownTerminate;
                Step::Ask(Request::Terminate(handles))
            },
            None => {
                if self.mode == Some(RunMode::Container) {
                    let step = self.docker.stop_containers();
                    self.phase = SelectorPhase::ShutdownContainers;
                    step
                } else {
                    self.phase = SelectorPhase::Idle;
                    Step::Done(Outcome::Finished(Ok(())))
                }
            },
        }
    }

    /// Takes the host's reply to the last request and returns the next step
    /// of the operation under way.
    pub fn resume(&mut self, reply: Reply) -> (step: Step)
        ensures
            (final(self)@, step@) == old(self)@.resume(reply@),
    {
        match self.phase {
            SelectorPhase::Idle => Step::Done(Outcome::Idle),
            SelectorPhase::Availability
            | SelectorPhase::Containers
            | SelectorPhase::Locate
            | SelectorPhase::Native => self.resume_init(reply),
            SelectorPhase::RestartContainers
            | SelectorPhase::RestartTerminate
            | SelectorPhase::RestartNative
            | SelectorPhase::ShutdownContainers
            | SelectorPhase::ShutdownTerminate => self.resume_cycle(reply),
        }
    }

    fn choose_mode(&mut self, mode: RunMode)
        ensures
            final(self)@ == old(self)@.chosen(mode),
    {
        if self.mode.is_none() {
            self.mode = Some(mode);
        }
    }

    fn begin_native(&mut self, cause: SupervisorError) -> (step: Step)
        ensures
            (final(self)@, step@) == old(self)@.begin_native(cause@),
    {
        self.fallback = Some(cause);
        self.phase = SelectorPhase::Locate;
        Step::Ask(resource_probe(self.resource_dir.as_str(), self.platform))
    }

    fn resume_init(&mut self, reply: Reply) -> (step: Step)
        ensures
            (final(self)@, step@) == old(self)@.resume_init(reply@),
    {
        match self.phase {
            SelectorPhase::Availability => {
                let step = self.docker.resume(reply);
                if step.is_yes() {
                    let step = self.docker.start_containers();
                    self.phase = SelectorPhase::Containers;
                    step
                } else {
                    self.begin_native(SupervisorError::EngineUnavailable)
                }
            },
            SelectorPhase::Containers => {
                let step = self.docker.resume(reply);
                if !step.is_done() {
                    step
                } else if step.is_success() {
                    self.choose_mode(RunMode::Container);
                    self.phase = SelectorPhase::Idle;
                    step
                } else {
                    let cause = match step.into_error() {
                        Some(error) => error,
                        None => SupervisorError::EngineUnavailable,
                    };
                    self.begin_native(cause)
                }
            },
            SelectorPhase::Locate => {
                let files = reply.into_files();
                let mut manager = ProcessManager::new(
                    self.resource_dir.clone(),
                    self.data_dir.clone(),
                    self.platform,
                    &files,
                );
                let step = manager.start_all();
                self.native = Some(manager);
                self.phase = SelectorPhase::Native;
                step
            },
            _ => {
                match &mut self.native {
                    Some(manager) => {
                        let step = manager.resume(reply);
                        if step.is_done() {
                            self.choose_mode(RunMode::Native);
                            self.phase = SelectorPhase::Idle;
                        }
                        step
                    },
                    None => {
                        self.phase = SelectorPhase::Idle;
                        Step::Done(Outcome::Idle)
                    },
                }
            },
        }
    }

    fn resume_cycle(&mut self, reply: Reply) -> (step: Step)
        ensures
            (final(self)@, step@) == old(self)@.resume_cycle(reply@),
    {
        match self.phase {
            SelectorPhase::RestartContainers | SelectorPhase::ShutdownContainers => {
                let step = self.docker.resume(reply);
                if step.is_done() {
                    self.phase = SelectorPhase::Idle;
                }
                step
            },
            SelectorPhase::RestartTerminate => {
                match &mut self.native {
                    Some(manager) => {
                        let step = manager.start_all();
                        self.phase = SelectorPhase::RestartNative;
                        step
                    },
                    None => {
                        self.phase = SelectorPhase::Idle;
                        Step::Done(Outcome::Idle)
                    },
                }
            },
            SelectorPhase::RestartNative => {
                match &mut self.native {
                    Some(manager) => {
                        let step = manager.resume(reply);
                        if step.is_done() {
                            self.phase = SelectorPhase::Idle;
                        }
                        step
                    },
                    None => {
                        self.phase = SelectorPhase::Idle;
                        Step::Done(Outcome::Idle)
                    },
                }
            },
            _ => {
                self.phase = SelectorPhase::Idle;
                Step::Done(Outcome::Finished(Ok(())))
            },
        }
    }
}

} // verus!

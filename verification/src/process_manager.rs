//! The native process supervisor.
//!
//! Three services run as child processes of the host: the node daemon, the
//! backend that depends on it, and the frontend that depends on the backend.
//! They are started in that order, with a pause after each of the first two,
//! and stopped in the reverse order. The supervisor holds at most one handle
//! for each service: the identifier of the process that the host started.
//!
//! Starting is a conversation with the host: [`ProcessManager::start_all`]
//! returns the first [`Step`], and [`ProcessManager::resume`] takes each reply
//! and returns the next step, until the step is [`Step::Done`]. A stage that
//! fails ends the conversation with its error. Services started before it stay
//! as they are: [`ProcessManager::stop_all`] makes a clean slate.

use crate::credential::{credential_of, read_credential};
use crate::error::{Resource, Stage, SupervisorError, SupervisorErrorView};
use crate::host::{
    CommandLine, CommandLineView, FileSet, Outcome, OutcomeView, Reply, ReplyView, Request,
    RequestView, Step, StepView,
};
use crate::layout::{find_resource_dir, layout_at, resolved_root, ResourceLayout, ResourceLayoutView};
use crate::paths::{join, join2, joined2, joined_path};
use crate::platform::Platform;
use vstd::prelude::*;
use vstd::string::*;

verus! {

/// How long the node daemon is given to come up before the backend starts.
pub const PHOENIXD_SETTLE_SECONDS: u64 = 2;

/// How long the backend is given to come up before the frontend starts.
pub const BACKEND_SETTLE_SECONDS: u64 = 1;

/// What the supervisor is waiting for while it starts the services.
#[derive(Clone, Copy, Debug, PartialEq, Eq, Structural)]
pub enum StartPhase {
    /// Nothing: no start is under way.
    Idle,
    /// Where the node daemon lies on the execution path.
    PhoenixdLocate,
    /// Whether the node daemon's binary exists.
    PhoenixdProbe,
    /// The creation of the node daemon's home directory.
    PhoenixdHome,
    /// The launch of the node daemon.
    PhoenixdSpawn,
    /// The end of the pause after the node daemon's launch.
    PhoenixdSettle,
    /// Where the runtime lies on the execution path.
    BackendLocate,
    /// Whether the runtime and the backend's entry point exist.
    BackendProbe,
    /// The content of the node daemon's configuration file.
    BackendConfig,
    /// Whether the database and its template exist.
    BackendDatabase,
    /// The copy of the template database.
    BackendCopy,
    /// The launch of the backend.
    BackendSpawn,
    /// The end of the pause after the backend's launch.
    BackendSettle,
    /// Where the runtime lies on the execution path.
    FrontendLocate,
    /// Whether the runtime and the frontend's entry point exist.
    FrontendProbe,
    /// The launch of the frontend.
    FrontendSpawn,
}

/// What is known of one service that has a handle.
#[derive(Clone, Copy, Debug, PartialEq, Eq, Structural)]
pub struct ProcessStatus {
    /// Whether the service counts as running. A handle is not checked for
    /// life: a process that has died since counts as running still.
    pub running: bool,
    pub pid: u32,
}

/// The state of the three services; `None` for a service without a handle.
#[derive(Clone, Copy, Debug, PartialEq, Eq, Structural)]
pub struct StatusReport {
    pub phoenixd: Option<ProcessStatus>,
    pub backend: Option<ProcessStatus>,
    pub frontend: Option<ProcessStatus>,
}

/// What a handle says of its service.
pub open spec fn status_of_handle(handle: Option<u32>) -> Option<ProcessStatus> {
    match handle {
        Some(pid) => Some(ProcessStatus { running: pid > 0, pid }),
        None => None,
    }
}

/// Supervises the services as child processes.
#[derive(Debug)]
pub struct ProcessManager {
    layout: ResourceLayout,
    data_dir: String,
    phoenixd: Option<u32>,
    backend: Option<u32>,
    frontend: Option<u32>,
    phase: StartPhase,
    located: Option<String>,
    runtime: String,
    credential: String,
}

/// The mathematical content of a [`ProcessManager`].
pub struct ProcessManagerView {
    pub layout: ResourceLayoutView,
    pub data_dir: Seq<char>,
    pub phoenixd: Option<u32>,
    pub backend: Option<u32>,
    pub frontend: Option<u32>,
    pub phase: StartPhase,
    /// Where the host located the program of the stage under way.
    pub located: Option<Seq<char>>,
    /// The program that the stage under way has settled on.
    pub runtime: Seq<char>,
    /// The credential read for the backend.
    pub credential: Seq<char>,
}

impl View for ProcessManager {
    type V = ProcessManagerView;

    closed spec fn view(&self) -> ProcessManagerView {
        ProcessManagerView {
            layout: self.layout@,
            data_dir: self.data_dir@,
            phoenixd: self.phoenixd,
            backend: self.backend,
            frontend: self.frontend,
            phase: self.phase,
            located: self.located.deep_view(),
            runtime: self.runtime@,
            credential: self.credential@,
        }
    }
}

/// The handles among `slots`, in order.
pub open spec fn present(slots: Seq<Option<u32>>) -> Seq<u32>
    decreases slots.len(),
{
    if slots.len() == 0 {
        Seq::empty()
    } else {
        match slots.last() {
            Some(pid) => present(slots.drop_last()).push(pid),
            None => present(slots.drop_last()),
        }
    }
}

/// What the node daemon's binary resolves to: the bundled one if it exists,
/// else the one located on the execution path, else the bundled one although
/// it is missing.
pub open spec fn resolved_phoenixd(
    bundled: Seq<char>,
    files: Set<Seq<char>>,
    located: Option<Seq<char>>,
) -> Seq<char> {
    if files.contains(bundled) {
        bundled
    } else {
        match located {
            Some(path) => path,
            None => bundled,
        }
    }
}

/// What the runtime resolves to: the bundled one if it exists, else the one
/// located on the execution path. With neither, the runtime is missing.
pub open spec fn resolved_node(
    bundled: Seq<char>,
    files: Set<Seq<char>>,
    located: Option<Seq<char>>,
) -> Result<Seq<char>, SupervisorErrorView> {
    if files.contains(bundled) {
        Ok(bundled)
    } else {
        match located {
            Some(path) => Ok(path),
            None => Err(
                SupervisorErrorView::ResourceNotFound {
                    resource: Resource::NodeRuntime,
                    path: bundled,
                },
            ),
        }
    }
}

/// The paths probed for the node daemon: the bundled binary, and the located
/// one if there is one.
pub open spec fn phoenixd_probe_paths(bundled: Seq<char>, located: Option<Seq<char>>) -> Seq<
    Seq<char>,
> {
    match located {
        Some(path) => seq![bundled, path],
        None => seq![bundled],
    }
}

impl ProcessManagerView {
    /// A supervisor that holds no handle and is at rest.
    pub open spec fn fresh(layout: ResourceLayoutView, data_dir: Seq<char>) -> ProcessManagerView {
        ProcessManagerView {
            layout,
            data_dir,
            phoenixd: None,
            backend: None,
            frontend: None,
            phase: StartPhase::Idle,
            located: None,
            runtime: Seq::empty(),
            credential: Seq::empty(),
        }
    }

    /// The backend's database.
    pub open spec fn database_file(self) -> Seq<char> {
        joined_path(self.data_dir, "dashboard.db"@)
    }

    /// The configuration file that the node daemon writes.
    pub open spec fn config_file(self) -> Seq<char> {
        joined2(self.data_dir, ".phoenix"@, "phoenix.conf"@)
    }

    /// The handles held, in the order in which the services are started.
    pub open spec fn handles(self) -> Seq<u32> {
        present(seq![self.phoenixd, self.backend, self.frontend])
    }

    /// The handles held, in the order in which the services are stopped.
    pub open spec fn handles_to_stop(self) -> Seq<u32> {
        present(seq![self.frontend, self.backend, self.phoenixd])
    }

    /// The launch of the node daemon: terms accepted without a prompt, bound
    /// to the loopback address, its home in the data directory.
    pub open spec fn phoenixd_command(self) -> CommandLineView {
        CommandLineView::bare(self.runtime).arg("--agree-to-terms-of-service"@).arg(
            "--http-bind-ip"@,
        ).arg("127.0.0.1"@).var("HOME"@, self.data_dir)
    }

    /// The launch of the backend.
    pub open spec fn backend_command(self) -> CommandLineView {
        CommandLineView::bare(self.runtime).arg(self.layout.backend_entry).in_dir(
            self.layout.backend_dir,
        ).var("NODE_ENV"@, "production"@).var("PORT"@, "4000"@).var("DESKTOP_MODE"@, "true"@).var(
            "DATABASE_URL"@,
            "file:"@ + self.database_file(),
        ).var("PHOENIXD_URL"@, "http://127.0.0.1:9740"@).var(
            "PHOENIXD_PASSWORD"@,
            self.credential,
        ).var("FRONTEND_URL"@, "http://localhost:3000"@)
    }

    /// The launch of the frontend with the runtime `node`.
    pub open spec fn frontend_command(self, node: Seq<char>) -> CommandLineView {
        CommandLineView::bare(node).arg(self.layout.frontend_entry).in_dir(
            self.layout.frontend_dir,
        ).var("NODE_ENV"@, "production"@).var("PORT"@, "3000"@).var("HOSTNAME"@, "localhost"@).var(
            "NEXT_PUBLIC_API_URL"@,
            "http://localhost:4000"@,
        ).var("NEXT_PUBLIC_WS_URL"@, "ws://localhost:4000"@)
    }

    /// This supervisor, waiting for `phase`.
    pub open spec fn waiting(self, phase: StartPhase) -> ProcessManagerView {
        ProcessManagerView { phase, ..self }
    }

    /// This supervisor, waiting for `phase` after asking `request`.
    pub open spec fn ask(self, phase: StartPhase, request: RequestView) -> (
        ProcessManagerView,
        StepView,
    ) {
        (self.waiting(phase), StepView::Ask(request))
    }

    /// This supervisor at rest, the start having failed.
    pub open spec fn fail(self, error: SupervisorErrorView) -> (ProcessManagerView, StepView) {
        (self.waiting(StartPhase::Idle), StepView::Done(OutcomeView::Finished(Err(error))))
    }

    /// The start begins with the node daemon. A credential read for an
    /// earlier start is forgotten.
    pub open spec fn begin_start(self) -> (ProcessManagerView, StepView) {
        ProcessManagerView { credential: Seq::empty(), ..self }.ask(
            StartPhase::PhoenixdLocate,
            RequestView::Locate("phoenixd"@),
        )
    }

    /// The supervisor and its next step, once the host has replied, while the
    /// node daemon is started.
    pub open spec fn resume_phoenixd(self, reply: ReplyView) -> (ProcessManagerView, StepView) {
        match self.phase {
            StartPhase::PhoenixdLocate => (
                ProcessManagerView {
                    phase: StartPhase::PhoenixdProbe,
                    located: reply.located(),
                    ..self
                },
                StepView::Ask(
                    RequestView::Probe(
                        phoenixd_probe_paths(self.layout.phoenixd_binary, reply.located()),
                    ),
                ),
            ),
            StartPhase::PhoenixdProbe => {
                let binary = resolved_phoenixd(
                    self.layout.phoenixd_binary,
                    reply.files(),
                    self.located,
                );
                if reply.files().contains(binary) {
                    (
                        ProcessManagerView {
                            phase: StartPhase::PhoenixdHome,
                            runtime: binary,
                            ..self
                        },
                        StepView::Ask(RequestView::CreateDirAll(self.data_dir)),
                    )
                } else {
                    self.fail(
                        SupervisorErrorView::ResourceNotFound {
                            resource: Resource::PhoenixdBinary,
                            path: binary,
                        },
                    )
                }
            },
            StartPhase::PhoenixdHome => if reply == ReplyView::Completed {
                self.ask(StartPhase::PhoenixdSpawn, RequestView::Spawn(self.phoenixd_command()))
            } else {
                self.fail(
                    SupervisorErrorView::ProcessSpawnFailure {
                        stage: Stage::DataDir,
                        reason: reply.failure(),
                    },
                )
            },
            StartPhase::PhoenixdSpawn => match reply {
                ReplyView::Spawned(pid) => (
                    ProcessManagerView {
                        phase: StartPhase::PhoenixdSettle,
                        phoenixd: Some(pid),
                        ..self
                    },
                    StepView::Ask(RequestView::Sleep(PHOENIXD_SETTLE_SECONDS)),
                ),
                _ => self.fail(
                    SupervisorErrorView::ProcessSpawnFailure {
                        stage: Stage::Phoenixd,
                        reason: reply.failure(),
                    },
                ),
            },
            _ => self.ask(StartPhase::BackendLocate, RequestView::Locate("node"@)),
        }
    }

    /// The supervisor and its next step, once the host has replied, while the
    /// backend is started.
    pub open spec fn resume_backend(self, reply: ReplyView) -> (ProcessManagerView, StepView) {
        match self.phase {
            StartPhase::BackendLocate => (
                ProcessManagerView {
                    phase: StartPhase::BackendProbe,
                    located: reply.located(),
                    ..self
                },
                StepView::Ask(
                    RequestView::Probe(seq![self.layout.node_binary, self.layout.backend_entry]),
                ),
            ),
            StartPhase::BackendProbe => match resolved_node(
                self.layout.node_binary,
                reply.files(),
                self.located,
            ) {
                Err(error) => self.fail(error),
                Ok(node) => if reply.files().contains(self.layout.backend_entry) {
                    (
                        ProcessManagerView {
                            phase: StartPhase::BackendConfig,
                            runtime: node,
                            ..self
                        },
                        StepView::Ask(RequestView::ReadText(self.config_file())),
                    )
                } else {
                    self.fail(
                        SupervisorErrorView::ResourceNotFound {
                            resource: Resource::BackendEntry,
                            path: self.layout.backend_entry,
                        },
                    )
                },
            },
            StartPhase::BackendConfig => (
                ProcessManagerView {
                    phase: StartPhase::BackendDatabase,
                    credential: credential_of(reply.text()),
                    ..self
                },
                StepView::Ask(
                    RequestView::Probe(seq![self.database_file(), self.layout.template_db]),
                ),
            ),
            StartPhase::BackendDatabase => if !reply.files().contains(self.database_file())
                && reply.files().contains(self.layout.template_db) {
                self.ask(
                    StartPhase::BackendCopy,
                    RequestView::CopyFile {
                        from: self.layout.template_db,
                        to: self.database_file(),
                    },
                )
            } else {
                self.ask(StartPhase::BackendSpawn, RequestView::Spawn(self.backend_command()))
            },
            StartPhase::BackendCopy => self.ask(
                StartPhase::BackendSpawn,
                RequestView::Spawn(self.backend_command()),
            ),
            StartPhase::BackendSpawn => match reply {
                ReplyView::Spawned(pid) => (
                    ProcessManagerView {
                        phase: StartPhase::BackendSettle,
                        backend: Some(pid),
                        credential: Seq::empty(),
                        ..self
                    },
                    StepView::Ask(RequestView::Sleep(BACKEND_SETTLE_SECONDS)),
                ),
                _ => ProcessManagerView { credential: Seq::empty(), ..self }.fail(
                    SupervisorErrorView::ProcessSpawnFailure {
                        stage: Stage::Backend,
                        reason: reply.failure(),
                    },
                ),
            },
            _ => self.ask(StartPhase::FrontendLocate, RequestView::Locate("node"@)),
        }
    }

    /// The supervisor and its next step, once the host has replied, while the
    /// frontend is started.
    pub open spec fn resume_frontend(self, reply: ReplyView) -> (ProcessManagerView, StepView) {
        match self.phase {
            StartPhase::FrontendLocate => (
                ProcessManagerView {
                    phase: StartPhase::FrontendProbe,
                    located: reply.located(),
                    ..self
                },
                StepView::Ask(
                    RequestView::Probe(seq![self.layout.node_binary, self.layout.frontend_entry]),
                ),
            ),
            StartPhase::FrontendProbe => match resolved_node(
                self.layout.node_binary,
                reply.files(),
                self.located,
            ) {
                Err(error) => self.fail(error),
                Ok(node) => if reply.files().contains(self.layout.frontend_entry) {
                    (
                        ProcessManagerView {
                            phase: StartPhase::FrontendSpawn,
                            runtime: node,
                            ..self
                        },
                        StepView::Ask(RequestView::Spawn(self.frontend_command(node))),
                    )
                } else {
                    self.fail(
                        SupervisorErrorView::ResourceNotFound {
                            resource: Resource::FrontendEntry,
                            path: self.layout.frontend_entry,
                        },
                    )
                },
            },
            _ => match reply {
                ReplyView::Spawned(pid) => (
                    ProcessManagerView { phase: StartPhase::Idle, frontend: Some(pid), ..self },
                    StepView::Done(OutcomeView::Finished(Ok(()))),
                ),
                _ => self.fail(
                    SupervisorErrorView::ProcessSpawnFailure {
                        stage: Stage::Frontend,
                        reason: reply.failure(),
                    },
                ),
            },
        }
    }

    /// The supervisor and its next step, once the host has replied.
    pub open spec fn resume(self, reply: ReplyView) -> (ProcessManagerView, StepView) {
        match self.phase {
            StartPhase::Idle => (self, StepView::Done(OutcomeView::Idle)),
            StartPhase::PhoenixdLocate
            | StartPhase::PhoenixdProbe
            | StartPhase::PhoenixdHome
            | StartPhase::PhoenixdSpawn
            | StartPhase::PhoenixdSettle => self.resume_phoenixd(reply),
            StartPhase::BackendLocate
            | StartPhase::BackendProbe
            | StartPhase::BackendConfig
            | StartPhase::BackendDatabase
            | StartPhase::BackendCopy
            | StartPhase::BackendSpawn
            | StartPhase::BackendSettle => self.resume_backend(reply),
            StartPhase::FrontendLocate
            | StartPhase::FrontendProbe
            | StartPhase::FrontendSpawn => self.resume_frontend(reply),
        }
    }

    /// The supervisor once everything is stopped: no handle is left, no
    /// start is under way, and the credential is forgotten.
    pub open spec fn stopped(self) -> ProcessManagerView {
        ProcessManagerView {
            phoenixd: None,
            backend: None,
            frontend: None,
            phase: StartPhase::Idle,
            credential: Seq::empty(),
            ..self
        }
    }

    /// Whether the supervisor holds the credential only while it needs it:
    /// from the reading of the configuration to the backend's launch.
    pub open spec fn keeps_no_credential(self) -> bool {
        ||| self.credential == Seq::<char>::empty()
        ||| self.phase == StartPhase::BackendDatabase
        ||| self.phase == StartPhase::BackendCopy
        ||| self.phase == StartPhase::BackendSpawn
    }

    /// The state of the three services.
    pub open spec fn status(self) -> StatusReport {
        StatusReport {
            phoenixd: status_of_handle(self.phoenixd),
            backend: status_of_handle(self.backend),
            frontend: status_of_handle(self.frontend),
        }
    }
}

/// The supervisor after a run of replies, beginning with `manager`.
pub open spec fn run(manager: ProcessManagerView, replies: Seq<ReplyView>) -> ProcessManagerView
    decreases replies.len(),
{
    if replies.len() == 0 {
        manager
    } else {
        run(manager, replies.drop_last()).resume(replies.last()).0
    }
}

/// The processes that the host reported to have launched during a run, in
/// order: the replies `Spawned` that came while a launch was awaited.
pub open spec fn launched(manager: ProcessManagerView, replies: Seq<ReplyView>) -> Seq<u32>
    decreases replies.len(),
{
    if replies.len() == 0 {
        Seq::empty()
    } else {
        let earlier = launched(manager, replies.drop_last());
        match replies.last() {
            ReplyView::Spawned(pid) => if run(manager, replies.drop_last()).awaits_launch() {
                earlier.push(pid)
            } else {
                earlier
            },
            _ => earlier,
        }
    }
}

impl ProcessManagerView {
    /// Whether the supervisor is waiting for a launch.
    pub open spec fn awaits_launch(self) -> bool {
        ||| self.phase == StartPhase::PhoenixdSpawn
        ||| self.phase == StartPhase::BackendSpawn
        ||| self.phase == StartPhase::FrontendSpawn
    }

    /// Whether the handles held are those of the stages that the start under
    /// way has passed.
    pub open spec fn in_step(self) -> bool {
        match self.phase {
            StartPhase::Idle => true,
            StartPhase::PhoenixdLocate
            | StartPhase::PhoenixdProbe
            | StartPhase::PhoenixdHome
            | StartPhase::PhoenixdSpawn => self.phoenixd is None && self.backend is None
                && self.frontend is None,
            StartPhase::PhoenixdSettle
            | StartPhase::BackendLocate
            | StartPhase::BackendProbe
            | StartPhase::BackendConfig
            | StartPhase::BackendDatabase
            | StartPhase::BackendCopy
            | StartPhase::BackendSpawn => self.phoenixd is Some && self.backend is None
                && self.frontend is None,
            StartPhase::BackendSettle
            | StartPhase::FrontendLocate
            | StartPhase::FrontendProbe
            | StartPhase::FrontendSpawn => self.phoenixd is Some && self.backend is Some
                && self.frontend is None,
        }
    }
}

/// How many replies a start may still take, at most, before it ends.
pub open spec fn replies_left(phase: StartPhase) -> nat {
    match phase {
        StartPhase::Idle => 0,
        StartPhase::FrontendSpawn => 1,
        StartPhase::FrontendProbe => 2,
        StartPhase::FrontendLocate => 3,
        StartPhase::BackendSettle => 4,
        StartPhase::BackendSpawn => 5,
        StartPhase::BackendCopy => 6,
        StartPhase::BackendDatabase => 7,
        StartPhase::BackendConfig => 8,
        StartPhase::BackendProbe => 9,
        StartPhase::BackendLocate => 10,
        StartPhase::PhoenixdSettle => 11,
        StartPhase::PhoenixdSpawn => 12,
        StartPhase::PhoenixdHome => 13,
        StartPhase::PhoenixdProbe => 14,
        StartPhase::PhoenixdLocate => 15,
    }
}

/// Every reply brings a start nearer to its end, and a step that ends the
/// start leaves the supervisor at rest.
pub proof fn lemma_reply_advances_start(manager: ProcessManagerView, reply: ReplyView)
    ensures
        manager.phase != StartPhase::Idle ==> replies_left(manager.resume(reply).0.phase)
            < replies_left(manager.phase),
        manager.resume(reply).1 is Done <==> manager.resume(reply).0.phase == StartPhase::Idle,
{
}

/// No start goes on for ever: it ends within the replies it has left, which
/// are fifteen at most.
pub proof fn lemma_start_ends(manager: ProcessManagerView, replies: Seq<ReplyView>)
    ensures
        replies_left(run(manager, replies).phase) + replies.len() <= replies_left(manager.phase)
            || run(manager, replies).phase == StartPhase::Idle,
        replies.len() >= replies_left(manager.phase) ==> run(manager, replies).phase
            == StartPhase::Idle,
        replies_left(manager.phase) <= 15,
    decreases replies.len(),
{
    if replies.len() > 0 {
        lemma_start_ends(manager, replies.drop_last());
        lemma_reply_advances_start(run(manager, replies.drop_last()), replies.last());
    }
}

/// Stopping is idempotent: once stopped, a supervisor holds no handle, and
/// stopping it again changes nothing and returns nothing to kill.
pub proof fn lemma_stop_all_is_idempotent(manager: ProcessManagerView)
    ensures
        manager.stopped().handles() == Seq::<u32>::empty(),
        manager.stopped().handles_to_stop() == Seq::<u32>::empty(),
        manager.stopped().stopped() == manager.stopped(),
        manager.stopped().phase == StartPhase::Idle,
{
    lemma_present_of_three(None, None, None);
}

/// A supervisor for which no service was ever started has nothing to stop.
pub proof fn lemma_stop_all_without_start(layout: ResourceLayoutView, data_dir: Seq<char>)
    ensures
        ProcessManagerView::fresh(layout, data_dir).handles_to_stop() == Seq::<u32>::empty(),
        ProcessManagerView::fresh(layout, data_dir).stopped() == ProcessManagerView::fresh(
            layout,
            data_dir,
        ),
{
    lemma_present_of_three(None, None, None);
}

/// The services are stopped in the reverse of the order in which they are
/// started, and each handle held is stopped exactly once.
pub proof fn lemma_stop_order_is_reverse_start_order(manager: ProcessManagerView)
    ensures
        manager.handles_to_stop() == manager.handles().reverse(),
{
    lemma_present_of_three(manager.phoenixd, manager.backend, manager.frontend);
    lemma_present_of_three(manager.frontend, manager.backend, manager.phoenixd);
}

/// The handles among three slots, slot by slot.
proof fn lemma_present_of_three(a: Option<u32>, b: Option<u32>, c: Option<u32>)
    ensures
        present(seq![a, b, c]) == present(seq![a]) + present(seq![b]) + present(seq![c]),
        forall|x: Option<u32>| #[trigger]
            present(seq![x]) == match x {
                Some(pid) => seq![pid],
                None => Seq::empty(),
            },
{
    reveal_with_fuel(present, 4);
}

/// A reply never takes a handle away, and a start that fails leaves the
/// handles as they were: services started before the failure keep running.
pub proof fn lemma_failure_keeps_handles(manager: ProcessManagerView, reply: ReplyView)
    ensures
        manager.phoenixd is Some ==> manager.resume(reply).0.phoenixd is Some,
        manager.backend is Some ==> manager.resume(reply).0.backend is Some,
        manager.frontend is Some ==> manager.resume(reply).0.frontend is Some,
        manager.resume(reply).1 matches StepView::Done(OutcomeView::Finished(Err(_)))
            ==> manager.resume(reply).0.handles() == manager.handles(),
{
}

/// One reply keeps the handles in step with the stages, and adds a handle
/// exactly when the host reports a launch that was awaited.
proof fn lemma_resume_in_step(manager: ProcessManagerView, reply: ReplyView)
    requires
        manager.in_step(),
    ensures
        manager.resume(reply).0.in_step(),
        manager.resume(reply).0.handles() == match reply {
            ReplyView::Spawned(pid) => if manager.awaits_launch() {
                manager.handles().push(pid)
            } else {
                manager.handles()
            },
            _ => manager.handles(),
        },
{
    let after = manager.resume(reply).0;
    lemma_present_of_three(manager.phoenixd, manager.backend, manager.frontend);
    lemma_present_of_three(after.phoenixd, after.backend, after.frontend);
}

/// A start from a supervisor without handles keeps every process that the
/// host launches: after any run of replies the handles held are exactly the
/// processes launched, in the order of their launch.
pub proof fn lemma_start_keeps_every_launch(manager: ProcessManagerView, replies: Seq<ReplyView>)
    requires
        manager.handles() == Seq::<u32>::empty(),
    ensures
        run(manager.begin_start().0, replies).in_step(),
        run(manager.begin_start().0, replies).handles() == launched(
            manager.begin_start().0,
            replies,
        ),
    decreases replies.len(),
{
    let begun = manager.begin_start().0;
    lemma_present_of_three(manager.phoenixd, manager.backend, manager.frontend);
    if replies.len() > 0 {
        lemma_start_keeps_every_launch(manager, replies.drop_last());
        lemma_resume_in_step(run(begun, replies.drop_last()), replies.last());
    }
}

/// The credential is not kept: it is held from the reading of the
/// configuration to the backend's launch, and at no other time.
pub proof fn lemma_credential_is_not_kept(manager: ProcessManagerView, replies: Seq<ReplyView>)
    requires
        manager.keeps_no_credential(),
    ensures
        run(manager, replies).keeps_no_credential(),
        run(manager, replies).stopped().credential == Seq::<char>::empty(),
        manager.begin_start().0.keeps_no_credential(),
    decreases replies.len(),
{
    if replies.len() > 0 {
        lemma_credential_is_not_kept(manager, replies.drop_last());
    }
}

/// The services are launched in order: during a start from a supervisor
/// without handles, the backend's launch is awaited only while the node
/// daemon has its handle, and the frontend's only while both have theirs.
pub proof fn lemma_services_launch_in_order(manager: ProcessManagerView, replies: Seq<ReplyView>)
    requires
        manager.handles() == Seq::<u32>::empty(),
    ensures
        ({
            let now = run(manager.begin_start().0, replies);
            &&& now.phase == StartPhase::PhoenixdSpawn ==> now.handles().len() == 0
            &&& now.phase == StartPhase::BackendSpawn ==> now.phoenixd is Some
                && now.handles().len() == 1
            &&& now.phase == StartPhase::FrontendSpawn ==> now.phoenixd is Some
                && now.backend is Some && now.handles().len() == 2
        }),
{
    let now = run(manager.begin_start().0, replies);
    lemma_start_keeps_every_launch(manager, replies);
    lemma_present_of_three(now.phoenixd, now.backend, now.frontend);
}

/// Starting and then stopping leaves no handle behind and loses no process:
/// whatever the host replied during the start, the handles returned for
/// killing are exactly the processes it launched, the last one first.
pub proof fn lemma_start_then_stop_leaves_nothing(
    manager: ProcessManagerView,
    replies: Seq<ReplyView>,
)
    requires
        manager.handles() == Seq::<u32>::empty(),
    ensures
        run(manager.begin_start().0, replies).handles_to_stop() == launched(
            manager.begin_start().0,
            replies,
        ).reverse(),
        run(manager.begin_start().0, replies).stopped().handles() == Seq::<u32>::empty(),
{
    let after = run(manager.begin_start().0, replies);
    lemma_start_keeps_every_launch(manager, replies);
    lemma_stop_order_is_reverse_start_order(after);
    lemma_stop_all_is_idempotent(after);
}

impl ProcessManager {
    /// A supervisor for the resources found from `resource_dir`, given the
    /// files that exist. It holds no handle.
    pub fn new(resource_dir: String, data_dir: String, platform: Platform, files: &FileSet) -> (manager:
        ProcessManager)
        ensures
            manager@ == ProcessManagerView::fresh(
                layout_at(resolved_root(resource_dir@, platform, files@), platform),
                data_dir@,
            ),
    {
        let root = find_resource_dir(resource_dir.as_str(), platform, files);
        ProcessManager {
            layout: ResourceLayout::at(root.as_str(), platform),
            data_dir,
            phoenixd: None,
            backend: None,
            frontend: None,
            phase: StartPhase::Idle,
            located: None,
            runtime: String::new(),
            credential: String::new(),
        }
    }

    /// What the supervisor is waiting for.
    pub fn phase(&self) -> (phase: StartPhase)
        ensures
            phase == self@.phase,
    {
        self.phase
    }

    /// The paths of the resources.
    pub fn layout(&self) -> (layout: &ResourceLayout)
        ensures
            layout@ == self@.layout,
    {
        &self.layout
    }

    /// Begins to start the services: the node daemon, then the backend, then
    /// the frontend.
    pub fn start_all(&mut self) -> (step: Step)
        ensures
            (final(self)@, step@) == old(self)@.begin_start(),
    {
        self.credential = String::new();
        self.phase = StartPhase::PhoenixdLocate;
        Step::Ask(Request::Locate("phoenixd".to_owned()))
    }

    /// Takes the host's reply to the last request and returns the next step
    /// of the start under way.
    pub fn resume(&mut self, reply: Reply) -> (step: Step)
        ensures
            (final(self)@, step@) == old(self)@.resume(reply@),
    {
        match self.phase {
            StartPhase::Idle => Step::Done(Outcome::Idle),
            StartPhase::PhoenixdLocate
            | StartPhase::PhoenixdProbe
            | StartPhase::PhoenixdHome
            | StartPhase::PhoenixdSpawn
            | StartPhase::PhoenixdSettle => self.resume_phoenixd(reply),
            StartPhase::BackendLocate
            | StartPhase::BackendProbe
            | StartPhase::BackendConfig
            | StartPhase::BackendDatabase
            | StartPhase::BackendCopy
            | StartPhase::BackendSpawn
            | StartPhase::BackendSettle => self.resume_backend(reply),
            StartPhase::FrontendLocate
            | StartPhase::FrontendProbe
            | StartPhase::FrontendSpawn => self.resume_frontend(reply),
        }
    }

    /// Forgets all handles and any start under way, and returns the handles
    /// that were held, in the order in which their processes are to be killed
    /// and waited for: frontend, backend, node daemon. With no handle held,
    /// nothing changes and nothing is returned.
    pub fn stop_all(&mut self) -> (handles: Vec<u32>)
        ensures
            final(self)@ == old(self)@.stopped(),
            handles@ == old(self)@.handles_to_stop(),
    {
        let mut handles: Vec<u32> = Vec::new();
        proof {
            lemma_present_of_three(self@.frontend, self@.backend, self@.phoenixd);
        }
        if let Some(pid) = self.frontend {
            handles.push(pid);
        }
        if let Some(pid) = self.backend {
            handles.push(pid);
        }
        if let Some(pid) = self.phoenixd {
            handles.push(pid);
        }
        self.frontend = None;
        self.backend = None;
        self.phoenixd = None;
        self.phase = StartPhase::Idle;
        self.credential = String::new();
        handles
    }

    /// The state of the three services, by their handles alone.
    pub fn get_status(&self) -> (report: StatusReport)
        ensures
            report == self@.status(),
    {
        StatusReport {
            phoenixd: handle_status(self.phoenixd),
            backend: handle_status(self.backend),
            frontend: handle_status(self.frontend),
        }
    }

    /// What the node daemon's binary resolves to, given the files that exist
    /// and where the host located the daemon on the execution path.
    pub fn get_phoenixd_binary_path(&self, files: &FileSet, located: &Option<String>) -> (path:
        String)
        ensures
            path@ == resolved_phoenixd(
                self@.layout.phoenixd_binary,
                files@,
                located.deep_view(),
            ),
    {
        if files.contains(self.layout.phoenixd_binary.as_str()) {
            self.layout.phoenixd_binary.clone()
        } else {
            match located {
                Some(path) => path.clone(),
                None => self.layout.phoenixd_binary.clone(),
            }
        }
    }

    /// What the runtime resolves to, given the files that exist and where the
    /// host located the runtime on the execution path.
    pub fn find_node_binary(&self, files: &FileSet, located: &Option<String>) -> (node: Result<
        String,
        SupervisorError,
    >)
        ensures
            match node {
                Ok(path) => resolved_node(self@.layout.node_binary, files@, located.deep_view())
                    == Ok::<Seq<char>, SupervisorErrorView>(path@),
                Err(error) => resolved_node(self@.layout.node_binary, files@, located.deep_view())
                    == Err::<Seq<char>, SupervisorErrorView>(error@),
            },
    {
        if files.contains(self.layout.node_binary.as_str()) {
            Ok(self.layout.node_binary.clone())
        } else {
            match located {
                Some(path) => Ok(path.clone()),
                None => Err(
                    SupervisorError::ResourceNotFound {
                        resource: Resource::NodeRuntime,
                        path: self.layout.node_binary.clone(),
                    },
                ),
            }
        }
    }

    /// The credential in the content of the node daemon's configuration
    /// file; `None` stands for a file that is missing or unreadable.
    pub fn read_phoenixd_password(content: Option<&str>) -> (password: String)
        ensures
            password@ == credential_of(
                match content {
                    Some(text) => Some(text@),
                    None => None,
                },
            ),
    {
        read_credential(content)
    }

    fn database_file(&self) -> (path: String)
        ensures
            path@ == self@.database_file(),
    {
        join(self.data_dir.as_str(), "dashboard.db")
    }

    fn fail(&mut self, error: SupervisorError) -> (step: Step)
        ensures
            (final(self)@, step@) == old(self)@.fail(error@),
    {
        self.phase = StartPhase::Idle;
        Step::Done(Outcome::Finished(Err(error)))
    }

    fn phoenixd_command(&self) -> (command: CommandLine)
        ensures
            command@ == self@.phoenixd_command(),
    {
        let mut command = CommandLine::new(self.runtime.as_str());
        command.arg("--agree-to-terms-of-service");
        command.arg("--http-bind-ip");
        command.arg("127.0.0.1");
        command.env("HOME", self.data_dir.as_str());
        command
    }

    fn backend_command(&self) -> (command: CommandLine)
        ensures
            command@ == self@.backend_command(),
    {
        let database = self.database_file();
        let mut database_url = String::from_str("file:");
        database_url.append(database.as_str());
        let mut command = CommandLine::new(self.runtime.as_str());
        command.arg(self.layout.backend_entry.as_str());
        command.current_dir(self.layout.backend_dir.as_str());
        command.env("NODE_ENV", "production");
        command.env("PORT", "4000");
        command.env("DESKTOP_MODE", "true");
        command.env("DATABASE_URL", database_url.as_str());
        command.env("PHOENIXD_URL", "http://127.0.0.1:9740");
        command.env("PHOENIXD_PASSWORD", self.credential.as_str());
        command.env("FRONTEND_URL", "http://localhost:3000");
        command
    }

    fn frontend_command(&self, node: &str) -> (command: CommandLine)
        ensures
            command@ == self@.frontend_command(node@),
    {
        let mut command = CommandLine::new(node);
        command.arg(self.layout.frontend_entry.as_str());
        command.current_dir(self.layout.frontend_dir.as_str());
        command.env("NODE_ENV", "production");
        command.env("PORT", "3000");
        command.env("HOSTNAME", "localhost");
        command.env("NEXT_PUBLIC_API_URL", "http://localhost:4000");
        command.env("NEXT_PUBLIC_WS_URL", "ws://localhost:4000");
        command
    }

    fn resume_phoenixd(&mut self, reply: Reply) -> (step: Step)
        ensures
            (final(self)@, step@) == old(self)@.resume_phoenixd(reply@),
    {
        match self.phase {
            StartPhase::PhoenixdLocate => {
                let located = reply.into_located();
                let mut paths: Vec<String> = Vec::new();
                paths.push(self.layout.phoenixd_binary.clone());
                match &located {
                    Some(path) => {
                        paths.push(path.clone());
                        assert(paths.deep_view() =~= seq![self@.layout.phoenixd_binary, path@]);
                    },
                    None => {
                        assert(paths.deep_view() =~= seq![self@.layout.phoenixd_binary]);
                    },
                }
                self.located = located;
                self.phase = StartPhase::PhoenixdProbe;
                Step::Ask(Request::Probe(paths))
            },
            StartPhase::PhoenixdProbe => {
                let files = reply.into_files();
                let binary = self.get_phoenixd_binary_path(&files, &self.located);
                if files.contains(binary.as_str()) {
                    self.runtime = binary;
                    self.phase = StartPhase::PhoenixdHome;
                    Step::Ask(Request::CreateDirAll(self.data_dir.clone()))
                } else {
                    self.fail(
                        SupervisorError::ResourceNotFound {
                            resource: Resource::PhoenixdBinary,
                            path: binary,
                        },
                    )
                }
            },
            StartPhase::PhoenixdHome => {
                match reply {
                    Reply::Completed => {
                        let command = self.phoenixd_command();
                        self.phase = StartPhase::PhoenixdSpawn;
                        Step::Ask(Request::Spawn(command))
                    },
                    other => {
                        let reason = other.into_failure();
                        self.fail(
                            SupervisorError::ProcessSpawnFailure { stage: Stage::DataDir, reason },
                        )
                    },
                }
            },
            StartPhase::PhoenixdSpawn => {
                match reply {
                    Reply::Spawned(pid) => {
                        self.phoenixd = Some(pid);
                        self.phase = StartPhase::PhoenixdSettle;
                        Step::Ask(Request::Sleep(PHOENIXD_SETTLE_SECONDS))
                    },
                    other => {
                        let reason = other.into_failure();
                        self.fail(
                            SupervisorError::ProcessSpawnFailure { stage: Stage::Phoenixd, reason },
                        )
                    },
                }
            },
            _ => {
                self.phase = StartPhase::BackendLocate;
                Step::Ask(Request::Locate("node".to_owned()))
            },
        }
    }

    fn resume_backend(&mut self, reply: Reply) -> (step: Step)
        ensures
            (final(self)@, step@) == old(self)@.resume_backend(reply@),
    {
        match self.phase {
            StartPhase::BackendLocate => {
                let mut paths: Vec<String> = Vec::new();
                paths.push(self.layout.node_binary.clone());
                paths.push(self.layout.backend_entry.clone());
                assert(paths.deep_view() =~= seq![
                    self@.layout.node_binary,
                    self@.layout.backend_entry,
                ]);
                self.located = reply.into_located();
                self.phase = StartPhase::BackendProbe;
                Step::Ask(Request::Probe(paths))
            },
            StartPhase::BackendProbe => {
                let files = reply.into_files();
                match self.find_node_binary(&files, &self.located) {
                    Err(error) => self.fail(error),
                    Ok(node) => {
                        if files.contains(self.layout.backend_entry.as_str()) {
                            let config = join2(
                                self.data_dir.as_str(),
                                ".phoenix",
                                "phoenix.conf",
                            );
                            self.runtime = node;
                            self.phase = StartPhase::BackendConfig;
                            Step::Ask(Request::ReadText(config))
                        } else {
                            let path = self.layout.backend_entry.clone();
                            self.fail(
                                SupervisorError::ResourceNotFound {
                                    resource: Resource::BackendEntry,
                                    path,
                                },
                            )
                        }
                    },
                }
            },
            StartPhase::BackendConfig => {
                let text = reply.into_text();
                let credential = match &text {
                    Some(content) => read_credential(Some(content.as_str())),
                    None => read_credential(None),
                };
                let mut paths: Vec<String> = Vec::new();
                paths.push(self.database_file());
                paths.push(self.layout.template_db.clone());
                assert(paths.deep_view() =~= seq![
                    self@.database_file(),
                    self@.layout.template_db,
                ]);
                self.credential = credential;
                self.phase = StartPhase::BackendDatabase;
                Step::Ask(Request::Probe(paths))
            },
            StartPhase::BackendDatabase => {
                let files = reply.into_files();
                let database = self.database_file();
                if !files.contains(database.as_str()) && files.contains(
                    self.layout.template_db.as_str(),
                ) {
                    self.phase = StartPhase::BackendCopy;
                    Step::Ask(
                        Request::CopyFile { from: self.layout.template_db.clone(), to: database },
                    )
                } else {
                    let command = self.backend_command();
                    self.phase = StartPhase::BackendSpawn;
                    Step::Ask(Request::Spawn(command))
                }
            },
            StartPhase::BackendCopy => {
                let command = self.backend_command();
                self.phase = StartPhase::BackendSpawn;
                Step::Ask(Request::Spawn(command))
            },
            StartPhase::BackendSpawn => {
                self.credential = String::new();
                match reply {
                    Reply::Spawned(pid) => {
                        self.backend = Some(pid);
                        self.phase = StartPhase::BackendSettle;
                        Step::Ask(Request::Sleep(BACKEND_SETTLE_SECONDS))
                    },
                    other => {
                        let reason = other.into_failure();
                        self.fail(
                            SupervisorError::ProcessSpawnFailure { stage: Stage::Backend, reason },
                        )
                    },
                }
            },
            _ => {
                self.phase = StartPhase::FrontendLocate;
                Step::Ask(Request::Locate("node".to_owned()))
            },
        }
    }

    fn resume_frontend(&mut self, reply: Reply) -> (step: Step)
        ensures
            (final(self)@, step@) == old(self)@.resume_frontend(reply@),
    {
        match self.phase {
            StartPhase::FrontendLocate => {
                let mut paths: Vec<String> = Vec::new();
                paths.push(self.layout.node_binary.clone());
                paths.push(self.layout.frontend_entry.clone());
                assert(paths.deep_view() =~= seq![
                    self@.layout.node_binary,
                    self@.layout.frontend_entry,
                ]);
                self.located = reply.into_located();
                self.phase = StartPhase::FrontendProbe;
                Step::Ask(Request::Probe(paths))
            },
            StartPhase::FrontendProbe => {
                let files = reply.into_files();
                match self.find_node_binary(&files, &self.located) {
                    Err(error) => self.fail(error),
                    Ok(node) => {
                        if files.contains(self.layout.frontend_entry.as_str()) {
                            let command = self.frontend_command(node.as_str());
                            self.runtime = node;
                            self.phase = StartPhase::FrontendSpawn;
                            Step::Ask(Request::Spawn(command))
                        } else {
                            let path = self.layout.frontend_entry.clone();
                            self.fail(
                                SupervisorError::ResourceNotFound {
                                    resource: Resource::FrontendEntry,
                                    path,
                                },
                            )
                        }
                    },
                }
            },
            _ => {
                match reply {
                    Reply::Spawned(pid) => {
                        self.frontend = Some(pid);
                        self.phase = StartPhase::Idle;
                        Step::Done(Outcome::Finished(Ok(())))
                    },
                    other => {
                        let reason = other.into_failure();
                        self.fail(
                            SupervisorError::ProcessSpawnFailure { stage: Stage::Frontend, reason },
                        )
                    },
                }
            },
        }
    }
}

/// What a handle says of its service.
fn handle_status(handle: Option<u32>) -> (status: Option<ProcessStatus>)
    ensures
        status == status_of_handle(handle),
{
    match handle {
        Some(pid) => Some(ProcessStatus { running: pid > 0, pid }),
        None => None,
    }
}

} // verus!

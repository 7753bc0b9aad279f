//! The container supervisor.
//!
//! The three services run as one unit that a compose definition describes.
//! The supervisor finds the definition, pulls and starts the containers, stops
//! them, and reports their state. Every operation is a short conversation
//! with the host: the method that begins it returns the first [`Step`], and
//! [`DockerManager::resume`] takes each reply and returns the next one, until
//! the step is [`Step::Done`].

use crate::error::{CheckedCommand, Resource, Stage, SupervisorError, SupervisorErrorView};
use crate::host::{
    CommandLine, CommandLineView, FileSet, Outcome, OutcomeView, Reply, ReplyView, Request,
    RequestView, Step, StepView,
};
use crate::json::{parse, parsed_members, string_member};
use crate::paths::{join, join3, joined3, joined_path};
use crate::platform::Platform;
use crate::text::{lines, lines_of};
use vstd::prelude::*;

verus! {

/// A snapshot of one container, made afresh by every status query.
#[derive(Clone, Debug, PartialEq, Eq)]
pub struct ContainerStatus {
    pub name: String,
    pub status: String,
    pub health: Option<String>,
}

/// The mathematical content of a [`ContainerStatus`].
pub struct ContainerStatusView {
    pub name: Seq<char>,
    pub status: Seq<char>,
    pub health: Option<Seq<char>>,
}

impl DeepView for ContainerStatus {
    type V = ContainerStatusView;

    open spec fn deep_view(&self) -> ContainerStatusView {
        ContainerStatusView {
            name: self.name@,
            status: self.status@,
            health: self.health.deep_view(),
        }
    }
}

impl View for ContainerStatus {
    type V = ContainerStatusView;

    open spec fn view(&self) -> ContainerStatusView {
        self.deep_view()
    }
}

/// How the container engine is installed on a platform.
#[derive(Clone, Debug, PartialEq, Eq)]
pub struct DockerInstallInfo {
    pub platform: String,
    /// Whether an unattended installer can be trusted on this platform.
    pub can_auto_install: bool,
    /// The shell command of the unattended installation.
    pub install_command: Option<String>,
    /// Where the installer is downloaded by hand.
    pub download_url: String,
    pub instructions: String,
}

/// The mathematical content of a [`DockerInstallInfo`].
pub struct DockerInstallInfoView {
    pub platform: Seq<char>,
    pub can_auto_install: bool,
    pub install_command: Option<Seq<char>>,
    pub download_url: Seq<char>,
    pub instructions: Seq<char>,
}

impl View for DockerInstallInfo {
    type V = DockerInstallInfoView;

    open spec fn view(&self) -> DockerInstallInfoView {
        DockerInstallInfoView {
            platform: self.platform@,
            can_auto_install: self.can_auto_install,
            install_command: self.install_command.deep_view(),
            download_url: self.download_url@,
            instructions: self.instructions@,
        }
    }
}

/// The name under which a platform is shown.
pub open spec fn platform_label(platform: Platform) -> Seq<char> {
    match platform {
        Platform::Linux => "Linux"@,
        Platform::MacOsArm64 => "macOS"@,
        Platform::MacOsAmd64 => "macOS"@,
        Platform::Windows => "Windows"@,
    }
}

/// Where the installer for a platform is downloaded.
pub open spec fn download_url(platform: Platform) -> Seq<char> {
    match platform {
        Platform::Linux => "https://docs.docker.com/engine/install/"@,
        Platform::MacOsArm64 => "https://desktop.docker.com/mac/main/arm64/Docker.dmg"@,
        Platform::MacOsAmd64 => "https://desktop.docker.com/mac/main/amd64/Docker.dmg"@,
        Platform::Windows => "https://desktop.docker.com/win/main/amd64/Docker%20Desktop%20Installer.exe"@,
    }
}

/// What the user is told about installing on a platform.
pub open spec fn install_instructions(platform: Platform) -> Seq<char> {
    match platform {
        Platform::Linux => "Docker será instalado automaticamente. Você precisará digitar sua senha de administrador."@,
        Platform::MacOsArm64 => "1. O instalador será baixado\n2. Abra o arquivo Docker.dmg\n3. Arraste Docker para Applications\n4. Abra o Docker e aguarde iniciar"@,
        Platform::MacOsAmd64 => "1. O instalador será baixado\n2. Abra o arquivo Docker.dmg\n3. Arraste Docker para Applications\n4. Abra o Docker e aguarde iniciar"@,
        Platform::Windows => "1. O instalador será baixado\n2. Execute o instalador\n3. Siga as instruções na tela\n4. Reinicie o computador se necessário"@,
    }
}

/// The table of installation facts. Only Linux has an unattended installer.
pub open spec fn install_info(platform: Platform) -> DockerInstallInfoView {
    DockerInstallInfoView {
        platform: platform_label(platform),
        can_auto_install: platform == Platform::Linux,
        install_command: if platform == Platform::Linux {
            Some(
                "curl -fsSL https://get.docker.com | sudo sh && sudo usermod -aG docker $USER"@,
            )
        } else {
            None
        },
        download_url: download_url(platform),
        instructions: install_instructions(platform),
    }
}

/// The compose file to use among the two candidates, given the files that
/// exist: the bundled one, else the direct one, else the bundled one although
/// it is missing.
pub open spec fn chosen_compose_file(
    bundled: Seq<char>,
    direct: Seq<char>,
    files: Set<Seq<char>>,
) -> Seq<char> {
    if files.contains(bundled) {
        bundled
    } else if files.contains(direct) {
        direct
    } else {
        bundled
    }
}

/// The chosen compose file exists exactly when one of the candidates does.
pub proof fn lemma_chosen_compose_file_exists(
    bundled: Seq<char>,
    direct: Seq<char>,
    files: Set<Seq<char>>,
)
    ensures
        files.contains(chosen_compose_file(bundled, direct, files)) <==> (files.contains(bundled)
            || files.contains(direct)),
{
}

/// The status that a record with these string members describes. A record
/// without a name or a state is reported as `unknown`.
pub open spec fn status_of(members: Map<Seq<char>, Seq<char>>) -> ContainerStatusView {
    ContainerStatusView {
        name: if members.contains_key("Name"@) {
            members["Name"@]
        } else {
            "unknown"@
        },
        status: if members.contains_key("State"@) {
            members["State"@]
        } else {
            "unknown"@
        },
        health: if members.contains_key("Health"@) {
            Some(members["Health"@])
        } else {
            None
        },
    }
}

/// The statuses that a sequence of lines describes: one for each line that is
/// a JSON document, in order. Lines that are none are skipped.
pub open spec fn statuses_of(lines: Seq<Seq<char>>) -> Seq<ContainerStatusView>
    decreases lines.len(),
{
    if lines.len() == 0 {
        Seq::empty()
    } else {
        let before = statuses_of(lines.drop_last());
        match parsed_members(lines.last()) {
            Some(members) => before.push(status_of(members)),
            None => before,
        }
    }
}

/// Every line is read by itself: the statuses of two runs of lines, one
/// after the other, are those of the first run followed by those of the
/// second.
pub proof fn lemma_statuses_of_concat(first: Seq<Seq<char>>, second: Seq<Seq<char>>)
    ensures
        statuses_of(first + second) == statuses_of(first) + statuses_of(second),
    decreases second.len(),
{
    if second.len() > 0 {
        assert((first + second).drop_last() =~= first + second.drop_last());
        lemma_statuses_of_concat(first, second.drop_last());
    }
}

/// A line that is no JSON document is skipped, and what stands before and
/// after it is read as if the line were not there.
pub proof fn lemma_malformed_line_is_skipped(
    before: Seq<Seq<char>>,
    line: Seq<char>,
    after: Seq<Seq<char>>,
)
    requires
        parsed_members(line) is None,
    ensures
        statuses_of(before + seq![line] + after) == statuses_of(before + after),
{
    lemma_statuses_of_concat(before + seq![line], after);
    lemma_statuses_of_concat(before, seq![line]);
    lemma_statuses_of_concat(before, after);
    assert(statuses_of(seq![line].drop_last()) =~= Seq::<ContainerStatusView>::empty());
}

/// A line that is a JSON document gives exactly one status, whatever the
/// lines around it are.
pub proof fn lemma_record_gives_one_status(line: Seq<char>)
    requires
        parsed_members(line) is Some,
    ensures
        statuses_of(seq![line]) == seq![status_of(parsed_members(line)->0)],
{
    assert(statuses_of(seq![line].drop_last()) =~= Seq::<ContainerStatusView>::empty());
}

/// What a status query reports for the host's reply: the parsed records of a
/// command that succeeded, nothing otherwise.
pub open spec fn statuses_in(reply: ReplyView) -> Seq<ContainerStatusView> {
    match reply {
        ReplyView::Captured { success, stdout } => if success {
            statuses_of(lines(stdout))
        } else {
            Seq::empty()
        },
        _ => Seq::empty(),
    }
}

/// How a command that must succeed ended: well, with a failure status, or
/// without having run at all.
pub open spec fn checked_result(reply: ReplyView, stage: Stage, command: CheckedCommand) -> Result<
    (),
    SupervisorErrorView,
> {
    match reply {
        ReplyView::Exited(success) => if success {
            Ok(())
        } else {
            Err(SupervisorErrorView::ProcessExitFailure { command })
        },
        _ => Err(SupervisorErrorView::ProcessSpawnFailure { stage, reason: reply.failure() }),
    }
}

/// What the supervisor is waiting for.
#[derive(Clone, Copy, Debug, PartialEq, Eq, Structural)]
pub enum DockerPhase {
    /// Nothing: no operation is under way.
    Idle,
    /// The exit of `docker info`.
    Availability,
    /// The exit of `docker --version`.
    Installation,
    /// The compose files that exist, in order to start.
    StartProbe,
    /// The exit of the pull.
    StartPull,
    /// The exit of the start.
    StartUp,
    /// The compose files that exist, in order to stop.
    StopProbe,
    /// The exit of the stop.
    StopDown,
    /// The compose files that exist, in order to stop and start again.
    RestartProbe,
    /// The exit of the stop that precedes a start.
    RestartDown,
    /// The output of the status query.
    Status,
    /// The exit of the installer script.
    InstallScript,
    /// The name of the user.
    InstallUser,
    /// The exit of the change of groups.
    InstallGroup,
    /// The browser to open on the download page.
    InstallOpen,
    /// Whether the engine can be reached, in order to act on it.
    ActionAvailability,
    /// Whether the engine is installed, in order to act on it.
    ActionInstallation,
    /// The launch of the engine's desktop application.
    ActionDesktop,
}

/// What the user can do about the engine, given its state.
#[derive(Clone, Copy, Debug, PartialEq, Eq, Structural)]
pub enum EngineAction {
    /// The engine runs: its containers can be restarted.
    RestartContainers,
    /// The engine is installed but does not run: it can be started.
    StartDesktop,
    /// The engine is not installed: it can be installed.
    Install,
}

/// What the user can do about an engine that is or is not in reach, and is
/// or is not installed.
pub open spec fn engine_action_for(available: bool, installed: bool) -> EngineAction {
    if available {
        EngineAction::RestartContainers
    } else if installed {
        EngineAction::StartDesktop
    } else {
        EngineAction::Install
    }
}

/// The request that starts the engine's desktop application on a platform.
pub open spec fn desktop_request(platform: Platform) -> RequestView {
    match platform {
        Platform::Linux => RequestView::Launch(
            CommandLineView::bare("systemctl"@).arg("--user"@).arg("start"@).arg(
                "docker-desktop"@,
            ),
        ),
        Platform::MacOsArm64 => RequestView::OpenUrl("/Applications/Docker.app"@),
        Platform::MacOsAmd64 => RequestView::OpenUrl("/Applications/Docker.app"@),
        Platform::Windows => RequestView::Launch(
            CommandLineView::bare("cmd"@).arg("/C"@).arg("start"@).arg("Docker Desktop"@),
        ),
    }
}

/// Supervises the services as containers.
#[derive(Debug)]
pub struct DockerManager {
    project_dir: String,
    platform: Platform,
    phase: DockerPhase,
    compose_file: String,
}

/// The mathematical content of a [`DockerManager`].
pub struct DockerManagerView {
    pub project_dir: Seq<char>,
    pub platform: Platform,
    pub phase: DockerPhase,
    /// The compose file that the operation under way has settled on.
    pub compose_file: Seq<char>,
}

impl View for DockerManager {
    type V = DockerManagerView;

    closed spec fn view(&self) -> DockerManagerView {
        DockerManagerView {
            project_dir: self.project_dir@,
            platform: self.platform,
            phase: self.phase,
            compose_file: self.compose_file@,
        }
    }
}

impl DockerManagerView {
    /// A supervisor at rest that has settled on no compose file yet.
    pub open spec fn fresh(project_dir: Seq<char>, platform: Platform) -> DockerManagerView {
        DockerManagerView {
            project_dir,
            platform,
            phase: DockerPhase::Idle,
            compose_file: Seq::empty(),
        }
    }

    /// The compose file where packaging relocates bundled resources.
    pub open spec fn bundled_compose_file(self) -> Seq<char> {
        joined3(self.project_dir, "_up_"@, "resources"@, "docker-compose.yml"@)
    }

    /// The compose file directly in the project directory.
    pub open spec fn direct_compose_file(self) -> Seq<char> {
        joined_path(self.project_dir, "docker-compose.yml"@)
    }

    /// The compose file to use, given the files that exist.
    pub open spec fn find_compose_file(self, files: Set<Seq<char>>) -> Seq<char> {
        chosen_compose_file(self.bundled_compose_file(), self.direct_compose_file(), files)
    }

    /// `docker compose -f <file>` in the project directory, arguments to follow.
    pub open spec fn compose_command(self, file: Seq<char>) -> CommandLineView {
        CommandLineView::bare("docker"@).arg("compose"@).arg("-f"@).arg(file).in_dir(
            self.project_dir,
        )
    }

    /// The command that pulls the images.
    pub open spec fn pull_command(self, file: Seq<char>) -> CommandLineView {
        self.compose_command(file).arg("pull"@)
    }

    /// The command that starts the containers in the background.
    pub open spec fn up_command(self, file: Seq<char>) -> CommandLineView {
        self.compose_command(file).arg("up"@).arg("-d"@)
    }

    /// The command that stops the containers.
    pub open spec fn down_command(self, file: Seq<char>) -> CommandLineView {
        self.compose_command(file).arg("down"@)
    }

    /// The status query, with one JSON record per line.
    pub open spec fn status_command(self) -> CommandLineView {
        CommandLineView::bare("docker"@).arg("compose"@).arg("ps"@).arg("--format"@).arg(
            "json"@,
        ).in_dir(self.project_dir)
    }

    /// The request that asks which of the two compose files exist.
    pub open spec fn compose_probe(self) -> RequestView {
        RequestView::Probe(seq![self.bundled_compose_file(), self.direct_compose_file()])
    }

    /// This supervisor, waiting for `phase`.
    pub open spec fn waiting(self, phase: DockerPhase) -> DockerManagerView {
        DockerManagerView { phase, ..self }
    }

    /// This supervisor at rest, with the outcome of the operation that ended.
    pub open spec fn done(self, outcome: OutcomeView) -> (DockerManagerView, StepView) {
        (self.waiting(DockerPhase::Idle), StepView::Done(outcome))
    }

    /// Asking whether the engine's daemon can be reached.
    pub open spec fn begin_availability(self) -> (DockerManagerView, StepView) {
        (
            self.waiting(DockerPhase::Availability),
            StepView::Ask(RequestView::Check(availability_command())),
        )
    }

    /// Asking whether the engine is installed.
    pub open spec fn begin_installation(self) -> (DockerManagerView, StepView) {
        (
            self.waiting(DockerPhase::Installation),
            StepView::Ask(RequestView::Check(version_command())),
        )
    }

    /// Starting begins with the search for the compose file.
    pub open spec fn begin_start(self) -> (DockerManagerView, StepView) {
        (self.waiting(DockerPhase::StartProbe), StepView::Ask(self.compose_probe()))
    }

    /// Restarting stops the containers, whether that goes well or not, and
    /// starts them.
    pub open spec fn begin_restart(self) -> (DockerManagerView, StepView) {
        (self.waiting(DockerPhase::RestartProbe), StepView::Ask(self.compose_probe()))
    }

    /// Stopping begins with the search for the compose file.
    pub open spec fn begin_stop(self) -> (DockerManagerView, StepView) {
        (self.waiting(DockerPhase::StopProbe), StepView::Ask(self.compose_probe()))
    }

    /// Asking for the state of the containers.
    pub open spec fn begin_status(self) -> (DockerManagerView, StepView) {
        (
            self.waiting(DockerPhase::Status),
            StepView::Ask(RequestView::Capture(self.status_command())),
        )
    }

    /// Acting on the engine begins with the question whether it can be
    /// reached.
    pub open spec fn begin_action(self) -> (DockerManagerView, StepView) {
        (
            self.waiting(DockerPhase::ActionAvailability),
            StepView::Ask(RequestView::Check(availability_command())),
        )
    }

    /// Sending the user to the download page ends with the instructions for
    /// installing by hand.
    pub open spec fn begin_download(self) -> (DockerManagerView, StepView) {
        (
            self.waiting(DockerPhase::InstallOpen),
            StepView::Ask(RequestView::OpenUrl(install_info(self.platform).download_url)),
        )
    }

    /// Installing begins with the installer script where it can be trusted,
    /// and with the download page everywhere else.
    pub open spec fn begin_install(self) -> (DockerManagerView, StepView) {
        if install_info(self.platform).can_auto_install {
            (
                self.waiting(DockerPhase::InstallScript),
                StepView::Ask(RequestView::Run(install_script_command())),
            )
        } else {
            self.begin_download()
        }
    }

    /// The supervisor and its next step, once the host has replied.
    pub open spec fn resume(self, reply: ReplyView) -> (DockerManagerView, StepView) {
        match self.phase {
            DockerPhase::Idle => (self, StepView::Done(OutcomeView::Idle)),
            DockerPhase::Availability => self.done(OutcomeView::Flag(reply.succeeded())),
            DockerPhase::Installation => self.done(OutcomeView::Flag(reply.succeeded())),
            DockerPhase::StartProbe => {
                let file = self.find_compose_file(reply.files());
                if reply.files().contains(file) {
                    (
                        DockerManagerView {
                            phase: DockerPhase::StartPull,
                            compose_file: file,
                            ..self
                        },
                        StepView::Ask(RequestView::Run(self.pull_command(file))),
                    )
                } else {
                    self.done(
                        OutcomeView::Finished(
                            Err(
                                SupervisorErrorView::ResourceNotFound {
                                    resource: Resource::ComposeFile,
                                    path: file,
                                },
                            ),
                        ),
                    )
                }
            },
            DockerPhase::StartPull => (
                self.waiting(DockerPhase::StartUp),
                StepView::Ask(RequestView::Run(self.up_command(self.compose_file))),
            ),
            DockerPhase::StartUp => self.done(
                OutcomeView::Finished(
                    checked_result(reply, Stage::ComposeUp, CheckedCommand::ComposeUp),
                ),
            ),
            DockerPhase::StopProbe => {
                let file = self.find_compose_file(reply.files());
                if reply.files().contains(file) {
                    (
                        DockerManagerView {
                            phase: DockerPhase::StopDown,
                            compose_file: file,
                            ..self
                        },
                        StepView::Ask(RequestView::Run(self.down_command(file))),
                    )
                } else {
                    self.done(OutcomeView::Finished(Ok(())))
                }
            },
            DockerPhase::StopDown => self.done(
                OutcomeView::Finished(
                    checked_result(reply, Stage::ComposeDown, CheckedCommand::ComposeDown),
                ),
            ),
            DockerPhase::RestartProbe => {
                let file = self.find_compose_file(reply.files());
                if reply.files().contains(file) {
                    (
                        DockerManagerView {
                            phase: DockerPhase::RestartDown,
                            compose_file: file,
                            ..self
                        },
                        StepView::Ask(RequestView::Run(self.down_command(file))),
                    )
                } else {
                    self.begin_start()
                }
            },
            DockerPhase::RestartDown => self.begin_start(),
            DockerPhase::Status => self.done(OutcomeView::Statuses(statuses_in(reply))),
            DockerPhase::InstallScript => match checked_result(
                reply,
                Stage::InstallScript,
                CheckedCommand::InstallScript,
            ) {
                Ok(_) => (
                    self.waiting(DockerPhase::InstallUser),
                    StepView::Ask(RequestView::ReadEnv("USER"@)),
                ),
                Err(e) => self.done(OutcomeView::Finished(Err(e))),
            },
            DockerPhase::InstallUser => (
                self.waiting(DockerPhase::InstallGroup),
                StepView::Ask(
                    RequestView::Run(
                        add_user_command(
                            match reply.text() {
                                Some(user) => user,
                                None => "root"@,
                            },
                        ),
                    ),
                ),
            ),
            DockerPhase::InstallGroup => self.done(OutcomeView::Finished(Ok(()))),
            DockerPhase::InstallOpen => self.done(
                OutcomeView::Finished(
                    Err(
                        SupervisorErrorView::ManualActionRequired {
                            instructions: install_info(self.platform).instructions,
                        },
                    ),
                ),
            ),
            DockerPhase::ActionAvailability => match engine_action_for(reply.succeeded(), true) {
                EngineAction::RestartContainers => self.begin_restart(),
                _ => (
                    self.waiting(DockerPhase::ActionInstallation),
                    StepView::Ask(RequestView::Check(version_command())),
                ),
            },
            DockerPhase::ActionInstallation => match engine_action_for(
                false,
                reply.succeeded(),
            ) {
                EngineAction::Install => self.begin_download(),
                _ => (
                    self.waiting(DockerPhase::ActionDesktop),
                    StepView::Ask(desktop_request(self.platform)),
                ),
            },
            DockerPhase::ActionDesktop => self.done(OutcomeView::Finished(Ok(()))),
        }
    }
}

/// `docker info`, which succeeds when the engine's daemon can be reached.
pub open spec fn availability_command() -> CommandLineView {
    CommandLineView::bare("docker"@).arg("info"@)
}

/// `docker --version`, which succeeds when the command-line tool is present.
pub open spec fn version_command() -> CommandLineView {
    CommandLineView::bare("docker"@).arg("--version"@)
}

/// The unattended installer.
pub open spec fn install_script_command() -> CommandLineView {
    CommandLineView::bare("sh"@).arg("-c"@).arg("curl -fsSL https://get.docker.com | sudo sh"@)
}

/// The command that lets `user` reach the engine.
pub open spec fn add_user_command(user: Seq<char>) -> CommandLineView {
    CommandLineView::bare("sudo"@).arg("usermod"@).arg("-aG"@).arg("docker"@).arg(user)
}

/// With no compose file at either place there is nothing to stop, and
/// stopping succeeds without a command being run.
pub proof fn lemma_stop_without_compose_file(manager: DockerManagerView, files: Set<Seq<char>>)
    requires
        !files.contains(manager.bundled_compose_file()),
        !files.contains(manager.direct_compose_file()),
    ensures
        manager.begin_stop().0.resume(ReplyView::Files(files)).1 == StepView::Done(
            OutcomeView::Finished(Ok(())),
        ),
        manager.begin_stop().0.resume(ReplyView::Files(files)).0.phase == DockerPhase::Idle,
{
}

/// With no compose file at either place, starting fails for want of a
/// resource, and no command is run.
pub proof fn lemma_start_without_compose_file(manager: DockerManagerView, files: Set<Seq<char>>)
    requires
        !files.contains(manager.bundled_compose_file()),
        !files.contains(manager.direct_compose_file()),
    ensures
        manager.begin_start().0.resume(ReplyView::Files(files)).1 == StepView::Done(
            OutcomeView::Finished(
                Err(
                    SupervisorErrorView::ResourceNotFound {
                        resource: Resource::ComposeFile,
                        path: manager.bundled_compose_file(),
                    },
                ),
            ),
        ),
        manager.begin_start().0.resume(ReplyView::Files(files)).0.phase == DockerPhase::Idle,
{
}

/// A failed pull does not keep the containers from being started: whatever
/// the host replies to the pull, the next step runs the start.
pub proof fn lemma_pull_is_best_effort(manager: DockerManagerView, reply: ReplyView)
    requires
        manager.phase == DockerPhase::StartPull,
    ensures
        manager.resume(reply).1 == StepView::Ask(
            RequestView::Run(manager.up_command(manager.compose_file)),
        ),
{
}

/// How many replies an operation may still take, at most, before it ends.
pub open spec fn replies_left(phase: DockerPhase) -> nat {
    match phase {
        DockerPhase::Idle => 0,
        DockerPhase::Availability => 1,
        DockerPhase::Installation => 1,
        DockerPhase::StartUp => 1,
        DockerPhase::StartPull => 2,
        DockerPhase::StartProbe => 3,
        DockerPhase::StopDown => 1,
        DockerPhase::StopProbe => 2,
        DockerPhase::RestartDown => 4,
        DockerPhase::RestartProbe => 5,
        DockerPhase::Status => 1,
        DockerPhase::InstallGroup => 1,
        DockerPhase::InstallUser => 2,
        DockerPhase::InstallScript => 3,
        DockerPhase::InstallOpen => 1,
        DockerPhase::ActionDesktop => 1,
        DockerPhase::ActionInstallation => 2,
        DockerPhase::ActionAvailability => 6,
    }
}

/// Every reply brings an operation nearer to its end, and a step that ends
/// the operation leaves the supervisor at rest.
pub proof fn lemma_reply_advances_operation(manager: DockerManagerView, reply: ReplyView)
    ensures
        manager.phase != DockerPhase::Idle ==> replies_left(manager.resume(reply).0.phase)
            < replies_left(manager.phase),
        manager.resume(reply).1 is Done <==> manager.resume(reply).0.phase == DockerPhase::Idle,
{
}

/// The supervisor after a run of replies, beginning with `manager`.
pub open spec fn run(manager: DockerManagerView, replies: Seq<ReplyView>) -> DockerManagerView
    decreases replies.len(),
{
    if replies.len() == 0 {
        manager
    } else {
        run(manager, replies.drop_last()).resume(replies.last()).0
    }
}

/// No operation goes on for ever: it ends within the replies it has left,
/// which are six at most.
pub proof fn lemma_operation_ends(manager: DockerManagerView, replies: Seq<ReplyView>)
    ensures
        replies_left(run(manager, replies).phase) + replies.len() <= replies_left(manager.phase)
            || run(manager, replies).phase == DockerPhase::Idle,
        replies.len() >= replies_left(manager.phase) ==> run(manager, replies).phase
            == DockerPhase::Idle,
        replies_left(manager.phase) <= 6,
    decreases replies.len(),
{
    if replies.len() > 0 {
        lemma_operation_ends(manager, replies.drop_last());
        lemma_reply_advances_operation(run(manager, replies.drop_last()), replies.last());
    }
}

/// A restart goes on to the start whatever the stop came to: once the stop
/// has been replied to, the next step begins the start.
pub proof fn lemma_restart_starts_after_any_stop(manager: DockerManagerView, reply: ReplyView)
    requires
        manager.phase == DockerPhase::RestartDown,
    ensures
        manager.resume(reply) == manager.begin_start(),
{
}

impl ContainerStatus {
    /// The status that a record describes, given the string members it has
    /// under `Name`, `State` and `Health`.
    pub fn from_members(name: Option<String>, state: Option<String>, health: Option<String>) -> (out:
        ContainerStatus)
        ensures
            out@.name == match name {
                Some(n) => n@,
                None => "unknown"@,
            },
            out@.status == match state {
                Some(s) => s@,
                None => "unknown"@,
            },
            out@.health == health.deep_view(),
    {
        ContainerStatus {
            name: match name {
                Some(n) => n,
                None => "unknown".to_owned(),
            },
            status: match state {
                Some(s) => s,
                None => "unknown".to_owned(),
            },
            health,
        }
    }
}

/// Decides what the user can do about the engine, given whether it is in
/// reach and whether it is installed.
pub fn engine_action(available: bool, installed: bool) -> (action: EngineAction)
    ensures
        action == engine_action_for(available, installed),
{
    if available {
        EngineAction::RestartContainers
    } else if installed {
        EngineAction::StartDesktop
    } else {
        EngineAction::Install
    }
}

/// Chooses the compose file among the two candidates, given the files that
/// exist.
pub fn choose_compose_file(bundled: String, direct: String, files: &FileSet) -> (file: String)
    ensures
        file@ == chosen_compose_file(bundled@, direct@, files@),
{
    if files.contains(bundled.as_str()) {
        bundled
    } else if files.contains(direct.as_str()) {
        direct
    } else {
        bundled
    }
}

/// Parses the output of the status query: one JSON record per line. A line
/// that is no JSON document is skipped, and the rest is still read.
pub fn parse_container_status(stdout: &str) -> (out: Vec<ContainerStatus>)
    ensures
        out.deep_view() == statuses_of(lines(stdout@)),
{
    let rows = lines_of(stdout);
    let mut out: Vec<ContainerStatus> = Vec::new();
    let mut i: usize = 0;
    let ghost all = lines(stdout@);
    while i < rows.len()
        invariant
            i <= rows.len(),
            rows.deep_view() == all,
            out.deep_view() == statuses_of(all.take(i as int)),
        decreases rows.len() - i,
    {
        proof {
            assert(all.take(i + 1).drop_last() =~= all.take(i as int));
        }
        match parse(rows[i].as_str()) {
            Ok(value) => {
                let name = string_member(&value, "Name");
                let state = string_member(&value, "State");
                let health = string_member(&value, "Health");
                let status = ContainerStatus::from_members(name, state, health);
                out.push(status);
            },
            Err(_) => {},
        }
        i += 1;
    }
    assert(all.take(i as int) =~= all);
    out
}

impl DockerManager {
    /// A supervisor for the project in `project_dir`, at rest.
    pub fn new(project_dir: String, platform: Platform) -> (manager: DockerManager)
        ensures
            manager@ == DockerManagerView::fresh(project_dir@, platform),
    {
        DockerManager {
            project_dir,
            platform,
            phase: DockerPhase::Idle,
            compose_file: String::new(),
        }
    }

    /// What the supervisor is waiting for.
    pub fn phase(&self) -> (phase: DockerPhase)
        ensures
            phase == self@.phase,
    {
        self.phase
    }

    /// Begins to ask whether the engine's daemon can be reached. The outcome
    /// is a flag.
    pub fn is_docker_available(&mut self) -> (step: Step)
        ensures
            (final(self)@, step@) == old(self)@.begin_availability(),
    {
        self.phase = DockerPhase::Availability;
        let mut command = CommandLine::new("docker");
        command.arg("info");
        Step::Ask(Request::Check(command))
    }

    /// Begins to ask whether the engine is installed, running or not. The
    /// outcome is a flag.
    pub fn is_docker_installed(&mut self) -> (step: Step)
        ensures
            (final(self)@, step@) == old(self)@.begin_installation(),
    {
        self.phase = DockerPhase::Installation;
        let mut command = CommandLine::new("docker");
        command.arg("--version");
        Step::Ask(Request::Check(command))
    }

    /// The compose file to use, given the files that exist.
    pub fn find_compose_file(&self, files: &FileSet) -> (file: String)
        ensures
            file@ == self@.find_compose_file(files@),
    {
        let bundled = self.bundled_compose_file();
        let direct = join(self.project_dir.as_str(), "docker-compose.yml");
        choose_compose_file(bundled, direct, files)
    }

    /// How the engine is installed on this platform.
    pub fn get_install_info(&self) -> (info: DockerInstallInfo)
        ensures
            info@ == install_info(self@.platform),
    {
        match self.platform {
            Platform::Linux => DockerInstallInfo {
                platform: "Linux".to_owned(),
                can_auto_install: true,
                install_command: Some(
                    "curl -fsSL https://get.docker.com | sudo sh && sudo usermod -aG docker $USER".to_owned(),
                ),
                download_url: "https://docs.docker.com/engine/install/".to_owned(),
                instructions: "Docker será instalado automaticamente. Você precisará digitar sua senha de administrador.".to_owned(),
            },
            Platform::MacOsArm64 => DockerInstallInfo {
                platform: "macOS".to_owned(),
                can_auto_install: false,
                install_command: None,
                download_url: "https://desktop.docker.com/mac/main/arm64/Docker.dmg".to_owned(),
                instructions: "1. O instalador será baixado\n2. Abra o arquivo Docker.dmg\n3. Arraste Docker para Applications\n4. Abra o Docker e aguarde iniciar".to_owned(),
            },
            Platform::MacOsAmd64 => DockerInstallInfo {
                platform: "macOS".to_owned(),
                can_auto_install: false,
                install_command: None,
                download_url: "https://desktop.docker.com/mac/main/amd64/Docker.dmg".to_owned(),
                instructions: "1. O instalador será baixado\n2. Abra o arquivo Docker.dmg\n3. Arraste Docker para Applications\n4. Abra o Docker e aguarde iniciar".to_owned(),
            },
            Platform::Windows => DockerInstallInfo {
                platform: "Windows".to_owned(),
                can_auto_install: false,
                install_command: None,
                download_url: "https://desktop.docker.com/win/main/amd64/Docker%20Desktop%20Installer.exe".to_owned(),
                instructions: "1. O instalador será baixado\n2. Execute o instalador\n3. Siga as instruções na tela\n4. Reinicie o computador se necessário".to_owned(),
            },
        }
    }

    /// Begins to act on the engine as its state allows: the containers are
    /// restarted if the engine can be reached; else its desktop application
    /// is started if the engine is installed; else the user is sent to the
    /// download page, which ends with the failure `ManualActionRequired`.
    pub fn docker_action(&mut self) -> (step: Step)
        ensures
            (final(self)@, step@) == old(self)@.begin_action(),
    {
        self.phase = DockerPhase::ActionAvailability;
        let mut command = CommandLine::new("docker");
        command.arg("info");
        Step::Ask(Request::Check(command))
    }

    /// Begins to install the engine: unattended where that is possible, else
    /// by sending the user to the download page. The second way ends with the
    /// failure `ManualActionRequired`, which asks for no retry.
    pub fn install_docker(&mut self) -> (step: Step)
        ensures
            (final(self)@, step@) == old(self)@.begin_install(),
    {
        let info = self.get_install_info();
        if info.can_auto_install {
            self.phase = DockerPhase::InstallScript;
            let mut command = CommandLine::new("sh");
            command.arg("-c");
            command.arg("curl -fsSL https://get.docker.com | sudo sh");
            Step::Ask(Request::Run(command))
        } else {
            self.download()
        }
    }

    /// Begins to start the containers: the images are pulled, then the
    /// containers are started in the background.
    pub fn start_containers(&mut self) -> (step: Step)
        ensures
            (final(self)@, step@) == old(self)@.begin_start(),
    {
        self.phase = DockerPhase::StartProbe;
        Step::Ask(self.compose_probe())
    }

    /// Begins to restart the containers: they are stopped, and then started
    /// whether or not the stop went well.
    pub fn restart_containers(&mut self) -> (step: Step)
        ensures
            (final(self)@, step@) == old(self)@.begin_restart(),
    {
        self.phase = DockerPhase::RestartProbe;
        Step::Ask(self.compose_probe())
    }

    /// Begins to stop the containers.
    pub fn stop_containers(&mut self) -> (step: Step)
        ensures
            (final(self)@, step@) == old(self)@.begin_stop(),
    {
        self.phase = DockerPhase::StopProbe;
        Step::Ask(self.compose_probe())
    }

    /// Begins to query the state of the containers. The outcome is a list of
    /// statuses, empty when the engine cannot be asked.
    pub fn get_container_status(&mut self) -> (step: Step)
        ensures
            (final(self)@, step@) == old(self)@.begin_status(),
    {
        self.phase = DockerPhase::Status;
        let mut command = CommandLine::new("docker");
        command.arg("compose");
        command.arg("ps");
        command.arg("--format");
        command.arg("json");
        command.current_dir(self.project_dir.as_str());
        Step::Ask(Request::Capture(command))
    }

    /// Takes the host's reply to the last request and returns the next step
    /// of the operation under way.
    pub fn resume(&mut self, reply: Reply) -> (step: Step)
        ensures
            (final(self)@, step@) == old(self)@.resume(reply@),
    {
        match self.phase {
            DockerPhase::Idle => Step::Done(Outcome::Idle),
            DockerPhase::Availability | DockerPhase::Installation => {
                self.phase = DockerPhase::Idle;
                Step::Done(Outcome::Flag(reply.succeeded()))
            },
            DockerPhase::StartProbe => {
                let files = reply.into_files();
                let file = self.find_compose_file(&files);
                if files.contains(file.as_str()) {
                    let mut command = self.compose_command(file.as_str());
                    command.arg("pull");
                    self.phase = DockerPhase::StartPull;
                    self.compose_file = file;
                    Step::Ask(Request::Run(command))
                } else {
                    self.phase = DockerPhase::Idle;
                    Step::Done(
                        Outcome::Finished(
                            Err(
                                SupervisorError::ResourceNotFound {
                                    resource: Resource::ComposeFile,
                                    path: file,
                                },
                            ),
                        ),
                    )
                }
            },
            DockerPhase::StartPull => {
                let mut command = self.compose_command(self.compose_file.as_str());
                command.arg("up");
                command.arg("-d");
                self.phase = DockerPhase::StartUp;
                Step::Ask(Request::Run(command))
            },
            DockerPhase::StartUp => {
                self.phase = DockerPhase::Idle;
                Step::Done(
                    Outcome::Finished(
                        checked(reply, Stage::ComposeUp, CheckedCommand::ComposeUp),
                    ),
                )
            },
            DockerPhase::StopProbe => {
                let files = reply.into_files();
                let file = self.find_compose_file(&files);
                if files.contains(file.as_str()) {
                    let mut command = self.compose_command(file.as_str());
                    command.arg("down");
                    self.phase = DockerPhase::StopDown;
                    self.compose_file = file;
                    Step::Ask(Request::Run(command))
                } else {
                    self.phase = DockerPhase::Idle;
                    Step::Done(Outcome::Finished(Ok(())))
                }
            },
            DockerPhase::StopDown => {
                self.phase = DockerPhase::Idle;
                Step::Done(
                    Outcome::Finished(
                        checked(reply, Stage::ComposeDown, CheckedCommand::ComposeDown),
                    ),
                )
            },
            DockerPhase::RestartProbe => {
                let files = reply.into_files();
                let file = self.find_compose_file(&files);
                if files.contains(file.as_str()) {
                    let mut command = self.compose_command(file.as_str());
                    command.arg("down");
                    self.phase = DockerPhase::RestartDown;
                    self.compose_file = file;
                    Step::Ask(Request::Run(command))
                } else {
                    self.start_containers()
                }
            },
            DockerPhase::RestartDown => self.start_containers(),
            DockerPhase::Status => {
                self.phase = DockerPhase::Idle;
                let statuses = match reply {
                    Reply::Captured { success, stdout } => {
                        if success {
                            parse_container_status(stdout.as_str())
                        } else {
                            no_statuses()
                        }
                    },
                    _ => no_statuses(),
                };
                Step::Done(Outcome::Statuses(statuses))
            },
            DockerPhase::InstallScript => {
                match checked(reply, Stage::InstallScript, CheckedCommand::InstallScript) {
                    Ok(_) => {
                        self.phase = DockerPhase::InstallUser;
                        Step::Ask(Request::ReadEnv("USER".to_owned()))
                    },
                    Err(e) => {
                        self.phase = DockerPhase::Idle;
                        Step::Done(Outcome::Finished(Err(e)))
                    },
                }
            },
            DockerPhase::InstallUser => {
                let user = match reply.into_text() {
                    Some(user) => user,
                    None => "root".to_owned(),
                };
                let mut command = CommandLine::new("sudo");
                command.arg("usermod");
                command.arg("-aG");
                command.arg("docker");
                command.arg(user.as_str());
                self.phase = DockerPhase::InstallGroup;
                Step::Ask(Request::Run(command))
            },
            DockerPhase::InstallGroup => {
                self.phase = DockerPhase::Idle;
                Step::Done(Outcome::Finished(Ok(())))
            },
            DockerPhase::InstallOpen => {
                self.phase = DockerPhase::Idle;
                let info = self.get_install_info();
                Step::Done(
                    Outcome::Finished(
                        Err(
                            SupervisorError::ManualActionRequired {
                                instructions: info.instructions,
                            },
                        ),
                    ),
                )
            },
            DockerPhase::ActionAvailability => {
                match engine_action(reply.succeeded(), true) {
                    EngineAction::RestartContainers => self.restart_containers(),
                    _ => {
                        self.phase = DockerPhase::ActionInstallation;
                        let mut command = CommandLine::new("docker");
                        command.arg("--version");
                        Step::Ask(Request::Check(command))
                    },
                }
            },
            DockerPhase::ActionInstallation => {
                match engine_action(false, reply.succeeded()) {
                    EngineAction::Install => self.download(),
                    _ => {
                        self.phase = DockerPhase::ActionDesktop;
                        Step::Ask(self.desktop_request())
                    },
                }
            },
            DockerPhase::ActionDesktop => {
                self.phase = DockerPhase::Idle;
                Step::Done(Outcome::Finished(Ok(())))
            },
        }
    }

    fn download(&mut self) -> (step: Step)
        ensures
            (final(self)@, step@) == old(self)@.begin_download(),
    {
        let info = self.get_install_info();
        self.phase = DockerPhase::InstallOpen;
        Step::Ask(Request::OpenUrl(info.download_url))
    }

    fn desktop_request(&self) -> (request: Request)
        ensures
            request@ == desktop_request(self@.platform),
    {
        match self.platform {
            Platform::Linux => {
                let mut command = CommandLine::new("systemctl");
                command.arg("--user");
                command.arg("start");
                command.arg("docker-desktop");
                Request::Launch(command)
            },
            Platform::MacOsArm64 | Platform::MacOsAmd64 => Request::OpenUrl(
                "/Applications/Docker.app".to_owned(),
            ),
            Platform::Windows => {
                let mut command = CommandLine::new("cmd");
                command.arg("/C");
                command.arg("start");
                command.arg("Docker Desktop");
                Request::Launch(command)
            },
        }
    }

    fn bundled_compose_file(&self) -> (file: String)
        ensures
            file@ == self@.bundled_compose_file(),
    {
        join3(self.project_dir.as_str(), "_up_", "resources", "docker-compose.yml")
    }

    fn compose_probe(&self) -> (request: Request)
        ensures
            request@ == self@.compose_probe(),
    {
        let mut paths: Vec<String> = Vec::new();
        let bundled = self.bundled_compose_file();
        let direct = join(self.project_dir.as_str(), "docker-compose.yml");
        paths.push(bundled);
        paths.push(direct);
        assert(paths.deep_view() =~= seq![
            self@.bundled_compose_file(),
            self@.direct_compose_file(),
        ]);
        Request::Probe(paths)
    }

    fn compose_command(&self, file: &str) -> (command: CommandLine)
        ensures
            command@ == self@.compose_command(file@),
    {
        let mut command = CommandLine::new("docker");
        command.arg("compose");
        command.arg("-f");
        command.arg(file);
        command.current_dir(self.project_dir.as_str());
        command
    }
}

/// The report of a query that could not be made.
fn no_statuses() -> (out: Vec<ContainerStatus>)
    ensures
        out.deep_view() == Seq::<ContainerStatusView>::empty(),
{
    let out: Vec<ContainerStatus> = Vec::new();
    out
}

/// How a command that must succeed ended.
fn checked(reply: Reply, stage: Stage, command: CheckedCommand) -> (out: Result<(), SupervisorError>)
    ensures
        match out {
            Ok(_) => checked_result(reply@, stage, command) == Ok::<(), SupervisorErrorView>(()),
            Err(e) => checked_result(reply@, stage, command) == Err::<(), SupervisorErrorView>(e@),
        },
{
    match reply {
        Reply::Exited(success) => {
            if success {
                Ok(())
            } else {
                Err(SupervisorError::ProcessExitFailure { command })
            }
        },
        other => Err(
            SupervisorError::ProcessSpawnFailure { stage, reason: other.into_failure() },
        ),
    }
}

} // verus!

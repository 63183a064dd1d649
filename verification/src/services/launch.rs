//! Writing the configuration that the core runs with, and starting the core on it.

use vstd::prelude::*;
use vstd::string::*;
use vstd::utf8::encode_utf8;

use crate::config::{
    document_enables_tun, enables_tun, loaded_view, ConfigDocument, ConfigView,
    MihomoConfigDocument,
};
use crate::errors::{AppError, AppErrorView, ProcessError, ProcessErrorView};
use crate::host::HostPlatform;
use crate::paths::{is_plain_name, joined, AppPaths, AppPathsView, OsPath};
use crate::services::state::{
    AppServices, MihomoServiceStatus, RuntimeDetectionOptions, RuntimeInfo,
};
use crate::text::text_view;

verus! {

/// How a configuration is put to the core's program for a test.
#[derive(Debug, PartialEq, Eq)]
pub struct MihomoConfigTestOptions {
    pub binary_path: OsPath,
    pub working_dir: OsPath,
    pub safe_paths: Vec<OsPath>,
}

/// What a `MihomoConfigTestOptions` holds.
pub struct TestOptionsView {
    pub binary_path: Seq<u8>,
    pub working_dir: Seq<u8>,
    pub safe_paths: Seq<Seq<u8>>,
}

impl View for MihomoConfigTestOptions {
    type V = TestOptionsView;

    open spec fn view(&self) -> TestOptionsView {
        TestOptionsView {
            binary_path: self.binary_path@,
            working_dir: self.working_dir@,
            safe_paths: self.safe_paths.deep_view(),
        }
    }
}

/// How the core's program is started.
#[derive(Debug, PartialEq, Eq)]
pub struct ProcessLaunchConfig {
    pub binary_path: OsPath,
    pub config_path: OsPath,
    pub working_dir: OsPath,
    pub console_log_path: Option<OsPath>,
    pub env: Vec<(String, String)>,
    pub safe_paths: Vec<OsPath>,
    pub requires_admin: bool,
}

/// The directories that the core may read and write.
pub open spec fn safe_paths_of(paths: AppPathsView) -> Seq<Seq<u8>> {
    seq![paths.config_dir, paths.data_dir, paths.cache_dir]
}

fn safe_paths(paths: &AppPaths) -> (r: Vec<OsPath>)
    ensures
        r.deep_view() == safe_paths_of(paths@),
{
    let r = vec![paths.config_dir.clone(), paths.data_dir.clone(), paths.cache_dir.clone()];
    assert(r.deep_view() == safe_paths_of(paths@));
    r
}

/// The core's program, where it was found and may be executed, for the test of a configuration.
pub open spec fn testing_binary<I>(found: RuntimeInfo<I>) -> Result<Seq<u8>, ProcessErrorView> {
    match found.binary_path {
        Some(binary_path) => if found.executable {
            Ok(binary_path@)
        } else {
            Err(ProcessErrorView::PermissionDenied(binary_path@))
        },
        None => Err(ProcessErrorView::InvalidState("无法校验配置：未找到 mihomo 核心"@)),
    }
}

/// The core's program, where it was found and may be executed, for the test of a configuration.
pub fn resolve_mihomo_binary_for_config_test<I>(found: RuntimeInfo<I>) -> (r: Result<
    OsPath,
    ProcessError,
>)
    ensures
        match r {
            Ok(binary_path) => testing_binary(found) == Ok::<Seq<u8>, ProcessErrorView>(
                binary_path@,
            ),
            Err(e) => testing_binary(found) == Err::<Seq<u8>, ProcessErrorView>(e@),
        },
{
    match found.binary_path {
        Some(binary_path) => if found.executable {
            Ok(binary_path)
        } else {
            Err(ProcessError::PermissionDenied(binary_path))
        },
        None => Err(ProcessError::InvalidState("无法校验配置：未找到 mihomo 核心".to_owned())),
    }
}

/// The core's program for a start, where it was found.
pub open spec fn starting_binary<I>(status: MihomoServiceStatus<I>) -> Option<Seq<u8>> {
    match status.runtime {
        Some(runtime) => runtime.binary_path.deep_view(),
        None => None,
    }
}

/// How a configuration is put to the program at `binary_path` for a test.
pub open spec fn test_options(paths: AppPathsView, binary_path: Seq<u8>) -> TestOptionsView {
    TestOptionsView {
        binary_path,
        working_dir: paths.cores_dir,
        safe_paths: safe_paths_of(paths),
    }
}

/// How a configuration is put to the program at `binary_path` for a test.
pub fn config_test_options(paths: &AppPaths, binary_path: OsPath) -> (r: MihomoConfigTestOptions)
    ensures
        r@ == test_options(paths@, binary_path@),
{
    MihomoConfigTestOptions {
        binary_path,
        working_dir: paths.cores_dir.clone(),
        safe_paths: safe_paths(paths),
    }
}

/// What the writing of the core's configuration does next.
#[derive(Debug, PartialEq, Eq)]
pub enum WriteStep<R, E> {
    /// It awaits the configuration.
    Build { options: MihomoConfigTestOptions },
    /// It awaits the configuration as a text.
    Render { options: MihomoConfigTestOptions, runtime: MihomoConfigDocument<R> },
    /// It awaits what the core's program says to the text.
    Test { options: MihomoConfigTestOptions, yaml: String, runtime: MihomoConfigDocument<R> },
    /// It awaits the path that the configuration was written to.
    Write { runtime: MihomoConfigDocument<R> },
    /// It is over.
    Done(Result<OsPath, AppError<E>>),
}

/// What a `WriteStep` holds.
pub enum WriteStepView<R, E> {
    Build { options: TestOptionsView },
    Render { options: TestOptionsView, runtime: ConfigView<R> },
    Test { options: TestOptionsView, yaml: Seq<char>, runtime: ConfigView<R> },
    Write { runtime: ConfigView<R> },
    Done(Result<Seq<u8>, AppErrorView<E>>),
}

impl<R, E> View for WriteStep<R, E> {
    type V = WriteStepView<R, E>;

    open spec fn view(&self) -> WriteStepView<R, E> {
        match self {
            WriteStep::Build { options } => WriteStepView::Build { options: options@ },
            WriteStep::Render { options, runtime } => WriteStepView::Render {
                options: options@,
                runtime: runtime@,
            },
            WriteStep::Test { options, yaml, runtime } => WriteStepView::Test {
                options: options@,
                yaml: yaml@,
                runtime: runtime@,
            },
            WriteStep::Write { runtime } => WriteStepView::Write { runtime: runtime@ },
            WriteStep::Done(Ok(path)) => WriteStepView::Done(Ok(path@)),
            WriteStep::Done(Err(e)) => WriteStepView::Done(Err(e@)),
        }
    }
}

/// What came of the step.
#[derive(Debug, PartialEq, Eq)]
pub enum WriteReply<R, E> {
    Built(Result<MihomoConfigDocument<R>, AppError<E>>),
    Rendered(Result<String, E>),
    Tested(Result<(), E>),
    Written(Result<OsPath, E>),
}

/// What a `WriteReply` holds.
pub enum WriteReplyView<R, E> {
    Built(Result<ConfigView<R>, AppErrorView<E>>),
    Rendered(Result<Seq<char>, E>),
    Tested(Result<(), E>),
    Written(Result<Seq<u8>, E>),
}

/// What the building of a configuration gave.
pub open spec fn built_view<R, E>(built: Result<MihomoConfigDocument<R>, AppError<E>>) -> Result<
    ConfigView<R>,
    AppErrorView<E>,
> {
    match built {
        Ok(runtime) => Ok(runtime@),
        Err(e) => Err(e@),
    }
}

/// What an operation that gives a path gave.
pub open spec fn path_view<E>(path: Result<OsPath, E>) -> Result<Seq<u8>, E> {
    match path {
        Ok(path) => Ok(path@),
        Err(e) => Err(e),
    }
}

impl<R, E> View for WriteReply<R, E> {
    type V = WriteReplyView<R, E>;

    open spec fn view(&self) -> WriteReplyView<R, E> {
        match self {
            WriteReply::Built(built) => WriteReplyView::Built(built_view(*built)),
            WriteReply::Rendered(yaml) => WriteReplyView::Rendered(text_view(*yaml)),
            WriteReply::Tested(tested) => WriteReplyView::Tested(*tested),
            WriteReply::Written(path) => WriteReplyView::Written(path_view(*path)),
        }
    }
}

/// What a writing does with the reply to its step. A reply to another question changes nothing.
pub open spec fn write_resumed<R, E>(
    step: WriteStepView<R, E>,
    reply: WriteReplyView<R, E>,
) -> WriteStepView<R, E> {
    match (step, reply) {
        (WriteStepView::Build { options }, WriteReplyView::Built(built)) => match built {
            Ok(runtime) => WriteStepView::Render { options, runtime },
            Err(e) => WriteStepView::Done(Err(e)),
        },
        (WriteStepView::Render { options, runtime }, WriteReplyView::Rendered(rendered)) =>
            match rendered {
            Ok(yaml) => WriteStepView::Test { options, yaml, runtime },
            Err(e) => WriteStepView::Done(Err(AppErrorView::Outside(e))),
        },
        (WriteStepView::Test { runtime, .. }, WriteReplyView::Tested(tested)) => match tested {
            Ok(()) => WriteStepView::Write { runtime },
            Err(e) => WriteStepView::Done(Err(AppErrorView::Outside(e))),
        },
        (WriteStepView::Write { .. }, WriteReplyView::Written(written)) => match written {
            Ok(path) => WriteStepView::Done(Ok(path)),
            Err(e) => WriteStepView::Done(Err(AppErrorView::Outside(e))),
        },
        _ => step,
    }
}

impl<R, E> WriteStep<R, E> {
    /// Goes on with the reply to the step.
    pub fn resume(self, reply: WriteReply<R, E>) -> (r: WriteStep<R, E>)
        ensures
            r@ == write_resumed(self@, reply@),
    {
        match (self, reply) {
            (WriteStep::Build { options }, WriteReply::Built(built)) => match built {
                Ok(runtime) => WriteStep::Render { options, runtime },
                Err(e) => WriteStep::Done(Err(e)),
            },
            (WriteStep::Render { options, runtime }, WriteReply::Rendered(rendered)) =>
                match rendered {
                Ok(yaml) => WriteStep::Test { options, yaml, runtime },
                Err(e) => WriteStep::Done(Err(AppError::Outside(e))),
            },
            (WriteStep::Test { runtime, .. }, WriteReply::Tested(tested)) => match tested {
                Ok(()) => WriteStep::Write { runtime },
                Err(e) => WriteStep::Done(Err(AppError::Outside(e))),
            },
            (WriteStep::Write { .. }, WriteReply::Written(written)) => match written {
                Ok(path) => WriteStep::Done(Ok(path)),
                Err(e) => WriteStep::Done(Err(AppError::Outside(e))),
            },
            (step, _) => step,
        }
    }
}

/// What a writing finds when it asks.
#[verifier::reject_recursive_types(R)]
pub struct WriteSurroundings<R, E> {
    /// The configuration.
    pub built: Result<ConfigView<R>, AppErrorView<E>>,
    /// A configuration as a text.
    pub render: spec_fn(ConfigView<R>) -> Result<Seq<char>, E>,
    /// What the core's program says to a text.
    pub test: spec_fn(TestOptionsView, Seq<char>) -> Result<(), E>,
    /// Where a configuration was written to.
    pub write: spec_fn(ConfigView<R>) -> Result<Seq<u8>, E>,
}

/// Where a writing leads.
pub open spec fn write_run<R, E>(
    step: WriteStepView<R, E>,
    around: WriteSurroundings<R, E>,
) -> Result<Seq<u8>, AppErrorView<E>>
    decreases
            (match step {
                WriteStepView::Build { .. } => 4int,
                WriteStepView::Render { .. } => 3,
                WriteStepView::Test { .. } => 2,
                WriteStepView::Write { .. } => 1,
                WriteStepView::Done(_) => 0,
            }),
{
    match step {
        WriteStepView::Build { .. } => write_run(
            write_resumed(step, WriteReplyView::Built(around.built)),
            around,
        ),
        WriteStepView::Render { runtime, .. } => write_run(
            write_resumed(step, WriteReplyView::Rendered((around.render)(runtime))),
            around,
        ),
        WriteStepView::Test { options, yaml, .. } => write_run(
            write_resumed(step, WriteReplyView::Tested((around.test)(options, yaml))),
            around,
        ),
        WriteStepView::Write { runtime } => write_run(
            write_resumed(step, WriteReplyView::Written((around.write)(runtime))),
            around,
        ),
        WriteStepView::Done(result) => result,
    }
}

/// A configuration that is written with a test is written only if the core's program passes the
/// text of that very configuration, and the first failure is reported.
pub proof fn law_write_with_test<R, E>(options: TestOptionsView, around: WriteSurroundings<R, E>)
    ensures
        write_run(WriteStepView::Build { options }, around) == (match around.built {
            Err(e) => Err(e),
            Ok(runtime) => match (around.render)(runtime) {
                Err(e) => Err(AppErrorView::Outside(e)),
                Ok(yaml) => match (around.test)(options, yaml) {
                    Err(e) => Err(AppErrorView::Outside(e)),
                    Ok(()) => match (around.write)(runtime) {
                        Err(e) => Err(AppErrorView::Outside(e)),
                        Ok(path) => Ok(path),
                    },
                },
            },
        }),
{
    reveal_with_fuel(write_run, 5);
}

/// A writing that was begun with a test comes to write only from a test that was passed.
pub proof fn law_written_only_when_tested<R, E>(
    step: WriteStepView<R, E>,
    reply: WriteReplyView<R, E>,
)
    requires
        step !is Write,
        write_resumed(step, reply) is Write,
    ensures
        step matches WriteStepView::Test { runtime, .. } && write_resumed(step, reply)
            == (WriteStepView::<R, E>::Write { runtime }),
        reply matches WriteReplyView::Tested(Ok(())),
{
}

/// What a start of the core does next.
#[derive(Debug, PartialEq, Eq)]
pub enum LaunchStep<E> {
    /// It awaits what the core's service finds of the core's program.
    Prepare { requires_admin: bool },
    /// It awaits where the configuration was written to, with a test by this program.
    WriteConfig { requires_admin: bool, binary_path: OsPath },
    /// It is over.
    Done(Result<ProcessLaunchConfig, AppError<E>>),
}

/// What came of the step.
#[derive(Debug, PartialEq, Eq)]
pub enum LaunchReply<I, E> {
    Prepared(Result<MihomoServiceStatus<I>, E>),
    Written(Result<OsPath, AppError<E>>),
}

/// How a start of the core begins, once the user's configuration was read.
pub open spec fn launch_start<R, E>(loaded: Result<ConfigView<R>, E>) -> LaunchStep<E> {
    match loaded {
        Ok(config) => LaunchStep::Prepare { requires_admin: enables_tun(config) },
        Err(e) => LaunchStep::Done(Err(AppError::Outside(e))),
    }
}

/// The core's program is started so: in its own directory, apart from the user's configuration,
/// with its log among the application's, and with the application's directories open to it.
pub open spec fn launches(
    host: HostPlatform,
    paths: AppPathsView,
    requires_admin: bool,
    binary_path: Seq<u8>,
    config_path: Seq<u8>,
    launch: ProcessLaunchConfig,
) -> bool {
    &&& launch.binary_path@ == binary_path
    &&& launch.config_path@ == config_path
    &&& launch.working_dir@ == paths.cores_dir
    &&& launch.console_log_path.deep_view() == Some(
        joined(host, paths.logs_dir, encode_utf8("core.log"@)),
    )
    &&& launch.env@.len() == 0
    &&& launch.safe_paths.deep_view() == safe_paths_of(paths)
    &&& launch.requires_admin == requires_admin
}

/// The end where no program was found to start.
pub open spec fn nothing_to_start<E>(step: LaunchStep<E>) -> bool {
    step matches LaunchStep::Done(Err(e)) && e@ == AppErrorView::<E>::Process(
        ProcessErrorView::InvalidState("未找到可启动的 mihomo 核心"@),
    )
}

/// `next` is what a start of the core does with the reply to its step. A reply to another question
/// changes nothing.
pub open spec fn launch_follows<I, E>(
    host: HostPlatform,
    paths: AppPathsView,
    step: LaunchStep<E>,
    reply: LaunchReply<I, E>,
    next: LaunchStep<E>,
) -> bool {
    match (step, reply) {
        (LaunchStep::Prepare { requires_admin }, LaunchReply::Prepared(Ok(status))) =>
            match starting_binary(status) {
            Some(found) => next matches LaunchStep::WriteConfig {
                requires_admin: admin,
                binary_path,
            } && admin == requires_admin && binary_path@ == found,
            None => nothing_to_start(next),
        },
        (LaunchStep::Prepare { .. }, LaunchReply::Prepared(Err(e))) => next == LaunchStep::<
            E,
        >::Done(Err(AppError::Outside(e))),
        (
            LaunchStep::WriteConfig { requires_admin, binary_path },
            LaunchReply::Written(Ok(config_path)),
        ) => next matches LaunchStep::Done(Ok(launch)) && launches(
            host,
            paths,
            requires_admin,
            binary_path@,
            config_path@,
            launch,
        ),
        (LaunchStep::WriteConfig { .. }, LaunchReply::Written(Err(e))) => next == LaunchStep::<
            E,
        >::Done(Err(e)),
        _ => next == step,
    }
}

/// A start of the core comes to the program that was found, with the configuration that was tested
/// by that program and then written, and with privileges where the user's configuration asks for
/// the virtual network device. The first failure is reported, and nothing is asked after it.
pub proof fn law_launch<R, I, E>(
    host: HostPlatform,
    paths: AppPathsView,
    loaded: Result<ConfigView<R>, E>,
    prepared: Result<MihomoServiceStatus<I>, E>,
    around: WriteSurroundings<R, E>,
    written: Result<OsPath, AppError<E>>,
    second: LaunchStep<E>,
    third: LaunchStep<E>,
)
    requires
        launch_follows(
            host,
            paths,
            launch_start(loaded),
            LaunchReply::<I, E>::Prepared(prepared),
            second,
        ),
        second matches LaunchStep::WriteConfig { binary_path, .. } ==> written_view(written)
            == write_run(
            WriteStepView::Build { options: test_options(paths, binary_path@) },
            around,
        ),
        launch_follows(host, paths, second, LaunchReply::<I, E>::Written(written), third),
    ensures
        match (loaded, prepared) {
            (Err(e), _) => third == LaunchStep::<E>::Done(Err(AppError::Outside(e))),
            (Ok(_), Err(e)) => third == LaunchStep::<E>::Done(Err(AppError::Outside(e))),
            (Ok(config), Ok(status)) => match starting_binary(status) {
                None => nothing_to_start(third),
                Some(found) => match write_run(
                    WriteStepView::Build { options: test_options(paths, found) },
                    around,
                ) {
                    Ok(config_path) => third matches LaunchStep::Done(Ok(launch)) && launches(
                        host,
                        paths,
                        enables_tun(config),
                        found,
                        config_path,
                        launch,
                    ),
                    Err(e) => third matches LaunchStep::Done(Err(failure)) && failure@ == e,
                },
            },
        },
{
}

/// What a writing came to.
pub open spec fn written_view<E>(written: Result<OsPath, AppError<E>>) -> Result<
    Seq<u8>,
    AppErrorView<E>,
> {
    match written {
        Ok(path) => Ok(path@),
        Err(e) => Err(e@),
    }
}

impl<I> AppServices<I> {
    /// Begins to write the core's configuration without a test.
    pub fn write_runtime_config<R, E>(
        &self,
        built: Result<MihomoConfigDocument<R>, AppError<E>>,
    ) -> (r: WriteStep<R, E>)
        ensures
            r@ == (match built_view(built) {
                Ok(runtime) => WriteStepView::Write { runtime },
                Err(e) => WriteStepView::Done(Err(e)),
            }),
    {
        match built {
            Ok(runtime) => WriteStep::Write { runtime },
            Err(e) => WriteStep::Done(Err(e)),
        }
    }

    /// Begins to write the core's configuration with a test, once it is known what was found of
    /// the core's program.
    pub fn write_runtime_config_validated<R, E>(&self, detected: Result<RuntimeInfo<I>, E>) -> (r:
        WriteStep<R, E>)
        ensures
            r@ == (match detected {
                Ok(found) => match testing_binary(found) {
                    Ok(binary_path) => WriteStepView::<R, E>::Build {
                        options: test_options(self.paths@, binary_path),
                    },
                    Err(e) => WriteStepView::Done(Err(AppErrorView::Process(e))),
                },
                Err(e) => WriteStepView::Done(Err(AppErrorView::Outside(e))),
            }),
    {
        match detected {
            Ok(found) => match resolve_mihomo_binary_for_config_test(found) {
                Ok(binary_path) => self.write_runtime_config_with_binary(binary_path),
                Err(e) => WriteStep::Done(Err(AppError::Process(e))),
            },
            Err(e) => WriteStep::Done(Err(AppError::Outside(e))),
        }
    }

    /// Begins to write the core's configuration with a test by this program.
    pub fn write_runtime_config_with_binary<R, E>(&self, binary_path: OsPath) -> (r: WriteStep<
        R,
        E,
    >)
        ensures
            r@ == (WriteStepView::<R, E>::Build {
                options: test_options(self.paths@, binary_path@),
            }),
    {
        WriteStep::Build { options: config_test_options(&self.paths, binary_path) }
    }

    /// Whether the core needs privileges for the user's configuration.
    pub fn current_config_enables_tun<R, E>(&self, loaded: Result<ConfigDocument<R>, E>) -> (r:
        Result<bool, E>)
        ensures
            r == (match loaded_view(loaded) {
                Ok(config) => Ok(enables_tun(config)),
                Err(e) => Err(e),
            }),
    {
        match loaded {
            Ok(document) => Ok(document_enables_tun(&document)),
            Err(e) => Err(e),
        }
    }

    /// The port that the configuration which the core runs with gives the proxy.
    pub fn current_mixed_port<R, E>(&self, built: Result<MihomoConfigDocument<R>, E>) -> (r: Result<
        Option<u32>,
        E,
    >)
        ensures
            r == (match built {
                Ok(runtime) => Ok(runtime@.global.mixed_port),
                Err(e) => Err(e),
            }),
    {
        match built {
            Ok(runtime) => Ok(runtime.global.mixed_port),
            Err(e) => Err(e),
        }
    }

    /// Where the core's program is looked for before a configuration is tested. No controller is
    /// asked: the core need not run for that.
    pub fn config_test_detection_options(&self) -> (r: RuntimeDetectionOptions)
        ensures
            r.config_dir.deep_view() == Some(self@.paths.config_dir),
            r.cores_dir@ == self@.paths.cores_dir,
            r.controller_addr is None,
    {
        RuntimeDetectionOptions {
            config_dir: Some(self.paths.config_dir.clone()),
            cores_dir: self.paths.cores_dir.clone(),
            controller_addr: None,
        }
    }

    /// Begins a start of the core on the user's configuration.
    pub fn launch_config<R, E>(&self, loaded: Result<ConfigDocument<R>, E>) -> (r: LaunchStep<E>)
        ensures
            r == launch_start(loaded_view(loaded)),
    {
        match self.current_config_enables_tun(loaded) {
            Ok(requires_admin) => LaunchStep::Prepare { requires_admin },
            Err(e) => LaunchStep::Done(Err(AppError::Outside(e))),
        }
    }

    /// Goes on with the reply to the step.
    pub fn resume_launch<E>(
        &self,
        host: HostPlatform,
        step: LaunchStep<E>,
        reply: LaunchReply<I, E>,
    ) -> (r: LaunchStep<E>)
        ensures
            launch_follows(host, self@.paths, step, reply, r),
    {
        match (step, reply) {
            (LaunchStep::Prepare { requires_admin }, LaunchReply::Prepared(Ok(status))) => {
                let found: Option<OsPath> = match status.runtime {
                    Some(runtime) => runtime.binary_path,
                    None => None,
                };
                match found {
                    Some(binary_path) => LaunchStep::WriteConfig { requires_admin, binary_path },
                    None => LaunchStep::Done(
                        Err(
                            AppError::Process(
                                ProcessError::InvalidState(
                                    "未找到可启动的 mihomo 核心".to_owned(),
                                ),
                            ),
                        ),
                    ),
                }
            },
            (LaunchStep::Prepare { .. }, LaunchReply::Prepared(Err(e))) => LaunchStep::Done(
                Err(AppError::Outside(e)),
            ),
            (
                LaunchStep::WriteConfig { requires_admin, binary_path },
                LaunchReply::Written(Ok(config_path)),
            ) => {
                proof {
                    reveal_strlit("core.log");
                    reveal_strlit(".");
                    reveal_strlit("..");
                    assert(is_plain_name("core.log"@));
                }
                let console_log_path = self.paths.logs_dir.join(host, "core.log");
                LaunchStep::Done(
                    Ok(
                        ProcessLaunchConfig {
                            binary_path,
                            config_path,
                            working_dir: self.paths.cores_dir.clone(),
                            console_log_path: Some(console_log_path),
                            env: Vec::new(),
                            safe_paths: safe_paths(&self.paths),
                            requires_admin,
                        },
                    ),
                )
            },
            (LaunchStep::WriteConfig { .. }, LaunchReply::Written(Err(e))) => LaunchStep::Done(
                Err(e),
            ),
            (step, _) => step,
        }
    }
}

/// A program is tested with exactly where it was found and may be executed. One that may not is
/// named in the complaint.
pub proof fn law_testing_binary<I>(found: RuntimeInfo<I>)
    ensures
        testing_binary(found) is Ok <==> found.binary_path is Some && found.executable,
        testing_binary(found) matches Ok(path) ==> found.binary_path.deep_view() == Some(path),
        found.binary_path matches Some(path) ==> !found.executable ==> testing_binary(found)
            == Err::<Seq<u8>, _>(ProcessErrorView::PermissionDenied(path@)),
        found.binary_path is None ==> testing_binary(found) == Err::<Seq<u8>, _>(
            ProcessErrorView::InvalidState("无法校验配置：未找到 mihomo 核心"@),
        ),
{
}

/// A start uses the program that was found, whether or not it may be executed.
pub proof fn law_starting_binary<I>(status: MihomoServiceStatus<I>)
    ensures
        status.runtime is None ==> starting_binary(status) is None,
        status.runtime matches Some(found) ==> {
            &&& found.binary_path matches Some(path) ==> starting_binary(status) == Some(path@)
            &&& found.binary_path is None ==> starting_binary(status) is None
        },
{
}

/// A configuration is tested by the program, in the core's own directory. The configuration, data
/// and cache directory are open to it, and no other.
pub proof fn law_test_options(paths: AppPathsView, binary_path: Seq<u8>)
    ensures
        ({
            let options = test_options(paths, binary_path);
            &&& options.binary_path == binary_path
            &&& options.working_dir == paths.cores_dir
            &&& options.safe_paths.len() == 3
            &&& options.safe_paths[0] == paths.config_dir
            &&& options.safe_paths[1] == paths.data_dir
            &&& options.safe_paths[2] == paths.cache_dir
        }),
{
}

/// A start that goes well starts the program that was found on the configuration that was written,
/// in the core's own directory, with the log `core.log` in the directory of logs, and with the
/// configuration, data and cache directory open to it. Privileges are asked for exactly where the
/// user's configuration turns the virtual network device on. A failure to read the configuration,
/// to look for the program or to write is reported, and so is a program that was not found.
pub proof fn law_launch_config<R, I, E>(
    host: HostPlatform,
    paths: AppPathsView,
    loaded: Result<ConfigView<R>, E>,
    prepared: Result<MihomoServiceStatus<I>, E>,
    written: Result<OsPath, AppError<E>>,
    second: LaunchStep<E>,
    third: LaunchStep<E>,
)
    requires
        launch_follows(
            host,
            paths,
            launch_start(loaded),
            LaunchReply::<I, E>::Prepared(prepared),
            second,
        ),
        launch_follows(host, paths, second, LaunchReply::<I, E>::Written(written), third),
    ensures
        third matches LaunchStep::Done(result) && match (loaded, prepared) {
            (Err(e), _) => result == Err::<ProcessLaunchConfig, _>(AppError::<E>::Outside(e)),
            (Ok(_), Err(e)) => result == Err::<ProcessLaunchConfig, _>(AppError::<E>::Outside(e)),
            (Ok(config), Ok(status)) => match (starting_binary(status), written) {
                (None, _) => result matches Err(e) && e@ == AppErrorView::<E>::Process(
                    ProcessErrorView::InvalidState("未找到可启动的 mihomo 核心"@),
                ),
                (Some(_), Err(e)) => result == Err::<ProcessLaunchConfig, _>(e),
                (Some(found), Ok(config_path)) => {
                    &&& result matches Ok(launch)
                    &&& launch.binary_path@ == found
                    &&& launch.config_path@ == config_path@
                    &&& launch.working_dir@ == paths.cores_dir
                    &&& launch.console_log_path matches Some(log)
                    &&& log@ == joined(host, paths.logs_dir, encode_utf8("core.log"@))
                    &&& launch.env@.len() == 0
                    &&& launch.safe_paths.deep_view() == seq![
                        paths.config_dir,
                        paths.data_dir,
                        paths.cache_dir,
                    ]
                    &&& launch.requires_admin <==> (config.tun matches Some(tun) && tun.enable
                        == Some(true))
                },
            },
        },
        second matches LaunchStep::WriteConfig { binary_path, .. } ==> prepared matches Ok(status)
            && starting_binary(status) == Some(binary_path@),
{
}

/// Without a test a configuration that was built is written at once. With a test it is built only
/// once a program was found that may be executed, and is then tested by that program. What could
/// not be built or found is reported.
pub proof fn law_write_begins<I, R, E>(
    services: &AppServices<I>,
    built: Result<MihomoConfigDocument<R>, AppError<E>>,
    detected: Result<RuntimeInfo<I>, E>,
    plain: WriteStep<R, E>,
    tested: WriteStep<R, E>,
)
    requires
        call_ensures(AppServices::<I>::write_runtime_config::<R, E>, (services, built), plain),
        call_ensures(
            AppServices::<I>::write_runtime_config_validated::<R, E>,
            (services, detected),
            tested,
        ),
    ensures
        match built {
            Ok(runtime) => plain@ == (WriteStepView::<R, E>::Write { runtime: runtime@ }),
            Err(e) => plain@ == WriteStepView::<R, E>::Done(Err(e@)),
        },
        match detected {
            Err(e) => tested@ == WriteStepView::<R, E>::Done(Err(AppErrorView::Outside(e))),
            Ok(found) => match testing_binary(found) {
                Ok(path) => tested@ matches WriteStepView::Build { options } && options.binary_path
                    == path && options.working_dir == services.paths.cores_dir@,
                Err(e) => tested@ == WriteStepView::<R, E>::Done(Err(AppErrorView::Process(e))),
            },
        },
{
}

/// A written configuration ends a writing with its path, and a failure to write with the failure. A
/// reply to another question changes nothing, and nothing follows the end.
pub proof fn law_write_ends<R, E>(
    runtime: ConfigView<R>,
    written: Result<Seq<u8>, E>,
    step: WriteStepView<R, E>,
    reply: WriteReplyView<R, E>,
)
    ensures
        write_resumed(WriteStepView::<R, E>::Write { runtime }, WriteReplyView::Written(written))
            == WriteStepView::<R, E>::Done(
            match written {
                Ok(path) => Ok(path),
                Err(e) => Err(AppErrorView::Outside(e)),
            },
        ),
        !(step is Build && reply is Built) && !(step is Render && reply is Rendered) && !(step
            is Test && reply is Tested) && !(step is Write && reply is Written) ==> write_resumed(
            step,
            reply,
        ) == step,
{
}

/// The port of the proxy is the one of the configuration that the core runs with. A program is
/// looked for before a test without asking the controller.
pub proof fn law_mixed_port<I, R, E>(
    services: &AppServices<I>,
    built: Result<MihomoConfigDocument<R>, E>,
    port: Result<Option<u32>, E>,
    options: RuntimeDetectionOptions,
)
    requires
        call_ensures(AppServices::<I>::current_mixed_port::<R, E>, (services, built), port),
        call_ensures(AppServices::<I>::config_test_detection_options, (services,), options),
    ensures
        built matches Ok(runtime) ==> port == Ok::<_, E>(runtime.global.mixed_port),
        built matches Err(e) ==> port == Err::<Option<u32>, _>(e),
        options.config_dir matches Some(dir) && dir@ == services.paths.config_dir@,
        options.cores_dir@ == services.paths.cores_dir@,
        options.controller_addr is None,
{
}

} // verus!

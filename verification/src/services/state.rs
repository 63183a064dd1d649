//! What the application knows of itself, and what it shows of the core.

use vstd::prelude::*;

use crate::config::{
    controller_of, controller_url, document_view, ConfigDocument, ConfigView, MihomoClientFactory,
};
use crate::core_service::types::{CoreServicePaths, CoreServicePathsView, CoreServiceSnapshot};
use crate::paths::{AppPaths, AppPathsView, OsPath};

verus! {

/// What the core does, as it is shown.
#[derive(Debug, PartialEq, Eq)]
pub enum RuntimeStatus {
    Idle,
    Starting,
    Running,
    Stopping,
    Failed { message: String },
}

/// What a `RuntimeStatus` says.
pub enum RuntimeStatusView {
    Idle,
    Starting,
    Running,
    Stopping,
    Failed { message: Seq<char> },
}

impl View for RuntimeStatus {
    type V = RuntimeStatusView;

    open spec fn view(&self) -> RuntimeStatusView {
        match self {
            RuntimeStatus::Idle => RuntimeStatusView::Idle,
            RuntimeStatus::Starting => RuntimeStatusView::Starting,
            RuntimeStatus::Running => RuntimeStatusView::Running,
            RuntimeStatus::Stopping => RuntimeStatusView::Stopping,
            RuntimeStatus::Failed { message } => RuntimeStatusView::Failed { message: message@ },
        }
    }
}

/// What the core's own service is at.
#[derive(Clone, Copy, Debug, PartialEq, Eq, Structural)]
pub enum MihomoServicePhase {
    Idle,
    Preparing,
    Ready,
    Starting,
    Running,
    Stopping,
    Failed,
}

/// What was found of the core's program. What nothing here reads is carried along in `rest`.
#[derive(Debug, PartialEq, Eq)]
pub struct RuntimeInfo<I> {
    pub binary_path: Option<OsPath>,
    pub executable: bool,
    pub rest: I,
}

/// An error of the core's own service.
#[derive(Debug, PartialEq, Eq)]
pub struct ReportedError {
    pub message: String,
    /// The message without what must not be shown.
    pub redacted: String,
}

/// What the core's own service reports.
#[derive(Debug, PartialEq, Eq)]
pub struct MihomoServiceStatus<I> {
    pub phase: MihomoServicePhase,
    pub runtime: Option<RuntimeInfo<I>>,
    pub last_error: Option<ReportedError>,
}

/// What the core does, told from what its service reports. An error is shown without its secrets.
pub open spec fn shown_status<I>(status: MihomoServiceStatus<I>) -> RuntimeStatusView {
    match status.phase {
        MihomoServicePhase::Idle | MihomoServicePhase::Ready | MihomoServicePhase::Preparing =>
            RuntimeStatusView::Idle,
        MihomoServicePhase::Starting => RuntimeStatusView::Starting,
        MihomoServicePhase::Running => RuntimeStatusView::Running,
        MihomoServicePhase::Stopping => RuntimeStatusView::Stopping,
        MihomoServicePhase::Failed => RuntimeStatusView::Failed {
            message: match status.last_error {
                Some(error) => error.redacted@,
                None => "mihomo 状态异常"@,
            },
        },
    }
}

/// What the core does, told from what its service reports.
pub fn runtime_status_from_mihomo<I>(status: &MihomoServiceStatus<I>) -> (r: RuntimeStatus)
    ensures
        r@ == shown_status(*status),
{
    match status.phase {
        MihomoServicePhase::Idle | MihomoServicePhase::Ready | MihomoServicePhase::Preparing =>
            RuntimeStatus::Idle,
        MihomoServicePhase::Starting => RuntimeStatus::Starting,
        MihomoServicePhase::Running => RuntimeStatus::Running,
        MihomoServicePhase::Stopping => RuntimeStatus::Stopping,
        MihomoServicePhase::Failed => {
            let message: String = match &status.last_error {
                Some(error) => error.redacted.clone(),
                None => "mihomo 状态异常".to_owned(),
            };
            RuntimeStatus::Failed { message }
        },
    }
}

/// What is shown to the user.
#[derive(Debug, PartialEq, Eq)]
pub struct AppSnapshot<I> {
    pub active_profile: Option<String>,
    pub controller_addr: Option<String>,
    pub runtime: RuntimeStatus,
    pub runtime_info: Option<RuntimeInfo<I>>,
    pub last_error: Option<String>,
    pub core_service: CoreServiceSnapshot,
}

/// What an `AppSnapshot` holds.
pub struct AppSnapshotView<I> {
    pub active_profile: Option<Seq<char>>,
    pub controller_addr: Option<Seq<char>>,
    pub runtime: RuntimeStatusView,
    pub runtime_info: Option<RuntimeInfo<I>>,
    pub last_error: Option<Seq<char>>,
    pub core_service: CoreServiceSnapshot,
}

impl<I> View for AppSnapshot<I> {
    type V = AppSnapshotView<I>;

    open spec fn view(&self) -> AppSnapshotView<I> {
        AppSnapshotView {
            active_profile: self.active_profile.deep_view(),
            controller_addr: self.controller_addr.deep_view(),
            runtime: self.runtime@,
            runtime_info: self.runtime_info,
            last_error: self.last_error.deep_view(),
            core_service: self.core_service,
        }
    }
}

/// The application: where it works, what it shows, and whether it is about to exit.
#[derive(Debug, PartialEq, Eq)]
pub struct AppServices<I> {
    pub paths: AppPaths,
    pub snapshot: AppSnapshot<I>,
    /// An exit has begun to stop the core.
    pub shutdown_stop_started: bool,
}

/// What an `AppServices` holds.
pub struct AppServicesView<I> {
    pub paths: AppPathsView,
    pub snapshot: AppSnapshotView<I>,
    pub shutdown_stop_started: bool,
}

impl<I> View for AppServices<I> {
    type V = AppServicesView<I>;

    open spec fn view(&self) -> AppServicesView<I> {
        AppServicesView {
            paths: self.paths@,
            snapshot: self.snapshot@,
            shutdown_stop_started: self.shutdown_stop_started,
        }
    }
}

/// Where the core's program is looked for, and the controller that is asked whether it runs.
#[derive(Debug, PartialEq, Eq)]
pub struct RuntimeDetectionOptions {
    pub config_dir: Option<OsPath>,
    pub cores_dir: OsPath,
    pub controller_addr: Option<String>,
}

/// The directories of the application that the service of the core works in.
pub fn core_service_paths(paths: &AppPaths) -> (r: CoreServicePaths)
    ensures
        r@ == (CoreServicePathsView {
            config_dir: paths@.config_dir,
            data_dir: paths@.data_dir,
            cache_dir: paths@.cache_dir,
            cores_dir: paths@.cores_dir,
            logs_dir: paths@.logs_dir,
        }),
{
    CoreServicePaths {
        config_dir: paths.config_dir.clone(),
        data_dir: paths.data_dir.clone(),
        cache_dir: paths.cache_dir.clone(),
        cores_dir: paths.cores_dir.clone(),
        logs_dir: paths.logs_dir.clone(),
    }
}

impl<I> AppServicesView<I> {
    /// With the controller's address taken from a configuration.
    pub open spec fn with_controller<R>(self, config: Option<ConfigView<R>>) -> AppServicesView<I> {
        AppServicesView {
            snapshot: AppSnapshotView {
                controller_addr: Some(controller_url(controller_of(config))),
                ..self.snapshot
            },
            ..self
        }
    }

    /// With the user's configuration as the one in use.
    pub open spec fn with_core_config<R>(
        self,
        config: Option<ConfigView<R>>,
    ) -> AppServicesView<I> {
        AppServicesView {
            snapshot: AppSnapshotView {
                active_profile: Some("core.common.config.yaml"@),
                ..self.snapshot
            },
            ..self
        }.with_controller(config)
    }

    /// With what the core's service reports.
    pub open spec fn with_status(self, status: MihomoServiceStatus<I>) -> AppServicesView<I> {
        AppServicesView {
            snapshot: AppSnapshotView {
                runtime: shown_status(status),
                runtime_info: status.runtime,
                last_error: match status.last_error {
                    Some(error) => Some(error.message@),
                    None => None,
                },
                ..self.snapshot
            },
            ..self
        }
    }

    /// With what is known of the core as a service of the system.
    pub open spec fn with_core_service(self, service: CoreServiceSnapshot) -> AppServicesView<I> {
        AppServicesView {
            snapshot: AppSnapshotView { core_service: service, ..self.snapshot },
            ..self
        }
    }

    /// With what was found out of the core as a service of the system, if anything.
    pub open spec fn with_found_service<E>(
        self,
        found: Result<CoreServiceSnapshot, E>,
    ) -> AppServicesView<I> {
        match found {
            Ok(service) => self.with_core_service(service),
            Err(_) => self,
        }
    }
}

impl<I> AppServices<I> {
    /// The application at its start: the user's configuration is in use, and the core is idle.
    /// Where the platform does not tell what the core is as a service, it counts as none.
    pub fn with_paths<R, E>(
        paths: AppPaths,
        core_document: Option<&ConfigDocument<R>>,
        queried: Result<CoreServiceSnapshot, E>,
    ) -> (r: Self)
        ensures
            r@ == (AppServicesView {
                paths: paths@,
                snapshot: AppSnapshotView::<I> {
                    active_profile: Some("core.common.config.yaml"@),
                    controller_addr: Some(
                        controller_url(controller_of(document_view(core_document))),
                    ),
                    runtime: RuntimeStatusView::Idle,
                    runtime_info: None,
                    last_error: None,
                    core_service: match queried {
                        Ok(service) => service,
                        Err(_) => CoreServiceSnapshot { installed: false, running: false },
                    },
                },
                shutdown_stop_started: false,
            }),
    {
        let core_service = match queried {
            Ok(core_service) => core_service,
            Err(_) => CoreServiceSnapshot::default(),
        };
        let snapshot = AppSnapshot {
            active_profile: Some("core.common.config.yaml".to_owned()),
            controller_addr: Some(
                MihomoClientFactory::endpoint_from_document(core_document).base_url,
            ),
            runtime: RuntimeStatus::Idle,
            runtime_info: None,
            last_error: None,
            core_service,
        };
        AppServices { paths, snapshot, shutdown_stop_started: false }
    }

    /// Where the core's program is looked for. The controller is asked only once the core is known
    /// to run: before that nothing listens there yet.
    pub fn detection_options<R>(&self, document: Option<&ConfigDocument<R>>) -> (r:
        RuntimeDetectionOptions)
        ensures
            r.config_dir.deep_view() == Some(self@.paths.config_dir),
            r.cores_dir@ == self@.paths.cores_dir,
            r.controller_addr.deep_view() == (if self@.snapshot.runtime is Running {
                Some(controller_url(controller_of(document_view(document))))
            } else {
                None
            }),
    {
        let controller_addr: Option<String> = match &self.snapshot.runtime {
            RuntimeStatus::Running => Some(
                MihomoClientFactory::endpoint_from_document(document).base_url,
            ),
            _ => None,
        };
        RuntimeDetectionOptions {
            config_dir: Some(self.paths.config_dir.clone()),
            cores_dir: self.paths.cores_dir.clone(),
            controller_addr,
        }
    }

    /// Shows what the core's service reports, once it has looked for the core's program.
    pub fn detect_core<E>(&mut self, prepared: Result<MihomoServiceStatus<I>, E>) -> (r: Result<
        (),
        E,
    >)
        ensures
            match prepared {
                Ok(status) => r is Ok && final(self)@ == old(self)@.with_status(status),
                Err(e) => r == Err::<(), E>(e) && final(self)@ == old(self)@,
            },
    {
        match prepared {
            Ok(status) => {
                self.apply_mihomo_status(status);
                Ok(())
            },
            Err(e) => Err(e),
        }
    }

    /// Shows what the core's service reports, once it has made the core's program ready.
    pub fn prepare_core<E>(&mut self, prepared: Result<MihomoServiceStatus<I>, E>) -> (r: Result<
        (),
        E,
    >)
        ensures
            match prepared {
                Ok(status) => r is Ok && final(self)@ == old(self)@.with_status(status),
                Err(e) => r == Err::<(), E>(e) && final(self)@ == old(self)@,
            },
    {
        self.detect_core(prepared)
    }

    /// Shows the controller's address after the settings were stored, and nothing new where they
    /// were not.
    pub fn save_settings<R, E>(
        &mut self,
        saved: Result<(), E>,
        document: Option<&ConfigDocument<R>>,
    ) -> (r: Result<(), E>)
        ensures
            r == saved,
            final(self)@ == (if saved is Ok {
                old(self)@.with_controller(document_view(document))
            } else {
                old(self)@
            }),
    {
        if saved.is_ok() {
            self.refresh_settings_projection(document);
        }
        saved
    }

    /// Shows the controller's address of the configuration.
    pub fn refresh_settings_projection<R>(&mut self, document: Option<&ConfigDocument<R>>)
        ensures
            final(self)@ == old(self)@.with_controller(document_view(document)),
    {
        let endpoint = MihomoClientFactory::endpoint_from_document(document);
        self.snapshot.controller_addr = Some(endpoint.base_url);
    }

    /// Shows the user's configuration as the one in use.
    pub fn apply_core_config_projection<R>(&mut self, document: Option<&ConfigDocument<R>>)
        ensures
            final(self)@ == old(self)@.with_core_config(document_view(document)),
    {
        self.snapshot.active_profile = Some("core.common.config.yaml".to_owned());
        self.refresh_settings_projection(document);
    }

    /// Shows what the core's service reports.
    pub fn apply_mihomo_status(&mut self, status: MihomoServiceStatus<I>)
        ensures
            final(self)@ == old(self)@.with_status(status),
    {
        self.snapshot.runtime = runtime_status_from_mihomo(&status);
        self.snapshot.runtime_info = status.runtime;
        self.snapshot.last_error =
        match status.last_error {
            Some(error) => Some(error.message),
            None => None,
        };
    }

    /// Shows what was found out of the core as a service of the system.
    fn apply_core_service<E>(&mut self, found: Result<CoreServiceSnapshot, E>) -> (r: Result<
        CoreServiceSnapshot,
        E,
    >)
        ensures
            r == found,
            final(self)@ == old(self)@.with_found_service(found),
    {
        match found {
            Ok(service) => {
                self.snapshot.core_service = service;
                Ok(service)
            },
            Err(e) => Err(e),
        }
    }

    /// Shows what the core is as a service of the system, once the platform was asked.
    pub fn refresh_core_service_projection<E>(
        &mut self,
        queried: Result<CoreServiceSnapshot, E>,
    ) -> (r: Result<CoreServiceSnapshot, E>)
        ensures
            r == queried,
            final(self)@ == old(self)@.with_found_service(queried),
    {
        self.apply_core_service(queried)
    }

    /// Shows what the core is as a service, once the platform has tried to make it one.
    pub fn install_core_service<E>(&mut self, installed: Result<CoreServiceSnapshot, E>) -> (r:
        Result<CoreServiceSnapshot, E>)
        ensures
            r == installed,
            final(self)@ == old(self)@.with_found_service(installed),
    {
        self.apply_core_service(installed)
    }

    /// Shows what the core is as a service, once the platform has tried to remove it.
    pub fn uninstall_core_service<E>(&mut self, removed: Result<CoreServiceSnapshot, E>) -> (r:
        Result<CoreServiceSnapshot, E>)
        ensures
            r == removed,
            final(self)@ == old(self)@.with_found_service(removed),
    {
        self.apply_core_service(removed)
    }
}

/// Of what the core's service reports, the phase decides what is shown. An error is shown only for
/// a failed core, and only in the form without secrets; without one a fixed text stands in its
/// place.
pub proof fn law_shown_status<I>(status: MihomoServiceStatus<I>)
    ensures
        status.phase == MihomoServicePhase::Idle || status.phase == MihomoServicePhase::Ready
            || status.phase == MihomoServicePhase::Preparing <==> shown_status(status) is Idle,
        status.phase == MihomoServicePhase::Starting <==> shown_status(status) is Starting,
        status.phase == MihomoServicePhase::Running <==> shown_status(status) is Running,
        status.phase == MihomoServicePhase::Stopping <==> shown_status(status) is Stopping,
        status.phase == MihomoServicePhase::Failed <==> shown_status(status) is Failed,
        shown_status(status) matches RuntimeStatusView::Failed { message } ==> {
            &&& status.last_error matches Some(error) ==> message == error.redacted@
            &&& status.last_error is None ==> message == "mihomo 状态异常"@
        },
{
}

/// A report of the core's service changes what is shown of the core - its state, its program and
/// its last error - and nothing else. An earlier report makes no difference to a later one.
pub proof fn law_with_status<I>(
    services: AppServicesView<I>,
    status: MihomoServiceStatus<I>,
    later: MihomoServiceStatus<I>,
)
    ensures
        ({
            let after = services.with_status(status);
            &&& after.snapshot.runtime == shown_status(status)
            &&& after.snapshot.runtime_info == status.runtime
            &&& status.last_error matches Some(error) ==> after.snapshot.last_error == Some(
                error.message@,
            )
            &&& status.last_error is None ==> after.snapshot.last_error is None
            &&& after.snapshot.active_profile == services.snapshot.active_profile
            &&& after.snapshot.controller_addr == services.snapshot.controller_addr
            &&& after.snapshot.core_service == services.snapshot.core_service
            &&& after.paths == services.paths
            &&& after.shutdown_stop_started == services.shutdown_stop_started
            &&& after.with_status(later) == services.with_status(later)
        }),
{
}

/// A configuration that is put in use changes the name of the one in use and the controller's
/// address, and nothing else. One that is only read again changes the address alone.
pub proof fn law_with_core_config<I, R>(
    services: AppServicesView<I>,
    config: Option<ConfigView<R>>,
)
    ensures
        ({
            let after = services.with_core_config(config);
            let read = services.with_controller(config);
            &&& after.snapshot.active_profile == Some("core.common.config.yaml"@)
            &&& read.snapshot.active_profile == services.snapshot.active_profile
            &&& after.snapshot.controller_addr == Some(controller_url(controller_of(config)))
            &&& read.snapshot.controller_addr == after.snapshot.controller_addr
            &&& after.snapshot.runtime == services.snapshot.runtime && read.snapshot.runtime
                == services.snapshot.runtime
            &&& after.snapshot.runtime_info == services.snapshot.runtime_info
                && read.snapshot.runtime_info == services.snapshot.runtime_info
            &&& after.snapshot.last_error == services.snapshot.last_error
                && read.snapshot.last_error == services.snapshot.last_error
            &&& after.snapshot.core_service == services.snapshot.core_service
                && read.snapshot.core_service == services.snapshot.core_service
            &&& after.paths == services.paths && read.paths == services.paths
            &&& after.shutdown_stop_started == services.shutdown_stop_started
                && read.shutdown_stop_started == services.shutdown_stop_started
        }),
{
}

/// What was found out of the core as a service of the system is shown as it was found, and nothing
/// else changes. Where nothing was found out, nothing changes at all.
pub proof fn law_with_found_service<I, E>(
    services: AppServicesView<I>,
    found: Result<CoreServiceSnapshot, E>,
)
    ensures
        found is Err ==> services.with_found_service(found) == services,
        found matches Ok(service) ==> {
            let after = services.with_found_service(found);
            &&& after.snapshot.core_service.installed == service.installed
            &&& after.snapshot.core_service.running == service.running
            &&& after.snapshot.active_profile == services.snapshot.active_profile
            &&& after.snapshot.controller_addr == services.snapshot.controller_addr
            &&& after.snapshot.runtime == services.snapshot.runtime
            &&& after.snapshot.runtime_info == services.snapshot.runtime_info
            &&& after.snapshot.last_error == services.snapshot.last_error
            &&& after.paths == services.paths
            &&& after.shutdown_stop_started == services.shutdown_stop_started
        },
{
}

/// The core's program is looked for in the configuration directory and the core's own. The
/// controller is asked exactly where the core is shown as running, and then at the address that the
/// configuration gives.
pub proof fn law_detection_options<I, R>(
    services: &AppServices<I>,
    document: Option<&ConfigDocument<R>>,
    options: RuntimeDetectionOptions,
)
    requires
        call_ensures(AppServices::<I>::detection_options::<R>, (services, document), options),
    ensures
        options.config_dir matches Some(dir) && dir@ == services.paths.config_dir@,
        options.cores_dir@ == services.paths.cores_dir@,
        services.snapshot.runtime is Running <==> options.controller_addr is Some,
        options.controller_addr matches Some(address) ==> address@ == controller_url(
            controller_of(document_view(document)),
        ),
{
}

/// At its start the application works in the directories that it was given, shows the user's
/// configuration as the one in use with its controller, and the core as idle without a program or
/// an error. The core as a service is shown as the platform tells, or as none. No exit has begun.
pub proof fn law_start<I, R, E>(
    paths: AppPaths,
    document: Option<&ConfigDocument<R>>,
    queried: Result<CoreServiceSnapshot, E>,
    services: AppServices<I>,
)
    requires
        call_ensures(AppServices::<I>::with_paths::<R, E>, (paths, document, queried), services),
    ensures
        services.paths@ == paths@,
        services@.snapshot.active_profile == Some("core.common.config.yaml"@),
        services@.snapshot.controller_addr == Some(
            controller_url(controller_of(document_view(document))),
        ),
        services@.snapshot.runtime is Idle,
        services@.snapshot.runtime_info is None,
        services@.snapshot.last_error is None,
        queried matches Ok(service) ==> services@.snapshot.core_service == service,
        queried is Err ==> !services@.snapshot.core_service.installed
            && !services@.snapshot.core_service.running,
        !services.shutdown_stop_started,
{
}

/// The core's service works in the application's own directories.
pub proof fn law_core_service_paths(paths: &AppPaths, own: CoreServicePaths)
    requires
        call_ensures(core_service_paths, (paths,), own),
    ensures
        own.config_dir@ == paths.config_dir@,
        own.data_dir@ == paths.data_dir@,
        own.cache_dir@ == paths.cache_dir@,
        own.cores_dir@ == paths.cores_dir@,
        own.logs_dir@ == paths.logs_dir@,
{
}

/// Of the application each part is seen as it is.
pub proof fn law_services_view<I>(services: AppServices<I>)
    ensures
        services@.shutdown_stop_started == services.shutdown_stop_started,
        services@.paths == services.paths@,
        services@.snapshot.core_service == services.snapshot.core_service,
        services@.snapshot.runtime_info == services.snapshot.runtime_info,
        services@.snapshot.runtime == services.snapshot.runtime@,
        services.snapshot.active_profile matches Some(name) ==> services@.snapshot.active_profile
            == Some(name@),
        services.snapshot.controller_addr matches Some(address)
            ==> services@.snapshot.controller_addr == Some(address@),
        services.snapshot.last_error matches Some(error) ==> services@.snapshot.last_error == Some(
            error@,
        ),
        services.snapshot.last_error is None ==> services@.snapshot.last_error is None,
        services.snapshot.runtime matches RuntimeStatus::Failed { message }
            ==> services@.snapshot.runtime == (RuntimeStatusView::Failed { message: message@ }),
{
}

} // verus!

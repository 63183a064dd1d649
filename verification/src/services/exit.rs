//! Stopping the core before the application exits.

use vstd::prelude::*;

use crate::core_service::types::CoreServiceSnapshot;
use crate::host::HostPlatform;
use crate::services::state::{
    AppServices, AppServicesView, AppSnapshotView, MihomoServiceStatus, RuntimeStatus,
    RuntimeStatusView,
};

verus! {

/// An exit that has tried to stop the core, and awaits what becomes of the core as a service.
#[derive(Debug, PartialEq, Eq)]
pub struct ExitPending<I, E> {
    /// What the core's service reported, where it could be stopped.
    pub status: Option<MihomoServiceStatus<I>>,
    /// The failure that stands between the application and its exit.
    pub first_error: Option<E>,
}

/// What an exit does next.
#[derive(Debug, PartialEq, Eq)]
pub enum ExitStep<I, E> {
    /// It awaits that the core is stopped.
    StopCore,
    /// It awaits whether the core runs as a service of the system.
    QueryService(ExitPending<I, E>),
    /// It awaits that the service is stopped.
    StopService(ExitPending<I, E>),
    /// The core has stopped. It awaits that the proxies of the system are put back.
    DisableProxy,
    /// It is over.
    Done(Result<(), E>),
}

/// How an exit begins. One that is under way or went well is not begun again.
pub open spec fn exit_start<I, E>(services: AppServicesView<I>) -> (
    AppServicesView<I>,
    ExitStep<I, E>,
) {
    if services.shutdown_stop_started {
        (services, ExitStep::Done(Ok(())))
    } else {
        (AppServicesView { shutdown_stop_started: true, ..services }, ExitStep::StopCore)
    }
}

/// The failure that is reported: an earlier one goes before a later one.
pub open spec fn first_failure<E>(earlier: Option<E>, later: E) -> Option<E> {
    match earlier {
        Some(e) => Some(e),
        None => Some(later),
    }
}

/// How an exit ends. The core is shown as its service reports it, or as idle where there is no
/// report. A failure makes room for another try.
pub open spec fn exit_end<I, E>(services: AppServicesView<I>, pending: ExitPending<I, E>) -> (
    AppServicesView<I>,
    ExitStep<I, E>,
) {
    let shown = match pending.status {
        Some(status) => services.with_status(status),
        None => AppServicesView {
            snapshot: AppSnapshotView { runtime: RuntimeStatusView::Idle, ..services.snapshot },
            ..services
        },
    };
    match pending.first_error {
        Some(e) => (
            AppServicesView { shutdown_stop_started: false, ..shown },
            ExitStep::Done(Err(e)),
        ),
        None => (shown, ExitStep::DisableProxy),
    }
}

/// What an exit does once it has tried to stop the core. On Windows the core may also run as a
/// service that the application has not started itself.
pub open spec fn after_core_stop<I, E>(
    services: AppServicesView<I>,
    host: HostPlatform,
    stopped: Result<MihomoServiceStatus<I>, E>,
) -> (AppServicesView<I>, ExitStep<I, E>) {
    let pending = match stopped {
        Ok(status) => ExitPending { status: Some(status), first_error: None },
        Err(e) => ExitPending { status: None, first_error: Some(e) },
    };
    if host == HostPlatform::Windows {
        (services, ExitStep::QueryService(pending))
    } else {
        exit_end(services, pending)
    }
}

/// What an exit does once it knows of the service. Where none runs, no earlier failure counts.
pub open spec fn after_service_query<I, E>(
    services: AppServicesView<I>,
    pending: ExitPending<I, E>,
    found: Result<CoreServiceSnapshot, E>,
) -> (AppServicesView<I>, ExitStep<I, E>) {
    match found {
        Ok(service) => if service.running {
            (services, ExitStep::StopService(pending))
        } else {
            exit_end(services, ExitPending { first_error: None, ..pending })
        },
        Err(e) => exit_end(
            services,
            ExitPending { first_error: first_failure(pending.first_error, e), ..pending },
        ),
    }
}

/// What an exit does once it has tried to stop the service. Where that went well, no earlier
/// failure counts.
pub open spec fn after_service_stop<I, E>(
    services: AppServicesView<I>,
    pending: ExitPending<I, E>,
    stopped: Result<(), E>,
) -> (AppServicesView<I>, ExitStep<I, E>) {
    match stopped {
        Ok(()) => exit_end(services, ExitPending { first_error: None, ..pending }),
        Err(e) => exit_end(
            services,
            ExitPending { first_error: first_failure(pending.first_error, e), ..pending },
        ),
    }
}

/// How an exit ends once the proxies were put back, as far as they could be.
pub open spec fn after_proxy<I, E>() -> ExitStep<I, E> {
    ExitStep::Done(Ok(()))
}

/// Ends an exit once the proxies were put back, as far as they could be.
pub fn system_proxy_disabled<I, E>() -> (r: ExitStep<I, E>)
    ensures
        r == after_proxy::<I, E>(),
{
    ExitStep::Done(Ok(()))
}

fn keep_first<E>(earlier: Option<E>, later: E) -> (r: Option<E>)
    ensures
        r == first_failure(earlier, later),
{
    match earlier {
        Some(e) => Some(e),
        None => Some(later),
    }
}

impl<I> AppServices<I> {
    /// Begins to stop the core for an exit.
    pub fn stop_core_before_exit<E>(&mut self) -> (r: ExitStep<I, E>)
        ensures
            (final(self)@, r) == exit_start::<I, E>(old(self)@),
    {
        if self.shutdown_stop_started {
            ExitStep::Done(Ok(()))
        } else {
            self.shutdown_stop_started = true;
            ExitStep::StopCore
        }
    }

    /// Goes on once it was tried to stop the core.
    pub fn core_stopped<E>(
        &mut self,
        host: HostPlatform,
        stopped: Result<MihomoServiceStatus<I>, E>,
    ) -> (r: ExitStep<I, E>)
        ensures
            (final(self)@, r) == after_core_stop(old(self)@, host, stopped),
    {
        let pending = match stopped {
            Ok(status) => ExitPending { status: Some(status), first_error: None },
            Err(e) => ExitPending { status: None, first_error: Some(e) },
        };
        match host {
            HostPlatform::Windows => ExitStep::QueryService(pending),
            _ => self.finish_exit(pending),
        }
    }

    /// Goes on once it is known whether the core runs as a service.
    pub fn core_service_queried<E>(
        &mut self,
        pending: ExitPending<I, E>,
        found: Result<CoreServiceSnapshot, E>,
    ) -> (r: ExitStep<I, E>)
        ensures
            (final(self)@, r) == after_service_query(old(self)@, pending, found),
    {
        match found {
            Ok(service) => if service.running {
                ExitStep::StopService(pending)
            } else {
                self.finish_exit(ExitPending { status: pending.status, first_error: None })
            },
            Err(e) => {
                let first_error = keep_first(pending.first_error, e);
                self.finish_exit(ExitPending { status: pending.status, first_error })
            },
        }
    }

    /// Goes on once it was tried to stop the service.
    pub fn core_service_stopped<E>(
        &mut self,
        pending: ExitPending<I, E>,
        stopped: Result<(), E>,
    ) -> (r: ExitStep<I, E>)
        ensures
            (final(self)@, r) == after_service_stop(old(self)@, pending, stopped),
    {
        match stopped {
            Ok(()) => self.finish_exit(ExitPending { status: pending.status, first_error: None }),
            Err(e) => {
                let first_error = keep_first(pending.first_error, e);
                self.finish_exit(ExitPending { status: pending.status, first_error })
            },
        }
    }

    fn finish_exit<E>(&mut self, pending: ExitPending<I, E>) -> (r: ExitStep<I, E>)
        ensures
            (final(self)@, r) == exit_end(old(self)@, pending),
    {
        match pending.status {
            Some(status) => {
                self.apply_mihomo_status(status);
            },
            None => {
                self.snapshot.runtime = RuntimeStatus::Idle;
            },
        }
        match pending.first_error {
            Some(e) => {
                self.shutdown_stop_started = false;
                ExitStep::Done(Err(e))
            },
            None => ExitStep::DisableProxy,
        }
    }
}

/// Where an exit leads with what it finds when it asks.
pub open spec fn exit_run<I, E>(
    services: AppServicesView<I>,
    host: HostPlatform,
    stopped: Result<MihomoServiceStatus<I>, E>,
    found: Result<CoreServiceSnapshot, E>,
    service_stopped: Result<(), E>,
) -> (AppServicesView<I>, ExitStep<I, E>) {
    let (begun, first) = exit_start(services);
    match first {
        ExitStep::StopCore => {
            let (tried, second) = after_core_stop(begun, host, stopped);
            match second {
                ExitStep::QueryService(pending) => {
                    let (queried, third) = after_service_query(tried, pending, found);
                    match third {
                        ExitStep::StopService(pending) => after_service_stop(
                            queried,
                            pending,
                            service_stopped,
                        ),
                        _ => (queried, third),
                    }
                },
                _ => (tried, second),
            }
        },
        _ => (begun, first),
    }
}

/// When an exit goes well: elsewhere than on Windows where the core could be stopped, and on
/// Windows where in the end the core does not run as a service.
pub open spec fn exit_goes_well<I, E>(
    host: HostPlatform,
    stopped: Result<MihomoServiceStatus<I>, E>,
    found: Result<CoreServiceSnapshot, E>,
    service_stopped: Result<(), E>,
) -> bool {
    if host == HostPlatform::Windows {
        found matches Ok(service) && (!service.running || service_stopped is Ok)
    } else {
        stopped is Ok
    }
}

/// An exit that goes well puts the proxies back, ends well and is not begun a second time. One that
/// fails reports the first failure, leaves the proxies as they are and can be tried again. Either
/// way the core is shown as it reported itself, or as idle.
pub proof fn law_exit<I, E>(
    services: AppServicesView<I>,
    host: HostPlatform,
    stopped: Result<MihomoServiceStatus<I>, E>,
    found: Result<CoreServiceSnapshot, E>,
    service_stopped: Result<(), E>,
)
    requires
        !services.shutdown_stop_started,
    ensures
        ({
            let (after, step) = exit_run(services, host, stopped, found, service_stopped);
            let (again, next) = exit_start::<I, E>(after);
            &&& exit_goes_well(host, stopped, found, service_stopped) ==> step
                == ExitStep::<I, E>::DisableProxy && after_proxy::<I, E>() == ExitStep::<
                I,
                E,
            >::Done(Ok(())) && again == after && next == ExitStep::<I, E>::Done(Ok(()))
            &&& !exit_goes_well(host, stopped, found, service_stopped) ==> step is Done
                && step->Done_0 is Err && next == ExitStep::<I, E>::StopCore
            &&& step matches ExitStep::Done(Err(e)) ==> match (stopped, found, service_stopped) {
                (Err(first), _, _) => e == first,
                (Ok(_), Err(second), _) => e == second,
                (Ok(_), Ok(_), Err(third)) => e == third,
                _ => false,
            }
            &&& stopped matches Ok(status) ==> after.snapshot == services.with_status(
                status,
            ).snapshot
            &&& stopped is Err ==> after.snapshot == (AppSnapshotView {
                runtime: RuntimeStatusView::Idle,
                ..services.snapshot
            })
            &&& after.paths == services.paths
        }),
{
}

/// While an exit is under way, or after one that went well, another changes nothing and stops
/// nothing.
pub proof fn law_exit_once<I, E>(
    services: AppServicesView<I>,
    host: HostPlatform,
    stopped: Result<MihomoServiceStatus<I>, E>,
    found: Result<CoreServiceSnapshot, E>,
    service_stopped: Result<(), E>,
)
    requires
        services.shutdown_stop_started,
    ensures
        exit_run(services, host, stopped, found, service_stopped) == (
            services,
            ExitStep::<I, E>::Done(Ok(())),
        ),
{
}

/// An exit first asks for the core to be stopped. Elsewhere than on Windows that decides: where it
/// went well the proxies are put back, and a failure is the outcome. On Windows the service
/// decides: the proxies are put back where no service runs or it could be stopped, whatever came of
/// the core. Else the outcome is the failure to stop the core, where there was one, or what came of
/// the service. Only an exit that comes to put the proxies back counts as begun from then on.
pub proof fn law_exit_outcome<I, E>(
    services: AppServicesView<I>,
    host: HostPlatform,
    stopped: Result<MihomoServiceStatus<I>, E>,
    found: Result<CoreServiceSnapshot, E>,
    service_stopped: Result<(), E>,
)
    requires
        !services.shutdown_stop_started,
    ensures
        exit_start::<I, E>(services).1 == ExitStep::<I, E>::StopCore,
        ({
            let (after, step) = exit_run(services, host, stopped, found, service_stopped);
            &&& after.shutdown_stop_started <==> step is DisableProxy
            &&& host != HostPlatform::Windows ==> match stopped {
                Ok(_) => step is DisableProxy,
                Err(e) => step == ExitStep::<I, E>::Done(Err(e)),
            }
            &&& host == HostPlatform::Windows ==> match (found, service_stopped) {
                (Ok(service), Ok(_)) => step is DisableProxy,
                (Ok(service), Err(e)) => if service.running {
                    match stopped {
                        Err(first) => step == ExitStep::<I, E>::Done(Err(first)),
                        Ok(_) => step == ExitStep::<I, E>::Done(Err(e)),
                    }
                } else {
                    step is DisableProxy
                },
                (Err(e), _) => match stopped {
                    Err(first) => step == ExitStep::<I, E>::Done(Err(first)),
                    Ok(_) => step == ExitStep::<I, E>::Done(Err(e)),
                },
            }
        }),
        after_proxy::<I, E>() == ExitStep::<I, E>::Done(Ok(())),
{
}

} // verus!

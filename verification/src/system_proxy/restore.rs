//! Putting the proxies back that a snapshot holds.

use vstd::prelude::*;

use crate::errors::{PlatformError, PlatformErrorView};
use crate::host::HostPlatform;
use crate::system_proxy::capture::{
    are_reports, capture_macos_proxy_snapshot_for_services, capture_resumed, kind_at, next_reading,
    snapshot_of, CaptureState, CaptureStateView, CaptureStep, CaptureStepView,
};
use crate::system_proxy::commands::{
    get_args, macos_restore_proxy_args, restore_args, saved_port, MacosProxyKind,
};
use crate::system_proxy::report::{
    listed_services, parse_macos_network_services, reported_proxy,
};
use crate::system_proxy::request::{
    contains_text, no_proxy_restore, reply_view, NetworkSetupRequest, RequestView,
};
use crate::system_proxy::state::{
    find_service, first_named, invalid_port, is_owned, law_first_named, law_owned,
    service_snapshot_matches_local_proxy,
    validate_port, MacosProxyStateView, SystemProxyRestore, SystemProxyRestoreView,
    SystemProxyServiceSnapshot, SystemProxyServiceSnapshotView, SystemProxySnapshot,
    SystemProxySnapshotView,
};
use crate::system_proxy::update::all_ok;

verus! {

/// What is to be run, and what to report when all of it went well.
#[derive(Debug, PartialEq, Eq)]
pub struct RestorePlan {
    pub commands: Vec<Vec<String>>,
    pub outcome: Result<SystemProxyRestore, PlatformError>,
}

/// What a `RestorePlan` holds.
pub struct RestorePlanView {
    pub commands: Seq<Seq<Seq<char>>>,
    pub outcome: Result<SystemProxyRestoreView, PlatformErrorView>,
}

/// What an outcome holds.
pub open spec fn outcome_view(outcome: Result<SystemProxyRestore, PlatformError>) -> Result<
    SystemProxyRestoreView,
    PlatformErrorView,
> {
    match outcome {
        Ok(restore) => Ok(restore@),
        Err(e) => Err(e@),
    }
}

impl View for RestorePlan {
    type V = RestorePlanView;

    open spec fn view(&self) -> RestorePlanView {
        RestorePlanView {
            commands: self.commands.deep_view(),
            outcome: outcome_view(self.outcome),
        }
    }
}

/// The proxy of that kind.
pub open spec fn proxy_of(
    saved: SystemProxyServiceSnapshotView,
    kind: MacosProxyKind,
) -> MacosProxyStateView {
    match kind {
        MacosProxyKind::Web => saved.web,
        MacosProxyKind::SecureWeb => saved.secure_web,
        MacosProxyKind::Socks => saved.socks,
    }
}

/// The commands that put a service's proxies back, up to the first proxy whose port cannot be
/// one.
pub open spec fn service_commands(saved: SystemProxyServiceSnapshotView) -> Seq<Seq<Seq<char>>> {
    let web = restore_args(MacosProxyKind::Web, saved.service, saved.web);
    let secure_web = restore_args(MacosProxyKind::SecureWeb, saved.service, saved.secure_web);
    let socks = restore_args(MacosProxyKind::Socks, saved.service, saved.socks);
    if saved_port(saved.web) > 65535 {
        Seq::empty()
    } else if saved_port(saved.secure_web) > 65535 {
        web
    } else if saved_port(saved.socks) > 65535 {
        web + secure_web
    } else {
        web + secure_web + socks
    }
}

/// The complaint about the first proxy of a service whose port cannot be one.
pub open spec fn service_complaint(saved: SystemProxyServiceSnapshotView) -> Option<
    PlatformErrorView,
> {
    if saved_port(saved.web) > 65535 {
        Some(invalid_port(saved_port(saved.web)))
    } else if saved_port(saved.secure_web) > 65535 {
        Some(invalid_port(saved_port(saved.secure_web)))
    } else if saved_port(saved.socks) > 65535 {
        Some(invalid_port(saved_port(saved.socks)))
    } else {
        None
    }
}

/// The plan with one more service. A service that is not there any more is passed over. One whose
/// proxies are not the application's now is left alone and reported. After a complaint nothing
/// more is planned.
pub open spec fn plan_with(
    plan: RestorePlanView,
    saved: SystemProxyServiceSnapshotView,
    current: Seq<SystemProxyServiceSnapshotView>,
    port: u32,
) -> RestorePlanView {
    match plan.outcome {
        Err(_) => plan,
        Ok(restore) => match first_named(current, saved.service) {
            None => plan,
            Some(now) => if !now.is_local(port) {
                RestorePlanView {
                    commands: plan.commands,
                    outcome: Ok(
                        SystemProxyRestoreView {
                            restored_services: restore.restored_services,
                            skipped_services: restore.skipped_services.push(saved.service),
                        },
                    ),
                }
            } else {
                RestorePlanView {
                    commands: plan.commands + service_commands(saved),
                    outcome: match service_complaint(saved) {
                        Some(e) => Err(e),
                        None => Ok(
                            SystemProxyRestoreView {
                                restored_services: restore.restored_services.push(saved.service),
                                skipped_services: restore.skipped_services,
                            },
                        ),
                    },
                }
            },
        },
    }
}

/// How the saved services are put back while the proxies are as `current` shows them.
pub open spec fn plan_of(
    saved: Seq<SystemProxyServiceSnapshotView>,
    current: Seq<SystemProxyServiceSnapshotView>,
    port: u32,
) -> RestorePlanView
    decreases saved.len(),
{
    if saved.len() == 0 {
        RestorePlanView {
            commands: Seq::empty(),
            outcome: Ok(
                SystemProxyRestoreView {
                    restored_services: Seq::empty(),
                    skipped_services: Seq::empty(),
                },
            ),
        }
    } else {
        plan_with(plan_of(saved.drop_last(), current, port), saved.last(), current, port)
    }
}

/// The saved services that are still there.
pub open spec fn still_there(
    saved: Seq<SystemProxyServiceSnapshotView>,
    available: Seq<Seq<char>>,
) -> Seq<Seq<char>>
    decreases saved.len(),
{
    if saved.len() == 0 {
        Seq::empty()
    } else if available.contains(saved.last().service) {
        still_there(saved.drop_last(), available).push(saved.last().service)
    } else {
        still_there(saved.drop_last(), available)
    }
}

/// Where a restore stands while a run of the program is awaited.
#[derive(Debug, PartialEq, Eq)]
pub enum RestoreState {
    /// The services are being listed.
    Listing { snapshot: SystemProxySnapshot },
    /// The present proxies are being read.
    Reading { snapshot: SystemProxySnapshot, capture: CaptureState },
    /// A command is running; these are left after it.
    Running { remaining: Vec<Vec<String>>, outcome: Result<SystemProxyRestore, PlatformError> },
}

/// What a `RestoreState` holds.
pub enum RestoreStateView {
    Listing { snapshot: SystemProxySnapshotView },
    Reading { snapshot: SystemProxySnapshotView, capture: CaptureStateView },
    Running {
        remaining: Seq<Seq<Seq<char>>>,
        outcome: Result<SystemProxyRestoreView, PlatformErrorView>,
    },
}

impl View for RestoreState {
    type V = RestoreStateView;

    open spec fn view(&self) -> RestoreStateView {
        match self {
            RestoreState::Listing { snapshot } => RestoreStateView::Listing {
                snapshot: snapshot@,
            },
            RestoreState::Reading { snapshot, capture } => RestoreStateView::Reading {
                snapshot: snapshot@,
                capture: capture@,
            },
            RestoreState::Running { remaining, outcome } => RestoreStateView::Running {
                remaining: remaining.deep_view(),
                outcome: outcome_view(*outcome),
            },
        }
    }
}

/// What a restore does next.
#[derive(Debug, PartialEq, Eq)]
pub enum RestoreStep {
    /// It awaits a run of the program.
    Pending { request: NetworkSetupRequest, state: RestoreState },
    /// It is over.
    Done(Result<SystemProxyRestore, PlatformError>),
}

/// What a `RestoreStep` holds.
pub enum RestoreStepView {
    Pending { request: RequestView, state: RestoreStateView },
    Done(Result<SystemProxyRestoreView, PlatformErrorView>),
}

impl View for RestoreStep {
    type V = RestoreStepView;

    open spec fn view(&self) -> RestoreStepView {
        match self {
            RestoreStep::Pending { request, state } => RestoreStepView::Pending {
                request: request@,
                state: state@,
            },
            RestoreStep::Done(outcome) => RestoreStepView::Done(outcome_view(*outcome)),
        }
    }
}

/// The next of the commands, or the outcome where none is left.
pub open spec fn next_restore_command(
    remaining: Seq<Seq<Seq<char>>>,
    outcome: Result<SystemProxyRestoreView, PlatformErrorView>,
) -> RestoreStepView {
    if remaining.len() == 0 {
        RestoreStepView::Done(outcome)
    } else {
        RestoreStepView::Pending {
            request: RequestView::Run(remaining[0]),
            state: RestoreStateView::Running { remaining: remaining.skip(1), outcome },
        }
    }
}

/// What a restore does after its reading of the present proxies has got this far.
pub open spec fn after_reading(
    snapshot: SystemProxySnapshotView,
    reading: CaptureStepView,
) -> RestoreStepView {
    match reading {
        CaptureStepView::Pending { request, state } => RestoreStepView::Pending {
            request,
            state: RestoreStateView::Reading { snapshot, capture: state },
        },
        CaptureStepView::Done(Err(e)) => RestoreStepView::Done(Err(e)),
        CaptureStepView::Done(Ok(current)) => {
            let plan = plan_of(snapshot.services, current.services, snapshot.managed_port);
            next_restore_command(plan.commands, plan.outcome)
        },
    }
}

/// What a restore does after a run of the program. It reads the present proxies of the saved
/// services that are still there, then runs its plan; a failure ends it.
pub open spec fn restore_resumed(
    state: RestoreStateView,
    reply: Result<Seq<char>, PlatformErrorView>,
) -> RestoreStepView {
    match reply {
        Err(e) => RestoreStepView::Done(Err(e)),
        Ok(output) => match state {
            RestoreStateView::Listing { snapshot } => after_reading(
                snapshot,
                next_reading(
                    snapshot.managed_port,
                    still_there(snapshot.services, listed_services(output)),
                    Seq::empty(),
                ),
            ),
            RestoreStateView::Reading { snapshot, capture } => after_reading(
                snapshot,
                capture_resumed(capture, reply),
            ),
            RestoreStateView::Running { remaining, outcome } => next_restore_command(
                remaining,
                outcome,
            ),
        },
    }
}

/// How a restore begins.
pub open spec fn restore_start(snapshot: SystemProxySnapshotView) -> RestoreStepView {
    RestoreStepView::Pending {
        request: RequestView::ListServices,
        state: RestoreStateView::Listing { snapshot },
    }
}

/// Begins to put back the proxies that `snapshot` holds.
pub fn restore_system_proxy_snapshot(
    host: HostPlatform,
    snapshot: &SystemProxySnapshot,
) -> (r: RestoreStep)
    ensures
        r@ == (if !(1 <= snapshot.managed_port <= 65535) {
            RestoreStepView::Done(Err(invalid_port(snapshot.managed_port)))
        } else if host == HostPlatform::Macos {
            restore_start(snapshot@)
        } else {
            RestoreStepView::Done(Err(no_proxy_restore()))
        }),
{
    match validate_port(snapshot.managed_port) {
        Err(e) => RestoreStep::Done(Err(e)),
        Ok(()) => match host {
            HostPlatform::Macos => RestoreStep::Pending {
                request: NetworkSetupRequest::ListServices,
                state: RestoreState::Listing { snapshot: snapshot.clone() },
            },
            _ => RestoreStep::Done(
                Err(
                    PlatformError::Unsupported(
                        "当前平台尚未接入系统代理快照恢复".to_owned(),
                    ),
                ),
            ),
        },
    }
}

fn run_next(
    remaining: Vec<Vec<String>>,
    outcome: Result<SystemProxyRestore, PlatformError>,
) -> (r: RestoreStep)
    ensures
        r@ == next_restore_command(remaining.deep_view(), outcome_view(outcome)),
{
    let mut remaining = remaining;
    if remaining.len() == 0 {
        RestoreStep::Done(outcome)
    } else {
        let ghost whole = remaining.deep_view();
        let args = remaining.remove(0);
        assert(args.deep_view() == whole[0]);
        assert(remaining.deep_view() == whole.skip(1));
        RestoreStep::Pending {
            request: NetworkSetupRequest::Run(args),
            state: RestoreState::Running { remaining, outcome },
        }
    }
}

/// The saved services that are still there.
fn services_still_there(
    saved: &Vec<SystemProxyServiceSnapshot>,
    available: &Vec<String>,
) -> (r: Vec<String>)
    ensures
        r.deep_view() == still_there(saved.deep_view(), available.deep_view()),
{
    let ghost whole = saved.deep_view();
    let mut r: Vec<String> = Vec::new();
    assert(r.deep_view() == still_there(whole.take(0), available.deep_view()));
    for i in 0..saved.len()
        invariant
            whole == saved.deep_view(),
            r.deep_view() == still_there(whole.take(i as int), available.deep_view()),
    {
        let ghost before = r.deep_view();
        proof {
            assert(whole.take(i + 1).drop_last() == whole.take(i as int));
            assert(whole.take(i + 1).last() == saved@[i as int]@);
        }
        if contains_text(available, saved[i].service.as_str()) {
            r.push(saved[i].service.clone());
            assert(r.deep_view() == before.push(saved@[i as int].service@));
        }
    }
    assert(whole.take(saved.len() as int) == whole);
    r
}

/// Adds the commands that put a service's proxies back, up to the first proxy whose port cannot
/// be one.
fn add_service_commands(
    commands: &mut Vec<Vec<String>>,
    saved: &SystemProxyServiceSnapshot,
) -> (r: Result<(), PlatformError>)
    ensures
        final(commands).deep_view() == old(commands).deep_view() + service_commands(saved@),
        match r {
            Ok(()) => service_complaint(saved@) is None,
            Err(e) => service_complaint(saved@) == Some(e@),
        },
{
    let ghost whole = commands.deep_view();
    let ghost web = restore_args(MacosProxyKind::Web, saved@.service, saved@.web);
    let ghost secure_web = restore_args(
        MacosProxyKind::SecureWeb,
        saved@.service,
        saved@.secure_web,
    );
    let ghost socks = restore_args(MacosProxyKind::Socks, saved@.service, saved@.socks);
    let service = saved.service.as_str();
    match macos_restore_proxy_args(MacosProxyKind::Web, service, &saved.web) {
        Ok(args) => {
            let mut args = args;
            commands.append(&mut args);
            assert(commands.deep_view() == whole + web);
        },
        Err(e) => {
            assert(whole + Seq::<Seq<Seq<char>>>::empty() == whole);
            return Err(e);
        },
    }
    match macos_restore_proxy_args(MacosProxyKind::SecureWeb, service, &saved.secure_web) {
        Ok(args) => {
            let mut args = args;
            commands.append(&mut args);
            assert(commands.deep_view() == whole + (web + secure_web));
        },
        Err(e) => {
            return Err(e);
        },
    }
    match macos_restore_proxy_args(MacosProxyKind::Socks, service, &saved.socks) {
        Ok(args) => {
            let mut args = args;
            commands.append(&mut args);
            assert(commands.deep_view() == whole + (web + secure_web + socks));
        },
        Err(e) => {
            return Err(e);
        },
    }
    Ok(())
}

proof fn lemma_plan_prefix(
    saved: Seq<SystemProxyServiceSnapshotView>,
    current: Seq<SystemProxyServiceSnapshotView>,
    port: u32,
    k: int,
)
    requires
        0 <= k <= saved.len(),
        plan_of(saved.take(k), current, port).outcome is Err,
    ensures
        plan_of(saved, current, port) == plan_of(saved.take(k), current, port),
    decreases saved.len(),
{
    if k == saved.len() {
        assert(saved.take(k) == saved);
    } else {
        assert(saved.drop_last().take(k) == saved.take(k));
        lemma_plan_prefix(saved.drop_last(), current, port, k);
    }
}

/// How the saved services are put back while the proxies are as `current` shows them.
pub fn restore_plan(
    snapshot: &SystemProxySnapshot,
    current: &SystemProxySnapshot,
) -> (r: RestorePlan)
    ensures
        r@ == plan_of(snapshot@.services, current@.services, snapshot.managed_port),
{
    let port: u32 = snapshot.managed_port;
    let ghost whole = snapshot@.services;
    let ghost now = current@.services;
    let mut commands: Vec<Vec<String>> = Vec::new();
    let mut restored_services: Vec<String> = Vec::new();
    let mut skipped_services: Vec<String> = Vec::new();
    proof {
        let plan = plan_of(whole.take(0), now, port);
        assert(commands.deep_view() == plan.commands);
        assert(restored_services.deep_view() == plan.outcome->Ok_0.restored_services);
        assert(skipped_services.deep_view() == plan.outcome->Ok_0.skipped_services);
    }
    for i in 0..snapshot.services.len()
        invariant
            port == snapshot.managed_port,
            whole == snapshot@.services,
            now == current@.services,
            plan_of(whole.take(i as int), now, port) == (RestorePlanView {
                commands: commands.deep_view(),
                outcome: Ok(
                    SystemProxyRestoreView {
                        restored_services: restored_services.deep_view(),
                        skipped_services: skipped_services.deep_view(),
                    },
                ),
            }),
    {
        let saved = &snapshot.services[i];
        let ghost restored_before = restored_services.deep_view();
        let ghost skipped_before = skipped_services.deep_view();
        proof {
            assert(whole.take(i + 1).drop_last() == whole.take(i as int));
            assert(whole.take(i + 1).last() == saved@);
        }
        match find_service(&current.services, saved.service.as_str()) {
            None => {},
            Some(service) => {
                if !service_snapshot_matches_local_proxy(service, port) {
                    skipped_services.push(saved.service.clone());
                    assert(skipped_services.deep_view() == skipped_before.push(saved@.service));
                } else {
                    match add_service_commands(&mut commands, saved) {
                        Ok(()) => {
                            restored_services.push(saved.service.clone());
                            assert(restored_services.deep_view() == restored_before.push(
                                saved@.service,
                            ));
                        },
                        Err(e) => {
                            proof {
                                lemma_plan_prefix(whole, now, port, i + 1);
                            }
                            return RestorePlan { commands, outcome: Err(e) };
                        },
                    }
                }
            },
        }
    }
    assert(whole.take(snapshot.services.len() as int) == whole);
    RestorePlan {
        commands,
        outcome: Ok(SystemProxyRestore { restored_services, skipped_services }),
    }
}

fn continue_reading(snapshot: SystemProxySnapshot, reading: CaptureStep) -> (r: RestoreStep)
    ensures
        r@ == after_reading(snapshot@, reading@),
{
    match reading {
        CaptureStep::Pending { request, state } => RestoreStep::Pending {
            request,
            state: RestoreState::Reading { snapshot, capture: state },
        },
        CaptureStep::Done(Err(e)) => RestoreStep::Done(Err(e)),
        CaptureStep::Done(Ok(current)) => {
            let plan = restore_plan(&snapshot, &current);
            run_next(plan.commands, plan.outcome)
        },
    }
}

impl RestoreState {
    /// Goes on after the awaited run of the program.
    pub fn resume(self, reply: Result<String, PlatformError>) -> (r: RestoreStep)
        ensures
            r@ == restore_resumed(self@, reply_view(reply)),
    {
        match self {
            RestoreState::Listing { snapshot } => match reply {
                Err(e) => RestoreStep::Done(Err(e)),
                Ok(output) => {
                    let available = parse_macos_network_services(output.as_str());
                    let services = services_still_there(&snapshot.services, &available);
                    let reading = capture_macos_proxy_snapshot_for_services(
                        snapshot.managed_port,
                        services,
                    );
                    continue_reading(snapshot, reading)
                },
            },
            RestoreState::Reading { snapshot, capture } => {
                let reading = capture.resume(reply);
                continue_reading(snapshot, reading)
            },
            RestoreState::Running { remaining, outcome } => match reply {
                Err(e) => RestoreStep::Done(Err(e)),
                Ok(_) => run_next(remaining, outcome),
            },
        }
    }
}

/// The names of the services.
pub open spec fn names_of(services: Seq<SystemProxyServiceSnapshotView>) -> Seq<Seq<char>> {
    services.map_values(|service: SystemProxyServiceSnapshotView| service.service)
}

/// The saved services whose proxies are the application's now.
pub open spec fn owned_of(
    saved: Seq<SystemProxyServiceSnapshotView>,
    current: Seq<SystemProxyServiceSnapshotView>,
    port: u32,
) -> Seq<SystemProxyServiceSnapshotView> {
    saved.filter(
        |service: SystemProxyServiceSnapshotView| is_owned(current, service.service, port),
    )
}

/// The saved services that are still there and whose proxies are not the application's now.
pub open spec fn foreign_of(
    saved: Seq<SystemProxyServiceSnapshotView>,
    current: Seq<SystemProxyServiceSnapshotView>,
    port: u32,
) -> Seq<SystemProxyServiceSnapshotView> {
    saved.filter(
        |service: SystemProxyServiceSnapshotView|
            first_named(current, service.service) is Some && !is_owned(
                current,
                service.service,
                port,
            ),
    )
}

/// Every command that puts back one of the services, in their order.
pub open spec fn commands_of(saved: Seq<SystemProxyServiceSnapshotView>) -> Seq<Seq<Seq<char>>>
    decreases saved.len(),
{
    if saved.len() == 0 {
        Seq::empty()
    } else {
        commands_of(saved.drop_last()) + service_commands(saved.last())
    }
}

/// The ports of all proxies of the service can be ports.
pub open spec fn has_valid_ports(saved: SystemProxyServiceSnapshotView) -> bool {
    saved_port(saved.web) <= 65535 && saved_port(saved.secure_web) <= 65535 && saved_port(
        saved.socks,
    ) <= 65535
}

/// A restore that comes to its end has put back exactly the saved services whose proxies were
/// still the application's, and reports exactly the others that are still there as skipped, both
/// in the order in which they were saved.
pub proof fn law_restore_takes_back_only_what_is_owned(
    saved: Seq<SystemProxyServiceSnapshotView>,
    current: Seq<SystemProxyServiceSnapshotView>,
    port: u32,
)
    ensures
        plan_of(saved, current, port).outcome matches Ok(restore) ==> {
            &&& restore.restored_services == names_of(owned_of(saved, current, port))
            &&& restore.skipped_services == names_of(foreign_of(saved, current, port))
            &&& plan_of(saved, current, port).commands == commands_of(
                owned_of(saved, current, port),
            )
        },
    decreases saved.len(),
{
    reveal(Seq::filter);
    if saved.len() > 0 {
        let front = saved.drop_last();
        let last = saved.last();
        law_restore_takes_back_only_what_is_owned(front, current, port);
        let owned = owned_of(front, current, port);
        let foreign = foreign_of(front, current, port);
        assert(names_of(owned.push(last)) == names_of(owned).push(last.service));
        assert(names_of(foreign.push(last)) == names_of(foreign).push(last.service));
        assert(owned.push(last).drop_last() == owned);
    } else {
        assert(names_of(owned_of(saved, current, port)) == Seq::<Seq<char>>::empty());
        assert(names_of(foreign_of(saved, current, port)) == Seq::<Seq<char>>::empty());
    }
}

/// Whatever the outcome, every command of a restore puts back a saved proxy of a service whose
/// proxies are still the application's; no other service is touched.
pub proof fn law_restore_touches_only_what_is_owned(
    saved: Seq<SystemProxyServiceSnapshotView>,
    current: Seq<SystemProxyServiceSnapshotView>,
    port: u32,
    j: int,
)
    requires
        0 <= j < plan_of(saved, current, port).commands.len(),
    ensures
        exists|i: int, kind: MacosProxyKind|
            0 <= i < saved.len() && is_owned(current, saved[i].service, port)
                && #[trigger] restore_args(
                kind,
                saved[i].service,
                proxy_of(saved[i], kind),
            ).contains(plan_of(saved, current, port).commands[j]),
    decreases saved.len(),
{
    let front = saved.drop_last();
    let last = saved.last();
    let before = plan_of(front, current, port);
    let command = plan_of(saved, current, port).commands[j];
    if j < before.commands.len() {
        law_restore_touches_only_what_is_owned(front, current, port, j);
        let (i, kind) = choose|i: int, kind: MacosProxyKind|
            0 <= i < front.len() && is_owned(current, front[i].service, port)
                && #[trigger] restore_args(
                kind,
                front[i].service,
                proxy_of(front[i], kind),
            ).contains(before.commands[j]);
        assert(before.commands[j] == command);
        assert(saved[i] == front[i]);
        assert(restore_args(kind, saved[i].service, proxy_of(saved[i], kind)).contains(command));
    } else {
        let k = j - before.commands.len();
        assert(command == service_commands(last)[k]);
        let kind = if k < 2 {
            MacosProxyKind::Web
        } else if k < 4 {
            MacosProxyKind::SecureWeb
        } else {
            MacosProxyKind::Socks
        };
        let args = restore_args(kind, last.service, proxy_of(last, kind));
        assert(args[k % 2] == command);
        assert(saved[saved.len() - 1] == last);
        assert(restore_args(
            kind,
            saved[saved.len() - 1].service,
            proxy_of(saved[saved.len() - 1], kind),
        ).contains(command));
    }
}

/// A saved service is passed over exactly when the listing does not name it any more: of every
/// other one the present proxies are read, whatever they are.
pub proof fn law_passed_over_only_when_gone(
    saved: Seq<SystemProxyServiceSnapshotView>,
    available: Seq<Seq<char>>,
    port: u32,
    answers: Seq<MacosProxyStateView>,
    i: int,
)
    requires
        0 <= i < saved.len(),
    ensures
        ({
            let current = snapshot_of(port, still_there(saved, available), answers);
            first_named(current.services, saved[i].service) is Some <==> available.contains(
                saved[i].service,
            )
        }),
{
    let names = still_there(saved, available);
    let current = snapshot_of(port, names, answers).services;
    let name = saved[i].service;
    lemma_still_there(saved, available, i);
    lemma_first_named(current, name);
    if available.contains(name) {
        let k = choose|k: int| 0 <= k < names.len() && names[k] == name;
        assert(current[k].service == name);
    }
    if first_named(current, name) is Some {
        let k = choose|k: int| 0 <= k < current.len() && (#[trigger] current[k]).service == name;
        assert(names[k] == name);
    }
}

proof fn lemma_still_there(
    saved: Seq<SystemProxyServiceSnapshotView>,
    available: Seq<Seq<char>>,
    i: int,
)
    requires
        0 <= i < saved.len(),
    ensures
        available.contains(saved[i].service) ==> still_there(saved, available).contains(
            saved[i].service,
        ),
        forall|k: int|
            0 <= k < still_there(saved, available).len() ==> available.contains(
                #[trigger] still_there(saved, available)[k],
            ),
    decreases saved.len(),
{
    let front = saved.drop_last();
    let before = still_there(front, available);
    let names = still_there(saved, available);
    if i < front.len() {
        lemma_still_there(front, available, i);
        if before.contains(saved[i].service) {
            let k = choose|k: int| 0 <= k < before.len() && before[k] == saved[i].service;
            assert(names[k] == saved[i].service);
        }
    } else {
        if front.len() > 0 {
            lemma_still_there(front, available, 0);
        }
        if available.contains(saved.last().service) {
            assert(names[before.len() as int] == saved[i].service);
        }
    }
}

proof fn lemma_first_named(services: Seq<SystemProxyServiceSnapshotView>, name: Seq<char>)
    ensures
        first_named(services, name) is Some <==> exists|k: int|
            0 <= k < services.len() && (#[trigger] services[k]).service == name,
    decreases services.len(),
{
    if services.len() > 0 && services[0].service != name {
        let rest = services.skip(1);
        lemma_first_named(rest, name);
        if exists|k: int| 0 <= k < rest.len() && (#[trigger] rest[k]).service == name {
            let k = choose|k: int| 0 <= k < rest.len() && (#[trigger] rest[k]).service == name;
            assert(services[k + 1].service == name);
        }
        if exists|k: int| 0 <= k < services.len() && (#[trigger] services[k]).service == name {
            let k = choose|k: int|
                0 <= k < services.len() && (#[trigger] services[k]).service == name;
            assert(rest[k - 1].service == name);
        }
    }
}

/// A snapshot whose ports can all be ports is put back whole as long as all its services still
/// have the application's proxies: nothing is skipped, and each service gets its six commands.
pub proof fn law_restore_after_take_over(
    saved: Seq<SystemProxyServiceSnapshotView>,
    current: Seq<SystemProxyServiceSnapshotView>,
    port: u32,
)
    requires
        forall|i: int|
            0 <= i < saved.len() ==> has_valid_ports(#[trigger] saved[i]) && is_owned(
                current,
                saved[i].service,
                port,
            ),
    ensures
        plan_of(saved, current, port) == (RestorePlanView {
            commands: commands_of(saved),
            outcome: Ok(
                SystemProxyRestoreView {
                    restored_services: names_of(saved),
                    skipped_services: Seq::empty(),
                },
            ),
        }),
        commands_of(saved).len() == 6 * saved.len(),
    decreases saved.len(),
{
    if saved.len() == 0 {
        assert(names_of(saved) == Seq::<Seq<char>>::empty());
    } else {
        let front = saved.drop_last();
        let last = saved.last();
        assert(saved[saved.len() - 1] == last);
        assert forall|i: int| 0 <= i < front.len() implies has_valid_ports(#[trigger] front[i])
            && is_owned(current, front[i].service, port) by {
            assert(front[i] == saved[i]);
        }
        law_restore_after_take_over(front, current, port);
        assert(names_of(front).push(last.service) == names_of(saved));
    }
}

/// Only a saved port that cannot be one keeps a plan from an outcome.
pub proof fn law_restore_fails_on_ports_only(
    saved: Seq<SystemProxyServiceSnapshotView>,
    current: Seq<SystemProxyServiceSnapshotView>,
    port: u32,
)
    ensures
        plan_of(saved, current, port).outcome is Ok <==> forall|i: int|
            0 <= i < saved.len() && is_owned(current, (#[trigger] saved[i]).service, port)
                ==> has_valid_ports(saved[i]),
    decreases saved.len(),
{
    if saved.len() > 0 {
        let front = saved.drop_last();
        law_restore_fails_on_ports_only(front, current, port);
        assert(forall|i: int| 0 <= i < front.len() ==> front[i] == saved[i]);
        if plan_of(saved, current, port).outcome is Ok {
            assert forall|i: int|
                0 <= i < saved.len() && is_owned(
                    current,
                    (#[trigger] saved[i]).service,
                    port,
                ) implies has_valid_ports(saved[i]) by {
                if i < front.len() {
                    assert(front[i] == saved[i]);
                }
            }
        } else if plan_of(front, current, port).outcome is Err {
            let i = choose|i: int|
                0 <= i < front.len() && is_owned(current, (#[trigger] front[i]).service, port)
                    && !has_valid_ports(front[i]);
            assert(saved[i] == front[i]);
        } else {
            assert(saved[saved.len() - 1] == saved.last());
        }
    }
}

/// Where a step leads with the replies that follow it; replies after the end are not asked for.
pub open spec fn restore_run(
    step: RestoreStepView,
    replies: Seq<Result<Seq<char>, PlatformErrorView>>,
) -> RestoreStepView
    decreases replies.len(),
{
    if replies.len() == 0 {
        step
    } else {
        match step {
            RestoreStepView::Done(_) => step,
            RestoreStepView::Pending { request, state } => restore_run(
                restore_resumed(state, replies[0]),
                replies.skip(1),
            ),
        }
    }
}

/// As long as all goes well, a restore runs the commands of its plan in their order, each once,
/// and reports the plan's outcome after the last.
pub proof fn law_restore_runs_every_command(
    commands: Seq<Seq<Seq<char>>>,
    outcome: Result<SystemProxyRestoreView, PlatformErrorView>,
    replies: Seq<Result<Seq<char>, PlatformErrorView>>,
)
    requires
        all_ok(replies),
        replies.len() <= commands.len(),
    ensures
        ({
            let k = replies.len() as int;
            let reached = restore_run(next_restore_command(commands, outcome), replies);
            if k < commands.len() {
                reached matches RestoreStepView::Pending { request, .. } && request
                    == RequestView::Run(commands[k])
            } else {
                reached == RestoreStepView::Done(outcome)
            }
        }),
    decreases replies.len(),
{
    if replies.len() > 0 {
        assert(replies[0] is Ok);
        let rest = replies.skip(1);
        assert forall|i: int| 0 <= i < rest.len() implies (#[trigger] rest[i]) is Ok by {
            assert(rest[i] == replies[i + 1]);
        }
        law_restore_runs_every_command(commands.skip(1), outcome, rest);
    }
}

proof fn lemma_restore_readings(
    snapshot: SystemProxySnapshotView,
    services: Seq<Seq<char>>,
    known: Seq<MacosProxyStateView>,
    reports: Seq<Result<Seq<char>, PlatformErrorView>>,
    answers: Seq<MacosProxyStateView>,
)
    requires
        are_reports(reports, answers),
        known.len() + answers.len() <= 3 * services.len(),
    ensures
        restore_run(
            after_reading(snapshot, next_reading(snapshot.managed_port, services, known)),
            reports,
        ) == after_reading(
            snapshot,
            next_reading(snapshot.managed_port, services, known + answers),
        ),
    decreases reports.len(),
{
    if reports.len() == 0 {
        assert(known + answers == known);
    } else {
        assert(reports[0] is Ok);
        let rest = reports.skip(1);
        let others = answers.skip(1);
        assert forall|i: int| 0 <= i < rest.len() implies (#[trigger] rest[i]) is Ok
            && reported_proxy(rest[i]->Ok_0) == Ok::<_, PlatformErrorView>(others[i]) by {
            assert(rest[i] == reports[i + 1]);
        }
        lemma_restore_readings(snapshot, services, known.push(answers[0]), rest, others);
        assert(known.push(answers[0]) + others == known + answers);
    }
}

proof fn lemma_restore_splits(
    step: RestoreStepView,
    first: Seq<Result<Seq<char>, PlatformErrorView>>,
    second: Seq<Result<Seq<char>, PlatformErrorView>>,
)
    ensures
        restore_run(step, first + second) == restore_run(restore_run(step, first), second),
    decreases first.len(),
{
    if first.len() == 0 {
        assert(first + second == second);
    } else {
        match step {
            RestoreStepView::Done(_) => {},
            RestoreStepView::Pending { request, state } => {
                assert((first + second)[0] == first[0]);
                assert((first + second).skip(1) == first.skip(1) + second);
                lemma_restore_splits(restore_resumed(state, first[0]), first.skip(1), second);
            },
        }
    }
}

/// As long as all goes well, a restore first lists the services, then asks for the three proxies of
/// every saved service that is still there.
pub proof fn law_restore_reads_what_is_still_there(
    snapshot: SystemProxySnapshotView,
    listing: Seq<char>,
    reports: Seq<Result<Seq<char>, PlatformErrorView>>,
    answers: Seq<MacosProxyStateView>,
)
    requires
        are_reports(reports, answers),
        answers.len() < 3 * still_there(snapshot.services, listed_services(listing)).len(),
    ensures
        restore_start(snapshot) matches RestoreStepView::Pending { request, .. } && request
            == RequestView::ListServices,
        ({
            let services = still_there(snapshot.services, listed_services(listing));
            let k = answers.len() as int;
            restore_run(restore_start(snapshot), seq![Ok(listing)] + reports)
                matches RestoreStepView::Pending { request, .. } && request == RequestView::Run(
                get_args(kind_at(k), services[k / 3]),
            )
        }),
{
    let all = seq![Ok::<Seq<char>, PlatformErrorView>(listing)] + reports;
    assert(all.skip(1) == reports);
    let services = still_there(snapshot.services, listed_services(listing));
    lemma_restore_readings(snapshot, services, Seq::empty(), reports, answers);
    assert(Seq::<MacosProxyStateView>::empty() + answers == answers);
}

/// A whole restore in which no run fails. Once the present proxies of the saved services that are
/// still there were read, the commands for those that are still the application's are run in their
/// order, each once. At the end exactly these services are reported as put back, and exactly the
/// others that are still there as skipped; only a saved port that cannot be one stands in the way.
pub proof fn law_restore(
    snapshot: SystemProxySnapshotView,
    listing: Seq<char>,
    reports: Seq<Result<Seq<char>, PlatformErrorView>>,
    answers: Seq<MacosProxyStateView>,
    runs: Seq<Result<Seq<char>, PlatformErrorView>>,
)
    requires
        are_reports(reports, answers),
        answers.len() == 3 * still_there(snapshot.services, listed_services(listing)).len(),
        all_ok(runs),
        ({
            let services = still_there(snapshot.services, listed_services(listing));
            let port = snapshot.managed_port;
            let current = snapshot_of(port, services, answers).services;
            runs.len() <= plan_of(snapshot.services, current, port).commands.len()
        }),
    ensures
        ({
            let services = still_there(snapshot.services, listed_services(listing));
            let port = snapshot.managed_port;
            let current = snapshot_of(port, services, answers).services;
            let plan = plan_of(snapshot.services, current, port);
            let owned = owned_of(snapshot.services, current, port);
            let k = runs.len() as int;
            let reached = restore_run(
                restore_start(snapshot),
                seq![Ok(listing)] + reports + runs,
            );
            &&& k < plan.commands.len() ==> (reached matches RestoreStepView::Pending {
                request,
                ..
            } && request == RequestView::Run(plan.commands[k]))
            &&& k == plan.commands.len() ==> reached == RestoreStepView::Done(plan.outcome)
            &&& plan.outcome matches Ok(restore) ==> {
                &&& plan.commands == commands_of(owned)
                &&& restore.restored_services == names_of(owned)
                &&& restore.skipped_services == names_of(
                    foreign_of(snapshot.services, current, port),
                )
            }
            &&& plan.outcome is Ok <==> forall|i: int|
                0 <= i < snapshot.services.len() && is_owned(
                    current,
                    (#[trigger] snapshot.services[i]).service,
                    port,
                ) ==> has_valid_ports(snapshot.services[i])
        }),
{
    let services = still_there(snapshot.services, listed_services(listing));
    let port = snapshot.managed_port;
    let current = snapshot_of(port, services, answers).services;
    let plan = plan_of(snapshot.services, current, port);
    let read = seq![Ok::<Seq<char>, PlatformErrorView>(listing)] + reports;
    assert(read.skip(1) == reports);
    lemma_restore_readings(snapshot, services, Seq::empty(), reports, answers);
    assert(Seq::<MacosProxyStateView>::empty() + answers == answers);
    lemma_restore_splits(restore_start(snapshot), read, runs);
    law_restore_runs_every_command(plan.commands, plan.outcome, runs);
    law_restore_takes_back_only_what_is_owned(snapshot.services, current, port);
    law_restore_fails_on_ports_only(snapshot.services, current, port);
}

/// The first run that fails ends a restore with its failure, wherever the restore stands and
/// whatever would have followed.
pub proof fn law_restore_stops_at_failure(
    snapshot: SystemProxySnapshotView,
    before: Seq<Result<Seq<char>, PlatformErrorView>>,
    failure: PlatformErrorView,
    after: Seq<Result<Seq<char>, PlatformErrorView>>,
)
    requires
        restore_run(restore_start(snapshot), before) is Pending,
    ensures
        restore_run(restore_start(snapshot), before + (seq![Err(failure)] + after))
            == RestoreStepView::Done(Err(failure)),
{
    let tail = seq![Err::<Seq<char>, PlatformErrorView>(failure)] + after;
    assert(tail.skip(1) == after);
    lemma_restore_splits(restore_start(snapshot), before, tail);
    reveal_with_fuel(restore_run, 2);
}

/// A restore without saved services has nothing to do. Each further saved service counts for
/// itself, unless a complaint has ended the planning before it.
///
/// Where none of the present services has its name, it changes nothing. Where the first of its name
/// has a proxy that is off, or has another server than 127.0.0.1 or another port, for whichever
/// kind, it is reported as skipped and no command is planned for it. Else the commands that put
/// back its web, its secure web and its socks proxy come behind the others, and it is reported as
/// put back; a saved port above 65535 leaves out the commands from there on and is complained
/// about.
pub proof fn law_plan_with_one_more(
    saved: Seq<SystemProxyServiceSnapshotView>,
    service: SystemProxyServiceSnapshotView,
    current: Seq<SystemProxyServiceSnapshotView>,
    at: int,
    port: u32,
)
    requires
        0 <= at <= current.len(),
        at < current.len() ==> current[at].service == service.service,
        forall|j: int| 0 <= j < at ==> (#[trigger] current[j]).service != service.service,
    ensures
        ({
            let nothing = plan_of(Seq::empty(), current, port);
            &&& nothing.commands.len() == 0
            &&& nothing.outcome matches Ok(restore)
            &&& restore.restored_services.len() == 0 && restore.skipped_services.len() == 0
        }),
        ({
            let before = plan_of(saved, current, port);
            let after = plan_of(saved.push(service), current, port);
            match before.outcome {
                Err(_) => after == before,
                Ok(restore) => if at == current.len() {
                    after == before
                } else {
                    let now = current[at];
                    let untouched = now.web.enabled && now.secure_web.enabled && now.socks.enabled
                        && now.web.server == Some("127.0.0.1"@) && now.secure_web.server == Some(
                        "127.0.0.1"@,
                    ) && now.socks.server == Some("127.0.0.1"@) && now.web.port == Some(port)
                        && now.secure_web.port == Some(port) && now.socks.port == Some(port);
                    let web = restore_args(MacosProxyKind::Web, service.service, service.web);
                    let secure_web = restore_args(
                        MacosProxyKind::SecureWeb,
                        service.service,
                        service.secure_web,
                    );
                    let socks = restore_args(MacosProxyKind::Socks, service.service, service.socks);
                    let bad = |proxy: MacosProxyStateView|
                        proxy.port is Some && proxy.port->0 > 65535;
                    if !untouched {
                        &&& after.commands == before.commands
                        &&& after.outcome matches Ok(result)
                        &&& result.restored_services == restore.restored_services
                        &&& result.skipped_services == restore.skipped_services.push(
                            service.service,
                        )
                    } else if bad(service.web) {
                        &&& after.commands == before.commands
                        &&& after.outcome == Err::<SystemProxyRestoreView, _>(
                            invalid_port(service.web.port->0),
                        )
                    } else if bad(service.secure_web) {
                        &&& after.commands == before.commands + web
                        &&& after.outcome == Err::<SystemProxyRestoreView, _>(
                            invalid_port(service.secure_web.port->0),
                        )
                    } else if bad(service.socks) {
                        &&& after.commands == before.commands + web + secure_web
                        &&& after.outcome == Err::<SystemProxyRestoreView, _>(
                            invalid_port(service.socks.port->0),
                        )
                    } else {
                        &&& after.commands == before.commands + web + secure_web + socks
                        &&& after.outcome matches Ok(result)
                        &&& result.restored_services == restore.restored_services.push(
                            service.service,
                        )
                        &&& result.skipped_services == restore.skipped_services
                    }
                },
            }
        }),
{
    assert(saved.push(service).drop_last() == saved);
    lemma_first_named_at(current, service.service, at);
    law_owned(current, service.service, port);
    let before = plan_of(saved, current, port);
    assert(before.commands + Seq::<Seq<Seq<char>>>::empty() == before.commands);
    let web = restore_args(MacosProxyKind::Web, service.service, service.web);
    let secure_web = restore_args(MacosProxyKind::SecureWeb, service.service, service.secure_web);
    let socks = restore_args(MacosProxyKind::Socks, service.service, service.socks);
    assert(before.commands + (web + secure_web) == before.commands + web + secure_web);
    assert(before.commands + (web + secure_web + socks) == before.commands + web + secure_web
        + socks);
}

proof fn lemma_first_named_at(
    services: Seq<SystemProxyServiceSnapshotView>,
    name: Seq<char>,
    at: int,
)
    requires
        0 <= at <= services.len(),
        at < services.len() ==> services[at].service == name,
        forall|j: int| 0 <= j < at ==> (#[trigger] services[j]).service != name,
    ensures
        first_named(services, name) == if at < services.len() {
            Some(services[at])
        } else {
            None
        },
{
    law_first_named(services, name);
}

/// A saved service whose present proxy of whichever kind was changed since - it is off, or has
/// another server or port - is left alone: no command of the restore names it, and it is not among
/// the services that are reported as put back. It is reported as skipped.
pub proof fn law_changed_service_is_left_alone(
    saved: Seq<SystemProxyServiceSnapshotView>,
    current: Seq<SystemProxyServiceSnapshotView>,
    port: u32,
    i: int,
    at: int,
    kind: MacosProxyKind,
)
    requires
        0 <= i < saved.len(),
        0 <= at < current.len(),
        current[at].service == saved[i].service,
        forall|j: int| 0 <= j < at ==> (#[trigger] current[j]).service != saved[i].service,
        ({
            let now = match kind {
                MacosProxyKind::Web => current[at].web,
                MacosProxyKind::SecureWeb => current[at].secure_web,
                MacosProxyKind::Socks => current[at].socks,
            };
            !now.enabled || now.server != Some("127.0.0.1"@) || now.port != Some(port)
        }),
    ensures
        forall|j: int|
            0 <= j < plan_of(saved, current, port).commands.len() ==> (#[trigger] plan_of(
                saved,
                current,
                port,
            ).commands[j])[1] != saved[i].service,
        plan_of(saved, current, port).outcome matches Ok(restore)
            ==> restore.skipped_services.contains(saved[i].service)
            && !restore.restored_services.contains(saved[i].service),
{
    let name = saved[i].service;
    lemma_first_named_at(current, name, at);
    law_owned(current, name, port);
    let plan = plan_of(saved, current, port);
    assert forall|j: int| 0 <= j < plan.commands.len() implies (#[trigger] plan.commands[j])[1]
        != name by {
        law_restore_touches_only_what_is_owned(saved, current, port, j);
        let (k, kind) = choose|k: int, kind: MacosProxyKind|
            0 <= k < saved.len() && is_owned(current, saved[k].service, port)
                && #[trigger] restore_args(
                kind,
                saved[k].service,
                proxy_of(saved[k], kind),
            ).contains(plan.commands[j]);
        let args = restore_args(kind, saved[k].service, proxy_of(saved[k], kind));
        let m = choose|m: int| 0 <= m < args.len() && args[m] == plan.commands[j];
        assert(args[m][1] == saved[k].service);
    }
    if plan.outcome is Ok {
        lemma_reported_in_one_list(saved, current, port, i);
    }
}

proof fn lemma_reported_in_one_list(
    saved: Seq<SystemProxyServiceSnapshotView>,
    current: Seq<SystemProxyServiceSnapshotView>,
    port: u32,
    i: int,
)
    requires
        0 <= i < saved.len(),
        plan_of(saved, current, port).outcome is Ok,
        first_named(current, saved[i].service) is Some,
        !is_owned(current, saved[i].service, port),
    ensures
        ({
            let restore = plan_of(saved, current, port).outcome->Ok_0;
            &&& restore.skipped_services.contains(saved[i].service)
            &&& !restore.restored_services.contains(saved[i].service)
        }),
    decreases saved.len(),
{
    let name = saved[i].service;
    lemma_restored_are_owned(saved, current, port);
    let front = saved.drop_last();
    let restore = plan_of(saved, current, port).outcome->Ok_0;
    let before = plan_of(front, current, port).outcome->Ok_0;
    if i < front.len() {
        assert(front[i] == saved[i]);
        lemma_reported_in_one_list(front, current, port, i);
        let k = choose|k: int|
            0 <= k < before.skipped_services.len() && before.skipped_services[k] == name;
        assert(restore.skipped_services[k] == name);
    } else {
        assert(restore.skipped_services.last() == name);
    }
}

proof fn lemma_restored_are_owned(
    saved: Seq<SystemProxyServiceSnapshotView>,
    current: Seq<SystemProxyServiceSnapshotView>,
    port: u32,
)
    requires
        plan_of(saved, current, port).outcome is Ok,
    ensures
        forall|k: int|
            0 <= k < plan_of(saved, current, port).outcome->Ok_0.restored_services.len()
                ==> is_owned(
                current,
                #[trigger] plan_of(saved, current, port).outcome->Ok_0.restored_services[k],
                port,
            ),
    decreases saved.len(),
{
    if saved.len() > 0 {
        lemma_restored_are_owned(saved.drop_last(), current, port);
    }
}

/// Each saved service is looked up for itself: its present proxies are read exactly where the
/// listing names it, in the order in which the services were saved.
pub proof fn law_still_there(
    saved: Seq<SystemProxyServiceSnapshotView>,
    service: SystemProxyServiceSnapshotView,
    available: Seq<Seq<char>>,
)
    ensures
        still_there(Seq::empty(), available).len() == 0,
        available.contains(service.service) ==> still_there(saved.push(service), available)
            == still_there(saved, available).push(service.service),
        !available.contains(service.service) ==> still_there(saved.push(service), available)
            == still_there(saved, available),
{
    assert(saved.push(service).drop_last() == saved);
}

/// A snapshot is put back on macOS only, and only where its port is from 1 to 65535. A port that
/// cannot be one is refused on every platform; else a platform that has no such proxies says so.
pub proof fn law_restore_begins(
    host: HostPlatform,
    snapshot: &SystemProxySnapshot,
    step: RestoreStep,
)
    requires
        call_ensures(restore_system_proxy_snapshot, (host, snapshot), step),
    ensures
        snapshot.managed_port == 0 || snapshot.managed_port >= 0x10000 ==> step@
            == RestoreStepView::Done(Err(invalid_port(snapshot.managed_port))),
        0 < snapshot.managed_port < 0x10000 && host == HostPlatform::Macos ==> step@
            == restore_start(snapshot@),
        0 < snapshot.managed_port < 0x10000 && host != HostPlatform::Macos ==> step@
            == RestoreStepView::Done(
            Err(PlatformErrorView::Unsupported("当前平台尚未接入系统代理快照恢复"@)),
        ),
{
}

} // verus!

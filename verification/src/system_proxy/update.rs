//! Taking over the proxies of all services, and turning them off.

use vstd::prelude::*;

use crate::errors::{PlatformError, PlatformErrorView};
use crate::host::HostPlatform;
use crate::number::decimal_text;
use crate::system_proxy::commands::{
    disable_args, enable_args, macos_disable_networksetup_args, macos_enable_networksetup_args,
};
use crate::system_proxy::report::{listed_services, parse_macos_network_services};
use crate::system_proxy::request::{no_proxy_sync, reply_view, NetworkSetupRequest, RequestView};
use crate::system_proxy::state::{invalid_port, validate_port, SystemProxyUpdate};

verus! {

/// What is to become of the proxies.
#[derive(Clone, Copy, Debug, PartialEq, Eq, Structural)]
pub enum UpdateGoal {
    /// They point at the application's own on this port.
    Enable(u32),
    /// They are off.
    Disable,
}

/// Where an update stands while a run of the program is awaited.
#[derive(Debug, PartialEq, Eq)]
pub enum UpdateState {
    /// The services are being listed.
    Listing(UpdateGoal),
    /// A command is running; these are left after it.
    Running { services: Vec<String>, remaining: Vec<Vec<String>> },
}

/// What an `UpdateState` holds.
pub enum UpdateStateView {
    Listing(UpdateGoal),
    Running { services: Seq<Seq<char>>, remaining: Seq<Seq<Seq<char>>> },
}

impl View for UpdateState {
    type V = UpdateStateView;

    open spec fn view(&self) -> UpdateStateView {
        match self {
            UpdateState::Listing(goal) => UpdateStateView::Listing(*goal),
            UpdateState::Running { services, remaining } => UpdateStateView::Running {
                services: services.deep_view(),
                remaining: remaining.deep_view(),
            },
        }
    }
}

/// What an update does next.
#[derive(Debug, PartialEq, Eq)]
pub enum UpdateStep {
    /// It awaits a run of the program.
    Pending { request: NetworkSetupRequest, state: UpdateState },
    /// It is over.
    Done(Result<SystemProxyUpdate, PlatformError>),
}

/// What an `UpdateStep` holds.
pub enum UpdateStepView {
    Pending { request: RequestView, state: UpdateStateView },
    Done(Result<Seq<Seq<char>>, PlatformErrorView>),
}

impl View for UpdateStep {
    type V = UpdateStepView;

    open spec fn view(&self) -> UpdateStepView {
        match self {
            UpdateStep::Pending { request, state } => UpdateStepView::Pending {
                request: request@,
                state: state@,
            },
            UpdateStep::Done(Ok(update)) => UpdateStepView::Done(Ok(update.services.deep_view())),
            UpdateStep::Done(Err(e)) => UpdateStepView::Done(Err(e@)),
        }
    }
}

/// The commands for one service.
pub open spec fn goal_args(goal: UpdateGoal, service: Seq<char>) -> Seq<Seq<Seq<char>>> {
    match goal {
        UpdateGoal::Enable(port) => enable_args(service, port),
        UpdateGoal::Disable => disable_args(service),
    }
}

/// The commands for all services, one service after the other.
pub open spec fn goal_commands(goal: UpdateGoal, services: Seq<Seq<char>>) -> Seq<Seq<Seq<char>>>
    decreases services.len(),
{
    if services.len() == 0 {
        Seq::empty()
    } else {
        goal_commands(goal, services.drop_last()) + goal_args(goal, services.last())
    }
}

/// The next of the commands, or the end where none is left.
pub open spec fn next_command(
    services: Seq<Seq<char>>,
    remaining: Seq<Seq<Seq<char>>>,
) -> UpdateStepView {
    if remaining.len() == 0 {
        UpdateStepView::Done(Ok(services))
    } else {
        UpdateStepView::Pending {
            request: RequestView::Run(remaining[0]),
            state: UpdateStateView::Running { services, remaining: remaining.skip(1) },
        }
    }
}

/// What an update does after a run of the program: a failure ends it, a listing tells it the
/// commands, and every command that went well makes room for the next.
pub open spec fn update_resumed(
    state: UpdateStateView,
    reply: Result<Seq<char>, PlatformErrorView>,
) -> UpdateStepView {
    match reply {
        Err(e) => UpdateStepView::Done(Err(e)),
        Ok(output) => match state {
            UpdateStateView::Listing(goal) => next_command(
                listed_services(output),
                goal_commands(goal, listed_services(output)),
            ),
            UpdateStateView::Running { services, remaining } => next_command(services, remaining),
        },
    }
}

/// How an update begins.
pub open spec fn update_start(goal: UpdateGoal) -> UpdateStepView {
    UpdateStepView::Pending {
        request: RequestView::ListServices,
        state: UpdateStateView::Listing(goal),
    }
}

fn start(goal: UpdateGoal) -> (r: UpdateStep)
    ensures
        r@ == update_start(goal),
{
    UpdateStep::Pending {
        request: NetworkSetupRequest::ListServices,
        state: UpdateState::Listing(goal),
    }
}

fn unsupported() -> (r: UpdateStep)
    ensures
        r@ == UpdateStepView::Done(Err(no_proxy_sync())),
{
    UpdateStep::Done(
        Err(PlatformError::Unsupported("当前平台尚未接入系统代理同步".to_owned())),
    )
}

/// Begins to point the proxies of all services at the application's own on `port`.
pub fn enable_local_system_proxy(host: HostPlatform, port: u32) -> (r: UpdateStep)
    ensures
        r@ == (if !(1 <= port <= 65535) {
            UpdateStepView::Done(Err(invalid_port(port)))
        } else if host == HostPlatform::Macos {
            update_start(UpdateGoal::Enable(port))
        } else {
            UpdateStepView::Done(Err(no_proxy_sync()))
        }),
{
    match validate_port(port) {
        Err(e) => UpdateStep::Done(Err(e)),
        Ok(()) => match host {
            HostPlatform::Macos => start(UpdateGoal::Enable(port)),
            _ => unsupported(),
        },
    }
}

/// Begins to turn the proxies of all services off.
pub fn disable_system_proxy(host: HostPlatform) -> (r: UpdateStep)
    ensures
        r@ == (if host == HostPlatform::Macos {
            update_start(UpdateGoal::Disable)
        } else {
            UpdateStepView::Done(Err(no_proxy_sync()))
        }),
{
    match host {
        HostPlatform::Macos => start(UpdateGoal::Disable),
        _ => unsupported(),
    }
}

/// The commands for all services, one service after the other.
pub fn commands_for_services(goal: UpdateGoal, services: &Vec<String>) -> (r: Vec<Vec<String>>)
    ensures
        r.deep_view() == goal_commands(goal, services.deep_view()),
{
    let ghost names = services.deep_view();
    let mut commands: Vec<Vec<String>> = Vec::new();
    assert(commands.deep_view() == goal_commands(goal, names.take(0)));
    for i in 0..services.len()
        invariant
            names == services.deep_view(),
            commands.deep_view() == goal_commands(goal, names.take(i as int)),
    {
        let ghost before = commands.deep_view();
        let mut more = match goal {
            UpdateGoal::Enable(port) => macos_enable_networksetup_args(services[i].as_str(), port),
            UpdateGoal::Disable => macos_disable_networksetup_args(services[i].as_str()),
        };
        let ghost added = more.deep_view();
        proof {
            assert(names.take(i + 1).drop_last() == names.take(i as int));
            assert(names.take(i + 1).last() == services@[i as int]@);
        }
        commands.append(&mut more);
        assert(commands.deep_view() == before + added);
    }
    assert(names.take(services.len() as int) == names);
    commands
}

fn run_next(services: Vec<String>, remaining: Vec<Vec<String>>) -> (r: UpdateStep)
    ensures
        r@ == next_command(services.deep_view(), remaining.deep_view()),
{
    let mut remaining = remaining;
    if remaining.len() == 0 {
        UpdateStep::Done(Ok(SystemProxyUpdate { services }))
    } else {
        let ghost whole = remaining.deep_view();
        let args = remaining.remove(0);
        assert(args.deep_view() == whole[0]);
        assert(remaining.deep_view() == whole.skip(1));
        UpdateStep::Pending {
            request: NetworkSetupRequest::Run(args),
            state: UpdateState::Running { services, remaining },
        }
    }
}

impl UpdateState {
    /// Goes on after the awaited run of the program.
    pub fn resume(self, reply: Result<String, PlatformError>) -> (r: UpdateStep)
        ensures
            r@ == update_resumed(self@, reply_view(reply)),
    {
        match reply {
            Err(e) => UpdateStep::Done(Err(e)),
            Ok(output) => match self {
                UpdateState::Listing(goal) => {
                    let services = parse_macos_network_services(output.as_str());
                    let commands = commands_for_services(goal, &services);
                    run_next(services, commands)
                },
                UpdateState::Running { services, remaining } => run_next(services, remaining),
            },
        }
    }
}

/// Where a step leads with the replies that follow it; replies after the end are not asked for.
pub open spec fn update_run(
    step: UpdateStepView,
    replies: Seq<Result<Seq<char>, PlatformErrorView>>,
) -> UpdateStepView
    decreases replies.len(),
{
    if replies.len() == 0 {
        step
    } else {
        match step {
            UpdateStepView::Done(_) => step,
            UpdateStepView::Pending { request, state } => update_run(
                update_resumed(state, replies[0]),
                replies.skip(1),
            ),
        }
    }
}

/// All of the runs went well.
pub open spec fn all_ok(replies: Seq<Result<Seq<char>, PlatformErrorView>>) -> bool {
    forall|i: int| 0 <= i < replies.len() ==> (#[trigger] replies[i]) is Ok
}

proof fn lemma_commands_run(
    services: Seq<Seq<char>>,
    remaining: Seq<Seq<Seq<char>>>,
    replies: Seq<Result<Seq<char>, PlatformErrorView>>,
)
    requires
        all_ok(replies),
        replies.len() <= remaining.len(),
    ensures
        update_run(next_command(services, remaining), replies) == next_command(
            services,
            remaining.skip(replies.len() as int),
        ),
    decreases replies.len(),
{
    if replies.len() == 0 {
        assert(remaining.skip(0) == remaining);
    } else {
        assert(replies[0] is Ok);
        let rest = replies.skip(1);
        assert forall|i: int| 0 <= i < rest.len() implies (#[trigger] rest[i]) is Ok by {
            assert(rest[i] == replies[i + 1]);
        }
        lemma_commands_run(services, remaining.skip(1), rest);
        assert(remaining.skip(1).skip(rest.len() as int) == remaining.skip(replies.len() as int));
    }
}

/// As long as all goes well, an update runs the commands of its services in their order, each
/// once, and at last reports all services that the listing named.
pub proof fn law_update_runs_every_command(
    goal: UpdateGoal,
    listing: Seq<char>,
    replies: Seq<Result<Seq<char>, PlatformErrorView>>,
)
    requires
        all_ok(replies),
        replies.len() <= goal_commands(goal, listed_services(listing)).len(),
    ensures
        ({
            let services = listed_services(listing);
            let commands = goal_commands(goal, services);
            let k = replies.len() as int;
            let reached = update_run(update_start(goal), seq![Ok(listing)] + replies);
            if k < commands.len() {
                reached matches UpdateStepView::Pending { request, .. } && request
                    == RequestView::Run(commands[k])
            } else {
                reached == UpdateStepView::Done(Ok(services))
            }
        }),
{
    let services = listed_services(listing);
    let commands = goal_commands(goal, services);
    let all = seq![Ok::<Seq<char>, PlatformErrorView>(listing)] + replies;
    assert(all.skip(1) == replies);
    lemma_commands_run(services, commands, replies);
}

proof fn lemma_goal_commands(goal: UpdateGoal, services: Seq<Seq<char>>, per: int)
    requires
        goal is Enable ==> per == 6,
        goal is Disable ==> per == 3,
    ensures
        goal_commands(goal, services).len() == per * services.len(),
        forall|i: int, j: int|
            #![trigger goal_args(goal, services[i])[j]]
            0 <= i < services.len() && 0 <= j < per ==> goal_commands(goal, services)[per * i + j]
                == goal_args(goal, services[i])[j],
    decreases services.len(),
{
    if services.len() > 0 {
        let front = services.drop_last();
        lemma_goal_commands(goal, front, per);
        let commands = goal_commands(goal, services);
        let n = per * front.len();
        assert(goal_args(goal, services.last()).len() == per);
        assert(per * services.len() == n + per) by (nonlinear_arith)
            requires
                services.len() == front.len() + 1,
                n == per * front.len(),
        ;
        assert forall|i: int, j: int|
            #![trigger goal_args(goal, services[i])[j]]
            0 <= i < services.len() && 0 <= j < per implies commands[per * i + j] == goal_args(
            goal,
            services[i],
        )[j] by {
            if i < front.len() {
                assert(per * i + j < n) by (nonlinear_arith)
                    requires
                        i < front.len(),
                        j < per,
                        n == per * front.len(),
                        0 <= per,
                ;
                assert(0 <= per * i) by (nonlinear_arith)
                    requires
                        0 <= i,
                        0 <= per,
                ;
                assert(front[i] == services[i]);
                assert(goal_args(goal, front[i])[j] == commands[per * i + j]);
            } else {
                assert(per * i == n);
            }
        }
    }
}

/// As long as all goes well, pointing the proxies at a port first asks for the listing, then runs
/// six commands for each of the listed services in turn: its web, secure web and socks proxy are
/// set to 127.0.0.1 and the port, and then turned on. Once all went well, just the listed services
/// are reported.
pub proof fn law_enable_sets_every_service(
    port: u32,
    listing: Seq<char>,
    replies: Seq<Result<Seq<char>, PlatformErrorView>>,
)
    requires
        all_ok(replies),
        replies.len() <= 6 * listed_services(listing).len(),
    ensures
        update_start(UpdateGoal::Enable(port)) matches UpdateStepView::Pending { request, .. }
            && request == RequestView::ListServices,
        ({
            let services = listed_services(listing);
            let k = replies.len() as int;
            let service = services[k / 6];
            let number = decimal_text(port as nat);
            let reached = update_run(
                update_start(UpdateGoal::Enable(port)),
                seq![Ok(listing)] + replies,
            );
            &&& k == 6 * services.len() ==> reached == UpdateStepView::Done(Ok(services))
            &&& k < 6 * services.len() ==> {
                &&& reached matches UpdateStepView::Pending { request, .. }
                &&& request matches RequestView::Run(args)
                &&& k % 6 == 0 ==> args == seq![
                    "-setwebproxy"@,
                    service,
                    "127.0.0.1"@,
                    number,
                    "off"@,
                ]
                &&& k % 6 == 1 ==> args == seq![
                    "-setsecurewebproxy"@,
                    service,
                    "127.0.0.1"@,
                    number,
                    "off"@,
                ]
                &&& k % 6 == 2 ==> args == seq![
                    "-setsocksfirewallproxy"@,
                    service,
                    "127.0.0.1"@,
                    number,
                    "off"@,
                ]
                &&& k % 6 == 3 ==> args == seq!["-setwebproxystate"@, service, "on"@]
                &&& k % 6 == 4 ==> args == seq!["-setsecurewebproxystate"@, service, "on"@]
                &&& k % 6 == 5 ==> args == seq!["-setsocksfirewallproxystate"@, service, "on"@]
            }
        }),
{
    let goal = UpdateGoal::Enable(port);
    let services = listed_services(listing);
    let k = replies.len() as int;
    lemma_goal_commands(goal, services, 6);
    law_update_runs_every_command(goal, listing, replies);
    if k < 6 * services.len() {
        assert(6 * (k / 6) + k % 6 == k);
        assert(goal_commands(goal, services)[6 * (k / 6) + k % 6] == goal_args(
            goal,
            services[k / 6],
        )[k % 6]);
    }
}

/// As long as all goes well, turning the proxies off first asks for the listing, then turns the
/// web, secure web and socks proxy of each of the listed services off, and sets none of them. Once
/// all went well, just the listed services are reported.
pub proof fn law_disable_turns_every_service_off(
    listing: Seq<char>,
    replies: Seq<Result<Seq<char>, PlatformErrorView>>,
)
    requires
        all_ok(replies),
        replies.len() <= 3 * listed_services(listing).len(),
    ensures
        update_start(UpdateGoal::Disable) matches UpdateStepView::Pending { request, .. } && request
            == RequestView::ListServices,
        ({
            let services = listed_services(listing);
            let k = replies.len() as int;
            let service = services[k / 3];
            let reached = update_run(
                update_start(UpdateGoal::Disable),
                seq![Ok(listing)] + replies,
            );
            &&& k == 3 * services.len() ==> reached == UpdateStepView::Done(Ok(services))
            &&& k < 3 * services.len() ==> {
                &&& reached matches UpdateStepView::Pending { request, .. }
                &&& request matches RequestView::Run(args)
                &&& k % 3 == 0 ==> args == seq!["-setwebproxystate"@, service, "off"@]
                &&& k % 3 == 1 ==> args == seq!["-setsecurewebproxystate"@, service, "off"@]
                &&& k % 3 == 2 ==> args == seq!["-setsocksfirewallproxystate"@, service, "off"@]
            }
        }),
{
    let goal = UpdateGoal::Disable;
    let services = listed_services(listing);
    let k = replies.len() as int;
    lemma_goal_commands(goal, services, 3);
    law_update_runs_every_command(goal, listing, replies);
    if k < 3 * services.len() {
        assert(3 * (k / 3) + k % 3 == k);
        assert(goal_commands(goal, services)[3 * (k / 3) + k % 3] == goal_args(
            goal,
            services[k / 3],
        )[k % 3]);
    }
}

/// The first run that fails ends an update with its failure, whatever would have followed.
pub proof fn law_update_stops_at_failure(
    goal: UpdateGoal,
    listing: Seq<char>,
    before: Seq<Result<Seq<char>, PlatformErrorView>>,
    failure: PlatformErrorView,
    after: Seq<Result<Seq<char>, PlatformErrorView>>,
)
    requires
        all_ok(before),
        before.len() < goal_commands(goal, listed_services(listing)).len(),
    ensures
        update_run(update_start(goal), seq![Err(failure)] + after) == UpdateStepView::Done(
            Err(failure),
        ),
        update_run(
            update_start(goal),
            seq![Ok(listing)] + before + seq![Err(failure)] + after,
        ) == UpdateStepView::Done(Err(failure)),
{
    let services = listed_services(listing);
    let commands = goal_commands(goal, services);
    let tail = seq![Err::<Seq<char>, PlatformErrorView>(failure)] + after;
    assert(tail.skip(1) == after);
    lemma_done_stays(UpdateStepView::Done(Err(failure)), after);
    let all = seq![Ok::<Seq<char>, PlatformErrorView>(listing)] + before + seq![Err(failure)]
        + after;
    assert(all.skip(1) == before + tail);
    lemma_run_splits(next_command(services, commands), before, tail);
    lemma_commands_run(services, commands, before);
}

proof fn lemma_done_stays(
    step: UpdateStepView,
    replies: Seq<Result<Seq<char>, PlatformErrorView>>,
)
    requires
        step is Done,
    ensures
        update_run(step, replies) == step,
{
}

proof fn lemma_run_splits(
    step: UpdateStepView,
    first: Seq<Result<Seq<char>, PlatformErrorView>>,
    second: Seq<Result<Seq<char>, PlatformErrorView>>,
)
    ensures
        update_run(step, first + second) == update_run(update_run(step, first), second),
    decreases first.len(),
{
    if first.len() == 0 {
        assert(first + second == second);
    } else {
        match step {
            UpdateStepView::Done(_) => {},
            UpdateStepView::Pending { request, state } => {
                assert((first + second)[0] == first[0]);
                assert((first + second).skip(1) == first.skip(1) + second);
                lemma_run_splits(update_resumed(state, first[0]), first.skip(1), second);
            },
        }
    }
}

/// The proxies are set or turned off on macOS only, and set only to a port from 1 to 65535. A port
/// that cannot be one is refused on every platform; else a platform that has no such proxies says
/// so. What is not refused begins with the listing of the services.
pub proof fn law_update_begins(host: HostPlatform, port: u32, on: UpdateStep, off: UpdateStep)
    requires
        call_ensures(enable_local_system_proxy, (host, port), on),
        call_ensures(disable_system_proxy, (host,), off),
    ensures
        port == 0 || port >= 0x10000 ==> on@ == UpdateStepView::Done(Err(invalid_port(port))),
        0 < port < 0x10000 && host == HostPlatform::Macos ==> on@ == update_start(
            UpdateGoal::Enable(port),
        ),
        0 < port < 0x10000 && host != HostPlatform::Macos ==> on@ == UpdateStepView::Done(
            Err(PlatformErrorView::Unsupported("当前平台尚未接入系统代理同步"@)),
        ),
        host == HostPlatform::Macos ==> off@ == update_start(UpdateGoal::Disable),
        host != HostPlatform::Macos ==> off@ == UpdateStepView::Done(
            Err(PlatformErrorView::Unsupported("当前平台尚未接入系统代理同步"@)),
        ),
{
}

} // verus!

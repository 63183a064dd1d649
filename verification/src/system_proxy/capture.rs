//! Reading the proxies of all services.

use vstd::prelude::*;

use crate::errors::{PlatformError, PlatformErrorView};
use crate::host::HostPlatform;
use crate::system_proxy::commands::{get_args, macos_get_proxy_args, MacosProxyKind};
use crate::system_proxy::report::{
    listed_services, parse_macos_network_services, parse_macos_proxy_state, reported_proxy,
};
use crate::system_proxy::request::{no_proxy_snapshot, reply_view, NetworkSetupRequest, RequestView};
use crate::system_proxy::state::{
    invalid_port, validate_port, MacosProxyState, MacosProxyStateView, SystemProxyServiceSnapshot,
    SystemProxyServiceSnapshotView, SystemProxySnapshot, SystemProxySnapshotView,
};

verus! {

/// Where a capture stands while a run of the program is awaited.
#[derive(Debug, PartialEq, Eq)]
pub enum CaptureState {
    /// The services are being listed.
    Listing { managed_port: u32 },
    /// A proxy is being read; these were read before it, three for each service.
    Reading { managed_port: u32, services: Vec<String>, answers: Vec<MacosProxyState> },
}

/// What a `CaptureState` holds.
pub enum CaptureStateView {
    Listing { managed_port: u32 },
    Reading {
        managed_port: u32,
        services: Seq<Seq<char>>,
        answers: Seq<MacosProxyStateView>,
    },
}

impl View for CaptureState {
    type V = CaptureStateView;

    open spec fn view(&self) -> CaptureStateView {
        match self {
            CaptureState::Listing { managed_port } => CaptureStateView::Listing {
                managed_port: *managed_port,
            },
            CaptureState::Reading {
                managed_port,
                services,
                answers,
            } => CaptureStateView::Reading {
                managed_port: *managed_port,
                services: services.deep_view(),
                answers: answers.deep_view(),
            },
        }
    }
}

/// What a capture does next.
#[derive(Debug, PartialEq, Eq)]
pub enum CaptureStep {
    /// It awaits a run of the program.
    Pending { request: NetworkSetupRequest, state: CaptureState },
    /// It is over.
    Done(Result<SystemProxySnapshot, PlatformError>),
}

/// What a `CaptureStep` holds.
pub enum CaptureStepView {
    Pending { request: RequestView, state: CaptureStateView },
    Done(Result<SystemProxySnapshotView, PlatformErrorView>),
}

impl View for CaptureStep {
    type V = CaptureStepView;

    open spec fn view(&self) -> CaptureStepView {
        match self {
            CaptureStep::Pending { request, state } => CaptureStepView::Pending {
                request: request@,
                state: state@,
            },
            CaptureStep::Done(Ok(snapshot)) => CaptureStepView::Done(Ok(snapshot@)),
            CaptureStep::Done(Err(e)) => CaptureStepView::Done(Err(e@)),
        }
    }
}

/// The kinds are read in turn.
pub open spec fn kind_at(index: int) -> MacosProxyKind {
    if index % 3 == 0 {
        MacosProxyKind::Web
    } else if index % 3 == 1 {
        MacosProxyKind::SecureWeb
    } else {
        MacosProxyKind::Socks
    }
}

/// The snapshot of the services, three answers for each.
pub open spec fn snapshot_of(
    managed_port: u32,
    services: Seq<Seq<char>>,
    answers: Seq<MacosProxyStateView>,
) -> SystemProxySnapshotView {
    SystemProxySnapshotView {
        managed_port,
        services: Seq::new(
            services.len(),
            |i: int|
                SystemProxyServiceSnapshotView {
                    service: services[i],
                    web: answers[3 * i],
                    secure_web: answers[3 * i + 1],
                    socks: answers[3 * i + 2],
                },
        ),
    }
}

/// The next proxy to read, or the snapshot where all have been read.
pub open spec fn next_reading(
    managed_port: u32,
    services: Seq<Seq<char>>,
    answers: Seq<MacosProxyStateView>,
) -> CaptureStepView {
    let index = answers.len() as int;
    if index < 3 * services.len() {
        CaptureStepView::Pending {
            request: RequestView::Run(get_args(kind_at(index), services[index / 3])),
            state: CaptureStateView::Reading { managed_port, services, answers },
        }
    } else {
        CaptureStepView::Done(Ok(snapshot_of(managed_port, services, answers)))
    }
}

/// What a capture does after a run of the program: a failure or an unreadable report ends it.
pub open spec fn capture_resumed(
    state: CaptureStateView,
    reply: Result<Seq<char>, PlatformErrorView>,
) -> CaptureStepView {
    match reply {
        Err(e) => CaptureStepView::Done(Err(e)),
        Ok(output) => match state {
            CaptureStateView::Listing { managed_port } => next_reading(
                managed_port,
                listed_services(output),
                Seq::empty(),
            ),
            CaptureStateView::Reading { managed_port, services, answers } => match reported_proxy(
                output,
            ) {
                Ok(answer) => next_reading(managed_port, services, answers.push(answer)),
                Err(e) => CaptureStepView::Done(Err(e)),
            },
        },
    }
}

/// How a capture of all services begins.
pub open spec fn capture_start(managed_port: u32) -> CaptureStepView {
    CaptureStepView::Pending {
        request: RequestView::ListServices,
        state: CaptureStateView::Listing { managed_port },
    }
}

/// Begins to read the proxies of all services.
pub fn capture_system_proxy_snapshot(host: HostPlatform, managed_port: u32) -> (r: CaptureStep)
    ensures
        r@ == (if !(1 <= managed_port <= 65535) {
            CaptureStepView::Done(Err(invalid_port(managed_port)))
        } else if host == HostPlatform::Macos {
            capture_start(managed_port)
        } else {
            CaptureStepView::Done(Err(no_proxy_snapshot()))
        }),
{
    match validate_port(managed_port) {
        Err(e) => CaptureStep::Done(Err(e)),
        Ok(()) => match host {
            HostPlatform::Macos => CaptureStep::Pending {
                request: NetworkSetupRequest::ListServices,
                state: CaptureState::Listing { managed_port },
            },
            _ => CaptureStep::Done(
                Err(
                    PlatformError::Unsupported(
                        "当前平台尚未接入系统代理快照".to_owned(),
                    ),
                ),
            ),
        },
    }
}

/// Begins to read the proxies of these services.
pub fn capture_macos_proxy_snapshot_for_services(
    managed_port: u32,
    services: Vec<String>,
) -> (r: CaptureStep)
    ensures
        r@ == next_reading(managed_port, services.deep_view(), Seq::empty()),
{
    let answers: Vec<MacosProxyState> = Vec::new();
    assert(answers.deep_view() == Seq::<MacosProxyStateView>::empty());
    read_next(managed_port, services, answers)
}

fn read_next(
    managed_port: u32,
    services: Vec<String>,
    answers: Vec<MacosProxyState>,
) -> (r: CaptureStep)
    ensures
        r@ == next_reading(managed_port, services.deep_view(), answers.deep_view()),
{
    let index = answers.len();
    if index / 3 < services.len() {
        let kind = if index % 3 == 0 {
            MacosProxyKind::Web
        } else if index % 3 == 1 {
            MacosProxyKind::SecureWeb
        } else {
            MacosProxyKind::Socks
        };
        let args = macos_get_proxy_args(kind, services[index / 3].as_str());
        CaptureStep::Pending {
            request: NetworkSetupRequest::Run(args),
            state: CaptureState::Reading { managed_port, services, answers },
        }
    } else {
        CaptureStep::Done(Ok(assemble(managed_port, services, answers)))
    }
}

fn assemble(
    managed_port: u32,
    services: Vec<String>,
    answers: Vec<MacosProxyState>,
) -> (r: SystemProxySnapshot)
    requires
        answers.len() >= 3 * services.len(),
    ensures
        r@ == snapshot_of(managed_port, services.deep_view(), answers.deep_view()),
{
    let mut found: Vec<SystemProxyServiceSnapshot> = Vec::new();
    let ghost wanted = snapshot_of(managed_port, services.deep_view(), answers.deep_view());
    for i in 0..services.len()
        invariant
            answers.len() >= 3 * services.len(),
            wanted == snapshot_of(managed_port, services.deep_view(), answers.deep_view()),
            found.deep_view() == wanted.services.take(i as int),
    {
        let ghost before = found.deep_view();
        let service = SystemProxyServiceSnapshot {
            service: services[i].clone(),
            web: answers[3 * i].clone(),
            secure_web: answers[3 * i + 1].clone(),
            socks: answers[3 * i + 2].clone(),
        };
        assert(service@ == wanted.services[i as int]);
        found.push(service);
        assert(found.deep_view() == before.push(service@));
    }
    assert(wanted.services.take(services.len() as int) == wanted.services);
    SystemProxySnapshot { managed_port, services: found }
}

impl CaptureState {
    /// Goes on after the awaited run of the program.
    pub fn resume(self, reply: Result<String, PlatformError>) -> (r: CaptureStep)
        ensures
            r@ == capture_resumed(self@, reply_view(reply)),
    {
        match reply {
            Err(e) => CaptureStep::Done(Err(e)),
            Ok(output) => match self {
                CaptureState::Listing { managed_port } => {
                    let services = parse_macos_network_services(output.as_str());
                    capture_macos_proxy_snapshot_for_services(managed_port, services)
                },
                CaptureState::Reading { managed_port, services, answers } => {
                    match parse_macos_proxy_state(output.as_str()) {
                        Ok(answer) => {
                            let ghost before = answers.deep_view();
                            let mut answers = answers;
                            answers.push(answer);
                            assert(answers.deep_view() == before.push(answer@));
                            read_next(managed_port, services, answers)
                        },
                        Err(e) => CaptureStep::Done(Err(e)),
                    }
                },
            },
        }
    }
}

/// Where a step leads with the replies that follow it; replies after the end are not asked for.
pub open spec fn capture_run(
    step: CaptureStepView,
    replies: Seq<Result<Seq<char>, PlatformErrorView>>,
) -> CaptureStepView
    decreases replies.len(),
{
    if replies.len() == 0 {
        step
    } else {
        match step {
            CaptureStepView::Done(_) => step,
            CaptureStepView::Pending { request, state } => capture_run(
                capture_resumed(state, replies[0]),
                replies.skip(1),
            ),
        }
    }
}

/// The replies are reports of proxies, all of them readable.
pub open spec fn are_reports(
    replies: Seq<Result<Seq<char>, PlatformErrorView>>,
    answers: Seq<MacosProxyStateView>,
) -> bool {
    replies.len() == answers.len() && forall|i: int|
        0 <= i < replies.len() ==> (#[trigger] replies[i]) is Ok && reported_proxy(replies[i]->Ok_0)
            == Ok::<_, PlatformErrorView>(answers[i])
}

proof fn lemma_readings(
    managed_port: u32,
    services: Seq<Seq<char>>,
    known: Seq<MacosProxyStateView>,
    replies: Seq<Result<Seq<char>, PlatformErrorView>>,
    answers: Seq<MacosProxyStateView>,
)
    requires
        are_reports(replies, answers),
        known.len() + answers.len() <= 3 * services.len(),
    ensures
        capture_run(next_reading(managed_port, services, known), replies) == next_reading(
            managed_port,
            services,
            known + answers,
        ),
    decreases replies.len(),
{
    if replies.len() == 0 {
        assert(known + answers == known);
    } else {
        assert(replies[0] is Ok);
        let rest = replies.skip(1);
        let others = answers.skip(1);
        assert forall|i: int| 0 <= i < rest.len() implies (#[trigger] rest[i]) is Ok
            && reported_proxy(rest[i]->Ok_0) == Ok::<_, PlatformErrorView>(others[i]) by {
            assert(rest[i] == replies[i + 1]);
        }
        lemma_readings(managed_port, services, known.push(answers[0]), rest, others);
        assert(known.push(answers[0]) + others == known + answers);
    }
}

/// As long as all goes well, a capture asks for the three proxies of every listed service in
/// turn, and at last holds for each service what was reported of it.
pub proof fn law_capture_holds_what_was_reported(
    managed_port: u32,
    listing: Seq<char>,
    replies: Seq<Result<Seq<char>, PlatformErrorView>>,
    answers: Seq<MacosProxyStateView>,
)
    requires
        are_reports(replies, answers),
        answers.len() <= 3 * listed_services(listing).len(),
    ensures
        ({
            let services = listed_services(listing);
            let k = answers.len() as int;
            let reached = capture_run(capture_start(managed_port), seq![Ok(listing)] + replies);
            if k < 3 * services.len() {
                reached matches CaptureStepView::Pending { request, .. } && request
                    == RequestView::Run(get_args(kind_at(k), services[k / 3]))
            } else {
                reached == CaptureStepView::Done(
                    Ok(snapshot_of(managed_port, services, answers)),
                )
            }
        }),
{
    let all = seq![Ok::<Seq<char>, PlatformErrorView>(listing)] + replies;
    assert(all.skip(1) == replies);
    lemma_readings(managed_port, listed_services(listing), Seq::empty(), replies, answers);
    assert(Seq::<MacosProxyStateView>::empty() + answers == answers);
}

/// As long as all goes well, a capture first asks for the listing, then for the web, the secure web
/// and the socks proxy of each of the listed services in turn. In the end it holds just the listed
/// services in their order, each with what was reported of its own three proxies, and the port.
pub proof fn law_capture_reads_every_service(
    managed_port: u32,
    listing: Seq<char>,
    replies: Seq<Result<Seq<char>, PlatformErrorView>>,
    answers: Seq<MacosProxyStateView>,
)
    requires
        are_reports(replies, answers),
        answers.len() <= 3 * listed_services(listing).len(),
    ensures
        capture_start(managed_port) matches CaptureStepView::Pending { request, .. } && request
            == RequestView::ListServices,
        ({
            let services = listed_services(listing);
            let k = answers.len() as int;
            let reached = capture_run(capture_start(managed_port), seq![Ok(listing)] + replies);
            &&& k < 3 * services.len() ==> {
                &&& reached matches CaptureStepView::Pending { request, .. }
                &&& request matches RequestView::Run(args)
                &&& k % 3 == 0 ==> args == seq!["-getwebproxy"@, services[k / 3]]
                &&& k % 3 == 1 ==> args == seq!["-getsecurewebproxy"@, services[k / 3]]
                &&& k % 3 == 2 ==> args == seq!["-getsocksfirewallproxy"@, services[k / 3]]
            }
            &&& k == 3 * services.len() ==> {
                &&& reached matches CaptureStepView::Done(Ok(snapshot))
                &&& snapshot.managed_port == managed_port
                &&& snapshot.services.len() == services.len()
                &&& forall|i: int|
                    0 <= i < services.len() ==> {
                        let found = #[trigger] snapshot.services[i];
                        &&& found.service == services[i]
                        &&& found.web == answers[3 * i]
                        &&& found.secure_web == answers[3 * i + 1]
                        &&& found.socks == answers[3 * i + 2]
                    }
            }
        }),
{
    law_capture_holds_what_was_reported(managed_port, listing, replies, answers);
}

/// The first run that fails ends a capture with its failure, and the first report that cannot be
/// read with the complaint about it, whatever would have followed.
pub proof fn law_capture_stops_at_failure(
    managed_port: u32,
    before: Seq<Result<Seq<char>, PlatformErrorView>>,
    last: Result<Seq<char>, PlatformErrorView>,
    after: Seq<Result<Seq<char>, PlatformErrorView>>,
)
    requires
        capture_run(capture_start(managed_port), before) is Pending,
    ensures
        last matches Err(failure) ==> capture_run(
            capture_start(managed_port),
            before + (seq![last] + after),
        ) == CaptureStepView::Done(Err(failure)),
        last matches Ok(output) ==> before.len() > 0 && reported_proxy(output) is Err
            ==> capture_run(capture_start(managed_port), before + (seq![last] + after))
            == CaptureStepView::Done(Err(reported_proxy(output)->Err_0)),
{
    let tail = seq![last] + after;
    assert(tail.skip(1) == after);
    lemma_capture_splits(capture_start(managed_port), before, tail);
    lemma_reading_after_listing(capture_start(managed_port), before);
    reveal_with_fuel(capture_run, 2);
}

proof fn lemma_reading_after_listing(
    step: CaptureStepView,
    replies: Seq<Result<Seq<char>, PlatformErrorView>>,
)
    requires
        capture_run(step, replies) is Pending,
    ensures
        replies.len() > 0 ==> (capture_run(step, replies) matches CaptureStepView::Pending {
            state,
            ..
        } && state is Reading),
    decreases replies.len(),
{
    if replies.len() > 0 {
        match step {
            CaptureStepView::Pending { request, state } => {
                let next = capture_resumed(state, replies[0]);
                if replies.len() == 1 {
                    assert(replies.skip(1).len() == 0);
                    reveal_with_fuel(capture_run, 2);
                } else {
                    lemma_reading_after_listing(next, replies.skip(1));
                }
            },
            CaptureStepView::Done(_) => {},
        }
    }
}

proof fn lemma_capture_splits(
    step: CaptureStepView,
    first: Seq<Result<Seq<char>, PlatformErrorView>>,
    second: Seq<Result<Seq<char>, PlatformErrorView>>,
)
    ensures
        capture_run(step, first + second) == capture_run(capture_run(step, first), second),
    decreases first.len(),
{
    if first.len() == 0 {
        assert(first + second == second);
    } else {
        match step {
            CaptureStepView::Done(_) => {},
            CaptureStepView::Pending { request, state } => {
                assert((first + second)[0] == first[0]);
                assert((first + second).skip(1) == first.skip(1) + second);
                lemma_capture_splits(capture_resumed(state, first[0]), first.skip(1), second);
            },
        }
    }
}

/// The proxies are read on macOS only, and only for a port from 1 to 65535. A port that cannot be
/// one is refused on every platform; else a platform that has no such proxies says so.
pub proof fn law_capture_begins(host: HostPlatform, managed_port: u32, step: CaptureStep)
    requires
        call_ensures(capture_system_proxy_snapshot, (host, managed_port), step),
    ensures
        managed_port == 0 || managed_port >= 0x10000 ==> step@ == CaptureStepView::Done(
            Err(invalid_port(managed_port)),
        ),
        0 < managed_port < 0x10000 && host == HostPlatform::Macos ==> step@ == capture_start(
            managed_port,
        ),
        0 < managed_port < 0x10000 && host != HostPlatform::Macos ==> step@
            == CaptureStepView::Done(
            Err(PlatformErrorView::Unsupported("当前平台尚未接入系统代理快照"@)),
        ),
{
}

} // verus!

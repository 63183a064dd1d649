//! What is known of the proxies of a network service.

use vstd::prelude::*;
use vstd::string::*;

use crate::errors::{PlatformError, PlatformErrorView};
use crate::number::{decimal, decimal_text};
use crate::text::same_text;

verus! {

/// The host that the application's own proxy listens on.
pub const LOCAL_PROXY_HOST: &'static str = "127.0.0.1";

/// The services whose proxies were set.
#[derive(Debug, PartialEq, Eq)]
pub struct SystemProxyUpdate {
    pub services: Vec<String>,
}

impl Clone for SystemProxyUpdate {
    fn clone(&self) -> (r: Self)
        ensures
            r.services.deep_view() == self.services.deep_view(),
    {
        let services = self.services.clone();
        assert(services.deep_view() == self.services.deep_view());
        SystemProxyUpdate { services }
    }
}

/// The services whose proxies were put back, and those that were left alone.
#[derive(Debug, PartialEq, Eq)]
pub struct SystemProxyRestore {
    pub restored_services: Vec<String>,
    pub skipped_services: Vec<String>,
}

/// What a `SystemProxyRestore` holds.
pub struct SystemProxyRestoreView {
    pub restored_services: Seq<Seq<char>>,
    pub skipped_services: Seq<Seq<char>>,
}

impl View for SystemProxyRestore {
    type V = SystemProxyRestoreView;

    open spec fn view(&self) -> SystemProxyRestoreView {
        SystemProxyRestoreView {
            restored_services: self.restored_services.deep_view(),
            skipped_services: self.skipped_services.deep_view(),
        }
    }
}

impl Clone for SystemProxyRestore {
    fn clone(&self) -> (r: Self)
        ensures
            r@ == self@,
    {
        let restored_services = self.restored_services.clone();
        let skipped_services = self.skipped_services.clone();
        assert(restored_services.deep_view() == self.restored_services.deep_view());
        assert(skipped_services.deep_view() == self.skipped_services.deep_view());
        SystemProxyRestore { restored_services, skipped_services }
    }
}

/// The proxies of all services before the application took them over, and the port that it has
/// pointed them at since.
#[derive(Debug, PartialEq, Eq)]
pub struct SystemProxySnapshot {
    pub managed_port: u32,
    pub services: Vec<SystemProxyServiceSnapshot>,
}

/// What a `SystemProxySnapshot` holds.
pub struct SystemProxySnapshotView {
    pub managed_port: u32,
    pub services: Seq<SystemProxyServiceSnapshotView>,
}

impl View for SystemProxySnapshot {
    type V = SystemProxySnapshotView;

    open spec fn view(&self) -> SystemProxySnapshotView {
        SystemProxySnapshotView {
            managed_port: self.managed_port,
            services: self.services.deep_view(),
        }
    }
}

impl DeepView for SystemProxySnapshot {
    type V = SystemProxySnapshotView;

    open spec fn deep_view(&self) -> SystemProxySnapshotView {
        self@
    }
}

/// The three proxies of one service.
#[derive(Debug, PartialEq, Eq)]
pub struct SystemProxyServiceSnapshot {
    pub service: String,
    pub web: MacosProxyState,
    pub secure_web: MacosProxyState,
    pub socks: MacosProxyState,
}

/// What a `SystemProxyServiceSnapshot` holds.
pub struct SystemProxyServiceSnapshotView {
    pub service: Seq<char>,
    pub web: MacosProxyStateView,
    pub secure_web: MacosProxyStateView,
    pub socks: MacosProxyStateView,
}

impl View for SystemProxyServiceSnapshot {
    type V = SystemProxyServiceSnapshotView;

    open spec fn view(&self) -> SystemProxyServiceSnapshotView {
        SystemProxyServiceSnapshotView {
            service: self.service@,
            web: self.web@,
            secure_web: self.secure_web@,
            socks: self.socks@,
        }
    }
}

impl DeepView for SystemProxyServiceSnapshot {
    type V = SystemProxyServiceSnapshotView;

    open spec fn deep_view(&self) -> SystemProxyServiceSnapshotView {
        self@
    }
}

/// One proxy of one service.
#[derive(Debug, PartialEq, Eq)]
pub struct MacosProxyState {
    pub enabled: bool,
    pub server: Option<String>,
    pub port: Option<u32>,
    pub authenticated: bool,
}

/// What a `MacosProxyState` holds.
pub struct MacosProxyStateView {
    pub enabled: bool,
    pub server: Option<Seq<char>>,
    pub port: Option<u32>,
    pub authenticated: bool,
}

impl View for MacosProxyState {
    type V = MacosProxyStateView;

    open spec fn view(&self) -> MacosProxyStateView {
        MacosProxyStateView {
            enabled: self.enabled,
            server: self.server.deep_view(),
            port: self.port,
            authenticated: self.authenticated,
        }
    }
}

impl DeepView for MacosProxyState {
    type V = MacosProxyStateView;

    open spec fn deep_view(&self) -> MacosProxyStateView {
        self@
    }
}

/// A proxy of which nothing is set.
pub open spec fn unset_proxy() -> MacosProxyStateView {
    MacosProxyStateView { enabled: false, server: None, port: None, authenticated: false }
}

/// A proxy that is on and points at the application's own.
pub open spec fn local_proxy(port: u32) -> MacosProxyStateView {
    MacosProxyStateView {
        enabled: true,
        server: Some("127.0.0.1"@),
        port: Some(port),
        authenticated: false,
    }
}

impl MacosProxyStateView {
    /// The proxy is on and points at the application's own on `port`.
    pub open spec fn is_local(self, port: u32) -> bool {
        self.enabled && self.server == Some("127.0.0.1"@) && self.port == Some(port)
    }
}

impl SystemProxyServiceSnapshotView {
    /// All three proxies of the service are the application's.
    pub open spec fn is_local(self, port: u32) -> bool {
        self.web.is_local(port) && self.secure_web.is_local(port) && self.socks.is_local(port)
    }
}

impl Default for MacosProxyState {
    fn default() -> (r: Self)
        ensures
            r@ == unset_proxy(),
    {
        MacosProxyState { enabled: false, server: None, port: None, authenticated: false }
    }
}

impl Clone for MacosProxyState {
    fn clone(&self) -> (r: Self)
        ensures
            r@ == self@,
    {
        let server: Option<String> = match &self.server {
            Some(server) => Some(server.clone()),
            None => None,
        };
        MacosProxyState {
            enabled: self.enabled,
            server,
            port: self.port,
            authenticated: self.authenticated,
        }
    }
}

impl Clone for SystemProxyServiceSnapshot {
    fn clone(&self) -> (r: Self)
        ensures
            r@ == self@,
    {
        SystemProxyServiceSnapshot {
            service: self.service.clone(),
            web: self.web.clone(),
            secure_web: self.secure_web.clone(),
            socks: self.socks.clone(),
        }
    }
}

impl Clone for SystemProxySnapshot {
    fn clone(&self) -> (r: Self)
        ensures
            r@ == self@,
    {
        self.with_managed_port(self.managed_port)
    }
}

impl MacosProxyState {
    /// A proxy that is on and points at the application's own.
    pub fn local_enabled(port: u32) -> (r: Self)
        ensures
            r@ == local_proxy(port),
    {
        MacosProxyState {
            enabled: true,
            server: Some(LOCAL_PROXY_HOST.to_owned()),
            port: Some(port),
            authenticated: false,
        }
    }

    /// Whether the proxy is on and points at the application's own on `port`.
    pub fn matches_local_proxy(&self, port: u32) -> (r: bool)
        ensures
            r == self@.is_local(port),
    {
        let host: bool = match &self.server {
            Some(server) => same_text(server.as_str(), LOCAL_PROXY_HOST),
            None => false,
        };
        let same_port: bool = match self.port {
            Some(own) => own == port,
            None => false,
        };
        self.enabled && host && same_port
    }
}

impl SystemProxySnapshot {
    /// The same proxies, pointed at another port since.
    pub fn with_managed_port(&self, port: u32) -> (r: Self)
        ensures
            r@ == (SystemProxySnapshotView { managed_port: port, ..self@ }),
    {
        let mut services: Vec<SystemProxyServiceSnapshot> = Vec::new();
        for i in 0..self.services.len()
            invariant
                services.deep_view() == self.services.deep_view().take(i as int),
        {
            let ghost before = services.deep_view();
            services.push(self.services[i].clone());
            assert(services.deep_view() == before.push(self.services@[i as int]@));
        }
        assert(self.services.deep_view().take(self.services.len() as int)
            == self.services.deep_view());
        SystemProxySnapshot { managed_port: port, services }
    }
}

/// Whether all three proxies of a service are the application's on `port`.
pub fn service_snapshot_matches_local_proxy(
    service: &SystemProxyServiceSnapshot,
    port: u32,
) -> (r: bool)
    ensures
        r == service@.is_local(port),
{
    service.web.matches_local_proxy(port) && service.secure_web.matches_local_proxy(port)
        && service.socks.matches_local_proxy(port)
}

/// A proxy counts as the application's exactly if it is on, has the server 127.0.0.1 and has the
/// port; whether it asks for a name and a password makes no difference.
pub proof fn law_local_proxy(
    proxy: MacosProxyStateView,
    enabled: bool,
    server: Option<Seq<char>>,
    own: Option<u32>,
    authenticated: bool,
    port: u32,
)
    requires
        proxy == (MacosProxyStateView { enabled, server, port: own, authenticated }),
    ensures
        !enabled ==> !proxy.is_local(port),
        server is None || own is None ==> !proxy.is_local(port),
        server matches Some(host) ==> host != "127.0.0.1"@ ==> !proxy.is_local(port),
        own matches Some(number) ==> number != port ==> !proxy.is_local(port),
        enabled && server == Some("127.0.0.1"@) && own == Some(port) ==> proxy.is_local(port),
        local_proxy(port) == (MacosProxyStateView {
            enabled: true,
            server: Some("127.0.0.1"@),
            port: Some(port),
            authenticated: false,
        }),
        !unset_proxy().enabled && !unset_proxy().authenticated,
        unset_proxy().server is None && unset_proxy().port is None,
{
}

/// A service counts as the application's exactly if each of its three proxies does. For each kind
/// alone, a proxy that is off or has another server or port is enough for it not to.
pub proof fn law_local_service(service: SystemProxyServiceSnapshotView, port: u32)
    ensures
        service.is_local(port) ==> service.web.enabled && service.secure_web.enabled
            && service.socks.enabled,
        service.is_local(port) ==> service.web.server == Some("127.0.0.1"@)
            && service.secure_web.server == Some("127.0.0.1"@) && service.socks.server == Some(
            "127.0.0.1"@,
        ),
        service.is_local(port) ==> service.web.port == Some(port) && service.secure_web.port
            == Some(port) && service.socks.port == Some(port),
        service.web.is_local(port) && service.secure_web.is_local(port) && service.socks.is_local(
            port,
        ) ==> service.is_local(port),
{
}

/// The first service of that name.
pub open spec fn first_named(
    services: Seq<SystemProxyServiceSnapshotView>,
    name: Seq<char>,
) -> Option<SystemProxyServiceSnapshotView>
    decreases services.len(),
{
    if services.len() == 0 {
        None
    } else if services[0].service == name {
        Some(services[0])
    } else {
        first_named(services.skip(1), name)
    }
}

/// The first service of that name is there, and all its proxies are the application's.
pub open spec fn is_owned(
    services: Seq<SystemProxyServiceSnapshotView>,
    name: Seq<char>,
    port: u32,
) -> bool {
    match first_named(services, name) {
        Some(service) => service.is_local(port),
        None => false,
    }
}

/// The first service of that name.
pub fn find_service<'a>(
    services: &'a Vec<SystemProxyServiceSnapshot>,
    name: &str,
) -> (r: Option<&'a SystemProxyServiceSnapshot>)
    ensures
        match r {
            Some(service) => first_named(services.deep_view(), name@) == Some(service@),
            None => first_named(services.deep_view(), name@) is None,
        },
{
    let ghost whole = services.deep_view();
    assert(whole.skip(0) == whole);
    for i in 0..services.len()
        invariant
            whole == services.deep_view(),
            first_named(whole, name@) == first_named(whole.skip(i as int), name@),
    {
        let ghost rest = whole.skip(i as int);
        assert(rest[0] == services@[i as int]@);
        if same_text(services[i].service.as_str(), name) {
            return Some(&services[i]);
        }
        assert(rest.skip(1) == whole.skip(i + 1));
    }
    None
}

/// Whether the snapshot shows the application's proxies on `port` for every one of `services`.
pub fn snapshot_services_match_local_proxy(
    snapshot: &SystemProxySnapshot,
    services: &[String],
    port: u32,
) -> (r: bool)
    ensures
        r == forall|i: int|
            0 <= i < services.deep_view().len() ==> is_owned(
                snapshot@.services,
                #[trigger] services.deep_view()[i],
                port,
            ),
{
    for i in 0..services.len()
        invariant
            forall|j: int|
                0 <= j < i ==> is_owned(
                    snapshot@.services,
                    #[trigger] services.deep_view()[j],
                    port,
                ),
    {
        assert(services.deep_view()[i as int] == services@[i as int]@);
        match find_service(&snapshot.services, services[i].as_str()) {
            Some(service) => {
                if !service_snapshot_matches_local_proxy(service, port) {
                    return false;
                }
            },
            None => {
                return false;
            },
        }
    }
    true
}

/// The service that a name stands for is one of that name with none such before it, and a name
/// stands for none exactly where no service has it.
pub proof fn law_first_named(services: Seq<SystemProxyServiceSnapshotView>, name: Seq<char>)
    ensures
        match first_named(services, name) {
            Some(service) => exists|i: int|
                0 <= i < services.len() && #[trigger] services[i] == service && service.service
                    == name && (forall|j: int|
                    0 <= j < i ==> (#[trigger] services[j]).service != name),
            None => forall|j: int|
                0 <= j < services.len() ==> (#[trigger] services[j]).service != name,
        },
    decreases services.len(),
{
    if services.len() > 0 {
        if services[0].service == name {
            assert(services[0] == first_named(services, name)->0);
        } else {
            let rest = services.skip(1);
            law_first_named(rest, name);
            match first_named(rest, name) {
                Some(service) => {
                    let i = choose|i: int|
                        0 <= i < rest.len() && #[trigger] rest[i] == service && service.service
                            == name && (forall|j: int|
                            0 <= j < i ==> (#[trigger] rest[j]).service != name);
                    assert(services[i + 1] == service);
                    assert forall|j: int| 0 <= j < i + 1 implies (#[trigger] services[j]).service
                        != name by {
                        if j > 0 {
                            assert(rest[j - 1] == services[j]);
                        }
                    }
                },
                None => {
                    assert forall|j: int|
                        0 <= j < services.len() implies (#[trigger] services[j]).service != name by {
                        if j > 0 {
                            assert(rest[j - 1] == services[j]);
                        }
                    }
                },
            }
        }
    }
}

/// A name is owned exactly if the service that it stands for has each of its three proxies on, with
/// the server 127.0.0.1 and the port. A name that stands for none is not.
pub proof fn law_owned(
    services: Seq<SystemProxyServiceSnapshotView>,
    name: Seq<char>,
    port: u32,
)
    ensures
        first_named(services, name) is None ==> !is_owned(services, name, port),
        first_named(services, name) matches Some(service) ==> (is_owned(services, name, port) <==> {
            &&& service.web.enabled && service.web.server == Some("127.0.0.1"@)
            &&& service.web.port == Some(port)
            &&& service.secure_web.enabled && service.secure_web.server == Some("127.0.0.1"@)
            &&& service.secure_web.port == Some(port)
            &&& service.socks.enabled && service.socks.server == Some("127.0.0.1"@)
            &&& service.socks.port == Some(port)
        }),
{
}

/// The complaint about a port that no proxy can listen on.
pub open spec fn invalid_port(port: u32) -> PlatformErrorView {
    PlatformErrorView::OperationFailed("系统代理端口无效: "@ + decimal_text(port as nat))
}

/// A complaint about a port ends in just that port.
pub proof fn law_invalid_port(port: u32)
    ensures
        invalid_port(port) matches PlatformErrorView::OperationFailed(message) && message
            == "系统代理端口无效: "@ + decimal_text(port as nat),
{
}

fn invalid_port_error(port: u32) -> (r: PlatformError)
    ensures
        r@ == invalid_port(port),
{
    let mut message = "系统代理端口无效: ".to_owned();
    let digits = decimal(port);
    message.append(digits.as_str());
    PlatformError::OperationFailed(message)
}

/// A proxy listens on a port from 1 to 65535.
pub fn validate_port(port: u32) -> (r: Result<(), PlatformError>)
    ensures
        r is Ok <==> 1 <= port <= 65535,
        r matches Err(e) ==> e@ == invalid_port(port),
{
    if 1 <= port && port <= 65535 {
        Ok(())
    } else {
        Err(invalid_port_error(port))
    }
}

/// A saved port is at most 65535; 0 stands for none.
pub fn validate_port_for_restore(port: u32) -> (r: Result<(), PlatformError>)
    ensures
        r is Ok <==> port <= 65535,
        r matches Err(e) ==> e@ == invalid_port(port),
{
    if port <= 65535 {
        Ok(())
    } else {
        Err(invalid_port_error(port))
    }
}

/// A port is accepted for a proxy that is to be set exactly from 1 to 65535, and for one that is to
/// be put back exactly up to 65535. A refusal names the port.
pub proof fn law_ports(
    port: u32,
    to_set: Result<(), PlatformError>,
    to_put_back: Result<(), PlatformError>,
)
    requires
        call_ensures(validate_port, (port,), to_set),
        call_ensures(validate_port_for_restore, (port,), to_put_back),
    ensures
        to_set is Ok <==> port != 0 && port < 0x10000,
        to_put_back is Ok <==> port < 0x10000,
        to_set matches Err(e) ==> e@ == PlatformErrorView::OperationFailed(
            "系统代理端口无效: "@ + decimal_text(port as nat),
        ),
        to_put_back matches Err(e) ==> e@ == PlatformErrorView::OperationFailed(
            "系统代理端口无效: "@ + decimal_text(port as nat),
        ),
{
}

/// Of a snapshot each part is seen as it is.
pub proof fn law_snapshot_view(snapshot: SystemProxySnapshot, i: int)
    requires
        0 <= i < snapshot.services@.len(),
    ensures
        snapshot@.managed_port == snapshot.managed_port,
        snapshot@.services.len() == snapshot.services@.len(),
        snapshot@.services[i].service == snapshot.services@[i].service@,
        snapshot@.services[i].web == snapshot.services@[i].web@,
        snapshot@.services[i].secure_web == snapshot.services@[i].secure_web@,
        snapshot@.services[i].socks == snapshot.services@[i].socks@,
{
}

/// Of a proxy each part is seen as it is.
pub proof fn law_proxy_view(proxy: MacosProxyState)
    ensures
        proxy@.enabled == proxy.enabled,
        proxy@.port == proxy.port,
        proxy@.authenticated == proxy.authenticated,
        proxy.server is None <==> proxy@.server is None,
        proxy.server matches Some(server) ==> proxy@.server == Some(server@),
{
}

} // verus!

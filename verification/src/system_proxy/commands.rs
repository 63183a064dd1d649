//! The argument lists of the `networksetup` program.

use vstd::prelude::*;

use crate::errors::PlatformError;
use crate::number::{decimal, decimal_text};
use crate::system_proxy::state::{
    invalid_port, local_proxy, validate_port_for_restore, MacosProxyState, MacosProxyStateView,
    LOCAL_PROXY_HOST,
};

verus! {

/// The kinds of proxy that a service has.
#[derive(Clone, Copy, Debug, PartialEq, Eq, Structural)]
pub enum MacosProxyKind {
    Web,
    SecureWeb,
    Socks,
}

impl MacosProxyKind {
    /// The command that reports the proxy.
    pub open spec fn get_flag(self) -> Seq<char> {
        match self {
            MacosProxyKind::Web => "-getwebproxy"@,
            MacosProxyKind::SecureWeb => "-getsecurewebproxy"@,
            MacosProxyKind::Socks => "-getsocksfirewallproxy"@,
        }
    }

    /// The command that sets where the proxy points.
    pub open spec fn set_flag(self) -> Seq<char> {
        match self {
            MacosProxyKind::Web => "-setwebproxy"@,
            MacosProxyKind::SecureWeb => "-setsecurewebproxy"@,
            MacosProxyKind::Socks => "-setsocksfirewallproxy"@,
        }
    }

    /// The command that turns the proxy on or off.
    pub open spec fn state_flag(self) -> Seq<char> {
        match self {
            MacosProxyKind::Web => "-setwebproxystate"@,
            MacosProxyKind::SecureWeb => "-setsecurewebproxystate"@,
            MacosProxyKind::Socks => "-setsocksfirewallproxystate"@,
        }
    }

    pub fn get_command(self) -> (r: &'static str)
        ensures
            r@ == self.get_flag(),
    {
        match self {
            MacosProxyKind::Web => "-getwebproxy",
            MacosProxyKind::SecureWeb => "-getsecurewebproxy",
            MacosProxyKind::Socks => "-getsocksfirewallproxy",
        }
    }

    pub fn set_command(self) -> (r: &'static str)
        ensures
            r@ == self.set_flag(),
    {
        match self {
            MacosProxyKind::Web => "-setwebproxy",
            MacosProxyKind::SecureWeb => "-setsecurewebproxy",
            MacosProxyKind::Socks => "-setsocksfirewallproxy",
        }
    }

    pub fn state_command(self) -> (r: &'static str)
        ensures
            r@ == self.state_flag(),
    {
        match self {
            MacosProxyKind::Web => "-setwebproxystate",
            MacosProxyKind::SecureWeb => "-setsecurewebproxystate",
            MacosProxyKind::Socks => "-setsocksfirewallproxystate",
        }
    }
}

/// The arguments that point a proxy at a server and a port, without authentication.
pub open spec fn set_args(
    kind: MacosProxyKind,
    service: Seq<char>,
    server: Seq<char>,
    port: u32,
) -> Seq<Seq<char>> {
    seq![kind.set_flag(), service, server, decimal_text(port as nat), "off"@]
}

/// The arguments that turn a proxy on or off.
pub open spec fn state_args(kind: MacosProxyKind, service: Seq<char>, on: bool) -> Seq<Seq<char>> {
    seq![
        kind.state_flag(),
        service,
        if on {
            "on"@
        } else {
            "off"@
        },
    ]
}

/// The arguments that ask for a proxy.
pub open spec fn get_args(kind: MacosProxyKind, service: Seq<char>) -> Seq<Seq<char>> {
    seq![kind.get_flag(), service]
}

/// The commands that put a proxy back: where it points, then whether it is on. A server that is
/// not known is empty, a port that is not known is 0.
pub open spec fn restore_args(
    kind: MacosProxyKind,
    service: Seq<char>,
    state: MacosProxyStateView,
) -> Seq<Seq<Seq<char>>> {
    let server = match state.server {
        Some(server) => server,
        None => Seq::empty(),
    };
    seq![
        set_args(kind, service, server, saved_port(state)),
        state_args(kind, service, state.enabled),
    ]
}

/// The port of a saved proxy; 0 stands for none.
pub open spec fn saved_port(state: MacosProxyStateView) -> u32 {
    match state.port {
        Some(port) => port,
        None => 0,
    }
}

/// The commands that point all three proxies of a service at the application's own and then turn
/// them on.
pub open spec fn enable_args(service: Seq<char>, port: u32) -> Seq<Seq<Seq<char>>> {
    seq![
        set_args(MacosProxyKind::Web, service, "127.0.0.1"@, port),
        set_args(MacosProxyKind::SecureWeb, service, "127.0.0.1"@, port),
        set_args(MacosProxyKind::Socks, service, "127.0.0.1"@, port),
        state_args(MacosProxyKind::Web, service, true),
        state_args(MacosProxyKind::SecureWeb, service, true),
        state_args(MacosProxyKind::Socks, service, true),
    ]
}

/// The commands that turn all three proxies of a service off.
pub open spec fn disable_args(service: Seq<char>) -> Seq<Seq<Seq<char>>> {
    seq![
        state_args(MacosProxyKind::Web, service, false),
        state_args(MacosProxyKind::SecureWeb, service, false),
        state_args(MacosProxyKind::Socks, service, false),
    ]
}

fn set_command_args(
    kind: MacosProxyKind,
    service: &str,
    server: &str,
    port: u32,
) -> (r: Vec<String>)
    ensures
        r.deep_view() == set_args(kind, service@, server@, port),
{
    vec![
        kind.set_command().to_owned(),
        service.to_owned(),
        server.to_owned(),
        decimal(port),
        "off".to_owned(),
    ]
}

fn state_command_args(kind: MacosProxyKind, service: &str, on: bool) -> (r: Vec<String>)
    ensures
        r.deep_view() == state_args(kind, service@, on),
{
    let switch: &'static str = if on {
        "on"
    } else {
        "off"
    };
    vec![kind.state_command().to_owned(), service.to_owned(), switch.to_owned()]
}

/// The arguments that ask for a proxy.
pub fn macos_get_proxy_args(kind: MacosProxyKind, service: &str) -> (r: Vec<String>)
    ensures
        r.deep_view() == get_args(kind, service@),
{
    vec![kind.get_command().to_owned(), service.to_owned()]
}

/// The commands that put a proxy back, unless its port cannot be one.
pub fn macos_restore_proxy_args(
    kind: MacosProxyKind,
    service: &str,
    state: &MacosProxyState,
) -> (r: Result<Vec<Vec<String>>, PlatformError>)
    ensures
        r is Ok <==> saved_port(state@) <= 65535,
        r matches Ok(args) ==> args.deep_view() == restore_args(kind, service@, state@),
        r matches Err(e) ==> e@ == invalid_port(saved_port(state@)),
{
    let server: String = match &state.server {
        Some(server) => server.clone(),
        None => String::new(),
    };
    let port: u32 = match state.port {
        Some(port) => port,
        None => 0,
    };
    match validate_port_for_restore(port) {
        Ok(()) => {
            let set = set_command_args(kind, service, server.as_str(), port);
            let switch = state_command_args(kind, service, state.enabled);
            let r = vec![set, switch];
            assert(r.deep_view() == seq![set.deep_view(), switch.deep_view()]);
            Ok(r)
        },
        Err(e) => Err(e),
    }
}

/// The commands that point all three proxies of a service at the application's own and then turn
/// them on.
pub fn macos_enable_networksetup_args(service: &str, port: u32) -> (r: Vec<Vec<String>>)
    ensures
        r.deep_view() == enable_args(service@, port),
{
    let web = set_command_args(MacosProxyKind::Web, service, LOCAL_PROXY_HOST, port);
    let secure_web = set_command_args(MacosProxyKind::SecureWeb, service, LOCAL_PROXY_HOST, port);
    let socks = set_command_args(MacosProxyKind::Socks, service, LOCAL_PROXY_HOST, port);
    let web_on = state_command_args(MacosProxyKind::Web, service, true);
    let secure_web_on = state_command_args(MacosProxyKind::SecureWeb, service, true);
    let socks_on = state_command_args(MacosProxyKind::Socks, service, true);
    let r = vec![web, secure_web, socks, web_on, secure_web_on, socks_on];
    assert(r.deep_view() == seq![
        web.deep_view(),
        secure_web.deep_view(),
        socks.deep_view(),
        web_on.deep_view(),
        secure_web_on.deep_view(),
        socks_on.deep_view(),
    ]);
    r
}

/// The commands that turn all three proxies of a service off.
pub fn macos_disable_networksetup_args(service: &str) -> (r: Vec<Vec<String>>)
    ensures
        r.deep_view() == disable_args(service@),
{
    let web = state_command_args(MacosProxyKind::Web, service, false);
    let secure_web = state_command_args(MacosProxyKind::SecureWeb, service, false);
    let socks = state_command_args(MacosProxyKind::Socks, service, false);
    let r = vec![web, secure_web, socks];
    assert(r.deep_view() == seq![web.deep_view(), secure_web.deep_view(), socks.deep_view()]);
    r
}

/// Taking a service over is the same as putting back, for all three kinds, a proxy that is on and
/// points at the application's own: first where each of them points, then that each of them is on.
pub proof fn law_enable_is_restore_of_local(service: Seq<char>, port: u32)
    ensures
        ({
            let web = restore_args(MacosProxyKind::Web, service, local_proxy(port));
            let secure_web = restore_args(MacosProxyKind::SecureWeb, service, local_proxy(port));
            let socks = restore_args(MacosProxyKind::Socks, service, local_proxy(port));
            enable_args(service, port) == seq![
                web[0],
                secure_web[0],
                socks[0],
                web[1],
                secure_web[1],
                socks[1],
            ]
        }),
{
}

/// Each kind of proxy has its own commands to set it, to turn it on or off and to ask for it. All
/// of them name the service next; a proxy is set to a server and a port, without authentication.
pub proof fn law_command_lines(service: Seq<char>, server: Seq<char>, port: u32)
    ensures
        set_args(MacosProxyKind::Web, service, server, port) == seq![
            "-setwebproxy"@,
            service,
            server,
            decimal_text(port as nat),
            "off"@,
        ],
        state_args(MacosProxyKind::Web, service, true) == seq![
            "-setwebproxystate"@,
            service,
            "on"@,
        ],
        state_args(MacosProxyKind::Web, service, false) == seq![
            "-setwebproxystate"@,
            service,
            "off"@,
        ],
        get_args(MacosProxyKind::Web, service) == seq!["-getwebproxy"@, service],
        set_args(MacosProxyKind::SecureWeb, service, server, port) == seq![
            "-setsecurewebproxy"@,
            service,
            server,
            decimal_text(port as nat),
            "off"@,
        ],
        state_args(MacosProxyKind::SecureWeb, service, true) == seq![
            "-setsecurewebproxystate"@,
            service,
            "on"@,
        ],
        state_args(MacosProxyKind::SecureWeb, service, false) == seq![
            "-setsecurewebproxystate"@,
            service,
            "off"@,
        ],
        get_args(MacosProxyKind::SecureWeb, service) == seq!["-getsecurewebproxy"@, service],
        set_args(MacosProxyKind::Socks, service, server, port) == seq![
            "-setsocksfirewallproxy"@,
            service,
            server,
            decimal_text(port as nat),
            "off"@,
        ],
        state_args(MacosProxyKind::Socks, service, true) == seq![
            "-setsocksfirewallproxystate"@,
            service,
            "on"@,
        ],
        state_args(MacosProxyKind::Socks, service, false) == seq![
            "-setsocksfirewallproxystate"@,
            service,
            "off"@,
        ],
        get_args(MacosProxyKind::Socks, service) == seq!["-getsocksfirewallproxy"@, service],
{
}

/// A proxy is put back with its own kind's commands: first to its server and its port, then on
/// exactly where it was on. An unknown server is an empty one, an unknown port is 0.
pub proof fn law_restore_args(
    kind: MacosProxyKind,
    service: Seq<char>,
    state: MacosProxyStateView,
)
    ensures
        ({
            let commands = restore_args(kind, service, state);
            &&& commands.len() == 2
            &&& state.server matches Some(server) ==> state.port matches Some(port) ==> commands[0]
                == set_args(kind, service, server, port)
            &&& state.server is None ==> commands[0][2] == Seq::<char>::empty()
            &&& state.port is None ==> commands[0][3] == decimal_text(0)
            &&& commands[1] == state_args(kind, service, state.enabled)
        }),
        restore_args(kind, service, state)[0] == set_args(
            kind,
            service,
            restore_args(kind, service, state)[0][2],
            saved_port(state),
        ),
        state.server matches Some(server) ==> restore_args(kind, service, state)[0][2] == server,
        state.port matches Some(port) ==> saved_port(state) == port,
        state.port is None ==> saved_port(state) == 0,
{
}

/// Taking a service over sets each of its three proxies to 127.0.0.1 and the port, and turns each
/// of them on, once all are set. Switching it off turns each of them off and sets none.
pub proof fn law_enable_and_disable_args(service: Seq<char>, port: u32)
    ensures
        ({
            let on = enable_args(service, port);
            let off = disable_args(service);
            &&& on.len() == 6 && off.len() == 3
            &&& on[0] == set_args(MacosProxyKind::Web, service, "127.0.0.1"@, port)
            &&& on[1] == set_args(MacosProxyKind::SecureWeb, service, "127.0.0.1"@, port)
            &&& on[2] == set_args(MacosProxyKind::Socks, service, "127.0.0.1"@, port)
            &&& on[3] == state_args(MacosProxyKind::Web, service, true)
            &&& on[4] == state_args(MacosProxyKind::SecureWeb, service, true)
            &&& on[5] == state_args(MacosProxyKind::Socks, service, true)
            &&& off[0] == state_args(MacosProxyKind::Web, service, false)
            &&& off[1] == state_args(MacosProxyKind::SecureWeb, service, false)
            &&& off[2] == state_args(MacosProxyKind::Socks, service, false)
        }),
{
}

/// A proxy can be put back exactly where its port is at most 65535, or is not known. A refusal
/// names the port.
pub proof fn law_restorable(
    kind: MacosProxyKind,
    service: &str,
    state: &MacosProxyState,
    args: Result<Vec<Vec<String>>, PlatformError>,
)
    requires
        call_ensures(macos_restore_proxy_args, (kind, service, state), args),
    ensures
        args is Ok <==> (state.port matches Some(port) ==> port < 0x10000),
        args matches Ok(commands) ==> commands.deep_view() == restore_args(kind, service@, state@),
        args matches Err(e) ==> e@ == invalid_port(state.port->0),
{
}

} // verus!

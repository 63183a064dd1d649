use air::errors::PlatformError;
use air::host::HostPlatform;
use air::system_proxy::capture::{capture_system_proxy_snapshot, CaptureStep};
use air::system_proxy::commands::{
    macos_disable_networksetup_args, macos_enable_networksetup_args, macos_get_proxy_args,
    macos_restore_proxy_args, MacosProxyKind,
};
use air::system_proxy::outcome::{networksetup_failure, networksetup_reply, ProgramOutcome};
use air::system_proxy::report::{parse_macos_network_services, parse_macos_proxy_state};
use air::system_proxy::request::NetworkSetupRequest;
use air::system_proxy::restore::{restore_plan, restore_system_proxy_snapshot, RestoreStep};
use air::system_proxy::state::{
    service_snapshot_matches_local_proxy, snapshot_services_match_local_proxy, validate_port,
    validate_port_for_restore, MacosProxyState, SystemProxyRestore, SystemProxyServiceSnapshot,
    SystemProxySnapshot, SystemProxyUpdate,
};
use air::system_proxy::update::{
    commands_for_services, disable_system_proxy, enable_local_system_proxy, UpdateGoal, UpdateStep,
};

// A machine whose network services can be asked and set.
struct Machine {
    services: Vec<(String, [MacosProxyState; 3])>,
    runs: Vec<Vec<String>>,
    fails_at: Option<usize>,
}

fn texts(args: &[&str]) -> Vec<String> {
    args.iter().map(|arg| arg.to_string()).collect()
}

fn proxy(enabled: bool, server: &str, port: u32) -> MacosProxyState {
    MacosProxyState {
        enabled,
        server: Some(server.to_string()),
        port: Some(port),
        authenticated: false,
    }
}

fn machine() -> Machine {
    Machine {
        services: vec![
            (
                "Wi-Fi".to_string(),
                [
                    proxy(true, "proxy.example.test", 8080),
                    MacosProxyState::default(),
                    MacosProxyState::default(),
                ],
            ),
            (
                "USB LAN".to_string(),
                [
                    MacosProxyState::default(),
                    proxy(false, "old.example.test", 3128),
                    MacosProxyState::default(),
                ],
            ),
        ],
        runs: vec![],
        fails_at: None,
    }
}

fn report(state: &MacosProxyState) -> String {
    format!(
        "Enabled: {}\nServer: {}\nPort: {}\nAuthenticated Proxy Enabled: {}\n",
        if state.enabled { "Yes" } else { "No" },
        state.server.as_deref().unwrap_or(""),
        state.port.unwrap_or(0),
        if state.authenticated { 1 } else { 0 },
    )
}

impl Machine {
    fn run(&mut self, request: &NetworkSetupRequest) -> Result<String, PlatformError> {
        let args = match request {
            NetworkSetupRequest::ListServices => {
                let mut listing =
                    "An asterisk (*) denotes that a network service is disabled.\n".to_string();
                for (name, _) in &self.services {
                    listing += &format!("{name}\n");
                }
                return self.reply(request, true, &listing);
            }
            NetworkSetupRequest::Run(args) => args.clone(),
        };
        let at = self.runs.len();
        self.runs.push(args.clone());
        if self.fails_at == Some(at) {
            return self.reply(request, false, "");
        }
        let name = &args[1];
        let Some(index) = self.services.iter().position(|(own, _)| own == name) else {
            return self.reply(request, false, "");
        };
        let kind: usize = if args[0].contains("securewebproxy") {
            1
        } else if args[0].contains("webproxy") {
            0
        } else {
            2
        };
        let state = &mut self.services[index].1[kind];
        let mut output = String::new();
        if args[0].starts_with("-get") {
            output = report(state);
        } else if args[0].ends_with("state") {
            state.enabled = args[2] == "on";
        } else {
            state.enabled = true;
            state.server = Some(args[2].clone());
            state.port = Some(args[3].parse().unwrap());
        }
        self.reply(request, true, &output)
    }

    fn reply(
        &self,
        request: &NetworkSetupRequest,
        success: bool,
        stdout: &str,
    ) -> Result<String, PlatformError> {
        networksetup_reply(
            request,
            Ok(ProgramOutcome {
                success,
                code: Some(if success { 0 } else { 5 }),
                stdout: stdout.as_bytes().to_vec(),
                stderr: b"no".to_vec(),
            }),
        )
    }

    fn update(&mut self, first: UpdateStep) -> Result<SystemProxyUpdate, PlatformError> {
        let mut step = first;
        loop {
            match step {
                UpdateStep::Pending { request, state } => {
                    let reply = self.run(&request);
                    step = state.resume(reply);
                }
                UpdateStep::Done(result) => return result,
            }
        }
    }

    fn capture(&mut self, port: u32) -> Result<SystemProxySnapshot, PlatformError> {
        let mut step = capture_system_proxy_snapshot(HostPlatform::Macos, port);
        loop {
            match step {
                CaptureStep::Pending { request, state } => {
                    let reply = self.run(&request);
                    step = state.resume(reply);
                }
                CaptureStep::Done(result) => return result,
            }
        }
    }

    fn restore(
        &mut self,
        snapshot: &SystemProxySnapshot,
    ) -> Result<SystemProxyRestore, PlatformError> {
        let mut step = restore_system_proxy_snapshot(HostPlatform::Macos, snapshot);
        loop {
            match step {
                RestoreStep::Pending { request, state } => {
                    let reply = self.run(&request);
                    step = state.resume(reply);
                }
                RestoreStep::Done(result) => return result,
            }
        }
    }
}

#[test]
fn macos_network_services_skip_header_disabled_and_keep_spaces() {
    let services = parse_macos_network_services(
        "An asterisk (*) denotes that a network service is disabled.\nWi-Fi\n*iPhone USB\nUSB 10/100/1000 LAN\n\n",
    );

    assert_eq!(services, vec!["Wi-Fi".to_string(), "USB 10/100/1000 LAN".to_string()]);
}

#[test]
fn listings_may_be_empty_or_end_in_carriage_returns() {
    assert!(parse_macos_network_services("").is_empty());
    assert!(parse_macos_network_services("heading only").is_empty());
    assert_eq!(
        parse_macos_network_services("heading\r\n  Wi-Fi \r\n * off\r\nLAN"),
        vec!["Wi-Fi".to_string(), "LAN".to_string()]
    );
}

#[test]
fn macos_enable_args_set_all_proxy_kinds_to_local_port() {
    let args = macos_enable_networksetup_args("iPhone USB", 9870);

    assert!(args.contains(&vec![
        "-setwebproxy".into(),
        "iPhone USB".into(),
        "127.0.0.1".into(),
        "9870".into(),
        "off".into(),
    ]));
    assert!(args.contains(&vec![
        "-setsecurewebproxy".into(),
        "iPhone USB".into(),
        "127.0.0.1".into(),
        "9870".into(),
        "off".into(),
    ]));
    assert!(args.contains(&vec![
        "-setsocksfirewallproxy".into(),
        "iPhone USB".into(),
        "127.0.0.1".into(),
        "9870".into(),
        "off".into(),
    ]));
}

#[test]
fn proxies_are_set_before_they_are_switched_on() {
    let args = macos_enable_networksetup_args("LAN", 1);
    assert_eq!(args.len(), 6);
    assert_eq!(args[3], texts(&["-setwebproxystate", "LAN", "on"]));
    assert_eq!(args[4], texts(&["-setsecurewebproxystate", "LAN", "on"]));
    assert_eq!(args[5], texts(&["-setsocksfirewallproxystate", "LAN", "on"]));
    assert_eq!(
        macos_disable_networksetup_args("LAN"),
        vec![
            texts(&["-setwebproxystate", "LAN", "off"]),
            texts(&["-setsecurewebproxystate", "LAN", "off"]),
            texts(&["-setsocksfirewallproxystate", "LAN", "off"]),
        ]
    );
    assert_eq!(
        macos_get_proxy_args(MacosProxyKind::Socks, "LAN"),
        texts(&["-getsocksfirewallproxy", "LAN"])
    );
    assert_eq!(MacosProxyKind::Web.get_command(), "-getwebproxy");
    assert_eq!(MacosProxyKind::SecureWeb.get_command(), "-getsecurewebproxy");
    assert_eq!(MacosProxyKind::Socks.set_command(), "-setsocksfirewallproxy");
    assert_eq!(MacosProxyKind::Web.state_command(), "-setwebproxystate");
    let all = commands_for_services(UpdateGoal::Disable, &texts(&["A", "B"]));
    assert_eq!(all.len(), 6);
    assert_eq!(all[3], texts(&["-setwebproxystate", "B", "off"]));
}

#[test]
fn macos_get_proxy_output_parses_enabled_server_port_and_auth() {
    let state = parse_macos_proxy_state(
        "Enabled: Yes\nServer: proxy.example.test\nPort: 8080\nAuthenticated Proxy Enabled: 0\n",
    )
    .unwrap();

    assert!(state.enabled);
    assert_eq!(state.server.as_deref(), Some("proxy.example.test"));
    assert_eq!(state.port, Some(8080));
    assert!(!state.authenticated);
}

#[test]
fn reports_are_read_leniently_but_for_the_port() {
    assert_eq!(parse_macos_proxy_state(""), Ok(MacosProxyState::default()));
    let state = parse_macos_proxy_state(
        "noise\n Enabled : yES\nServer:\nPort:  \nAuthenticated Proxy Enabled: YES\nOther: 1",
    )
    .unwrap();
    assert_eq!(
        state,
        MacosProxyState { enabled: true, server: None, port: None, authenticated: true }
    );
    let state = parse_macos_proxy_state(
        "Enabled: Yes\nEnabled: No\nServer: [::1]:80\nPort: +7\nAuthenticated Proxy Enabled: 1\n",
    )
    .unwrap();
    assert_eq!(
        state,
        MacosProxyState {
            enabled: false,
            server: Some("[::1]:80".to_string()),
            port: Some(7),
            authenticated: true
        }
    );
    assert_eq!(
        parse_macos_proxy_state("Port: 80a\n"),
        Err(PlatformError::OperationFailed(
            "解析 macOS 系统代理端口失败: invalid digit found in string".to_string()
        ))
    );
    assert_eq!(
        parse_macos_proxy_state("Port: 4294967296\nPort: x\n"),
        Err(PlatformError::OperationFailed(
            "解析 macOS 系统代理端口失败: number too large to fit in target type".to_string()
        ))
    );
    for state in [proxy(true, "a b", 1), MacosProxyState::local_enabled(65535)] {
        assert_eq!(parse_macos_proxy_state(&report(&state)), Ok(state));
    }
    assert_eq!(
        parse_macos_proxy_state("Enabled: No\nServer: \nPort: \nAuthenticated Proxy Enabled: 0\n"),
        Ok(MacosProxyState::default())
    );
}

#[test]
fn macos_restore_args_preserve_disabled_proxy_server_and_port() {
    let state = MacosProxyState {
        enabled: false,
        server: Some("proxy.example.test".into()),
        port: Some(8080),
        authenticated: false,
    };

    let args = macos_restore_proxy_args(MacosProxyKind::Web, "Wi-Fi", &state).unwrap();

    assert_eq!(
        args,
        vec![
            vec![
                "-setwebproxy".to_string(),
                "Wi-Fi".to_string(),
                "proxy.example.test".to_string(),
                "8080".to_string(),
                "off".to_string(),
            ],
            vec!["-setwebproxystate".to_string(), "Wi-Fi".to_string(), "off".to_string()],
        ]
    );
}

#[test]
fn macos_snapshot_matches_only_when_all_proxies_are_air_owned() {
    let current = SystemProxySnapshot {
        managed_port: 9870,
        services: vec![SystemProxyServiceSnapshot {
            service: "Wi-Fi".into(),
            web: MacosProxyState::local_enabled(9870),
            secure_web: MacosProxyState::local_enabled(9870),
            socks: MacosProxyState::local_enabled(9870),
        }],
    };

    assert!(snapshot_services_match_local_proxy(&current, &["Wi-Fi".to_string()], 9870));
    assert!(!snapshot_services_match_local_proxy(&current, &["Wi-Fi".to_string()], 19090));
}

#[test]
fn services_of_others_do_not_match() {
    let mut current = SystemProxySnapshot {
        managed_port: 1,
        services: vec![SystemProxyServiceSnapshot {
            service: "Wi-Fi".into(),
            web: MacosProxyState::local_enabled(1),
            secure_web: MacosProxyState::local_enabled(1),
            socks: MacosProxyState::local_enabled(1),
        }],
    };
    assert!(snapshot_services_match_local_proxy(&current, &[], 2));
    assert!(!snapshot_services_match_local_proxy(&current, &texts(&["Wi-Fi", "LAN"]), 1));
    assert!(service_snapshot_matches_local_proxy(&current.services[0], 1));
    current.services[0].socks.enabled = false;
    assert!(!service_snapshot_matches_local_proxy(&current.services[0], 1));
    current.services[0].socks = proxy(true, "localhost", 1);
    assert!(!service_snapshot_matches_local_proxy(&current.services[0], 1));
    assert!(!MacosProxyState::default().matches_local_proxy(0));
    let moved = current.with_managed_port(7);
    assert_eq!(moved.managed_port, 7);
    assert_eq!(moved.services, current.services);
    assert_eq!(current.clone(), current);
}

#[test]
fn system_proxy_port_must_be_valid_tcp_port() {
    assert!(validate_port(9870).is_ok());
    assert!(validate_port(0).is_err());
    assert!(validate_port(70000).is_err());
}

#[test]
fn ports_at_the_limits() {
    assert_eq!(validate_port(1), Ok(()));
    assert_eq!(validate_port(65535), Ok(()));
    assert_eq!(
        validate_port(65536),
        Err(PlatformError::OperationFailed("系统代理端口无效: 65536".to_string()))
    );
    assert_eq!(
        validate_port(0),
        Err(PlatformError::OperationFailed("系统代理端口无效: 0".to_string()))
    );
    assert_eq!(validate_port_for_restore(0), Ok(()));
    assert_eq!(validate_port_for_restore(65535), Ok(()));
    assert_eq!(
        validate_port_for_restore(70000),
        Err(PlatformError::OperationFailed("系统代理端口无效: 70000".to_string()))
    );
    let unset = MacosProxyState::default();
    assert_eq!(
        macos_restore_proxy_args(MacosProxyKind::Socks, "LAN", &unset).map(|args| args.len()),
        Ok(2)
    );
    let bad = proxy(true, "host", 70000);
    assert_eq!(
        macos_restore_proxy_args(MacosProxyKind::Web, "LAN", &bad),
        Err(PlatformError::OperationFailed("系统代理端口无效: 70000".to_string()))
    );
}

#[test]
fn taking_over_and_putting_back_gives_the_captured_proxies() {
    let mut machine = machine();
    let snapshot = machine.capture(9870).unwrap();
    assert_eq!(snapshot.managed_port, 9870);
    assert_eq!(snapshot.services.len(), 2);
    assert_eq!(snapshot.services[0].web, proxy(true, "proxy.example.test", 8080));

    let update = machine.update(enable_local_system_proxy(HostPlatform::Macos, 9870)).unwrap();
    assert_eq!(update.services, texts(&["Wi-Fi", "USB LAN"]));
    let now = machine.capture(9870).unwrap();
    assert!(snapshot_services_match_local_proxy(&now, &update.services, 9870));

    let restore = machine.restore(&snapshot).unwrap();
    assert_eq!(restore.restored_services, texts(&["Wi-Fi", "USB LAN"]));
    assert!(restore.skipped_services.is_empty());
    assert_eq!(machine.services[0].1[0], proxy(true, "proxy.example.test", 8080));
    assert_eq!(machine.services[1].1[1], proxy(false, "old.example.test", 3128));
    assert!(!machine.services[0].1[1].enabled);
    assert!(!machine.services[1].1[2].enabled);
}

#[test]
fn only_owned_services_are_put_back() {
    let mut machine = machine();
    let snapshot = machine.capture(9870).unwrap();
    machine.update(enable_local_system_proxy(HostPlatform::Macos, 9870)).unwrap();
    machine.services[1].1[2] = proxy(true, "user.example.test", 1);
    let before = machine.services[1].1.clone();
    let restore = machine.restore(&snapshot).unwrap();
    assert_eq!(restore.restored_services, texts(&["Wi-Fi"]));
    assert_eq!(restore.skipped_services, texts(&["USB LAN"]));
    assert_eq!(machine.services[1].1, before);
}

#[test]
fn services_that_are_gone_are_passed_over() {
    let mut machine = machine();
    let snapshot = machine.capture(9870).unwrap();
    machine.update(enable_local_system_proxy(HostPlatform::Macos, 9870)).unwrap();
    machine.services.remove(0);
    let restore = machine.restore(&snapshot).unwrap();
    assert_eq!(restore.restored_services, texts(&["USB LAN"]));
    assert!(restore.skipped_services.is_empty());
}

#[test]
fn the_first_failing_run_ends_an_operation() {
    let mut machine = machine();
    machine.fails_at = Some(2);
    let failure = PlatformError::OperationFailed(
        "执行 networksetup [\"-setsocksfirewallproxy\", \"Wi-Fi\", \"127.0.0.1\", \"9870\", \"off\"] 失败，状态 Some(5): no"
            .to_string(),
    );
    assert_eq!(
        machine.update(enable_local_system_proxy(HostPlatform::Macos, 9870)),
        Err(failure)
    );
    assert_eq!(machine.runs.len(), 3);

    machine.runs.clear();
    assert!(machine.capture(9870).is_err());
    assert_eq!(machine.runs.len(), 3);

    let mut machine = crate::machine();
    let snapshot = machine.capture(9870).unwrap();
    machine.update(enable_local_system_proxy(HostPlatform::Macos, 9870)).unwrap();
    machine.runs.clear();
    machine.fails_at = Some(7);
    assert!(machine.restore(&snapshot).is_err());
    assert_eq!(machine.runs.len(), 8);
}

#[test]
fn switching_off_touches_the_state_alone() {
    let mut machine = machine();
    machine.update(enable_local_system_proxy(HostPlatform::Macos, 9870)).unwrap();
    let update = machine.update(disable_system_proxy(HostPlatform::Macos)).unwrap();
    assert_eq!(update.services, texts(&["Wi-Fi", "USB LAN"]));
    for (_, states) in &machine.services {
        for state in states {
            assert!(!state.enabled);
            assert_eq!(state.server.as_deref(), Some("127.0.0.1"));
        }
    }
}

#[test]
fn a_bad_saved_port_stops_the_restore_behind_the_commands_before_it() {
    let mut machine = machine();
    let mut snapshot = machine.capture(9870).unwrap();
    snapshot.services[0].socks.port = Some(70000);
    machine.update(enable_local_system_proxy(HostPlatform::Macos, 9870)).unwrap();
    let now = machine.capture(9870).unwrap();
    let plan = restore_plan(&snapshot, &now);
    let complaint = PlatformError::OperationFailed("系统代理端口无效: 70000".to_string());
    let web = macos_restore_proxy_args(MacosProxyKind::Web, "Wi-Fi", &snapshot.services[0].web);
    let secure = macos_restore_proxy_args(
        MacosProxyKind::SecureWeb,
        "Wi-Fi",
        &snapshot.services[0].secure_web,
    );
    let mut expected = web.unwrap();
    expected.extend(secure.unwrap());
    assert_eq!(plan.commands, expected);
    assert_eq!(plan.outcome, Err(complaint));
    assert!(machine.restore(&snapshot).is_err());
}

#[test]
fn ports_are_checked_before_the_platform() {
    let bad = PlatformError::OperationFailed("系统代理端口无效: 70000".to_string());
    assert_eq!(
        enable_local_system_proxy(HostPlatform::Other, 70000),
        UpdateStep::Done(Err(bad))
    );
    let snapshot = SystemProxySnapshot { managed_port: 0, services: vec![] };
    assert_eq!(
        restore_system_proxy_snapshot(HostPlatform::Windows, &snapshot),
        RestoreStep::Done(Err(PlatformError::OperationFailed("系统代理端口无效: 0".to_string())))
    );
    assert_eq!(
        capture_system_proxy_snapshot(HostPlatform::Macos, 65536),
        CaptureStep::Done(Err(PlatformError::OperationFailed(
            "系统代理端口无效: 65536".to_string()
        )))
    );
}

#[test]
fn other_platforms_have_no_proxies_to_set() {
    for host in [HostPlatform::Windows, HostPlatform::Other] {
        let sync = || PlatformError::Unsupported("当前平台尚未接入系统代理同步".to_string());
        assert_eq!(enable_local_system_proxy(host, 9870), UpdateStep::Done(Err(sync())));
        assert_eq!(disable_system_proxy(host), UpdateStep::Done(Err(sync())));
        assert_eq!(
            capture_system_proxy_snapshot(host, 9870),
            CaptureStep::Done(Err(PlatformError::Unsupported(
                "当前平台尚未接入系统代理快照".to_string()
            )))
        );
        let snapshot = SystemProxySnapshot { managed_port: 9870, services: vec![] };
        assert_eq!(
            restore_system_proxy_snapshot(host, &snapshot),
            RestoreStep::Done(Err(PlatformError::Unsupported(
                "当前平台尚未接入系统代理快照恢复".to_string()
            )))
        );
    }
}

#[test]
fn outcomes_become_replies() {
    let list = NetworkSetupRequest::ListServices;
    let run = NetworkSetupRequest::Run(texts(&["-getwebproxy", "a\"b\n"]));
    assert_eq!(
        networksetup_reply(&list, Err("not found".to_string())),
        Err(PlatformError::OperationFailed("读取 macOS 网络服务失败: not found".to_string()))
    );
    assert_eq!(
        networksetup_reply(&run, Err("not found".to_string())),
        Err(PlatformError::OperationFailed("执行 networksetup 失败: not found".to_string()))
    );
    let outcome = |success, code, stdout: &[u8], stderr: &[u8]| {
        Ok(ProgramOutcome { success, code, stdout: stdout.to_vec(), stderr: stderr.to_vec() })
    };
    assert_eq!(
        networksetup_reply(&run, outcome(true, Some(0), "代理".as_bytes(), b"")),
        Ok("代理".to_string())
    );
    assert_eq!(
        networksetup_reply(&run, outcome(true, Some(0), &[b'a', 0xff, b'b'], b"")),
        Ok("a\u{fffd}b".to_string())
    );
    assert_eq!(
        networksetup_reply(&list, outcome(false, None, b"", &[b'x', 0xff])),
        Err(PlatformError::OperationFailed(
            "读取 macOS 网络服务失败，networksetup=None: x\u{fffd}".to_string()
        ))
    );
    assert_eq!(
        networksetup_reply(&run, outcome(false, Some(-2147483648), b"", b"boom")),
        Err(PlatformError::OperationFailed(
            "执行 networksetup [\"-getwebproxy\", \"a\\\"b\\n\"] 失败，状态 Some(-2147483648): boom"
                .to_string()
        ))
    );
    assert_eq!(
        networksetup_failure(&vec![], Some(14), ""),
        PlatformError::OperationFailed("执行 networksetup [] 失败，状态 Some(14): ".to_string())
    );
}

#[test]
fn requests_carry_their_arguments() {
    assert_eq!(NetworkSetupRequest::ListServices.args(), texts(&["-listallnetworkservices"]));
    let args = texts(&["-setwebproxystate", "Wi-Fi", "off"]);
    assert_eq!(NetworkSetupRequest::Run(args.clone()).args(), args);
}

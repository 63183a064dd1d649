use air::core_service::args::{
    service_args_from_argv, service_binary_args, service_owner_pid_from_args,
    service_paths_from_args, service_start_args,
};
use air::core_service::service::{
    install_core_service, query_core_service, run_core_service_from_env,
    run_elevated_service_helper_from_env, start_core_service, stop_core_service,
    uninstall_core_service,
};
use air::core_service::types::{
    CoreServiceAction, CoreServicePaths, CoreServiceSnapshot, ProjectDirectories,
    CORE_SERVICE_DISPLAY_NAME, CORE_SERVICE_NAME,
};
use air::core_service::wide::{text_from_wide, wide_null};
use air::errors::{PlatformError, StorageError};
use air::host::HostPlatform;
use air::paths::OsPath;

fn texts(args: &[&str]) -> Vec<String> {
    args.iter().map(|arg| arg.to_string()).collect()
}

const HOST: HostPlatform = HostPlatform::Other;

fn path(text: &str) -> OsPath {
    OsPath::from_text(text)
}

fn sample_paths() -> CoreServicePaths {
    CoreServicePaths::from_base_dirs(HOST, &path("/c"), &path("/d/"), &path("cache"))
}

#[test]
fn the_core_lies_in_the_cache_and_logs_in_the_data() {
    let paths = sample_paths();
    assert_eq!(paths.config_dir, path("/c"));
    assert_eq!(paths.data_dir, path("/d/"));
    assert_eq!(paths.cache_dir, path("cache"));
    assert_eq!(paths.cores_dir, path("cache/core"));
    assert_eq!(paths.logs_dir, path("/d/logs"));
    assert_eq!(
        paths.init(),
        vec![path("/c"), path("/d/"), path("cache"), path("cache/core"), path("/d/logs")]
    );
    assert_eq!(paths.clone(), paths);
}

#[test]
fn default_directories_are_those_of_the_system() {
    let found = ProjectDirectories {
        config_dir: path("/home/a/.config/air"),
        data_dir: path("/home/a/.local/share/air"),
        cache_dir: path("/home/a/.cache/air"),
    };
    let paths = CoreServicePaths::from_project_directories(HOST, Some(found)).unwrap();
    assert_eq!(paths.cores_dir, path("/home/a/.cache/air/core"));
    assert_eq!(paths.logs_dir, path("/home/a/.local/share/air/logs"));
    assert_eq!(
        CoreServicePaths::from_project_directories(HOST, None),
        Err(StorageError::ProjectDirsUnavailable)
    );
    match CoreServicePaths::resolve_default(HOST) {
        Ok(paths) => {
            let expected = CoreServicePaths::from_base_dirs(
                HOST,
                &paths.config_dir,
                &paths.data_dir,
                &paths.cache_dir,
            );
            assert_eq!(paths, expected);
            assert!(paths.config_dir.bytes.ends_with(b"air"));
        }
        Err(error) => assert_eq!(error, StorageError::ProjectDirsUnavailable),
    }
}

#[test]
fn directories_that_are_no_text_are_kept_as_they_are() {
    let odd = OsPath { bytes: vec![b'/', 0xff] };
    let found = ProjectDirectories {
        config_dir: odd.clone(),
        data_dir: odd.clone(),
        cache_dir: odd.clone(),
    };
    let paths = CoreServicePaths::from_project_directories(HOST, Some(found)).unwrap();
    assert_eq!(paths.config_dir, odd);
    assert_eq!(paths.logs_dir.bytes, b"/\xff/logs".to_vec());
    let args = service_binary_args(HOST, Ok(odd.clone()), &paths).unwrap();
    assert_eq!(args[0], "/\u{fffd}");
    assert_eq!(args[3], "/\u{fffd}");

    let surrogate = OsPath { bytes: vec![b'C', b':', 0x5c, 0xed, 0xa0, 0x80, b'x'] };
    assert_eq!(surrogate.to_text(HostPlatform::Windows), "C:\\\u{fffd}x");
    assert_eq!(path(r"C:\代理").to_text(HostPlatform::Windows), r"C:\代理");
}

#[test]
fn paths_are_joined_as_the_platform_does() {
    let core = |host, base: &str| {
        let base = path(base);
        CoreServicePaths::from_base_dirs(host, &base, &base, &base).cores_dir
    };
    for base in ["", "/", "a", "a/", "/a//", "C:", r"\\?\C:\a\", r"a\", "代理", "."] {
        let expected = std::path::Path::new(base).join("core");
        for host in [HostPlatform::Other, HostPlatform::Macos] {
            assert_eq!(core(host, base).bytes, expected.as_os_str().as_encoded_bytes());
        }
    }
    let windows = |base: &str| core(HostPlatform::Windows, base).to_text(HostPlatform::Windows);
    assert_eq!(windows(""), r"core");
    assert_eq!(windows(r"C:"), r"C:core");
    assert_eq!(windows(r"CC:"), r"CC:\core");
    assert_eq!(windows(r"C:\"), r"C:\core");
    assert_eq!(windows(r"C:\a"), r"C:\a\core");
    assert_eq!(windows(r"C:/a/"), r"C:/a/core");
    assert_eq!(windows(r"\\server\share"), r"\\server\share\core");
    assert_eq!(windows(r"\\?\C:"), r"\\?\C:\core");
    assert_eq!(windows(r"\\?\C:\a\\b\"), r"\\?\C:\a\b\core");
    assert_eq!(windows(r"\\?\C:\a/"), r"\\?\C:\a/\core");
    assert_eq!(windows(r"\\?\C:/a"), r"\\?\C:\a\core");
    assert_eq!(windows(r"\\?\C:a"), r"\\?\C:a\core");
    assert_eq!(windows(r"\\?\"), r"\\?\\core");
    assert_eq!(windows(r"//?/C:/a"), r"//?/C:/a\core");
    assert_eq!(windows(r"\\?\UNC\server\share\"), r"\\?\UNC\server\share\core");
}

#[test]
fn actions_are_read_back_from_their_arguments() {
    for action in [CoreServiceAction::Install, CoreServiceAction::Uninstall] {
        assert_eq!(CoreServiceAction::from_arg(action.as_arg()), Some(action));
    }
    assert_eq!(CoreServiceAction::Install.as_arg(), "--install");
    assert_eq!(CoreServiceAction::Uninstall.as_arg(), "--uninstall");
    assert_eq!(CoreServiceAction::from_arg("install"), None);
    assert_eq!(CORE_SERVICE_NAME, "AirMihomoCore");
    assert_eq!(CORE_SERVICE_DISPLAY_NAME, "Air Mihomo Core Service");
}

#[test]
fn the_service_finds_its_directories_on_its_command_line() {
    let args = service_binary_args(HOST, Ok(path("/bin/air")), &sample_paths()).unwrap();
    assert_eq!(
        args,
        texts(&[
            "/bin/air",
            "--air-mihomo-service",
            "--config-dir",
            "/c",
            "--data-dir",
            "/d/",
            "--cache-dir",
            "cache",
        ])
    );
    assert_eq!(service_paths_from_args(HOST, &args), Ok(sample_paths()));
    let named_like_options = CoreServicePaths::from_base_dirs(
        HostPlatform::Windows,
        &path("--data-dir"),
        &path(r"\\?\C:\a\\"),
        &path("--cache-dir"),
    );
    let args = service_binary_args(
        HostPlatform::Windows,
        Ok(path("--config-dir")),
        &named_like_options,
    )
    .unwrap();
    assert_eq!(
        service_paths_from_args(HostPlatform::Windows, &args),
        Ok(named_like_options)
    );
    assert_eq!(
        service_binary_args(HOST, Err("gone".to_string()), &sample_paths()),
        Err(PlatformError::OperationFailed("读取当前程序路径失败: gone".to_string()))
    );
}

#[test]
fn missing_directories_are_reported_in_turn() {
    let failed = |message: &str| Err(PlatformError::OperationFailed(message.to_string()));
    assert_eq!(service_paths_from_args(HOST, &[]), failed("服务缺少配置目录"));
    assert_eq!(
        service_paths_from_args(HOST, &texts(&["air", "--config-dir", "/c"])),
        failed("服务缺少数据目录")
    );
    assert_eq!(
        service_paths_from_args(HOST, &texts(&["air", "--data-dir", "/d", "--config-dir", "/c"])),
        failed("服务缺少缓存目录")
    );
    // The first argument is the program itself.
    assert_eq!(
        service_paths_from_args(HOST, &texts(&["--config-dir", "/c", "--data-dir", "/d"])),
        failed("服务缺少配置目录")
    );
    // A later one counts, and an option takes whatever follows it.
    let paths = service_paths_from_args(HOST, &texts(&[
        "air",
        "--config-dir",
        "/a",
        "--config-dir",
        "--data-dir",
        "--data-dir",
        "/d",
        "--cache-dir",
        "/e",
    ]))
    .unwrap();
    assert_eq!(paths.config_dir, path("--data-dir"));
    assert_eq!(paths.data_dir, path("/d"));
    // An option at the end takes its value away again.
    assert_eq!(
        service_paths_from_args(HOST, &texts(&[
            "air",
            "--config-dir",
            "/c",
            "--data-dir",
            "/d",
            "--cache-dir",
            "/e",
            "--cache-dir",
        ])),
        failed("服务缺少缓存目录")
    );
}

#[test]
fn the_owner_is_found_on_the_command_line() {
    assert_eq!(service_start_args(42), texts(&["--owner-pid", "42"]));
    for pid in [1, 42, 4294967295] {
        assert_eq!(service_owner_pid_from_args(&service_start_args(pid)), Some(pid));
    }
    assert_eq!(service_owner_pid_from_args(&service_start_args(0)), None);
    assert_eq!(service_owner_pid_from_args(&[]), None);
    assert_eq!(service_owner_pid_from_args(&texts(&["--owner-pid"])), None);
    assert_eq!(
        service_owner_pid_from_args(&texts(&[
            "--owner-pid",
            "x",
            "--owner-pid",
            "0",
            "--owner-pid",
            "--owner-pid",
            "7",
            "--owner-pid",
            "8",
        ])),
        Some(7)
    );
}

#[test]
fn wide_text_round_trips() {
    assert_eq!(wide_null("aé😀"), vec![0x61, 0xe9, 0xd83d, 0xde00, 0]);
    assert_eq!(text_from_wide(&wide_null("aé😀代理")), "aé😀代理");
    assert_eq!(wide_null(""), vec![0]);
    assert_eq!(text_from_wide(&vec![0x61, 0, 0x62]), "a");
    assert_eq!(text_from_wide(&vec![]), "");
    assert_eq!(text_from_wide(&vec![0xd83d, 0x61, 0xde00, 0]), "\u{fffd}a\u{fffd}");
    let argv = vec![Some(wide_null("--owner-pid")), None, Some(wide_null("9"))];
    assert_eq!(service_args_from_argv(&argv), texts(&["--owner-pid", "9"]));
    assert_eq!(service_owner_pid_from_args(&service_args_from_argv(&argv)), Some(9));
}

#[test]
fn without_services_nothing_can_be_done() {
    let none = || PlatformError::Unsupported("当前平台不支持 Windows 服务".to_string());
    let no_rise = || PlatformError::Unsupported("当前平台不支持 Windows 服务提权操作".to_string());
    assert_eq!(
        query_core_service(),
        Ok(CoreServiceSnapshot { installed: false, running: false })
    );
    assert_eq!(start_core_service(), Err(none()));
    assert_eq!(stop_core_service(), Err(none()));
    assert_eq!(run_core_service_from_env(), Err(none()));
    assert_eq!(install_core_service(&sample_paths()), Err(no_rise()));
    assert_eq!(uninstall_core_service(), Err(no_rise()));
    assert_eq!(run_elevated_service_helper_from_env(), Err(no_rise()));
}

use air::config::{
    document_enables_tun, ensure_runtime_dns_defaults, normalize_controller_url, set_runtime_mode,
    ConfigDocument, DnsConfig, GlobalConfig, MihomoClientFactory, MihomoConfigDocument, TunConfig,
};
use air::core_service::service::{
    install_core_service, query_core_service, uninstall_core_service,
};
use air::core_service::types::CoreServiceSnapshot;
use air::errors::{AppError, ConfigError, PlatformError, ProcessError};
use air::host::HostPlatform;
use air::paths::{AppPaths, OsPath};
use air::services::exit::{system_proxy_disabled, ExitPending, ExitStep};
use air::services::launch::{
    resolve_mihomo_binary_for_config_test, LaunchReply, LaunchStep, WriteReply, WriteStep,
};
use air::services::profile::{SaveReply, SaveStep};
use air::services::proxy_sync::{SyncReply, SyncStep};
use air::services::runtime_config::{
    build_effective_runtime_config, preview_built, preview_rendered, script_applied, BuildStep,
    PreviewStep,
};
use air::services::scripts::{
    override_script_settings_loaded, override_script_settings_saved, ScriptStep,
};
use air::services::selection::{
    selected_subscription_cache_read, selected_subscription_parsed, ProfileSource, SelectStep,
};
use air::services::state::{
    core_service_paths, runtime_status_from_mihomo, AppServices, AppSnapshot, MihomoServicePhase,
    MihomoServiceStatus, ReportedError, RuntimeInfo, RuntimeStatus,
};
use air::settings::AppSettings;
use air::snapshot_store::{FileFailure, SystemProxySnapshotStore};
use air::subscriptions::{
    active_subscription_name, subscription_merge_inputs, GatherStep, SubscriptionMergeInput,
    SubscriptionSource,
};
use air::system_proxy::state::{
    MacosProxyState, SystemProxyRestore, SystemProxyServiceSnapshot, SystemProxySnapshot,
    SystemProxyUpdate,
};

// What of a configuration the library carries along.
#[derive(Debug, Default, PartialEq, Eq)]
struct Rest {
    proxies: Vec<String>,
    proxy_groups: Vec<String>,
    rules: Vec<String>,
    extensions: Vec<String>,
}

type Document = ConfigDocument<Rest>;
type Runtime = MihomoConfigDocument<Rest>;

fn empty_document() -> Document {
    ConfigDocument {
        typed: MihomoConfigDocument {
            global: GlobalConfig {
                mode: None,
                mixed_port: None,
                external_controller: None,
                secret: None,
            },
            tun: None,
            dns: None,
            rest: Rest::default(),
        },
    }
}

// Reads as much YAML as these tests write.
fn parse(source: &str) -> Result<Document, String> {
    let mut document = empty_document();
    let mut section = String::new();
    let mut list = String::new();
    for line in source.lines() {
        let text = line.trim();
        if text.is_empty() {
            continue;
        }
        if !line.starts_with(' ') {
            let Some((key, value)) = text.split_once(':') else {
                return Err(format!("no mapping: {text}"));
            };
            let value = value.trim();
            section = key.to_string();
            let global = &mut document.typed.global;
            match key {
                "mode" => global.mode = Some(value.to_string()),
                "mixed-port" => global.mixed_port = Some(value.parse().unwrap()),
                "external-controller" => global.external_controller = Some(value.to_string()),
                "secret" => global.secret = Some(value.to_string()),
                "tun" => document.typed.tun = Some(TunConfig { enable: None }),
                "dns" => {
                    document.typed.dns =
                        Some(DnsConfig { default_nameserver: vec![], nameserver: vec![] });
                }
                "proxies" | "proxy-groups" | "rules" => {}
                _ => document.typed.rest.extensions.push(key.to_string()),
            }
            continue;
        }
        match section.as_str() {
            "tun" => {
                if let Some(value) = text.strip_prefix("enable: ") {
                    document.typed.tun = Some(TunConfig { enable: Some(value == "true") });
                }
            }
            "dns" => {
                if let Some(name) = text.strip_suffix(':') {
                    list = name.to_string();
                } else if let (Some(dns), Some(item)) =
                    (document.typed.dns.as_mut(), text.strip_prefix("- "))
                {
                    match list.as_str() {
                        "default-nameserver" => dns.default_nameserver.push(item.to_string()),
                        _ => dns.nameserver.push(item.to_string()),
                    }
                }
            }
            "proxies" | "proxy-groups" => {
                if let Some(name) = text.strip_prefix("- name: ") {
                    if section == "proxies" {
                        document.typed.rest.proxies.push(name.to_string());
                    } else {
                        document.typed.rest.proxy_groups.push(name.to_string());
                    }
                }
            }
            "rules" => {
                if let Some(rule) = text.strip_prefix("- ") {
                    document.typed.rest.rules.push(rule.to_string());
                }
            }
            _ => {}
        }
    }
    Ok(document)
}

fn render(runtime: &Runtime) -> String {
    let mut yaml = String::new();
    let global = &runtime.global;
    if let Some(mode) = &global.mode {
        yaml += &format!("mode: {mode}\n");
    }
    if let Some(port) = global.mixed_port {
        yaml += &format!("mixed-port: {port}\n");
    }
    if let Some(address) = &global.external_controller {
        yaml += &format!("external-controller: {address}\n");
    }
    if let Some(secret) = &global.secret {
        yaml += &format!("secret: {secret}\n");
    }
    if let Some(tun) = &runtime.tun {
        yaml += "tun:\n";
        if let Some(enable) = tun.enable {
            yaml += &format!("  enable: {enable}\n");
        }
    }
    if let Some(dns) = &runtime.dns {
        yaml += "dns:\n  default-nameserver:\n";
        for server in &dns.default_nameserver {
            yaml += &format!("    - {server}\n");
        }
        yaml += "  nameserver:\n";
        for server in &dns.nameserver {
            yaml += &format!("    - {server}\n");
        }
    }
    if !runtime.rest.proxies.is_empty() {
        yaml += "proxies:\n";
        for name in &runtime.rest.proxies {
            yaml += &format!("  - name: {name}\n");
        }
    }
    if !runtime.rest.rules.is_empty() {
        yaml += "rules:\n";
        for rule in &runtime.rest.rules {
            yaml += &format!("  - {rule}\n");
        }
    }
    for key in &runtime.rest.extensions {
        yaml += &format!("{key}:\n  keep: true\n");
    }
    yaml
}

// Does to a configuration what the scripts of these tests say.
fn apply_script(mut runtime: Runtime, script: &str) -> Result<Runtime, String> {
    if script.contains("throw") {
        return Err("script failed".to_string());
    }
    for line in script.lines() {
        let line = line.trim();
        if let Some(value) = line.strip_prefix("config[\"mixed-port\"] = ") {
            runtime.global.mixed_port = Some(value.trim_end_matches(';').parse().unwrap());
        }
        if let Some(rule) = line.strip_prefix("config.rules.push(\"") {
            runtime.rest.rules.push(rule.trim_end_matches("\");").to_string());
        }
    }
    Ok(runtime)
}

fn path(text: &str) -> OsPath {
    OsPath::from_text(text)
}

fn paths_in(base: &str) -> AppPaths {
    AppPaths {
        config_dir: path(&format!("{base}/config")),
        data_dir: path(&format!("{base}/data")),
        cache_dir: path(&format!("{base}/cache")),
        cores_dir: path(&format!("{base}/cache/core")),
        logs_dir: path(&format!("{base}/data/logs")),
        backups_dir: path(&format!("{base}/data/backups")),
    }
}

fn safe_paths() -> Vec<OsPath> {
    vec![path("/tmp/air/config"), path("/tmp/air/data"), path("/tmp/air/cache")]
}

fn copy_of(info: &Option<RuntimeInfo<()>>) -> Option<RuntimeInfo<()>> {
    info.as_ref().map(|info| RuntimeInfo {
        binary_path: info.binary_path.clone(),
        executable: info.executable,
        rest: (),
    })
}

// The application with stores in memory.
struct Bench {
    services: AppServices<()>,
    store: SystemProxySnapshotStore,
    system_proxy_enabled: bool,
    override_script_enabled: bool,
    user_config: String,
    user_config_backup: Option<String>,
    runtime_config: Option<String>,
    script: String,
    sources: Vec<(String, String, bool)>,
    caches: Vec<(String, Vec<u8>)>,
    snapshot_file: Option<SystemProxySnapshot>,
    core: Option<RuntimeInfo<()>>,
    core_rejects: bool,
    warnings: Vec<String>,
    script_names: Vec<String>,
    actions: Vec<String>,
    save_fails: bool,
    restore_skips: bool,
}

const HOST: HostPlatform = HostPlatform::Macos;

const USER_CONFIG: &str = "mixed-port: 9870\nexternal-controller: 127.0.0.1:19090\ndns:\n";

fn bench() -> Bench {
    let paths = paths_in("/tmp/air");
    let document = parse(USER_CONFIG).unwrap();
    Bench {
        services: AppServices::with_paths(paths.clone(), Some(&document), query_core_service()),
        store: SystemProxySnapshotStore::new(paths),
        system_proxy_enabled: false,
        override_script_enabled: false,
        user_config: USER_CONFIG.to_string(),
        user_config_backup: None,
        runtime_config: None,
        script: String::new(),
        sources: vec![],
        caches: vec![],
        snapshot_file: None,
        core: Some(RuntimeInfo {
            binary_path: Some(path("/tmp/air/cache/core/mihomo")),
            executable: true,
            rest: (),
        }),
        core_rejects: false,
        warnings: vec![],
        script_names: vec![],
        actions: vec![],
        save_fails: false,
        restore_skips: false,
    }
}

fn settings_of(bench: &Bench) -> Result<AppSettings<()>, AppError<String>> {
    Ok(AppSettings {
        system_proxy_enabled: bench.system_proxy_enabled,
        override_script_enabled: bench.override_script_enabled,
        rest: (),
    })
}

// The proxies of the system, as they were found.
fn capture(port: u32) -> SystemProxySnapshot {
    SystemProxySnapshot {
        managed_port: port,
        services: vec![SystemProxyServiceSnapshot {
            service: "Wi-Fi".into(),
            web: MacosProxyState::default(),
            secure_web: MacosProxyState::default(),
            socks: MacosProxyState::default(),
        }],
    }
}

impl Bench {
    fn load_user_config(&self) -> Result<Document, String> {
        parse(&self.user_config)
    }

    fn load_sources(&self) -> Result<Vec<SubscriptionSource>, String> {
        Ok(self
            .sources
            .iter()
            .map(|(id, name, enabled)| SubscriptionSource {
                id: id.clone(),
                name: name.clone(),
                enabled: *enabled,
            })
            .collect())
    }

    fn read_cache(&mut self, id: &str) -> Result<Option<Vec<u8>>, String> {
        self.actions.push(format!("cache {id}"));
        if id == "broken" {
            return Err("cache unreadable".to_string());
        }
        Ok(self.caches.iter().find(|(own, _)| own == id).map(|(_, bytes)| bytes.clone()))
    }

    fn gather(&mut self) -> Result<Vec<SubscriptionMergeInput<Rest>>, AppError<String>> {
        let mut step = subscription_merge_inputs(self.load_sources());
        loop {
            step = match step {
                GatherStep::ReadCache(state) => {
                    let cached = self.read_cache(&state.source.id);
                    state.cache_read(cached)
                }
                GatherStep::Parse { text, state } => state.parsed(parse(&text)),
                GatherStep::Done(result) => return result,
            };
        }
    }

    fn run_build(&mut self, first: BuildStep<Rest, String>) -> Result<Runtime, AppError<String>> {
        let mut step = first;
        loop {
            step = match step {
                BuildStep::Gather(state) => {
                    let gathered = self.gather();
                    state.gathered(gathered)
                }
                BuildStep::Merge { document, subscriptions, state } => {
                    let mut merged = document;
                    for input in subscriptions {
                        merged.rest.proxies.extend(input.document.rest.proxies);
                    }
                    state.merged(merged)
                }
                BuildStep::LoadSettings(state) => {
                    self.actions.push("settings".to_string());
                    state.settings_loaded(Ok(AppSettings {
                        system_proxy_enabled: self.system_proxy_enabled,
                        override_script_enabled: self.override_script_enabled,
                        rest: (),
                    }))
                }
                BuildStep::LoadScript(state) => {
                    self.actions.push("script".to_string());
                    state.script_loaded(Ok(self.script.clone()))
                }
                BuildStep::ApplyScript { merged, script } => {
                    self.script_names.push(merged.subscription_name);
                    script_applied(apply_script(merged.runtime, &script))
                }
                BuildStep::Done(result) => return result,
            };
        }
    }

    fn build(&mut self) -> Result<Runtime, AppError<String>> {
        let first = build_effective_runtime_config(self.load_user_config(), None);
        self.run_build(first)
    }

    fn preview_override_script(&mut self, script: &str) -> Result<String, AppError<String>> {
        let first = self.services.preview_override_script(self.load_user_config(), script);
        let mut step = preview_built(self.run_build(first));
        loop {
            step = match step {
                PreviewStep::Render { runtime } => preview_rendered(Ok(render(&runtime))),
                PreviewStep::Done(result) => return result,
            };
        }
    }

    fn run_write(&mut self, first: WriteStep<Rest, String>) -> Result<OsPath, AppError<String>> {
        let mut step = first;
        loop {
            let reply = match &step {
                WriteStep::Build { .. } => WriteReply::Built(self.build()),
                WriteStep::Render { runtime, .. } => WriteReply::Rendered(Ok(render(runtime))),
                WriteStep::Test { options, .. } => {
                    self.actions.push(format!("test {}", options.binary_path.to_text(HOST)));
                    WriteReply::Tested(if self.core_rejects {
                        Err("rejected".to_string())
                    } else {
                        Ok(())
                    })
                }
                WriteStep::Write { runtime } => {
                    self.actions.push("write".to_string());
                    self.runtime_config = Some(render(runtime));
                    let directory = self.services.paths.config_dir.to_text(HOST);
                    let written = path(&format!("{directory}/core.runtime.config.yaml"));
                    WriteReply::Written(Ok(written))
                }
                WriteStep::Done(_) => break,
            };
            step = step.resume(reply);
        }
        match step {
            WriteStep::Done(result) => result,
            _ => unreachable!(),
        }
    }

    fn write_runtime_config(&mut self) -> Result<OsPath, AppError<String>> {
        let built = self.build();
        let first = self.services.write_runtime_config(built);
        self.run_write(first)
    }

    fn run_save(&mut self, first: SaveStep<Rest, String>) -> Result<(), AppError<String>> {
        let mut step = first;
        loop {
            let reply = match &step {
                SaveStep::Parse { source, .. } => SaveReply::Parsed(parse(source)),
                SaveStep::Render { document } => SaveReply::Rendered(Ok(render(&document.typed))),
                SaveStep::Detect { .. } => SaveReply::Detected(match copy_of(&self.core) {
                    Some(found) => Ok(found),
                    None => Ok(RuntimeInfo { binary_path: None, executable: false, rest: () }),
                }),
                SaveStep::Test { options, .. } => {
                    self.actions.push(format!("test {}", options.binary_path.to_text(HOST)));
                    SaveReply::Tested(if self.core_rejects {
                        Err("rejected".to_string())
                    } else {
                        Ok(())
                    })
                }
                SaveStep::Save { document } => {
                    self.actions.push("save".to_string());
                    if self.save_fails {
                        SaveReply::Saved(Err("disk full".to_string()))
                    } else {
                        self.user_config_backup =
                            Some(std::mem::replace(&mut self.user_config, render(&document.typed)));
                        SaveReply::Saved(Ok(()))
                    }
                }
                SaveStep::Reload => SaveReply::Reloaded(self.load_user_config().ok()),
                SaveStep::Done(_) => break,
            };
            step = self.services.resume_save(step, reply);
        }
        match step {
            SaveStep::Done(result) => result,
            _ => unreachable!(),
        }
    }

    fn save_current_config(&mut self, source: &str) -> Result<(), AppError<String>> {
        let first = self.services.save_current_config(source);
        self.run_save(first)
    }

    fn save_override_script(&mut self, script: &str, enabled: bool) {
        self.script = script.to_string();
        let mut step: ScriptStep<(), String> = self.services.save_override_script(Ok(()), enabled);
        loop {
            step = match step {
                ScriptStep::LoadSettings { enabled } => override_script_settings_loaded(
                    enabled,
                    Ok(AppSettings {
                        system_proxy_enabled: self.system_proxy_enabled,
                        override_script_enabled: self.override_script_enabled,
                        rest: (),
                    }),
                ),
                ScriptStep::SaveSettings { settings } => {
                    self.system_proxy_enabled = settings.system_proxy_enabled;
                    self.override_script_enabled = settings.override_script_enabled;
                    override_script_settings_saved(Ok(()))
                }
                ScriptStep::Done(result) => {
                    result.unwrap();
                    return;
                }
            };
        }
    }

    fn current_mixed_port(&mut self) -> Result<Option<u32>, AppError<String>> {
        let built = self.build();
        self.services.current_mixed_port(built)
    }

    fn load_snapshot(&self) -> Result<Option<SystemProxySnapshot>, String> {
        self.store.load(match &self.snapshot_file {
            Some(snapshot) => Ok(snapshot.clone()),
            None => Err(FileFailure::NotFound),
        })
    }

    fn file_exists(&self, file: &str) -> bool {
        path(file) == self.store.snapshot_path(HOST) && self.snapshot_file.is_some()
    }

    fn run_sync(
        &mut self,
        first: SyncStep<AppError<String>>,
    ) -> Result<(), AppError<String>> {
        let mut step = first;
        loop {
            let reply = match &step {
                SyncStep::LoadMixedPort => SyncReply::MixedPort(self.current_mixed_port()),
                SyncStep::LoadSnapshot { .. } | SyncStep::LoadForDisable => {
                    SyncReply::Loaded(self.load_snapshot())
                }
                SyncStep::Capture { port } => {
                    self.actions.push(format!("capture {port}"));
                    SyncReply::Captured(Ok(capture(*port)))
                }
                SyncStep::SaveCaptured { snapshot, .. }
                | SyncStep::SaveConfirmed { confirmed: snapshot, .. } => {
                    if self.save_fails {
                        SyncReply::Saved(Err("disk full".to_string()))
                    } else {
                        self.snapshot_file = Some(snapshot.clone());
                        SyncReply::Saved(Ok(()))
                    }
                }
                SyncStep::Enable { port, .. } => {
                    self.actions.push(format!("enable {port}"));
                    SyncReply::Enabled(if *port == 19091 {
                        Err("test system proxy failure".to_string())
                    } else {
                        Ok(SystemProxyUpdate { services: vec!["Wi-Fi".into()] })
                    })
                }
                SyncStep::RestoreAttempted { attempted: snapshot, .. }
                | SyncStep::RestoreOriginal { snapshot, .. }
                | SyncStep::RestoreForDisable { snapshot } => {
                    self.actions.push(format!("restore {}", snapshot.managed_port));
                    let names: Vec<String> =
                        snapshot.services.iter().map(|service| service.service.clone()).collect();
                    SyncReply::Restored(Ok(if self.restore_skips {
                        SystemProxyRestore { restored_services: vec![], skipped_services: names }
                    } else {
                        SystemProxyRestore { restored_services: names, skipped_services: vec![] }
                    }))
                }
                SyncStep::Delete => {
                    self.actions.push("delete".to_string());
                    let removed: Result<(), FileFailure<String>> = match self.snapshot_file.take() {
                        Some(_) => Ok(()),
                        None => Err(FileFailure::NotFound),
                    };
                    SyncReply::Deleted(self.store.delete(removed))
                }
                SyncStep::Done(_) => break,
            };
            let advance = step.resume(reply);
            self.warnings.extend(advance.warning);
            step = advance.step;
        }
        match step {
            SyncStep::Done(result) => result,
            _ => unreachable!(),
        }
    }

    fn sync(&mut self) -> Result<(), AppError<String>> {
        let first = self
            .services
            .sync_system_proxy_to_current_config(HostPlatform::Macos, settings_of(self));
        self.run_sync(first)
    }

    fn disable_system_proxy(&mut self) {
        let first = self.services.disable_system_proxy();
        self.run_sync(first).unwrap();
    }

    fn selected_subscription_document(&mut self) -> Result<Option<Document>, AppError<String>> {
        let mut step = self.services.selected_subscription_document(self.load_sources());
        loop {
            step = match step {
                SelectStep::ReadCache { id } => {
                    selected_subscription_cache_read(self.read_cache(&id))
                }
                SelectStep::Parse { text } => selected_subscription_parsed(parse(&text)),
                SelectStep::Done(result) => return result,
            };
        }
    }
}

#[test]
fn endpoint_is_derived_from_core_config_without_hardcoded_secret() {
    let document =
        parse("external-controller: 127.0.0.1:9099\nsecret: secret-token\n").unwrap();

    let endpoint = MihomoClientFactory::endpoint_from_document(Some(&document));

    assert_eq!(endpoint.base_url, "http://127.0.0.1:9099");
    assert_eq!(endpoint.secret.as_deref(), Some("secret-token"));
}

#[test]
fn endpoint_without_config_is_local_and_has_no_secret() {
    let endpoint = MihomoClientFactory::endpoint_from_document::<Rest>(None);
    assert_eq!(endpoint.base_url, "http://127.0.0.1:19090");
    assert_eq!(endpoint.secret, None);

    let document = parse("mode: rule\n").unwrap();
    let endpoint = MihomoClientFactory::endpoint_from_document(Some(&document));
    assert_eq!(endpoint.base_url, "http://127.0.0.1:19090");
    assert_eq!(endpoint.secret, None);
}

#[test]
fn controller_urls_are_trimmed_and_get_a_scheme_once() {
    assert_eq!(normalize_controller_url(" 10.0.0.1:9090\n"), "http://10.0.0.1:9090");
    assert_eq!(normalize_controller_url("https://host:1/"), "https://host:1/");
    assert_eq!(normalize_controller_url("\u{3000}http://host:1 "), "http://host:1");
    assert_eq!(normalize_controller_url("httpx://a"), "http://httpx://a");
    assert_eq!(normalize_controller_url("HTTP://a"), "http://HTTP://a");
    assert_eq!(normalize_controller_url("  "), "http://");
    for value in ["", " a ", "http://b", "https://", "http:/"] {
        let once = normalize_controller_url(value);
        assert_eq!(normalize_controller_url(&once), once);
    }
}

#[test]
fn tun_enable_flag_controls_privileged_core_start_requirement() {
    let enabled = parse("tun:\n  enable: true\n").unwrap();
    let disabled = parse("tun:\n  enable: false\n").unwrap();
    let absent = parse("mixed-port: 7890\n").unwrap();

    assert!(document_enables_tun(&enabled));
    assert!(!document_enables_tun(&disabled));
    assert!(!document_enables_tun(&absent));
}

#[test]
fn tun_section_without_flag_needs_no_privileges() {
    assert!(!document_enables_tun(&parse("tun:\n  stack: system\n").unwrap()));
    let bench = bench();
    assert_eq!(
        bench.services.current_config_enables_tun::<Rest, String>(Err("gone".to_string())),
        Err("gone".to_string())
    );
    assert_eq!(
        bench.services.current_config_enables_tun(parse("tun:\n  enable: true\n")),
        Ok(true)
    );
}

#[test]
fn empty_dns_lists_are_filled_and_others_left_alone() {
    let mut document = parse("mode: rule\ndns:\n").unwrap();
    ensure_runtime_dns_defaults(&mut document);
    let dns = document.typed.dns.as_ref().unwrap();
    assert_eq!(dns.default_nameserver, vec!["223.5.5.5".to_string()]);
    assert_eq!(dns.nameserver, vec!["https://dns.alidns.com/dns-query".to_string()]);
    assert_eq!(document.typed.global.mode.as_deref(), Some("rule"));

    let before = render(&document.typed);
    ensure_runtime_dns_defaults(&mut document);
    assert_eq!(render(&document.typed), before);

    let mut own = parse("dns:\n  default-nameserver:\n    - 1.1.1.1\n").unwrap();
    ensure_runtime_dns_defaults(&mut own);
    let dns = own.typed.dns.as_ref().unwrap();
    assert_eq!(dns.default_nameserver, vec!["1.1.1.1".to_string()]);
    assert_eq!(dns.nameserver, vec!["https://dns.alidns.com/dns-query".to_string()]);

    let mut none = parse("mode: rule\n").unwrap();
    ensure_runtime_dns_defaults(&mut none);
    assert_eq!(none.typed.dns, None);
}

#[test]
fn detection_options_probe_controller_only_after_runtime_running() {
    let mut bench = bench();
    let document = bench.load_user_config().unwrap();

    let idle_options = bench.services.detection_options(Some(&document));
    assert_eq!(idle_options.controller_addr, None);

    bench.services.snapshot.runtime = RuntimeStatus::Running;
    let running_options = bench.services.detection_options(Some(&document));
    assert_eq!(running_options.controller_addr.as_deref(), Some("http://127.0.0.1:19090"));
    assert_eq!(running_options.config_dir, Some(path("/tmp/air/config")));
    assert_eq!(running_options.cores_dir, path("/tmp/air/cache/core"));
}

#[test]
fn save_current_config_writes_core_config_with_backup_and_validation() {
    let mut bench = bench();

    bench.save_current_config("mixed-port: 19090\nfuture-top:\n  keep: true\n").unwrap();
    bench.save_current_config("mixed-port: 19091\nfuture-top:\n  keep: true\n").unwrap();

    let saved = bench.load_user_config().unwrap();
    assert_eq!(saved.typed.global.mixed_port, Some(19091));
    assert!(saved.typed.rest.extensions.contains(&"future-top".to_string()));
    assert!(bench.user_config_backup.is_some());
}

#[test]
fn a_text_that_is_no_config_is_neither_saved_nor_shown() {
    let mut bench = bench();
    bench.services.snapshot.active_profile = None;
    assert_eq!(
        bench.save_current_config("nonsense\n"),
        Err(AppError::Outside("no mapping: nonsense".to_string()))
    );
    assert_eq!(bench.user_config, USER_CONFIG);
    assert_eq!(bench.services.snapshot.active_profile, None);
    assert!(bench.actions.is_empty());
}

#[test]
fn a_saved_config_is_shown_with_its_controller() {
    let mut bench = bench();
    bench.services.snapshot.active_profile = None;
    bench.save_current_config("external-controller: 10.0.0.2:9\n").unwrap();
    assert_eq!(
        bench.services.snapshot.active_profile.as_deref(),
        Some("core.common.config.yaml")
    );
    assert_eq!(
        bench.services.snapshot.controller_addr.as_deref(),
        Some("http://10.0.0.2:9")
    );
}

#[test]
fn validated_saves_are_tested_first() {
    let mut bench = bench();
    let first = bench.services.save_current_config_validated("mixed-port: 1\n");
    bench.run_save(first).unwrap();
    assert_eq!(bench.actions, vec!["test /tmp/air/cache/core/mihomo", "save"]);

    bench.actions.clear();
    bench.core_rejects = true;
    let first = bench.services.save_current_config_validated("mixed-port: 2\n");
    assert_eq!(bench.run_save(first), Err(AppError::Outside("rejected".to_string())));
    assert_eq!(bench.actions, vec!["test /tmp/air/cache/core/mihomo"]);
    assert_eq!(bench.load_user_config().unwrap().typed.global.mixed_port, Some(1));

    bench.actions.clear();
    let first = bench.services.import_profile_file_validated(Ok("mixed-port: 3\n".to_string()));
    assert_eq!(bench.run_save(first), Err(AppError::Outside("rejected".to_string())));
    let first = bench.services.import_profile_file(Ok("mixed-port: 3\n".to_string()));
    bench.run_save(first).unwrap();
    assert_eq!(bench.load_user_config().unwrap().typed.global.mixed_port, Some(3));

    let first = bench.services.import_profile_file(Err("no file".to_string()));
    assert_eq!(bench.run_save(first), Err(AppError::Outside("no file".to_string())));
    let first = bench.services.import_profile_file_validated(Err("no file".to_string()));
    assert_eq!(bench.run_save(first), Err(AppError::Outside("no file".to_string())));
}

#[test]
fn validated_saves_need_an_executable_core() {
    let mut bench = bench();
    bench.core = None;
    let first = bench.services.save_current_config_validated("mixed-port: 1\n");
    assert_eq!(
        bench.run_save(first),
        Err(AppError::Process(ProcessError::InvalidState(
            "无法校验配置：未找到 mihomo 核心".to_string()
        )))
    );

    bench.core = Some(RuntimeInfo {
        binary_path: Some(path("/core")),
        executable: false,
        rest: (),
    });
    let first = bench.services.save_current_config_validated("mixed-port: 1\n");
    assert_eq!(
        bench.run_save(first),
        Err(AppError::Process(ProcessError::PermissionDenied(path("/core"))))
    );
    assert_eq!(bench.user_config, USER_CONFIG);
}

#[test]
fn a_failed_save_shows_nothing_new() {
    let mut bench = bench();
    bench.save_fails = true;
    let shown = bench.services.snapshot.controller_addr.clone();
    assert_eq!(
        bench.save_current_config("external-controller: 10.0.0.2:9\n"),
        Err(AppError::Outside("disk full".to_string()))
    );
    assert_eq!(bench.services.snapshot.controller_addr, shown);
}

#[test]
fn runtime_mode_changes_the_mode_alone() {
    let mut bench = bench();
    let loaded = bench.load_user_config();
    let first = bench.services.save_runtime_mode(loaded, "global");
    bench.run_save(first).unwrap();
    let saved = bench.load_user_config().unwrap();
    assert_eq!(saved.typed.global.mode.as_deref(), Some("global"));
    assert_eq!(saved.typed.global.mixed_port, Some(9870));
    assert!(!bench.actions.contains(&"test /tmp/air/cache/core/mihomo".to_string()));

    bench.core_rejects = true;
    let loaded = bench.load_user_config();
    let first = bench.services.save_runtime_mode_validated(loaded, "direct");
    assert_eq!(bench.run_save(first), Err(AppError::Outside("rejected".to_string())));
    let saved = bench.load_user_config().unwrap();
    assert_eq!(saved.typed.global.mode.as_deref(), Some("global"));

    let first = bench.services.save_runtime_mode(Err("no config".to_string()), "rule");
    assert_eq!(bench.run_save(first), Err(AppError::Outside("no config".to_string())));

    let mut document = parse("mode: rule\nsecret: s\n").unwrap();
    set_runtime_mode(&mut document, "direct");
    assert_eq!(render(&document.typed), "mode: direct\nsecret: s\n");
}

#[test]
fn selected_subscription_document_reads_enabled_cached_config() {
    let mut bench = bench();
    bench.sources.push(("work".to_string(), "Work".to_string(), true));
    bench.caches.push((
        "work".to_string(),
        b"proxies:\n  - name: node-a\n    type: ss\nproxy-groups:\n  - name: Proxy\n    type: select\n    proxies:\n      - node-a\n".to_vec(),
    ));

    let document = bench
        .selected_subscription_document()
        .unwrap()
        .expect("enabled subscription cache should parse as config");

    assert_eq!(document.typed.rest.proxy_groups[0], "Proxy");
    assert_eq!(document.typed.rest.proxies[0], "node-a");
}

#[test]
fn selected_subscription_document_does_not_fallback_to_disabled_source() {
    let mut bench = bench();
    bench.sources.push(("backup".to_string(), "Backup".to_string(), false));
    bench.caches.push((
        "backup".to_string(),
        b"proxies:\n  - name: node-a\n    type: ss\nproxy-groups:\n  - name: Backup\n    type: select\n    proxies:\n      - node-a\n".to_vec(),
    ));

    let document = bench.selected_subscription_document().unwrap();

    assert!(document.is_none());
    assert!(bench.actions.is_empty());
}

#[test]
fn the_first_enabled_subscription_is_selected_even_without_cache() {
    let mut bench = bench();
    bench.sources.push(("off".to_string(), "Off".to_string(), false));
    bench.sources.push(("bare".to_string(), "Bare".to_string(), true));
    bench.sources.push(("full".to_string(), "Full".to_string(), true));
    bench.caches.push(("full".to_string(), b"mode: rule\n".to_vec()));
    assert_eq!(bench.selected_subscription_document(), Ok(None));
    assert_eq!(bench.actions, vec!["cache bare"]);

    let step: SelectStep<Rest, String> =
        bench.services.selected_subscription_document(Err("no store".to_string()));
    assert_eq!(step, SelectStep::Done(Err(AppError::Outside("no store".to_string()))));
    let step: SelectStep<Rest, String> = selected_subscription_parsed(Err("bad".to_string()));
    assert_eq!(step, SelectStep::Done(Err(AppError::Outside("bad".to_string()))));
    let step: SelectStep<Rest, String> = selected_subscription_cache_read(Err("io".to_string()));
    assert_eq!(step, SelectStep::Done(Err(AppError::Outside("io".to_string()))));
}

#[test]
fn a_cache_that_is_no_text_is_reported() {
    let mut bench = bench();
    bench.sources.push(("work".to_string(), "Work".to_string(), true));
    bench.caches.push(("work".to_string(), vec![b'm', 0xff, b'x']));
    let complaint = AppError::Config(ConfigError::Subscription(
        "订阅缓存不是有效 UTF-8 YAML: invalid utf-8 sequence of 1 bytes from index 1".to_string(),
    ));
    assert_eq!(bench.selected_subscription_document(), Err(complaint));
    assert_eq!(
        bench.gather(),
        Err(AppError::Config(ConfigError::Subscription(
            "订阅缓存不是有效 UTF-8 YAML: invalid utf-8 sequence of 1 bytes from index 1"
                .to_string()
        )))
    );
}

#[test]
fn gathering_takes_enabled_cached_subscriptions_in_order() {
    let mut bench = bench();
    bench.sources.push(("a".to_string(), "A".to_string(), true));
    bench.sources.push(("b".to_string(), "B".to_string(), false));
    bench.sources.push(("c".to_string(), "C".to_string(), true));
    bench.sources.push(("d".to_string(), "节点".to_string(), true));
    bench.caches.push(("a".to_string(), b"mixed-port: 1\n".to_vec()));
    bench.caches.push(("b".to_string(), b"mixed-port: 2\n".to_vec()));
    bench.caches.push(("d".to_string(), "mode: 规则\n".as_bytes().to_vec()));

    let inputs = bench.gather().unwrap();
    let ids: Vec<&str> = inputs.iter().map(|input| input.id.as_str()).collect();
    assert_eq!(ids, vec!["a", "d"]);
    assert_eq!(inputs[0].display_name, "A");
    assert_eq!(inputs[1].display_name, "节点");
    assert!(inputs.iter().all(|input| input.enabled));
    assert_eq!(inputs[0].document.global.mixed_port, Some(1));
    assert_eq!(inputs[1].document.global.mode.as_deref(), Some("规则"));
    assert_eq!(bench.actions, vec!["cache a", "cache c", "cache d"]);
}

#[test]
fn gathering_stops_at_the_first_failure() {
    let mut bench = bench();
    bench.sources.push(("a".to_string(), "A".to_string(), true));
    bench.sources.push(("broken".to_string(), "B".to_string(), true));
    bench.sources.push(("c".to_string(), "C".to_string(), true));
    bench.caches.push(("a".to_string(), b"mixed-port: 1\n".to_vec()));
    assert_eq!(bench.gather(), Err(AppError::Outside("cache unreadable".to_string())));
    assert_eq!(bench.actions, vec!["cache a", "cache broken"]);

    let step: GatherStep<Rest, String> = subscription_merge_inputs(Err("no store".to_string()));
    assert_eq!(step, GatherStep::Done(Err(AppError::Outside("no store".to_string()))));

    bench.sources.clear();
    bench.sources.push(("bad".to_string(), "Bad".to_string(), true));
    bench.caches.push(("bad".to_string(), b"nonsense".to_vec()));
    assert_eq!(bench.gather(), Err(AppError::Outside("no mapping: nonsense".to_string())));
}

fn input(name: &str, enabled: bool) -> SubscriptionMergeInput<Rest> {
    SubscriptionMergeInput {
        id: "id".to_string(),
        display_name: name.to_string(),
        enabled,
        document: empty_document().typed,
    }
}

#[test]
fn active_subscription_is_the_first_enabled_one() {
    assert_eq!(active_subscription_name::<Rest>(&[]), "本地配置");
    assert_eq!(active_subscription_name(&[input("off", false)]), "本地配置");
    assert_eq!(
        active_subscription_name(&[input("off", false), input("  Work \n", true), input("B", true)]),
        "Work"
    );
    assert_eq!(active_subscription_name(&[input(" \t", true), input("B", true)]), "本地配置");
}

#[test]
fn core_config_store_writes_runtime_config_to_config_dir() {
    let mut bench = bench();

    let config_path = bench.write_runtime_config().unwrap();
    let runtime_config = bench.runtime_config.clone().unwrap();

    assert_eq!(config_path, path("/tmp/air/config/core.runtime.config.yaml"));
    assert!(runtime_config.contains("default-nameserver"));
    assert!(runtime_config.contains("223.5.5.5"));
    assert!(runtime_config.contains("https://dns.alidns.com/dns-query"));
    assert_eq!(bench.user_config, USER_CONFIG);
}

const PORT_SCRIPT: &str = r#"
function override(subscriptionName, config) {
  config["mixed-port"] = 19191;
  return config;
}
"#;

#[test]
fn active_override_script_runs_before_runtime_config_write() {
    let mut bench = bench();
    bench.save_override_script(
        r#"
function override(subscriptionName, config) {
  config["mixed-port"] = 19191;
  config.rules.push("MATCH,DIRECT");
  return config;
}
"#,
        true,
    );

    let written = bench.write_runtime_config().unwrap();
    let runtime_config = bench.runtime_config.clone().unwrap();

    assert_eq!(written, path("/tmp/air/config/core.runtime.config.yaml"));
    assert!(runtime_config.contains("mixed-port: 19191"));
    assert!(runtime_config.contains("MATCH,DIRECT"));
}

#[test]
fn current_mixed_port_uses_effective_runtime_config() {
    let mut bench = bench();
    bench.save_override_script(PORT_SCRIPT, true);

    assert_eq!(bench.current_mixed_port().unwrap(), Some(19191));
}

#[test]
fn a_script_that_is_switched_off_has_no_say() {
    let mut bench = bench();
    bench.save_override_script(PORT_SCRIPT, false);
    assert_eq!(bench.current_mixed_port().unwrap(), Some(9870));
    assert!(bench.script_names.is_empty());
    assert!(!bench.actions.contains(&"script".to_string()));
}

#[test]
fn scripts_learn_the_active_subscription() {
    let mut bench = bench();
    bench.save_override_script(PORT_SCRIPT, true);
    bench.build().unwrap();
    bench.sources.push(("a".to_string(), " Work ".to_string(), true));
    bench.caches.push(("a".to_string(), b"proxies:\n  - name: node-a\n".to_vec()));
    let runtime = bench.build().unwrap();
    assert_eq!(bench.script_names, vec!["本地配置", "Work"]);
    assert_eq!(runtime.rest.proxies, vec!["node-a".to_string()]);
}

#[test]
fn switching_the_script_changes_no_other_setting() {
    let mut bench = bench();
    bench.system_proxy_enabled = true;
    bench.save_override_script("", true);
    assert!(bench.system_proxy_enabled);
    assert!(bench.override_script_enabled);

    let step: ScriptStep<(), String> =
        bench.services.save_override_script(Err("disk".to_string()), true);
    assert_eq!(step, ScriptStep::Done(Err("disk".to_string())));
    let step: ScriptStep<(), String> = bench.services.set_override_script_enabled(false);
    assert_eq!(step, ScriptStep::LoadSettings { enabled: false });
    let step: ScriptStep<(), String> =
        override_script_settings_loaded(true, Err("settings".to_string()));
    assert_eq!(step, ScriptStep::Done(Err("settings".to_string())));
}

#[test]
fn debug_override_script_generates_yaml_without_writing_runtime_config() {
    let mut bench = bench();

    let yaml = bench
        .preview_override_script(
            r#"
function override(_, config) {
  config["mixed-port"] = 18080;
  return config;
}
"#,
        )
        .unwrap();

    assert!(yaml.contains("mixed-port: 18080"));
    assert!(bench.runtime_config.is_none());
}

#[test]
fn a_debug_script_runs_whatever_the_settings_are() {
    let mut bench = bench();
    bench.save_override_script("function override(_, config) { throw 1; }", true);
    let yaml = bench.preview_override_script(PORT_SCRIPT).unwrap();
    assert!(yaml.contains("mixed-port: 19191"));
    assert!(!bench.actions.contains(&"settings".to_string()));
    assert_eq!(bench.build(), Err(AppError::Outside("script failed".to_string())));
}

#[test]
fn a_build_reports_every_failure() {
    let mut bench = bench();
    let first: BuildStep<Rest, String> =
        build_effective_runtime_config(Err("no config".to_string()), None);
    assert_eq!(first, BuildStep::Done(Err(AppError::Outside("no config".to_string()))));

    bench.sources.push(("broken".to_string(), "B".to_string(), true));
    assert_eq!(bench.build(), Err(AppError::Outside("cache unreadable".to_string())));
    assert_eq!(
        bench.write_runtime_config(),
        Err(AppError::Outside("cache unreadable".to_string()))
    );
    assert_eq!(
        bench.current_mixed_port(),
        Err(AppError::Outside("cache unreadable".to_string()))
    );
    assert_eq!(bench.runtime_config, None);
}

#[test]
fn validated_runtime_config_is_tested_before_it_is_written() {
    let mut bench = bench();
    let found = copy_of(&bench.core).unwrap();
    let first = bench.services.write_runtime_config_validated(Ok(found));
    match &first {
        WriteStep::Build { options } => {
            assert_eq!(options.binary_path, path("/tmp/air/cache/core/mihomo"));
            assert_eq!(options.working_dir, path("/tmp/air/cache/core"));
            assert_eq!(options.safe_paths, safe_paths());
        }
        _ => panic!("the configuration is to be built"),
    }
    bench.run_write(first).unwrap();
    assert_eq!(
        bench.actions,
        vec!["settings", "test /tmp/air/cache/core/mihomo", "write"]
    );

    bench.actions.clear();
    bench.runtime_config = None;
    bench.core_rejects = true;
    let found = copy_of(&bench.core).unwrap();
    let first = bench.services.write_runtime_config_validated(Ok(found));
    assert_eq!(bench.run_write(first), Err(AppError::Outside("rejected".to_string())));
    assert_eq!(bench.runtime_config, None);

    let step: WriteStep<Rest, String> =
        bench.services.write_runtime_config_validated(Err("detector".to_string()));
    assert_eq!(step, WriteStep::Done(Err(AppError::Outside("detector".to_string()))));
    let missing = RuntimeInfo { binary_path: None, executable: true, rest: () };
    assert_eq!(
        resolve_mihomo_binary_for_config_test(missing),
        Err(ProcessError::InvalidState("无法校验配置：未找到 mihomo 核心".to_string()))
    );
}

#[test]
fn replies_to_other_questions_change_nothing() {
    let step: WriteStep<Rest, String> = WriteStep::Write { runtime: empty_document().typed };
    assert_eq!(
        step.resume(WriteReply::Tested(Ok(()))),
        WriteStep::Write { runtime: empty_document().typed }
    );
    let step: SyncStep<String> = SyncStep::Delete;
    let advance = step.resume(SyncReply::Saved(Ok(())));
    assert_eq!(advance.step, SyncStep::Delete);
    assert_eq!(advance.warning, None);
    let mut bench = bench();
    let step: SaveStep<Rest, String> =
        bench.services.resume_save(SaveStep::Reload, SaveReply::Saved(Ok(())));
    assert_eq!(step, SaveStep::Reload);
}

fn status(phase: MihomoServicePhase) -> MihomoServiceStatus<()> {
    MihomoServiceStatus { phase, runtime: None, last_error: None }
}

#[test]
fn launch_config_uses_cache_core_as_core_working_dir() {
    let mut bench = bench();
    let mut step = bench.services.launch_config(bench.load_user_config());
    let launch = loop {
        step = match step {
            LaunchStep::Prepare { .. } => {
                let mut prepared = status(MihomoServicePhase::Ready);
                prepared.runtime = copy_of(&bench.core);
                bench.services.resume_launch(HOST, step, LaunchReply::Prepared(Ok(prepared)))
            }
            LaunchStep::WriteConfig { ref binary_path, .. } => {
                let first = bench.services.write_runtime_config_with_binary(binary_path.clone());
                let written = bench.run_write(first);
                bench.services.resume_launch(HOST, step, LaunchReply::Written(written))
            }
            LaunchStep::Done(result) => break result.unwrap(),
        };
    };

    assert_eq!(launch.working_dir, path("/tmp/air/cache/core"));
    assert_eq!(launch.config_path, path("/tmp/air/config/core.runtime.config.yaml"));
    assert_eq!(launch.binary_path, path("/tmp/air/cache/core/mihomo"));
    assert_eq!(launch.console_log_path, Some(path("/tmp/air/data/logs/core.log")));
    assert!(launch.env.is_empty());
    assert_eq!(launch.safe_paths, safe_paths());
    assert!(!launch.requires_admin);
    assert_eq!(
        bench.actions,
        vec!["settings", "test /tmp/air/cache/core/mihomo", "write"]
    );
}

#[test]
fn a_launch_needs_a_core_and_privileges_for_tun() {
    let bench = bench();
    let begin = || -> LaunchStep<String> {
        bench.services.launch_config(parse("tun:\n  enable: true\n"))
    };
    let outside = |text: &str| -> LaunchStep<String> {
        LaunchStep::Done(Err(AppError::Outside(text.to_string())))
    };
    assert_eq!(begin(), LaunchStep::Prepare { requires_admin: true });
    let none = LaunchReply::Prepared(Ok(status(MihomoServicePhase::Ready)));
    assert_eq!(
        bench.services.resume_launch(HOST, begin(), none),
        LaunchStep::Done(Err(AppError::Process(ProcessError::InvalidState(
            "未找到可启动的 mihomo 核心".to_string()
        ))))
    );
    let failed = LaunchReply::Prepared(Err("detector".to_string()));
    assert_eq!(bench.services.resume_launch(HOST, begin(), failed), outside("detector"));
    assert_eq!(
        bench.services.launch_config::<Rest, String>(Err("no config".to_string())),
        outside("no config")
    );

    let prepare = || {
        let mut prepared = status(MihomoServicePhase::Ready);
        prepared.runtime = copy_of(&bench.core);
        bench.services.resume_launch(HOST, begin(), LaunchReply::Prepared(Ok(prepared)))
    };
    assert_eq!(
        prepare(),
        LaunchStep::WriteConfig {
            requires_admin: true,
            binary_path: path("/tmp/air/cache/core/mihomo"),
        }
    );
    let rejected = LaunchReply::Written(Err(AppError::Outside("rejected".to_string())));
    assert_eq!(bench.services.resume_launch(HOST, prepare(), rejected), outside("rejected"));
    let written = LaunchReply::Written(Ok(path("/cfg")));
    match bench.services.resume_launch(HOST, prepare(), written) {
        LaunchStep::Done(Ok(launch)) => assert!(launch.requires_admin),
        _ => panic!("the core is to be started"),
    }
    let early = LaunchReply::Written(Ok(path("/cfg")));
    assert_eq!(bench.services.resume_launch(HOST, begin(), early), begin());
}

#[test]
fn a_program_for_a_test_is_looked_for_without_a_controller() {
    let mut bench = bench();
    bench.services.snapshot.runtime = RuntimeStatus::Running;
    let options = bench.services.config_test_detection_options();
    assert_eq!(options.config_dir, Some(path("/tmp/air/config")));
    assert_eq!(options.cores_dir, path("/tmp/air/cache/core"));
    assert_eq!(options.controller_addr, None);
}

#[test]
fn a_preview_reports_the_build_and_the_rendering() {
    let built: PreviewStep<Rest, String> =
        preview_built(Err(AppError::Outside("build".to_string())));
    assert_eq!(built, PreviewStep::Done(Err(AppError::Outside("build".to_string()))));
    let rendered: PreviewStep<Rest, String> = preview_rendered(Err("render".to_string()));
    assert_eq!(rendered, PreviewStep::Done(Err(AppError::Outside("render".to_string()))));
    let rendered: PreviewStep<Rest, String> = preview_rendered(Ok("yaml".to_string()));
    assert_eq!(rendered, PreviewStep::Done(Ok("yaml".to_string())));
    let saved: ScriptStep<(), String> = override_script_settings_saved(Err("disk".to_string()));
    assert_eq!(saved, ScriptStep::Done(Err("disk".to_string())));
}

#[test]
fn system_proxy_sync_captures_snapshot_once_and_updates_managed_port() {
    let mut bench = bench();
    bench.system_proxy_enabled = true;

    bench.save_current_config("mixed-port: 9870\n").unwrap();
    bench.sync().unwrap();
    let mut snapshot = bench.load_snapshot().unwrap().unwrap();
    snapshot.services[0].web.server = Some("proxy.example.test".into());
    bench.snapshot_file = Some(snapshot);

    bench.save_current_config("mixed-port: 19090\n").unwrap();
    bench.sync().unwrap();
    let updated = bench.load_snapshot().unwrap().unwrap();

    assert_eq!(updated.managed_port, 19090);
    assert_eq!(updated.services[0].web.server.as_deref(), Some("proxy.example.test"));
    assert!(bench.file_exists("/tmp/air/data/system-proxy-snapshot.json"));
    assert_eq!(
        bench.actions.iter().filter(|action| action.starts_with("capture")).count(),
        1
    );
    assert!(bench.warnings.is_empty());
}

#[test]
fn system_proxy_sync_is_opt_in_and_default_off() {
    let mut bench = bench();

    bench.save_current_config("mixed-port: 9870\n").unwrap();
    bench.actions.clear();
    bench.sync().unwrap();

    assert!(bench.load_snapshot().unwrap().is_none());
    assert!(!bench.file_exists("/tmp/air/data/system-proxy-snapshot.json"));
    assert!(bench.actions.is_empty());
}

#[test]
fn system_proxy_sync_disabled_restores_existing_snapshot() {
    let mut bench = bench();
    bench.snapshot_file = Some(capture(9870));

    bench.save_current_config("mixed-port: 9870\n").unwrap();
    bench.sync().unwrap();

    assert!(bench.load_snapshot().unwrap().is_none());
    assert!(!bench.file_exists("/tmp/air/data/system-proxy-snapshot.json"));
}

#[test]
fn system_proxy_sync_restores_and_deletes_snapshot_when_enable_fails() {
    let mut bench = bench();
    bench.system_proxy_enabled = true;
    let mut snapshot = capture(9870);
    snapshot.services[0].web.server = Some("proxy.example.test".into());
    bench.snapshot_file = Some(snapshot);

    bench.save_current_config("mixed-port: 19091\n").unwrap();
    bench.actions.clear();
    bench.sync().unwrap();

    assert!(bench.load_snapshot().unwrap().is_none());
    assert_eq!(
        bench.actions,
        vec!["settings", "enable 19091", "restore 19091", "restore 9870", "delete"]
    );
    assert_eq!(bench.warnings, vec!["系统代理同步失败：test system proxy failure"]);
}

#[test]
fn system_proxy_sync_without_mixed_port_restores_and_deletes_snapshot() {
    let mut bench = bench();
    bench.system_proxy_enabled = true;
    bench.snapshot_file = Some(capture(9870));

    bench.save_current_config("port: 9090\n").unwrap();
    bench.sync().unwrap();

    assert!(bench.load_snapshot().unwrap().is_none());
    assert!(!bench.file_exists("/tmp/air/data/system-proxy-snapshot.json"));
}

#[test]
fn disable_system_proxy_restores_snapshot_and_removes_file() {
    let mut bench = bench();
    bench.snapshot_file = Some(capture(9870));

    bench.disable_system_proxy();

    assert!(bench.load_snapshot().unwrap().is_none());
    assert!(!bench.file_exists("/tmp/air/data/system-proxy-snapshot.json"));
    assert_eq!(bench.actions, vec!["restore 9870", "delete"]);
}

#[test]
fn skipped_services_keep_the_snapshot() {
    let mut bench = bench();
    bench.snapshot_file = Some(capture(9870));
    bench.restore_skips = true;
    bench.disable_system_proxy();
    assert_eq!(bench.snapshot_file, Some(capture(9870)));

    bench.system_proxy_enabled = true;
    bench.save_current_config("mixed-port: 19091\n").unwrap();
    bench.sync().unwrap();
    assert_eq!(bench.snapshot_file, Some(capture(9870)));
}

#[test]
fn an_unsaved_confirmation_is_undone() {
    let mut bench = bench();
    bench.system_proxy_enabled = true;
    bench.snapshot_file = Some(capture(9870));
    bench.save_current_config("mixed-port: 19090\n").unwrap();
    bench.actions.clear();
    bench.save_fails = true;
    bench.sync().unwrap();
    assert_eq!(bench.warnings, vec!["系统代理托管状态保存失败：disk full"]);
    assert_eq!(
        bench.actions,
        vec!["settings", "enable 19090", "restore 19090", "restore 9870", "delete"]
    );
}

#[test]
fn an_unsaved_capture_leaves_the_proxies_alone() {
    let mut bench = bench();
    bench.system_proxy_enabled = true;
    bench.save_fails = true;
    bench.sync().unwrap();
    assert_eq!(bench.warnings, vec!["系统代理原始状态保存失败：disk full"]);
    assert_eq!(bench.actions, vec!["settings", "capture 9870"]);
}

#[test]
fn sync_reports_what_it_cannot_read() {
    let step: SyncStep<String> = SyncStep::LoadSnapshot { port: 1 };
    let advance = step.resume(SyncReply::Loaded(Err("torn".to_string())));
    assert_eq!(advance.warning.as_deref(), Some("系统代理原始状态保存失败：torn"));
    assert_eq!(advance.step, SyncStep::Done(Ok(())));
    let step: SyncStep<String> = SyncStep::Capture { port: 1 };
    let advance = step.resume(SyncReply::Captured(Err("denied".to_string())));
    assert_eq!(advance.warning.as_deref(), Some("系统代理原始状态保存失败：denied"));
    assert_eq!(advance.step, SyncStep::Done(Ok(())));
    let step: SyncStep<String> = SyncStep::LoadMixedPort;
    let advance = step.resume(SyncReply::MixedPort(Err("no config".to_string())));
    assert_eq!(advance.step, SyncStep::Done(Err("no config".to_string())));
    let step: SyncStep<String> = SyncStep::LoadForDisable;
    assert_eq!(
        step.resume(SyncReply::Loaded(Err("torn".to_string()))).step,
        SyncStep::Done(Ok(()))
    );

    let bench = bench();
    let step: SyncStep<String> = bench.services.sync_system_proxy_to_current_config::<(), String>(
        HostPlatform::Macos,
        Err("settings".to_string()),
    );
    assert_eq!(step, SyncStep::Done(Err("settings".to_string())));
}

#[test]
fn a_failed_restore_after_a_failed_enable_keeps_the_snapshot() {
    let step: SyncStep<String> = SyncStep::RestoreAttempted {
        attempted: capture(19091),
        snapshot: capture(9870),
    };
    let step = step.resume(SyncReply::Restored(Err("denied".to_string()))).step;
    let restored = SystemProxyRestore {
        restored_services: vec!["Wi-Fi".to_string()],
        skipped_services: vec![],
    };
    assert_eq!(step.resume(SyncReply::Restored(Ok(restored))).step, SyncStep::Done(Ok(())));
    let step: SyncStep<String> = SyncStep::RestoreForDisable { snapshot: capture(1) };
    assert_eq!(
        step.resume(SyncReply::Restored(Err("denied".to_string()))).step,
        SyncStep::Done(Ok(()))
    );
}

#[test]
fn other_platforms_skip_the_sync_but_still_undo() {
    let bench = bench();
    for host in [HostPlatform::Windows, HostPlatform::Other] {
        let on = AppSettings { system_proxy_enabled: true, override_script_enabled: false, rest: () };
        let off =
            AppSettings { system_proxy_enabled: false, override_script_enabled: false, rest: () };
        let step: SyncStep<String> =
            bench.services.sync_system_proxy_to_current_config(host, Ok(on));
        assert_eq!(step, SyncStep::Done(Ok(())));
        let step: SyncStep<String> =
            bench.services.sync_system_proxy_to_current_config(host, Ok(off));
        assert_eq!(step, SyncStep::LoadForDisable);
    }
}

#[test]
fn startup_uses_single_core_config_projection() {
    let bench = bench();
    assert_eq!(
        bench.services.snapshot.active_profile.as_deref(),
        Some("core.common.config.yaml")
    );
    let document = bench.load_user_config().unwrap();
    assert_eq!(document.typed.global.mixed_port, Some(9870));
    assert_eq!(
        bench.services.snapshot.controller_addr.as_deref(),
        Some("http://127.0.0.1:19090")
    );
    assert_eq!(bench.services.snapshot.runtime, RuntimeStatus::Idle);
    assert!(!bench.services.shutdown_stop_started);
}

fn stop_before_exit(
    services: &mut AppServices<()>,
    host: HostPlatform,
    stopped: Result<MihomoServiceStatus<()>, String>,
    found: Result<CoreServiceSnapshot, String>,
    service_stopped: Result<(), String>,
) -> (ExitStep<(), String>, usize) {
    let mut asked: usize = 0;
    let mut step = services.stop_core_before_exit();
    if step == ExitStep::StopCore {
        asked += 1;
        step = services.core_stopped(host, stopped);
    }
    if let ExitStep::QueryService(pending) = step {
        asked += 1;
        step = services.core_service_queried(pending, found);
    }
    if let ExitStep::StopService(pending) = step {
        asked += 1;
        step = services.core_service_stopped(pending, service_stopped);
    }
    (step, asked)
}

#[test]
fn shutdown_path_stops_core_through_owned_runtime() {
    let mut bench = bench();
    let none = CoreServiceSnapshot::default();

    let first = stop_before_exit(
        &mut bench.services,
        HostPlatform::Other,
        Ok(status(MihomoServicePhase::Idle)),
        Ok(none),
        Ok(()),
    );
    assert_eq!(first, (ExitStep::DisableProxy, 1));
    bench.disable_system_proxy();
    let ended: ExitStep<(), String> = system_proxy_disabled();
    assert_eq!(ended, ExitStep::Done(Ok(())));
    let second = stop_before_exit(
        &mut bench.services,
        HostPlatform::Other,
        Err("not asked".to_string()),
        Ok(none),
        Ok(()),
    );
    assert_eq!(second, (ExitStep::Done(Ok(())), 0));

    assert!(matches!(bench.services.snapshot.runtime, RuntimeStatus::Idle));
}

#[test]
fn a_failed_exit_can_be_tried_again() {
    let mut bench = bench();
    bench.services.snapshot.runtime = RuntimeStatus::Stopping;
    let none = CoreServiceSnapshot::default();
    let failed = stop_before_exit(
        &mut bench.services,
        HostPlatform::Macos,
        Err("hangs".to_string()),
        Ok(none),
        Ok(()),
    );
    assert_eq!(failed, (ExitStep::Done(Err("hangs".to_string())), 1));
    assert_eq!(bench.services.snapshot.runtime, RuntimeStatus::Idle);
    let again = stop_before_exit(
        &mut bench.services,
        HostPlatform::Macos,
        Ok(status(MihomoServicePhase::Idle)),
        Ok(none),
        Ok(()),
    );
    assert_eq!(again, (ExitStep::DisableProxy, 1));
}

#[test]
fn on_windows_the_service_decides_over_an_exit() {
    let stopped = CoreServiceSnapshot { installed: true, running: false };
    let running = CoreServiceSnapshot { installed: true, running: true };
    let cases: Vec<(
        Result<(), String>,
        Result<CoreServiceSnapshot, String>,
        Result<(), String>,
        ExitStep<(), String>,
    )> = vec![
        (Err("core".into()), Ok(stopped), Ok(()), ExitStep::DisableProxy),
        (Err("core".into()), Ok(running), Ok(()), ExitStep::DisableProxy),
        (
            Err("core".into()),
            Ok(running),
            Err("service".into()),
            ExitStep::Done(Err("core".into())),
        ),
        (Ok(()), Ok(running), Err("service".into()), ExitStep::Done(Err("service".into()))),
        (Ok(()), Err("query".into()), Ok(()), ExitStep::Done(Err("query".into()))),
        (Err("core".into()), Err("query".into()), Ok(()), ExitStep::Done(Err("core".into()))),
    ];
    for (core, found, service, expected) in cases {
        let mut bench = bench();
        let core = core.map(|()| status(MihomoServicePhase::Running));
        let reported = core.is_ok();
        let (step, _) =
            stop_before_exit(&mut bench.services, HostPlatform::Windows, core, found, service);
        assert_eq!(bench.services.shutdown_stop_started, step == ExitStep::DisableProxy);
        assert_eq!(step, expected);
        let shown = if reported { RuntimeStatus::Running } else { RuntimeStatus::Idle };
        assert_eq!(bench.services.snapshot.runtime, shown);
    }
}

#[test]
fn exit_keeps_what_it_knows_while_it_waits() {
    let mut bench = bench();
    let _: ExitStep<(), String> = bench.services.stop_core_before_exit();
    let step: ExitStep<(), String> =
        bench.services.core_stopped(HostPlatform::Windows, Err("core".to_string()));
    assert_eq!(
        step,
        ExitStep::QueryService(ExitPending {
            status: None,
            first_error: Some("core".to_string())
        })
    );
}

#[test]
fn phases_are_shown_as_statuses() {
    let shown = |phase| runtime_status_from_mihomo(&status(phase));
    assert_eq!(shown(MihomoServicePhase::Idle), RuntimeStatus::Idle);
    assert_eq!(shown(MihomoServicePhase::Ready), RuntimeStatus::Idle);
    assert_eq!(shown(MihomoServicePhase::Preparing), RuntimeStatus::Idle);
    assert_eq!(shown(MihomoServicePhase::Starting), RuntimeStatus::Starting);
    assert_eq!(shown(MihomoServicePhase::Running), RuntimeStatus::Running);
    assert_eq!(shown(MihomoServicePhase::Stopping), RuntimeStatus::Stopping);
    assert_eq!(
        shown(MihomoServicePhase::Failed),
        RuntimeStatus::Failed { message: "mihomo 状态异常".to_string() }
    );
    let failed = MihomoServiceStatus::<()> {
        phase: MihomoServicePhase::Failed,
        runtime: None,
        last_error: Some(ReportedError {
            message: "token=abc".to_string(),
            redacted: "token=***".to_string(),
        }),
    };
    assert_eq!(
        runtime_status_from_mihomo(&failed),
        RuntimeStatus::Failed { message: "token=***".to_string() }
    );
}

#[test]
fn statuses_reach_the_snapshot_only_when_there_is_one() {
    let mut bench = bench();
    let mut running = status(MihomoServicePhase::Running);
    running.last_error =
        Some(ReportedError { message: "late".to_string(), redacted: "***".to_string() });
    running.runtime = copy_of(&bench.core);
    assert_eq!(bench.services.detect_core::<String>(Ok(running)), Ok(()));
    assert_eq!(bench.services.snapshot.runtime, RuntimeStatus::Running);
    assert_eq!(bench.services.snapshot.runtime_info, bench.core);
    assert_eq!(bench.services.snapshot.last_error.as_deref(), Some("late"));
    assert_eq!(
        bench.services.prepare_core(Err("detector".to_string())),
        Err("detector".to_string())
    );
    assert_eq!(bench.services.snapshot.runtime, RuntimeStatus::Running);
    let snapshot: &AppSnapshot<()> = &bench.services.snapshot;
    assert_eq!(snapshot.active_profile.as_deref(), Some("core.common.config.yaml"));
}

#[test]
fn settings_are_shown_once_they_are_stored() {
    let mut bench = bench();
    let document = parse("external-controller: 10.1.1.1:1\n").unwrap();
    assert_eq!(
        bench.services.save_settings(Err("disk".to_string()), Some(&document)),
        Err("disk".to_string())
    );
    assert_eq!(
        bench.services.snapshot.controller_addr.as_deref(),
        Some("http://127.0.0.1:19090")
    );
    assert_eq!(bench.services.save_settings::<Rest, String>(Ok(()), Some(&document)), Ok(()));
    assert_eq!(
        bench.services.snapshot.controller_addr.as_deref(),
        Some("http://10.1.1.1:1")
    );
    bench.services.refresh_settings_projection::<Rest>(None);
    assert_eq!(
        bench.services.snapshot.controller_addr.as_deref(),
        Some("http://127.0.0.1:19090")
    );
}

#[test]
fn the_core_service_is_shown_as_it_is_found() {
    let mut bench = bench();
    let paths = core_service_paths(&bench.services.paths);
    assert_eq!(paths.cores_dir, path("/tmp/air/cache/core"));
    assert_eq!(paths.logs_dir, path("/tmp/air/data/logs"));

    let found = CoreServiceSnapshot { installed: true, running: true };
    let stopped = CoreServiceSnapshot { installed: true, running: false };
    let none = CoreServiceSnapshot { installed: false, running: false };
    let services = &mut bench.services;
    assert_eq!(services.install_core_service::<String>(Ok(stopped)), Ok(stopped));
    assert_eq!(services.snapshot.core_service, stopped);
    assert_eq!(services.refresh_core_service_projection::<String>(Ok(found)), Ok(found));
    assert_eq!(services.snapshot.core_service, found);
    assert_eq!(
        services.refresh_core_service_projection(Err("query".to_string())),
        Err("query".to_string())
    );
    let unsupported =
        || PlatformError::Unsupported("当前平台不支持 Windows 服务提权操作".to_string());
    assert_eq!(services.install_core_service(install_core_service(&paths)), Err(unsupported()));
    assert_eq!(services.uninstall_core_service(uninstall_core_service()), Err(unsupported()));
    assert_eq!(services.snapshot.core_service, found);
    assert_eq!(services.uninstall_core_service::<String>(Ok(none)), Ok(none));
    assert_eq!(services.snapshot.core_service, none);
}

#[test]
fn startup_shows_the_core_service_where_it_is_known() {
    let found = CoreServiceSnapshot { installed: true, running: true };
    let services: AppServices<()> =
        AppServices::with_paths::<Rest, String>(paths_in("/a"), None, Ok(found));
    assert_eq!(services.snapshot.core_service, found);
    let services: AppServices<()> =
        AppServices::with_paths::<Rest, String>(paths_in("/a"), None, Err("denied".to_string()));
    assert_eq!(services.snapshot.core_service, CoreServiceSnapshot::default());
}

#[test]
fn the_runtime_file_is_shown_before_the_user_config() {
    let bench = bench();
    assert_eq!(bench.services.runtime_or_current_profile_document(true), ProfileSource::Runtime);
    assert_eq!(bench.services.runtime_or_current_profile_document(false), ProfileSource::User);
}

use air::host::HostPlatform;
use air::paths::{AppPaths, OsPath};
use air::snapshot_store::{FileFailure, SystemProxySnapshotStore, SYSTEM_PROXY_SNAPSHOT_PATH};
use air::system_proxy::state::{MacosProxyState, SystemProxyServiceSnapshot, SystemProxySnapshot};

const HOST: HostPlatform = HostPlatform::Other;

fn path(text: &str) -> OsPath {
    OsPath::from_text(text)
}

fn store() -> SystemProxySnapshotStore {
    SystemProxySnapshotStore::new(AppPaths {
        config_dir: path("/base/config"),
        data_dir: path("/base/data"),
        cache_dir: path("/base/cache"),
        cores_dir: path("/base/cache/core"),
        logs_dir: path("/base/data/logs"),
        backups_dir: path("/base/data/backups"),
    })
}

fn sample_snapshot() -> SystemProxySnapshot {
    SystemProxySnapshot {
        managed_port: 9870,
        services: vec![SystemProxyServiceSnapshot {
            service: "Wi-Fi".into(),
            web: MacosProxyState {
                enabled: true,
                server: Some("proxy.example.test".into()),
                port: Some(8080),
                authenticated: false,
            },
            secure_web: MacosProxyState::default(),
            socks: MacosProxyState::default(),
        }],
    }
}

// A disk that holds at most one file.
struct Disk {
    file: Option<(OsPath, SystemProxySnapshot)>,
}

impl Disk {
    fn read(&self, path: &OsPath) -> Result<SystemProxySnapshot, FileFailure<String>> {
        match &self.file {
            Some((own, snapshot)) if own == path => Ok(snapshot.clone()),
            _ => Err(FileFailure::NotFound),
        }
    }

    fn remove(&mut self, path: &OsPath) -> Result<(), FileFailure<String>> {
        match self.file.take() {
            Some((own, _)) if own == *path => Ok(()),
            other => {
                self.file = other;
                Err(FileFailure::NotFound)
            }
        }
    }
}

#[test]
fn load_missing_snapshot_returns_none() {
    let store = store();
    let disk = Disk { file: None };

    assert!(store.load(disk.read(&store.snapshot_path(HOST))).unwrap().is_none());
}

#[test]
fn saves_loads_and_deletes_snapshot_in_data_dir() {
    let store = store();
    let snapshot = sample_snapshot();

    let mut disk = Disk { file: Some((store.snapshot_path(HOST), snapshot.clone())) };
    assert!(disk.read(&path("/base/data/system-proxy-snapshot.json")).is_ok());
    assert_eq!(store.load(disk.read(&store.snapshot_path(HOST))).unwrap(), Some(snapshot));

    store.delete(disk.remove(&store.snapshot_path(HOST))).unwrap();
    assert!(store.load(disk.read(&store.snapshot_path(HOST))).unwrap().is_none());
}

#[test]
fn deleting_twice_goes_well() {
    let store = store();
    let mut disk = Disk { file: Some((store.snapshot_path(HOST), sample_snapshot())) };
    assert_eq!(store.delete(disk.remove(&store.snapshot_path(HOST))), Ok(()));
    assert_eq!(store.delete(disk.remove(&store.snapshot_path(HOST))), Ok(()));
}

#[test]
fn other_failures_are_passed_on() {
    let store = store();
    assert_eq!(
        store.load(Err(FileFailure::Other("denied".to_string()))),
        Err("denied".to_string())
    );
    assert_eq!(
        store.delete(Err(FileFailure::Other("denied".to_string()))),
        Err("denied".to_string())
    );
}

#[test]
fn the_file_lies_among_the_data() {
    assert_eq!(SYSTEM_PROXY_SNAPSHOT_PATH, "system-proxy-snapshot.json");
    assert_eq!(store().snapshot_path(HOST), path("/base/data/system-proxy-snapshot.json"));
    assert_eq!(
        store().snapshot_path(HostPlatform::Windows),
        path("/base/data\\system-proxy-snapshot.json")
    );
    assert_eq!(store().clone(), store());
    let slashed = SystemProxySnapshotStore::new(AppPaths {
        data_dir: path("/base/data/"),
        ..store().paths
    });
    assert_eq!(slashed.snapshot_path(HOST), path("/base/data/system-proxy-snapshot.json"));
}

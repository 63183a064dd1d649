//! What the service is called, where it works and what is known of it.

use vstd::prelude::*;
use vstd::utf8::encode_utf8;

use crate::errors::StorageError;
use crate::host::HostPlatform;
use crate::paths::{is_plain_name, joined, OsPath};
use crate::text::same_text;

verus! {

pub const CORE_SERVICE_NAME: &'static str = "AirMihomoCore";

pub const CORE_SERVICE_DISPLAY_NAME: &'static str = "Air Mihomo Core Service";

/// The argument on which the program runs as the service.
pub const CORE_SERVICE_ARG: &'static str = "--air-mihomo-service";

/// The argument on which the program runs as the elevated helper.
pub const ELEVATED_SERVICE_HELPER_ARG: &'static str = "--air-elevated-service-helper";

/// The argument in front of the number of the process that the service belongs to.
pub const SERVICE_OWNER_PID_ARG: &'static str = "--owner-pid";

/// What is known of the service.
#[derive(Clone, Copy, Debug, PartialEq, Eq, Structural)]
pub struct CoreServiceSnapshot {
    pub installed: bool,
    pub running: bool,
}

impl Default for CoreServiceSnapshot {
    /// Neither installed nor running.
    fn default() -> (r: Self)
        ensures
            r == (CoreServiceSnapshot { installed: false, running: false }),
    {
        CoreServiceSnapshot { installed: false, running: false }
    }
}

/// What an elevated helper is asked to do.
#[derive(Clone, Copy, Debug, PartialEq, Eq, Structural)]
pub enum CoreServiceAction {
    Install,
    Uninstall,
}

/// The command-line argument for `action`.
pub open spec fn action_arg(action: CoreServiceAction) -> Seq<char> {
    match action {
        CoreServiceAction::Install => "--install"@,
        CoreServiceAction::Uninstall => "--uninstall"@,
    }
}

/// The action that a command-line argument stands for.
pub open spec fn action_of_arg(value: Seq<char>) -> Option<CoreServiceAction> {
    if value == "--install"@ {
        Some(CoreServiceAction::Install)
    } else if value == "--uninstall"@ {
        Some(CoreServiceAction::Uninstall)
    } else {
        None
    }
}

impl CoreServiceAction {
    /// The command-line argument for the action.
    pub fn as_arg(self) -> (r: &'static str)
        ensures
            r@ == action_arg(self),
    {
        match self {
            CoreServiceAction::Install => "--install",
            CoreServiceAction::Uninstall => "--uninstall",
        }
    }

    /// The action that a command-line argument stands for.
    pub fn from_arg(value: &str) -> (r: Option<Self>)
        ensures
            r == action_of_arg(value@),
    {
        if same_text(value, "--install") {
            Some(CoreServiceAction::Install)
        } else if same_text(value, "--uninstall") {
            Some(CoreServiceAction::Uninstall)
        } else {
            None
        }
    }
}

/// An action's argument is read back as that action.
pub proof fn law_action_arg_round_trip(action: CoreServiceAction)
    ensures
        action_of_arg(action_arg(action)) == Some(action),
{
    reveal_strlit("--install");
    reveal_strlit("--uninstall");
    assert("--install"@.len() != "--uninstall"@.len());
}

/// The two actions have an argument of their own each, and no other text stands for one.
pub proof fn law_action_args(value: Seq<char>)
    ensures
        action_arg(CoreServiceAction::Install) == "--install"@,
        action_arg(CoreServiceAction::Uninstall) == "--uninstall"@,
        action_of_arg(value) matches Some(action) ==> value == action_arg(action),
        action_of_arg(value) is None <==> value != "--install"@ && value != "--uninstall"@,
{
}

/// The directories that the service works in.
#[derive(Debug, PartialEq, Eq)]
pub struct CoreServicePaths {
    pub config_dir: OsPath,
    pub data_dir: OsPath,
    pub cache_dir: OsPath,
    pub cores_dir: OsPath,
    pub logs_dir: OsPath,
}

/// What a `CoreServicePaths` holds.
pub struct CoreServicePathsView {
    pub config_dir: Seq<u8>,
    pub data_dir: Seq<u8>,
    pub cache_dir: Seq<u8>,
    pub cores_dir: Seq<u8>,
    pub logs_dir: Seq<u8>,
}

impl View for CoreServicePaths {
    type V = CoreServicePathsView;

    open spec fn view(&self) -> CoreServicePathsView {
        CoreServicePathsView {
            config_dir: self.config_dir@,
            data_dir: self.data_dir@,
            cache_dir: self.cache_dir@,
            cores_dir: self.cores_dir@,
            logs_dir: self.logs_dir@,
        }
    }
}

impl Clone for CoreServicePaths {
    fn clone(&self) -> (r: Self)
        ensures
            r@ == self@,
    {
        CoreServicePaths {
            config_dir: self.config_dir.clone(),
            data_dir: self.data_dir.clone(),
            cache_dir: self.cache_dir.clone(),
            cores_dir: self.cores_dir.clone(),
            logs_dir: self.logs_dir.clone(),
        }
    }
}

/// The application's directories on this system.
#[derive(Debug, PartialEq, Eq)]
pub struct ProjectDirectories {
    pub config_dir: OsPath,
    pub data_dir: OsPath,
    pub cache_dir: OsPath,
}

/// The application's directories on this system, or `None` where the system names no home
/// directory.
///
/// Asked for this application alone: the qualifier is `org.air`, there is no organization, and the
/// application is `Air`. Calls `directories::ProjectDirs::from` and takes over the paths of the
/// three directories. Where they lie is decided by the environment and the platform, so nothing is
/// claimed of them.
#[verifier::external_body]
fn project_directories(qualifier: &str, organization: &str, application: &str) -> (r: Option<
    ProjectDirectories,
>)
    requires
        qualifier@ == "org.air"@,
        organization@ == ""@,
        application@ == "Air"@,
{
    directories::ProjectDirs::from(qualifier, organization, application).map(
        |dirs|
            ProjectDirectories {
                config_dir: OsPath {
                    bytes: dirs.config_dir().as_os_str().as_encoded_bytes().to_vec(),
                },
                data_dir: OsPath {
                    bytes: dirs.data_dir().as_os_str().as_encoded_bytes().to_vec(),
                },
                cache_dir: OsPath {
                    bytes: dirs.cache_dir().as_os_str().as_encoded_bytes().to_vec(),
                },
            },
    )
}

/// The service's directories below these three: the core lives in `core` of the cache directory,
/// the logs in `logs` of the data directory.
pub open spec fn service_paths(
    host: HostPlatform,
    config_dir: Seq<u8>,
    data_dir: Seq<u8>,
    cache_dir: Seq<u8>,
) -> CoreServicePathsView {
    CoreServicePathsView {
        config_dir,
        data_dir,
        cache_dir,
        cores_dir: joined(host, cache_dir, encode_utf8("core"@)),
        logs_dir: joined(host, data_dir, encode_utf8("logs"@)),
    }
}

/// The service works in just the three directories, and below them: in `core` of the cache
/// directory and in `logs` of the data directory.
pub proof fn law_service_paths(
    host: HostPlatform,
    config_dir: Seq<u8>,
    data_dir: Seq<u8>,
    cache_dir: Seq<u8>,
)
    ensures
        ({
            let paths = service_paths(host, config_dir, data_dir, cache_dir);
            &&& paths.config_dir == config_dir
            &&& paths.data_dir == data_dir
            &&& paths.cache_dir == cache_dir
            &&& paths.cores_dir == joined(host, cache_dir, encode_utf8("core"@))
            &&& paths.logs_dir == joined(host, data_dir, encode_utf8("logs"@))
        }),
{
}

impl CoreServicePaths {
    /// The service's directories below a configuration, a data and a cache directory.
    pub fn from_base_dirs(
        host: HostPlatform,
        config_dir: &OsPath,
        data_dir: &OsPath,
        cache_dir: &OsPath,
    ) -> (r: Self)
        ensures
            r@ == service_paths(host, config_dir@, data_dir@, cache_dir@),
    {
        proof {
            reveal_strlit("core");
            reveal_strlit("logs");
            reveal_strlit(".");
            reveal_strlit("..");
            assert(is_plain_name("core"@));
            assert(is_plain_name("logs"@));
        }
        CoreServicePaths {
            config_dir: config_dir.clone(),
            data_dir: data_dir.clone(),
            cache_dir: cache_dir.clone(),
            cores_dir: cache_dir.join(host, "core"),
            logs_dir: data_dir.join(host, "logs"),
        }
    }

    /// The service's directories below the application's directories on this system.
    pub fn resolve_default(host: HostPlatform) -> (r: Result<Self, StorageError>)
        ensures
            match r {
                Ok(paths) => paths@ == service_paths(
                    host,
                    paths@.config_dir,
                    paths@.data_dir,
                    paths@.cache_dir,
                ),
                Err(e) => e == StorageError::ProjectDirsUnavailable,
            },
    {
        Self::from_project_directories(host, project_directories("org.air", "", "Air"))
    }

    /// The service's directories below the given directories, where the system has them.
    pub fn from_project_directories(host: HostPlatform, found: Option<ProjectDirectories>) -> (r:
        Result<Self, StorageError>)
        ensures
            match (found, r) {
                (Some(dirs), Ok(paths)) => paths@ == service_paths(
                    host,
                    dirs.config_dir@,
                    dirs.data_dir@,
                    dirs.cache_dir@,
                ),
                (None, Err(e)) => e == StorageError::ProjectDirsUnavailable,
                _ => false,
            },
    {
        match found {
            Some(dirs) => Ok(
                Self::from_base_dirs(host, &dirs.config_dir, &dirs.data_dir, &dirs.cache_dir),
            ),
            None => Err(StorageError::ProjectDirsUnavailable),
        }
    }

    /// The directories that have to exist before the service runs, in the order in which they are
    /// made.
    pub fn init(&self) -> (r: Vec<OsPath>)
        ensures
            r.deep_view() == seq![
                self.config_dir@,
                self.data_dir@,
                self.cache_dir@,
                self.cores_dir@,
                self.logs_dir@,
            ],
    {
        let r = vec![
            self.config_dir.clone(),
            self.data_dir.clone(),
            self.cache_dir.clone(),
            self.cores_dir.clone(),
            self.logs_dir.clone(),
        ];
        assert(r.deep_view() == seq![
            self.config_dir@,
            self.data_dir@,
            self.cache_dir@,
            self.cores_dir@,
            self.logs_dir@,
        ]);
        r
    }
}

/// Where the system has the application's directories, the service works below just those, and
/// where it has none, that is the failure. The directories are made in their order: those that lie
/// in others come behind them.
pub proof fn law_project_directories(
    host: HostPlatform,
    found: Option<ProjectDirectories>,
    paths: Result<CoreServicePaths, StorageError>,
    made: Vec<OsPath>,
)
    requires
        call_ensures(CoreServicePaths::from_project_directories, (host, found), paths),
        paths matches Ok(own) ==> call_ensures(CoreServicePaths::init, (&own,), made),
    ensures
        found is None ==> paths == Err::<CoreServicePaths, _>(StorageError::ProjectDirsUnavailable),
        found matches Some(dirs) ==> {
            &&& paths is Ok
            &&& made.deep_view() == seq![
                dirs.config_dir@,
                dirs.data_dir@,
                dirs.cache_dir@,
                joined(host, dirs.cache_dir@, encode_utf8("core"@)),
                joined(host, dirs.data_dir@, encode_utf8("logs"@)),
            ]
        },
{
}

} // verus!

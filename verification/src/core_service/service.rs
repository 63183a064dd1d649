//! The service on platforms that have no such services.

use vstd::prelude::*;

use crate::core_service::types::{CoreServicePaths, CoreServiceSnapshot};
use crate::errors::{PlatformError, PlatformErrorView};

verus! {

/// The complaint where the platform has no services.
pub open spec fn no_service() -> PlatformErrorView {
    PlatformErrorView::Unsupported("当前平台不支持 Windows 服务"@)
}

/// The complaint where the platform has no elevation for services.
pub open spec fn no_service_elevation() -> PlatformErrorView {
    PlatformErrorView::Unsupported("当前平台不支持 Windows 服务提权操作"@)
}

/// What is known of the service: it is neither installed nor running.
pub fn query_core_service() -> (r: Result<CoreServiceSnapshot, PlatformError>)
    ensures
        r matches Ok(snapshot) && !snapshot.installed && !snapshot.running,
{
    Ok(CoreServiceSnapshot::default())
}

pub fn start_core_service() -> (r: Result<(), PlatformError>)
    ensures
        r matches Err(e) && e@ == no_service(),
{
    unsupported_windows_service()
}

pub fn stop_core_service() -> (r: Result<(), PlatformError>)
    ensures
        r matches Err(e) && e@ == no_service(),
{
    unsupported_windows_service()
}

pub fn install_core_service(_paths: &CoreServicePaths) -> (r: Result<
    CoreServiceSnapshot,
    PlatformError,
>)
    ensures
        r matches Err(e) && e@ == no_service_elevation(),
{
    unsupported_windows_service_elevation()
}

pub fn uninstall_core_service() -> (r: Result<CoreServiceSnapshot, PlatformError>)
    ensures
        r matches Err(e) && e@ == no_service_elevation(),
{
    unsupported_windows_service_elevation()
}

pub fn run_core_service_from_env() -> (r: Result<(), PlatformError>)
    ensures
        r matches Err(e) && e@ == no_service(),
{
    unsupported_windows_service()
}

pub fn run_elevated_service_helper_from_env() -> (r: Result<(), PlatformError>)
    ensures
        r matches Err(e) && e@ == no_service_elevation(),
{
    unsupported_windows_service_elevation()
}

fn unsupported_windows_service<T>() -> (r: Result<T, PlatformError>)
    ensures
        r matches Err(e) && e@ == no_service(),
{
    Err(PlatformError::Unsupported("当前平台不支持 Windows 服务".to_owned()))
}

fn unsupported_windows_service_elevation<T>() -> (r: Result<T, PlatformError>)
    ensures
        r matches Err(e) && e@ == no_service_elevation(),
{
    Err(
        PlatformError::Unsupported(
            "当前平台不支持 Windows 服务提权操作".to_owned(),
        ),
    )
}

} // verus!

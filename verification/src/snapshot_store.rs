//! The file that holds the original state of the proxies.

use vstd::prelude::*;
use vstd::string::*;
use vstd::utf8::encode_utf8;

use crate::host::HostPlatform;
use crate::paths::{joined, AppPaths, OsPath};
use crate::system_proxy::state::{SystemProxySnapshot, SystemProxySnapshotView};

verus! {

/// The name of the file among the application's data.
pub const SYSTEM_PROXY_SNAPSHOT_PATH: &'static str = "system-proxy-snapshot.json";

/// Why a file could not be read or removed.
#[derive(Debug, PartialEq, Eq)]
pub enum FileFailure<E> {
    /// It is not there.
    NotFound,
    /// Anything else.
    Other(E),
}

/// Keeps the original state of the proxies in a file.
#[derive(Debug, PartialEq, Eq)]
pub struct SystemProxySnapshotStore {
    pub paths: AppPaths,
}

impl Clone for SystemProxySnapshotStore {
    fn clone(&self) -> (r: Self)
        ensures
            r.paths@ == self.paths@,
    {
        SystemProxySnapshotStore { paths: self.paths.clone() }
    }
}

/// What a reading of the file gave.
pub open spec fn read_view<E>(read: Result<SystemProxySnapshot, FileFailure<E>>) -> Result<
    SystemProxySnapshotView,
    FileFailure<E>,
> {
    match read {
        Ok(snapshot) => Ok(snapshot@),
        Err(failure) => Err(failure),
    }
}

/// What a reading of the file tells of the stored state: a file that is not there holds none.
pub open spec fn stored<E>(read: Result<SystemProxySnapshotView, FileFailure<E>>) -> Result<
    Option<SystemProxySnapshotView>,
    E,
> {
    match read {
        Ok(snapshot) => Ok(Some(snapshot)),
        Err(FileFailure::NotFound) => Ok(None),
        Err(FileFailure::Other(e)) => Err(e),
    }
}

/// What a removal of the file comes to: a file that is not there needs none.
pub open spec fn deleted<E>(removed: Result<(), FileFailure<E>>) -> Result<(), E> {
    match removed {
        Ok(()) => Ok(()),
        Err(FileFailure::NotFound) => Ok(()),
        Err(FileFailure::Other(e)) => Err(e),
    }
}

impl SystemProxySnapshotStore {
    /// A store among the application's data.
    pub fn new(paths: AppPaths) -> (r: Self)
        ensures
            r.paths == paths,
    {
        SystemProxySnapshotStore { paths }
    }

    /// The stored state, once the file was read.
    pub fn load<E>(&self, read: Result<SystemProxySnapshot, FileFailure<E>>) -> (r: Result<
        Option<SystemProxySnapshot>,
        E,
    >)
        ensures
            match r {
                Ok(held) => stored(read_view(read)) == Ok::<Option<SystemProxySnapshotView>, E>(
                    held.deep_view(),
                ),
                Err(e) => stored(read_view(read)) == Err::<Option<SystemProxySnapshotView>, E>(e),
            },
    {
        match read {
            Ok(snapshot) => Ok(Some(snapshot)),
            Err(FileFailure::NotFound) => Ok(None),
            Err(FileFailure::Other(e)) => Err(e),
        }
    }

    /// Whether the state is deleted, once it was tried to remove the file.
    pub fn delete<E>(&self, removed: Result<(), FileFailure<E>>) -> (r: Result<(), E>)
        ensures
            r == deleted(removed),
    {
        match removed {
            Ok(()) => Ok(()),
            Err(FileFailure::NotFound) => Ok(()),
            Err(FileFailure::Other(e)) => Err(e),
        }
    }

    /// Where the file lies.
    pub fn snapshot_path(&self, host: HostPlatform) -> (r: OsPath)
        ensures
            r@ == joined(host, self.paths.data_dir@, encode_utf8("system-proxy-snapshot.json"@)),
    {
        proof {
            reveal_strlit("system-proxy-snapshot.json");
            reveal_strlit(".");
            reveal_strlit("..");
        }
        self.paths.data_dir.join(host, SYSTEM_PROXY_SNAPSHOT_PATH)
    }
}

/// What reading a file gives that holds this, or is not there.
pub open spec fn reading<E>(file: Option<SystemProxySnapshotView>) -> Result<
    SystemProxySnapshotView,
    FileFailure<E>,
> {
    match file {
        Some(snapshot) => Ok(snapshot),
        None => Err(FileFailure::NotFound),
    }
}

/// What removing a file gives that holds this, or is not there.
pub open spec fn removal<E>(file: Option<SystemProxySnapshotView>) -> Result<(), FileFailure<E>> {
    match file {
        Some(_) => Ok(()),
        None => Err(FileFailure::NotFound),
    }
}

/// What is loaded is what the file holds, and nothing where there is none. A deletion goes well
/// whether or not there is a file.
pub proof fn law_store<E>(file: Option<SystemProxySnapshotView>)
    ensures
        stored(reading::<E>(file)) == Ok::<Option<SystemProxySnapshotView>, E>(file),
        deleted(removal::<E>(file)) is Ok,
{
}

/// A file that is there but cannot be read or removed is reported with just its failure: it is not
/// taken for one that is not there.
pub proof fn law_store_failure<E>(error: E)
    ensures
        stored(Err::<SystemProxySnapshotView, _>(FileFailure::Other(error))) == Err::<
            Option<SystemProxySnapshotView>,
            E,
        >(error),
        deleted(Err::<(), _>(FileFailure::Other(error))) == Err::<(), E>(error),
{
}

/// The file lies in the data directory, under its own name.
pub proof fn law_snapshot_path(
    store: &SystemProxySnapshotStore,
    host: HostPlatform,
    path: OsPath,
)
    requires
        call_ensures(SystemProxySnapshotStore::snapshot_path, (store, host), path),
    ensures
        path@ == joined(host, store.paths.data_dir@, encode_utf8("system-proxy-snapshot.json"@)),
{
}

} // verus!

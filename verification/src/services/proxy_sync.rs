//! Keeping the proxies of the system in step with the core.

use vstd::prelude::*;

use crate::host::HostPlatform;
use crate::services::state::AppServices;
use crate::settings::AppSettings;
use crate::system_proxy::state::{
    SystemProxyRestore, SystemProxyRestoreView, SystemProxySnapshot, SystemProxySnapshotView,
    SystemProxyUpdate,
};

verus! {

/// What a synchronisation does next.
#[derive(Debug, PartialEq, Eq)]
pub enum SyncStep<E> {
    /// It awaits the port that the core's configuration gives the proxy.
    LoadMixedPort,
    /// It awaits the stored snapshot.
    LoadSnapshot { port: u32 },
    /// It awaits a snapshot of the proxies as they are now.
    Capture { port: u32 },
    /// It awaits that the snapshot is stored.
    SaveCaptured { port: u32, snapshot: SystemProxySnapshot },
    /// It awaits that the proxies are pointed at the port. The snapshot is stored.
    Enable { port: u32, snapshot: SystemProxySnapshot },
    /// It awaits that the snapshot is stored again, now with the port that the proxies point at.
    SaveConfirmed { port: u32, snapshot: SystemProxySnapshot, confirmed: SystemProxySnapshot },
    /// It awaits that the proxies that point at the new port are put back.
    RestoreAttempted { attempted: SystemProxySnapshot, snapshot: SystemProxySnapshot },
    /// It awaits that the proxies that point at the earlier port are put back.
    RestoreOriginal {
        snapshot: SystemProxySnapshot,
        restore_failed: bool,
        skipped_services: Vec<String>,
    },
    /// It awaits the stored snapshot, to put the proxies back.
    LoadForDisable,
    /// It awaits that the proxies are put back.
    RestoreForDisable { snapshot: SystemProxySnapshot },
    /// It awaits that the stored snapshot is deleted.
    Delete,
    /// It is over.
    Done(Result<(), E>),
}

/// What a `SyncStep` holds.
pub enum SyncStepView<E> {
    LoadMixedPort,
    LoadSnapshot { port: u32 },
    Capture { port: u32 },
    SaveCaptured { port: u32, snapshot: SystemProxySnapshotView },
    Enable { port: u32, snapshot: SystemProxySnapshotView },
    SaveConfirmed {
        port: u32,
        snapshot: SystemProxySnapshotView,
        confirmed: SystemProxySnapshotView,
    },
    RestoreAttempted { attempted: SystemProxySnapshotView, snapshot: SystemProxySnapshotView },
    RestoreOriginal {
        snapshot: SystemProxySnapshotView,
        restore_failed: bool,
        skipped_services: Seq<Seq<char>>,
    },
    LoadForDisable,
    RestoreForDisable { snapshot: SystemProxySnapshotView },
    Delete,
    Done(Result<(), E>),
}

impl<E> View for SyncStep<E> {
    type V = SyncStepView<E>;

    open spec fn view(&self) -> SyncStepView<E> {
        match self {
            SyncStep::LoadMixedPort => SyncStepView::LoadMixedPort,
            SyncStep::LoadSnapshot { port } => SyncStepView::LoadSnapshot { port: *port },
            SyncStep::Capture { port } => SyncStepView::Capture { port: *port },
            SyncStep::SaveCaptured { port, snapshot } => SyncStepView::SaveCaptured {
                port: *port,
                snapshot: snapshot@,
            },
            SyncStep::Enable { port, snapshot } => SyncStepView::Enable {
                port: *port,
                snapshot: snapshot@,
            },
            SyncStep::SaveConfirmed { port, snapshot, confirmed } => SyncStepView::SaveConfirmed {
                port: *port,
                snapshot: snapshot@,
                confirmed: confirmed@,
            },
            SyncStep::RestoreAttempted { attempted, snapshot } => SyncStepView::RestoreAttempted {
                attempted: attempted@,
                snapshot: snapshot@,
            },
            SyncStep::RestoreOriginal { snapshot, restore_failed, skipped_services } =>
                SyncStepView::RestoreOriginal {
                snapshot: snapshot@,
                restore_failed: *restore_failed,
                skipped_services: skipped_services.deep_view(),
            },
            SyncStep::LoadForDisable => SyncStepView::LoadForDisable,
            SyncStep::RestoreForDisable { snapshot } => SyncStepView::RestoreForDisable {
                snapshot: snapshot@,
            },
            SyncStep::Delete => SyncStepView::Delete,
            SyncStep::Done(result) => SyncStepView::Done(*result),
        }
    }
}

/// What came of the step. Failures that do not end a synchronisation come as their text.
#[derive(Debug, PartialEq, Eq)]
pub enum SyncReply<E> {
    MixedPort(Result<Option<u32>, E>),
    Loaded(Result<Option<SystemProxySnapshot>, String>),
    Captured(Result<SystemProxySnapshot, String>),
    Saved(Result<(), String>),
    Enabled(Result<SystemProxyUpdate, String>),
    Restored(Result<SystemProxyRestore, String>),
    Deleted(Result<(), String>),
}

/// What a `SyncReply` holds.
pub enum SyncReplyView<E> {
    MixedPort(Result<Option<u32>, E>),
    Loaded(Result<Option<SystemProxySnapshotView>, Seq<char>>),
    Captured(Result<SystemProxySnapshotView, Seq<char>>),
    Saved(Result<(), Seq<char>>),
    Enabled(Result<Seq<Seq<char>>, Seq<char>>),
    Restored(Result<SystemProxyRestoreView, Seq<char>>),
    Deleted(Result<(), Seq<char>>),
}

impl<E> View for SyncReply<E> {
    type V = SyncReplyView<E>;

    open spec fn view(&self) -> SyncReplyView<E> {
        match self {
            SyncReply::MixedPort(port) => SyncReplyView::MixedPort(*port),
            SyncReply::Loaded(Ok(snapshot)) => SyncReplyView::Loaded(Ok(snapshot.deep_view())),
            SyncReply::Loaded(Err(error)) => SyncReplyView::Loaded(Err(error@)),
            SyncReply::Captured(Ok(snapshot)) => SyncReplyView::Captured(Ok(snapshot@)),
            SyncReply::Captured(Err(error)) => SyncReplyView::Captured(Err(error@)),
            SyncReply::Saved(Ok(())) => SyncReplyView::Saved(Ok(())),
            SyncReply::Saved(Err(error)) => SyncReplyView::Saved(Err(error@)),
            SyncReply::Enabled(Ok(update)) => SyncReplyView::Enabled(
                Ok(update.services.deep_view()),
            ),
            SyncReply::Enabled(Err(error)) => SyncReplyView::Enabled(Err(error@)),
            SyncReply::Restored(Ok(restore)) => SyncReplyView::Restored(Ok(restore@)),
            SyncReply::Restored(Err(error)) => SyncReplyView::Restored(Err(error@)),
            SyncReply::Deleted(Ok(())) => SyncReplyView::Deleted(Ok(())),
            SyncReply::Deleted(Err(error)) => SyncReplyView::Deleted(Err(error@)),
        }
    }
}

/// The step that follows a reply, and the warning that the user gets before it.
#[derive(Debug, PartialEq, Eq)]
pub struct SyncAdvance<E> {
    pub warning: Option<String>,
    pub step: SyncStep<E>,
}

/// What a `SyncAdvance` holds.
pub struct SyncAdvanceView<E> {
    pub warning: Option<Seq<char>>,
    pub step: SyncStepView<E>,
}

impl<E> View for SyncAdvance<E> {
    type V = SyncAdvanceView<E>;

    open spec fn view(&self) -> SyncAdvanceView<E> {
        SyncAdvanceView { warning: self.warning.deep_view(), step: self.step@ }
    }
}

/// The step without a warning.
pub open spec fn quietly<E>(step: SyncStepView<E>) -> SyncAdvanceView<E> {
    SyncAdvanceView { warning: None, step }
}

/// The step after a warning.
pub open spec fn warned<E>(
    what: Seq<char>,
    error: Seq<char>,
    step: SyncStepView<E>,
) -> SyncAdvanceView<E> {
    SyncAdvanceView { warning: Some(what + error), step }
}

/// How a synchronisation begins, once the settings were read: where it is switched off the proxies
/// are put back, and elsewhere than on macOS nothing is done.
pub open spec fn sync_start<S, E>(
    host: HostPlatform,
    settings: Result<AppSettings<S>, E>,
) -> SyncStepView<E> {
    match settings {
        Err(e) => SyncStepView::Done(Err(e)),
        Ok(settings) => if !settings.system_proxy_enabled {
            SyncStepView::LoadForDisable
        } else if host == HostPlatform::Macos {
            SyncStepView::LoadMixedPort
        } else {
            SyncStepView::Done(Ok(()))
        },
    }
}

/// How the proxies are put back after they could not be taken over for `port`: first those that
/// already point there, where that is another port than the earlier one.
pub open spec fn undo<E>(snapshot: SystemProxySnapshotView, port: u32) -> SyncStepView<E> {
    if snapshot.managed_port != port {
        SyncStepView::RestoreAttempted {
            attempted: SystemProxySnapshotView { managed_port: port, ..snapshot },
            snapshot,
        }
    } else {
        SyncStepView::RestoreOriginal {
            snapshot,
            restore_failed: false,
            skipped_services: Seq::empty(),
        }
    }
}

/// What a synchronisation does with the reply to its step. A reply to another question changes
/// nothing.
pub open spec fn sync_resumed<E>(
    step: SyncStepView<E>,
    reply: SyncReplyView<E>,
) -> SyncAdvanceView<E> {
    match (step, reply) {
        (SyncStepView::LoadMixedPort, SyncReplyView::MixedPort(port)) => quietly(
            match port {
                Err(e) => SyncStepView::Done(Err(e)),
                Ok(None) => SyncStepView::LoadForDisable,
                Ok(Some(port)) => SyncStepView::LoadSnapshot { port },
            },
        ),
        (SyncStepView::LoadSnapshot { port }, SyncReplyView::Loaded(loaded)) => match loaded {
            Ok(Some(snapshot)) => quietly(SyncStepView::Enable { port, snapshot }),
            Ok(None) => quietly(SyncStepView::Capture { port }),
            Err(error) => warned("系统代理原始状态保存失败："@, error, SyncStepView::Done(Ok(()))),
        },
        (SyncStepView::Capture { port }, SyncReplyView::Captured(captured)) => match captured {
            Ok(snapshot) => quietly(SyncStepView::SaveCaptured { port, snapshot }),
            Err(error) => warned("系统代理原始状态保存失败："@, error, SyncStepView::Done(Ok(()))),
        },
        (SyncStepView::SaveCaptured { port, snapshot }, SyncReplyView::Saved(saved)) =>
            match saved {
            Ok(()) => quietly(SyncStepView::Enable { port, snapshot }),
            Err(error) => warned("系统代理原始状态保存失败："@, error, SyncStepView::Done(Ok(()))),
        },
        (SyncStepView::Enable { port, snapshot }, SyncReplyView::Enabled(enabled)) =>
            match enabled {
            Ok(_) => quietly(
                if snapshot.managed_port != port {
                    SyncStepView::SaveConfirmed {
                        port,
                        snapshot,
                        confirmed: SystemProxySnapshotView { managed_port: port, ..snapshot },
                    }
                } else {
                    SyncStepView::Done(Ok(()))
                },
            ),
            Err(error) => warned("系统代理同步失败："@, error, undo(snapshot, port)),
        },
        (SyncStepView::SaveConfirmed { port, snapshot, .. }, SyncReplyView::Saved(saved)) =>
            match saved {
            Ok(()) => quietly(SyncStepView::Done(Ok(()))),
            Err(error) => warned("系统代理托管状态保存失败："@, error, undo(snapshot, port)),
        },
        (SyncStepView::RestoreAttempted { snapshot, .. }, SyncReplyView::Restored(restored)) =>
            quietly(
            match restored {
                Ok(restore) => SyncStepView::RestoreOriginal {
                    snapshot,
                    restore_failed: false,
                    skipped_services: restore.skipped_services,
                },
                Err(_) => SyncStepView::RestoreOriginal {
                    snapshot,
                    restore_failed: true,
                    skipped_services: Seq::empty(),
                },
            },
        ),
        (
            SyncStepView::RestoreOriginal { restore_failed, skipped_services, .. },
            SyncReplyView::Restored(restored),
        ) => quietly(
            match restored {
                Ok(restore) => if !restore_failed && skipped_services.len() == 0
                    && restore.skipped_services.len() == 0 {
                    SyncStepView::Delete
                } else {
                    SyncStepView::Done(Ok(()))
                },
                Err(_) => SyncStepView::Done(Ok(())),
            },
        ),
        (SyncStepView::LoadForDisable, SyncReplyView::Loaded(loaded)) => quietly(
            match loaded {
                Ok(Some(snapshot)) => SyncStepView::RestoreForDisable { snapshot },
                _ => SyncStepView::Done(Ok(())),
            },
        ),
        (SyncStepView::RestoreForDisable { .. }, SyncReplyView::Restored(restored)) => quietly(
            match restored {
                Ok(restore) => if restore.skipped_services.len() == 0 {
                    SyncStepView::Delete
                } else {
                    SyncStepView::Done(Ok(()))
                },
                Err(_) => SyncStepView::Done(Ok(())),
            },
        ),
        (SyncStepView::Delete, SyncReplyView::Deleted(_)) => quietly(SyncStepView::Done(Ok(()))),
        _ => quietly(step),
    }
}

impl<I> AppServices<I> {
    /// Begins to bring the proxies in step with the core's configuration.
    pub fn sync_system_proxy_to_current_config<S, E>(
        &self,
        host: HostPlatform,
        settings: Result<AppSettings<S>, E>,
    ) -> (r: SyncStep<E>)
        ensures
            r@ == sync_start(host, settings),
    {
        match settings {
            Err(e) => SyncStep::Done(Err(e)),
            Ok(settings) => if !settings.system_proxy_enabled {
                self.disable_system_proxy()
            } else {
                match host {
                    HostPlatform::Macos => SyncStep::LoadMixedPort,
                    _ => SyncStep::Done(Ok(())),
                }
            },
        }
    }

    /// Begins to put the proxies back as they were.
    pub fn disable_system_proxy<E>(&self) -> (r: SyncStep<E>)
        ensures
            r@ == SyncStepView::<E>::LoadForDisable,
    {
        SyncStep::LoadForDisable
    }
}

fn quiet<E>(step: SyncStep<E>) -> (r: SyncAdvance<E>)
    ensures
        r@ == quietly(step@),
{
    SyncAdvance { warning: None, step }
}

fn warn<E>(what: &str, error: String, step: SyncStep<E>) -> (r: SyncAdvance<E>)
    ensures
        r@ == warned(what@, error@, step@),
{
    let mut warning = what.to_owned();
    warning.append(error.as_str());
    SyncAdvance { warning: Some(warning), step }
}

/// Begins to put the proxies back after they could not be taken over for `attempted_port`.
fn restore_system_proxy_after_failed_enable<E>(
    snapshot: SystemProxySnapshot,
    attempted_port: u32,
) -> (r: SyncStep<E>)
    ensures
        r@ == undo::<E>(snapshot@, attempted_port),
{
    if snapshot.managed_port != attempted_port {
        let attempted = snapshot.with_managed_port(attempted_port);
        SyncStep::RestoreAttempted { attempted, snapshot }
    } else {
        let skipped_services: Vec<String> = Vec::new();
        assert(skipped_services.deep_view() == Seq::<Seq<char>>::empty());
        SyncStep::RestoreOriginal { snapshot, restore_failed: false, skipped_services }
    }
}

impl<E> SyncStep<E> {
    /// Goes on with the reply to the step.
    pub fn resume(self, reply: SyncReply<E>) -> (r: SyncAdvance<E>)
        ensures
            r@ == sync_resumed(self@, reply@),
    {
        match (self, reply) {
            (SyncStep::LoadMixedPort, SyncReply::MixedPort(port)) => match port {
                Err(e) => quiet(SyncStep::Done(Err(e))),
                Ok(None) => quiet(SyncStep::LoadForDisable),
                Ok(Some(port)) => quiet(SyncStep::LoadSnapshot { port }),
            },
            (SyncStep::LoadSnapshot { port }, SyncReply::Loaded(loaded)) => match loaded {
                Ok(Some(snapshot)) => quiet(SyncStep::Enable { port, snapshot }),
                Ok(None) => quiet(SyncStep::Capture { port }),
                Err(error) => warn("系统代理原始状态保存失败：", error, SyncStep::Done(Ok(()))),
            },
            (SyncStep::Capture { port }, SyncReply::Captured(captured)) => match captured {
                Ok(snapshot) => quiet(SyncStep::SaveCaptured { port, snapshot }),
                Err(error) => warn("系统代理原始状态保存失败：", error, SyncStep::Done(Ok(()))),
            },
            (SyncStep::SaveCaptured { port, snapshot }, SyncReply::Saved(saved)) => match saved {
                Ok(()) => quiet(SyncStep::Enable { port, snapshot }),
                Err(error) => warn("系统代理原始状态保存失败：", error, SyncStep::Done(Ok(()))),
            },
            (SyncStep::Enable { port, snapshot }, SyncReply::Enabled(enabled)) => match enabled {
                Ok(_) => {
                    if snapshot.managed_port != port {
                        let confirmed = snapshot.with_managed_port(port);
                        quiet(SyncStep::SaveConfirmed { port, snapshot, confirmed })
                    } else {
                        quiet(SyncStep::Done(Ok(())))
                    }
                },
                Err(error) => warn(
                    "系统代理同步失败：",
                    error,
                    restore_system_proxy_after_failed_enable(snapshot, port),
                ),
            },
            (SyncStep::SaveConfirmed { port, snapshot, .. }, SyncReply::Saved(saved)) =>
                match saved {
                Ok(()) => quiet(SyncStep::Done(Ok(()))),
                Err(error) => warn(
                    "系统代理托管状态保存失败：",
                    error,
                    restore_system_proxy_after_failed_enable(snapshot, port),
                ),
            },
            (SyncStep::RestoreAttempted { snapshot, .. }, SyncReply::Restored(restored)) =>
                match restored {
                Ok(restore) => quiet(
                    SyncStep::RestoreOriginal {
                        snapshot,
                        restore_failed: false,
                        skipped_services: restore.skipped_services,
                    },
                ),
                Err(_) => {
                    let skipped_services: Vec<String> = Vec::new();
                    assert(skipped_services.deep_view() == Seq::<Seq<char>>::empty());
                    quiet(
                        SyncStep::RestoreOriginal {
                            snapshot,
                            restore_failed: true,
                            skipped_services,
                        },
                    )
                },
            },
            (
                SyncStep::RestoreOriginal { restore_failed, skipped_services, .. },
                SyncReply::Restored(restored),
            ) => match restored {
                Ok(restore) => if !restore_failed && skipped_services.len() == 0
                    && restore.skipped_services.len() == 0 {
                    quiet(SyncStep::Delete)
                } else {
                    quiet(SyncStep::Done(Ok(())))
                },
                Err(_) => quiet(SyncStep::Done(Ok(()))),
            },
            (SyncStep::LoadForDisable, SyncReply::Loaded(loaded)) => match loaded {
                Ok(Some(snapshot)) => quiet(SyncStep::RestoreForDisable { snapshot }),
                _ => quiet(SyncStep::Done(Ok(()))),
            },
            (SyncStep::RestoreForDisable { .. }, SyncReply::Restored(restored)) => match restored {
                Ok(restore) => if restore.skipped_services.len() == 0 {
                    quiet(SyncStep::Delete)
                } else {
                    quiet(SyncStep::Done(Ok(())))
                },
                Err(_) => quiet(SyncStep::Done(Ok(()))),
            },
            (SyncStep::Delete, SyncReply::Deleted(_)) => quiet(SyncStep::Done(Ok(()))),
            (step, _) => quiet(step),
        }
    }
}

/// The reply is what the step asked for, and it is true of a store that held `before` and holds
/// `after`. A write that fails leaves what was there, or what was to be written.
pub open spec fn answers<E>(
    step: SyncStepView<E>,
    reply: SyncReplyView<E>,
    before: Option<SystemProxySnapshotView>,
    after: Option<SystemProxySnapshotView>,
) -> bool {
    match (step, reply) {
        (
            SyncStepView::LoadSnapshot { .. } | SyncStepView::LoadForDisable,
            SyncReplyView::Loaded(loaded),
        ) => after == before && (loaded matches Ok(held) ==> held == before),
        (SyncStepView::SaveCaptured { snapshot, .. }, SyncReplyView::Saved(saved)) => after == Some(
            snapshot,
        ) || saved is Err && after == before,
        (SyncStepView::SaveConfirmed { confirmed, .. }, SyncReplyView::Saved(saved)) => after
            == Some(confirmed) || saved is Err && after == before,
        (SyncStepView::Delete, SyncReplyView::Deleted(deleted)) => if deleted is Ok {
            after is None
        } else {
            after == before
        },
        (SyncStepView::LoadMixedPort, SyncReplyView::MixedPort(_)) => after == before,
        (SyncStepView::Capture { .. }, SyncReplyView::Captured(_)) => after == before,
        (SyncStepView::Enable { .. }, SyncReplyView::Enabled(_)) => after == before,
        (
            SyncStepView::RestoreAttempted { .. } | SyncStepView::RestoreOriginal { .. }
            | SyncStepView::RestoreForDisable { .. },
            SyncReplyView::Restored(_),
        ) => after == before,
        _ => false,
    }
}

/// Each reply, with what the store holds after it, answers the step that it came to.
pub open spec fn answered<E>(
    step: SyncStepView<E>,
    held: Option<SystemProxySnapshotView>,
    replies: Seq<(SyncReplyView<E>, Option<SystemProxySnapshotView>)>,
) -> bool
    decreases replies.len(),
{
    replies.len() > 0 ==> {
        &&& answers(step, replies[0].0, held, replies[0].1)
        &&& answered(sync_resumed(step, replies[0].0).step, replies[0].1, replies.skip(1))
    }
}

/// The step that the replies lead to.
pub open spec fn sync_run<E>(
    step: SyncStepView<E>,
    replies: Seq<(SyncReplyView<E>, Option<SystemProxySnapshotView>)>,
) -> SyncStepView<E>
    decreases replies.len(),
{
    if replies.len() == 0 {
        step
    } else {
        sync_run(sync_resumed(step, replies[0].0).step, replies.skip(1))
    }
}

/// What the store holds after the replies.
pub open spec fn held_after<E>(
    held: Option<SystemProxySnapshotView>,
    replies: Seq<(SyncReplyView<E>, Option<SystemProxySnapshotView>)>,
) -> Option<SystemProxySnapshotView> {
    if replies.len() == 0 {
        held
    } else {
        replies.last().1
    }
}

/// What is true of the store at a step: nothing is captured where something is stored, and nothing
/// is changed in the system before its state is stored.
pub open spec fn fits<E>(step: SyncStepView<E>, held: Option<SystemProxySnapshotView>) -> bool {
    match step {
        SyncStepView::Capture { .. } | SyncStepView::SaveCaptured { .. } => held is None,
        SyncStepView::Enable { snapshot, .. } => held == Some(snapshot),
        SyncStepView::SaveConfirmed { port, snapshot, confirmed } => {
            &&& held == Some(snapshot)
            &&& confirmed == SystemProxySnapshotView { managed_port: port, ..snapshot }
        },
        SyncStepView::RestoreAttempted { attempted, snapshot } => {
            &&& held matches Some(stored) && stored.services == snapshot.services
            &&& attempted.services == snapshot.services
        },
        SyncStepView::RestoreOriginal { snapshot, .. } => {
            held matches Some(stored) && stored.services == snapshot.services
        },
        SyncStepView::RestoreForDisable { snapshot } => held == Some(snapshot),
        SyncStepView::Delete => held is Some,
        _ => true,
    }
}

/// The original state of the services is still stored.
pub open spec fn keeps_services(
    before: Option<SystemProxySnapshotView>,
    after: Option<SystemProxySnapshotView>,
) -> bool {
    before matches Some(old_snapshot) ==> after matches Some(new_snapshot)
        && new_snapshot.services == old_snapshot.services
}

proof fn lemma_sync_step<E>(
    step: SyncStepView<E>,
    reply: SyncReplyView<E>,
    before: Option<SystemProxySnapshotView>,
    after: Option<SystemProxySnapshotView>,
)
    requires
        fits(step, before),
        answers(step, reply, before, after),
    ensures
        fits(sync_resumed(step, reply).step, after),
        step is Delete || keeps_services(before, after),
{
}

/// Whatever happens, the store fits the step of a synchronisation.
///
/// So the state of the proxies is captured only while none is stored, and the proxies are taken
/// over only while the snapshot that they would be put back from is stored.
pub proof fn law_sync_fits_store<S, E>(
    host: HostPlatform,
    settings: Result<AppSettings<S>, E>,
    held: Option<SystemProxySnapshotView>,
    replies: Seq<(SyncReplyView<E>, Option<SystemProxySnapshotView>)>,
)
    requires
        answered(sync_start(host, settings), held, replies),
    ensures
        fits(sync_run(sync_start(host, settings), replies), held_after(held, replies)),
{
    lemma_sync_run(sync_start(host, settings), held, replies);
}

proof fn lemma_sync_run<E>(
    step: SyncStepView<E>,
    held: Option<SystemProxySnapshotView>,
    replies: Seq<(SyncReplyView<E>, Option<SystemProxySnapshotView>)>,
)
    requires
        fits(step, held),
        answered(step, held, replies),
    ensures
        fits(sync_run(step, replies), held_after(held, replies)),
        keeps_services(held, held_after(held, replies)) || deletes(step, replies),
    decreases replies.len(),
{
    if replies.len() > 0 {
        lemma_sync_step(step, replies[0].0, held, replies[0].1);
        lemma_sync_run(
            sync_resumed(step, replies[0].0).step,
            replies[0].1,
            replies.skip(1),
        );
    }
}

/// Among the steps of a run is one that deletes the stored snapshot.
pub open spec fn deletes<E>(
    step: SyncStepView<E>,
    replies: Seq<(SyncReplyView<E>, Option<SystemProxySnapshotView>)>,
) -> bool
    decreases replies.len(),
{
    replies.len() > 0 && (step is Delete || deletes(
        sync_resumed(step, replies[0].0).step,
        replies.skip(1),
    ))
}

/// A synchronisation never loses the original state of the services: what is stored of it when it
/// begins is stored until it is deleted, whatever fails on the way.
pub proof fn law_sync_keeps_originals<S, E>(
    host: HostPlatform,
    settings: Result<AppSettings<S>, E>,
    held: Option<SystemProxySnapshotView>,
    replies: Seq<(SyncReplyView<E>, Option<SystemProxySnapshotView>)>,
)
    requires
        answered(sync_start(host, settings), held, replies),
        !deletes(sync_start(host, settings), replies),
    ensures
        keeps_services(held, held_after(held, replies)),
{
    lemma_sync_run(sync_start(host, settings), held, replies);
}

/// The stored snapshot is deleted only after the proxies were put back with no failure and no
/// service left out.
pub proof fn law_delete_only_after_full_restore<E>(step: SyncStepView<E>, reply: SyncReplyView<E>)
    requires
        step !is Delete,
        sync_resumed(step, reply).step is Delete,
    ensures
        reply matches SyncReplyView::Restored(Ok(restore)) && restore.skipped_services.len() == 0,
        step is RestoreForDisable || step is RestoreOriginal,
        step matches SyncStepView::RestoreOriginal { restore_failed, skipped_services, .. }
            ==> !restore_failed && skipped_services.len() == 0,
{
}

/// The step only puts proxies back.
pub open spec fn only_undoes<E>(step: SyncStepView<E>) -> bool {
    step is LoadForDisable || step is RestoreForDisable || step is Delete || step == SyncStepView::<
        E,
    >::Done(Ok(()))
}

/// Where synchronisation is switched off, nothing is captured, stored or taken over: a snapshot
/// that is there is put back and then deleted, and nothing else is done.
pub proof fn law_sync_is_opt_in<S, E>(
    host: HostPlatform,
    settings: AppSettings<S>,
    held: Option<SystemProxySnapshotView>,
    replies: Seq<(SyncReplyView<E>, Option<SystemProxySnapshotView>)>,
)
    requires
        !settings.system_proxy_enabled,
        answered(sync_start::<S, E>(host, Ok(settings)), held, replies),
    ensures
        only_undoes(sync_run(sync_start::<S, E>(host, Ok(settings)), replies)),
        held_after(held, replies) == held || held_after(held, replies) is None,
{
    lemma_only_undoes(sync_start::<S, E>(host, Ok(settings)), held, replies);
}

proof fn lemma_only_undoes<E>(
    step: SyncStepView<E>,
    held: Option<SystemProxySnapshotView>,
    replies: Seq<(SyncReplyView<E>, Option<SystemProxySnapshotView>)>,
)
    requires
        only_undoes(step),
        answered(step, held, replies),
    ensures
        only_undoes(sync_run(step, replies)),
        held_after(held, replies) == held || held_after(held, replies) is None,
    decreases replies.len(),
{
    if replies.len() > 0 {
        lemma_only_undoes(
            sync_resumed(step, replies[0].0).step,
            replies[0].1,
            replies.skip(1),
        );
    }
}

/// How much of a synchronisation can still come.
pub open spec fn sync_length<E>(step: SyncStepView<E>) -> nat {
    match step {
        SyncStepView::LoadMixedPort => 9,
        SyncStepView::LoadSnapshot { .. } => 8,
        SyncStepView::Capture { .. } => 7,
        SyncStepView::SaveCaptured { .. } => 6,
        SyncStepView::Enable { .. } => 5,
        SyncStepView::SaveConfirmed { .. } => 4,
        SyncStepView::RestoreAttempted { .. } => 3,
        SyncStepView::LoadForDisable => 3,
        SyncStepView::RestoreOriginal { .. } => 2,
        SyncStepView::RestoreForDisable { .. } => 2,
        SyncStepView::Delete => 1,
        SyncStepView::Done(_) => 0,
    }
}

/// Every answer brings a synchronisation nearer to its end.
pub proof fn law_sync_ends<E>(
    step: SyncStepView<E>,
    reply: SyncReplyView<E>,
    before: Option<SystemProxySnapshotView>,
    after: Option<SystemProxySnapshotView>,
)
    requires
        answers(step, reply, before, after),
    ensures
        sync_length(sync_resumed(step, reply).step) < sync_length(step),
{
}

/// A synchronisation in which nothing fails ends with the port confirmed in the stored snapshot.
/// The services in it are those that were stored before, or those captured where none were.
pub proof fn law_sync_success<S, E>(
    settings: AppSettings<S>,
    port: u32,
    held: Option<SystemProxySnapshotView>,
    replies: Seq<(SyncReplyView<E>, Option<SystemProxySnapshotView>)>,
)
    requires
        settings.system_proxy_enabled,
        answered(sync_start::<S, E>(HostPlatform::Macos, Ok(settings)), held, replies),
        sync_run(sync_start::<S, E>(HostPlatform::Macos, Ok(settings)), replies) is Done,
        replies.len() > 0 && replies[0].0 == SyncReplyView::<E>::MixedPort(Ok(Some(port))),
        forall|i: int| 0 <= i < replies.len() ==> went_well((#[trigger] replies[i]).0, port),
    ensures
        sync_run(sync_start::<S, E>(HostPlatform::Macos, Ok(settings)), replies)
            == SyncStepView::<E>::Done(Ok(())),
        held_after(held, replies) matches Some(snapshot) && snapshot.managed_port == port,
        keeps_services(held, held_after(held, replies)),
        held is None ==> exists|i: int|
            0 <= i < replies.len() && captures((#[trigger] replies[i]).0, held_after(held, replies)),
{
    let start = sync_start::<S, E>(HostPlatform::Macos, Ok(settings));
    let rest = replies.skip(1);
    assert forall|i: int| 0 <= i < rest.len() implies went_well((#[trigger] rest[i]).0, port) by {
        assert(rest[i] == replies[i + 1]);
    }
    lemma_success(SyncStepView::LoadSnapshot { port }, port, held, rest);
    assert(held_after(held, replies) == held_after(held, rest));
    if held is None {
        let i = choose|i: int|
            0 <= i < rest.len() && captures((#[trigger] rest[i]).0, held_after(held, rest));
        assert(replies[i + 1] == rest[i]);
    }
}

/// The reply reports no failure. A snapshot that was captured is one for `port`.
pub open spec fn went_well<E>(reply: SyncReplyView<E>, port: u32) -> bool {
    match reply {
        SyncReplyView::MixedPort(result) => result is Ok,
        SyncReplyView::Loaded(result) => result is Ok,
        SyncReplyView::Captured(result) => result matches Ok(snapshot) && snapshot.managed_port
            == port,
        SyncReplyView::Saved(result) => result is Ok,
        SyncReplyView::Enabled(result) => result is Ok,
        SyncReplyView::Restored(result) => result is Ok,
        SyncReplyView::Deleted(result) => result is Ok,
    }
}

/// The reply is the capture of just that snapshot.
pub open spec fn captures<E>(
    reply: SyncReplyView<E>,
    held: Option<SystemProxySnapshotView>,
) -> bool {
    reply matches SyncReplyView::Captured(Ok(snapshot)) && held == Some(snapshot)
}

proof fn lemma_success<E>(
    step: SyncStepView<E>,
    port: u32,
    held: Option<SystemProxySnapshotView>,
    replies: Seq<(SyncReplyView<E>, Option<SystemProxySnapshotView>)>,
)
    requires
        fits(step, held),
        answered(step, held, replies),
        sync_run(step, replies) is Done,
        match step {
            SyncStepView::LoadSnapshot { port: p } => p == port,
            SyncStepView::Capture { port: p } => p == port,
            SyncStepView::SaveCaptured { port: p, snapshot } => p == port && snapshot.managed_port
                == port,
            SyncStepView::Enable { port: p, .. } => p == port,
            SyncStepView::SaveConfirmed { port: p, .. } => p == port,
            _ => false,
        },
        forall|i: int| 0 <= i < replies.len() ==> went_well((#[trigger] replies[i]).0, port),
    ensures
        sync_run(step, replies) == SyncStepView::<E>::Done(Ok(())),
        held_after(held, replies) matches Some(snapshot) && snapshot.managed_port == port,
        keeps_services(held, held_after(held, replies)),
        step matches SyncStepView::SaveCaptured { snapshot, .. } ==> held_after(held, replies)
            == Some(snapshot),
        step matches SyncStepView::Enable { snapshot, .. } ==> snapshot.managed_port == port
            ==> held_after(held, replies) == Some(snapshot),
        (step is LoadSnapshot || step is Capture) && held is None ==> exists|i: int|
            0 <= i < replies.len() && captures((#[trigger] replies[i]).0, held_after(held, replies)),
    decreases replies.len(),
{
    if replies.len() > 0 {
        let reply = replies[0].0;
        let rest = replies.skip(1);
        let next = sync_resumed(step, reply).step;
        assert(went_well(reply, port));
        lemma_sync_step(step, reply, held, replies[0].1);
        assert forall|i: int| 0 <= i < rest.len() implies went_well(
            (#[trigger] rest[i]).0,
            port,
        ) by {
            assert(rest[i] == replies[i + 1]);
        }
        if next is Done {
            lemma_done_ends(next, replies[0].1, rest);
        } else {
            lemma_success(next, port, replies[0].1, rest);
            assert(held_after(held, replies) == held_after(replies[0].1, rest));
            if step is LoadSnapshot && held is None {
                let i = choose|i: int|
                    0 <= i < rest.len() && captures(
                        (#[trigger] rest[i]).0,
                        held_after(held, rest),
                    );
                assert(replies[i + 1] == rest[i]);
            }
        }
    }
}

proof fn lemma_done_ends<E>(
    step: SyncStepView<E>,
    held: Option<SystemProxySnapshotView>,
    replies: Seq<(SyncReplyView<E>, Option<SystemProxySnapshotView>)>,
)
    requires
        step is Done,
        answered(step, held, replies),
    ensures
        replies.len() == 0,
{
}

/// The reply reports that proxies could not all be put back.
pub open spec fn falls_short<E>(reply: SyncReplyView<E>) -> bool {
    match reply {
        SyncReplyView::Restored(Ok(restore)) => restore.skipped_services.len() > 0,
        SyncReplyView::Restored(Err(_)) => true,
        _ => false,
    }
}

/// A synchronisation in which some proxies could not be put back keeps what is stored of their
/// original state.
pub proof fn law_partial_restore_keeps_originals<S, E>(
    host: HostPlatform,
    settings: Result<AppSettings<S>, E>,
    held: Option<SystemProxySnapshotView>,
    replies: Seq<(SyncReplyView<E>, Option<SystemProxySnapshotView>)>,
    i: int,
)
    requires
        answered(sync_start(host, settings), held, replies),
        0 <= i < replies.len(),
        falls_short(replies[i].0),
    ensures
        !deletes(sync_start(host, settings), replies),
        keeps_services(held, held_after(held, replies)),
{
    lemma_falls_short(sync_start(host, settings), held, replies, i);
    law_sync_keeps_originals(host, settings, held, replies);
}

proof fn lemma_falls_short<E>(
    step: SyncStepView<E>,
    held: Option<SystemProxySnapshotView>,
    replies: Seq<(SyncReplyView<E>, Option<SystemProxySnapshotView>)>,
    i: int,
)
    requires
        answered(step, held, replies),
        0 <= i < replies.len(),
        falls_short(replies[i].0),
    ensures
        !deletes(step, replies),
    decreases replies.len(),
{
    let next = sync_resumed(step, replies[0].0).step;
    let rest = replies.skip(1);
    reveal_with_fuel(answered, 3);
    reveal_with_fuel(deletes, 3);
    if step is Delete {
        lemma_done_ends(next, replies[0].1, rest);
    } else if i > 0 {
        assert(rest[i - 1] == replies[i]);
        lemma_falls_short(next, replies[0].1, rest, i - 1);
    } else if next is Done {
        lemma_done_ends(next, replies[0].1, rest);
    } else if rest.len() > 0 {
        let last = sync_resumed(next, rest[0].0).step;
        lemma_done_ends(last, rest[0].1, rest.skip(1));
    }
}

/// The reply reports that all proxies were put back, or that the stored snapshot was deleted.
pub open spec fn undoes_fully<E>(reply: SyncReplyView<E>) -> bool {
    match reply {
        SyncReplyView::Restored(Ok(restore)) => restore.skipped_services.len() == 0,
        SyncReplyView::Deleted(Ok(())) => true,
        _ => false,
    }
}

/// Where the proxies could not be taken over and could then all be put back, the user is warned of
/// the failure, and nothing stays stored.
pub proof fn law_failed_enable_is_undone<E>(
    port: u32,
    snapshot: SystemProxySnapshotView,
    error: Seq<char>,
    replies: Seq<(SyncReplyView<E>, Option<SystemProxySnapshotView>)>,
)
    requires
        ({
            let failed = sync_resumed(
                SyncStepView::<E>::Enable { port, snapshot },
                SyncReplyView::Enabled(Err(error)),
            ).step;
            &&& answered(failed, Some(snapshot), replies)
            &&& sync_run(failed, replies) is Done
        }),
        forall|i: int| 0 <= i < replies.len() ==> undoes_fully((#[trigger] replies[i]).0),
    ensures
        ({
            let failed = sync_resumed(
                SyncStepView::<E>::Enable { port, snapshot },
                SyncReplyView::Enabled(Err(error)),
            );
            &&& failed.warning == Some("系统代理同步失败："@ + error)
            &&& sync_run(failed.step, replies) == SyncStepView::<E>::Done(Ok(()))
        }),
        held_after(Some(snapshot), replies) is None,
{
    let failed = sync_resumed(
        SyncStepView::<E>::Enable { port, snapshot },
        SyncReplyView::Enabled(Err(error)),
    ).step;
    lemma_undone(failed, Some(snapshot), replies);
}

proof fn lemma_undone<E>(
    step: SyncStepView<E>,
    held: Option<SystemProxySnapshotView>,
    replies: Seq<(SyncReplyView<E>, Option<SystemProxySnapshotView>)>,
)
    requires
        answered(step, held, replies),
        sync_run(step, replies) is Done,
        step is RestoreAttempted || step is Delete || (step matches SyncStepView::RestoreOriginal {
            restore_failed,
            skipped_services,
            ..
        } && !restore_failed && skipped_services.len() == 0),
        forall|i: int| 0 <= i < replies.len() ==> undoes_fully((#[trigger] replies[i]).0),
    ensures
        sync_run(step, replies) == SyncStepView::<E>::Done(Ok(())),
        held_after(held, replies) is None,
    decreases replies.len(),
{
    if replies.len() > 0 {
        let next = sync_resumed(step, replies[0].0).step;
        let rest = replies.skip(1);
        assert(undoes_fully(replies[0].0));
        assert forall|i: int| 0 <= i < rest.len() implies undoes_fully((#[trigger] rest[i]).0) by {
            assert(rest[i] == replies[i + 1]);
        }
        if next is Done {
            lemma_done_ends(next, replies[0].1, rest);
        } else {
            lemma_undone(next, replies[0].1, rest);
        }
    }
}

/// Among the steps of a run, the last included, is one that is wanted.
pub open spec fn passes_through<E>(
    step: SyncStepView<E>,
    replies: Seq<(SyncReplyView<E>, Option<SystemProxySnapshotView>)>,
    wanted: spec_fn(SyncStepView<E>) -> bool,
) -> bool
    decreases replies.len(),
{
    wanted(step) || replies.len() > 0 && passes_through(
        sync_resumed(step, replies[0].0).step,
        replies.skip(1),
        wanted,
    )
}

/// The warnings that the user gets in a run.
pub open spec fn warnings_of<E>(
    step: SyncStepView<E>,
    replies: Seq<(SyncReplyView<E>, Option<SystemProxySnapshotView>)>,
) -> Seq<Seq<char>>
    decreases replies.len(),
{
    if replies.len() == 0 {
        Seq::empty()
    } else {
        let advance = sync_resumed(step, replies[0].0);
        let others = warnings_of(advance.step, replies.skip(1));
        match advance.warning {
            Some(warning) => seq![warning] + others,
            None => others,
        }
    }
}

/// The reply reports no failure.
pub open spec fn is_success<E>(reply: SyncReplyView<E>) -> bool {
    match reply {
        SyncReplyView::MixedPort(result) => result is Ok,
        SyncReplyView::Loaded(result) => result is Ok,
        SyncReplyView::Captured(result) => result is Ok,
        SyncReplyView::Saved(result) => result is Ok,
        SyncReplyView::Enabled(result) => result is Ok,
        SyncReplyView::Restored(result) => result is Ok,
        SyncReplyView::Deleted(result) => result is Ok,
    }
}

/// A synchronisation that is switched on, on macOS, with a port, and in which nothing fails asks
/// for the proxies to be pointed at just that port, whether the snapshot was loaded or captured.
/// Where a snapshot is stored, it is the one that the proxies would be put back from. No user is
/// warned, and no proxy is put back.
pub proof fn law_sync_points_proxies_at_port<S, E>(
    settings: AppSettings<S>,
    port: u32,
    held: Option<SystemProxySnapshotView>,
    replies: Seq<(SyncReplyView<E>, Option<SystemProxySnapshotView>)>,
)
    requires
        settings.system_proxy_enabled,
        answered(sync_start::<S, E>(HostPlatform::Macos, Ok(settings)), held, replies),
        sync_run(sync_start::<S, E>(HostPlatform::Macos, Ok(settings)), replies) is Done,
        replies.len() > 0 && replies[0].0 == SyncReplyView::<E>::MixedPort(Ok(Some(port))),
        forall|i: int| 0 <= i < replies.len() ==> is_success((#[trigger] replies[i]).0),
    ensures
        ({
            let start = sync_start::<S, E>(HostPlatform::Macos, Ok(settings));
            &&& passes_through(
                start,
                replies,
                |step: SyncStepView<E>|
                    step matches SyncStepView::Enable { port: asked, snapshot } && asked == port
                        && (held matches Some(stored) ==> snapshot == stored),
            )
            &&& !passes_through(
                start,
                replies,
                |step: SyncStepView<E>|
                    step is RestoreAttempted || step is RestoreOriginal || step is RestoreForDisable
                        || step is Delete || step is LoadForDisable,
            )
            &&& warnings_of(start, replies).len() == 0
        }),
{
    let rest = replies.skip(1);
    assert forall|i: int| 0 <= i < rest.len() implies is_success((#[trigger] rest[i]).0) by {
        assert(rest[i] == replies[i + 1]);
    }
    lemma_reaches_enable(SyncStepView::LoadSnapshot { port }, port, held, held, rest);
    lemma_goes_straight(SyncStepView::LoadSnapshot { port }, held, rest);
}

proof fn lemma_reaches_enable<E>(
    step: SyncStepView<E>,
    port: u32,
    first: Option<SystemProxySnapshotView>,
    held: Option<SystemProxySnapshotView>,
    replies: Seq<(SyncReplyView<E>, Option<SystemProxySnapshotView>)>,
)
    requires
        fits(step, held),
        answered(step, held, replies),
        sync_run(step, replies) is Done,
        first is None || first == held,
        match step {
            SyncStepView::LoadSnapshot { port: p } => p == port,
            SyncStepView::Capture { port: p } => p == port,
            SyncStepView::SaveCaptured { port: p, .. } => p == port,
            SyncStepView::Enable { port: p, .. } => p == port,
            _ => false,
        },
        forall|i: int| 0 <= i < replies.len() ==> is_success((#[trigger] replies[i]).0),
    ensures
        passes_through(
            step,
            replies,
            |step: SyncStepView<E>|
                step matches SyncStepView::Enable { port: asked, snapshot } && asked == port && (
                first matches Some(stored) ==> snapshot == stored),
        ),
    decreases replies.len(),
{
    if step !is Enable && replies.len() > 0 {
        let rest = replies.skip(1);
        assert(is_success(replies[0].0));
        lemma_sync_step(step, replies[0].0, held, replies[0].1);
        assert forall|i: int| 0 <= i < rest.len() implies is_success((#[trigger] rest[i]).0) by {
            assert(rest[i] == replies[i + 1]);
        }
        lemma_reaches_enable(
            sync_resumed(step, replies[0].0).step,
            port,
            first,
            replies[0].1,
            rest,
        );
    }
}

proof fn lemma_goes_straight<E>(
    step: SyncStepView<E>,
    held: Option<SystemProxySnapshotView>,
    replies: Seq<(SyncReplyView<E>, Option<SystemProxySnapshotView>)>,
)
    requires
        answered(step, held, replies),
        step is LoadSnapshot || step is Capture || step is SaveCaptured || step is Enable
            || step is SaveConfirmed || step is Done,
        forall|i: int| 0 <= i < replies.len() ==> is_success((#[trigger] replies[i]).0),
    ensures
        !passes_through(
            step,
            replies,
            |step: SyncStepView<E>|
                step is RestoreAttempted || step is RestoreOriginal || step is RestoreForDisable
                    || step is Delete || step is LoadForDisable,
        ),
        warnings_of(step, replies).len() == 0,
    decreases replies.len(),
{
    if replies.len() > 0 {
        let rest = replies.skip(1);
        assert(is_success(replies[0].0));
        assert forall|i: int| 0 <= i < rest.len() implies is_success((#[trigger] rest[i]).0) by {
            assert(rest[i] == replies[i + 1]);
        }
        lemma_goes_straight(sync_resumed(step, replies[0].0).step, replies[0].1, rest);
    }
}

/// Where synchronisation is switched off, or is on but the configuration gives no port, a stored
/// snapshot is put back, and just that one. It is deleted where all of it could be put back. Where
/// none is stored, nothing is put back and nothing is stored.
pub proof fn law_sync_puts_back<S, E>(
    host: HostPlatform,
    settings: AppSettings<S>,
    held: Option<SystemProxySnapshotView>,
    replies: Seq<(SyncReplyView<E>, Option<SystemProxySnapshotView>)>,
)
    requires
        answered(sync_start::<S, E>(host, Ok(settings)), held, replies),
        sync_run(sync_start::<S, E>(host, Ok(settings)), replies) is Done,
        forall|i: int| 0 <= i < replies.len() ==> is_success((#[trigger] replies[i]).0),
        !settings.system_proxy_enabled || host == HostPlatform::Macos && replies.len() > 0
            && replies[0].0 == SyncReplyView::<E>::MixedPort(Ok(None)),
    ensures
        ({
            let start = sync_start::<S, E>(host, Ok(settings));
            &&& sync_run(start, replies) == SyncStepView::<E>::Done(Ok(()))
            &&& passes_through(
                start,
                replies,
                |step: SyncStepView<E>|
                    step matches SyncStepView::RestoreForDisable { snapshot } && Some(snapshot)
                        == held,
            ) <==> held is Some
            &&& !passes_through(
                start,
                replies,
                |step: SyncStepView<E>|
                    step matches SyncStepView::RestoreForDisable { snapshot } && Some(snapshot)
                        != held,
            )
            &&& held is Some && (forall|i: int|
                0 <= i < replies.len() ==> !falls_short((#[trigger] replies[i]).0)) ==> held_after(
                held,
                replies,
            ) is None
            &&& held is None ==> held_after(held, replies) is None
        }),
{
    if settings.system_proxy_enabled {
        let rest = replies.skip(1);
        assert forall|i: int| 0 <= i < rest.len() implies #[trigger] rest[i] == replies[i + 1] by {}
        lemma_puts_back(SyncStepView::LoadForDisable, held, rest);
    } else {
        lemma_puts_back(SyncStepView::LoadForDisable, held, replies);
    }
}

proof fn lemma_puts_back<E>(
    step: SyncStepView<E>,
    held: Option<SystemProxySnapshotView>,
    replies: Seq<(SyncReplyView<E>, Option<SystemProxySnapshotView>)>,
)
    requires
        step is LoadForDisable,
        answered(step, held, replies),
        sync_run(step, replies) is Done,
        forall|i: int| 0 <= i < replies.len() ==> is_success((#[trigger] replies[i]).0),
    ensures
        replies.len() > 0,
        sync_run(step, replies) == SyncStepView::<E>::Done(Ok(())),
        passes_through(
            step,
            replies,
            |step: SyncStepView<E>|
                step matches SyncStepView::RestoreForDisable { snapshot } && Some(snapshot) == held,
        ) <==> held is Some,
        !passes_through(
            step,
            replies,
            |step: SyncStepView<E>|
                step matches SyncStepView::RestoreForDisable { snapshot } && Some(snapshot) != held,
        ),
        held is Some && (forall|i: int|
            0 <= i < replies.len() ==> !falls_short((#[trigger] replies[i]).0)) ==> held_after(
            held,
            replies,
        ) is None,
        held is None ==> held_after(held, replies) is None,
{
    reveal_with_fuel(sync_run, 4);
    reveal_with_fuel(answered, 5);
    reveal_with_fuel(passes_through, 5);
    assert(is_success(replies[0].0));
    let second = replies.skip(1);
    if held is None {
        assert(second.len() == 0);
    } else {
        assert(second.len() > 0);
        assert(second[0] == replies[1]);
        assert(is_success(replies[1].0));
        let third = second.skip(1);
        if falls_short(replies[1].0) {
            assert(third.len() == 0);
        } else {
            assert(third.len() > 0);
            assert(third[0] == replies[2]);
            assert(is_success(replies[2].0));
            assert(third.skip(1).len() == 0);
            assert(replies.last() == replies[2]);
        }
    }
}

/// Where the proxies could not be pointed at the port, or the new port could not be stored, the
/// user is warned of the failure once. The proxies that the stored snapshot holds are put back
/// where they still point at the earlier port, and before that where they already point at the new
/// one, if that is another. They are not taken over again, and no failure on the way ends in an
/// error.
pub proof fn law_failed_take_over<E>(
    port: u32,
    snapshot: SystemProxySnapshotView,
    confirmed: SystemProxySnapshotView,
    error: Seq<char>,
    confirming: bool,
    held: Option<SystemProxySnapshotView>,
    replies: Seq<(SyncReplyView<E>, Option<SystemProxySnapshotView>)>,
)
    requires
        ({
            let failed = if confirming {
                sync_resumed(
                    SyncStepView::<E>::SaveConfirmed { port, snapshot, confirmed },
                    SyncReplyView::Saved(Err(error)),
                )
            } else {
                sync_resumed(
                    SyncStepView::<E>::Enable { port, snapshot },
                    SyncReplyView::Enabled(Err(error)),
                )
            };
            answered(failed.step, held, replies) && sync_run(failed.step, replies) is Done
        }),
    ensures
        ({
            let failed = if confirming {
                sync_resumed(
                    SyncStepView::<E>::SaveConfirmed { port, snapshot, confirmed },
                    SyncReplyView::Saved(Err(error)),
                )
            } else {
                sync_resumed(
                    SyncStepView::<E>::Enable { port, snapshot },
                    SyncReplyView::Enabled(Err(error)),
                )
            };
            &&& failed.warning == Some(
                if confirming {
                    "系统代理托管状态保存失败："@ + error
                } else {
                    "系统代理同步失败："@ + error
                },
            )
            &&& warnings_of(failed.step, replies).len() == 0
            &&& sync_run(failed.step, replies) == SyncStepView::<E>::Done(Ok(()))
            &&& passes_through(
                failed.step,
                replies,
                |step: SyncStepView<E>|
                    step matches SyncStepView::RestoreOriginal { snapshot: asked, .. } && asked
                        == snapshot,
            )
            &&& snapshot.managed_port != port <==> passes_through(
                failed.step,
                replies,
                |step: SyncStepView<E>| step is RestoreAttempted,
            )
            &&& snapshot.managed_port != port ==> {
                &&& failed.step matches SyncStepView::RestoreAttempted { attempted, .. }
                &&& attempted.managed_port == port && attempted.services == snapshot.services
            }
            &&& !passes_through(
                failed.step,
                replies,
                |step: SyncStepView<E>|
                    step is Enable || step is Capture || step is SaveCaptured
                        || step is SaveConfirmed,
            )
        }),
{
    let failed = if confirming {
        sync_resumed(
            SyncStepView::<E>::SaveConfirmed { port, snapshot, confirmed },
            SyncReplyView::Saved(Err(error)),
        )
    } else {
        sync_resumed(
            SyncStepView::<E>::Enable { port, snapshot },
            SyncReplyView::Enabled(Err(error)),
        )
    };
    lemma_put_back_after_failure(failed.step, snapshot, held, replies);
}

proof fn lemma_put_back_after_failure<E>(
    step: SyncStepView<E>,
    snapshot: SystemProxySnapshotView,
    held: Option<SystemProxySnapshotView>,
    replies: Seq<(SyncReplyView<E>, Option<SystemProxySnapshotView>)>,
)
    requires
        answered(step, held, replies),
        sync_run(step, replies) is Done,
        match step {
            SyncStepView::RestoreAttempted { snapshot: original, .. } => original == snapshot,
            SyncStepView::RestoreOriginal { snapshot: original, .. } => original == snapshot,
            _ => false,
        },
    ensures
        warnings_of(step, replies).len() == 0,
        sync_run(step, replies) == SyncStepView::<E>::Done(Ok(())),
        passes_through(
            step,
            replies,
            |step: SyncStepView<E>|
                step matches SyncStepView::RestoreOriginal { snapshot: asked, .. } && asked
                    == snapshot,
        ),
        passes_through(step, replies, |step: SyncStepView<E>| step is RestoreAttempted) <==> step
            is RestoreAttempted,
        !passes_through(
            step,
            replies,
            |step: SyncStepView<E>|
                step is Enable || step is Capture || step is SaveCaptured || step is SaveConfirmed,
        ),
    decreases replies.len(),
{
    let next = sync_resumed(step, replies[0].0).step;
    let rest = replies.skip(1);
    if step is RestoreAttempted {
        lemma_put_back_after_failure(next, snapshot, replies[0].1, rest);
    } else {
        reveal_with_fuel(sync_run, 3);
        reveal_with_fuel(answered, 4);
        reveal_with_fuel(passes_through, 4);
        reveal_with_fuel(warnings_of, 3);
        if next is Delete {
            assert(rest.skip(1).len() == 0);
        } else {
            assert(rest.len() == 0);
        }
    }
}

/// A synchronisation ends in an error exactly where the settings or the port could not be read, and
/// then in just that error. Where it is on, elsewhere than on macOS, it does nothing. Without a
/// failure of these two nothing that goes wrong is an error.
pub proof fn law_sync_outcome<S, E>(
    host: HostPlatform,
    settings: Result<AppSettings<S>, E>,
    held: Option<SystemProxySnapshotView>,
    replies: Seq<(SyncReplyView<E>, Option<SystemProxySnapshotView>)>,
)
    requires
        answered(sync_start(host, settings), held, replies),
        sync_run(sync_start(host, settings), replies) is Done,
    ensures
        ({
            let end = sync_run(sync_start(host, settings), replies);
            match settings {
                Err(e) => end == SyncStepView::<E>::Done(Err(e)) && replies.len() == 0,
                Ok(settings) => if !settings.system_proxy_enabled {
                    end == SyncStepView::<E>::Done(Ok(()))
                } else if host != HostPlatform::Macos {
                    end == SyncStepView::<E>::Done(Ok(())) && replies.len() == 0
                } else {
                    &&& replies.len() > 0
                    &&& replies[0].0 matches SyncReplyView::MixedPort(port)
                    &&& match port {
                        Err(e) => end == SyncStepView::<E>::Done(Err(e)) && replies.len() == 1,
                        Ok(_) => end == SyncStepView::<E>::Done(Ok(())),
                    }
                },
            }
        }),
{
    let start = sync_start(host, settings);
    if start is Done {
        lemma_done_ends(start, held, replies);
    } else if start is LoadMixedPort {
        let next = sync_resumed(start, replies[0].0).step;
        if next is Done {
            lemma_done_ends(next, replies[0].1, replies.skip(1));
        } else {
            lemma_no_error(next, replies[0].1, replies.skip(1));
        }
    } else {
        lemma_no_error(start, held, replies);
    }
}

proof fn lemma_no_error<E>(
    step: SyncStepView<E>,
    held: Option<SystemProxySnapshotView>,
    replies: Seq<(SyncReplyView<E>, Option<SystemProxySnapshotView>)>,
)
    requires
        step !is LoadMixedPort,
        step is Done ==> step == SyncStepView::<E>::Done(Ok(())),
        answered(step, held, replies),
        sync_run(step, replies) is Done,
    ensures
        sync_run(step, replies) == SyncStepView::<E>::Done(Ok(())),
    decreases replies.len(),
{
    if replies.len() > 0 {
        lemma_no_error(sync_resumed(step, replies[0].0).step, replies[0].1, replies.skip(1));
    }
}

/// A failure to find out, capture or store the original state ends the taking over before any proxy
/// is changed, and the user is warned of just that failure. Other than of a failed taking over the
/// user is not warned.
pub proof fn law_sync_warns<E>(
    step: SyncStepView<E>,
    reply: SyncReplyView<E>,
    before: Option<SystemProxySnapshotView>,
    after: Option<SystemProxySnapshotView>,
)
    requires
        answers(step, reply, before, after),
    ensures
        is_success(reply) ==> sync_resumed(step, reply).warning is None,
        step is LoadForDisable || step is RestoreForDisable || step is RestoreAttempted
            || step is RestoreOriginal || step is Delete || step is LoadMixedPort ==> sync_resumed(
            step,
            reply,
        ).warning is None,
        step is LoadSnapshot || step is Capture || step is SaveCaptured ==> !is_success(reply) ==> {
            let error = match reply {
                SyncReplyView::Loaded(Err(error)) => error,
                SyncReplyView::Captured(Err(error)) => error,
                SyncReplyView::Saved(Err(error)) => error,
                _ => Seq::empty(),
            };
            &&& sync_resumed(step, reply).warning == Some("系统代理原始状态保存失败："@ + error)
            &&& sync_resumed(step, reply).step == SyncStepView::<E>::Done(Ok(()))
        },
{
}

/// A reply that answers another question than the one that was asked changes nothing.
pub proof fn law_sync_ignores_other_replies<E>(step: SyncStepView<E>, reply: SyncReplyView<E>)
    requires
        forall|before: Option<SystemProxySnapshotView>, after: Option<SystemProxySnapshotView>|
            !#[trigger] answers(step, reply, before, after),
    ensures
        sync_resumed(step, reply).step == step,
        sync_resumed(step, reply).warning is None,
{
    let held = match reply {
        SyncReplyView::Loaded(Ok(held)) => held,
        _ => None,
    };
    let stored = match step {
        SyncStepView::SaveCaptured { snapshot, .. } => Some(snapshot),
        SyncStepView::SaveConfirmed { confirmed, .. } => Some(confirmed),
        _ => held,
    };
    assert(!answers(step, reply, held, stored));
}

} // verus!

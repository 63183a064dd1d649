//! The configurations that are shown.

use vstd::prelude::*;
use vstd::utf8::{decode_utf8, valid_utf8};

use crate::config::{loaded_view, ConfigDocument, ConfigView};
use crate::errors::{AppError, AppErrorView, ConfigErrorView};
use crate::services::state::AppServices;
use crate::subscriptions::{
    cache_view, decode_cached_subscription, not_text, SubscriptionSource, SubscriptionSourceView,
};
use crate::utf8::utf8_error_text;

verus! {

/// The first subscription that is switched on.
pub open spec fn first_enabled_source(sources: Seq<SubscriptionSourceView>) -> Option<
    SubscriptionSourceView,
>
    decreases sources.len(),
{
    if sources.len() == 0 {
        None
    } else if sources[0].enabled {
        Some(sources[0])
    } else {
        first_enabled_source(sources.skip(1))
    }
}

/// The first subscription that is switched on.
fn find_enabled_source(sources: &Vec<SubscriptionSource>) -> (r: Option<&SubscriptionSource>)
    ensures
        match r {
            Some(source) => first_enabled_source(sources.deep_view()) == Some(source@),
            None => first_enabled_source(sources.deep_view()) is None,
        },
{
    let ghost whole = sources.deep_view();
    assert(whole.skip(0) == whole);
    for i in 0..sources.len()
        invariant
            whole == sources.deep_view(),
            first_enabled_source(whole) == first_enabled_source(whole.skip(i as int)),
    {
        let ghost rest = whole.skip(i as int);
        assert(rest[0] == sources@[i as int]@);
        if sources[i].enabled {
            return Some(&sources[i]);
        }
        assert(rest.skip(1) == whole.skip(i + 1));
    }
    None
}

/// What the reading of the selected subscription does next.
#[derive(Debug, PartialEq, Eq)]
pub enum SelectStep<R, E> {
    /// It awaits what is cached of the subscription with this id.
    ReadCache { id: String },
    /// It awaits the configuration that this text stands for.
    Parse { text: String },
    /// It is over.
    Done(Result<Option<ConfigDocument<R>>, AppError<E>>),
}

/// What a `SelectStep` holds.
pub enum SelectStepView<R, E> {
    ReadCache { id: Seq<char> },
    Parse { text: Seq<char> },
    Done(Result<Option<ConfigView<R>>, AppErrorView<E>>),
}

impl<R, E> View for SelectStep<R, E> {
    type V = SelectStepView<R, E>;

    open spec fn view(&self) -> SelectStepView<R, E> {
        match self {
            SelectStep::ReadCache { id } => SelectStepView::ReadCache { id: id@ },
            SelectStep::Parse { text } => SelectStepView::Parse { text: text@ },
            SelectStep::Done(Ok(Some(document))) => SelectStepView::Done(Ok(Some(document@))),
            SelectStep::Done(Ok(None)) => SelectStepView::Done(Ok(None)),
            SelectStep::Done(Err(e)) => SelectStepView::Done(Err(e@)),
        }
    }
}

impl<I> AppServices<I> {
    /// Begins to read the selected subscription: the first that is switched on. A subscription that
    /// is switched off is never read in its place.
    pub fn selected_subscription_document<R, E>(
        &self,
        sources: Result<Vec<SubscriptionSource>, E>,
    ) -> (r: SelectStep<R, E>)
        ensures
            r@ == (match sources {
                Err(e) => SelectStepView::<R, E>::Done(Err(AppErrorView::Outside(e))),
                Ok(sources) => match first_enabled_source(sources.deep_view()) {
                    Some(source) => SelectStepView::ReadCache { id: source.id },
                    None => SelectStepView::Done(Ok(None)),
                },
            }),
    {
        match sources {
            Err(e) => SelectStep::Done(Err(AppError::Outside(e))),
            Ok(sources) => match find_enabled_source(&sources) {
                Some(source) => SelectStep::ReadCache { id: source.id.clone() },
                None => SelectStep::Done(Ok(None)),
            },
        }
    }
}

/// Goes on with what is cached of the selected subscription.
pub fn selected_subscription_cache_read<R, E>(cached: Result<Option<Vec<u8>>, E>) -> (r: SelectStep<
    R,
    E,
>)
    ensures
        r@ == (match cache_view(cached) {
            Err(e) => SelectStepView::<R, E>::Done(Err(AppErrorView::Outside(e))),
            Ok(None) => SelectStepView::Done(Ok(None)),
            Ok(Some(bytes)) => if valid_utf8(bytes) {
                SelectStepView::Parse { text: decode_utf8(bytes) }
            } else {
                SelectStepView::Done(Err(AppErrorView::Config(not_text(utf8_error_text(bytes)))))
            },
        }),
{
    match cached {
        Err(e) => SelectStep::Done(Err(AppError::Outside(e))),
        Ok(None) => SelectStep::Done(Ok(None)),
        Ok(Some(bytes)) => match decode_cached_subscription(bytes) {
            Ok(text) => SelectStep::Parse { text },
            Err(e) => SelectStep::Done(Err(AppError::Config(e))),
        },
    }
}

/// Goes on with the configuration of the selected subscription.
pub fn selected_subscription_parsed<R, E>(parsed: Result<ConfigDocument<R>, E>) -> (r: SelectStep<
    R,
    E,
>)
    ensures
        r@ == (match loaded_view(parsed) {
            Ok(document) => SelectStepView::Done(Ok(Some(document))),
            Err(e) => SelectStepView::Done(Err(AppErrorView::Outside(e))),
        }),
{
    match parsed {
        Ok(document) => SelectStep::Done(Ok(Some(document))),
        Err(e) => SelectStep::Done(Err(AppError::Outside(e))),
    }
}

/// A subscription is selected exactly where one is switched on, and it is one that is switched on
/// with none such before it.
pub proof fn law_selected_source(sources: Seq<SubscriptionSourceView>)
    ensures
        match first_enabled_source(sources) {
            Some(source) => exists|i: int|
                0 <= i < sources.len() && #[trigger] sources[i] == source && source.enabled && (
                forall|j: int| 0 <= j < i ==> !(#[trigger] sources[j]).enabled),
            None => forall|j: int| 0 <= j < sources.len() ==> !(#[trigger] sources[j]).enabled,
        },
    decreases sources.len(),
{
    if sources.len() > 0 {
        if sources[0].enabled {
            assert(sources[0] == first_enabled_source(sources)->0);
        } else {
            let rest = sources.skip(1);
            law_selected_source(rest);
            match first_enabled_source(rest) {
                Some(source) => {
                    let i = choose|i: int|
                        0 <= i < rest.len() && #[trigger] rest[i] == source && source.enabled && (
                        forall|j: int| 0 <= j < i ==> !(#[trigger] rest[j]).enabled);
                    assert(sources[i + 1] == source);
                    assert forall|j: int| 0 <= j < i + 1 implies !(#[trigger] sources[j]).enabled by {
                        if j > 0 {
                            assert(rest[j - 1] == sources[j]);
                        }
                    }
                },
                None => {
                    assert forall|j: int| 0 <= j < sources.len() implies !(
                    #[trigger] sources[j]).enabled by {
                        if j > 0 {
                            assert(rest[j - 1] == sources[j]);
                        }
                    }
                },
            }
        }
    }
}

/// Where the configuration that is shown for the core is read from.
#[derive(Clone, Copy, Debug, PartialEq, Eq, Structural)]
pub enum ProfileSource {
    /// The file that the core runs with.
    Runtime,
    /// The user's own configuration.
    User,
}

impl<I> AppServices<I> {
    /// The file that the core runs with is shown where there is one: only that one knows the
    /// members that came from subscriptions.
    pub fn runtime_or_current_profile_document(&self, runtime_file_exists: bool) -> (r:
        ProfileSource)
        ensures
            r == (if runtime_file_exists {
                ProfileSource::Runtime
            } else {
                ProfileSource::User
            }),
    {
        if runtime_file_exists {
            ProfileSource::Runtime
        } else {
            ProfileSource::User
        }
    }
}

/// The subscription that is read is the first one that is switched on. Without any there is nothing
/// to show, and a failure to list them is reported.
pub proof fn law_selected_subscription<I, R, E>(
    services: &AppServices<I>,
    sources: Result<Vec<SubscriptionSource>, E>,
    step: SelectStep<R, E>,
)
    requires
        call_ensures(
            AppServices::<I>::selected_subscription_document::<R, E>,
            (services, sources),
            step,
        ),
    ensures
        match sources {
            Err(e) => step@ == SelectStepView::<R, E>::Done(Err(AppErrorView::Outside(e))),
            Ok(listed) => {
                ||| (step@ matches SelectStepView::ReadCache { id } && exists|i: int|
                    0 <= i < listed@.len() && (#[trigger] listed@[i]).enabled && listed@[i].id@
                        == id && (forall|j: int| 0 <= j < i ==> !(#[trigger] listed@[j]).enabled))
                ||| (step@ == SelectStepView::<R, E>::Done(Ok(None)) && forall|j: int|
                    0 <= j < listed@.len() ==> !(#[trigger] listed@[j]).enabled)
            },
        },
{
    match sources {
        Err(e) => {},
        Ok(listed) => {
            let views = listed.deep_view();
            law_selected_source(views);
            match first_enabled_source(views) {
                Some(source) => {
                    let i = choose|i: int|
                        0 <= i < views.len() && #[trigger] views[i] == source && source.enabled && (
                        forall|j: int| 0 <= j < i ==> !(#[trigger] views[j]).enabled);
                    assert(listed@[i].enabled && listed@[i].id@ == source.id);
                    assert forall|j: int| 0 <= j < i implies !(#[trigger] listed@[j]).enabled by {
                        assert(!views[j].enabled);
                    }
                },
                None => {
                    assert forall|j: int|
                        0 <= j < listed@.len() implies !(#[trigger] listed@[j]).enabled by {
                        assert(!views[j].enabled);
                    }
                },
            }
        },
    }
}

/// What is cached of the selected subscription is read as a configuration where it is a text. Where
/// nothing is cached there is nothing to show. A failure to read it, a cache that is no text and a
/// text that stands for no configuration are reported.
pub proof fn law_selected_document<R, E>(
    cached: Result<Option<Vec<u8>>, E>,
    parsed: Result<ConfigDocument<R>, E>,
    read: SelectStep<R, E>,
    end: SelectStep<R, E>,
)
    requires
        call_ensures(selected_subscription_cache_read::<R, E>, (cached,), read),
        call_ensures(selected_subscription_parsed::<R, E>, (parsed,), end),
    ensures
        match cached {
            Err(e) => read@ == SelectStepView::<R, E>::Done(Err(AppErrorView::Outside(e))),
            Ok(None) => read@ == SelectStepView::<R, E>::Done(Ok(None)),
            Ok(Some(bytes)) => {
                &&& valid_utf8(bytes@) ==> read@ == (SelectStepView::<R, E>::Parse {
                    text: decode_utf8(bytes@),
                })
                &&& !valid_utf8(bytes@) ==> read@ == SelectStepView::<R, E>::Done(
                    Err(
                        AppErrorView::Config(
                            ConfigErrorView::Subscription(
                                "订阅缓存不是有效 UTF-8 YAML: "@ + utf8_error_text(bytes@),
                            ),
                        ),
                    ),
                )
            },
        },
        match parsed {
            Err(e) => end@ == SelectStepView::<R, E>::Done(Err(AppErrorView::Outside(e))),
            Ok(document) => end@ == SelectStepView::<R, E>::Done(Ok(Some(document@))),
        },
{
}

/// The file that the core runs with is shown exactly where there is one.
pub proof fn law_profile_source<I>(
    services: &AppServices<I>,
    runtime_file_exists: bool,
    source: ProfileSource,
)
    requires
        call_ensures(
            AppServices::<I>::runtime_or_current_profile_document,
            (services, runtime_file_exists),
            source,
        ),
    ensures
        source == ProfileSource::Runtime <==> runtime_file_exists,
{
}

} // verus!

//! Building the configuration that the core runs with.

use vstd::prelude::*;

use crate::config::{
    ensure_runtime_dns_defaults, loaded_view, with_runtime_dns, ConfigDocument, ConfigView,
    MihomoConfigDocument,
};
use crate::errors::{AppError, AppErrorView};
use crate::services::launch::built_view;
use crate::services::state::AppServices;
use crate::settings::AppSettings;
use crate::subscriptions::{
    active_name, active_subscription_name, SubscriptionMergeInput, SubscriptionMergeInputView,
};
use crate::text::text_view;

verus! {

/// A build that awaits the subscriptions.
#[derive(Debug, PartialEq, Eq)]
pub struct Draft<R> {
    /// The user's configuration, made fit to run.
    pub document: ConfigDocument<R>,
    /// The script to try out in place of the stored one.
    pub debug_script: Option<String>,
}

/// A build that awaits the merged configuration.
#[derive(Debug, PartialEq, Eq)]
pub struct Merging {
    pub subscription_name: String,
    pub debug_script: Option<String>,
}

/// A build that has the merged configuration, and awaits whether a script has a say in it.
#[derive(Debug, PartialEq, Eq)]
pub struct Merged<R> {
    pub subscription_name: String,
    pub runtime: MihomoConfigDocument<R>,
}

/// What a build does next.
#[derive(Debug, PartialEq, Eq)]
pub enum BuildStep<R, E> {
    /// It awaits the subscriptions that take part.
    Gather(Draft<R>),
    /// It awaits the user's configuration and the subscriptions as one configuration.
    Merge {
        document: MihomoConfigDocument<R>,
        subscriptions: Vec<SubscriptionMergeInput<R>>,
        state: Merging,
    },
    /// It awaits the settings.
    LoadSettings(Merged<R>),
    /// It awaits the stored script.
    LoadScript(Merged<R>),
    /// It awaits what the script makes of the configuration.
    ApplyScript { merged: Merged<R>, script: String },
    /// It is over.
    Done(Result<MihomoConfigDocument<R>, AppError<E>>),
}

/// What a `BuildStep` holds.
pub enum BuildStepView<R, E> {
    Gather { document: ConfigView<R>, debug_script: Option<Seq<char>> },
    Merge {
        document: ConfigView<R>,
        subscriptions: Seq<SubscriptionMergeInputView<R>>,
        subscription_name: Seq<char>,
        debug_script: Option<Seq<char>>,
    },
    LoadSettings { subscription_name: Seq<char>, runtime: ConfigView<R> },
    LoadScript { subscription_name: Seq<char>, runtime: ConfigView<R> },
    ApplyScript { subscription_name: Seq<char>, runtime: ConfigView<R>, script: Seq<char> },
    Done(Result<ConfigView<R>, AppErrorView<E>>),
}

impl<R, E> View for BuildStep<R, E> {
    type V = BuildStepView<R, E>;

    open spec fn view(&self) -> BuildStepView<R, E> {
        match self {
            BuildStep::Gather(state) => BuildStepView::Gather {
                document: state.document@,
                debug_script: state.debug_script.deep_view(),
            },
            BuildStep::Merge { document, subscriptions, state } => BuildStepView::Merge {
                document: document@,
                subscriptions: subscriptions.deep_view(),
                subscription_name: state.subscription_name@,
                debug_script: state.debug_script.deep_view(),
            },
            BuildStep::LoadSettings(state) => BuildStepView::LoadSettings {
                subscription_name: state.subscription_name@,
                runtime: state.runtime@,
            },
            BuildStep::LoadScript(state) => BuildStepView::LoadScript {
                subscription_name: state.subscription_name@,
                runtime: state.runtime@,
            },
            BuildStep::ApplyScript { merged, script } => BuildStepView::ApplyScript {
                subscription_name: merged.subscription_name@,
                runtime: merged.runtime@,
                script: script@,
            },
            BuildStep::Done(Ok(runtime)) => BuildStepView::Done(Ok(runtime@)),
            BuildStep::Done(Err(e)) => BuildStepView::Done(Err(e@)),
        }
    }
}

/// What a gathering of the subscriptions gave.
pub open spec fn gathered_view<R, E>(
    subscriptions: Result<Vec<SubscriptionMergeInput<R>>, AppError<E>>,
) -> Result<Seq<SubscriptionMergeInputView<R>>, AppErrorView<E>> {
    match subscriptions {
        Ok(inputs) => Ok(inputs.deep_view()),
        Err(e) => Err(e@),
    }
}

/// What running a script gave.
pub open spec fn applied_view<R, E>(applied: Result<MihomoConfigDocument<R>, E>) -> Result<
    ConfigView<R>,
    E,
> {
    match applied {
        Ok(runtime) => Ok(runtime@),
        Err(e) => Err(e),
    }
}

/// How a build begins, once the user's configuration was read.
pub open spec fn build_start<R, E>(
    loaded: Result<ConfigView<R>, E>,
    debug_script: Option<Seq<char>>,
) -> BuildStepView<R, E> {
    match loaded {
        Ok(document) => BuildStepView::Gather {
            document: with_runtime_dns(document),
            debug_script,
        },
        Err(e) => BuildStepView::Done(Err(AppErrorView::Outside(e))),
    }
}

/// What a build does with the subscriptions.
pub open spec fn after_gathering<R, E>(
    document: ConfigView<R>,
    debug_script: Option<Seq<char>>,
    subscriptions: Result<Seq<SubscriptionMergeInputView<R>>, AppErrorView<E>>,
) -> BuildStepView<R, E> {
    match subscriptions {
        Ok(inputs) => BuildStepView::Merge {
            document,
            subscriptions: inputs,
            subscription_name: active_name(inputs),
            debug_script,
        },
        Err(e) => BuildStepView::Done(Err(e)),
    }
}

/// What a build does with the merged configuration: a script to be tried out is run at once,
/// whatever the settings are.
pub open spec fn after_merging<R, E>(
    subscription_name: Seq<char>,
    debug_script: Option<Seq<char>>,
    runtime: ConfigView<R>,
) -> BuildStepView<R, E> {
    match debug_script {
        Some(script) => BuildStepView::ApplyScript { subscription_name, runtime, script },
        None => BuildStepView::LoadSettings { subscription_name, runtime },
    }
}

/// What a build does with the settings: where no script has a say, the merged configuration is it.
pub open spec fn after_settings<R, S, E>(
    subscription_name: Seq<char>,
    runtime: ConfigView<R>,
    settings: Result<AppSettings<S>, E>,
) -> BuildStepView<R, E> {
    match settings {
        Ok(settings) => if settings.override_script_enabled {
            BuildStepView::LoadScript { subscription_name, runtime }
        } else {
            BuildStepView::Done(Ok(runtime))
        },
        Err(e) => BuildStepView::Done(Err(AppErrorView::Outside(e))),
    }
}

/// What a build does with the stored script.
pub open spec fn after_script<R, E>(
    subscription_name: Seq<char>,
    runtime: ConfigView<R>,
    script: Result<Seq<char>, E>,
) -> BuildStepView<R, E> {
    match script {
        Ok(script) => BuildStepView::ApplyScript { subscription_name, runtime, script },
        Err(e) => BuildStepView::Done(Err(AppErrorView::Outside(e))),
    }
}

/// What a build does with the script's result.
pub open spec fn after_applying<R, E>(applied: Result<ConfigView<R>, E>) -> BuildStepView<R, E> {
    match applied {
        Ok(runtime) => BuildStepView::Done(Ok(runtime)),
        Err(e) => BuildStepView::Done(Err(AppErrorView::Outside(e))),
    }
}

/// Begins to build the configuration that the core runs with, from the user's own.
pub fn build_effective_runtime_config<R, E>(
    loaded: Result<ConfigDocument<R>, E>,
    debug_script: Option<String>,
) -> (r: BuildStep<R, E>)
    ensures
        r@ == build_start(loaded_view(loaded), debug_script.deep_view()),
{
    match loaded {
        Ok(document) => {
            let mut document = document;
            ensure_runtime_dns_defaults(&mut document);
            BuildStep::Gather(Draft { document, debug_script })
        },
        Err(e) => BuildStep::Done(Err(AppError::Outside(e))),
    }
}

/// What a preview of a script does next, once the configuration was built.
#[derive(Debug, PartialEq, Eq)]
pub enum PreviewStep<R, E> {
    /// It awaits the configuration as a text.
    Render { runtime: MihomoConfigDocument<R> },
    /// It is over.
    Done(Result<String, AppError<E>>),
}

/// What a `PreviewStep` holds.
pub enum PreviewStepView<R, E> {
    Render { runtime: ConfigView<R> },
    Done(Result<Seq<char>, AppErrorView<E>>),
}

impl<R, E> View for PreviewStep<R, E> {
    type V = PreviewStepView<R, E>;

    open spec fn view(&self) -> PreviewStepView<R, E> {
        match self {
            PreviewStep::Render { runtime } => PreviewStepView::Render { runtime: runtime@ },
            PreviewStep::Done(Ok(yaml)) => PreviewStepView::Done(Ok(yaml@)),
            PreviewStep::Done(Err(e)) => PreviewStepView::Done(Err(e@)),
        }
    }
}

/// What a preview does with the configuration.
pub open spec fn preview_of<R, E>(built: Result<ConfigView<R>, AppErrorView<E>>) -> PreviewStepView<
    R,
    E,
> {
    match built {
        Ok(runtime) => PreviewStepView::Render { runtime },
        Err(e) => PreviewStepView::Done(Err(e)),
    }
}

/// What a preview does with the text.
pub open spec fn preview_end<R, E>(rendered: Result<Seq<char>, E>) -> PreviewStepView<R, E> {
    match rendered {
        Ok(yaml) => PreviewStepView::Done(Ok(yaml)),
        Err(e) => PreviewStepView::Done(Err(AppErrorView::Outside(e))),
    }
}

/// Goes on with the configuration that a script leads to.
pub fn preview_built<R, E>(built: Result<MihomoConfigDocument<R>, AppError<E>>) -> (r: PreviewStep<
    R,
    E,
>)
    ensures
        r@ == preview_of(built_view(built)),
{
    match built {
        Ok(runtime) => PreviewStep::Render { runtime },
        Err(e) => PreviewStep::Done(Err(e)),
    }
}

/// Ends a preview with the text of the configuration.
pub fn preview_rendered<R, E>(rendered: Result<String, E>) -> (r: PreviewStep<R, E>)
    ensures
        r@ == preview_end::<R, E>(text_view(rendered)),
{
    match rendered {
        Ok(yaml) => PreviewStep::Done(Ok(yaml)),
        Err(e) => PreviewStep::Done(Err(AppError::Outside(e))),
    }
}

/// Where a preview leads, for configurations that are rendered as `render` has it.
pub open spec fn preview_run<R, E>(
    step: PreviewStepView<R, E>,
    render: spec_fn(ConfigView<R>) -> Result<Seq<char>, E>,
) -> PreviewStepView<R, E> {
    match step {
        PreviewStepView::Render { runtime } => preview_end(render(runtime)),
        PreviewStepView::Done(_) => step,
    }
}

/// A preview ends with the text of the configuration that the script leads to, or with the failure
/// of the build or of the rendering.
pub proof fn law_preview<R, S, E>(
    loaded: Result<ConfigView<R>, E>,
    script: Seq<char>,
    around: Surroundings<R, S, E>,
    render: spec_fn(ConfigView<R>) -> Result<Seq<char>, E>,
)
    ensures
        preview_run(
            preview_of(build_run(build_start(loaded, Some(script)), around)),
            render,
        ) == PreviewStepView::<R, E>::Done(
            match effective_config(loaded, Some(script), around) {
                Err(e) => Err(e),
                Ok(runtime) => match render(runtime) {
                    Ok(yaml) => Ok(yaml),
                    Err(e) => Err(AppErrorView::Outside(e)),
                },
            },
        ),
{
    law_build(loaded, Some(script), around);
}

impl<I> AppServices<I> {
    /// Begins to build the configuration that a script would lead to. The script is tried out
    /// without being stored.
    pub fn preview_override_script<R, E>(
        &self,
        loaded: Result<ConfigDocument<R>, E>,
        script: &str,
    ) -> (r: BuildStep<R, E>)
        ensures
            r@ == build_start(loaded_view(loaded), Some(script@)),
    {
        build_effective_runtime_config(loaded, Some(script.to_owned()))
    }
}

impl<R> Draft<R> {
    /// Goes on with the subscriptions.
    pub fn gathered<E>(
        self,
        subscriptions: Result<Vec<SubscriptionMergeInput<R>>, AppError<E>>,
    ) -> (r: BuildStep<R, E>)
        ensures
            r@ == after_gathering(
                self.document@,
                self.debug_script.deep_view(),
                gathered_view(subscriptions),
            ),
    {
        match subscriptions {
            Ok(subscriptions) => {
                let subscription_name = active_subscription_name(subscriptions.as_slice());
                BuildStep::Merge {
                    document: self.document.typed,
                    subscriptions,
                    state: Merging { subscription_name, debug_script: self.debug_script },
                }
            },
            Err(e) => BuildStep::Done(Err(e)),
        }
    }
}

impl Merging {
    /// Goes on with the merged configuration.
    pub fn merged<R, E>(self, runtime: MihomoConfigDocument<R>) -> (r: BuildStep<R, E>)
        ensures
            r@ == after_merging::<R, E>(
                self.subscription_name@,
                self.debug_script.deep_view(),
                runtime@,
            ),
    {
        let merged = Merged { subscription_name: self.subscription_name, runtime };
        match self.debug_script {
            Some(script) => BuildStep::ApplyScript { merged, script },
            None => BuildStep::LoadSettings(merged),
        }
    }
}

impl<R> Merged<R> {
    /// Goes on with the settings.
    pub fn settings_loaded<S, E>(self, settings: Result<AppSettings<S>, E>) -> (r: BuildStep<R, E>)
        ensures
            r@ == after_settings(self.subscription_name@, self.runtime@, settings),
    {
        match settings {
            Ok(settings) => if settings.override_script_enabled {
                BuildStep::LoadScript(self)
            } else {
                BuildStep::Done(Ok(self.runtime))
            },
            Err(e) => BuildStep::Done(Err(AppError::Outside(e))),
        }
    }

    /// Goes on with the stored script.
    pub fn script_loaded<E>(self, script: Result<String, E>) -> (r: BuildStep<R, E>)
        ensures
            r@ == after_script(self.subscription_name@, self.runtime@, text_view(script)),
    {
        match script {
            Ok(script) => BuildStep::ApplyScript { merged: self, script },
            Err(e) => BuildStep::Done(Err(AppError::Outside(e))),
        }
    }
}

/// Goes on with what the script made of the configuration.
pub fn script_applied<R, E>(applied: Result<MihomoConfigDocument<R>, E>) -> (r: BuildStep<R, E>)
    ensures
        r@ == after_applying(applied_view(applied)),
{
    match applied {
        Ok(runtime) => BuildStep::Done(Ok(runtime)),
        Err(e) => BuildStep::Done(Err(AppError::Outside(e))),
    }
}

/// What a build finds when it asks.
#[verifier::reject_recursive_types(R)]
pub struct Surroundings<R, S, E> {
    /// The subscriptions that take part.
    pub subscriptions: Result<Seq<SubscriptionMergeInputView<R>>, AppErrorView<E>>,
    /// How configurations are merged.
    pub merge: spec_fn(ConfigView<R>, Seq<SubscriptionMergeInputView<R>>) -> ConfigView<R>,
    /// The settings.
    pub settings: Result<AppSettings<S>, E>,
    /// The stored script.
    pub script: Result<Seq<char>, E>,
    /// What a script makes of a configuration.
    pub apply: spec_fn(Seq<char>, ConfigView<R>, Seq<char>) -> Result<ConfigView<R>, E>,
}

/// Where a build leads.
pub open spec fn build_run<R, S, E>(
    step: BuildStepView<R, E>,
    around: Surroundings<R, S, E>,
) -> Result<ConfigView<R>, AppErrorView<E>>
    decreases
            (match step {
                BuildStepView::Gather { .. } => 5int,
                BuildStepView::Merge { .. } => 4,
                BuildStepView::LoadSettings { .. } => 3,
                BuildStepView::LoadScript { .. } => 2,
                BuildStepView::ApplyScript { .. } => 1,
                BuildStepView::Done(_) => 0,
            }),
{
    match step {
        BuildStepView::Gather { document, debug_script } => build_run(
            after_gathering(document, debug_script, around.subscriptions),
            around,
        ),
        BuildStepView::Merge { document, subscriptions, subscription_name, debug_script } =>
            build_run(
            after_merging(subscription_name, debug_script, (around.merge)(document, subscriptions)),
            around,
        ),
        BuildStepView::LoadSettings { subscription_name, runtime } => build_run(
            after_settings(subscription_name, runtime, around.settings),
            around,
        ),
        BuildStepView::LoadScript { subscription_name, runtime } => build_run(
            after_script(subscription_name, runtime, around.script),
            around,
        ),
        BuildStepView::ApplyScript { subscription_name, runtime, script } => build_run(
            after_applying((around.apply)(subscription_name, runtime, script)),
            around,
        ),
        BuildStepView::Done(result) => result,
    }
}

/// The configuration that the core runs with: the user's own with its DNS section filled, merged
/// with the subscriptions, and put through the script that has a say in it.
pub open spec fn effective_config<R, S, E>(
    loaded: Result<ConfigView<R>, E>,
    debug_script: Option<Seq<char>>,
    around: Surroundings<R, S, E>,
) -> Result<ConfigView<R>, AppErrorView<E>> {
    match (loaded, around.subscriptions) {
        (Err(e), _) => Err(AppErrorView::Outside(e)),
        (_, Err(e)) => Err(e),
        (Ok(document), Ok(subscriptions)) => {
            let merged = (around.merge)(with_runtime_dns(document), subscriptions);
            match script_in_force(debug_script, around) {
                Err(e) => Err(AppErrorView::Outside(e)),
                Ok(None) => Ok(merged),
                Ok(Some(script)) => match (around.apply)(
                    active_name(subscriptions),
                    merged,
                    script,
                ) {
                    Ok(runtime) => Ok(runtime),
                    Err(e) => Err(AppErrorView::Outside(e)),
                },
            }
        },
    }
}

/// The script that has a say: the one to be tried out, else the stored one where it is switched on.
pub open spec fn script_in_force<R, S, E>(
    debug_script: Option<Seq<char>>,
    around: Surroundings<R, S, E>,
) -> Result<Option<Seq<char>>, E> {
    match (debug_script, around.settings, around.script) {
        (Some(script), _, _) => Ok(Some(script)),
        (None, Err(e), _) => Err(e),
        (None, Ok(settings), Ok(script)) => Ok(
            if settings.override_script_enabled {
                Some(script)
            } else {
                None
            },
        ),
        (None, Ok(settings), Err(e)) => if settings.override_script_enabled {
            Err(e)
        } else {
            Ok(None)
        },
    }
}

/// A build comes to the configuration that the core runs with.
pub proof fn law_build<R, S, E>(
    loaded: Result<ConfigView<R>, E>,
    debug_script: Option<Seq<char>>,
    around: Surroundings<R, S, E>,
)
    ensures
        build_run(build_start(loaded, debug_script), around) == effective_config(
            loaded,
            debug_script,
            around,
        ),
{
    reveal_with_fuel(build_run, 6);
}

/// A script that is tried out runs whether or not scripts are switched on, and the stored one is
/// left out of it.
pub proof fn law_debug_script_ignores_settings<R, S, E>(
    loaded: Result<ConfigView<R>, E>,
    debug_script: Seq<char>,
    around: Surroundings<R, S, E>,
    settings: Result<AppSettings<S>, E>,
    script: Result<Seq<char>, E>,
)
    ensures
        build_run(build_start(loaded, Some(debug_script)), around) == build_run(
            build_start(loaded, Some(debug_script)),
            (Surroundings { settings, script, ..around }),
        ),
{
    law_build(loaded, Some(debug_script), around);
    law_build(loaded, Some(debug_script), (Surroundings { settings, script, ..around }));
}

/// Where no script has a say, a build comes to the user's configuration with its DNS section filled
/// and merged with just the subscriptions that were gathered. Where one has, it comes to what the
/// script makes of that, under the name of the subscription in use: a script to be tried out, or
/// the stored one where the settings switch it on.
pub proof fn law_build_result<R, S, E>(
    document: ConfigView<R>,
    subscriptions: Seq<SubscriptionMergeInputView<R>>,
    settings: AppSettings<S>,
    stored: Seq<char>,
    debug_script: Seq<char>,
    around: Surroundings<R, S, E>,
)
    requires
        around.subscriptions == Ok::<_, AppErrorView<E>>(subscriptions),
    ensures
        ({
            let merged = (around.merge)(with_runtime_dns(document), subscriptions);
            let name = active_name(subscriptions);
            let run = build_run(build_start(Ok::<_, E>(document), None), around);
            let tried = build_run(build_start(Ok::<_, E>(document), Some(debug_script)), around);
            &&& around.settings == Ok::<_, E>(settings) && !settings.override_script_enabled ==> run
                == Ok::<_, AppErrorView<E>>(merged)
            &&& around.settings == Ok::<_, E>(settings) && settings.override_script_enabled
                && around.script == Ok::<_, E>(stored) ==> match (around.apply)(
                name,
                merged,
                stored,
            ) {
                Ok(runtime) => run == Ok::<_, AppErrorView<E>>(runtime),
                Err(e) => run == Err::<ConfigView<R>, _>(AppErrorView::<E>::Outside(e)),
            }
            &&& match (around.apply)(name, merged, debug_script) {
                Ok(runtime) => tried == Ok::<_, AppErrorView<E>>(runtime),
                Err(e) => tried == Err::<ConfigView<R>, _>(AppErrorView::<E>::Outside(e)),
            }
        }),
{
    reveal_with_fuel(build_run, 6);
}

/// The first thing that cannot be read fails a build with its failure: the user's configuration,
/// the subscriptions, the settings, or the stored script where the settings switch it on.
pub proof fn law_build_failure<R, S, E>(
    loaded: Result<ConfigView<R>, E>,
    debug_script: Option<Seq<char>>,
    around: Surroundings<R, S, E>,
)
    ensures
        ({
            let run = build_run(build_start(loaded, debug_script), around);
            &&& loaded matches Err(e) ==> run == Err::<ConfigView<R>, _>(
                AppErrorView::<E>::Outside(e),
            )
            &&& loaded is Ok ==> (around.subscriptions matches Err(e) ==> run == Err::<
                ConfigView<R>,
                _,
            >(e))
            &&& loaded is Ok && around.subscriptions is Ok && debug_script is None ==> {
                &&& around.settings matches Err(e) ==> run == Err::<ConfigView<R>, _>(
                    AppErrorView::<E>::Outside(e),
                )
                &&& around.settings matches Ok(settings) ==> (around.script matches Err(e)
                    ==> settings.override_script_enabled ==> run == Err::<ConfigView<R>, _>(
                    AppErrorView::<E>::Outside(e),
                ))
            }
        }),
{
    reveal_with_fuel(build_run, 6);
}

/// A preview shows the text of just the configuration that was built, or the failure of the build
/// or of the rendering.
pub proof fn law_preview_text<R, E>(
    built: Result<ConfigView<R>, AppErrorView<E>>,
    render: spec_fn(ConfigView<R>) -> Result<Seq<char>, E>,
)
    ensures
        preview_run(preview_of(built), render) matches PreviewStepView::Done(shown) && match built {
            Err(e) => shown == Err::<Seq<char>, _>(e),
            Ok(runtime) => match render(runtime) {
                Ok(yaml) => shown == Ok::<_, AppErrorView<E>>(yaml),
                Err(e) => shown == Err::<Seq<char>, _>(AppErrorView::<E>::Outside(e)),
            },
        },
{
}

} // verus!

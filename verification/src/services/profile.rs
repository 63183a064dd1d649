//! Storing the user's configuration.

use vstd::prelude::*;

use crate::config::{loaded_view, set_runtime_mode, with_mode, ConfigDocument, ConfigView};
use crate::errors::{AppError, AppErrorView};
use crate::services::launch::{
    config_test_options, resolve_mihomo_binary_for_config_test, test_options, testing_binary,
    MihomoConfigTestOptions, TestOptionsView,
};
use crate::services::state::{AppServices, AppServicesView, RuntimeInfo};
use crate::text::text_view;

verus! {

/// What the storing of a configuration does next.
#[derive(Debug, PartialEq, Eq)]
pub enum SaveStep<R, E> {
    /// It awaits the configuration that the text stands for.
    Parse { source: String, validated: bool },
    /// It awaits the configuration as a text for the core.
    Render { document: ConfigDocument<R> },
    /// It awaits what is found of the core's program.
    Detect { document: ConfigDocument<R>, yaml: String },
    /// It awaits what the core's program says to the text.
    Test { document: ConfigDocument<R>, yaml: String, options: MihomoConfigTestOptions },
    /// It awaits that the configuration is stored.
    Save { document: ConfigDocument<R> },
    /// It awaits the stored configuration, to show it.
    Reload,
    /// It is over.
    Done(Result<(), AppError<E>>),
}

/// What a `SaveStep` holds.
pub enum SaveStepView<R, E> {
    Parse { source: Seq<char>, validated: bool },
    Render { document: ConfigView<R> },
    Detect { document: ConfigView<R>, yaml: Seq<char> },
    Test { document: ConfigView<R>, yaml: Seq<char>, options: TestOptionsView },
    Save { document: ConfigView<R> },
    Reload,
    Done(Result<(), AppErrorView<E>>),
}

impl<R, E> View for SaveStep<R, E> {
    type V = SaveStepView<R, E>;

    open spec fn view(&self) -> SaveStepView<R, E> {
        match self {
            SaveStep::Parse { source, validated } => SaveStepView::Parse {
                source: source@,
                validated: *validated,
            },
            SaveStep::Render { document } => SaveStepView::Render { document: document@ },
            SaveStep::Detect { document, yaml } => SaveStepView::Detect {
                document: document@,
                yaml: yaml@,
            },
            SaveStep::Test { document, yaml, options } => SaveStepView::Test {
                document: document@,
                yaml: yaml@,
                options: options@,
            },
            SaveStep::Save { document } => SaveStepView::Save { document: document@ },
            SaveStep::Reload => SaveStepView::Reload,
            SaveStep::Done(Ok(())) => SaveStepView::Done(Ok(())),
            SaveStep::Done(Err(e)) => SaveStepView::Done(Err(e@)),
        }
    }
}

/// What came of the step.
#[derive(Debug, PartialEq, Eq)]
pub enum SaveReply<R, I, E> {
    Parsed(Result<ConfigDocument<R>, E>),
    Rendered(Result<String, E>),
    Detected(Result<RuntimeInfo<I>, E>),
    Tested(Result<(), E>),
    Saved(Result<(), E>),
    Reloaded(Option<ConfigDocument<R>>),
}

/// What a `SaveReply` holds.
pub enum SaveReplyView<R, I, E> {
    Parsed(Result<ConfigView<R>, E>),
    Rendered(Result<Seq<char>, E>),
    Detected(Result<RuntimeInfo<I>, E>),
    Tested(Result<(), E>),
    Saved(Result<(), E>),
    Reloaded(Option<ConfigView<R>>),
}

impl<R, I, E> View for SaveReply<R, I, E> {
    type V = SaveReplyView<R, I, E>;

    open spec fn view(&self) -> SaveReplyView<R, I, E> {
        match self {
            SaveReply::Parsed(parsed) => SaveReplyView::Parsed(loaded_view(*parsed)),
            SaveReply::Rendered(yaml) => SaveReplyView::Rendered(text_view(*yaml)),
            SaveReply::Detected(detected) => SaveReplyView::Detected(*detected),
            SaveReply::Tested(tested) => SaveReplyView::Tested(*tested),
            SaveReply::Saved(saved) => SaveReplyView::Saved(*saved),
            SaveReply::Reloaded(Some(document)) => SaveReplyView::Reloaded(Some(document@)),
            SaveReply::Reloaded(None) => SaveReplyView::Reloaded(None),
        }
    }
}

/// A configuration that is at hand is put to the core's program first, or stored at once.
pub open spec fn save_parsed<R, E>(document: ConfigView<R>, validated: bool) -> SaveStepView<R, E> {
    if validated {
        SaveStepView::Render { document }
    } else {
        SaveStepView::Save { document }
    }
}

/// The end with a failure from outside.
pub open spec fn save_failed<R, E>(e: E) -> SaveStepView<R, E> {
    SaveStepView::Done(Err(AppErrorView::Outside(e)))
}

/// What a storing does with the reply to its step, and what is shown then. Nothing new is shown
/// before the configuration is stored. A reply to another question changes nothing.
pub open spec fn save_resumed<R, I, E>(
    services: AppServicesView<I>,
    step: SaveStepView<R, E>,
    reply: SaveReplyView<R, I, E>,
) -> (AppServicesView<I>, SaveStepView<R, E>) {
    match (step, reply) {
        (SaveStepView::Parse { validated, .. }, SaveReplyView::Parsed(parsed)) => (
            services,
            match parsed {
                Ok(document) => save_parsed(document, validated),
                Err(e) => save_failed(e),
            },
        ),
        (SaveStepView::Render { document }, SaveReplyView::Rendered(rendered)) => (
            services,
            match rendered {
                Ok(yaml) => SaveStepView::Detect { document, yaml },
                Err(e) => save_failed(e),
            },
        ),
        (SaveStepView::Detect { document, yaml }, SaveReplyView::Detected(detected)) => (
            services,
            match detected {
                Ok(found) => match testing_binary(found) {
                    Ok(binary_path) => SaveStepView::Test {
                        document,
                        yaml,
                        options: test_options(services.paths, binary_path),
                    },
                    Err(e) => SaveStepView::Done(Err(AppErrorView::Process(e))),
                },
                Err(e) => save_failed(e),
            },
        ),
        (SaveStepView::Test { document, .. }, SaveReplyView::Tested(tested)) => (
            services,
            match tested {
                Ok(()) => SaveStepView::Save { document },
                Err(e) => save_failed(e),
            },
        ),
        (SaveStepView::Save { .. }, SaveReplyView::Saved(saved)) => (
            services,
            match saved {
                Ok(()) => SaveStepView::Reload,
                Err(e) => save_failed(e),
            },
        ),
        (SaveStepView::Reload, SaveReplyView::Reloaded(config)) => (
            services.with_core_config(config),
            SaveStepView::Done(Ok(())),
        ),
        _ => (services, step),
    }
}

impl<I> AppServices<I> {
    /// Begins to store the configuration of a file that was read.
    pub fn import_profile_file<R, E>(&self, read: Result<String, E>) -> (r: SaveStep<R, E>)
        ensures
            r@ == (match text_view(read) {
                Ok(source) => SaveStepView::Parse { source, validated: false },
                Err(e) => save_failed::<R, E>(e),
            }),
    {
        match read {
            Ok(source) => SaveStep::Parse { source, validated: false },
            Err(e) => SaveStep::Done(Err(AppError::Outside(e))),
        }
    }

    /// Begins to test and store the configuration of a file that was read.
    pub fn import_profile_file_validated<R, E>(&self, read: Result<String, E>) -> (r: SaveStep<
        R,
        E,
    >)
        ensures
            r@ == (match text_view(read) {
                Ok(source) => SaveStepView::Parse { source, validated: true },
                Err(e) => save_failed::<R, E>(e),
            }),
    {
        match read {
            Ok(source) => SaveStep::Parse { source, validated: true },
            Err(e) => SaveStep::Done(Err(AppError::Outside(e))),
        }
    }

    /// Begins to store the configuration that the text stands for.
    pub fn save_current_config<R, E>(&self, source: &str) -> (r: SaveStep<R, E>)
        ensures
            r@ == (SaveStepView::<R, E>::Parse { source: source@, validated: false }),
    {
        SaveStep::Parse { source: source.to_owned(), validated: false }
    }

    /// Begins to test and store the configuration that the text stands for.
    pub fn save_current_config_validated<R, E>(&self, source: &str) -> (r: SaveStep<R, E>)
        ensures
            r@ == (SaveStepView::<R, E>::Parse { source: source@, validated: true }),
    {
        SaveStep::Parse { source: source.to_owned(), validated: true }
    }

    /// Begins to store the user's configuration in another mode.
    pub fn save_runtime_mode<R, E>(&self, loaded: Result<ConfigDocument<R>, E>, mode: &str) -> (r:
        SaveStep<R, E>)
        ensures
            r@ == (match loaded_view(loaded) {
                Ok(document) => save_parsed(with_mode(document, mode@), false),
                Err(e) => save_failed::<R, E>(e),
            }),
    {
        match loaded {
            Ok(document) => {
                let mut document = document;
                set_runtime_mode(&mut document, mode);
                SaveStep::Save { document }
            },
            Err(e) => SaveStep::Done(Err(AppError::Outside(e))),
        }
    }

    /// Begins to test and store the user's configuration in another mode.
    pub fn save_runtime_mode_validated<R, E>(
        &self,
        loaded: Result<ConfigDocument<R>, E>,
        mode: &str,
    ) -> (r: SaveStep<R, E>)
        ensures
            r@ == (match loaded_view(loaded) {
                Ok(document) => save_parsed(with_mode(document, mode@), true),
                Err(e) => save_failed::<R, E>(e),
            }),
    {
        match loaded {
            Ok(document) => {
                let mut document = document;
                set_runtime_mode(&mut document, mode);
                SaveStep::Render { document }
            },
            Err(e) => SaveStep::Done(Err(AppError::Outside(e))),
        }
    }

    /// Goes on with the reply to the step.
    pub fn resume_save<R, E>(&mut self, step: SaveStep<R, E>, reply: SaveReply<R, I, E>) -> (r:
        SaveStep<R, E>)
        ensures
            (final(self)@, r@) == save_resumed(old(self)@, step@, reply@),
    {
        match (step, reply) {
            (SaveStep::Parse { validated, .. }, SaveReply::Parsed(parsed)) => match parsed {
                Ok(document) => if validated {
                    SaveStep::Render { document }
                } else {
                    SaveStep::Save { document }
                },
                Err(e) => SaveStep::Done(Err(AppError::Outside(e))),
            },
            (SaveStep::Render { document }, SaveReply::Rendered(rendered)) => match rendered {
                Ok(yaml) => SaveStep::Detect { document, yaml },
                Err(e) => SaveStep::Done(Err(AppError::Outside(e))),
            },
            (SaveStep::Detect { document, yaml }, SaveReply::Detected(detected)) => match detected {
                Ok(found) => match resolve_mihomo_binary_for_config_test(found) {
                    Ok(binary_path) => SaveStep::Test {
                        document,
                        yaml,
                        options: config_test_options(&self.paths, binary_path),
                    },
                    Err(e) => SaveStep::Done(Err(AppError::Process(e))),
                },
                Err(e) => SaveStep::Done(Err(AppError::Outside(e))),
            },
            (SaveStep::Test { document, .. }, SaveReply::Tested(tested)) => match tested {
                Ok(()) => SaveStep::Save { document },
                Err(e) => SaveStep::Done(Err(AppError::Outside(e))),
            },
            (SaveStep::Save { .. }, SaveReply::Saved(saved)) => match saved {
                Ok(()) => SaveStep::Reload,
                Err(e) => SaveStep::Done(Err(AppError::Outside(e))),
            },
            (SaveStep::Reload, SaveReply::Reloaded(config)) => {
                self.apply_core_config_projection(config.as_ref());
                SaveStep::Done(Ok(()))
            },
            (step, _) => step,
        }
    }
}

/// What a storing finds when it asks.
#[verifier::reject_recursive_types(R)]
pub struct SaveSurroundings<R, I, E> {
    /// The configuration that a text stands for.
    pub parse: spec_fn(Seq<char>) -> Result<ConfigView<R>, E>,
    /// A configuration as a text for the core.
    pub render: spec_fn(ConfigView<R>) -> Result<Seq<char>, E>,
    /// What is found of the core's program.
    pub detected: Result<RuntimeInfo<I>, E>,
    /// What the core's program says to a text.
    pub test: spec_fn(TestOptionsView, Seq<char>) -> Result<(), E>,
    /// Whether a configuration can be stored.
    pub save: spec_fn(ConfigView<R>) -> Result<(), E>,
    /// The stored configuration afterwards.
    pub reloaded: Option<ConfigView<R>>,
}

/// What a step asks for.
pub open spec fn save_reply<R, I, E>(
    step: SaveStepView<R, E>,
    around: SaveSurroundings<R, I, E>,
) -> SaveReplyView<R, I, E> {
    match step {
        SaveStepView::Parse { source, .. } => SaveReplyView::Parsed((around.parse)(source)),
        SaveStepView::Render { document } => SaveReplyView::Rendered((around.render)(document)),
        SaveStepView::Detect { .. } => SaveReplyView::Detected(around.detected),
        SaveStepView::Test { options, yaml, .. } => SaveReplyView::Tested(
            (around.test)(options, yaml),
        ),
        SaveStepView::Save { document } => SaveReplyView::Saved((around.save)(document)),
        _ => SaveReplyView::Reloaded(around.reloaded),
    }
}

/// How much of a storing can still come.
pub open spec fn save_length<R, E>(step: SaveStepView<R, E>) -> nat {
    match step {
        SaveStepView::Parse { .. } => 6,
        SaveStepView::Render { .. } => 5,
        SaveStepView::Detect { .. } => 4,
        SaveStepView::Test { .. } => 3,
        SaveStepView::Save { .. } => 2,
        SaveStepView::Reload => 1,
        SaveStepView::Done(_) => 0,
    }
}

/// Where a storing leads, and what is shown in the end.
pub open spec fn save_run<R, I, E>(
    services: AppServicesView<I>,
    step: SaveStepView<R, E>,
    around: SaveSurroundings<R, I, E>,
) -> (AppServicesView<I>, Result<(), AppErrorView<E>>)
    decreases save_length(step),
{
    match step {
        SaveStepView::Done(result) => (services, result),
        _ => {
            let (after, next) = save_resumed(services, step, save_reply(step, around));
            save_run(after, next, around)
        },
    }
}

/// Whether the core's program passes a configuration.
pub open spec fn passes<R, I, E>(
    services: AppServicesView<I>,
    document: ConfigView<R>,
    around: SaveSurroundings<R, I, E>,
) -> Result<(), AppErrorView<E>> {
    match (around.render)(document) {
        Err(e) => Err(AppErrorView::Outside(e)),
        Ok(yaml) => match around.detected {
            Err(e) => Err(AppErrorView::Outside(e)),
            Ok(found) => match testing_binary(found) {
                Err(e) => Err(AppErrorView::Process(e)),
                Ok(binary_path) => match (around.test)(
                    test_options(services.paths, binary_path),
                    yaml,
                ) {
                    Err(e) => Err(AppErrorView::Outside(e)),
                    Ok(()) => Ok(()),
                },
            },
        },
    }
}

/// A configuration is stored only if it passes, where it is to be tested, and is shown only if it
/// was stored. The first failure is reported and leaves what is shown as it was.
pub proof fn law_save<R, I, E>(
    services: AppServicesView<I>,
    document: ConfigView<R>,
    validated: bool,
    around: SaveSurroundings<R, I, E>,
)
    ensures
        save_run(services, save_parsed::<R, E>(document, validated), around) == (if validated
            && passes(services, document, around) is Err {
            (services, passes(services, document, around))
        } else {
            match (around.save)(document) {
                Err(e) => (services, Err(AppErrorView::Outside(e))),
                Ok(()) => (services.with_core_config(around.reloaded), Ok(())),
            }
        }),
{
    reveal_with_fuel(save_run, 6);
}

/// A text that stands for no configuration is not stored, and nothing new is shown.
pub proof fn law_save_of_text<R, I, E>(
    services: AppServicesView<I>,
    source: Seq<char>,
    validated: bool,
    around: SaveSurroundings<R, I, E>,
)
    ensures
        save_run(services, SaveStepView::<R, E>::Parse { source, validated }, around) == (match (
        around.parse)(source) {
            Err(e) => (services, Err(AppErrorView::Outside(e))),
            Ok(document) => save_run(services, save_parsed::<R, E>(document, validated), around),
        }),
{
    reveal_with_fuel(save_run, 3);
}

/// A storing that is to be tested comes to store only from a test that was passed, and only the
/// configuration that was tested.
pub proof fn law_saved_only_when_tested<R, I, E>(
    services: AppServicesView<I>,
    step: SaveStepView<R, E>,
    reply: SaveReplyView<R, I, E>,
)
    requires
        step !is Save,
        save_resumed(services, step, reply).1 is Save,
    ensures
        match step {
            SaveStepView::Parse { validated, .. } => !validated,
            SaveStepView::Test { document, .. } => {
                &&& reply matches SaveReplyView::Tested(Ok(_))
                &&& save_resumed(services, step, reply).1 == (SaveStepView::<R, E>::Save {
                    document,
                })
            },
            _ => false,
        },
{
}

/// Without a test, a configuration is stored at once, and its storing decides. With a test, the
/// text of just that configuration is put to the program that was found, and the configuration is
/// stored only if the program passes it. The first failure is the outcome and leaves what is shown
/// as it was; once stored, the configuration that is read again is shown as the one in use.
pub proof fn law_save_outcome<R, I, E>(
    services: AppServicesView<I>,
    document: ConfigView<R>,
    around: SaveSurroundings<R, I, E>,
)
    ensures
        ({
            let plain = save_run(services, save_parsed::<R, E>(document, false), around);
            let tested = save_run(services, save_parsed::<R, E>(document, true), around);
            &&& match (around.save)(document) {
                Ok(_) => plain.1 is Ok && plain.0 == services.with_core_config(around.reloaded),
                Err(e) => plain == (services, Err::<(), _>(AppErrorView::<E>::Outside(e))),
            }
            &&& match ((around.render)(document), around.detected) {
                (Err(e), _) => tested == (services, Err::<(), _>(AppErrorView::<E>::Outside(e))),
                (Ok(_), Err(e)) => tested == (
                    services,
                    Err::<(), _>(AppErrorView::<E>::Outside(e)),
                ),
                (Ok(yaml), Ok(found)) => match testing_binary(found) {
                    Err(e) => tested == (services, Err::<(), _>(AppErrorView::<E>::Process(e))),
                    Ok(path) => match (around.test)(test_options(services.paths, path), yaml) {
                        Err(e) => tested == (
                            services,
                            Err::<(), _>(AppErrorView::<E>::Outside(e)),
                        ),
                        Ok(_) => tested == plain,
                    },
                },
            }
        }),
{
    reveal_with_fuel(save_run, 6);
}

/// A text that stands for a configuration is stored as that configuration is, tested or not, and
/// one that stands for none fails with its failure and leaves what is shown as it was.
pub proof fn law_save_of_source<R, I, E>(
    services: AppServicesView<I>,
    source: Seq<char>,
    validated: bool,
    around: SaveSurroundings<R, I, E>,
)
    ensures
        ({
            let run = save_run(
                services,
                SaveStepView::<R, E>::Parse { source, validated },
                around,
            );
            match (around.parse)(source) {
                Err(e) => run == (services, Err::<(), _>(AppErrorView::<E>::Outside(e))),
                Ok(document) => if validated {
                    run == save_run(services, SaveStepView::<R, E>::Render { document }, around)
                } else {
                    run == save_run(services, SaveStepView::<R, E>::Save { document }, around)
                },
            }
        }),
{
    reveal_with_fuel(save_run, 3);
}

/// A storing that has nothing to store ends at once with the failure that it was given.
pub proof fn law_save_of_nothing<R, I, E>(
    services: AppServicesView<I>,
    error: E,
    around: SaveSurroundings<R, I, E>,
)
    ensures
        save_run(services, save_failed::<R, E>(error), around) == (
            services,
            Err::<(), _>(AppErrorView::<E>::Outside(error)),
        ),
{
}

/// A switch of the mode comes to store, with a test or without, the configuration that was read
/// with the mode that was asked for, and with every other part as it was. A configuration that
/// could not be read is reported.
pub proof fn law_runtime_mode_is_stored<I, R, E>(
    services: &AppServices<I>,
    loaded: Result<ConfigDocument<R>, E>,
    mode: &str,
    plain: SaveStep<R, E>,
    tested: SaveStep<R, E>,
)
    requires
        call_ensures(AppServices::<I>::save_runtime_mode::<R, E>, (services, loaded, mode), plain),
        call_ensures(
            AppServices::<I>::save_runtime_mode_validated::<R, E>,
            (services, loaded, mode),
            tested,
        ),
    ensures
        match loaded {
            Err(e) => {
                &&& plain@ == SaveStepView::<R, E>::Done(Err(AppErrorView::Outside(e)))
                &&& tested@ == SaveStepView::<R, E>::Done(Err(AppErrorView::Outside(e)))
            },
            Ok(before) => {
                &&& plain@ matches SaveStepView::Save { document }
                &&& tested@ == (SaveStepView::<R, E>::Render { document })
                &&& document.global.mode == Some(mode@)
                &&& document.global.mixed_port == before@.global.mixed_port
                &&& document.global.external_controller == before@.global.external_controller
                &&& document.global.secret == before@.global.secret
                &&& document.tun == before@.tun
                &&& document.dns == before@.dns
                &&& document.rest == before@.rest
            },
        },
{
}

/// A file or a text that is to be stored is first read as a configuration, and is tested exactly
/// where that was asked for. A file that could not be read is reported.
pub proof fn law_save_begins<I, R, E>(
    services: &AppServices<I>,
    read: Result<String, E>,
    source: &str,
    imported: SaveStep<R, E>,
    imported_tested: SaveStep<R, E>,
    saved: SaveStep<R, E>,
    saved_tested: SaveStep<R, E>,
)
    requires
        call_ensures(AppServices::<I>::import_profile_file::<R, E>, (services, read), imported),
        call_ensures(
            AppServices::<I>::import_profile_file_validated::<R, E>,
            (services, read),
            imported_tested,
        ),
        call_ensures(AppServices::<I>::save_current_config::<R, E>, (services, source), saved),
        call_ensures(
            AppServices::<I>::save_current_config_validated::<R, E>,
            (services, source),
            saved_tested,
        ),
    ensures
        saved@ == (SaveStepView::<R, E>::Parse { source: source@, validated: false }),
        saved_tested@ == (SaveStepView::<R, E>::Parse { source: source@, validated: true }),
        match read {
            Ok(text) => {
                &&& imported@ == (SaveStepView::<R, E>::Parse { source: text@, validated: false })
                &&& imported_tested@ == (SaveStepView::<R, E>::Parse {
                    source: text@,
                    validated: true,
                })
            },
            Err(e) => {
                &&& imported@ == SaveStepView::<R, E>::Done(Err(AppErrorView::Outside(e)))
                &&& imported_tested@ == SaveStepView::<R, E>::Done(Err(AppErrorView::Outside(e)))
            },
        },
{
}

/// A reply to another question than the one that was asked changes nothing, and nothing follows the
/// end. Before the stored configuration was read again nothing new is shown.
pub proof fn law_save_ignores_other_replies<R, I, E>(
    services: AppServicesView<I>,
    step: SaveStepView<R, E>,
    reply: SaveReplyView<R, I, E>,
)
    ensures
        !(step is Parse && reply is Parsed) && !(step is Render && reply is Rendered) && !(step
            is Detect && reply is Detected) && !(step is Test && reply is Tested) && !(step is Save
            && reply is Saved) && !(step is Reload && reply is Reloaded) ==> save_resumed(
            services,
            step,
            reply,
        ) == (services, step),
        step !is Reload ==> save_resumed(services, step, reply).0 == services,
{
}

} // verus!

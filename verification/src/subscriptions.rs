//! The subscriptions that take part in the core's configuration.

use vstd::prelude::*;
use vstd::string::*;
use vstd::utf8::{decode_utf8, valid_utf8};

use crate::config::{loaded_view, ConfigDocument, ConfigView, MihomoConfigDocument};
use crate::errors::{AppError, AppErrorView, ConfigError, ConfigErrorView};
use crate::text::{trim, trimmed};
use crate::utf8::{text_from_utf8, utf8_error_text};

verus! {

/// A subscription as it is stored.
#[derive(Debug, PartialEq, Eq)]
pub struct SubscriptionSource {
    pub id: String,
    pub name: String,
    pub enabled: bool,
}

/// What a `SubscriptionSource` holds.
pub struct SubscriptionSourceView {
    pub id: Seq<char>,
    pub name: Seq<char>,
    pub enabled: bool,
}

impl View for SubscriptionSource {
    type V = SubscriptionSourceView;

    open spec fn view(&self) -> SubscriptionSourceView {
        SubscriptionSourceView { id: self.id@, name: self.name@, enabled: self.enabled }
    }
}

impl DeepView for SubscriptionSource {
    type V = SubscriptionSourceView;

    open spec fn deep_view(&self) -> SubscriptionSourceView {
        self@
    }
}

/// A subscription that takes part in the core's configuration.
#[derive(Debug, PartialEq, Eq)]
pub struct SubscriptionMergeInput<R> {
    pub id: String,
    pub display_name: String,
    pub enabled: bool,
    pub document: MihomoConfigDocument<R>,
}

/// What a `SubscriptionMergeInput` holds.
pub struct SubscriptionMergeInputView<R> {
    pub id: Seq<char>,
    pub display_name: Seq<char>,
    pub enabled: bool,
    pub document: ConfigView<R>,
}

impl<R> View for SubscriptionMergeInput<R> {
    type V = SubscriptionMergeInputView<R>;

    open spec fn view(&self) -> SubscriptionMergeInputView<R> {
        SubscriptionMergeInputView {
            id: self.id@,
            display_name: self.display_name@,
            enabled: self.enabled,
            document: self.document@,
        }
    }
}

impl<R> DeepView for SubscriptionMergeInput<R> {
    type V = SubscriptionMergeInputView<R>;

    open spec fn deep_view(&self) -> SubscriptionMergeInputView<R> {
        self@
    }
}

/// The first subscription that is switched on.
pub open spec fn first_enabled_input<R>(inputs: Seq<SubscriptionMergeInputView<R>>) -> Option<
    SubscriptionMergeInputView<R>,
>
    decreases inputs.len(),
{
    if inputs.len() == 0 {
        None
    } else if inputs[0].enabled {
        Some(inputs[0])
    } else {
        first_enabled_input(inputs.skip(1))
    }
}

/// The name under which a configuration is handed to the override script: that of the first
/// subscription that is switched on, without white space around it. Where there is none, or its
/// name is blank, the configuration counts as the local one.
pub open spec fn active_name<R>(inputs: Seq<SubscriptionMergeInputView<R>>) -> Seq<char> {
    match first_enabled_input(inputs) {
        Some(input) => if trimmed(input.display_name).len() > 0 {
            trimmed(input.display_name)
        } else {
            "本地配置"@
        },
        None => "本地配置"@,
    }
}

/// The name under which a configuration is handed to the override script.
pub fn active_subscription_name<R>(subscriptions: &[SubscriptionMergeInput<R>]) -> (r: String)
    ensures
        r@ == active_name(subscriptions.deep_view()),
{
    let ghost whole = subscriptions.deep_view();
    assert(whole.skip(0) == whole);
    for i in 0..subscriptions.len()
        invariant
            whole == subscriptions.deep_view(),
            first_enabled_input(whole) == first_enabled_input(whole.skip(i as int)),
    {
        let ghost rest = whole.skip(i as int);
        assert(rest[0] == subscriptions@[i as int]@);
        if subscriptions[i].enabled {
            let name = trim(subscriptions[i].display_name.as_str());
            if name.unicode_len() > 0 {
                return name.to_owned();
            }
            return "本地配置".to_owned();
        }
        assert(rest.skip(1) == whole.skip(i + 1));
    }
    "本地配置".to_owned()
}

/// The complaint about a cached subscription that is no text, given what is wrong with it.
pub open spec fn not_text(message: Seq<char>) -> ConfigErrorView {
    ConfigErrorView::Subscription("订阅缓存不是有效 UTF-8 YAML: "@ + message)
}

/// The text of a decoded subscription, or the complaint about it.
pub fn subscription_text(decoded: Result<String, String>) -> (r: Result<String, ConfigError>)
    ensures
        match (decoded, r) {
            (Ok(text), Ok(kept)) => kept@ == text@,
            (Err(message), Err(e)) => e@ == not_text(message@),
            _ => false,
        },
{
    match decoded {
        Ok(text) => Ok(text),
        Err(message) => {
            let mut complaint = "订阅缓存不是有效 UTF-8 YAML: ".to_owned();
            complaint.append(message.as_str());
            Err(ConfigError::Subscription(complaint))
        },
    }
}

/// The text of a cached subscription.
pub fn decode_cached_subscription(bytes: Vec<u8>) -> (r: Result<String, ConfigError>)
    ensures
        match r {
            Ok(text) => valid_utf8(bytes@) && text@ == decode_utf8(bytes@),
            Err(e) => !valid_utf8(bytes@) && e@ == not_text(utf8_error_text(bytes@)),
        },
{
    subscription_text(text_from_utf8(bytes))
}

/// What the store has of a subscription.
pub open spec fn cache_view<E>(cached: Result<Option<Vec<u8>>, E>) -> Result<Option<Seq<u8>>, E> {
    match cached {
        Ok(Some(bytes)) => Ok(Some(bytes@)),
        Ok(None) => Ok(None),
        Err(e) => Err(e),
    }
}

/// A gathering of the subscriptions while one of them is awaited.
#[derive(Debug, PartialEq, Eq)]
pub struct Gathering<R> {
    /// The subscription in question.
    pub source: SubscriptionSource,
    /// Those that come after it.
    pub remaining: Vec<SubscriptionSource>,
    /// What was gathered before it.
    pub inputs: Vec<SubscriptionMergeInput<R>>,
}

/// What a `Gathering` holds.
pub struct GatheringView<R> {
    pub source: SubscriptionSourceView,
    pub remaining: Seq<SubscriptionSourceView>,
    pub inputs: Seq<SubscriptionMergeInputView<R>>,
}

impl<R> View for Gathering<R> {
    type V = GatheringView<R>;

    open spec fn view(&self) -> GatheringView<R> {
        GatheringView {
            source: self.source@,
            remaining: self.remaining.deep_view(),
            inputs: self.inputs.deep_view(),
        }
    }
}

/// What a gathering does next.
#[derive(Debug, PartialEq, Eq)]
pub enum GatherStep<R, E> {
    /// It awaits what is cached of the subscription.
    ReadCache(Gathering<R>),
    /// It awaits the configuration that this text of the subscription stands for.
    Parse { text: String, state: Gathering<R> },
    /// It is over.
    Done(Result<Vec<SubscriptionMergeInput<R>>, AppError<E>>),
}

/// What a `GatherStep` holds.
pub enum GatherStepView<R, E> {
    ReadCache(GatheringView<R>),
    Parse { text: Seq<char>, state: GatheringView<R> },
    Done(Result<Seq<SubscriptionMergeInputView<R>>, AppErrorView<E>>),
}

impl<R, E> View for GatherStep<R, E> {
    type V = GatherStepView<R, E>;

    open spec fn view(&self) -> GatherStepView<R, E> {
        match self {
            GatherStep::ReadCache(state) => GatherStepView::ReadCache(state@),
            GatherStep::Parse { text, state } => GatherStepView::Parse {
                text: text@,
                state: state@,
            },
            GatherStep::Done(Ok(inputs)) => GatherStepView::Done(Ok(inputs.deep_view())),
            GatherStep::Done(Err(e)) => GatherStepView::Done(Err(e@)),
        }
    }
}

/// The next subscription that is switched on, or the end where none is left.
pub open spec fn next_source<R, E>(
    remaining: Seq<SubscriptionSourceView>,
    inputs: Seq<SubscriptionMergeInputView<R>>,
) -> GatherStepView<R, E>
    decreases remaining.len(),
{
    if remaining.len() == 0 {
        GatherStepView::Done(Ok(inputs))
    } else if remaining[0].enabled {
        GatherStepView::ReadCache(
            GatheringView { source: remaining[0], remaining: remaining.skip(1), inputs },
        )
    } else {
        next_source(remaining.skip(1), inputs)
    }
}

/// What a gathering does with the cache of a subscription: one without any is passed over.
pub open spec fn after_cache<R, E>(
    state: GatheringView<R>,
    cached: Result<Option<Seq<u8>>, E>,
) -> GatherStepView<R, E> {
    match cached {
        Err(e) => GatherStepView::Done(Err(AppErrorView::Outside(e))),
        Ok(None) => next_source(state.remaining, state.inputs),
        Ok(Some(bytes)) => if valid_utf8(bytes) {
            GatherStepView::Parse { text: decode_utf8(bytes), state }
        } else {
            GatherStepView::Done(Err(AppErrorView::Config(not_text(utf8_error_text(bytes)))))
        },
    }
}

/// A subscription with its configuration.
pub open spec fn merge_input<R>(
    source: SubscriptionSourceView,
    document: ConfigView<R>,
) -> SubscriptionMergeInputView<R> {
    SubscriptionMergeInputView {
        id: source.id,
        display_name: source.name,
        enabled: true,
        document,
    }
}

/// What a gathering does with the configuration of a subscription.
pub open spec fn after_parse<R, E>(
    state: GatheringView<R>,
    parsed: Result<ConfigView<R>, E>,
) -> GatherStepView<R, E> {
    match parsed {
        Err(e) => GatherStepView::Done(Err(AppErrorView::Outside(e))),
        Ok(document) => next_source(
            state.remaining,
            state.inputs.push(merge_input(state.source, document)),
        ),
    }
}

#[verifier::loop_isolation(false)]
fn take_next_source<R, E>(
    sources: Vec<SubscriptionSource>,
    inputs: Vec<SubscriptionMergeInput<R>>,
) -> (r: GatherStep<R, E>)
    ensures
        r@ == next_source::<R, E>(sources.deep_view(), inputs.deep_view()),
{
    let mut remaining = sources;
    let ghost whole = remaining.deep_view();
    let ghost gathered = inputs.deep_view();
    while remaining.len() > 0
        invariant
            next_source::<R, E>(whole, gathered) == next_source::<R, E>(
                remaining.deep_view(),
                gathered,
            ),
            gathered == inputs.deep_view(),
        decreases remaining.len(),
    {
        let ghost before = remaining.deep_view();
        let source = remaining.remove(0);
        assert(source@ == before[0]);
        assert(remaining.deep_view() == before.skip(1));
        if source.enabled {
            return GatherStep::ReadCache(Gathering { source, remaining, inputs });
        }
    }
    GatherStep::Done(Ok(inputs))
}

/// Begins to gather the subscriptions that are switched on, each with its configuration.
pub fn subscription_merge_inputs<R, E>(sources: Result<Vec<SubscriptionSource>, E>) -> (r:
    GatherStep<R, E>)
    ensures
        r@ == (match sources {
            Ok(sources) => next_source::<R, E>(sources.deep_view(), Seq::empty()),
            Err(e) => GatherStepView::Done(Err(AppErrorView::Outside(e))),
        }),
{
    match sources {
        Ok(sources) => {
            let inputs: Vec<SubscriptionMergeInput<R>> = Vec::new();
            assert(inputs.deep_view() == Seq::<SubscriptionMergeInputView<R>>::empty());
            take_next_source(sources, inputs)
        },
        Err(e) => GatherStep::Done(Err(AppError::Outside(e))),
    }
}

impl<R> Gathering<R> {
    /// Goes on with what is cached of the subscription.
    pub fn cache_read<E>(self, cached: Result<Option<Vec<u8>>, E>) -> (r: GatherStep<R, E>)
        ensures
            r@ == after_cache(self@, cache_view(cached)),
    {
        match cached {
            Err(e) => GatherStep::Done(Err(AppError::Outside(e))),
            Ok(None) => take_next_source(self.remaining, self.inputs),
            Ok(Some(bytes)) => match decode_cached_subscription(bytes) {
                Ok(text) => GatherStep::Parse { text, state: self },
                Err(e) => GatherStep::Done(Err(AppError::Config(e))),
            },
        }
    }

    /// Goes on with the configuration of the subscription.
    pub fn parsed<E>(self, parsed: Result<ConfigDocument<R>, E>) -> (r: GatherStep<R, E>)
        ensures
            r@ == after_parse(self@, loaded_view(parsed)),
    {
        match parsed {
            Err(e) => GatherStep::Done(Err(AppError::Outside(e))),
            Ok(document) => {
                let mut inputs = self.inputs;
                let ghost before = inputs.deep_view();
                inputs.push(
                    SubscriptionMergeInput {
                        id: self.source.id,
                        display_name: self.source.name,
                        enabled: true,
                        document: document.typed,
                    },
                );
                assert(inputs.deep_view() == before.push(merge_input(self.source@, document@)));
                take_next_source(self.remaining, inputs)
            },
        }
    }
}

/// What one subscription contributes, for a store that reads like `read` and texts that stand for
/// configurations as `parse` has it: nothing where it is switched off or not cached.
pub open spec fn contribution<R, E>(
    source: SubscriptionSourceView,
    read: spec_fn(Seq<char>) -> Result<Option<Seq<u8>>, E>,
    parse: spec_fn(Seq<char>) -> Result<ConfigView<R>, E>,
) -> Result<Seq<SubscriptionMergeInputView<R>>, AppErrorView<E>> {
    if !source.enabled {
        Ok(Seq::empty())
    } else {
        match read(source.id) {
            Err(e) => Err(AppErrorView::Outside(e)),
            Ok(None) => Ok(Seq::empty()),
            Ok(Some(bytes)) => if !valid_utf8(bytes) {
                Err(AppErrorView::Config(not_text(utf8_error_text(bytes))))
            } else {
                match parse(decode_utf8(bytes)) {
                    Err(e) => Err(AppErrorView::Outside(e)),
                    Ok(document) => Ok(seq![merge_input(source, document)]),
                }
            },
        }
    }
}

/// What all subscriptions contribute, in their order. The first that fails fails all.
pub open spec fn contributions<R, E>(
    sources: Seq<SubscriptionSourceView>,
    read: spec_fn(Seq<char>) -> Result<Option<Seq<u8>>, E>,
    parse: spec_fn(Seq<char>) -> Result<ConfigView<R>, E>,
) -> Result<Seq<SubscriptionMergeInputView<R>>, AppErrorView<E>>
    decreases sources.len(),
{
    if sources.len() == 0 {
        Ok(Seq::empty())
    } else {
        match contribution(sources[0], read, parse) {
            Err(e) => Err(e),
            Ok(first) => match contributions(sources.skip(1), read, parse) {
                Err(e) => Err(e),
                Ok(others) => Ok(first + others),
            },
        }
    }
}

/// How much of a gathering is still to come.
pub open spec fn gather_length<R, E>(step: GatherStepView<R, E>) -> nat {
    match step {
        GatherStepView::ReadCache(state) => 2 * state.remaining.len() + 2,
        GatherStepView::Parse { text, state } => 2 * state.remaining.len() + 1,
        GatherStepView::Done(_) => 0,
    }
}

proof fn lemma_next_source_length<R, E>(
    remaining: Seq<SubscriptionSourceView>,
    inputs: Seq<SubscriptionMergeInputView<R>>,
)
    ensures
        gather_length(next_source::<R, E>(remaining, inputs)) <= 2 * remaining.len(),
    decreases remaining.len(),
{
    if remaining.len() > 0 && !remaining[0].enabled {
        lemma_next_source_length::<R, E>(remaining.skip(1), inputs);
    }
}

/// Every reply, whatever it is, brings a gathering nearer to its end.
pub proof fn law_gathering_ends<R, E>(
    state: GatheringView<R>,
    cached: Result<Option<Seq<u8>>, E>,
    text: Seq<char>,
    parsed: Result<ConfigView<R>, E>,
)
    ensures
        gather_length(after_cache(state, cached)) < gather_length(
            GatherStepView::<R, E>::ReadCache(state),
        ),
        gather_length(after_parse(state, parsed)) < gather_length(
            GatherStepView::<R, E>::Parse { text, state },
        ),
{
    lemma_next_source_length::<R, E>(state.remaining, state.inputs);
    match parsed {
        Ok(document) => {
            lemma_next_source_length::<R, E>(
                state.remaining,
                state.inputs.push(merge_input(state.source, document)),
            );
        },
        Err(e) => {},
    }
}

/// Where a gathering leads, for a store that reads like `read` and texts that stand for
/// configurations as `parse` has it.
pub open spec fn gather_run<R, E>(
    step: GatherStepView<R, E>,
    read: spec_fn(Seq<char>) -> Result<Option<Seq<u8>>, E>,
    parse: spec_fn(Seq<char>) -> Result<ConfigView<R>, E>,
) -> Result<Seq<SubscriptionMergeInputView<R>>, AppErrorView<E>>
    decreases gather_length(step),
{
    proof {
        match step {
            GatherStepView::ReadCache(state) => {
                law_gathering_ends(state, read(state.source.id), Seq::empty(), parse(Seq::empty()));
            },
            GatherStepView::Parse { text, state } => {
                law_gathering_ends(state, read(state.source.id), text, parse(text));
            },
            GatherStepView::Done(_) => {},
        }
    }
    match step {
        GatherStepView::ReadCache(state) => gather_run(
            after_cache(state, read(state.source.id)),
            read,
            parse,
        ),
        GatherStepView::Parse { text, state } => gather_run(
            after_parse(state, parse(text)),
            read,
            parse,
        ),
        GatherStepView::Done(result) => result,
    }
}

proof fn lemma_gather_run<R, E>(
    remaining: Seq<SubscriptionSourceView>,
    inputs: Seq<SubscriptionMergeInputView<R>>,
    read: spec_fn(Seq<char>) -> Result<Option<Seq<u8>>, E>,
    parse: spec_fn(Seq<char>) -> Result<ConfigView<R>, E>,
)
    ensures
        gather_run(next_source::<R, E>(remaining, inputs), read, parse) == (match contributions(
            remaining,
            read,
            parse,
        ) {
            Ok(others) => Ok(inputs + others),
            Err(e) => Err(e),
        }),
    decreases remaining.len(),
{
    if remaining.len() == 0 {
        assert(inputs + Seq::<SubscriptionMergeInputView<R>>::empty() == inputs);
    } else {
        let source = remaining[0];
        let rest = remaining.skip(1);
        match contribution(source, read, parse) {
            Ok(first) => {
                let more = inputs + first;
                lemma_gather_run(rest, more, read, parse);
                if first.len() == 0 {
                    assert(more == inputs);
                } else {
                    assert(more == inputs.push(first[0]));
                    let state = GatheringView { source, remaining: rest, inputs };
                    reveal_with_fuel(gather_run, 3);
                    assert(gather_run(GatherStepView::ReadCache(state), read, parse)
                        == gather_run(next_source::<R, E>(rest, more), read, parse));
                }
                match contributions(rest, read, parse) {
                    Ok(others) => {
                        assert(inputs + (first + others) == more + others);
                    },
                    Err(e) => {},
                }
            },
            Err(e) => {
                reveal_with_fuel(gather_run, 3);
            },
        }
    }
}

/// A gathering comes to what the subscriptions contribute: all that are switched on and cached, in
/// their order, and nothing of the others. One that cannot be read is reported, none is left out
/// in silence.
pub proof fn law_gathering<R, E>(
    sources: Seq<SubscriptionSourceView>,
    read: spec_fn(Seq<char>) -> Result<Option<Seq<u8>>, E>,
    parse: spec_fn(Seq<char>) -> Result<ConfigView<R>, E>,
)
    ensures
        gather_run(next_source::<R, E>(sources, Seq::empty()), read, parse) == contributions(
            sources,
            read,
            parse,
        ),
{
    lemma_gather_run(sources, Seq::empty(), read, parse);
    match contributions(sources, read, parse) {
        Ok(all) => {
            assert(Seq::<SubscriptionMergeInputView<R>>::empty() + all == all);
        },
        Err(e) => {},
    }
}

/// Each subscription counts for itself and comes before those behind it. One that is switched off
/// or not cached makes no difference. One that is cached takes part under its own id and name, with
/// the configuration that its text stands for. One that cannot be read, is no text or stands for no
/// configuration fails all, whatever comes behind it.
pub proof fn law_gather_one_more<R, E>(
    source: SubscriptionSourceView,
    rest: Seq<SubscriptionSourceView>,
    read: spec_fn(Seq<char>) -> Result<Option<Seq<u8>>, E>,
    parse: spec_fn(Seq<char>) -> Result<ConfigView<R>, E>,
)
    ensures
        gather_run(next_source::<R, E>(Seq::empty(), Seq::empty()), read, parse)
            matches Ok(inputs) && inputs.len() == 0,
        ({
            let others = gather_run(next_source::<R, E>(rest, Seq::empty()), read, parse);
            let all = gather_run(
                next_source::<R, E>(seq![source] + rest, Seq::empty()),
                read,
                parse,
            );
            if !source.enabled {
                all == others
            } else {
                match read(source.id) {
                    Err(e) => all == Err::<Seq<SubscriptionMergeInputView<R>>, _>(
                        AppErrorView::<E>::Outside(e),
                    ),
                    Ok(None) => all == others,
                    Ok(Some(bytes)) => if !valid_utf8(bytes) {
                        all == Err::<Seq<SubscriptionMergeInputView<R>>, _>(
                            AppErrorView::<E>::Config(
                                ConfigErrorView::Subscription(
                                    "订阅缓存不是有效 UTF-8 YAML: "@ + utf8_error_text(bytes),
                                ),
                            ),
                        )
                    } else {
                        match (parse(decode_utf8(bytes)), others) {
                            (Err(e), _) => all == Err::<Seq<SubscriptionMergeInputView<R>>, _>(
                                AppErrorView::<E>::Outside(e),
                            ),
                            (Ok(_), Err(e)) => all == others,
                            (Ok(document), Ok(inputs)) => {
                                &&& all matches Ok(found)
                                &&& found.len() == inputs.len() + 1
                                &&& found[0].id == source.id
                                &&& found[0].display_name == source.name
                                &&& found[0].enabled
                                &&& found[0].document == document
                                &&& found.skip(1) == inputs
                            },
                        }
                    },
                }
            }
        }),
{
    let sources = seq![source] + rest;
    law_gathering(sources, read, parse);
    law_gathering(rest, read, parse);
    law_gathering(Seq::empty(), read, parse);
    assert(sources.skip(1) == rest);
    match contributions(rest, read, parse) {
        Ok(inputs) => {
            assert(Seq::<SubscriptionMergeInputView<R>>::empty() + inputs == inputs);
            match contribution(source, read, parse) {
                Ok(first) => {
                    if first.len() > 0 {
                        assert((first + inputs).skip(1) == inputs);
                    }
                },
                Err(e) => {},
            }
        },
        Err(e) => {},
    }
}

/// The first subscription that is switched on gives the name, without white space around it, or the
/// fixed name of the local configuration where its own is blank. Those before it that are switched
/// off make no difference, and neither do those behind it. Without any the configuration is local.
pub proof fn law_active_name<R>(
    input: SubscriptionMergeInputView<R>,
    rest: Seq<SubscriptionMergeInputView<R>>,
)
    ensures
        active_name(Seq::<SubscriptionMergeInputView<R>>::empty()) == "本地配置"@,
        !input.enabled ==> active_name(seq![input] + rest) == active_name(rest),
        input.enabled && trimmed(input.display_name).len() > 0 ==> active_name(seq![input] + rest)
            == trimmed(input.display_name),
        input.enabled && trimmed(input.display_name).len() == 0 ==> active_name(seq![input] + rest)
            == "本地配置"@,
{
    assert((seq![input] + rest).skip(1) == rest);
}

/// What is cached of a subscription is a text exactly where it is UTF-8, and then the text that it
/// encodes. Else the complaint says what is wrong with it.
pub proof fn law_cached_text(bytes: Vec<u8>, decoded: Result<String, ConfigError>)
    requires
        call_ensures(decode_cached_subscription, (bytes,), decoded),
    ensures
        decoded is Ok <==> valid_utf8(bytes@),
        decoded matches Ok(text) ==> text@ == decode_utf8(bytes@),
        decoded matches Err(e) ==> e@ == ConfigErrorView::Subscription(
            "订阅缓存不是有效 UTF-8 YAML: "@ + utf8_error_text(bytes@),
        ),
{
}

} // verus!

//! Storing the override script and whether it has a say.

use vstd::prelude::*;

use crate::services::state::AppServices;
use crate::settings::AppSettings;

verus! {

/// What a change of the script does next.
#[derive(Debug, PartialEq, Eq)]
pub enum ScriptStep<S, E> {
    /// It awaits the settings.
    LoadSettings { enabled: bool },
    /// It awaits that the settings are stored.
    SaveSettings { settings: AppSettings<S> },
    /// It is over.
    Done(Result<(), E>),
}

impl<I> AppServices<I> {
    /// Goes on after the script was stored: it is then switched on or off.
    pub fn save_override_script<S, E>(&self, saved: Result<(), E>, enabled: bool) -> (r: ScriptStep<
        S,
        E,
    >)
        ensures
            r == (match saved {
                Ok(()) => ScriptStep::<S, E>::LoadSettings { enabled },
                Err(e) => ScriptStep::Done(Err(e)),
            }),
    {
        match saved {
            Ok(()) => self.set_override_script_enabled(enabled),
            Err(e) => ScriptStep::Done(Err(e)),
        }
    }

    /// Begins to switch the script on or off.
    pub fn set_override_script_enabled<S, E>(&self, enabled: bool) -> (r: ScriptStep<S, E>)
        ensures
            r == (ScriptStep::<S, E>::LoadSettings { enabled }),
    {
        ScriptStep::LoadSettings { enabled }
    }
}

/// Goes on with the settings, of which no other is changed.
pub fn override_script_settings_loaded<S, E>(
    enabled: bool,
    loaded: Result<AppSettings<S>, E>,
) -> (r: ScriptStep<S, E>)
    ensures
        r == (match loaded {
            Ok(settings) => ScriptStep::SaveSettings {
                settings: AppSettings { override_script_enabled: enabled, ..settings },
            },
            Err(e) => ScriptStep::Done(Err(e)),
        }),
{
    match loaded {
        Ok(settings) => {
            let mut settings = settings;
            settings.override_script_enabled = enabled;
            ScriptStep::SaveSettings { settings }
        },
        Err(e) => ScriptStep::Done(Err(e)),
    }
}

/// Ends with what came of storing the settings.
pub fn override_script_settings_saved<S, E>(saved: Result<(), E>) -> (r: ScriptStep<S, E>)
    ensures
        r == ScriptStep::<S, E>::Done(saved),
{
    ScriptStep::Done(saved)
}

/// A change of the script comes to store the settings as they were read, but for the switch of the
/// script, which is then as it was asked for. A failure to store the script, to read the settings
/// or to store them is the outcome, and nothing more is asked for after it.
pub proof fn law_script_change<I, S, E>(
    services: &AppServices<I>,
    script_saved: Result<(), E>,
    enabled: bool,
    loaded: Result<AppSettings<S>, E>,
    settings_saved: Result<(), E>,
    first: ScriptStep<S, E>,
    second: ScriptStep<S, E>,
    third: ScriptStep<S, E>,
)
    requires
        call_ensures(
            AppServices::<I>::save_override_script::<S, E>,
            (services, script_saved, enabled),
            first,
        ),
        call_ensures(override_script_settings_loaded::<S, E>, (enabled, loaded), second),
        call_ensures(override_script_settings_saved::<S, E>, (settings_saved,), third),
    ensures
        script_saved matches Err(e) ==> first == ScriptStep::<S, E>::Done(Err(e)),
        script_saved is Ok ==> first == (ScriptStep::<S, E>::LoadSettings { enabled }),
        loaded matches Err(e) ==> second == ScriptStep::<S, E>::Done(Err(e)),
        loaded matches Ok(before) ==> {
            &&& second matches ScriptStep::SaveSettings { settings }
            &&& settings.override_script_enabled == enabled
            &&& settings.system_proxy_enabled == before.system_proxy_enabled
            &&& settings.rest == before.rest
        },
        third == ScriptStep::<S, E>::Done(settings_saved),
{
}

} // verus!
